use vstd::prelude::*;

use crate::color::OurRGB8;

verus! {

/// The store after overwriting indices `[start, start + cs.len())` with `cs`,
/// clipped to the store's length.
pub open spec fn written(s: Seq<OurRGB8>, start: int, cs: Seq<OurRGB8>) -> Seq<OurRGB8> {
    Seq::new(s.len(), |i: int| if start <= i < start + cs.len() { cs[i - start] } else { s[i] })
}

/// How many colors a write of `m` colors at `start` lands in a store of `n`.
pub open spec fn clipped_count(n: int, start: int, m: int) -> int {
    if start >= n {
        0
    } else if m < n - start {
        m
    } else {
        n - start
    }
}

/// The addressable pixel store: a fixed-length sequence of colors.
pub struct PixelStore {
    pixels: Vec<OurRGB8>,
}

impl View for PixelStore {
    type V = Seq<OurRGB8>;

    closed spec fn view(&self) -> Seq<OurRGB8> {
        self.pixels@
    }
}

impl PixelStore {
    /// A store of `n` colors, all `(0, 0, 0)`.
    pub fn new(n: usize) -> (s: PixelStore)
        ensures
            s@ == Seq::new(n as nat, |i: int| OurRGB8::black()),
    {
        let mut pixels: Vec<OurRGB8> = Vec::with_capacity(n);
        let mut k: usize = 0;
        while k < n
            invariant
                k <= n,
                pixels@ == Seq::new(k as nat, |i: int| OurRGB8::black()),
            decreases n - k,
        {
            pixels.push(OurRGB8::new(0, 0, 0));
            k = k + 1;
            assert(pixels@ =~= Seq::new(k as nat, |i: int| OurRGB8::black()));
        }
        PixelStore { pixels }
    }

    /// The number of colors in the store.
    pub fn len(&self) -> (n: usize)
        ensures
            n == self@.len(),
    {
        self.pixels.len()
    }

    /// The color at index `i`, if the store has one.
    pub fn get(&self, i: usize) -> (c: Option<OurRGB8>)
        ensures
            c == (if i < self@.len() { Some(self@[i as int]) } else { None }),
    {
        if i < self.pixels.len() {
            Some(self.pixels[i])
        } else {
            None
        }
    }

    /// A full copy of the current colors.
    pub fn read_snapshot(&self) -> (snap: Vec<OurRGB8>)
        ensures
            snap@ == self@,
    {
        self.pixels.clone()
    }

    /// Overwrites indices `[start, start + colors.len())` with `colors`,
    /// dropping what falls past the end of the store. Returns how many
    /// colors were written.
    pub fn write_range(&mut self, start: usize, colors: &[OurRGB8]) -> (count: usize)
        ensures
            final(self)@ == written(old(self)@, start as int, colors@),
            count == clipped_count(old(self)@.len() as int, start as int, colors@.len() as int),
    {
        let n = self.pixels.len();
        let count: usize = if start >= n {
            0
        } else if colors.len() < n - start {
            colors.len()
        } else {
            n - start
        };
        let ghost pre = self@;
        let mut k: usize = 0;
        while k < count
            invariant
                k <= count,
                count == clipped_count(pre.len() as int, start as int, colors@.len() as int),
                n == pre.len(),
                self@.len() == pre.len(),
                forall|i: int|
                    0 <= i < pre.len() ==> #[trigger] self@[i] == (if start <= i < start + k {
                        colors@[i - start]
                    } else {
                        pre[i]
                    }),
            decreases count - k,
        {
            self.pixels.set(start + k, colors[k]);
            k = k + 1;
        }
        assert(self@ =~= written(pre, start as int, colors@));
        count
    }
}

} // verus!
