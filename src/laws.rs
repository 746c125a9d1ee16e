use vstd::prelude::*;

use crate::color::OurRGB8;
use crate::packet::{packet_error, PacketError, PROTOCOL_VERSION};
use crate::store::{clipped_count, written};

verus! {

/// Writing the same range twice leaves the store as writing it once does.
pub proof fn lemma_write_range_idempotent(s: Seq<OurRGB8>, start: int, cs: Seq<OurRGB8>)
    ensures
        written(written(s, start, cs), start, cs) == written(s, start, cs),
{
    assert(written(written(s, start, cs), start, cs) =~= written(s, start, cs));
}

/// A write never changes the store's length, and changes no index outside
/// `[start, start + count)`, where `count` is the number of colors that fit
/// between `start` and the end of the store.
pub proof fn lemma_write_range_in_bounds(s: Seq<OurRGB8>, start: int, cs: Seq<OurRGB8>)
    requires
        0 <= start,
    ensures
        written(s, start, cs).len() == s.len(),
        forall|i: int|
            0 <= i < s.len() && !(start <= i < start + clipped_count(s.len() as int, start, cs.len() as int))
                ==> #[trigger] written(s, start, cs)[i] == s[i],
{
}

/// A write moves the store from its old state to its new state in one step:
/// every index of the written range holds its new color whole, every other
/// index its old color, so no state mixes the two inside the range.
pub proof fn lemma_write_range_tear_free(s: Seq<OurRGB8>, start: int, cs: Seq<OurRGB8>)
    ensures
        forall|i: int|
            0 <= i < s.len() && start <= i < start + cs.len()
                ==> #[trigger] written(s, start, cs)[i] == cs[i - start],
        forall|i: int|
            0 <= i < s.len() && !(start <= i < start + cs.len())
                ==> #[trigger] written(s, start, cs)[i] == s[i],
        written(s, start, cs).len() == s.len(),
{
}

/// A packet whose first byte is not the protocol tag is rejected, so
/// applying it leaves the store unchanged.
pub proof fn lemma_wrong_tag_rejected(data: Seq<u8>)
    requires
        data.len() > 0,
        data[0] != PROTOCOL_VERSION,
    ensures
        packet_error(data) == Some(PacketError::WrongKind),
{
}

} // verus!
