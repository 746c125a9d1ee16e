use led_controller::{
    correct, correct_frame, decode_packet, gamma_frame, hue_frame, next_tick, render_addressable,
    render_global, wheel, Breathing, GlobalRenderer, HueWheel, LedControls, OurRGB8, PacketError,
    PixelStore,
};

fn rgb(r: u8, g: u8, b: u8) -> OurRGB8 {
    OurRGB8::new(r, g, b)
}

fn black() -> OurRGB8 {
    rgb(0, 0, 0)
}

#[test]
fn packet_writes_two_pixels_of_ten() {
    let mut store = PixelStore::new(10);
    let packet = [4u8, 0, 0x00, 0x02, 10, 20, 30, 40, 50, 60];
    assert_eq!(store.apply_packet(&packet), Ok(2));
    let snap = store.read_snapshot();
    assert_eq!(snap.len(), 10);
    for (i, c) in snap.iter().enumerate() {
        match i {
            2 => assert_eq!(*c, rgb(10, 20, 30)),
            3 => assert_eq!(*c, rgb(40, 50, 60)),
            _ => assert_eq!(*c, black()),
        }
    }
}

#[test]
fn packet_at_last_index_writes_only_that_index() {
    let mut store = PixelStore::new(10);
    let packet = [4u8, 0, 0x00, 0x09, 1, 2, 3, 4, 5, 6];
    assert_eq!(store.apply_packet(&packet), Ok(1));
    let snap = store.read_snapshot();
    assert_eq!(snap.len(), 10);
    for i in 0..9 {
        assert_eq!(snap[i], black());
    }
    assert_eq!(snap[9], rgb(1, 2, 3));
}

#[test]
fn packet_past_the_end_writes_nothing() {
    let mut store = PixelStore::new(10);
    let packet = [4u8, 0, 0x01, 0x00, 1, 2, 3];
    assert_eq!(store.apply_packet(&packet), Ok(0));
    assert_eq!(store.read_snapshot(), vec![black(); 10]);
}

#[test]
fn packet_partial_triple_is_ignored() {
    let mut store = PixelStore::new(4);
    let packet = [4u8, 0, 0x00, 0x00, 7, 8, 9, 10, 11];
    assert_eq!(store.apply_packet(&packet), Ok(1));
    assert_eq!(
        store.read_snapshot(),
        vec![rgb(7, 8, 9), black(), black(), black()]
    );
}

#[test]
fn same_full_write_twice_equals_once() {
    let colors: Vec<OurRGB8> = (0..5u8).map(|i| rgb(i, i * 2, i * 3)).collect();
    let mut once = PixelStore::new(5);
    assert_eq!(once.write_range(0, &colors), 5);
    let mut twice = PixelStore::new(5);
    twice.write_range(0, &colors);
    twice.write_range(0, &colors);
    assert_eq!(once.read_snapshot(), twice.read_snapshot());
    assert_eq!(once.read_snapshot(), colors);
}

#[test]
fn write_range_is_clipped_to_the_store() {
    let mut store = PixelStore::new(3);
    let colors = vec![rgb(1, 1, 1), rgb(2, 2, 2), rgb(3, 3, 3)];
    assert_eq!(store.write_range(2, &colors), 1);
    assert_eq!(store.read_snapshot(), vec![black(), black(), rgb(1, 1, 1)]);
    assert_eq!(store.write_range(3, &colors), 0);
    assert_eq!(store.write_range(usize::MAX, &colors), 0);
    assert_eq!(store.len(), 3);
    assert_eq!(store.get(2), Some(rgb(1, 1, 1)));
    assert_eq!(store.get(3), None);
}

#[test]
fn wrong_tag_changes_nothing() {
    let mut store = PixelStore::new(10);
    store.write_range(0, &[rgb(9, 9, 9)]);
    let before = store.read_snapshot();
    let packet = [5u8, 0, 0x00, 0x00, 10, 20, 30];
    assert_eq!(store.apply_packet(&packet), Err(PacketError::WrongKind));
    assert_eq!(store.read_snapshot(), before);
}

#[test]
fn truncated_packets_are_rejected() {
    let mut store = PixelStore::new(10);
    assert_eq!(store.apply_packet(&[]), Err(PacketError::Truncated));
    assert_eq!(store.apply_packet(&[4, 0, 0]), Err(PacketError::Truncated));
    assert_eq!(store.apply_packet(&[3, 0]), Err(PacketError::WrongKind));
    assert_eq!(store.read_snapshot(), vec![black(); 10]);
}

#[test]
fn decode_reads_header_and_triples() {
    let p = match decode_packet(&[4, 17, 0x01, 0x02, 1, 2, 3, 4]) {
        Ok(p) => p,
        Err(e) => panic!("unexpected {:?}", e),
    };
    assert_eq!(p.kind, 4);
    assert_eq!(p.reserved, 17);
    assert_eq!(p.start_index, 258);
    assert_eq!(p.colors, vec![rgb(1, 2, 3)]);
}

#[test]
fn gamma_is_monotone_on_every_pair() {
    let raw: Vec<OurRGB8> = (0..=255u8).map(|c| rgb(c, c, c)).collect();
    let out = gamma_frame(&raw);
    assert_eq!(out.len(), 256);
    for a in 0..256usize {
        for b in (a + 1)..256usize {
            assert!(out[a].r <= out[b].r);
            assert!(out[a].g <= out[b].g);
            assert!(out[a].b <= out[b].b);
        }
    }
}

#[test]
fn gamma_table_values() {
    let out = gamma_frame(&vec![rgb(0, 128, 255), rgb(100, 200, 30)]);
    assert_eq!(out, vec![rgb(0, 37, 255), rgb(19, 129, 1)]);
}

#[test]
fn render_addressable_corrects_each_pixel() {
    let snap = vec![rgb(255, 100, 0), rgb(50, 180, 75)];
    assert_eq!(render_addressable(&snap), vec![rgb(255, 19, 0), rgb(3, 96, 8)]);
}

#[test]
fn brightness_scales_after_gamma() {
    assert_eq!(correct(rgb(255, 255, 255), 255), rgb(255, 255, 255));
    assert_eq!(correct(rgb(255, 128, 0), 127), rgb(127, 18, 0));
    assert_eq!(correct(rgb(255, 255, 255), 0), rgb(0, 0, 0));
    assert_eq!(
        correct_frame(&vec![rgb(200, 255, 100), rgb(0, 0, 0)], 30),
        vec![rgb(15, 30, 2), rgb(0, 0, 0)]
    );
}

#[test]
fn power_off_renders_black() {
    let controls = LedControls { color: rgb(255, 255, 255), power: false };
    for level in [0u8, 30, 200, 255] {
        assert_eq!(render_global(controls, level, 7), vec![black(); 7]);
    }
    let mut r = GlobalRenderer::breathing();
    for _ in 0..400 {
        assert_eq!(r.tick(controls, 5), vec![black(); 5]);
    }
}

#[test]
fn toggle_power_turns_output_on() {
    let mut controls = LedControls::new();
    assert!(!controls.power);
    assert_eq!(controls.color, black());
    controls.set_color(rgb(255, 0, 0));
    let mut r = GlobalRenderer::breathing();
    assert_eq!(r.tick(controls, 4), vec![black(); 4]);
    controls.toggle_power();
    assert!(controls.power);
    assert_eq!(controls.color, rgb(255, 0, 0));
    let frame = r.tick(controls, 4);
    assert_eq!(frame.len(), 4);
    assert!(frame.iter().all(|c| *c != black()));
    assert_eq!(frame[0], rgb(31, 0, 0));
    controls.set_power(false);
    assert_eq!(r.tick(controls, 4), vec![black(); 4]);
}

#[test]
fn render_global_on_repeats_corrected_color() {
    let controls = LedControls { color: rgb(128, 255, 0), power: true };
    assert_eq!(render_global(controls, 255, 3), vec![rgb(37, 255, 0); 3]);
    assert_eq!(render_global(controls, 255, 0), vec![]);
}

#[test]
fn hue_wheel_at_phase_zero_of_ten() {
    let frame = hue_frame(0, 10);
    assert_eq!(frame.len(), 10);
    assert_eq!(frame[0], wheel(0));
    assert_eq!(frame[1], wheel(25));
    assert_eq!(frame[0], rgb(255, 0, 0));
    assert_eq!(frame[1], rgb(180, 0, 75));
    assert_eq!(frame[9], wheel(230));
    assert_eq!(HueWheel::new().frame(10), frame);
}

#[test]
fn hue_frame_shifts_with_phase() {
    let frame = hue_frame(300, 4);
    assert_eq!(frame, vec![wheel(44), wheel(108), wheel(172), wheel(236)]);
}

#[test]
fn wheel_piecewise_values() {
    assert_eq!(wheel(0), rgb(255, 0, 0));
    assert_eq!(wheel(84), rgb(3, 0, 252));
    assert_eq!(wheel(85), rgb(0, 0, 255));
    assert_eq!(wheel(100), rgb(0, 45, 210));
    assert_eq!(wheel(170), rgb(0, 255, 0));
    assert_eq!(wheel(200), rgb(90, 165, 0));
    assert_eq!(wheel(255), rgb(255, 0, 0));
}

#[test]
fn hue_phase_wraps_after_five_turns() {
    let mut h = HueWheel::new();
    assert_eq!(h.phase(), 0);
    for _ in 0..1279 {
        h.advance();
    }
    assert_eq!(h.phase(), 1279);
    h.advance();
    assert_eq!(h.phase(), 0);
}

#[test]
fn breathing_ramps_up_and_down() {
    let mut b = Breathing::new();
    assert_eq!(b.level(), 30);
    for _ in 0..170 {
        b.advance();
    }
    assert_eq!(b.level(), 200);
    b.advance();
    assert_eq!(b.level(), 199);
    for _ in 0..168 {
        b.advance();
    }
    assert_eq!(b.level(), 31);
    b.advance();
    assert_eq!(b.level(), 30);
}

#[test]
fn next_tick_keeps_cadence_without_backlog() {
    assert_eq!(next_tick(100, 103, 10), 110);
    assert_eq!(next_tick(100, 110, 10), 110);
    assert_eq!(next_tick(100, 137, 10), 137);
}

#[test]
fn new_store_is_black() {
    let store = PixelStore::new(391);
    assert_eq!(store.len(), 391);
    assert_eq!(store.read_snapshot(), vec![OurRGB8::default(); 391]);
    assert_eq!(PixelStore::new(0).len(), 0);
}

#[test]
fn hue_renderer_respects_power() {
    let mut controls = LedControls::new();
    let mut r = GlobalRenderer::hue_wheel();
    assert_eq!(r.tick(controls, 10), vec![black(); 10]);
    controls.toggle_power();
    let frame = r.tick(controls, 10);
    assert_eq!(frame, hue_frame(1, 10));
    assert_eq!(frame[0], wheel(1));
    assert_eq!(frame[1], wheel(26));
    controls.set_power(false);
    for _ in 0..1300 {
        assert_eq!(r.tick(controls, 3), vec![black(); 3]);
    }
}
