use deurbel::gong_control::{encode_burst, Gongcontrol, Pulse, PULSES_PER_FRAME, FRAMES_PER_BURST};

fn hi(micros: u32) -> Pulse {
    Pulse { high: true, micros }
}

fn lo(micros: u32) -> Pulse {
    Pulse { high: false, micros }
}

#[test]
fn burst_holds_sixteen_frames_of_132_pulses() {
    let burst = encode_burst(37877946, 0, 251);
    assert_eq!(PULSES_PER_FRAME, 132);
    assert_eq!(FRAMES_PER_BURST, 16);
    assert_eq!(burst.len(), 16 * 132);
    for f in 1..16 {
        assert_eq!(burst[f * 132..(f + 1) * 132], burst[0..132]);
    }
}

#[test]
fn frame_starts_and_ends_with_fixed_pulses() {
    let burst = encode_burst(37877946, 0, 251);
    assert_eq!(burst[0], hi(251));
    assert_eq!(burst[1], lo(2635));
    assert_eq!(burst[130], hi(251));
    assert_eq!(burst[131], lo(10040));
}

#[test]
fn one_and_zero_slots_at_reference_period() {
    // 37877946 has bit 25 set and bit 24 clear
    let burst = encode_burst(37877946, 0, 251);
    assert_eq!(burst[2..6], [hi(251), lo(1255), hi(251), lo(251)]);
    assert_eq!(burst[6..10], [hi(251), lo(251), hi(251), lo(1255)]);
    assert_eq!(burst[3].micros, 5 * burst[7].micros);
}

#[test]
fn function_and_unit_bits_follow_the_address() {
    let burst = encode_burst(0, 0b1010, 10);
    let one = [hi(10), lo(50), hi(10), lo(10)];
    let zero = [hi(10), lo(10), hi(10), lo(50)];
    for slot in 0..26 {
        assert_eq!(burst[2 + 4 * slot..6 + 4 * slot], zero);
    }
    assert_eq!(burst[106..110], one);
    assert_eq!(burst[110..114], one);
    assert_eq!(burst[114..118], one);
    assert_eq!(burst[118..122], zero);
    assert_eq!(burst[122..126], one);
    assert_eq!(burst[126..130], zero);
}

#[test]
fn levels_alternate_whatever_the_address() {
    let a = encode_burst(37877946, 0, 251);
    let b = encode_burst(0x3ff_ffff, 15, 251);
    for (k, (x, y)) in a.iter().zip(b.iter()).enumerate() {
        assert_eq!(x.high, k % 2 == 0);
        assert_eq!(x.high, y.high);
    }
    assert_ne!(a, b);
}

#[test]
fn encoding_twice_gives_the_same_burst() {
    assert_eq!(encode_burst(12345, 3, 200), encode_burst(12345, 3, 200));
}

#[test]
fn wide_values_are_truncated() {
    assert_eq!(encode_burst((1 << 26) | 5, 0x15, 99), encode_burst(5, 5, 99));
}

#[test]
fn ring_sends_unit_zero_at_the_configured_address() {
    let gong = Gongcontrol::new(37877946, 251, 1);
    assert_eq!(gong.ring(), encode_burst(37877946, 0, 251));
}

#[test]
fn setters_change_the_burst() {
    let mut gong = Gongcontrol::new(1, 10, 1);
    gong.set_address(2);
    gong.set_period(20);
    gong.set_switch_type(3);
    assert_eq!(gong.ring(), encode_burst(2, 0, 20));
}
