use ubit::leds::images::Glyph;
use ubit::package::Package;
use ubit::state::{button_state, radio_state, reaction, ProgramState, Reaction};

fn idle_at(state: u32, now: u32) -> ProgramState {
    let mut s = ProgramState::new();
    s.schedule(state, Some(0), now);
    assert_eq!(s.tick(now), Some(state));
    s
}

#[test]
fn start_up_state() {
    let mut s = ProgramState::new();
    assert_eq!(s.current_state(), 0);
    assert_eq!(s.change_at(), 10);
    assert_eq!(s.tick(9), None);
    assert_eq!(s.on_tick(10), None);
    assert_eq!(s.current_state(), u32::MAX);
    assert_eq!(s.next_state(), 0);
    assert_eq!(s.change_at(), 11);
    assert_eq!(s.on_tick(11), Some(Glyph::MidDot));
    assert_eq!(s.current_state(), 0);
    assert_eq!(s.next_state(), 1);
}

#[test]
fn button_a_while_idle() {
    let now = 40;
    let mut s = idle_at(2, now - 1);
    s.schedule(3, None, now - 1);
    s.on_buttons(true, false, now);
    assert_eq!(s.next_state(), 100);
    assert_eq!(s.change_at(), now + 1);
    assert_eq!(s.on_tick(now + 1), Some(Glyph::Happy));
    assert_eq!(s.current_state(), 100);
    assert_eq!(s.next_state(), 0);
    assert_eq!(s.change_at(), now + 1 + 10);
}

#[test]
fn newest_schedule_wins() {
    let mut s = idle_at(0, 5);
    s.schedule(1, Some(3), 5);
    s.schedule(4, Some(7), 6);
    assert_eq!(s.change_at(), 13);
    for t in 6..13 {
        assert_eq!(s.tick(t), None);
    }
    assert_eq!(s.tick(13), Some(4));
    assert_eq!(s.current_state(), 4);
    assert_eq!(s.change_at(), 0);
    assert_eq!(s.tick(14), None);
}

#[test]
fn idle_cycle() {
    let glyphs = [
        Glyph::MidDot,
        Glyph::LittleHeart,
        Glyph::Heart,
        Glyph::LittleHeart,
        Glyph::MidDot,
        Glyph::Clear,
    ];
    for (i, g) in glyphs.iter().enumerate() {
        assert_eq!(
            reaction(i as u32),
            Reaction { glyph: Some(*g), next_state: ((i + 1) % 6) as u32, delay: 1 }
        );
    }
}

#[test]
fn reactions_return_to_idle() {
    for (state, g) in [
        (100, Glyph::Happy),
        (101, Glyph::Sad),
        (102, Glyph::Phantom),
        (200, Glyph::Happy),
        (201, Glyph::Sad),
        (202, Glyph::Phantom),
    ] {
        assert_eq!(reaction(state), Reaction { glyph: Some(g), next_state: 0, delay: 10 });
    }
    for state in [6, 99, 103, 203, u32::MAX] {
        assert_eq!(reaction(state), Reaction { glyph: None, next_state: 0, delay: 1 });
    }
}

#[test]
fn buttons() {
    assert_eq!(button_state(false, false), None);
    assert_eq!(button_state(true, false), Some(100));
    assert_eq!(button_state(false, true), Some(101));
    assert_eq!(button_state(true, true), Some(102));
    let mut s = idle_at(3, 20);
    s.on_buttons(false, false, 21);
    assert_eq!(s.change_at(), 0);
    s.on_buttons(true, true, 21);
    assert_eq!(s.next_state(), 102);
    assert_eq!(s.change_at(), 22);
}

fn integer_datagram(length: u8, type_byte: u8, value: i32) -> Vec<u8> {
    let mut b = vec![length, 1, 1, 1, type_byte, 0, 0, 0, 0, 0, 0, 0, 0];
    b.extend_from_slice(&value.to_le_bytes());
    b
}

#[test]
fn radio_values() {
    for v in 0..3 {
        let p = Package::unpack(&integer_datagram(16, 0, v));
        assert_eq!(radio_state(&p), Some(200 + v as u32));
    }
    for v in [-1, 3, 1000, i32::MIN] {
        let p = Package::unpack(&integer_datagram(16, 0, v));
        assert_eq!(radio_state(&p), None);
    }
    let mut named = integer_datagram(17, 1, 2);
    named.push(0);
    assert_eq!(radio_state(&Package::unpack(&named)), Some(202));
    assert_eq!(radio_state(&Package::unpack(&integer_datagram(16, 3, 1))), None);
    let mut s = idle_at(4, 50);
    s.on_package(&Package::unpack(&integer_datagram(16, 0, 1)), 51);
    assert_eq!(s.next_state(), 201);
    assert_eq!(s.change_at(), 52);
    s.on_package(&Package::unpack(&integer_datagram(12, 0, 1)), 52);
    assert_eq!(s.next_state(), 201);
}
