use spspf::colors::{Color, Colors};
use spspf::input::{
    convert_analog_to_delta_with_sensitivity_deadzone, Buttons, InputManager, PadData,
};
use spspf::random::rnd_range;
use spspf::vector::{Vec2, Vec3};

#[test]
fn vectors_keep_their_coordinates() {
    let v = Vec3::new(1, 2, 3);
    assert_eq!((v.x, v.y, v.z), (1, 2, 3));
    let w = Vec2::new("a", "b");
    assert_eq!((w.x, w.y), ("a", "b"));
    let d: Vec2<i32> = Vec2::default();
    assert_eq!((d.x, d.y), (0, 0));
}

#[test]
fn colors_pack_as_abgr() {
    assert_eq!(Color::new(1, 2, 3, 4).as_abgr(), 0x0403_0201);
    assert_eq!(Color::new(255, 255, 255, 255).as_abgr(), 0xffff_ffff);
    assert_eq!(Color::new(0, 0, 0, 0).as_abgr(), 0);
}

#[test]
fn preset_colors() {
    assert_eq!(Colors::BLACK.as_color().as_abgr(), 0xff00_0000);
    assert_eq!(Colors::RED.as_color().as_abgr(), 0xff00_00ff);
    assert_eq!(Colors::GREEN.as_color().as_abgr(), 0xff00_ff00);
    assert_eq!(Colors::BLUE.as_color().as_abgr(), 0xffff_0000);
    assert_eq!(Colors::YELLOW.as_color().as_abgr(), 0xff00_ffff);
    assert_eq!(Colors::MAGENTA.as_color().as_abgr(), 0xffff_00ff);
    assert_eq!(Colors::CYAN.as_color().as_abgr(), 0xffff_ff00);
    assert_eq!(Colors::WHITE.as_color().as_abgr(), 0xffff_ffff);
}

#[test]
fn analog_stick_has_a_dead_zone() {
    assert_eq!(convert_analog_to_delta_with_sensitivity_deadzone(127), 0);
    assert_eq!(convert_analog_to_delta_with_sensitivity_deadzone(136), 0);
    assert_eq!(convert_analog_to_delta_with_sensitivity_deadzone(118), 0);
    assert_eq!(convert_analog_to_delta_with_sensitivity_deadzone(117), 0);
    assert_eq!(convert_analog_to_delta_with_sensitivity_deadzone(137), 0);
    assert_eq!(convert_analog_to_delta_with_sensitivity_deadzone(162), 1);
    assert_eq!(convert_analog_to_delta_with_sensitivity_deadzone(161), 0);
    assert_eq!(convert_analog_to_delta_with_sensitivity_deadzone(92), -1);
    assert_eq!(convert_analog_to_delta_with_sensitivity_deadzone(93), 0);
    assert_eq!(convert_analog_to_delta_with_sensitivity_deadzone(255), 4);
    assert_eq!(convert_analog_to_delta_with_sensitivity_deadzone(0), -4);
}

#[test]
fn button_masks() {
    assert_eq!(Buttons::Select.as_ctrl_buttons(), 0x000001);
    assert_eq!(Buttons::Start.as_ctrl_buttons(), 0x000008);
    assert_eq!(Buttons::Cross.as_ctrl_buttons(), 0x004000);
    assert_eq!(Buttons::MusicNote.as_ctrl_buttons(), 0x800000);
    assert_eq!(Buttons::VolumeDown.as_ctrl_buttons(), 0x200000);
}

#[test]
fn input_manager_tracks_two_readings() {
    let mut input = InputManager::new();
    assert!(input.is_key_up(Buttons::Cross));
    assert!(!input.is_key_down(Buttons::Cross));
    input.update(PadData { buttons: 0x004000 | 0x000010, lx: 255, ly: 0 });
    assert!(input.is_key_down(Buttons::Cross));
    assert!(input.is_key_down(Buttons::Up));
    assert!(input.is_key_up(Buttons::Start));
    assert!(input.is_key_down_changed(Buttons::Cross));
    assert!(!input.is_key_up_changed(Buttons::Cross));
    let pos = input.get_analog_pos();
    assert_eq!((pos.x, pos.y), (4, -4));
    input.update(PadData { buttons: 0x000010, lx: 127, ly: 127 });
    assert!(!input.is_key_down_changed(Buttons::Up));
    assert!(input.is_key_down(Buttons::Up));
    assert!(input.is_key_up_changed(Buttons::Cross));
    assert!(!input.is_key_down(Buttons::Cross));
    let pos = input.get_analog_pos();
    assert_eq!((pos.x, pos.y), (0, 0));
    input.update(PadData { buttons: 0, lx: 127, ly: 127 });
    assert!(!input.is_key_up_changed(Buttons::Cross));
    assert!(input.is_key_up_changed(Buttons::Up));
}

#[test]
fn random_word_is_scaled_into_the_range() {
    assert_eq!(rnd_range(0..9, 0), Some(0));
    assert_eq!(rnd_range(0..9, u32::MAX), Some(9));
    assert_eq!(rnd_range(0..9, 0x8000_0000), Some(5));
    assert_eq!(rnd_range(0..9, 0x1999_9999), Some(0));
    assert_eq!(rnd_range(0..9, 0x1999_999a), Some(1));
    assert_eq!(rnd_range(5..5, 12345), Some(5));
    assert_eq!(rnd_range(-3..3, u32::MAX), Some(3));
    assert_eq!(rnd_range(-3..3, 0), Some(-3));
    assert_eq!(rnd_range(i32::MIN..i32::MAX - 1, u32::MAX), Some(i32::MAX - 1));
}

#[test]
fn random_pick_wraps_round_when_the_range_runs_downward() {
    assert_eq!(rnd_range(5..0, 0), Some(5));
    assert_eq!(rnd_range(5..0, 0x8000_0000), Some(-2147483645));
}

#[test]
fn random_pick_stays_in_the_range_for_many_words() {
    let mut word: u32 = 1;
    for _ in 0..1000 {
        word = word.wrapping_mul(1664525).wrapping_add(1013904223);
        let picked = rnd_range(-10..10, word).unwrap();
        assert!((-10..=10).contains(&picked));
    }
}
