//! Decoding of the controller: buttons and the analog stick.

use vstd::prelude::*;
use crate::vector::Vec2;

verus! {

/// Every button of the console.
#[derive(Clone, Copy, Debug)]
pub enum Buttons {
    Select,
    Start,
    Up,
    Right,
    Down,
    Left,
    LTrigger,
    RTrigger,
    Triangle,
    Circle,
    Cross,
    Square,
    Home,
    Hold,
    MusicNote,
    Screen,
    VolumeUp,
    VolumeDown,
}

impl Buttons {
    /// The bit that the controller sets while the button is held.
    pub open spec fn spec_as_ctrl_buttons(self) -> u32 {
        match self {
            Buttons::Select => 0x000001,
            Buttons::Start => 0x000008,
            Buttons::Up => 0x000010,
            Buttons::Right => 0x000020,
            Buttons::Down => 0x000040,
            Buttons::Left => 0x000080,
            Buttons::LTrigger => 0x000100,
            Buttons::RTrigger => 0x000200,
            Buttons::Triangle => 0x001000,
            Buttons::Circle => 0x002000,
            Buttons::Cross => 0x004000,
            Buttons::Square => 0x008000,
            Buttons::Home => 0x010000,
            Buttons::Hold => 0x020000,
            Buttons::MusicNote => 0x800000,
            Buttons::Screen => 0x400000,
            Buttons::VolumeUp => 0x100000,
            Buttons::VolumeDown => 0x200000,
        }
    }

    /// The bit that the controller sets while the button is held.
    pub fn as_ctrl_buttons(self) -> (mask: u32)
        ensures
            mask == self.spec_as_ctrl_buttons(),
    {
        match self {
            Buttons::Select => 0x000001,
            Buttons::Start => 0x000008,
            Buttons::Up => 0x000010,
            Buttons::Right => 0x000020,
            Buttons::Down => 0x000040,
            Buttons::Left => 0x000080,
            Buttons::LTrigger => 0x000100,
            Buttons::RTrigger => 0x000200,
            Buttons::Triangle => 0x001000,
            Buttons::Circle => 0x002000,
            Buttons::Cross => 0x004000,
            Buttons::Square => 0x008000,
            Buttons::Home => 0x010000,
            Buttons::Hold => 0x020000,
            Buttons::MusicNote => 0x800000,
            Buttons::Screen => 0x400000,
            Buttons::VolumeUp => 0x100000,
            Buttons::VolumeDown => 0x200000,
        }
    }
}

/// One reading of the controller.
#[derive(Clone, Copy, Debug)]
pub struct PadData {
    /// Bit mask of the buttons that are held.
    pub buttons: u32,
    /// Analog stick, X axis.
    pub lx: u8,
    /// Analog stick, Y axis.
    pub ly: u8,
}

impl PadData {
    /// The button is held in this reading.
    pub open spec fn spec_holds(self, button: Buttons) -> bool {
        self.buttons & button.spec_as_ctrl_buttons() == button.spec_as_ctrl_buttons()
    }

    /// The button is held in this reading.
    pub fn holds(&self, button: Buttons) -> (held: bool)
        ensures
            held == self.spec_holds(button),
    {
        let mask: u32 = button.as_ctrl_buttons();
        self.buttons & mask == mask
    }
}

/// The last two readings of the controller.
pub struct InputManager {
    pad_data: PadData,
    last_pad_data: PadData,
}

/// The input manager as contracts see it.
pub struct InputView {
    pub pad_data: PadData,
    pub last_pad_data: PadData,
}

pub const DEADZONE: i32 = 10;

pub const MAX_SPEED: i32 = 5;

pub const SPEED_MODIFIER: i32 = 25;

/// `value / 25`, rounded toward zero.
pub open spec fn spec_scale_toward_zero(value: int) -> int {
    if value >= 0 {
        value / 25
    } else {
        -((-value) / 25)
    }
}

/// The stick's speed along one axis for a raw reading: the distance from
/// the centre at 127, shortened by the dead zone of 10 around it, in steps
/// of 25.
pub open spec fn spec_analog_delta(raw_val: u8) -> int {
    let delta = raw_val - 127;
    if -10 < delta < 10 {
        0
    } else if delta < -10 {
        spec_scale_toward_zero(delta + 10)
    } else {
        spec_scale_toward_zero(delta - 10)
    }
}

/// Turns a raw reading of one axis of the stick into a speed between -4
/// and 4, zero inside the dead zone.
pub fn convert_analog_to_delta_with_sensitivity_deadzone(raw_val: u8) -> (speed: i32)
    ensures
        speed == spec_analog_delta(raw_val),
        -4 <= speed <= 4,
{
    let delta_val: i32 = (raw_val as i32) - 127;
    let distance_without_deadzone: i32 = if delta_val > -DEADZONE && delta_val < DEADZONE {
        0
    } else if delta_val < -DEADZONE {
        delta_val + DEADZONE
    } else {
        delta_val - DEADZONE
    };
    if distance_without_deadzone >= 0 {
        distance_without_deadzone / SPEED_MODIFIER
    } else {
        -((-distance_without_deadzone) / SPEED_MODIFIER)
    }
}

impl View for InputManager {
    type V = InputView;

    closed spec fn view(&self) -> InputView {
        InputView { pad_data: self.pad_data, last_pad_data: self.last_pad_data }
    }
}

impl InputManager {
    /// A manager that has read nothing yet: no button held, stick at zero.
    pub fn new() -> (manager: InputManager)
        ensures
            manager@.pad_data == (PadData { buttons: 0, lx: 0, ly: 0 }),
            manager@.last_pad_data == (PadData { buttons: 0, lx: 0, ly: 0 }),
    {
        InputManager {
            pad_data: PadData { buttons: 0, lx: 0, ly: 0 },
            last_pad_data: PadData { buttons: 0, lx: 0, ly: 0 },
        }
    }

    /// Takes the reading of this tick; the one before becomes the last.
    pub fn update(&mut self, pad_data: PadData)
        ensures
            final(self)@.pad_data == pad_data,
            final(self)@.last_pad_data == old(self)@.pad_data,
    {
        self.last_pad_data = self.pad_data;
        self.pad_data = pad_data;
    }

    /// The button is down. Repeats while it is held.
    pub fn is_key_down(&mut self, button: Buttons) -> (down: bool)
        ensures
            final(self)@ == old(self)@,
            down == old(self)@.pad_data.spec_holds(button),
    {
        self.pad_data.holds(button)
    }

    /// The button is up. Repeats while it is released.
    pub fn is_key_up(&mut self, button: Buttons) -> (up: bool)
        ensures
            final(self)@ == old(self)@,
            up == !old(self)@.pad_data.spec_holds(button),
    {
        !self.pad_data.holds(button)
    }

    /// The button is down and was up at the last reading.
    pub fn is_key_down_changed(&mut self, button: Buttons) -> (pressed: bool)
        ensures
            final(self)@ == old(self)@,
            pressed == (old(self)@.pad_data.spec_holds(button) && !old(
                self,
            )@.last_pad_data.spec_holds(button)),
    {
        self.pad_data.holds(button) && !self.last_pad_data.holds(button)
    }

    /// The button is up and was down at the last reading.
    pub fn is_key_up_changed(&mut self, button: Buttons) -> (released: bool)
        ensures
            final(self)@ == old(self)@,
            released == (!old(self)@.pad_data.spec_holds(button) && old(
                self,
            )@.last_pad_data.spec_holds(button)),
    {
        !self.pad_data.holds(button) && self.last_pad_data.holds(button)
    }

    /// The stick's speed along both axes, each between -4 and 4.
    pub fn get_analog_pos(&mut self) -> (pos: Vec2<i32>)
        ensures
            final(self)@ == old(self)@,
            pos.x == spec_analog_delta(old(self)@.pad_data.lx),
            pos.y == spec_analog_delta(old(self)@.pad_data.ly),
    {
        let x: i32 = convert_analog_to_delta_with_sensitivity_deadzone(self.pad_data.lx);
        let y: i32 = convert_analog_to_delta_with_sensitivity_deadzone(self.pad_data.ly);
        Vec2::new(x, y)
    }
}

} // verus!
