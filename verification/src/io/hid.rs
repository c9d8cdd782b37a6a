//! Human interface devices: usages, and the items of a report descriptor.

use vstd::prelude::*;
use vstd::std_specs::convert::FromSpecImpl;

verus! {

/// A usage page.
#[derive(Debug, Clone, Copy, PartialEq, Eq, Structural, PartialOrd, Ord)]
pub struct UsagePage(pub u16);

impl UsagePage {
    pub const GENERIC_DESKTOP: u16 = 0x0001;

    pub const KEYBOARD: u16 = 0x0007;

    pub const LED: u16 = 0x0008;

    pub const BUTTON: u16 = 0x0009;

    pub const CONSUMER: u16 = 0x000C;

    pub const DIGITIZERS: u16 = 0x000D;
}

/// A usage: a usage page in the upper and a usage id in the lower 16 bits.
#[derive(Debug, Clone, Copy, PartialEq, Eq, Structural, PartialOrd, Ord)]
pub struct HidUsage(pub u32);

impl HidUsage {
    pub const NONE: u32 = 0x00000000;

    pub const POINTER: u32 = 0x00010001;

    pub const MOUSE: u32 = 0x00010002;

    pub const JOYSTICK: u32 = 0x00010004;

    pub const GAMEPAD: u32 = 0x00010005;

    pub const KEYBOARD: u32 = 0x00010006;

    pub const KEYPAD: u32 = 0x00010007;

    pub const MULTI_AXIS_CONTROLLER: u32 = 0x00010008;

    pub const TABLET_SYSTEM_CONTROLS: u32 = 0x00010009;

    pub const WATER_COOLING_SYSTEM: u32 = 0x0001000A;

    pub const COMPUTER_CHASSIS_DEVICE: u32 = 0x0001000B;

    pub const WIRELESS_RADIO_CONTROLS: u32 = 0x0001000C;

    pub const PORTABLE_DEVICE: u32 = 0x0001000D;

    pub const SYSTEM_MULTI_AXIS_CONTROLLER: u32 = 0x0001000E;

    pub const SPATIAL_CONTROLLER: u32 = 0x0001000F;

    pub const ASSISTIVE_CONTROL: u32 = 0x00010010;

    pub const DEVICE_DOCK: u32 = 0x00010011;

    pub const DOCKABLE_DEVICE: u32 = 0x00010012;

    pub const X: u32 = 0x00010030;

    pub const Y: u32 = 0x00010031;

    pub const Z: u32 = 0x00010032;

    pub const RX: u32 = 0x00010033;

    pub const RY: u32 = 0x00010034;

    pub const RZ: u32 = 0x00010035;

    pub const SLIDER: u32 = 0x00010036;

    pub const DIAL: u32 = 0x00010037;

    pub const WHEEL: u32 = 0x00010038;

    pub const HAT_SWITCH: u32 = 0x00010039;

    pub const COUNTED_BUFFER: u32 = 0x0001003A;

    pub const BYTE_COUNT: u32 = 0x0001003B;

    pub const MOTION_WAKEUP: u32 = 0x0001003C;

    pub const START: u32 = 0x0001003D;

    pub const SELECT: u32 = 0x0001003E;

    pub const VX: u32 = 0x00010040;

    pub const VY: u32 = 0x00010041;

    pub const VZ: u32 = 0x00010042;

    pub const VBRX: u32 = 0x00010043;

    pub const VBRY: u32 = 0x00010044;

    pub const VBRZ: u32 = 0x00010045;

    pub const VNO: u32 = 0x00010046;

    pub const FEATURE_NOTIFICATION: u32 = 0x00010047;

    pub const RESOLUTION_MULTIPLIER: u32 = 0x00010048;

    pub const QX: u32 = 0x00010049;

    pub const QY: u32 = 0x0001004A;

    pub const QZ: u32 = 0x0001004B;

    pub const QW: u32 = 0x0001004C;

    pub const SYSTEM_CONTROL: u32 = 0x00010080;

    pub const SYSTEM_POWER_DOWN: u32 = 0x00010081;

    pub const SYSTEM_SLEEP: u32 = 0x00010082;

    pub const SYSTEM_WAKEUP: u32 = 0x00010083;

    pub const SYSTEM_CONTEXT_MENU: u32 = 0x00010084;

    pub const SYSTEM_MAIN_MENU: u32 = 0x00010085;

    pub const SYSTEM_APP_MENU: u32 = 0x00010086;

    pub const SYSTEM_MENU_HELP: u32 = 0x00010087;

    pub const SYSTEM_MENU_EXIT: u32 = 0x00010088;

    pub const SYSTEM_MENU_SELECT: u32 = 0x00010089;

    pub const SYSTEM_MENU_RIGHT: u32 = 0x0001008A;

    pub const SYSTEM_MENU_LEFT: u32 = 0x0001008B;

    pub const SYSTEM_MENU_UP: u32 = 0x0001008C;

    pub const SYSTEM_MENU_DOWN: u32 = 0x0001008D;

    pub const SYSTEM_COLD_RESTART: u32 = 0x0001008E;

    pub const SYSTEM_WARM_RESTART: u32 = 0x0001008F;

    pub const DPAD_UP: u32 = 0x00010090;

    pub const DPAD_DOWN: u32 = 0x00010091;

    pub const DPAD_RIGHT: u32 = 0x00010092;

    pub const DPAD_LEFT: u32 = 0x00010093;

    pub const INDEX_TRIGGER: u32 = 0x00010094;

    pub const PALM_TRIGGER: u32 = 0x00010095;

    pub const THUMB_STICK: u32 = 0x00010096;

    pub const SYSTEM_FUNCTION_SHIFT: u32 = 0x00010097;

    pub const SYSTEM_FUNCTION_SHIFT_LOCK: u32 = 0x00010098;

    pub const SYSTEM_FUNCTION_SHIFT_LOCK_INDICATOR: u32 = 0x00010099;

    pub const SYSTEM_DISMISS_NOTIFICATION: u32 = 0x0001009A;

    pub const SYSTEM_DO_NOT_DISTURB: u32 = 0x0001009B;

    pub const SYSTEM_DOCK: u32 = 0x000100A0;

    pub const SYSTEM_UNDOCK: u32 = 0x000100A1;

    pub const SYSTEM_SETUP: u32 = 0x000100A2;

    pub const SYSTEM_BREAK: u32 = 0x000100A3;

    pub const SYSTEM_DEBUGGER_BREAK: u32 = 0x000100A4;

    pub const APPLICATION_BREAK: u32 = 0x000100A5;

    pub const APPLICATION_DEBUGGER_BREAK: u32 = 0x000100A6;

    pub const SYSTEM_SPEAKER_MUTE: u32 = 0x000100A7;

    pub const SYSTEM_HIBERNATE: u32 = 0x000100A8;

    pub const SYSTEM_DISPLAY_INVERT: u32 = 0x000100B0;

    pub const SYSTEM_DISPLAY_INTERNAL: u32 = 0x000100B1;

    pub const SYSTEM_DISPLAY_EXTERNAL: u32 = 0x000100B2;

    pub const SYSTEM_DISPLAY_BOTH: u32 = 0x000100B3;

    pub const SYSTEM_DISPLAY_DUAL: u32 = 0x000100B4;

    pub const SYSTEM_DISPLAY_TOGGLE_INT_EXT_MODE: u32 = 0x000100B5;

    pub const SYSTEM_DISPLAY_SWAP_PRIMARY_SECONDARY: u32 = 0x000100B6;

    pub const SYSTEM_DISPLAY_TOGGLE_LCD_AUTOSCALE: u32 = 0x000100B7;

    pub const SENSOR_ZONE: u32 = 0x000100C0;

    pub const RPM: u32 = 0x000100C1;

    pub const COOLANT_LEVEL: u32 = 0x000100C2;

    pub const COOLANT_CRITICAL_LEVEL: u32 = 0x000100C2;

    pub const COOLANT_PUMP: u32 = 0x000100C4;

    pub const CHASSIS_ENCLOSURE: u32 = 0x000100C5;

    pub const WIRELESS_RADIO_BUTTON: u32 = 0x000100C6;

    pub const WIRELESS_RADIO_LED: u32 = 0x000100C7;

    pub const WIRELESS_RADIO_SLIDER_SWITCH: u32 = 0x000100C8;

    pub const SYSTEM_DISPLAY_ROTATION_LOCK_BUTTON: u32 = 0x000100C9;

    pub const SYSTEM_DISPLAY_ROTATION_SLIDER_SWITCH: u32 = 0x000100CA;

    pub const CONTROL_ENABLE: u32 = 0x000100CB;

    pub const DOCKABLE_DEVICE_UNIQUE_ID: u32 = 0x000100D0;

    pub const DOCKABLE_DEVICE_VENDOR_ID: u32 = 0x000100D1;

    pub const DOCKABLE_DEVICE_PRIMARY_USAGE_PAGE: u32 = 0x000100D2;

    pub const DOCKABLE_DEVICE_PRIMARY_USAGE_ID: u32 = 0x000100D3;

    pub const DOCKABLE_DEVICE_DOCKING_STATE: u32 = 0x000100D4;

    pub const DOCKABLE_DEVICE_DISPLAY_OCCULUSION: u32 = 0x000100D5;

    pub const DOCKABLE_DEVICE_OBJECT_TYPE: u32 = 0x000100D6;

    pub const CONSUMER_CONTROL: u32 = 0x000C0001;

    pub const NUMERIC_KEY_PAD: u32 = 0x000C0002;

    pub const PROGRAMMABLE_BUTTONS: u32 = 0x000C0003;

    pub const MICROPHONE: u32 = 0x000C0004;

    pub const HEADPHONE: u32 = 0x000C0005;

    pub const GRAPHIC_EQUALIZER: u32 = 0x000C0006;

    pub const FUNCTION_BUTTONS: u32 = 0x000C0036;

    pub const SELECTION: u32 = 0x000C0080;

    pub const MEDIA_SELECTION: u32 = 0x000C0087;

    pub const SELECT_DISC: u32 = 0x000C00BA;

    pub const PLAYBACK_SPEED: u32 = 0x000C00F1;

    pub const SPEAKER_SYSTEM: u32 = 0x000C0160;

    pub const CHANNEL_LEFT: u32 = 0x000C0161;

    pub const CHANNEL_RIGHT: u32 = 0x000C0162;

    pub const CHANNEL_CENTER: u32 = 0x000C0163;

    pub const CHANNEL_FRONT: u32 = 0x000C0164;

    pub const CHANNEL_CENTER_FRONT: u32 = 0x000C0165;

    pub const CHANNEL_SIDE: u32 = 0x000C0166;

    pub const CHANNEL_SURROUND: u32 = 0x000C0167;

    pub const CHANNEL_LOW_FREQUENCY_ENHANCEMENT: u32 = 0x000C0168;

    pub const CHANNEL_TOP: u32 = 0x000C0169;

    pub const CHANNEL_UNKNOWN: u32 = 0x000C016A;

    pub const APPLICATION_LAUNCH_BUTTONS: u32 = 0x000C0180;

    pub const GENERIC_GUI_APPLICATION_CONTROLS: u32 = 0x000C0200;

    pub const DIGITIZER: u32 = 0x000D0001;

    pub const PEN: u32 = 0x000D0002;

    pub const LIGHT_PEN: u32 = 0x000D0003;

    pub const TOUCH_SCREEN: u32 = 0x000D0004;

    pub const TOUCH_PAD: u32 = 0x000D0005;

    pub const WHITEBOARD: u32 = 0x000D0006;

    pub const COORDINATE_MEASURING_MACHINE: u32 = 0x000D0007;

    pub const _3D_DIGITIZER: u32 = 0x000D0008;

    pub const STEREO_PLOTTER: u32 = 0x000D0009;

    pub const ARTICULATED_ARM: u32 = 0x000D000A;

    pub const ARMATURE: u32 = 0x000D000B;

    pub const MULTIPLE_POINT_DIGITIZER: u32 = 0x000D000C;

    pub const FREE_SPACE_WAND: u32 = 0x000D000D;

    pub const DEVICE_CONFIGURATION: u32 = 0x000D000E;

    pub const CAPACTIVE_HEAT_MAP_DIGITIZER: u32 = 0x000D000F;

    pub const STYLUS: u32 = 0x000D0020;

    pub const PUCK: u32 = 0x000D0021;

    pub const FINGER: u32 = 0x000D0022;

    pub const DEVICE_SETTINGS: u32 = 0x000D0023;

    pub const CHARACTER_GESTURE: u32 = 0x000D0024;

    pub const TABLET_FUNCTION_KEYS: u32 = 0x000D0039;

    pub const PROGRAM_CHANGE_KEYS: u32 = 0x000D003A;

    pub const GESTURE_CHARACTER_ENCODING: u32 = 0x000D0064;

    pub const PREFERRED_LINE_STYLE: u32 = 0x000D0070;

    pub const DIGITIZER_DIAGNOSTIC: u32 = 0x000D0080;

    pub const DIGITIZER_ERROR: u32 = 0x000D0081;

    pub const TRANSDUCER_SOFTWARE_INFO: u32 = 0x000D0090;

    pub const DEVICE_SUPPORTED_PROTOCOLS: u32 = 0x000D0093;

    pub const TRANSDUCER_SUPPORTED_PROTOCOLS: u32 = 0x000D0094;

    pub const SUPPORTED_REPORT_RATES: u32 = 0x000D00A0;

    pub const NUM_LOCK: u32 = 0x00080001;

    pub const CAPS_LOCK: u32 = 0x00080002;

    pub const SCROLL_LOCK: u32 = 0x00080003;

    pub const COMPOSE: u32 = 0x00080004;

    pub const KANA: u32 = 0x00080005;

    pub const POWER: u32 = 0x00080006;

    pub const SHIFT: u32 = 0x00080007;

    pub const DO_NOT_DISTURB: u32 = 0x00080008;

    pub const MUTE: u32 = 0x00080009;

    /// The usage with the given id on the given page.
    pub fn new(page: UsagePage, usage: u16) -> (r: Self)
        ensures
            r.0 == usage + page.0 * 0x10000,
    {
        HidUsage(usage as u32 + (page.0 as u32) * 0x10000)
    }

    pub fn usage_page(&self) -> (r: UsagePage)
        ensures
            r.0 == self.0 >> 16,
    {
        let v = self.0;
        assert((v >> 16) <= 0xFFFF) by (bit_vector);
        UsagePage((self.0 >> 16) as u16)
    }

    pub fn usage(&self) -> (r: u16)
        ensures
            r == self.0 & 0xFFFF,
    {
        let v = self.0;
        assert((v & 0xFFFF) <= 0xFFFF) by (bit_vector);
        (self.0 & 0xFFFF) as u16
    }

    /// The usage with the given id on the generic desktop page.
    pub fn generic(usage: u16) -> (r: Self)
        ensures
            r.0 == usage + 0x0001_0000,
    {
        Self::new(UsagePage(UsagePage::GENERIC_DESKTOP), usage)
    }

    /// The usage with the given id on the button page.
    pub fn button(usage: u16) -> (r: Self)
        ensures
            r.0 == usage + 0x0009_0000,
    {
        Self::new(UsagePage(UsagePage::BUTTON), usage)
    }

    /// The usage with the given id on the consumer page.
    pub fn consumer(usage: u16) -> (r: Self)
        ensures
            r.0 == usage + 0x000C_0000,
    {
        Self::new(UsagePage(UsagePage::CONSUMER), usage)
    }

    /// The usage with the given id on the digitizers page.
    pub fn digitizers(usage: u16) -> (r: Self)
        ensures
            r.0 == usage + 0x000D_0000,
    {
        Self::new(UsagePage(UsagePage::DIGITIZERS), usage)
    }

    /// The usage with the given id on the LED page.
    pub fn led(usage: u16) -> (r: Self)
        ensures
            r.0 == usage + 0x0008_0000,
    {
        Self::new(UsagePage(UsagePage::LED), usage)
    }
}

/// The usage id of a key of the keyboard.
#[derive(Debug, Copy, Clone, Default, PartialEq, Eq, Structural, PartialOrd, Ord)]
pub struct Usage(pub u8);

impl Usage {
    pub const NONE: u8 = 0x00;

    pub const ERR_ROLL_OVER: u8 = 0x01;

    pub const ERR_POST_FAIL: u8 = 0x02;

    pub const ERR_UNDEFINED: u8 = 0x03;

    pub const KEY_A: u8 = 0x04;

    pub const KEY_B: u8 = 0x05;

    pub const KEY_C: u8 = 0x06;

    pub const KEY_D: u8 = 0x07;

    pub const KEY_E: u8 = 0x08;

    pub const KEY_F: u8 = 0x09;

    pub const KEY_G: u8 = 0x0A;

    pub const KEY_H: u8 = 0x0B;

    pub const KEY_I: u8 = 0x0C;

    pub const KEY_J: u8 = 0x0D;

    pub const KEY_K: u8 = 0x0E;

    pub const KEY_L: u8 = 0x0F;

    pub const KEY_M: u8 = 0x10;

    pub const KEY_N: u8 = 0x11;

    pub const KEY_O: u8 = 0x12;

    pub const KEY_P: u8 = 0x13;

    pub const KEY_Q: u8 = 0x14;

    pub const KEY_R: u8 = 0x15;

    pub const KEY_S: u8 = 0x16;

    pub const KEY_T: u8 = 0x17;

    pub const KEY_U: u8 = 0x18;

    pub const KEY_V: u8 = 0x19;

    pub const KEY_W: u8 = 0x1A;

    pub const KEY_X: u8 = 0x1B;

    pub const KEY_Y: u8 = 0x1C;

    pub const KEY_Z: u8 = 0x1D;

    pub const KEY_1: u8 = 0x1E;

    pub const KEY_2: u8 = 0x1F;

    pub const KEY_3: u8 = 0x20;

    pub const KEY_4: u8 = 0x21;

    pub const KEY_5: u8 = 0x22;

    pub const KEY_6: u8 = 0x23;

    pub const KEY_7: u8 = 0x24;

    pub const KEY_8: u8 = 0x25;

    pub const KEY_9: u8 = 0x26;

    pub const KEY_0: u8 = 0x27;

    pub const KEY_ENTER: u8 = 0x28;

    pub const KEY_ESCAPE: u8 = 0x29;

    pub const KEY_BASKSPACE: u8 = 0x2A;

    pub const KEY_TAB: u8 = 0x2B;

    pub const KEY_SPACE: u8 = 0x2C;

    pub const KEY_F1: u8 = 0x3A;

    pub const KEY_F2: u8 = 0x3B;

    pub const KEY_F3: u8 = 0x3C;

    pub const KEY_F4: u8 = 0x3D;

    pub const KEY_F5: u8 = 0x3E;

    pub const KEY_F6: u8 = 0x3F;

    pub const KEY_F7: u8 = 0x40;

    pub const KEY_F8: u8 = 0x41;

    pub const KEY_F9: u8 = 0x42;

    pub const KEY_F10: u8 = 0x43;

    pub const KEY_F11: u8 = 0x44;

    pub const KEY_F12: u8 = 0x45;

    pub const DELETE: u8 = 0x4C;

    pub const KEY_RIGHT_ARROW: u8 = 0x4F;

    pub const KEY_LEFT_ARROW: u8 = 0x50;

    pub const KEY_DOWN_ARROW: u8 = 0x51;

    pub const KEY_UP_ARROW: u8 = 0x52;

    pub const KEY_NUM_LOCK: u8 = 0x53;

    pub const NUMPAD_1: u8 = 0x59;

    pub const NUMPAD_2: u8 = 0x5A;

    pub const NUMPAD_3: u8 = 0x5B;

    pub const NUMPAD_4: u8 = 0x5C;

    pub const NUMPAD_5: u8 = 0x5D;

    pub const NUMPAD_6: u8 = 0x5E;

    pub const NUMPAD_7: u8 = 0x5F;

    pub const NUMPAD_8: u8 = 0x60;

    pub const NUMPAD_9: u8 = 0x61;

    pub const NUMPAD_0: u8 = 0x62;

    pub const INTERNATIONAL_1: u8 = 0x87;

    pub const INTERNATIONAL_2: u8 = 0x88;

    pub const INTERNATIONAL_3: u8 = 0x89;

    pub const INTERNATIONAL_4: u8 = 0x8A;

    pub const INTERNATIONAL_5: u8 = 0x8B;

    pub const INTERNATIONAL_6: u8 = 0x8C;

    pub const INTERNATIONAL_7: u8 = 0x8D;

    pub const INTERNATIONAL_8: u8 = 0x8E;

    pub const INTERNATIONAL_9: u8 = 0x8F;

    pub const KEY_LEFT_CONTROL: u8 = 0xE0;

    pub const KEY_LEFT_SHIFT: u8 = 0xE1;

    pub const KEY_LEFT_ALT: u8 = 0xE2;

    pub const KEY_LEFT_GUI: u8 = 0xE3;

    pub const KEY_RIGHT_CONTROL: u8 = 0xE4;

    pub const KEY_RIGHT_SHIFT: u8 = 0xE5;

    pub const KEY_RIGHT_ALT: u8 = 0xE6;

    pub const KEY_RIGHT_GUI: u8 = 0xE7;

    pub const ALPHABET_MIN: u8 = 0x04;

    pub const ALPHABET_MAX: u8 = 0x1D;

    pub const NUMBER_MIN: u8 = 0x1E;

    pub const NUMBER_MAX: u8 = 0x27;

    pub const NON_ALPHABET_MIN: u8 = 0x28;

    pub const NON_ALPHABET_MAX: u8 = 0x38;

    pub const NUMPAD_MIN: u8 = 0x54;

    pub const NUMPAD_MAX: u8 = 0x63;

    pub const MOD_MIN: u8 = 0xE0;

    pub const MOD_MAX: u8 = 0xE7;

    /// The usage of the key on the keyboard page.
    pub fn full_usage(&self) -> (r: HidUsage)
        ensures
            r.0 == self.0 + 0x0007_0000,
    {
        HidUsage::new(UsagePage(UsagePage::KEYBOARD), self.0 as u16)
    }
}

/// The modifier keys that are held down.
#[derive(Debug, Copy, Clone, Default, PartialEq, Eq, Structural)]
pub struct Modifier(pub u8);

impl Modifier {
    pub const LEFT_CTRL: u8 = 0b0000_0001;

    pub const LEFT_SHIFT: u8 = 0b0000_0010;

    pub const LEFT_ALT: u8 = 0b0000_0100;

    pub const LEFT_GUI: u8 = 0b0000_1000;

    pub const RIGHT_CTRL: u8 = 0b0001_0000;

    pub const RIGHT_SHIFT: u8 = 0b0010_0000;

    pub const RIGHT_ALT: u8 = 0b0100_0000;

    pub const RIGHT_GUI: u8 = 0b1000_0000;

    pub fn empty() -> (r: Self)
        ensures
            r.0 == 0,
    {
        Modifier(0)
    }

    pub fn bits(self) -> (r: u8)
        ensures
            r == self.0,
    {
        self.0
    }

    /// The modifiers in the lowest byte of `v`.
    pub fn from_usize(v: usize) -> (r: Self)
        ensures
            r.0 == v as u8,
    {
        Modifier(
            #[verifier::truncate]
            (v as u8),
        )
    }

    /// Whether every bit of `flags` is set.
    pub fn contains(self, flags: u8) -> (r: bool)
        ensures
            r == ((self.0 & flags) == flags),
    {
        (self.0 & flags) == flags
    }

    /// Whether a shift key is held down.
    pub fn has_shift(self) -> (r: bool)
        ensures
            r == ((self.0 & 0x02) == 0x02 || (self.0 & 0x20) == 0x20),
    {
        self.contains(Self::LEFT_SHIFT) || self.contains(Self::RIGHT_SHIFT)
    }

    /// Whether a control key is held down.
    pub fn has_ctrl(self) -> (r: bool)
        ensures
            r == ((self.0 & 0x01) == 0x01 || (self.0 & 0x10) == 0x10),
    {
        self.contains(Self::LEFT_CTRL) || self.contains(Self::RIGHT_CTRL)
    }

    /// Whether an alt key is held down.
    pub fn has_alt(self) -> (r: bool)
        ensures
            r == ((self.0 & 0x04) == 0x04 || (self.0 & 0x40) == 0x40),
    {
        self.contains(Self::LEFT_ALT) || self.contains(Self::RIGHT_ALT)
    }
}

/// The buttons of a mouse that are held down.
#[derive(Debug, Copy, Clone, Default, PartialEq, Eq, Structural)]
pub struct MouseButton(pub u8);

impl MouseButton {
    pub const PRIMARY: u8 = 0b0000_0001;

    pub const SECONDARY: u8 = 0b0000_0010;

    pub const TERTIARY: u8 = 0b0000_0100;

    pub const BUTTON4: u8 = 0b0000_1000;

    pub const BUTTON5: u8 = 0b0001_0000;

    pub const BUTTON6: u8 = 0b0010_0000;

    pub const BUTTON7: u8 = 0b0100_0000;

    pub const BUTTON8: u8 = 0b1000_0000;

    pub fn empty() -> (r: Self)
        ensures
            r.0 == 0,
    {
        MouseButton(0)
    }

    /// Whether every bit of `flags` is set.
    pub fn contains(self, flags: u8) -> (r: bool)
        ensures
            r == ((self.0 & flags) == flags),
    {
        (self.0 & flags) == flags
    }
}

/// What a mouse reports: its buttons and how far it moved.
#[derive(Debug, PartialEq, Eq)]
pub struct MouseReport<T> {
    pub buttons: MouseButton,
    pub x: T,
    pub y: T,
    pub wheel: T,
}

impl MouseReport<i8> {
    /// The same report with wide numbers.
    pub fn normalize(self) -> (r: MouseReport<isize>)
        ensures
            r.buttons == self.buttons,
            r.x == self.x,
            r.y == self.y,
            r.wheel == self.wheel,
    {
        MouseReport {
            buttons: self.buttons,
            x: self.x as isize,
            y: self.y as isize,
            wheel: self.wheel as isize,
        }
    }
}

impl MouseReport<i16> {
    /// The same report with wide numbers.
    pub fn normalize(self) -> (r: MouseReport<isize>)
        ensures
            r.buttons == self.buttons,
            r.x == self.x,
            r.y == self.y,
            r.wheel == self.wheel,
    {
        MouseReport {
            buttons: self.buttons,
            x: self.x as isize,
            y: self.y as isize,
            wheel: self.wheel as isize,
        }
    }
}

/// The kind of a report.
#[derive(Debug, Clone, Copy, PartialEq, Eq, Structural, PartialOrd, Ord)]
pub enum HidReportType {
    Input,
    Output,
    Feature,
}

/// The kind of an item of a report descriptor.
#[derive(Debug, Clone, Copy, PartialEq, Eq, Structural, PartialOrd, Ord)]
pub enum HidReportItemType {
    Main,
    Global,
    Local,
    Reserved,
}

impl HidReportItemType {
    pub open spec fn spec_from_u8(val: u8) -> HidReportItemType {
        if val == 0 {
            HidReportItemType::Main
        } else if val == 1 {
            HidReportItemType::Global
        } else if val == 2 {
            HidReportItemType::Local
        } else {
            HidReportItemType::Reserved
        }
    }

    /// The kind with the given number; numbers above 2 are reserved.
    pub fn from_u8(val: u8) -> (r: Self)
        ensures
            r == Self::spec_from_u8(val),
    {
        if val == 0 {
            HidReportItemType::Main
        } else if val == 1 {
            HidReportItemType::Global
        } else if val == 2 {
            HidReportItemType::Local
        } else {
            HidReportItemType::Reserved
        }
    }
}

/// The tag of an item of a report descriptor.
#[derive(Debug, Clone, Copy, PartialEq, Eq, Structural, PartialOrd, Ord)]
pub enum HidReportItemTag {
    Input,
    Output,
    Feature,
    Collection,
    EndCollection,
    UsagePage,
    LogicalMinimum,
    LogicalMaximum,
    PhysicalMinimum,
    PhysicalMaximum,
    UnitExponent,
    Unit,
    ReportSize,
    ReportId,
    ReportCount,
    Push,
    Pop,
    Usage,
    UsageMinimum,
    UsageMaximum,
    DesignatorIndex,
    DesignatorMinimum,
    DesignatorMaximum,
    StringIndex,
    StringMinimum,
    StringMaximum,
    Delimiter,
}

impl HidReportItemTag {
    /// The lead byte of an item with this tag, without its size.
    pub open spec fn spec_code(self) -> u8 {
        match self {
            HidReportItemTag::Input => 0x80,
            HidReportItemTag::Output => 0x90,
            HidReportItemTag::Feature => 0xB0,
            HidReportItemTag::Collection => 0xA0,
            HidReportItemTag::EndCollection => 0xC0,
            HidReportItemTag::UsagePage => 0x04,
            HidReportItemTag::LogicalMinimum => 0x14,
            HidReportItemTag::LogicalMaximum => 0x24,
            HidReportItemTag::PhysicalMinimum => 0x34,
            HidReportItemTag::PhysicalMaximum => 0x44,
            HidReportItemTag::UnitExponent => 0x54,
            HidReportItemTag::Unit => 0x64,
            HidReportItemTag::ReportSize => 0x74,
            HidReportItemTag::ReportId => 0x84,
            HidReportItemTag::ReportCount => 0x94,
            HidReportItemTag::Push => 0xA4,
            HidReportItemTag::Pop => 0xB4,
            HidReportItemTag::Usage => 0x08,
            HidReportItemTag::UsageMinimum => 0x18,
            HidReportItemTag::UsageMaximum => 0x28,
            HidReportItemTag::DesignatorIndex => 0x38,
            HidReportItemTag::DesignatorMinimum => 0x48,
            HidReportItemTag::DesignatorMaximum => 0x58,
            HidReportItemTag::StringIndex => 0x78,
            HidReportItemTag::StringMinimum => 0x88,
            HidReportItemTag::StringMaximum => 0x98,
            HidReportItemTag::Delimiter => 0xA8,
        }
    }

    pub fn code(self) -> (r: u8)
        ensures
            r == self.spec_code(),
    {
        match self {
            HidReportItemTag::Input => 0x80,
            HidReportItemTag::Output => 0x90,
            HidReportItemTag::Feature => 0xB0,
            HidReportItemTag::Collection => 0xA0,
            HidReportItemTag::EndCollection => 0xC0,
            HidReportItemTag::UsagePage => 0x04,
            HidReportItemTag::LogicalMinimum => 0x14,
            HidReportItemTag::LogicalMaximum => 0x24,
            HidReportItemTag::PhysicalMinimum => 0x34,
            HidReportItemTag::PhysicalMaximum => 0x44,
            HidReportItemTag::UnitExponent => 0x54,
            HidReportItemTag::Unit => 0x64,
            HidReportItemTag::ReportSize => 0x74,
            HidReportItemTag::ReportId => 0x84,
            HidReportItemTag::ReportCount => 0x94,
            HidReportItemTag::Push => 0xA4,
            HidReportItemTag::Pop => 0xB4,
            HidReportItemTag::Usage => 0x08,
            HidReportItemTag::UsageMinimum => 0x18,
            HidReportItemTag::UsageMaximum => 0x28,
            HidReportItemTag::DesignatorIndex => 0x38,
            HidReportItemTag::DesignatorMinimum => 0x48,
            HidReportItemTag::DesignatorMaximum => 0x58,
            HidReportItemTag::StringIndex => 0x78,
            HidReportItemTag::StringMinimum => 0x88,
            HidReportItemTag::StringMaximum => 0x98,
            HidReportItemTag::Delimiter => 0xA8,
        }
    }

    /// The tag with the given code, if there is one.
    pub fn from_u8(val: u8) -> (r: Option<Self>)
        ensures
            r.is_some() == (exists|t: HidReportItemTag| t.spec_code() == val),
            r matches Some(t) ==> t.spec_code() == val,
    {
        let r = match val {
            0x80 => Some(HidReportItemTag::Input),
            0x90 => Some(HidReportItemTag::Output),
            0xB0 => Some(HidReportItemTag::Feature),
            0xA0 => Some(HidReportItemTag::Collection),
            0xC0 => Some(HidReportItemTag::EndCollection),
            0x04 => Some(HidReportItemTag::UsagePage),
            0x14 => Some(HidReportItemTag::LogicalMinimum),
            0x24 => Some(HidReportItemTag::LogicalMaximum),
            0x34 => Some(HidReportItemTag::PhysicalMinimum),
            0x44 => Some(HidReportItemTag::PhysicalMaximum),
            0x54 => Some(HidReportItemTag::UnitExponent),
            0x64 => Some(HidReportItemTag::Unit),
            0x74 => Some(HidReportItemTag::ReportSize),
            0x84 => Some(HidReportItemTag::ReportId),
            0x94 => Some(HidReportItemTag::ReportCount),
            0xA4 => Some(HidReportItemTag::Push),
            0xB4 => Some(HidReportItemTag::Pop),
            0x08 => Some(HidReportItemTag::Usage),
            0x18 => Some(HidReportItemTag::UsageMinimum),
            0x28 => Some(HidReportItemTag::UsageMaximum),
            0x38 => Some(HidReportItemTag::DesignatorIndex),
            0x48 => Some(HidReportItemTag::DesignatorMinimum),
            0x58 => Some(HidReportItemTag::DesignatorMaximum),
            0x78 => Some(HidReportItemTag::StringIndex),
            0x88 => Some(HidReportItemTag::StringMinimum),
            0x98 => Some(HidReportItemTag::StringMaximum),
            0xA8 => Some(HidReportItemTag::Delimiter),
            _ => None,
        };
        proof {
            if r.is_some() {
                assert(r.unwrap().spec_code() == val);
            }
        }
        r
    }
}

/// The first byte of an item of a report descriptor: the size of its data in
/// the bits 0 and 1, its kind in the bits 2 and 3, its tag in the bits 2 to
/// 7.
#[derive(Debug, Clone, Copy, PartialEq, Eq, Structural, PartialOrd, Ord)]
pub struct HidReportLeadByte(pub u8);

impl HidReportLeadByte {
    /// The number of data bytes that follow: 0, 1, 2 or 4.
    pub open spec fn spec_data_size(&self) -> usize {
        if self.0 & 3 == 0 {
            0
        } else if self.0 & 3 == 1 {
            1
        } else if self.0 & 3 == 2 {
            2
        } else {
            4
        }
    }

    pub fn data_size(&self) -> (r: usize)
        ensures
            r == self.spec_data_size(),
    {
        let low = self.0 & 3;
        if low == 0 {
            0
        } else if low == 1 {
            1
        } else if low == 2 {
            2
        } else {
            4
        }
    }

    pub fn report_type(&self) -> (r: HidReportItemType)
        ensures
            r == HidReportItemType::spec_from_u8((self.0 >> 2) & 3),
    {
        HidReportItemType::from_u8((self.0 >> 2) & 3)
    }

    /// The tag of the item, if the byte names one.
    pub fn item_tag(&self) -> (r: Option<HidReportItemTag>)
        ensures
            r.is_some() == (exists|t: HidReportItemTag| t.spec_code() == self.0 & 0xFC),
            r matches Some(t) ==> t.spec_code() == self.0 & 0xFC,
    {
        HidReportItemTag::from_u8(self.0 & 0xFC)
    }
}

/// The flags of a main item.
#[derive(Debug, Copy, Clone, Default, PartialEq, Eq, Structural)]
pub struct HidReportMainFlag(pub usize);

impl HidReportMainFlag {
    pub const CONSTANT: usize = 0x0001;

    pub const VARIABLE: usize = 0x0002;

    pub const RELATIVE: usize = 0x0004;

    pub const WRAP: usize = 0x0008;

    pub const NON_LINEAR: usize = 0x0010;

    pub const NO_PREFERRED: usize = 0x0020;

    pub const NULL_STATE: usize = 0x0040;

    pub const VOLATILE: usize = 0x0080;

    pub const BUFFERED_BYTES: usize = 0x0100;

    /// Whether every bit of `flags` is set.
    pub fn contains(&self, flags: usize) -> (r: bool)
        ensures
            r == ((self.0 & flags) == flags),
    {
        (self.0 & flags) == flags
    }

    pub fn is_const(&self) -> (r: bool)
        ensures
            r == ((self.0 & 1) == 1),
    {
        self.contains(Self::CONSTANT)
    }

    pub fn is_array(&self) -> (r: bool)
        ensures
            r == !((self.0 & 2) == 2),
    {
        !self.is_variable()
    }

    pub fn is_variable(&self) -> (r: bool)
        ensures
            r == ((self.0 & 2) == 2),
    {
        self.contains(Self::VARIABLE)
    }

    pub fn is_relative(&self) -> (r: bool)
        ensures
            r == ((self.0 & 4) == 4),
    {
        self.contains(Self::RELATIVE)
    }
}

/// The kind of a collection.
#[derive(Debug, Clone, Copy, PartialEq, Eq, Structural, PartialOrd, Ord)]
pub enum HidReportCollectionType {
    Physical,
    Application,
    Logical,
    Report,
    NamedArray,
    UsageSwitch,
    UsageModifier,
}

impl HidReportCollectionType {
    /// The kind with the given number, if there is one.
    pub fn from_u8(val: u8) -> (r: Option<Self>)
        ensures
            r == match val {
                0 => Some(HidReportCollectionType::Physical),
                1 => Some(HidReportCollectionType::Application),
                2 => Some(HidReportCollectionType::Logical),
                3 => Some(HidReportCollectionType::Report),
                4 => Some(HidReportCollectionType::NamedArray),
                5 => Some(HidReportCollectionType::UsageSwitch),
                6 => Some(HidReportCollectionType::UsageModifier),
                _ => None,
            },
    {
        match val {
            0 => Some(HidReportCollectionType::Physical),
            1 => Some(HidReportCollectionType::Application),
            2 => Some(HidReportCollectionType::Logical),
            3 => Some(HidReportCollectionType::Report),
            4 => Some(HidReportCollectionType::NamedArray),
            5 => Some(HidReportCollectionType::UsageSwitch),
            6 => Some(HidReportCollectionType::UsageModifier),
            _ => None,
        }
    }
}

/// The data of an item: a number of 0, 1, 2 or 4 bytes, of which the item
/// alone does not tell whether it is signed.
#[derive(Debug, Clone, Copy, PartialEq, Eq, Structural, PartialOrd, Ord)]
pub enum HidReportAmbiguousSignedValue {
    Zero,
    U8(u8),
    U16(u16),
    U32(u32),
}

impl HidReportAmbiguousSignedValue {
    /// The number read as unsigned.
    pub fn usize(&self) -> (r: usize)
        ensures
            r == match *self {
                HidReportAmbiguousSignedValue::Zero => 0usize,
                HidReportAmbiguousSignedValue::U8(v) => v as usize,
                HidReportAmbiguousSignedValue::U16(v) => v as usize,
                HidReportAmbiguousSignedValue::U32(v) => v as usize,
            },
    {
        match *self {
            HidReportAmbiguousSignedValue::Zero => 0,
            HidReportAmbiguousSignedValue::U8(v) => v as usize,
            HidReportAmbiguousSignedValue::U16(v) => v as usize,
            HidReportAmbiguousSignedValue::U32(v) => v as usize,
        }
    }

    /// The number read as signed, in two's complement of its own width.
    pub open spec fn spec_isize(&self) -> int {
        match *self {
            HidReportAmbiguousSignedValue::Zero => 0,
            HidReportAmbiguousSignedValue::U8(v) => if v < 0x80 {
                v as int
            } else {
                v - 0x100
            },
            HidReportAmbiguousSignedValue::U16(v) => if v < 0x8000 {
                v as int
            } else {
                v - 0x1_0000
            },
            HidReportAmbiguousSignedValue::U32(v) => if v < 0x8000_0000 {
                v as int
            } else {
                v - 0x1_0000_0000
            },
        }
    }

    pub fn isize(&self) -> (r: isize)
        ensures
            r == self.spec_isize(),
    {
        match *self {
            HidReportAmbiguousSignedValue::Zero => 0,
            HidReportAmbiguousSignedValue::U8(v) => {
                if v < 0x80 {
                    v as isize
                } else {
                    v as isize - 0x100
                }
            },
            HidReportAmbiguousSignedValue::U16(v) => {
                if v < 0x8000 {
                    v as isize
                } else {
                    v as isize - 0x1_0000
                }
            },
            HidReportAmbiguousSignedValue::U32(v) => {
                if v < 0x8000_0000 {
                    v as i64 as isize
                } else {
                    (v as i64 - 0x1_0000_0000) as isize
                }
            },
        }
    }
}

impl From<u8> for HidReportAmbiguousSignedValue {
    fn from(val: u8) -> (r: HidReportAmbiguousSignedValue) {
        HidReportAmbiguousSignedValue::U8(val)
    }
}

impl FromSpecImpl<u8> for HidReportAmbiguousSignedValue {
    open spec fn obeys_from_spec() -> bool {
        true
    }

    open spec fn from_spec(val: u8) -> HidReportAmbiguousSignedValue {
        HidReportAmbiguousSignedValue::U8(val)
    }
}

impl From<u16> for HidReportAmbiguousSignedValue {
    fn from(val: u16) -> (r: HidReportAmbiguousSignedValue) {
        HidReportAmbiguousSignedValue::U16(val)
    }
}

impl FromSpecImpl<u16> for HidReportAmbiguousSignedValue {
    open spec fn obeys_from_spec() -> bool {
        true
    }

    open spec fn from_spec(val: u16) -> HidReportAmbiguousSignedValue {
        HidReportAmbiguousSignedValue::U16(val)
    }
}

impl From<u32> for HidReportAmbiguousSignedValue {
    fn from(val: u32) -> (r: HidReportAmbiguousSignedValue) {
        HidReportAmbiguousSignedValue::U32(val)
    }
}

impl FromSpecImpl<u32> for HidReportAmbiguousSignedValue {
    open spec fn obeys_from_spec() -> bool {
        true
    }

    open spec fn from_spec(val: u32) -> HidReportAmbiguousSignedValue {
        HidReportAmbiguousSignedValue::U32(val)
    }
}

impl From<u8> for HidReportItemType {
    fn from(v: u8) -> (r: HidReportItemType) {
        HidReportItemType::from_u8(v)
    }
}

impl FromSpecImpl<u8> for HidReportItemType {
    open spec fn obeys_from_spec() -> bool {
        true
    }

    open spec fn from_spec(v: u8) -> HidReportItemType {
        HidReportItemType::spec_from_u8(v)
    }
}

/// Reads the bytes of a report descriptor one item after the other.
pub struct HidReporteReader<'a> {
    pub data: &'a [u8],
    pub index: usize,
}

impl<'a> HidReporteReader<'a> {
    /// A reader at the beginning of `data`.
    pub fn new(data: &'a [u8]) -> (r: Self)
        ensures
            r.data == data,
            r.index == 0,
    {
        HidReporteReader { data, index: 0 }
    }

    pub fn position(&self) -> (r: usize)
        ensures
            r == self.index,
    {
        self.index
    }

    /// Whether `n` bytes are left to read.
    pub open spec fn has(&self, n: int) -> bool {
        self.index + n <= self.data@.len()
    }

    /// Whether `n` bytes are left to read.
    fn has_bytes(&self, n: usize) -> (r: bool)
        ensures
            r == self.has(n as int),
    {
        self.index <= self.data.len() && self.data.len() - self.index >= n
    }

    /// Reads one byte.
    pub fn next(&mut self) -> (r: Option<u8>)
        ensures
            final(self).data == old(self).data,
            old(self).has(1) ==> r == Some(old(self).data@[old(self).index as int])
                && final(self).index == old(self).index + 1,
            !old(self).has(1) ==> r.is_none() && final(self).index == old(self).index,
    {
        if self.has_bytes(1) {
            let result = self.data[self.index];
            self.index = self.index + 1;
            Some(result)
        } else {
            None
        }
    }

    /// The number of two bytes at position `i`, lowest byte first.
    pub open spec fn u16_at(data: Seq<u8>, i: int) -> int {
        data[i] + data[i + 1] * 0x100
    }

    /// Reads a number of two bytes, lowest byte first.
    pub fn next_u16(&mut self) -> (r: Option<u16>)
        ensures
            final(self).data == old(self).data,
            old(self).has(2) ==> r.is_some() && r.unwrap() == Self::u16_at(
                old(self).data@,
                old(self).index as int,
            ) && final(self).index == old(self).index + 2,
            !old(self).has(2) ==> r.is_none() && final(self).index == old(self).index,
    {
        if self.has_bytes(2) {
            let result = (self.data[self.index] as u16) + (self.data[self.index + 1] as u16 * 256);
            self.index = self.index + 2;
            Some(result)
        } else {
            None
        }
    }

    /// The number of four bytes at position `i`, lowest byte first.
    pub open spec fn u32_at(data: Seq<u8>, i: int) -> int {
        data[i] + data[i + 1] * 0x100 + data[i + 2] * 0x1_0000 + data[i + 3] * 0x100_0000
    }

    /// Reads a number of four bytes, lowest byte first.
    pub fn next_u32(&mut self) -> (r: Option<u32>)
        ensures
            final(self).data == old(self).data,
            old(self).has(4) ==> r.is_some() && r.unwrap() == Self::u32_at(
                old(self).data@,
                old(self).index as int,
            ) && final(self).index == old(self).index + 4,
            !old(self).has(4) ==> r.is_none() && final(self).index == old(self).index,
    {
        if self.has_bytes(4) {
            let result = (self.data[self.index] as u32) + (self.data[self.index + 1] as u32 * 0x100)
                + (self.data[self.index + 2] as u32 * 0x1_0000) + (self.data[self.index + 3] as u32
                * 0x100_0000);
            self.index = self.index + 4;
            Some(result)
        } else {
            None
        }
    }

    /// Reads the data of the item whose lead byte is `lead_byte`: as many
    /// bytes as the lead byte says. Reads nothing and returns `None` if
    /// fewer bytes are left. An item without data is always read.
    pub fn read_param(&mut self, lead_byte: HidReportLeadByte) -> (r: Option<
        HidReportAmbiguousSignedValue,
    >)
        ensures
            final(self).data == old(self).data,
            r.is_some() == (lead_byte.spec_data_size() == 0 || old(self).has(
                lead_byte.spec_data_size() as int,
            )),
            r.is_some() ==> final(self).index == old(self).index + lead_byte.spec_data_size(),
            r.is_none() ==> final(self).index == old(self).index,
            r matches Some(v) ==> match v {
                HidReportAmbiguousSignedValue::Zero => lead_byte.spec_data_size() == 0,
                HidReportAmbiguousSignedValue::U8(x) => lead_byte.spec_data_size() == 1 && x
                    == old(self).data@[old(self).index as int],
                HidReportAmbiguousSignedValue::U16(x) => lead_byte.spec_data_size() == 2 && x
                    == Self::u16_at(old(self).data@, old(self).index as int),
                HidReportAmbiguousSignedValue::U32(x) => lead_byte.spec_data_size() == 4 && x
                    == Self::u32_at(old(self).data@, old(self).index as int),
            },
    {
        let size = lead_byte.data_size();
        if size == 0 {
            Some(HidReportAmbiguousSignedValue::Zero)
        } else if size == 1 {
            match self.next() {
                Some(v) => Some(HidReportAmbiguousSignedValue::U8(v)),
                None => None,
            }
        } else if size == 2 {
            match self.next_u16() {
                Some(v) => Some(HidReportAmbiguousSignedValue::U16(v)),
                None => None,
            }
        } else {
            match self.next_u32() {
                Some(v) => Some(HidReportAmbiguousSignedValue::U32(v)),
                None => None,
            }
        }
    }
}

/// The global items in force.
#[derive(Debug, Clone, Copy, PartialEq, Eq, Structural)]
pub struct HidReportGlobalState {
    pub usage_page: UsagePage,
    pub logical_minimum: HidReportAmbiguousSignedValue,
    pub logical_maximum: HidReportAmbiguousSignedValue,
    pub physical_minimum: HidReportAmbiguousSignedValue,
    pub physical_maximum: HidReportAmbiguousSignedValue,
    pub unit_exponent: isize,
    pub unit: usize,
    pub report_size: usize,
    pub report_count: usize,
    /// The report id; never zero.
    pub report_id: Option<u8>,
}

impl HidReportGlobalState {
    /// The state before any item was read.
    pub fn new() -> (r: Self)
        ensures
            r == (HidReportGlobalState {
                usage_page: UsagePage(0),
                logical_minimum: HidReportAmbiguousSignedValue::Zero,
                logical_maximum: HidReportAmbiguousSignedValue::Zero,
                physical_minimum: HidReportAmbiguousSignedValue::Zero,
                physical_maximum: HidReportAmbiguousSignedValue::Zero,
                unit_exponent: 0,
                unit: 0,
                report_size: 0,
                report_count: 0,
                report_id: None,
            }),
    {
        HidReportGlobalState {
            usage_page: UsagePage(0),
            logical_minimum: HidReportAmbiguousSignedValue::Zero,
            logical_maximum: HidReportAmbiguousSignedValue::Zero,
            physical_minimum: HidReportAmbiguousSignedValue::Zero,
            physical_maximum: HidReportAmbiguousSignedValue::Zero,
            unit_exponent: 0,
            unit: 0,
            report_size: 0,
            report_count: 0,
            report_id: None,
        }
    }
}

/// The local items in force.
#[derive(Debug, PartialEq, Eq)]
pub struct HidReportLocalState {
    pub usage: Vec<u32>,
    pub usage_minimum: u32,
    pub usage_maximum: u32,
    pub delimiter: usize,
}

impl HidReportLocalState {
    /// The state before any item was read.
    pub fn new() -> (r: Self)
        ensures
            r.usage@.len() == 0,
            r.usage_minimum == 0,
            r.usage_maximum == 0,
            r.delimiter == 0,
    {
        HidReportLocalState { usage: Vec::new(), usage_minimum: 0, usage_maximum: 0, delimiter: 0 }
    }

    /// Forgets every local item.
    pub fn reset(&mut self)
        ensures
            final(self).usage@.len() == 0,
            final(self).usage_minimum == 0,
            final(self).usage_maximum == 0,
            final(self).delimiter == 0,
    {
        self.usage = Vec::new();
        self.usage_minimum = 0;
        self.usage_maximum = 0;
        self.delimiter = 0;
    }
}

} // verus!
