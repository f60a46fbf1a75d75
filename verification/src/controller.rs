//! Game controller input read through XInput: which buttons were just
//! pressed and where the left stick points, with a short delay between
//! repeated inputs.
use vstd::prelude::*;
use crate::input::ControllerInput;

verus! {

/// Why a controller could not be read.
pub enum XInputError {
    InvalidControllerID,
    DeviceNotConnected,
    UnknownError(u32),
}

pub const CONTROLLER_DPAD_UP: u16 = 0x0001;
pub const CONTROLLER_DPAD_DOWN: u16 = 0x0002;
pub const CONTROLLER_DPAD_LEFT: u16 = 0x0004;
pub const CONTROLLER_DPAD_RIGHT: u16 = 0x0008;
pub const CONTROLLER_START: u16 = 0x0010;
pub const CONTROLLER_BACK: u16 = 0x0020;
pub const CONTROLLER_LEFT_THUMB: u16 = 0x0040;
pub const CONTROLLER_RIGHT_THUMB: u16 = 0x0080;
pub const CONTROLLER_LEFT_SHOULDER: u16 = 0x0100;
pub const CONTROLLER_RIGHT_SHOULDER: u16 = 0x0200;
pub const CONTROLLER_GUIDE: u16 = 0x0400;
pub const CONTROLLER_A: u16 = 0x1000;
pub const CONTROLLER_B: u16 = 0x2000;
pub const CONTROLLER_X: u16 = 0x4000;
pub const CONTROLLER_Y: u16 = 0x8000;

pub const CONTROLLER_UP: u16 = 0x1001;
pub const CONTROLLER_DOWN: u16 = 0x2001;
pub const CONTROLLER_LEFT: u16 = 0x4001;
pub const CONTROLLER_RIGHT: u16 = 0x8001;

/// How far the left stick must be pushed before it counts as a direction.
pub const XINPUT_GAMEPAD_DEADZONE: i32 = 7849;

/// XInput's `ERROR_SUCCESS`.
pub const ERROR_SUCCESS: u32 = 0;

/// XInput's `ERROR_DEVICE_NOT_CONNECTED`.
pub const ERROR_DEVICE_NOT_CONNECTED: u32 = 1167;

/// How many milliseconds must pass before a button or the stick repeats.
pub const REPEAT_DELAY_MS: u64 = 100;

/// The state of a controller as XInput reports it.
#[derive(Copy, Clone)]
pub struct XInputGamepadEx {
    pub event_count: u32,
    pub w_buttons: u16,
    pub b_left_trigger: u8,
    pub b_right_trigger: u8,
    pub s_thumb_lx: i16,
    pub s_thumb_ly: i16,
    pub s_thumb_rx: i16,
    pub s_thumb_ry: i16,
}

impl Default for XInputGamepadEx {
    /// No buttons held and the sticks centered.
    fn default() -> (g: XInputGamepadEx)
        ensures
            g.event_count == 0 && g.w_buttons == 0 && g.b_left_trigger == 0
                && g.b_right_trigger == 0,
            g.s_thumb_lx == 0 && g.s_thumb_ly == 0 && g.s_thumb_rx == 0 && g.s_thumb_ry == 0,
    {
        XInputGamepadEx {
            event_count: 0,
            w_buttons: 0,
            b_left_trigger: 0,
            b_right_trigger: 0,
            s_thumb_lx: 0,
            s_thumb_ly: 0,
            s_thumb_rx: 0,
            s_thumb_ry: 0,
        }
    }
}

/// The last two states read from a controller, and when a button and the
/// stick last produced input, in milliseconds.
pub struct XInput {
    pub previous_state: XInputGamepadEx,
    pub current_state: XInputGamepadEx,
    pub last_stick_time: u64,
    pub last_button_time: u64,
}

/// Whether `button` is held in `current` and was not in `previous`.
pub open spec fn spec_is_pressed(previous: u16, current: u16, button: u16) -> bool {
    current & button != 0 && previous & button == 0
}

/// Whether the stick at (`x`, `y`) points in `direction`: it is out of the
/// dead zone and further along that direction's axis than the other.
pub open spec fn spec_stick_is_pressed(x: int, y: int, direction: u16) -> bool {
    if x * x + y * y < XINPUT_GAMEPAD_DEADZONE * XINPUT_GAMEPAD_DEADZONE {
        false
    } else if direction == CONTROLLER_LEFT {
        x < 0 && abs(x) > abs(y)
    } else if direction == CONTROLLER_UP {
        y > 0 && abs(y) > abs(x)
    } else if direction == CONTROLLER_DOWN {
        y < 0 && abs(y) > abs(x)
    } else {
        x > 0 && abs(x) > abs(y)
    }
}

/// The absolute value of `v`.
pub open spec fn abs(v: int) -> int {
    if v < 0 {
        -v
    } else {
        v
    }
}

/// The buttons checked for presses, in order.
pub open spec fn spec_buttons() -> Seq<u16> {
    seq![
        CONTROLLER_DPAD_UP,
        CONTROLLER_DPAD_DOWN,
        CONTROLLER_DPAD_LEFT,
        CONTROLLER_DPAD_RIGHT,
        CONTROLLER_START,
        CONTROLLER_BACK,
        CONTROLLER_LEFT_THUMB,
        CONTROLLER_RIGHT_THUMB,
        CONTROLLER_LEFT_SHOULDER,
        CONTROLLER_RIGHT_SHOULDER,
        CONTROLLER_GUIDE,
        CONTROLLER_A,
        CONTROLLER_B,
        CONTROLLER_X,
        CONTROLLER_Y
    ]
}

/// The stick directions checked, in order.
pub open spec fn spec_directions() -> Seq<u16> {
    seq![CONTROLLER_UP, CONTROLLER_DOWN, CONTROLLER_LEFT, CONTROLLER_RIGHT]
}

/// Milliseconds from `last` to `now`; none if `now` is earlier.
pub open spec fn spec_elapsed(now: u64, last: u64) -> int {
    if now >= last {
        now - last
    } else {
        0
    }
}

fn elapsed(now: u64, last: u64) -> (e: u64)
    ensures
        e == spec_elapsed(now, last),
{
    if now >= last {
        now - last
    } else {
        0
    }
}

/// Whether the stick reading (`x`, `y`) can be squared and summed within
/// `i32`, which fails only when both axes are at their lowest.
pub open spec fn stick_in_range(x: i16, y: i16) -> bool {
    !(x == i16::MIN && y == i16::MIN)
}

/// `controller_index` names one of the four controllers XInput serves.
pub fn check_user_index(user_index: u32) -> (r: Result<(), XInputError>)
    ensures
        r is Ok <==> user_index < 4,
        r matches Err(e) ==> e is InvalidControllerID,
{
    if user_index >= 4 {
        Err(XInputError::InvalidControllerID)
    } else {
        Ok(())
    }
}

impl XInput {
    /// A controller with nothing read yet.
    pub fn new(now: u64) -> (x: XInput)
        ensures
            x.previous_state.w_buttons == 0,
            x.current_state.w_buttons == 0,
            x.current_state.s_thumb_lx == 0,
            x.current_state.s_thumb_ly == 0,
            x.last_stick_time == now,
            x.last_button_time == now,
    {
        XInput {
            previous_state: XInputGamepadEx::default(),
            current_state: XInputGamepadEx::default(),
            last_stick_time: now,
            last_button_time: now,
        }
    }

    /// Records the outcome of reading the controller: `status` is what
    /// XInput answered and `output` the state it wrote. On success the
    /// state read becomes the current one and the current one the
    /// previous one.
    pub fn record_state(&mut self, status: u32, output: XInputGamepadEx) -> (r: Result<
        (),
        XInputError,
    >)
        ensures
            r is Ok <==> status == ERROR_SUCCESS,
            r is Ok ==> final(self).previous_state == old(self).current_state
                && final(self).current_state == output,
            r is Err ==> final(self).previous_state == old(self).previous_state
                && final(self).current_state == old(self).current_state,
            r matches Err(e) ==> (if status == ERROR_DEVICE_NOT_CONNECTED {
                e is DeviceNotConnected
            } else {
                e == XInputError::UnknownError(status)
            }),
            final(self).last_stick_time == old(self).last_stick_time,
            final(self).last_button_time == old(self).last_button_time,
    {
        if status == ERROR_SUCCESS {
            self.previous_state = self.current_state;
            self.current_state = output;
            Ok(())
        } else if status == ERROR_DEVICE_NOT_CONNECTED {
            Err(XInputError::DeviceNotConnected)
        } else {
            Err(XInputError::UnknownError(status))
        }
    }

    /// Whether `button` went down since the previous reading.
    pub fn is_pressed(&self, button: u16) -> (b: bool)
        ensures
            b == spec_is_pressed(self.previous_state.w_buttons, self.current_state.w_buttons, button),
    {
        self.current_state.w_buttons & button != 0 && self.previous_state.w_buttons & button == 0
    }

    /// Whether the left stick points in `direction`.
    pub fn stick_is_pressed(&self, direction: u16) -> (b: bool)
        requires
            spec_directions().contains(direction),
            stick_in_range(self.current_state.s_thumb_lx, self.current_state.s_thumb_ly),
        ensures
            b == spec_stick_is_pressed(
                self.current_state.s_thumb_lx as int,
                self.current_state.s_thumb_ly as int,
                direction,
            ),
    {
        let x = self.current_state.s_thumb_lx as i32;
        let y = self.current_state.s_thumb_ly as i32;
        assert(0 <= x * x <= 0x4000_0000 && 0 <= y * y <= 0x4000_0000 && x * x + y * y
            <= i32::MAX) by (nonlinear_arith)
            requires
                -32768 <= x <= 32767,
                -32768 <= y <= 32767,
                !(x == -32768 && y == -32768),
        ;
        if (x * x) + (y * y) < XINPUT_GAMEPAD_DEADZONE * XINPUT_GAMEPAD_DEADZONE {
            return false;
        }
        let ax = if x < 0 {
            -x
        } else {
            x
        };
        let ay = if y < 0 {
            -y
        } else {
            y
        };
        if direction == CONTROLLER_LEFT {
            x < 0 && ax > ay
        } else if direction == CONTROLLER_UP {
            y > 0 && ay > ax
        } else if direction == CONTROLLER_DOWN {
            y < 0 && ay > ax
        } else {
            x > 0 && ax > ay
        }
    }

    /// The buttons that went down since the previous reading, if buttons
    /// may repeat at `now`, followed by the stick directions, if the stick
    /// may repeat. Either source waits for another delay once it produced
    /// input.
    pub fn get_actions(&mut self, now: u64) -> (result: Vec<u16>)
        requires
            spec_elapsed(now, old(self).last_stick_time) > REPEAT_DELAY_MS ==> stick_in_range(
                old(self).current_state.s_thumb_lx,
                old(self).current_state.s_thumb_ly,
            ),
        ensures
            ({
                let prev = old(self).previous_state.w_buttons;
                let cur = old(self).current_state.w_buttons;
                let x = old(self).current_state.s_thumb_lx as int;
                let y = old(self).current_state.s_thumb_ly as int;
                let buttons = if spec_elapsed(now, old(self).last_button_time) > REPEAT_DELAY_MS {
                    spec_buttons().filter(|b: u16| spec_is_pressed(prev, cur, b))
                } else {
                    Seq::<u16>::empty()
                };
                let sticks = if spec_elapsed(now, old(self).last_stick_time) > REPEAT_DELAY_MS {
                    spec_directions().filter(|d: u16| spec_stick_is_pressed(x, y, d))
                } else {
                    Seq::<u16>::empty()
                };
                &&& result@ == buttons + sticks
                &&& final(self).last_button_time == (if buttons.len() > 0 {
                    now
                } else {
                    old(self).last_button_time
                })
                &&& final(self).last_stick_time == (if sticks.len() > 0 {
                    now
                } else {
                    old(self).last_stick_time
                })
            }),
            final(self).previous_state == old(self).previous_state,
            final(self).current_state == old(self).current_state,
    {
        let ghost prev = self.previous_state.w_buttons;
        let ghost cur = self.current_state.w_buttons;
        let ghost x = self.current_state.s_thumb_lx as int;
        let ghost y = self.current_state.s_thumb_ly as int;
        let ghost pressed = |b: u16| spec_is_pressed(prev, cur, b);
        let ghost pointed = |d: u16| spec_stick_is_pressed(x, y, d);
        let mut result: Vec<u16> = Vec::new();
        if elapsed(now, self.last_button_time) > REPEAT_DELAY_MS {
            let buttons: [u16; 15] = [
                CONTROLLER_DPAD_UP,
                CONTROLLER_DPAD_DOWN,
                CONTROLLER_DPAD_LEFT,
                CONTROLLER_DPAD_RIGHT,
                CONTROLLER_START,
                CONTROLLER_BACK,
                CONTROLLER_LEFT_THUMB,
                CONTROLLER_RIGHT_THUMB,
                CONTROLLER_LEFT_SHOULDER,
                CONTROLLER_RIGHT_SHOULDER,
                CONTROLLER_GUIDE,
                CONTROLLER_A,
                CONTROLLER_B,
                CONTROLLER_X,
                CONTROLLER_Y,
            ];
            assert(buttons@ =~= spec_buttons());
            let mut i: usize = 0;
            while i < 15
                invariant
                    i <= 15,
                    buttons@ == spec_buttons(),
                    pressed == (|b: u16| spec_is_pressed(prev, cur, b)),
                    prev == self.previous_state.w_buttons,
                    cur == self.current_state.w_buttons,
                    self.previous_state == old(self).previous_state,
                    self.current_state == old(self).current_state,
                    self.last_stick_time == old(self).last_stick_time,
                    result@ == spec_buttons().take(i as int).filter(pressed),
                    self.last_button_time == (if result@.len() > 0 {
                        now
                    } else {
                        old(self).last_button_time
                    }),
                decreases 15 - i,
            {
                proof {
                    reveal(Seq::filter);
                }
                assert(spec_buttons().take(i + 1).drop_last() =~= spec_buttons().take(i as int));
                if self.is_pressed(buttons[i]) {
                    result.push(buttons[i]);
                    self.last_button_time = now;
                }
                i = i + 1;
            }
            assert(spec_buttons().take(15) =~= spec_buttons());
        }
        let ghost after_buttons = result@;
        if elapsed(now, self.last_stick_time) > REPEAT_DELAY_MS {
            let directions: [u16; 4] = [
                CONTROLLER_UP,
                CONTROLLER_DOWN,
                CONTROLLER_LEFT,
                CONTROLLER_RIGHT,
            ];
            assert(directions@ =~= spec_directions());
            let mut i: usize = 0;
            while i < 4
                invariant
                    i <= 4,
                    directions@ == spec_directions(),
                    pointed == (|d: u16| spec_stick_is_pressed(x, y, d)),
                    x == self.current_state.s_thumb_lx as int,
                    y == self.current_state.s_thumb_ly as int,
                    stick_in_range(self.current_state.s_thumb_lx, self.current_state.s_thumb_ly),
                    self.previous_state == old(self).previous_state,
                    self.current_state == old(self).current_state,
                    self.last_button_time == (if after_buttons.len() > 0 {
                        now
                    } else {
                        old(self).last_button_time
                    }),
                    result@ == after_buttons + spec_directions().take(i as int).filter(pointed),
                    self.last_stick_time == (if spec_directions().take(i as int).filter(
                        pointed,
                    ).len() > 0 {
                        now
                    } else {
                        old(self).last_stick_time
                    }),
                decreases 4 - i,
            {
                proof {
                    reveal(Seq::filter);
                }
                assert(spec_directions().take(i + 1).drop_last() =~= spec_directions().take(
                    i as int,
                ));
                assert(spec_directions().contains(directions[i as int]));
                if self.stick_is_pressed(directions[i]) {
                    result.push(directions[i]);
                    self.last_stick_time = now;
                }
                i = i + 1;
            }
            assert(spec_directions().take(4) =~= spec_directions());
        } else {
            assert(result@ =~= after_buttons + Seq::<u16>::empty());
        }
        result
    }
}

/// The controller buttons that went down, as inputs, in the order start,
/// back, guide, A (south), B (east), X (west), Y (north).
pub open spec fn spec_pad_buttons(previous: u16, current: u16) -> Seq<ControllerInput> {
    let s0 = Seq::<ControllerInput>::empty();
    let s1 = if spec_is_pressed(previous, current, CONTROLLER_START) {
        s0.push(ControllerInput::ButtonStart)
    } else {
        s0
    };
    let s2 = if spec_is_pressed(previous, current, CONTROLLER_BACK) {
        s1.push(ControllerInput::ButtonBack)
    } else {
        s1
    };
    let s3 = if spec_is_pressed(previous, current, CONTROLLER_GUIDE) {
        s2.push(ControllerInput::ButtonGuide)
    } else {
        s2
    };
    let s4 = if spec_is_pressed(previous, current, CONTROLLER_A) {
        s3.push(ControllerInput::ButtonSouth)
    } else {
        s3
    };
    let s5 = if spec_is_pressed(previous, current, CONTROLLER_B) {
        s4.push(ControllerInput::ButtonEast)
    } else {
        s4
    };
    let s6 = if spec_is_pressed(previous, current, CONTROLLER_X) {
        s5.push(ControllerInput::ButtonWest)
    } else {
        s5
    };
    if spec_is_pressed(previous, current, CONTROLLER_Y) {
        s6.push(ControllerInput::ButtonNorth)
    } else {
        s6
    }
}

/// The directions the stick at (`x`, `y`) points in, once it is out of
/// the dead zone, in the order left, up, down, right.
pub open spec fn spec_pad_stick(x: int, y: int) -> Seq<ControllerInput> {
    if x * x + y * y > XINPUT_GAMEPAD_DEADZONE * XINPUT_GAMEPAD_DEADZONE {
        let s0 = Seq::<ControllerInput>::empty();
        let s1 = if x < 0 && abs(x) > abs(y) {
            s0.push(ControllerInput::DirectionLeft)
        } else {
            s0
        };
        let s2 = if y > 0 && abs(y) > abs(x) {
            s1.push(ControllerInput::DirectionUp)
        } else {
            s1
        };
        let s3 = if y < 0 && abs(y) > abs(x) {
            s2.push(ControllerInput::DirectionDown)
        } else {
            s2
        };
        if x > 0 && abs(x) > abs(y) {
            s3.push(ControllerInput::DirectionRight)
        } else {
            s3
        }
    } else {
        Seq::<ControllerInput>::empty()
    }
}

impl XInput {
    /// The controller inputs of this reading: the buttons that went down,
    /// if buttons may repeat at `now`, then the stick's directions, if the
    /// stick may repeat. Either source waits for another delay once it
    /// produced input.
    pub fn get_gamepad(&mut self, now: u64) -> (result: Vec<ControllerInput>)
        requires
            stick_in_range(old(self).current_state.s_thumb_lx, old(self).current_state.s_thumb_ly),
        ensures
            ({
                let buttons = if spec_elapsed(now, old(self).last_button_time) > REPEAT_DELAY_MS {
                    spec_pad_buttons(
                        old(self).previous_state.w_buttons,
                        old(self).current_state.w_buttons,
                    )
                } else {
                    Seq::<ControllerInput>::empty()
                };
                let sticks = if spec_elapsed(now, old(self).last_stick_time) > REPEAT_DELAY_MS {
                    spec_pad_stick(
                        old(self).current_state.s_thumb_lx as int,
                        old(self).current_state.s_thumb_ly as int,
                    )
                } else {
                    Seq::<ControllerInput>::empty()
                };
                &&& result@ == buttons + sticks
                &&& final(self).last_button_time == (if buttons.len() > 0 {
                    now
                } else {
                    old(self).last_button_time
                })
                &&& final(self).last_stick_time == (if sticks.len() > 0 {
                    now
                } else {
                    old(self).last_stick_time
                })
            }),
            final(self).previous_state == old(self).previous_state,
            final(self).current_state == old(self).current_state,
    {
        let mut result: Vec<ControllerInput> = Vec::new();
        if elapsed(now, self.last_button_time) > REPEAT_DELAY_MS {
            result = self.pad_buttons();
            if result.len() > 0 {
                self.last_button_time = now;
            }
        }
        let ghost after_buttons = result@;
        if elapsed(now, self.last_stick_time) > REPEAT_DELAY_MS {
            let mut sticks = self.pad_stick();
            if sticks.len() > 0 {
                self.last_stick_time = now;
            }
            result.append(&mut sticks);
        } else {
            assert(result@ =~= after_buttons + Seq::<ControllerInput>::empty());
        }
        result
    }

    /// The buttons that went down since the previous reading.
    fn pad_buttons(&self) -> (result: Vec<ControllerInput>)
        ensures
            result@ == spec_pad_buttons(self.previous_state.w_buttons, self.current_state.w_buttons),
    {
        let mut result: Vec<ControllerInput> = Vec::new();
        if self.is_pressed(CONTROLLER_START) {
            result.push(ControllerInput::ButtonStart);
        }
        if self.is_pressed(CONTROLLER_BACK) {
            result.push(ControllerInput::ButtonBack);
        }
        if self.is_pressed(CONTROLLER_GUIDE) {
            result.push(ControllerInput::ButtonGuide);
        }
        if self.is_pressed(CONTROLLER_A) {
            result.push(ControllerInput::ButtonSouth);
        }
        if self.is_pressed(CONTROLLER_B) {
            result.push(ControllerInput::ButtonEast);
        }
        if self.is_pressed(CONTROLLER_X) {
            result.push(ControllerInput::ButtonWest);
        }
        if self.is_pressed(CONTROLLER_Y) {
            result.push(ControllerInput::ButtonNorth);
        }
        result
    }

    /// The directions the left stick points in.
    fn pad_stick(&self) -> (result: Vec<ControllerInput>)
        requires
            stick_in_range(self.current_state.s_thumb_lx, self.current_state.s_thumb_ly),
        ensures
            result@ == spec_pad_stick(
                self.current_state.s_thumb_lx as int,
                self.current_state.s_thumb_ly as int,
            ),
    {
        let mut result: Vec<ControllerInput> = Vec::new();
        let x = self.current_state.s_thumb_lx as i32;
        let y = self.current_state.s_thumb_ly as i32;
        assert(0 <= x * x <= 0x4000_0000 && 0 <= y * y <= 0x4000_0000 && x * x + y * y
            <= i32::MAX) by (nonlinear_arith)
            requires
                -32768 <= x <= 32767,
                -32768 <= y <= 32767,
                !(x == -32768 && y == -32768),
        ;
        if (x * x) + (y * y) > XINPUT_GAMEPAD_DEADZONE * XINPUT_GAMEPAD_DEADZONE {
            let ax = if x < 0 {
                -x
            } else {
                x
            };
            let ay = if y < 0 {
                -y
            } else {
                y
            };
            if x < 0 && ax > ay {
                result.push(ControllerInput::DirectionLeft);
            }
            if y > 0 && ay > ax {
                result.push(ControllerInput::DirectionUp);
            }
            if y < 0 && ay > ax {
                result.push(ControllerInput::DirectionDown);
            }
            if x > 0 && ax > ay {
                result.push(ControllerInput::DirectionRight);
            }
        }
        result
    }
}

} // verus!
