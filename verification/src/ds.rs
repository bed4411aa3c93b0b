//! The driver station: its shared state, the rules of its tasks, and what
//! the facade decides before anything is sent.

pub mod conn;
pub mod state;

use self::state::DsMode;
use crate::proto::tcp::outbound::{GameData, TcpTag};
use crate::proto::udp::outbound::types::tags::Joysticks;
use crate::util::{ip_from_team_number, team_ip, MAX_TEAM_NUMBER};
use vstd::prelude::*;
use vstd::string::StringExecFns;
use vstd::string::StringSliceAdditionalSpecFns;

verus! {

/// What the facade and the simulator detector tell the connection tasks.
#[derive(Debug, Clone)]
pub enum Signal {
    /// Shut down.
    Disconnect,
    /// Talk to the controller at this address from now on.
    NewTarget(String),
    /// The target is now a real controller, or a simulator.
    NewMode(DsMode),
}

/// Why the facade refused a call. A refused call changes nothing.
#[derive(Copy, Clone, Debug, PartialEq, Eq, Structural)]
pub enum InvalidArgument {
    /// A team number above [`MAX_TEAM_NUMBER`].
    TeamNumber,
    /// A game-specific message that is not three bytes long.
    GameSpecificMessage,
}

/// The address of the controller when it is reached over USB.
pub open spec fn usb_ip() -> Seq<char> {
    "172.22.11.2"@
}

/// The length of a game-specific message, in bytes.
pub const GAME_MESSAGE_LEN: usize = 3;

/// What the facade itself keeps, and what it decides before it sends
/// anything: which signal a call posts, and which tag it queues.
pub struct DriverStation {
    team_number: u32,
}

impl DriverStation {
    /// The team number that the facade keeps.
    pub closed spec fn spec_team_number(&self) -> u32 {
        self.team_number
    }

    /// The facade of the driver station of team `team_number`.
    pub fn new(team_number: u32) -> (station: DriverStation)
        ensures
            station.spec_team_number() == team_number,
    {
        DriverStation { team_number }
    }

    /// The team number that the facade keeps.
    pub fn team_number(&self) -> (team_number: u32)
        ensures
            team_number == self.spec_team_number(),
    {
        self.team_number
    }

    /// Changes the team number. The result is the signal to post: the
    /// controller of that team as the new target. A team number above
    /// [`MAX_TEAM_NUMBER`] is refused.
    pub fn set_team_number(&mut self, team_number: u32) -> (signal: Result<Signal, InvalidArgument>)
        ensures
            team_number > MAX_TEAM_NUMBER ==> {
                &&& signal == Err::<Signal, InvalidArgument>(InvalidArgument::TeamNumber)
                &&& final(self).spec_team_number() == old(self).spec_team_number()
            },
            team_number <= MAX_TEAM_NUMBER ==> {
                &&& signal matches Ok(Signal::NewTarget(ip))
                &&& ip@ == team_ip(team_number as nat)
                &&& final(self).spec_team_number() == team_number
            },
    {
        match ip_from_team_number(team_number) {
            Some(ip) => {
                self.team_number = team_number;
                Ok(Signal::NewTarget(ip))
            },
            None => Err(InvalidArgument::TeamNumber),
        }
    }

    /// Chooses between the USB address and the address of the team. The
    /// result is the signal to post: the chosen address as the new target.
    /// The address of the team is refused where the team number is above
    /// [`MAX_TEAM_NUMBER`].
    pub fn set_use_usb(&self, use_usb: bool) -> (signal: Result<Signal, InvalidArgument>)
        ensures
            use_usb ==> {
                &&& signal matches Ok(Signal::NewTarget(ip))
                &&& ip@ == usb_ip()
            },
            !use_usb && self.spec_team_number() <= MAX_TEAM_NUMBER ==> {
                &&& signal matches Ok(Signal::NewTarget(ip))
                &&& ip@ == team_ip(self.spec_team_number() as nat)
            },
            !use_usb && self.spec_team_number() > MAX_TEAM_NUMBER ==> signal == Err::<
                Signal,
                InvalidArgument,
            >(InvalidArgument::TeamNumber),
    {
        if use_usb {
            Ok(Signal::NewTarget(String::from_str("172.22.11.2")))
        } else {
            match ip_from_team_number(self.team_number) {
                Some(ip) => Ok(Signal::NewTarget(ip)),
                None => Err(InvalidArgument::TeamNumber),
            }
        }
    }

    /// Checks a game-specific message. The result is the tag to queue for
    /// the controller. A message that is not [`GAME_MESSAGE_LEN`] bytes long
    /// is refused.
    pub fn set_game_specific_message(&self, message: &str) -> (tag: Result<TcpTag, InvalidArgument>)
        ensures
            message.spec_bytes().len() != GAME_MESSAGE_LEN ==> tag == Err::<
                TcpTag,
                InvalidArgument,
            >(InvalidArgument::GameSpecificMessage),
            message.spec_bytes().len() == GAME_MESSAGE_LEN ==> {
                &&& tag matches Ok(TcpTag::GameData(data))
                &&& data.gsm@ == message@
                &&& TcpTag::GameData(data).fits()
            },
    {
        if message.as_bytes().len() != GAME_MESSAGE_LEN {
            return Err(InvalidArgument::GameSpecificMessage);
        }
        Ok(TcpTag::GameData(GameData { gsm: String::from_str(message) }))
    }
}

/// One value read from a joystick.
#[derive(Copy, Clone, Debug, PartialEq, Eq)]
pub enum JoystickValue {
    /// The position of axis `id`, from -128 to 127.
    Axis { id: u8, value: i8 },
    /// The state of button `id`. Buttons are numbered from 1.
    Button { id: u8, pressed: bool },
    /// The angle of POV hat `id` in degrees, or -1 while it is released.
    POV { id: u8, angle: i16 },
}

impl JoystickValue {
    /// The number of the axis, button or hat that the value belongs to.
    pub open spec fn spec_id(self) -> u8 {
        match self {
            JoystickValue::Axis { id, .. } => id,
            JoystickValue::Button { id, .. } => id,
            JoystickValue::POV { id, .. } => id,
        }
    }

    /// The number of the axis, button or hat that the value belongs to.
    pub fn id(self) -> (id: u8)
        ensures
            id == self.spec_id(),
    {
        match self {
            JoystickValue::Axis { id, .. } => id,
            JoystickValue::Button { id, .. } => id,
            JoystickValue::POV { id, .. } => id,
        }
    }

    /// Whether the value is the position of an axis.
    pub fn is_axis(self) -> (r: bool)
        ensures
            r == (self is Axis),
    {
        matches!(self, JoystickValue::Axis { .. })
    }

    /// Whether the value is the state of a button.
    pub fn is_button(self) -> (r: bool)
        ensures
            r == (self is Button),
    {
        matches!(self, JoystickValue::Button { .. })
    }

    /// Whether the value is the angle of a POV hat.
    pub fn is_pov(self) -> (r: bool)
        ensures
            r == (self is POV),
    {
        matches!(self, JoystickValue::POV { .. })
    }
}

/// The number of axes that a joystick tag reports.
pub const AXES: usize = 6;

/// The number of buttons that a joystick tag reports.
pub const BUTTONS: usize = 10;

/// The number of POV hats that a joystick tag reports.
pub const POVS: usize = 1;

/// The axes of the joystick tag for `values`: six of them, each 0 unless a
/// value names it. Axes are numbered from 0; where two values name one
/// axis the later one counts, and a value for an axis beyond the sixth is
/// left out.
pub open spec fn stick_axes(values: Seq<JoystickValue>) -> Seq<i8>
    decreases values.len(),
{
    if values.len() == 0 {
        Seq::new(AXES as nat, |i: int| 0i8)
    } else {
        let rest = stick_axes(values.drop_last());
        match values.last() {
            JoystickValue::Axis { id, value } => if id < AXES {
                rest.update(id as int, value)
            } else {
                rest
            },
            _ => rest,
        }
    }
}

/// The buttons of the joystick tag for `values`: ten of them, each released
/// unless a value names it. Buttons are numbered from 1, so button `id`
/// stands at index `id - 1`; where two values name one button the later one
/// counts, and a value for button 0 or for a button beyond the tenth is left
/// out.
pub open spec fn stick_buttons(values: Seq<JoystickValue>) -> Seq<bool>
    decreases values.len(),
{
    if values.len() == 0 {
        Seq::new(BUTTONS as nat, |i: int| false)
    } else {
        let rest = stick_buttons(values.drop_last());
        match values.last() {
            JoystickValue::Button { id, pressed } => if 1 <= id <= BUTTONS {
                rest.update(id - 1, pressed)
            } else {
                rest
            },
            _ => rest,
        }
    }
}

/// The POV hats of the joystick tag for `values`: one, at -1 unless a value
/// names hat 0; the last such value counts.
pub open spec fn stick_povs(values: Seq<JoystickValue>) -> Seq<i16>
    decreases values.len(),
{
    if values.len() == 0 {
        Seq::new(POVS as nat, |i: int| -1i16)
    } else {
        let rest = stick_povs(values.drop_last());
        match values.last() {
            JoystickValue::POV { id, angle } => if id < POVS {
                rest.update(id as int, angle)
            } else {
                rest
            },
            _ => rest,
        }
    }
}

/// The rows of a joystick tag always have the same lengths, so the tag
/// always fits its frame.
pub proof fn lemma_stick_rows_len(values: Seq<JoystickValue>)
    ensures
        stick_axes(values).len() == AXES,
        stick_buttons(values).len() == BUTTONS,
        stick_povs(values).len() == POVS,
    decreases values.len(),
{
    if values.len() > 0 {
        lemma_stick_rows_len(values.drop_last());
    }
}

/// The joystick tag for the values of one joystick: see [`stick_axes`],
/// [`stick_buttons`] and [`stick_povs`].
pub fn joysticks_tag(values: &[JoystickValue]) -> (tag: Joysticks)
    ensures
        tag.axes@ == stick_axes(values@),
        tag.buttons@ == stick_buttons(values@),
        tag.povs@ == stick_povs(values@),
        tag.fits(),
{
    let mut axes: Vec<i8> = Vec::new();
    let mut a: usize = 0;
    while a < AXES
        invariant
            a <= AXES,
            axes@ == Seq::new(a as nat, |i: int| 0i8),
        decreases AXES - a,
    {
        axes.push(0);
        a += 1;
    }
    let mut buttons: Vec<bool> = Vec::new();
    let mut b: usize = 0;
    while b < BUTTONS
        invariant
            b <= BUTTONS,
            buttons@ == Seq::new(b as nat, |i: int| false),
        decreases BUTTONS - b,
    {
        buttons.push(false);
        b += 1;
    }
    let mut povs: Vec<i16> = Vec::new();
    povs.push(-1);

    let mut i: usize = 0;
    while i < values.len()
        invariant
            i <= values@.len(),
            axes@ == stick_axes(values@.take(i as int)),
            buttons@ == stick_buttons(values@.take(i as int)),
            povs@ == stick_povs(values@.take(i as int)),
        decreases values@.len() - i,
    {
        proof {
            lemma_stick_rows_len(values@.take(i as int));
            assert(values@.take(i as int + 1).drop_last() =~= values@.take(i as int));
        }
        match values[i] {
            JoystickValue::Axis { id, value } => {
                if (id as usize) < AXES {
                    axes.set(id as usize, value);
                }
            },
            JoystickValue::Button { id, pressed } => {
                if 1 <= id && (id as usize) <= BUTTONS {
                    buttons.set((id - 1) as usize, pressed);
                }
            },
            JoystickValue::POV { id, angle } => {
                if (id as usize) < POVS {
                    povs.set(id as usize, angle);
                }
            },
        }
        i += 1;
    }
    proof {
        assert(values@.take(i as int) =~= values@);
        lemma_stick_rows_len(values@);
        crate::proto::udp::outbound::types::tags::lemma_joysticks_payload_len(
            axes@,
            buttons@,
            povs@,
        );
    }
    Joysticks::new(axes, buttons, povs)
}

} // verus!
