//! The protocol core of a driver station for a robot controller.
//!
//! The crate holds what a driver station computes: the wire formats of the
//! packets it sends and receives, the state that its control packets are
//! built from, and the rules by which its tasks react to packets, timeouts
//! and signals. It opens no socket and starts no task.

pub mod clock;
pub mod ds;
pub mod proto;
pub mod util;
pub mod wire;

pub use crate::ds::conn::backoff::ExponentialBackoff;
pub use crate::ds::state::{DsMode, Mode, RecvState, SendState};
pub use crate::ds::{DriverStation, InvalidArgument, JoystickValue, Signal};
pub use crate::proto::tcp::inbound::TcpPacket;
pub use crate::proto::tcp::outbound::{GameData, MatchInfo, MatchType, TcpTag};
pub use crate::proto::udp::inbound::types::{Status, Trace, Voltage};
pub use crate::proto::udp::inbound::UdpResponsePacket;
pub use crate::proto::udp::outbound::types::tags::{
    Countdown, DateTime, Joysticks, Timezone, UdpTag,
};
pub use crate::proto::udp::outbound::types::{Alliance, Control, Request};
pub use crate::proto::udp::outbound::UdpControlPacket;
pub use crate::proto::DecodeError;
