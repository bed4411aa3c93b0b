//! The rules of the connection tasks.
//!
//! Each task of the driver station is a loop that waits for something to
//! happen, decides, and acts. The waiting and the acting are left to
//! whoever owns the sockets. The deciding is here: for each task a small
//! state, and for each thing that can happen a function from that state to
//! the next state and to what has to be done.

pub mod backoff;

use self::backoff::{delay_after, one_more, ExponentialBackoff};
use crate::clock::{clock_tag, date_time_of, utc_fields};
use crate::ds::state::{DsMode, RecvState, RecvView, SendOp, SendState, SendView};
use crate::ds::Signal;
use crate::proto::tcp::inbound::TcpPacket;
use crate::proto::tcp::outbound::TcpTag;
use crate::proto::udp::inbound::types::Status;
use crate::proto::udp::inbound::UdpResponsePacket;
use crate::proto::udp::outbound::types::tags::UdpTag;
use crate::util::{decimal, push_decimal};
use crate::wire::bytes_contents;
use bytes::Bytes;
use vstd::prelude::*;
use vstd::string::StringExecFns;

verus! {

/// The time between two control packets, in milliseconds.
pub const TICK_MILLIS: u64 = 20;

/// How long the receive task waits for a status packet before it takes the
/// controller for gone, in milliseconds.
pub const RECV_TIMEOUT_MILLIS: u64 = 2000;

/// How long the simulator detector waits for a probe, in milliseconds.
pub const SIM_TIMEOUT_MILLIS: u64 = 250;

/// The longest wait between two send attempts, in milliseconds.
pub const BACKOFF_CEILING_MILLIS: u64 = 5000;

/// The UDP port on which the controller takes control packets.
pub const CONTROL_PORT: u16 = 1110;

/// The UDP port on which the driver station takes status packets.
pub const STATUS_PORT: u16 = 1150;

/// The TCP port of the controller.
pub const TCP_PORT: u16 = 1740;

/// The UDP port on this machine on which a simulator announces itself.
pub const SIM_PORT: u16 = 1135;

/// The address of a simulator on this machine.
pub open spec fn loopback() -> Seq<char> {
    "127.0.0.1"@
}

/// The socket address of `port` on the host `ip`: the host, a colon, and
/// the port in decimal.
pub open spec fn socket_address(ip: Seq<char>, port: u16) -> Seq<char> {
    ip + seq![':'] + decimal(port as nat)
}

/// The socket address for control packets to the host `ip`.
pub open spec fn control_address(ip: Seq<char>) -> Seq<char> {
    socket_address(ip, CONTROL_PORT)
}

/// The socket address for the TCP stream to the host `ip`.
pub open spec fn tcp_address(ip: Seq<char>) -> Seq<char> {
    socket_address(ip, TCP_PORT)
}

/// The socket address of `port` on the host `ip`.
pub fn socket_address_of(ip: &str, port: u16) -> (address: String)
    ensures
        address@ == socket_address(ip@, port),
{
    let mut address = String::from_str(ip);
    address.append(":");
    proof {
        reveal_strlit(":");
    }
    push_decimal(&mut address, port as u32);
    address
}

/// The socket address for control packets to the host `ip`.
pub fn control_address_of(ip: &str) -> (address: String)
    ensures
        address@ == control_address(ip@),
{
    socket_address_of(ip, CONTROL_PORT)
}

/// The socket address for the TCP stream to the host `ip`.
pub fn tcp_address_of(ip: &str) -> (address: String)
    ensures
        address@ == tcp_address(ip@),
{
    socket_address_of(ip, TCP_PORT)
}

/// Why a control packet could not be sent.
#[derive(Copy, Clone, Debug, PartialEq, Eq, Structural)]
pub enum SendFailure {
    /// The system refused the datagram: nobody listens at the target.
    ConnectionRefused,
    /// Any other failure.
    Other,
}

/// What the send task has to do to its socket.
#[derive(Debug)]
pub enum Reconnect {
    /// Bind a new socket to any free port and connect it to `address`.
    Rebind { address: String },
    /// Connect the socket it has to `address`.
    Connect { address: String },
}

/// The state of the task that sends a control packet every tick.
pub struct SendTask {
    backoff: ExponentialBackoff,
}

impl SendTask {
    /// The number of sends that have failed in a row.
    pub closed spec fn failures(&self) -> u32 {
        self.backoff.attempts()
    }

    /// The wait that is due before the next send, in milliseconds.
    pub closed spec fn pending_wait(&self) -> Option<u64> {
        self.backoff.pending()
    }

    /// The longest wait between two sends, in milliseconds. It is
    /// [`BACKOFF_CEILING_MILLIS`] from the start and never changes.
    pub closed spec fn ceiling(&self) -> u64 {
        self.backoff.ceiling()
    }

    /// A task that has not failed yet.
    pub fn new() -> (task: SendTask)
        ensures
            task.ceiling() == BACKOFF_CEILING_MILLIS,
            task.failures() == 0,
            task.pending_wait() is None,
    {
        SendTask { backoff: ExponentialBackoff::new(BACKOFF_CEILING_MILLIS) }
    }

    /// The wait that is due before the next send, in milliseconds.
    pub fn wait(&self) -> (wait: Option<u64>)
        ensures
            wait == self.pending_wait(),
    {
        self.backoff.timeout()
    }

    /// Ends a tick: takes in how the send of this tick's packet went.
    ///
    /// The outcome goes through the backoff policy. Where the send was
    /// refused and it is the first failure since the last success, what was
    /// received is forgotten, and the result says so. In every case the
    /// sequence number moves on.
    pub fn sent(
        &mut self,
        send: &mut SendState,
        recv: &mut RecvState,
        outcome: Result<(), SendFailure>,
    ) -> (went_down: bool)
        ensures
            final(self).ceiling() == old(self).ceiling(),
            final(send)@ == (SendView { seqnum: old(send)@.next_seqnum(), ..old(send)@ }),
            went_down == (outcome == Err::<(), SendFailure>(SendFailure::ConnectionRefused)
                && old(self).failures() == 0),
            final(recv)@ == if went_down {
                RecvView::cleared()
            } else {
                old(recv)@
            },
            outcome is Ok ==> final(self).failures() == 0 && final(self).pending_wait() is None,
            outcome is Err ==> {
                &&& final(self).failures() == one_more(old(self).failures())
                &&& final(self).pending_wait() == Some(
                    delay_after(old(self).failures() as nat, old(self).ceiling()),
                )
            },
    {
        let went_down = match self.backoff.run(outcome) {
            Ok(_) => false,
            Err((failure, first_failure)) => {
                match failure {
                    SendFailure::ConnectionRefused => first_failure,
                    SendFailure::Other => false,
                }
            },
        };
        if went_down {
            recv.reset();
        }
        send.increment_seqnum();
        went_down
    }

    /// Takes in a signal.
    ///
    /// A new target, or the change to simulation, sets the sequence number
    /// back to 0, disables the robot, forgets what was received and clears
    /// the backoff; the result says where the socket has to connect. Any
    /// other signal changes nothing.
    pub fn on_signal(
        &mut self,
        send: &mut SendState,
        recv: &mut RecvState,
        signal: &Signal,
    ) -> (todo: Option<Reconnect>)
        ensures
            final(self).ceiling() == old(self).ceiling(),
            match *signal {
                Signal::NewTarget(ip) => {
                    &&& todo matches Some(Reconnect::Rebind { address })
                    &&& address@ == control_address(ip@)
                },
                Signal::NewMode(DsMode::Simulation) => {
                    &&& todo matches Some(Reconnect::Connect { address })
                    &&& address@ == control_address(loopback())
                },
                _ => todo is None,
            },
            todo is Some ==> {
                &&& final(send)@ == old(send)@.step(SendOp::ResetSeqnum).step(SendOp::Disable)
                &&& final(recv)@ == RecvView::cleared()
                &&& final(self).failures() == 0
                &&& final(self).pending_wait() is None
            },
            todo is None ==> {
                &&& final(send)@ == old(send)@
                &&& final(recv)@ == old(recv)@
                &&& final(self).failures() == old(self).failures()
                &&& final(self).pending_wait() == old(self).pending_wait()
            },
    {
        match signal {
            Signal::NewTarget(ip) => {
                send.reset_seqnum();
                send.disable();
                recv.reset();
                self.backoff.reset();
                Some(Reconnect::Rebind { address: control_address_of(ip.as_str()) })
            },
            Signal::NewMode(DsMode::Simulation) => {
                send.reset_seqnum();
                send.disable();
                recv.reset();
                self.backoff.reset();
                Some(Reconnect::Connect { address: control_address_of("127.0.0.1") })
            },
            _ => None,
        }
    }
}

/// What the receive task holds between two events.
pub ghost struct RecvTaskView {
    /// Whether the controller answered within the last timeout.
    pub connected: bool,
    /// Whether a TCP supervisor is attached.
    pub tcp_attached: bool,
    /// The address of the controller, used whenever the target is not a
    /// simulator.
    pub target_ip: Seq<char>,
}

/// The state of the task that receives status packets and looks after the
/// TCP supervisor.
pub struct RecvTask {
    connected: bool,
    tcp_connected: bool,
    target_ip: String,
}

impl View for RecvTask {
    type V = RecvTaskView;

    closed spec fn view(&self) -> RecvTaskView {
        RecvTaskView {
            connected: self.connected,
            tcp_attached: self.tcp_connected,
            target_ip: self.target_ip@,
        }
    }
}

/// What can happen to the receive task.
pub ghost enum RecvEvent {
    /// A status packet came and could be decoded.
    Packet,
    /// No status packet came within the timeout.
    Timeout,
    /// The signal `NewTarget` came, with this address.
    NewTarget(Seq<char>),
    /// The signal `NewMode` came, with this mode.
    NewMode(DsMode),
    /// The signal `Disconnect` came.
    Disconnect,
}

impl RecvEvent {
    /// The event that the arrival of `signal` is.
    pub open spec fn of_signal(signal: Signal) -> RecvEvent {
        match signal {
            Signal::Disconnect => RecvEvent::Disconnect,
            Signal::NewTarget(ip) => RecvEvent::NewTarget(ip@),
            Signal::NewMode(mode) => RecvEvent::NewMode(mode),
        }
    }

    /// Whether the event is a reconfiguration while the current mode is
    /// `ds_mode`: a new target, or a new mode that differs from the current
    /// one.
    pub open spec fn reconfigures(self, ds_mode: DsMode) -> bool {
        match self {
            RecvEvent::NewTarget(_) => true,
            RecvEvent::NewMode(mode) => mode != ds_mode,
            _ => false,
        }
    }

    /// The current mode after the event, where it was `ds_mode` before.
    pub open spec fn mode_after(self, ds_mode: DsMode) -> DsMode {
        match self {
            RecvEvent::NewMode(mode) => mode,
            _ => ds_mode,
        }
    }
}

impl RecvTaskView {
    /// The state after `event`, where the current mode was `ds_mode` before.
    pub open spec fn after(self, ds_mode: DsMode, event: RecvEvent) -> RecvTaskView {
        match event {
            RecvEvent::Packet => RecvTaskView { connected: true, tcp_attached: true, ..self },
            RecvEvent::Timeout => RecvTaskView { connected: false, ..self },
            RecvEvent::NewTarget(ip) => RecvTaskView { tcp_attached: false, target_ip: ip, ..self },
            RecvEvent::NewMode(mode) => if mode == ds_mode {
                self
            } else {
                RecvTaskView { tcp_attached: false, ..self }
            },
            RecvEvent::Disconnect => self,
        }
    }

    /// The state after a row of events, first to last, where the current
    /// mode was `ds_mode` before the first.
    pub open spec fn run(self, ds_mode: DsMode, events: Seq<RecvEvent>) -> RecvTaskView
        decreases events.len(),
    {
        if events.len() == 0 {
            self
        } else {
            self.run(ds_mode, events.drop_last()).after(
                mode_after_events(ds_mode, events.drop_last()),
                events.last(),
            )
        }
    }
}

/// The current mode after a row of events, where it was `ds_mode` before the
/// first.
pub open spec fn mode_after_events(ds_mode: DsMode, events: Seq<RecvEvent>) -> DsMode
    decreases events.len(),
{
    if events.len() == 0 {
        ds_mode
    } else {
        events.last().mode_after(mode_after_events(ds_mode, events.drop_last()))
    }
}

/// Whether event `j` of `events` is a reconfiguration, given that the
/// current mode was `ds_mode` before the first event.
pub open spec fn reconfigures_at(ds_mode: DsMode, events: Seq<RecvEvent>, j: int) -> bool {
    events[j].reconfigures(mode_after_events(ds_mode, events.take(j)))
}

/// Whether a status packet has come since the last reconfiguration: some
/// event is a packet, and no later event is a reconfiguration.
pub open spec fn packet_since_reconfiguration(ds_mode: DsMode, events: Seq<RecvEvent>) -> bool {
    exists|i: int|
        0 <= i < events.len() && #[trigger] events[i] is Packet && forall|j: int|
            i < j < events.len() ==> !#[trigger] reconfigures_at(ds_mode, events, j)
}

/// A TCP supervisor is attached exactly if a status packet has come since
/// the last reconfiguration. This holds after every row of events that a
/// task without a supervisor takes in.
pub proof fn lemma_supervisor_follows_packets(
    start: RecvTaskView,
    ds_mode: DsMode,
    events: Seq<RecvEvent>,
)
    requires
        !start.tcp_attached,
    ensures
        start.run(ds_mode, events).tcp_attached == packet_since_reconfiguration(ds_mode, events),
    decreases events.len(),
{
    if events.len() > 0 {
        let n = events.len() as int;
        let front = events.drop_last();
        lemma_supervisor_follows_packets(start, ds_mode, front);
        // An event of the front is a reconfiguration in the front exactly if
        // it is one in the whole row.
        assert forall|j: int| 0 <= j < n - 1 implies reconfigures_at(ds_mode, events, j)
            == reconfigures_at(ds_mode, front, j) by {
            assert(events.take(j) =~= front.take(j));
        }
        if !(events.last() is Packet) && !reconfigures_at(ds_mode, events, n - 1) {
            // The last event changes nothing, so a packet that counts in the
            // front counts in the whole row, and the other way round.
            if packet_since_reconfiguration(ds_mode, front) {
                let i = choose|i: int|
                    0 <= i < front.len() && #[trigger] front[i] is Packet && forall|j: int|
                        i < j < front.len() ==> !#[trigger] reconfigures_at(ds_mode, front, j);
                assert(events[i] is Packet);
            }
            if packet_since_reconfiguration(ds_mode, events) {
                let i = choose|i: int|
                    0 <= i < n && #[trigger] events[i] is Packet && forall|j: int|
                        i < j < n ==> !#[trigger] reconfigures_at(ds_mode, events, j);
                assert(front[i] is Packet);
            }
        }
    }
}

/// What the receive task has to do after a signal.
#[derive(Debug)]
pub struct Reaction {
    /// End the task.
    pub stop: bool,
    /// Tell the TCP supervisor to shut down.
    pub disconnect_tcp: bool,
    /// The signals to pass on to the send task, in order.
    pub forward: Vec<Signal>,
}

/// The tag to queue for a status packet that asks for the date: the
/// date-and-time tag of the given instant, where `chrono` can represent it.
pub open spec fn date_reply(packet: UdpResponsePacket, secs: i64, nanos: u32) -> Option<UdpTag> {
    if packet.need_date {
        match utc_fields(secs, nanos) {
            Some(fields) => Some(UdpTag::DateTime(date_time_of(fields))),
            None => None,
        }
    } else {
        None
    }
}

impl RecvTask {
    /// A task that takes the controller at `target_ip` for connected and has
    /// no TCP supervisor yet.
    pub fn new(target_ip: &str) -> (task: RecvTask)
        ensures
            task@ == (RecvTaskView { connected: true, tcp_attached: false, target_ip: target_ip@ }),
    {
        RecvTask { connected: true, tcp_connected: false, target_ip: String::from_str(target_ip) }
    }

    /// Whether the controller answered within the last timeout.
    pub fn connected(&self) -> (connected: bool)
        ensures
            connected == self@.connected,
    {
        self.connected
    }

    /// Whether a TCP supervisor is attached.
    pub fn tcp_attached(&self) -> (attached: bool)
        ensures
            attached == self@.tcp_attached,
    {
        self.tcp_connected
    }

    /// The address of the controller.
    pub fn target_ip(&self) -> (ip: &str)
        ensures
            ip@ == self@.target_ip,
    {
        self.target_ip.as_str()
    }

    /// Takes in a decoded status packet, received at the instant `now_secs`
    /// seconds and `now_nanos` nanoseconds after 1970-01-01 00:00:00 UTC.
    ///
    /// The controller counts as connected. Where the packet asks for the
    /// date, the date-and-time tag of that instant is queued. Where no TCP
    /// supervisor is attached, one is now, and the result is the host it has
    /// to connect to: the controller, or this machine while the target is a
    /// simulator. Where the packet reports an emergency stop, the stop is
    /// latched. The trace and the battery voltage of the packet are kept.
    pub fn on_packet(
        &mut self,
        send: &mut SendState,
        recv: &mut RecvState,
        packet: &UdpResponsePacket,
        now_secs: i64,
        now_nanos: u32,
    ) -> (spawn: Option<String>)
        ensures
            final(self)@ == old(self)@.after(old(send)@.ds_mode, RecvEvent::Packet),
            final(send)@ == (SendView {
                pending: match date_reply(*packet, now_secs, now_nanos) {
                    Some(tag) => old(send)@.pending.push(tag),
                    None => old(send)@.pending,
                },
                estopped: old(send)@.estopped || packet.status.has(Status::ESTOP),
                ..old(send)@
            }),
            final(recv)@ == (RecvView { trace: packet.trace, battery: packet.battery }),
            old(self)@.tcp_attached ==> spawn is None,
            !old(self)@.tcp_attached ==> {
                &&& spawn matches Some(host)
                &&& host@ == if old(send)@.ds_mode == DsMode::Normal {
                    old(self)@.target_ip
                } else {
                    loopback()
                }
            },
    {
        self.connected = true;
        if packet.need_date {
            match clock_tag(now_secs, now_nanos) {
                Some(tag) => {
                    send.queue_udp(UdpTag::DateTime(tag));
                },
                None => {},
            }
        }
        let spawn = if !self.tcp_connected {
            self.tcp_connected = true;
            match send.ds_mode() {
                DsMode::Normal => Some(self.target_ip.clone()),
                DsMode::Simulation => Some(String::from_str("127.0.0.1")),
            }
        } else {
            None
        };
        if packet.status.emergency_stopped() {
            if !send.estopped() {
                send.estop();
            }
        }
        recv.set_trace(packet.trace);
        recv.set_battery_voltage(packet.battery);
        spawn
    }

    /// Takes in that no status packet came within the timeout.
    ///
    /// Where the controller counted as connected, it no longer does, and
    /// what was received is forgotten; the result says so. The TCP
    /// supervisor stays as it is.
    pub fn on_timeout(&mut self, recv: &mut RecvState) -> (went_down: bool)
        ensures
            went_down == old(self)@.connected,
            final(self)@ == (RecvTaskView { connected: false, ..old(self)@ }),
            final(recv)@ == if went_down {
                RecvView::cleared()
            } else {
                old(recv)@
            },
    {
        if self.connected {
            recv.reset();
            self.connected = false;
            true
        } else {
            false
        }
    }

    /// Takes in a signal from the facade or from the simulator detector.
    ///
    /// `Disconnect` ends the task. A new target detaches the TCP
    /// supervisor, becomes the address of the controller, and is passed on.
    /// A new mode that differs from the current one detaches the TCP
    /// supervisor and becomes the current mode; it is passed on, and where
    /// it is `Normal` the address of the controller is passed on in front of
    /// it. A new mode that is the current one changes nothing.
    pub fn on_signal(&mut self, send: &mut SendState, signal: Signal) -> (todo: Reaction)
        ensures
            final(self)@ == old(self)@.after(old(send)@.ds_mode, RecvEvent::of_signal(signal)),
            final(send)@ == (SendView {
                ds_mode: RecvEvent::of_signal(signal).mode_after(old(send)@.ds_mode),
                ..old(send)@
            }),
            todo.stop == (signal is Disconnect),
            todo.disconnect_tcp == (old(self)@.tcp_attached && RecvEvent::of_signal(
                signal,
            ).reconfigures(old(send)@.ds_mode)),
            match signal {
                Signal::Disconnect => todo.forward@.len() == 0,
                Signal::NewTarget(ip) => {
                    &&& todo.forward@.len() == 1
                    &&& todo.forward@[0] matches Signal::NewTarget(passed)
                    &&& passed@ == ip@
                },
                Signal::NewMode(mode) => if mode == old(send)@.ds_mode {
                    todo.forward@.len() == 0
                } else if mode == DsMode::Normal {
                    &&& todo.forward@.len() == 2
                    &&& todo.forward@[0] matches Signal::NewTarget(passed)
                    &&& passed@ == old(self)@.target_ip
                    &&& todo.forward@[1] == Signal::NewMode(mode)
                } else {
                    &&& todo.forward@.len() == 1
                    &&& todo.forward@[0] == Signal::NewMode(mode)
                },
            },
    {
        let mut forward: Vec<Signal> = Vec::new();
        match signal {
            Signal::Disconnect => Reaction { stop: true, disconnect_tcp: false, forward },
            Signal::NewTarget(ip) => {
                let disconnect_tcp = self.tcp_connected;
                self.tcp_connected = false;
                self.target_ip = ip.clone();
                forward.push(Signal::NewTarget(ip));
                Reaction { stop: false, disconnect_tcp, forward }
            },
            Signal::NewMode(mode) => {
                let current_mode = send.ds_mode();
                if mode != current_mode {
                    let disconnect_tcp = self.tcp_connected;
                    self.tcp_connected = false;
                    send.set_ds_mode(mode);
                    if mode == DsMode::Normal {
                        forward.push(Signal::NewTarget(self.target_ip.clone()));
                    }
                    forward.push(Signal::NewMode(mode));
                    Reaction { stop: false, disconnect_tcp, forward }
                } else {
                    Reaction { stop: false, disconnect_tcp: false, forward }
                }
            },
        }
    }
}

/// The state of the task that watches for a simulator on this machine.
pub struct SimDetector {
    opmode: DsMode,
}

impl SimDetector {
    /// The mode that the detector last announced; `Normal` at the start.
    pub closed spec fn announced(&self) -> DsMode {
        self.opmode
    }

    /// A detector that has seen no simulator yet.
    pub fn new() -> (detector: SimDetector)
        ensures
            detector.announced() == DsMode::Normal,
    {
        SimDetector { opmode: DsMode::Normal }
    }

    /// Takes in the outcome of one wait for a probe: a datagram came
    /// (`received`), or the wait timed out.
    ///
    /// A datagram means that a simulator runs, a timeout that none does.
    /// Where that differs from what was last announced, the result is the
    /// signal that announces the change.
    pub fn on_probe(&mut self, received: bool) -> (signal: Option<Signal>)
        ensures
            final(self).announced() == if received {
                DsMode::Simulation
            } else {
                DsMode::Normal
            },
            signal == if final(self).announced() == old(self).announced() {
                None
            } else {
                Some(Signal::NewMode(final(self).announced()))
            },
    {
        let seen = if received {
            DsMode::Simulation
        } else {
            DsMode::Normal
        };
        if self.opmode != seen {
            self.opmode = seen;
            Some(Signal::NewMode(seen))
        } else {
            None
        }
    }
}

/// What can happen to the TCP supervisor.
#[derive(Debug)]
pub enum TcpEvent {
    /// A frame came in from the controller.
    Inbound(TcpPacket),
    /// The receive task asks the supervisor to shut down.
    Shutdown,
    /// The facade queued a tag for the controller.
    Outbound(TcpTag),
    /// The stream or the queue of tags has ended.
    Closed,
}

/// What the TCP supervisor has to do.
#[derive(Debug)]
pub enum TcpAction {
    /// Hand the frame to the consumer, if one is installed.
    Deliver(TcpPacket),
    /// Take the queue of tags away from the facade, then end.
    Detach,
    /// Write these bytes to the stream; a failure is passed over.
    Send(Bytes),
    /// End.
    Stop,
}

/// What the TCP supervisor does about `event`.
pub fn tcp_step(event: TcpEvent) -> (action: TcpAction)
    requires
        event matches TcpEvent::Outbound(tag) ==> tag.fits(),
    ensures
        match event {
            TcpEvent::Inbound(packet) => action == TcpAction::Deliver(packet),
            TcpEvent::Shutdown => action is Detach,
            TcpEvent::Outbound(tag) => {
                &&& action matches TcpAction::Send(bytes)
                &&& bytes_contents(bytes) == tag.wire()
            },
            TcpEvent::Closed => action is Stop,
        },
{
    match event {
        TcpEvent::Inbound(packet) => TcpAction::Deliver(packet),
        TcpEvent::Shutdown => TcpAction::Detach,
        TcpEvent::Outbound(tag) => TcpAction::Send(tag.construct()),
        TcpEvent::Closed => TcpAction::Stop,
    }
}

} // verus!
