//! The state that the facade and the connection tasks share.
//!
//! [`SendState`] holds what the next control packet will say; [`RecvState`]
//! holds what the last status packet said. Both are plain values: whoever
//! shares them between tasks puts them behind a lock.

use crate::ds::{joysticks_tag, stick_axes, stick_buttons, stick_povs, JoystickValue};
use crate::proto::udp::inbound::types::{Trace, Voltage};
use crate::proto::udp::outbound::types::tags::UdpTag;
use crate::proto::udp::outbound::types::{Alliance, Control, Request};
use crate::proto::udp::outbound::UdpControlPacket;
use vstd::prelude::*;

verus! {

/// What the robot is to do while it is enabled.
#[derive(Copy, Clone, Debug, PartialEq, Eq, Structural)]
pub enum Mode {
    Autonomous,
    Teleoperated,
    Test,
}

impl Mode {
    /// The value of the two mode bits of the control byte: 0 teleoperated,
    /// 1 test, 2 autonomous.
    pub open spec fn spec_code(self) -> u8 {
        match self {
            Mode::Teleoperated => 0,
            Mode::Test => 1,
            Mode::Autonomous => 2,
        }
    }

    /// The value of the two mode bits of the control byte.
    pub fn code(self) -> (code: u8)
        ensures
            code == self.spec_code(),
    {
        match self {
            Mode::Teleoperated => Control::TELEOP,
            Mode::Test => Control::TEST,
            Mode::Autonomous => Control::AUTO,
        }
    }
}

/// What the driver station talks to.
#[derive(Copy, Clone, Debug, PartialEq, Eq, Structural)]
pub enum DsMode {
    /// A real robot controller.
    Normal,
    /// A simulator on this machine.
    Simulation,
}

/// The control byte for a mode, the enable switch and the emergency-stop
/// latch. The bit for a field-management system is never set.
pub open spec fn control_byte(mode: Mode, enabled: bool, estopped: bool) -> u8 {
    mode.spec_code() | (if enabled {
        Control::ENABLED
    } else {
        0u8
    }) | (if estopped {
        Control::ESTOP
    } else {
        0u8
    })
}

/// Each part of the control byte can be read back from it.
pub proof fn lemma_control_byte_reads_back(mode: Mode, enabled: bool, estopped: bool)
    ensures
        Control(control_byte(mode, enabled, estopped)).mode_bits() == mode.spec_code(),
        Control(control_byte(mode, enabled, estopped)).has(Control::ENABLED) == enabled,
        Control(control_byte(mode, enabled, estopped)).has(Control::ESTOP) == estopped,
        !Control(control_byte(mode, enabled, estopped)).has(Control::FMS_CONNECTED),
{
    let m = mode.spec_code();
    let e = if enabled {
        Control::ENABLED
    } else {
        0u8
    };
    let s = if estopped {
        Control::ESTOP
    } else {
        0u8
    };
    assert(m <= 2 && (e == 0 || e == 4) && (s == 0 || s == 0x80) ==> (m | e | s) & 3 == m && ((m
        | e | s) & 4 == 4 <==> e == 4) && ((m | e | s) & 0x80 == 0x80 <==> s == 0x80) && (m | e
        | s) & 8 != 8) by (bit_vector);
}

/// What a send state holds.
pub ghost struct SendView {
    pub mode: Mode,
    pub alliance: Alliance,
    pub enabled: bool,
    pub estopped: bool,
    /// The request bits that wait for the next packet; 0 where none do.
    pub request: u8,
    /// The tags that wait for the next packet, first queued first.
    pub pending: Seq<UdpTag>,
    pub ds_mode: DsMode,
    pub seqnum: u16,
}

/// What one control packet says in front of its tags.
pub ghost struct Emitted {
    pub seqnum: u16,
    pub control: Control,
    pub request: Option<Request>,
    pub alliance: Alliance,
}

/// One operation on a send state.
pub ghost enum SendOp {
    Enable,
    Disable,
    SetMode(Mode),
    SetAlliance(Alliance),
    SetDsMode(DsMode),
    Estop,
    QueueUdp(UdpTag),
    Request(Request),
    /// One send tick: a packet is built and handed out
    /// ([`SendState::control`]), then the sequence number moves on
    /// ([`SendState::increment_seqnum`]).
    Tick,
    ResetSeqnum,
    Reset,
}

impl SendOp {
    /// Whether the operation asks for any of the request bits of `mask`.
    pub open spec fn asks(self, mask: u8) -> bool {
        self matches SendOp::Request(request) && request.0 & mask != 0
    }

    /// Whether the operation sets the sequence number back.
    pub open spec fn rewinds(self) -> bool {
        self is ResetSeqnum || self is Reset
    }
}

impl SendView {
    /// The state of a new driver station: autonomous mode, disabled, not
    /// stopped, nothing requested or queued, a real controller as target,
    /// sequence number 0.
    pub open spec fn initial(alliance: Alliance) -> SendView {
        SendView {
            mode: Mode::Autonomous,
            alliance,
            enabled: false,
            estopped: false,
            request: 0,
            pending: Seq::empty(),
            ds_mode: DsMode::Normal,
            seqnum: 0,
        }
    }

    /// The control byte of the next packet.
    pub open spec fn control(self) -> Control {
        Control(control_byte(self.mode, self.enabled, self.estopped))
    }

    /// The request of the next packet: the waiting bits, or none.
    pub open spec fn pending_request(self) -> Option<Request> {
        if self.request == 0 {
            None
        } else {
            Some(Request(self.request))
        }
    }

    /// What the next packet says in front of its tags.
    pub open spec fn head(self) -> Emitted {
        Emitted {
            seqnum: self.seqnum,
            control: self.control(),
            request: self.pending_request(),
            alliance: self.alliance,
        }
    }

    /// The state once a packet has been built: the request and the queue
    /// have gone into the packet.
    pub open spec fn after_control(self) -> SendView {
        SendView { request: 0, pending: Seq::empty(), ..self }
    }

    /// The sequence number after this one: it wraps from 65535 to 0.
    pub open spec fn next_seqnum(self) -> u16 {
        ((self.seqnum + 1) % 0x1_0000) as u16
    }

    /// The state after one operation.
    pub open spec fn step(self, op: SendOp) -> SendView {
        match op {
            SendOp::Enable => SendView { enabled: true, ..self },
            SendOp::Disable => SendView { enabled: false, ..self },
            SendOp::SetMode(mode) => SendView { mode, ..self },
            SendOp::SetAlliance(alliance) => SendView { alliance, ..self },
            SendOp::SetDsMode(ds_mode) => SendView { ds_mode, ..self },
            SendOp::Estop => SendView { estopped: true, ..self },
            SendOp::QueueUdp(tag) => SendView { pending: self.pending.push(tag), ..self },
            SendOp::Request(request) => SendView { request: self.request | request.0, ..self },
            SendOp::Tick => SendView { seqnum: self.next_seqnum(), ..self.after_control() },
            SendOp::ResetSeqnum => SendView { seqnum: 0, ..self },
            SendOp::Reset => SendView { seqnum: 0, enabled: false, pending: Seq::empty(), ..self },
        }
    }

    /// The state after a row of operations, first to last.
    pub open spec fn run(self, ops: Seq<SendOp>) -> SendView
        decreases ops.len(),
    {
        if ops.len() == 0 {
            self
        } else {
            self.run(ops.drop_last()).step(ops.last())
        }
    }

    /// What the packets of a row of operations say in front of their tags:
    /// one entry for each tick, in order.
    pub open spec fn emitted(self, ops: Seq<SendOp>) -> Seq<Emitted>
        decreases ops.len(),
    {
        if ops.len() == 0 {
            Seq::empty()
        } else if ops.last() is Tick {
            self.emitted(ops.drop_last()).push(self.run(ops.drop_last()).head())
        } else {
            self.emitted(ops.drop_last())
        }
    }
}

/// The mode that the last `SetMode` of `ops` names, or `mode` where there is
/// none.
pub open spec fn last_mode(mode: Mode, ops: Seq<SendOp>) -> Mode
    decreases ops.len(),
{
    if ops.len() == 0 {
        mode
    } else {
        match ops.last() {
            SendOp::SetMode(m) => m,
            _ => last_mode(mode, ops.drop_last()),
        }
    }
}

/// Whether the last of `Enable`, `Disable` and `Reset` in `ops` is an
/// `Enable`; `enabled` where there is none of them.
pub open spec fn last_enable(enabled: bool, ops: Seq<SendOp>) -> bool
    decreases ops.len(),
{
    if ops.len() == 0 {
        enabled
    } else {
        match ops.last() {
            SendOp::Enable => true,
            SendOp::Disable => false,
            SendOp::Reset => false,
            _ => last_enable(enabled, ops.drop_last()),
        }
    }
}

/// The request byte that a packet carries.
pub open spec fn request_byte(request: Option<Request>) -> u8 {
    match request {
        Some(r) => r.0,
        None => 0,
    }
}

/// Whatever operations are applied, in whatever order, the mode bits of the
/// control byte are those of the last mode that was set, and the enable bit
/// is set exactly if the last of enabling, disabling and resetting was an
/// enabling.
pub proof fn lemma_control_follows_last_ops(start: SendView, ops: Seq<SendOp>)
    ensures
        start.run(ops).mode == last_mode(start.mode, ops),
        start.run(ops).enabled == last_enable(start.enabled, ops),
        start.run(ops).control().mode_bits() == last_mode(start.mode, ops).spec_code(),
        start.run(ops).control().has(Control::ENABLED) == last_enable(start.enabled, ops),
    decreases ops.len(),
{
    if ops.len() > 0 {
        lemma_control_follows_last_ops(start, ops.drop_last());
    }
    let end = start.run(ops);
    lemma_control_byte_reads_back(end.mode, end.enabled, end.estopped);
}

/// An emergency stop is never lifted: no operation clears the latch, and
/// every packet built after it has the stop bit set.
pub proof fn lemma_estop_is_sticky(start: SendView, ops: Seq<SendOp>)
    requires
        start.estopped,
    ensures
        start.run(ops).estopped,
        start.run(ops).control().has(Control::ESTOP),
        forall|i: int|
            0 <= i < start.emitted(ops).len() ==> (#[trigger] start.emitted(ops)[i]).control.has(
                Control::ESTOP,
            ),
    decreases ops.len(),
{
    if ops.len() > 0 {
        lemma_estop_is_sticky(start, ops.drop_last());
        let before = start.run(ops.drop_last());
        lemma_control_byte_reads_back(before.mode, before.enabled, before.estopped);
    }
    let end = start.run(ops);
    lemma_control_byte_reads_back(end.mode, end.enabled, end.estopped);
}

/// While the sequence number is not set back, the packets carry consecutive
/// sequence numbers, without a gap: the packet of tick `i` carries the first
/// number plus `i`, modulo 65536.
pub proof fn lemma_seqnums_are_consecutive(start: SendView, ops: Seq<SendOp>)
    requires
        forall|k: int| 0 <= k < ops.len() ==> !(#[trigger] ops[k]).rewinds(),
    ensures
        start.run(ops).seqnum == (start.seqnum + start.emitted(ops).len()) % 0x1_0000,
        forall|i: int|
            0 <= i < start.emitted(ops).len() ==> (#[trigger] start.emitted(ops)[i]).seqnum == (
            start.seqnum + i) % 0x1_0000,
    decreases ops.len(),
{
    if ops.len() > 0 {
        let front = ops.drop_last();
        lemma_seqnums_are_consecutive(start, front);
    }
}

/// A request goes out once: after `request` has been asked for, and while
/// none of its bits is asked for again, the first packet carries every bit
/// of `request` and no later packet carries any of them.
pub proof fn lemma_request_goes_out_once(start: SendView, request: Request, ops: Seq<SendOp>)
    requires
        forall|k: int| 0 <= k < ops.len() ==> !(#[trigger] ops[k]).asks(request.0),
    ensures
        ({
            let sent = start.step(SendOp::Request(request)).emitted(ops);
            &&& sent.len() > 0 ==> request_byte(sent[0].request) & request.0 == request.0
            &&& forall|i: int|
                1 <= i < sent.len() ==> request_byte((#[trigger] sent[i]).request) & request.0 == 0
        }),
{
    let q = start.request;
    let r = request.0;
    assert((q | r) & r == r) by (bit_vector);
    lemma_request_trace(start.step(SendOp::Request(request)), request.0, ops);
}

/// The induction behind [`lemma_request_goes_out_once`]: until the first
/// tick the bits of `mask` wait, from then on none of them does.
proof fn lemma_request_trace(asked: SendView, mask: u8, ops: Seq<SendOp>)
    requires
        asked.request & mask == mask,
        forall|k: int| 0 <= k < ops.len() ==> !(#[trigger] ops[k]).asks(mask),
    ensures
        ({
            let sent = asked.emitted(ops);
            let end = asked.run(ops);
            &&& sent.len() == 0 ==> end.request & mask == mask
            &&& sent.len() > 0 ==> end.request & mask == 0
            &&& sent.len() > 0 ==> request_byte(sent[0].request) & mask == mask
            &&& forall|i: int|
                1 <= i < sent.len() ==> request_byte((#[trigger] sent[i]).request) & mask == 0
        }),
    decreases ops.len(),
{
    assert(0u8 & mask == 0) by (bit_vector);
    if ops.len() > 0 {
        let front = ops.drop_last();
        lemma_request_trace(asked, mask, front);
        let before = asked.run(front);
        match ops.last() {
            SendOp::Request(more) => {
                let q = before.request;
                let g = more.0;
                assert(g & mask == 0 ==> (q | g) & mask == q & mask) by (bit_vector);
            },
            _ => {},
        }
    }
}

/// What the next control packet will say.
pub struct SendState {
    mode: Mode,
    alliance: Alliance,
    enabled: bool,
    estopped: bool,
    request: Request,
    pending_udp: Vec<UdpTag>,
    ds_mode: DsMode,
    seqnum: u16,
}

impl View for SendState {
    type V = SendView;

    closed spec fn view(&self) -> SendView {
        SendView {
            mode: self.mode,
            alliance: self.alliance,
            enabled: self.enabled,
            estopped: self.estopped,
            request: self.request.0,
            pending: self.pending_udp@,
            ds_mode: self.ds_mode,
            seqnum: self.seqnum,
        }
    }
}

/// Whether `tag` is the joystick tag for the values of one joystick.
pub open spec fn is_stick_tag(tag: UdpTag, values: Seq<JoystickValue>) -> bool {
    &&& tag matches UdpTag::Joysticks(sticks)
    &&& sticks.axes@ == stick_axes(values)
    &&& sticks.buttons@ == stick_buttons(values)
    &&& sticks.povs@ == stick_povs(values)
}

impl SendState {
    /// The state of a new driver station on `alliance`.
    pub fn new(alliance: Alliance) -> (state: SendState)
        ensures
            state@ == SendView::initial(alliance),
    {
        SendState {
            mode: Mode::Autonomous,
            alliance,
            enabled: false,
            estopped: false,
            request: Request(0),
            pending_udp: Vec::new(),
            ds_mode: DsMode::Normal,
            seqnum: 0,
        }
    }

    /// The mode that the robot is told to be in.
    pub fn mode(&self) -> (mode: Mode)
        ensures
            mode == self@.mode,
    {
        self.mode
    }

    /// The alliance station.
    pub fn alliance(&self) -> (alliance: Alliance)
        ensures
            alliance == self@.alliance,
    {
        self.alliance
    }

    /// Whether the robot is told to be enabled.
    pub fn enabled(&self) -> (enabled: bool)
        ensures
            enabled == self@.enabled,
    {
        self.enabled
    }

    /// Whether the emergency stop is latched.
    pub fn estopped(&self) -> (estopped: bool)
        ensures
            estopped == self@.estopped,
    {
        self.estopped
    }

    /// What the driver station talks to.
    pub fn ds_mode(&self) -> (ds_mode: DsMode)
        ensures
            ds_mode == self@.ds_mode,
    {
        self.ds_mode
    }

    /// The sequence number of the next packet.
    pub fn seqnum(&self) -> (seqnum: u16)
        ensures
            seqnum == self@.seqnum,
    {
        self.seqnum
    }

    /// The tags that wait for the next packet, first queued first.
    pub fn pending_udp(&self) -> (pending: &Vec<UdpTag>)
        ensures
            pending@ == self@.pending,
    {
        &self.pending_udp
    }

    /// The request that waits for the next packet, if any.
    pub fn pending_request(&self) -> (request: Option<Request>)
        ensures
            request == self@.pending_request(),
    {
        if self.request.0 == 0 {
            None
        } else {
            Some(self.request)
        }
    }

    /// Enables the robot.
    pub fn enable(&mut self)
        ensures
            final(self)@ == old(self)@.step(SendOp::Enable),
    {
        self.enabled = true;
    }

    /// Disables the robot.
    pub fn disable(&mut self)
        ensures
            final(self)@ == old(self)@.step(SendOp::Disable),
    {
        self.enabled = false;
    }

    /// Sets the mode that the robot is told to be in.
    pub fn set_mode(&mut self, mode: Mode)
        ensures
            final(self)@ == old(self)@.step(SendOp::SetMode(mode)),
    {
        self.mode = mode;
    }

    /// Sets the alliance station.
    pub fn set_alliance(&mut self, alliance: Alliance)
        ensures
            final(self)@ == old(self)@.step(SendOp::SetAlliance(alliance)),
    {
        self.alliance = alliance;
    }

    /// Sets what the driver station talks to.
    pub fn set_ds_mode(&mut self, ds_mode: DsMode)
        ensures
            final(self)@ == old(self)@.step(SendOp::SetDsMode(ds_mode)),
    {
        self.ds_mode = ds_mode;
    }

    /// Latches the emergency stop. Nothing in this library lifts it again.
    pub fn estop(&mut self)
        ensures
            final(self)@ == old(self)@.step(SendOp::Estop),
    {
        self.estopped = true;
    }

    /// Queues `tag` for the next packet, behind what is queued already.
    pub fn queue_udp(&mut self, tag: UdpTag)
        ensures
            final(self)@ == old(self)@.step(SendOp::QueueUdp(tag)),
    {
        self.pending_udp.push(tag);
    }

    /// Asks for the bits of `request` on the next packet, beside those that
    /// wait already.
    pub fn request(&mut self, request: Request)
        ensures
            final(self)@ == old(self)@.step(SendOp::Request(request)),
    {
        self.request = Request(self.request.0 | request.0);
    }

    /// Builds the control packet of this tick.
    ///
    /// The packet carries the sequence number, the control byte, the
    /// waiting request and the alliance; its tags are the queued tags in
    /// the order they were queued, then one joystick tag for each entry of
    /// `joysticks`, in order. The request and the queue are then empty.
    pub fn control(&mut self, joysticks: &Vec<Vec<JoystickValue>>) -> (packet: UdpControlPacket)
        ensures
            final(self)@ == old(self)@.after_control(),
            packet.seqnum == old(self)@.seqnum,
            packet.control == old(self)@.control(),
            packet.request == old(self)@.pending_request(),
            packet.alliance == old(self)@.alliance,
            packet.tags@.len() == old(self)@.pending.len() + joysticks@.len(),
            packet.tags@.take(old(self)@.pending.len() as int) == old(self)@.pending,
            forall|i: int|
                0 <= i < joysticks@.len() ==> is_stick_tag(
                    #[trigger] packet.tags@[old(self)@.pending.len() + i],
                    joysticks@[i]@,
                ),
    {
        let mut tags: Vec<UdpTag> = Vec::new();
        core::mem::swap(&mut self.pending_udp, &mut tags);
        let ghost queued = tags@;
        let mut i: usize = 0;
        while i < joysticks.len()
            invariant
                i <= joysticks@.len(),
                tags@.len() == queued.len() + i,
                tags@.take(queued.len() as int) == queued,
                forall|k: int|
                    0 <= k < i ==> is_stick_tag(#[trigger] tags@[queued.len() + k], joysticks@[k]@),
            decreases joysticks@.len() - i,
        {
            let sticks = joysticks_tag(joysticks[i].as_slice());
            tags.push(UdpTag::Joysticks(sticks));
            i += 1;
        }
        let enabled_bit = if self.enabled {
            Control::ENABLED
        } else {
            0
        };
        let estop_bit = if self.estopped {
            Control::ESTOP
        } else {
            0
        };
        let control = Control(self.mode.code() | enabled_bit | estop_bit);
        let request = self.pending_request();
        self.request = Request(0);
        UdpControlPacket {
            seqnum: self.seqnum,
            control,
            request,
            alliance: self.alliance,
            tags,
        }
    }

    /// Moves the sequence number on by one; after 65535 comes 0.
    pub fn increment_seqnum(&mut self)
        ensures
            final(self)@ == (SendView { seqnum: old(self)@.next_seqnum(), ..old(self)@ }),
    {
        self.seqnum = self.seqnum.wrapping_add(1);
    }

    /// Sets the sequence number back to 0.
    pub fn reset_seqnum(&mut self)
        ensures
            final(self)@ == old(self)@.step(SendOp::ResetSeqnum),
    {
        self.seqnum = 0;
    }

    /// Sets the sequence number back to 0, disables the robot and empties
    /// the queue.
    pub fn reset(&mut self)
        ensures
            final(self)@ == old(self)@.step(SendOp::Reset),
    {
        self.seqnum = 0;
        self.enabled = false;
        self.pending_udp.clear();
    }
}

/// What a receive state holds.
pub ghost struct RecvView {
    pub trace: Trace,
    pub battery: Voltage,
}

/// What the last status packet said.
pub struct RecvState {
    trace: Trace,
    battery_voltage: Voltage,
}

impl View for RecvState {
    type V = RecvView;

    closed spec fn view(&self) -> RecvView {
        RecvView { trace: self.trace, battery: self.battery_voltage }
    }
}

impl RecvView {
    /// What is held while nothing has been received: an empty trace and no
    /// voltage.
    pub open spec fn cleared() -> RecvView {
        RecvView { trace: Trace(0), battery: Voltage { whole: 0, fraction: 0 } }
    }
}

impl RecvState {
    /// A state in which nothing has been received.
    pub fn new() -> (state: RecvState)
        ensures
            state@ == RecvView::cleared(),
    {
        RecvState { trace: Trace::empty(), battery_voltage: Voltage::zero() }
    }

    /// The trace of the last status packet.
    pub fn trace(&self) -> (trace: Trace)
        ensures
            trace == self@.trace,
    {
        self.trace
    }

    /// The battery voltage of the last status packet.
    pub fn battery_voltage(&self) -> (battery: Voltage)
        ensures
            battery == self@.battery,
    {
        self.battery_voltage
    }

    /// Keeps the trace of a status packet.
    pub fn set_trace(&mut self, trace: Trace)
        ensures
            final(self)@ == (RecvView { trace, ..old(self)@ }),
    {
        self.trace = trace;
    }

    /// Keeps the battery voltage of a status packet.
    pub fn set_battery_voltage(&mut self, battery: Voltage)
        ensures
            final(self)@ == (RecvView { battery, ..old(self)@ }),
    {
        self.battery_voltage = battery;
    }

    /// Forgets what was received.
    pub fn reset(&mut self)
        ensures
            final(self)@ == RecvView::cleared(),
    {
        self.trace = Trace::empty();
        self.battery_voltage = Voltage::zero();
    }
}

} // verus!
