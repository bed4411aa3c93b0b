use bytes::BytesMut;
use ds::ds::conn::{
    control_address_of, socket_address_of, tcp_address_of, tcp_step, Reconnect, RecvTask,
    SendFailure, SendTask, SimDetector, TcpAction, TcpEvent, BACKOFF_CEILING_MILLIS, CONTROL_PORT,
    RECV_TIMEOUT_MILLIS, SIM_PORT, SIM_TIMEOUT_MILLIS, STATUS_PORT, TCP_PORT, TICK_MILLIS,
};
use ds::ds::state::{DsMode, Mode, RecvState, SendState};
use ds::ds::Signal;
use ds::proto::tcp::inbound::TcpPacket;
use ds::proto::tcp::outbound::{GameData, TcpTag};
use ds::proto::udp::inbound::types::{Status, Trace, Voltage};
use ds::proto::udp::inbound::UdpResponsePacket;
use ds::proto::udp::outbound::types::tags::{DateTime, UdpTag};
use ds::proto::udp::outbound::types::Alliance;

fn states() -> (SendState, RecvState) {
    let mut recv = RecvState::new();
    recv.set_trace(Trace(0x30));
    recv.set_battery_voltage(Voltage { whole: 12, fraction: 1 });
    (SendState::new(Alliance::new_red(1)), recv)
}

fn packet(status: u8, trace: u8, need_date: bool) -> UdpResponsePacket {
    UdpResponsePacket {
        seqnum: 1,
        status: Status(status),
        trace: Trace(trace),
        battery: Voltage { whole: 11, fraction: 200 },
        need_date,
    }
}

#[test]
fn addresses() {
    assert_eq!(control_address_of("10.45.33.2"), "10.45.33.2:1110");
    assert_eq!(tcp_address_of("10.45.33.2"), "10.45.33.2:1740");
    assert_eq!(control_address_of(""), ":1110");
    assert_eq!(socket_address_of("127.0.0.1", 0), "127.0.0.1:0");
    assert_eq!(socket_address_of("127.0.0.1", 65535), "127.0.0.1:65535");
}

#[test]
fn ports_and_times() {
    assert_eq!(CONTROL_PORT, 1110);
    assert_eq!(STATUS_PORT, 1150);
    assert_eq!(TCP_PORT, 1740);
    assert_eq!(SIM_PORT, 1135);
    assert_eq!(TICK_MILLIS, 20);
    assert_eq!(RECV_TIMEOUT_MILLIS, 2000);
    assert_eq!(SIM_TIMEOUT_MILLIS, 250);
    assert_eq!(BACKOFF_CEILING_MILLIS, 5000);
}

#[test]
fn a_send_that_works_moves_the_sequence_number_on() {
    let (mut send, mut recv) = states();
    let mut task = SendTask::new();
    assert_eq!(task.wait(), None);
    assert!(!task.sent(&mut send, &mut recv, Ok(())));
    assert_eq!(send.seqnum(), 1);
    assert_eq!(task.wait(), None);
    assert_eq!(recv.trace(), Trace(0x30));
}

#[test]
fn the_first_refused_send_clears_what_was_received() {
    let (mut send, mut recv) = states();
    let mut task = SendTask::new();
    assert!(task.sent(&mut send, &mut recv, Err(SendFailure::ConnectionRefused)));
    assert_eq!(recv.trace(), Trace(0));
    assert_eq!(recv.battery_voltage(), Voltage::zero());
    assert_eq!(send.seqnum(), 1);
    assert_eq!(task.wait(), Some(1));

    recv.set_trace(Trace(0x20));
    assert!(!task.sent(&mut send, &mut recv, Err(SendFailure::ConnectionRefused)));
    assert_eq!(recv.trace(), Trace(0x20));
    assert_eq!(send.seqnum(), 2);
    assert_eq!(task.wait(), Some(20));
    assert!(!task.sent(&mut send, &mut recv, Err(SendFailure::Other)));
    assert_eq!(task.wait(), Some(400));
    assert!(!task.sent(&mut send, &mut recv, Err(SendFailure::ConnectionRefused)));
    assert_eq!(task.wait(), Some(5000));
    assert!(!task.sent(&mut send, &mut recv, Err(SendFailure::ConnectionRefused)));
    assert_eq!(task.wait(), Some(5000));
    assert_eq!(send.seqnum(), 5);

    assert!(!task.sent(&mut send, &mut recv, Ok(())));
    assert_eq!(task.wait(), None);
    assert!(task.sent(&mut send, &mut recv, Err(SendFailure::ConnectionRefused)));
    assert_eq!(recv.trace(), Trace(0));
}

#[test]
fn another_first_failure_clears_nothing() {
    let (mut send, mut recv) = states();
    let mut task = SendTask::new();
    assert!(!task.sent(&mut send, &mut recv, Err(SendFailure::Other)));
    assert_eq!(recv.trace(), Trace(0x30));
    assert_eq!(task.wait(), Some(1));
    assert!(!task.sent(&mut send, &mut recv, Err(SendFailure::ConnectionRefused)));
    assert_eq!(recv.trace(), Trace(0x30));
}

#[test]
fn a_new_target_resets_the_send_task() {
    let (mut send, mut recv) = states();
    let mut task = SendTask::new();
    send.enable();
    send.set_mode(Mode::Test);
    send.increment_seqnum();
    task.sent(&mut send, &mut recv, Err(SendFailure::Other));
    recv.set_trace(Trace(0x01));
    let todo = task.on_signal(&mut send, &mut recv, &Signal::NewTarget("10.1.2.2".to_string()));
    match todo {
        Some(Reconnect::Rebind { address }) => assert_eq!(address, "10.1.2.2:1110"),
        other => panic!("unexpected {:?}", other),
    }
    assert_eq!(send.seqnum(), 0);
    assert!(!send.enabled());
    assert_eq!(send.mode(), Mode::Test);
    assert_eq!(recv.trace(), Trace(0));
    assert_eq!(task.wait(), None);
    assert!(task.sent(&mut send, &mut recv, Err(SendFailure::ConnectionRefused)));
}

#[test]
fn simulation_mode_connects_to_this_machine() {
    let (mut send, mut recv) = states();
    let mut task = SendTask::new();
    send.enable();
    send.increment_seqnum();
    let todo = task.on_signal(&mut send, &mut recv, &Signal::NewMode(DsMode::Simulation));
    match todo {
        Some(Reconnect::Connect { address }) => assert_eq!(address, "127.0.0.1:1110"),
        other => panic!("unexpected {:?}", other),
    }
    assert_eq!(send.seqnum(), 0);
    assert!(!send.enabled());
    assert_eq!(recv.trace(), Trace(0));
}

#[test]
fn other_signals_leave_the_send_task_alone() {
    let (mut send, mut recv) = states();
    let mut task = SendTask::new();
    send.enable();
    send.increment_seqnum();
    task.sent(&mut send, &mut recv, Err(SendFailure::Other));
    for signal in [Signal::NewMode(DsMode::Normal), Signal::Disconnect] {
        assert!(task.on_signal(&mut send, &mut recv, &signal).is_none());
        assert_eq!(send.seqnum(), 2);
        assert!(send.enabled());
        assert_eq!(recv.trace(), Trace(0x30));
        assert_eq!(task.wait(), Some(1));
    }
}

#[test]
fn the_first_packet_attaches_the_tcp_supervisor() {
    let (mut send, mut recv) = states();
    let mut task = RecvTask::new("10.45.33.2");
    assert!(task.connected());
    assert!(!task.tcp_attached());
    assert_eq!(task.target_ip(), "10.45.33.2");
    let spawn = task.on_packet(&mut send, &mut recv, &packet(0, 0x20, false), 0, 0);
    assert_eq!(spawn, Some("10.45.33.2".to_string()));
    assert!(task.tcp_attached());
    let spawn = task.on_packet(&mut send, &mut recv, &packet(0, 0x20, false), 0, 0);
    assert_eq!(spawn, None);
}

#[test]
fn in_simulation_the_tcp_supervisor_connects_to_this_machine() {
    let (mut send, mut recv) = states();
    send.set_ds_mode(DsMode::Simulation);
    let mut task = RecvTask::new("10.45.33.2");
    let spawn = task.on_packet(&mut send, &mut recv, &packet(0, 0, false), 0, 0);
    assert_eq!(spawn, Some("127.0.0.1".to_string()));
}

#[test]
fn a_packet_is_kept() {
    let (mut send, mut recv) = states();
    let mut task = RecvTask::new("10.45.33.2");
    task.on_packet(&mut send, &mut recv, &packet(0x0c, 0x22, false), 0, 0);
    assert_eq!(recv.trace(), Trace(0x22));
    assert_eq!(recv.battery_voltage(), Voltage { whole: 11, fraction: 200 });
    assert!(!send.estopped());
    assert!(send.pending_udp().is_empty());
}

#[test]
fn a_packet_that_asks_for_the_date_gets_one_date_tag() {
    let (mut send, mut recv) = states();
    let mut task = RecvTask::new("10.45.33.2");
    task.on_packet(&mut send, &mut recv, &packet(0, 0, true), 1713894930, 123_456_000);
    assert_eq!(send.pending_udp().len(), 1);
    match &send.pending_udp()[0] {
        UdpTag::DateTime(tag) => assert_eq!(*tag, DateTime::new(123456, 30, 55, 17, 23, 3, 124)),
        other => panic!("unexpected {:?}", other),
    }
}

#[test]
fn no_date_tag_for_an_instant_out_of_range() {
    let (mut send, mut recv) = states();
    let mut task = RecvTask::new("10.45.33.2");
    task.on_packet(&mut send, &mut recv, &packet(0, 0x20, true), i64::MAX, 0);
    assert!(send.pending_udp().is_empty());
    assert_eq!(recv.trace(), Trace(0x20));
}

#[test]
fn a_reported_emergency_stop_is_latched() {
    let (mut send, mut recv) = states();
    let mut task = RecvTask::new("10.45.33.2");
    task.on_packet(&mut send, &mut recv, &packet(0x80, 0, false), 0, 0);
    assert!(send.estopped());
    task.on_packet(&mut send, &mut recv, &packet(0x00, 0, false), 0, 0);
    assert!(send.estopped());
}

#[test]
fn one_status_packet_from_a_controller() {
    let (mut send, _) = states();
    let mut recv = RecvState::new();
    let mut task = RecvTask::new("10.45.33.2");
    let mut datagram = BytesMut::from(&[0x00, 0x07, 0x01, 0x08, 0x20, 12, 95, 1][..]);
    let decoded = UdpResponsePacket::decode(&mut datagram).unwrap();
    let spawn = task.on_packet(&mut send, &mut recv, &decoded, 1713894930, 0);
    assert!(spawn.is_some());
    assert_eq!(send.pending_udp().len(), 1);
    assert!(matches!(send.pending_udp()[0], UdpTag::DateTime(_)));
    assert!(recv.trace().is_code_started());
    assert!(!send.estopped());
    let packet = send.control(&vec![]);
    assert_eq!(packet.tags.len(), 1);
    assert_eq!(send.control(&vec![]).tags.len(), 0);
}

#[test]
fn a_timeout_disconnects_once() {
    let (mut send, mut recv) = states();
    let mut task = RecvTask::new("10.45.33.2");
    task.on_packet(&mut send, &mut recv, &packet(0, 0x20, false), 0, 0);
    assert!(task.on_timeout(&mut recv));
    assert!(!task.connected());
    assert!(task.tcp_attached());
    assert_eq!(recv.trace(), Trace(0));
    assert_eq!(recv.battery_voltage(), Voltage::zero());
    recv.set_trace(Trace(0x01));
    assert!(!task.on_timeout(&mut recv));
    assert_eq!(recv.trace(), Trace(0x01));
    task.on_packet(&mut send, &mut recv, &packet(0, 0x20, false), 0, 0);
    assert!(task.connected());
    assert!(task.on_timeout(&mut recv));
}

#[test]
fn disconnect_stops_the_receive_task() {
    let (mut send, _) = states();
    let mut task = RecvTask::new("10.45.33.2");
    let todo = task.on_signal(&mut send, Signal::Disconnect);
    assert!(todo.stop);
    assert!(!todo.disconnect_tcp);
    assert!(todo.forward.is_empty());
}

#[test]
fn a_new_target_is_kept_and_passed_on() {
    let (mut send, mut recv) = states();
    let mut task = RecvTask::new("10.45.33.2");
    let todo = task.on_signal(&mut send, Signal::NewTarget("10.0.7.2".to_string()));
    assert!(!todo.stop);
    assert!(!todo.disconnect_tcp);
    assert_eq!(todo.forward.len(), 1);
    assert!(matches!(&todo.forward[0], Signal::NewTarget(ip) if ip == "10.0.7.2"));
    assert_eq!(task.target_ip(), "10.0.7.2");

    task.on_packet(&mut send, &mut recv, &packet(0, 0, false), 0, 0);
    let todo = task.on_signal(&mut send, Signal::NewTarget("10.0.8.2".to_string()));
    assert!(todo.disconnect_tcp);
    assert!(!task.tcp_attached());
    let spawn = task.on_packet(&mut send, &mut recv, &packet(0, 0, false), 0, 0);
    assert_eq!(spawn, Some("10.0.8.2".to_string()));
}

#[test]
fn a_change_to_simulation_is_passed_on() {
    let (mut send, mut recv) = states();
    let mut task = RecvTask::new("10.45.33.2");
    task.on_packet(&mut send, &mut recv, &packet(0, 0, false), 0, 0);
    let todo = task.on_signal(&mut send, Signal::NewMode(DsMode::Simulation));
    assert!(!todo.stop);
    assert!(todo.disconnect_tcp);
    assert_eq!(todo.forward.len(), 1);
    assert!(matches!(todo.forward[0], Signal::NewMode(DsMode::Simulation)));
    assert_eq!(send.ds_mode(), DsMode::Simulation);
    assert!(!task.tcp_attached());
}

#[test]
fn a_change_back_to_normal_passes_the_target_on_first() {
    let (mut send, _) = states();
    send.set_ds_mode(DsMode::Simulation);
    let mut task = RecvTask::new("10.45.33.2");
    let todo = task.on_signal(&mut send, Signal::NewMode(DsMode::Normal));
    assert!(!todo.stop);
    assert!(!todo.disconnect_tcp);
    assert_eq!(todo.forward.len(), 2);
    assert!(matches!(&todo.forward[0], Signal::NewTarget(ip) if ip == "10.45.33.2"));
    assert!(matches!(todo.forward[1], Signal::NewMode(DsMode::Normal)));
    assert_eq!(send.ds_mode(), DsMode::Normal);
}

#[test]
fn the_current_mode_again_changes_nothing() {
    let (mut send, mut recv) = states();
    let mut task = RecvTask::new("10.45.33.2");
    task.on_packet(&mut send, &mut recv, &packet(0, 0, false), 0, 0);
    let todo = task.on_signal(&mut send, Signal::NewMode(DsMode::Normal));
    assert!(!todo.stop);
    assert!(!todo.disconnect_tcp);
    assert!(todo.forward.is_empty());
    assert!(task.tcp_attached());
    assert_eq!(send.ds_mode(), DsMode::Normal);
}

#[test]
fn the_detector_announces_changes_only() {
    let mut detector = SimDetector::new();
    assert!(detector.on_probe(false).is_none());
    assert!(matches!(detector.on_probe(true), Some(Signal::NewMode(DsMode::Simulation))));
    assert!(detector.on_probe(true).is_none());
    assert!(detector.on_probe(true).is_none());
    assert!(matches!(detector.on_probe(false), Some(Signal::NewMode(DsMode::Normal))));
    assert!(detector.on_probe(false).is_none());
    assert!(matches!(detector.on_probe(true), Some(Signal::NewMode(DsMode::Simulation))));
}

#[test]
fn what_the_tcp_supervisor_does() {
    let inbound = TcpPacket { id: 0x0c, data: vec![1, 2, 3] };
    match tcp_step(TcpEvent::Inbound(inbound)) {
        TcpAction::Deliver(packet) => {
            assert_eq!(packet.id, 0x0c);
            assert_eq!(packet.data, vec![1, 2, 3]);
        }
        other => panic!("unexpected {:?}", other),
    }
    assert!(matches!(tcp_step(TcpEvent::Shutdown), TcpAction::Detach));
    assert!(matches!(tcp_step(TcpEvent::Closed), TcpAction::Stop));
    let tag = TcpTag::GameData(GameData { gsm: "LRL".to_string() });
    match tcp_step(TcpEvent::Outbound(tag)) {
        TcpAction::Send(bytes) => assert_eq!(bytes.as_ref(), &[0, 4, 0x0e, b'L', b'R', b'L']),
        other => panic!("unexpected {:?}", other),
    }
}
