use yaulta::capture::{PacketCapture, SetupError};
use yaulta::cli::Commands;
use yaulta::clock::LocalTime;
use yaulta::device::{Device, DeviceManager};
use yaulta::packet::PacketData;
use yaulta::sink::{step, CaptureLoop, LoopAction, LoopEvent, LoopState, SinkError, SinkKind, SinkRouter};

fn record(timestamp: &str) -> PacketData {
    PacketData {
        timestamp: timestamp.to_string(),
        protocol: "tcp".to_string(),
        src_ip: "10.0.0.1".to_string(),
        dst_ip: "10.0.0.2".to_string(),
        dst_port: 8080,
        bytes: 74,
        ip_protocol: "tcp".to_string(),
        data_bytes: 0,
        raw_data: Vec::new(),
    }
}

#[test]
fn node_id_of_eight_word_characters_is_accepted() {
    assert!(PacketCapture::is_valid_node_id("abcd1234"));
    assert!(PacketCapture::is_valid_node_id("ABCD_xyz"));
    assert!(PacketCapture::is_valid_node_id("________"));
    assert!(PacketCapture::is_valid_node_id("00000000"));
    assert!(PacketCapture::is_valid_node_id("azAZ09_q"));
}

#[test]
fn node_id_with_other_characters_is_rejected() {
    assert!(!PacketCapture::is_valid_node_id("ab-12345"));
    assert!(!PacketCapture::is_valid_node_id("abcd 234"));
    assert!(!PacketCapture::is_valid_node_id("abcd123!"));
    assert!(!PacketCapture::is_valid_node_id("abcd12`4"));
    assert!(!PacketCapture::is_valid_node_id("abcd12{4"));
    assert!(!PacketCapture::is_valid_node_id("abcd12[4"));
    assert!(!PacketCapture::is_valid_node_id("abcd12@4"));
    assert!(!PacketCapture::is_valid_node_id("abcd12/4"));
    assert!(!PacketCapture::is_valid_node_id("abcd12:4"));
}

#[test]
fn node_id_of_other_lengths_is_rejected() {
    assert!(!PacketCapture::is_valid_node_id(""));
    assert!(!PacketCapture::is_valid_node_id("abcd123"));
    assert!(!PacketCapture::is_valid_node_id("abcd12345"));
}

#[test]
fn node_id_with_letters_outside_ascii_is_rejected() {
    // Eight characters, but not ASCII.
    assert!(!PacketCapture::is_valid_node_id("abcdéfgh"));
    // Eight bytes, four characters.
    assert!(!PacketCapture::is_valid_node_id("éééé"));
}

#[test]
fn new_session_only_displays() {
    let session = PacketCapture::new("eth0").unwrap();
    assert_eq!(session.interface, "eth0");
    assert!(!session.save_to_file);
    assert_eq!(session.output_dir, ".");
    assert!(!session.nats_enabled);
    assert_eq!(session.node_id, None);
    assert_eq!(session.subject, "network.packets");
    let started = session.start_capture();
    assert_eq!(started.state, LoopState::Running);
    assert!(started.is_running());
    assert_eq!(started.router.active_sinks(), vec![SinkKind::Display]);
}

#[test]
fn save_options_turn_the_file_sink_on() {
    let mut session = PacketCapture::new("eth0").unwrap();
    session.set_save_options("/var/captures");
    assert!(session.save_to_file);
    assert_eq!(session.output_dir, "/var/captures");
    assert_eq!(session.interface, "eth0");
    assert_eq!(session.start_capture().router.active_sinks(), vec![SinkKind::Display, SinkKind::File]);
}

#[test]
fn nats_options_with_valid_node_id() {
    let mut session = PacketCapture::new("eth0").unwrap();
    let r = session.set_nats_options(&Some("node_001".to_string()), "net.frames");
    assert_eq!(r, Ok(()));
    assert!(session.nats_enabled);
    assert_eq!(session.node_id, Some("node_001".to_string()));
    assert_eq!(session.subject, "net.frames");
    assert_eq!(session.start_capture().router.active_sinks(), vec![SinkKind::Display, SinkKind::Bus]);
}

#[test]
fn nats_options_with_invalid_node_id_change_nothing() {
    let mut session = PacketCapture::new("eth0").unwrap();
    let r = session.set_nats_options(&Some("ab-12345".to_string()), "net.frames");
    assert_eq!(r, Err(SetupError::InvalidNodeId));
    assert!(!session.nats_enabled);
    assert_eq!(session.node_id, None);
    assert_eq!(session.subject, "network.packets");
}

#[test]
fn nats_options_without_node_id() {
    let mut session = PacketCapture::new("eth0").unwrap();
    assert_eq!(session.set_nats_options(&None, "s"), Ok(()));
    assert!(session.nats_enabled);
    assert_eq!(session.node_id, None);
}

#[test]
fn headers_hold_node_interface_and_timestamp() {
    let mut session = PacketCapture::new("wlan0").unwrap();
    session.set_nats_options(&Some("node_001".to_string()), "net.frames").unwrap();
    let info = record("2024/05/06 07:08:09 +02:00");
    let headers = session.nats_headers(&info).unwrap();
    assert_eq!(headers.len(), 3);
    assert_eq!(headers.get("NodeID").unwrap().as_str(), "node_001");
    assert_eq!(headers.get("Interface").unwrap().as_str(), "wlan0");
    assert_eq!(headers.get("Timestamp").unwrap().as_str(), "2024/05/06 07:08:09 +02:00");
}

#[test]
fn headers_without_node_id() {
    let mut session = PacketCapture::new("wlan0").unwrap();
    session.set_nats_options(&None, "net.frames").unwrap();
    let headers = session.nats_headers(&record("t")).unwrap();
    assert_eq!(headers.len(), 2);
    assert!(headers.get("NodeID").is_none());
    assert_eq!(headers.get("Interface").unwrap().as_str(), "wlan0");
    assert_eq!(headers.get("Timestamp").unwrap().as_str(), "t");
}

#[test]
fn headers_are_refused_on_a_line_break() {
    let session = PacketCapture::new("wlan0\n").unwrap();
    assert_eq!(session.nats_headers(&record("t")).err(), Some(SinkError::BusPublish));
    let session = PacketCapture::new("wlan0").unwrap();
    assert_eq!(session.nats_headers(&record("t\r")).err(), Some(SinkError::BusPublish));
    let mut session = PacketCapture::new("wlan0").unwrap();
    session.node_id = Some("abc\ndefg".to_string());
    assert_eq!(session.nats_headers(&record("t")).err(), Some(SinkError::BusPublish));
    session.node_id = Some("any text, no break".to_string());
    let headers = session.nats_headers(&record("t")).unwrap();
    assert_eq!(headers.get("NodeID").unwrap().as_str(), "any text, no break");
}

#[test]
fn display_line_has_fixed_columns() {
    let session = PacketCapture::new("eth0").unwrap();
    let info = record("2024/05/06 07:08:09 +02:00");
    assert_eq!(
        session.display_packet(&info),
        "tcp | 10.0.0.1 | 10.0.0.2 | 2024/05/06 07:08:09 +02:00 | 8080    | 74    | tcp        | 0"
    );
    assert_eq!(info.display_line(), session.display_packet(&info));
}

#[test]
fn display_line_does_not_cut_wide_columns() {
    let info = PacketData {
        timestamp: "T".to_string(),
        protocol: "udp".to_string(),
        src_ip: "-".to_string(),
        dst_ip: "-".to_string(),
        dst_port: 65535,
        bytes: 1234567,
        ip_protocol: "a-long-label".to_string(),
        data_bytes: 1500,
        raw_data: Vec::new(),
    };
    assert_eq!(info.display_line(), "udp | - | - | T | 65535   | 1234567 | a-long-label | 1500");
}

fn moment() -> LocalTime {
    LocalTime { year: 2024, month: 5, day: 6, hour: 7, minute: 8, second: 9, offset: 7200 }
}

#[test]
fn timestamp_format() {
    assert_eq!(moment().timestamp(), "2024/05/06 07:08:09 +02:00");
    let west = LocalTime { offset: -(3 * 3600 + 30 * 60), ..moment() };
    assert_eq!(west.timestamp(), "2024/05/06 07:08:09 -03:30");
    let utc = LocalTime { offset: 0, hour: 23, minute: 59, second: 59, month: 12, day: 31, year: 1999 };
    assert_eq!(utc.timestamp(), "1999/12/31 23:59:59 +00:00");
    let early = LocalTime { year: 987, ..moment() };
    assert_eq!(early.timestamp(), "0987/05/06 07:08:09 +02:00");
    let far = LocalTime { year: 12345, ..moment() };
    assert_eq!(far.timestamp(), "+12345/05/06 07:08:09 +02:00");
    let before = LocalTime { year: -44, ..moment() };
    assert_eq!(before.timestamp(), "-0044/05/06 07:08:09 +02:00");
}

#[test]
fn file_stamp_format() {
    assert_eq!(moment().file_stamp(), "20240506_070809");
}

#[test]
fn output_filename_joins_directory_and_name() {
    let mut session = PacketCapture::new("eth0").unwrap();
    assert_eq!(session.output_filename_at(&moment()), "./dump_20240506_070809.pcap");
    session.set_save_options("/var/captures");
    assert_eq!(session.output_filename_at(&moment()), "/var/captures/dump_20240506_070809.pcap");
    session.set_save_options("out/");
    assert_eq!(session.output_filename_at(&moment()), "out/dump_20240506_070809.pcap");
    session.set_save_options("");
    assert_eq!(session.output_filename_at(&moment()), "dump_20240506_070809.pcap");
}

#[test]
fn output_filename_of_now_has_the_shape() {
    let session = PacketCapture::new("eth0").unwrap();
    let name = session.get_output_filename();
    assert!(name.starts_with("./dump_"));
    assert!(name.ends_with(".pcap"));
    let stamp = &name["./dump_".len()..name.len() - ".pcap".len()];
    assert_eq!(stamp.len(), 15);
    for (i, c) in stamp.chars().enumerate() {
        if i == 8 {
            assert_eq!(c, '_');
        } else {
            assert!(c.is_ascii_digit());
        }
    }
}

#[test]
fn timestamp_of_now_has_the_shape() {
    let session = PacketCapture::new("eth0").unwrap();
    let info = session.parse_packet(&[0u8; 4], 4);
    let t: Vec<char> = info.timestamp.chars().collect();
    assert_eq!(t.len(), 26);
    assert_eq!(t[4], '/');
    assert_eq!(t[7], '/');
    assert_eq!(t[10], ' ');
    assert_eq!(t[13], ':');
    assert_eq!(t[16], ':');
    assert_eq!(t[19], ' ');
    assert!(t[20] == '+' || t[20] == '-');
    assert_eq!(t[23], ':');
}

#[test]
fn sinks_are_dispatched_in_fixed_order() {
    let all = SinkRouter { display: true, file: true, bus: true };
    assert_eq!(all.active_sinks(), vec![SinkKind::Display, SinkKind::File, SinkKind::Bus]);
    assert_eq!(all.first(), Some(SinkKind::Display));
    assert_eq!(all.next(SinkKind::Display, false), Some(SinkKind::File));
    assert_eq!(all.next(SinkKind::File, false), Some(SinkKind::Bus));
    assert_eq!(all.next(SinkKind::Bus, false), None);
    let none = SinkRouter { display: false, file: false, bus: false };
    assert_eq!(none.first(), None);
    assert!(none.active_sinks().is_empty());
    let bus_only = SinkRouter { display: false, file: false, bus: true };
    assert_eq!(bus_only.first(), Some(SinkKind::Bus));
    assert_eq!(bus_only.next(SinkKind::Display, true), Some(SinkKind::Bus));
}

#[test]
fn failing_sink_does_not_stop_the_others() {
    let router = SinkRouter { display: true, file: true, bus: true };
    for outcomes in [[false, false, false], [true, true, true], [false, false, true], [true, false, false]] {
        let mut visited = Vec::new();
        let mut state = LoopState::Running;
        let (s, action) = step(state, LoopEvent::FramePulled);
        assert_eq!((s, action), (LoopState::Running, LoopAction::Dispatch));
        state = s;
        let mut cursor = router.first();
        while let Some(kind) = cursor {
            let failed = outcomes[visited.len()];
            visited.push(kind);
            if failed {
                let (s, action) = step(state, LoopEvent::SinkFailed(kind));
                assert_eq!(s, LoopState::Running);
                assert_eq!(action, LoopAction::LogSinkError(kind.failure()));
                state = s;
            }
            cursor = router.next(kind, failed);
        }
        assert_eq!(visited, router.active_sinks());
        assert_eq!(step(state, LoopEvent::FramePulled), (LoopState::Running, LoopAction::Dispatch));
    }
}

#[test]
fn capture_loop_takes_events() {
    let router = SinkRouter { display: true, file: true, bus: false };
    let mut capture = CaptureLoop { state: LoopState::Running, router };
    assert_eq!(capture.on_event(LoopEvent::FramePulled), LoopAction::Dispatch);
    assert!(capture.is_running());
    assert_eq!(
        capture.on_event(LoopEvent::SinkFailed(SinkKind::File)),
        LoopAction::LogSinkError(SinkError::FileFlush)
    );
    assert!(capture.is_running());
    assert_eq!(capture.on_event(LoopEvent::SourceFailed), LoopAction::LogSourceError);
    assert!(capture.is_running());
    assert_eq!(capture.on_event(LoopEvent::FramePulled), LoopAction::Dispatch);
    assert_eq!(capture.on_event(LoopEvent::Terminated), LoopAction::Halt);
    assert!(!capture.is_running());
    assert_eq!(capture.on_event(LoopEvent::FramePulled), LoopAction::Halt);
    assert_eq!(capture.state, LoopState::Stopped);
    assert_eq!(capture.router, router);
}

#[test]
fn loop_steps() {
    assert_eq!(step(LoopState::Running, LoopEvent::SourceFailed), (LoopState::Running, LoopAction::LogSourceError));
    assert_eq!(
        step(LoopState::Running, LoopEvent::SinkFailed(SinkKind::Bus)),
        (LoopState::Running, LoopAction::LogSinkError(SinkError::BusPublish))
    );
    assert_eq!(
        step(LoopState::Running, LoopEvent::SinkFailed(SinkKind::File)),
        (LoopState::Running, LoopAction::LogSinkError(SinkError::FileFlush))
    );
    assert_eq!(
        step(LoopState::Running, LoopEvent::SinkFailed(SinkKind::Display)),
        (LoopState::Running, LoopAction::LogSinkError(SinkError::DisplayWrite))
    );
    assert_eq!(step(LoopState::Running, LoopEvent::Terminated), (LoopState::Stopped, LoopAction::Halt));
    assert_eq!(step(LoopState::Stopped, LoopEvent::FramePulled), (LoopState::Stopped, LoopAction::Halt));
    assert_eq!(step(LoopState::Stopped, LoopEvent::SourceFailed), (LoopState::Stopped, LoopAction::Halt));
}

#[test]
fn device_listing() {
    let devices = vec![
        Device { name: "eth0".to_string(), desc: None },
        Device { name: "lo".to_string(), desc: Some("Loopback".to_string()) },
    ];
    assert_eq!(
        DeviceManager::list_devices(&devices),
        vec!["Available interfaces:".to_string(), "- eth0".to_string(), "- lo (Loopback)".to_string()]
    );
    assert_eq!(DeviceManager::list_devices(&Vec::new()), vec!["Available interfaces:".to_string()]);
}

fn capture_command(save: bool, server: Option<&str>, node_id: Option<&str>) -> Commands {
    Commands::Capture {
        interface: "eth1".to_string(),
        save,
        output_dir: "caps".to_string(),
        nats_server: server.map(|s| s.to_string()),
        node_id: node_id.map(|s| s.to_string()),
        subject: "net.frames".to_string(),
    }
}

#[test]
fn command_gives_its_session() {
    assert!(Commands::List.session().unwrap().is_none());
    let plain = capture_command(false, None, Some("bad id")).session().unwrap().unwrap();
    assert_eq!(plain.interface, "eth1");
    assert!(!plain.save_to_file);
    assert_eq!(plain.output_dir, ".");
    assert!(!plain.nats_enabled);
    assert_eq!(plain.node_id, None);
    assert_eq!(plain.subject, "network.packets");
    let full = capture_command(true, Some("localhost:4222"), Some("abcd1234")).session().unwrap().unwrap();
    assert!(full.save_to_file);
    assert_eq!(full.output_dir, "caps");
    assert!(full.nats_enabled);
    assert_eq!(full.node_id, Some("abcd1234".to_string()));
    assert_eq!(full.subject, "net.frames");
    let refused = capture_command(true, Some("localhost:4222"), Some("ab-12345")).session();
    assert_eq!(refused.err(), Some(SetupError::InvalidNodeId));
}

#[test]
fn setup_errors_describe_themselves() {
    assert_eq!(SetupError::InvalidInterface.describe(), "Failed to open device");
    assert_eq!(
        SetupError::InvalidNodeId.describe(),
        "Node ID must be 8 characters matching pattern [_a-zA-Z0-9]{8}"
    );
    assert_eq!(SetupError::BusConnection.describe(), "Failed to connect to the message bus");
    assert_eq!(SetupError::OutputDirectory.describe(), "Failed to create save file");
}
