use tokio::sync::broadcast::error::TryRecvError;
use ws_logger::clock::format_stamp;
use ws_logger::connection::{on_upgrade, step, ConnAction, ConnEvent, ConnState};
use ws_logger::record::{console_line, format_record};
use ws_logger::{ClockTime, LogLevel, Logger};

fn strip_stamp(line: &str) -> String {
    // "[HH:MM:SS:fff]" is fourteen characters.
    line[14..].to_string()
}

fn has_line_shape(line: &str) -> bool {
    let b = line.as_bytes();
    if b.len() < 14 || b[0] != b'[' || b[13] != b']' {
        return false;
    }
    for i in 1..13 {
        let ok = if i == 3 || i == 6 || i == 9 { b[i] == b':' } else { b[i].is_ascii_digit() };
        if !ok {
            return false;
        }
    }
    let rest = &line[14..];
    ["[DEBUG][", "[INFO][", "[WARN][", "[ERR]["].iter().any(|t| rest.starts_with(t))
}

fn time(hour: u32, minute: u32, second: u32, nanosecond: u32) -> ClockTime {
    ClockTime { hour, minute, second, nanosecond }
}

#[test]
fn stamp_is_zero_padded() {
    assert_eq!(format_stamp(&time(9, 5, 7, 42_000_000)), "09:05:07:042");
    assert_eq!(format_stamp(&time(23, 59, 59, 999_999_999)), "23:59:59:999");
    assert_eq!(format_stamp(&time(0, 0, 0, 0)), "00:00:00:000");
}

#[test]
fn stamp_during_leap_second() {
    assert_eq!(format_stamp(&time(23, 59, 59, 1_500_000_000)), "23:59:59:500");
}

#[test]
fn record_line_is_exact() {
    let t = time(13, 4, 5, 6_000_000);
    assert_eq!(format_record(&t, LogLevel::Debug, "main", "hello"), "[13:04:05:006][DEBUG][main] hello");
    assert_eq!(format_record(&t, LogLevel::Info, "net", "a b"), "[13:04:05:006][INFO][net] a b");
    assert_eq!(format_record(&t, LogLevel::Warn, "", ""), "[13:04:05:006][WARN][] ");
    assert_eq!(format_record(&t, LogLevel::Error, "db", "x\ny"), "[13:04:05:006][ERR][db] x\ny");
}

#[test]
fn record_formatting_is_deterministic() {
    let t = time(1, 2, 3, 4_000_000);
    let a = format_record(&t, LogLevel::Info, "m", "s");
    let b = format_record(&t, LogLevel::Info, "m", "s");
    assert_eq!(a, b);
    assert!(has_line_shape(&a));
}

#[test]
fn console_colors() {
    assert_eq!(console_line(LogLevel::Debug, "l"), "\x1b[32ml\x1b[0m\n");
    assert_eq!(console_line(LogLevel::Info, "l"), "\x1b[34ml\x1b[0m\n");
    assert_eq!(console_line(LogLevel::Warn, "l"), "\x1b[33ml\x1b[0m\n");
    assert_eq!(console_line(LogLevel::Error, "l"), "\x1b[31ml\x1b[0m\n");
}

#[test]
fn level_bits() {
    assert_eq!(LogLevel::Off.bits(), 0);
    assert_eq!(LogLevel::Debug.bits(), 1);
    assert_eq!(LogLevel::Warn.bits(), 2);
    assert_eq!(LogLevel::Error.bits(), 4);
    assert_eq!(LogLevel::Info.bits(), 8);
    assert_eq!(LogLevel::All.bits(), 15);
}

#[test]
fn gate_scenario() {
    let logger = Logger::new(LogLevel::Debug.bits() | LogLevel::Error.bits(), false, "main".to_string());
    assert!(logger.log_info("x").console.is_none());
    let out = logger.log_error("y").console.unwrap();
    assert!(out.starts_with("\x1b[31m["));
    assert!(out.ends_with("][ERR][main] y\x1b[0m\n"));
}

#[test]
fn all_levels_scenario() {
    let mut logger = Logger::new(0, false, "main".to_string());
    logger.set_displayable(LogLevel::All.bits());
    let lines = [
        logger.log_debug("m").console.unwrap(),
        logger.log_info("m").console.unwrap(),
        logger.log_warn("m").console.unwrap(),
        logger.log_error("m").console.unwrap(),
    ];
    let tags = ["[DEBUG][main] m", "[INFO][main] m", "[WARN][main] m", "[ERR][main] m"];
    for (line, tag) in lines.iter().zip(tags.iter()) {
        let plain = &line[5..line.len() - 5];
        assert!(has_line_shape(plain));
        assert_eq!(strip_stamp(plain), *tag);
    }
}

#[test]
fn filter_gate_for_every_mask() {
    let levels = [LogLevel::Debug, LogLevel::Warn, LogLevel::Error, LogLevel::Info];
    for m in 0..=255u8 {
        let mut logger = Logger::new(0, false, "g".to_string());
        logger.set_displayable(m);
        assert_eq!(logger.log_debug("d").console.is_some(), m & 1 != 0);
        assert_eq!(logger.log_warn("w").console.is_some(), m & 2 != 0);
        assert_eq!(logger.log_error("e").console.is_some(), m & 4 != 0);
        assert_eq!(logger.log_info("i").console.is_some(), m & 8 != 0);
        for l in levels {
            let t = time(0, 0, 0, 0);
            let e = logger.emit_at(l, &t, "x");
            assert_eq!(e.console.is_some(), m & l.bits() != 0);
            assert!(e.offered.is_none());
        }
    }
}

#[test]
fn add_then_remove_flag_restores_mask() {
    let levels = [LogLevel::Debug, LogLevel::Warn, LogLevel::Error, LogLevel::Info];
    for l in levels {
        let mut logger = Logger::new(0, false, "b".to_string());
        logger.set_displayable(LogLevel::All.bits() & !l.bits());
        logger.add_displayable_flag(l);
        assert!(logger.emit_at(l, &time(0, 0, 0, 0), "x").console.is_some());
        logger.remove_displayable_flag(l);
        assert!(logger.emit_at(l, &time(0, 0, 0, 0), "x").console.is_none());
        for other in levels {
            if other != l {
                assert!(logger.emit_at(other, &time(0, 0, 0, 0), "x").console.is_some());
            }
        }
    }
}

#[test]
fn emit_at_exact_console_text() {
    let logger = Logger::new(LogLevel::All.bits(), false, "core".to_string());
    let out = logger.emit_at(LogLevel::Warn, &time(7, 8, 9, 10_000_000), "careful");
    assert!(out.offered.is_none());
    assert_eq!(out.console.unwrap(), "\x1b[33m[07:08:09:010][WARN][core] careful\x1b[0m\n");
}

#[test]
fn local_time_stamp_has_shape() {
    let logger = Logger::new(LogLevel::Debug.bits(), false, "main".to_string());
    let out = logger.log_debug("now").console.unwrap();
    assert!(out.starts_with("\x1b[32m"));
    assert!(out.ends_with("\x1b[0m\n"));
    let plain = &out[5..out.len() - 5];
    assert!(has_line_shape(plain));
    assert_eq!(strip_stamp(plain), "[DEBUG][main] now");
}

#[test]
fn broadcast_without_console() {
    let mut logger = Logger::new(LogLevel::All.bits(), false, "main".to_string());
    logger.set_displayable(0);
    let sender = logger.init_web_socket().unwrap();
    let mut rx = sender.subscribe();
    let e = logger.log_warn("hi");
    assert!(e.console.is_none());
    let frame = rx.try_recv().unwrap();
    assert_eq!(e.offered.unwrap(), frame);
    assert!(has_line_shape(&frame));
    assert_eq!(strip_stamp(&frame), "[WARN][main] hi");
    assert!(matches!(rx.try_recv(), Err(TryRecvError::Empty)));
}

#[test]
fn multiple_subscribers() {
    let mut logger = Logger::new(0, false, "main".to_string());
    let sender = logger.init_web_socket().unwrap();
    let mut rx1 = sender.subscribe();
    let mut rx2 = sender.subscribe();
    logger.log_info("a");
    assert_eq!(strip_stamp(&rx1.try_recv().unwrap()), "[INFO][main] a");
    assert_eq!(strip_stamp(&rx2.try_recv().unwrap()), "[INFO][main] a");
}

#[test]
fn late_subscriber() {
    let mut logger = Logger::new(0, false, "main".to_string());
    let sender = logger.init_web_socket().unwrap();
    logger.log_info("old");
    let mut rx = sender.subscribe();
    logger.log_info("new");
    assert_eq!(strip_stamp(&rx.try_recv().unwrap()), "[INFO][main] new");
    assert!(matches!(rx.try_recv(), Err(TryRecvError::Empty)));
}

#[test]
fn fan_out_keeps_order() {
    let mut logger = Logger::new(0, false, "main".to_string());
    let sender = logger.init_web_socket().unwrap();
    let mut rx = sender.subscribe();
    let messages = ["r1", "r2", "r3", "r4", "r5"];
    for m in messages {
        logger.log_debug(m);
    }
    for m in messages {
        assert_eq!(strip_stamp(&rx.try_recv().unwrap()), format!("[DEBUG][main] {}", m));
    }
}

#[test]
fn silent_mask_still_delivers() {
    let mut logger = Logger::new(0, false, "main".to_string());
    let sender = logger.init_web_socket().unwrap();
    let mut rx1 = sender.subscribe();
    let mut rx2 = sender.subscribe();
    assert!(logger.log_debug("1").console.is_none());
    assert!(logger.log_info("2").console.is_none());
    assert!(logger.log_warn("3").console.is_none());
    assert!(logger.log_error("4").console.is_none());
    for rx in [&mut rx1, &mut rx2] {
        let got: Vec<String> = (0..4).map(|_| strip_stamp(&rx.try_recv().unwrap())).collect();
        assert_eq!(got, vec!["[DEBUG][main] 1", "[INFO][main] 2", "[WARN][main] 3", "[ERR][main] 4"]);
    }
}

#[test]
fn slow_subscriber_lags() {
    let mut logger = Logger::new(0, false, "main".to_string());
    let sender = logger.init_web_socket().unwrap();
    let mut rx = sender.subscribe();
    for _ in 0..300 {
        logger.log_info("flood");
    }
    assert!(matches!(rx.try_recv(), Err(TryRecvError::Lagged(_))));
}

#[test]
fn connection_forwards_until_send_fails() {
    let (s, a) = on_upgrade();
    assert_eq!(s, ConnState::Upgraded);
    assert!(matches!(a, ConnAction::Subscribe));
    let (s, a) = step(s, ConnEvent::Subscribed);
    assert_eq!(s, ConnState::Subscribed);
    assert!(matches!(a, ConnAction::AwaitRecord));
    let (s, a) = step(s, ConnEvent::Received("line".to_string()));
    assert_eq!(s, ConnState::Forwarding);
    match a {
        ConnAction::SendFrame(t) => assert_eq!(t, "line"),
        _ => panic!("expected a frame"),
    }
    let (s, a) = step(s, ConnEvent::Sent);
    assert_eq!(s, ConnState::Forwarding);
    assert!(matches!(a, ConnAction::AwaitRecord));
    let (s, a) = step(s, ConnEvent::SendFailed);
    assert_eq!(s, ConnState::SendError);
    assert!(matches!(a, ConnAction::Release));
    let (s, a) = step(s, ConnEvent::Received("late".to_string()));
    assert_eq!(s, ConnState::SendError);
    assert!(matches!(a, ConnAction::Release));
}

#[test]
fn connection_ends_on_lag_or_close() {
    let (s, _) = step(ConnState::Forwarding, ConnEvent::Lagged);
    assert_eq!(s, ConnState::Lagged);
    let (s, a) = step(ConnState::Subscribed, ConnEvent::PeerClosed);
    assert_eq!(s, ConnState::Closed);
    assert!(matches!(a, ConnAction::Release));
    let (s, a) = step(ConnState::Forwarding, ConnEvent::ChannelClosed);
    assert_eq!(s, ConnState::Closed);
    assert!(matches!(a, ConnAction::Release));
}

#[test]
fn emit_at_offers_once_broadcasting() {
    let mut logger = Logger::new(0, true, "core".to_string());
    let t = time(7, 8, 9, 10_000_000);
    let before = logger.emit_at(LogLevel::Info, &t, "a");
    assert!(before.offered.is_none());
    assert!(before.console.is_none());
    let sender = logger.init_web_socket().unwrap();
    let mut rx = sender.subscribe();
    let after = logger.emit_at(LogLevel::Info, &t, "b");
    assert_eq!(after.offered.unwrap(), "[07:08:09:010][INFO][core] b");
    assert_eq!(rx.try_recv().unwrap(), "[07:08:09:010][INFO][core] b");
}

#[test]
fn second_init_is_a_no_op() {
    let mut logger = Logger::new(0, false, "main".to_string());
    let sender = logger.init_web_socket().unwrap();
    assert!(logger.init_web_socket().is_none());
    let mut rx = sender.subscribe();
    logger.log_info("once");
    assert_eq!(strip_stamp(&rx.try_recv().unwrap()), "[INFO][main] once");
    assert!(matches!(rx.try_recv(), Err(TryRecvError::Empty)));
}

#[test]
fn same_line_on_both_sinks() {
    let mut logger = Logger::new(LogLevel::All.bits(), false, "main".to_string());
    let sender = logger.init_web_socket().unwrap();
    let mut rx = sender.subscribe();
    let e = logger.log_error("both");
    let console = e.console.unwrap();
    let offered = e.offered.unwrap();
    assert_eq!(console, format!("\x1b[31m{}\x1b[0m\n", offered));
    assert_eq!(rx.try_recv().unwrap(), offered);
}

#[test]
fn nothing_offered_before_init() {
    let logger = Logger::new(LogLevel::All.bits(), true, "main".to_string());
    let e = logger.log_warn("w");
    assert!(e.offered.is_none());
    assert!(e.console.is_some());
}
