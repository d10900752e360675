use temp_agent::config::AgentConfig;
use temp_agent::connect::{ConnectAction, ConnectOutcome, RetryState};
use temp_agent::identity::{identity_or, resolve_identity, topic_for};
use temp_agent::sampling::{Action, Event, Phase, PublishError, SamplingLoop, Stage};
use temp_agent::sensor::{read_temperature, ReadError, Sample};
use temp_agent::text::{nat_to_text, parse_i64, trimmed_len};

fn sample(m: i64) -> Sample {
    Sample { millidegrees: m }
}

#[test]
fn reads_millidegrees_with_newline() {
    for n in [0i64, 1, 42567, -5000, 123, 999, i64::MAX, i64::MIN] {
        let text = format!("{}\n", n);
        let r = read_temperature(Some(text.as_str()));
        assert_eq!(r, Ok(sample(n)));
        let celsius = r.unwrap().millidegrees as f64 / 1000.0;
        assert_eq!(celsius, n as f64 / 1000.0);
    }
}

#[test]
fn reads_without_newline_and_with_trailing_space() {
    assert_eq!(read_temperature(Some("42567")), Ok(sample(42567)));
    assert_eq!(read_temperature(Some("+42567 \t\r\n")), Ok(sample(42567)));
    assert_eq!(read_temperature(Some("-1500\u{a0}\u{3000}")), Ok(sample(-1500)));
}

#[test]
fn rejects_non_integer_content() {
    for text in ["", "\n", "abc", "12.5", "1e3", "-", "+", " 42", "4 2", "42x", "99999999999999999999", "9223372036854775808", "-9223372036854775809"] {
        assert_eq!(read_temperature(Some(text)), Err(ReadError::ParseFailure), "{:?}", text);
    }
}

#[test]
fn unreadable_sensor_is_io_failure() {
    assert_eq!(read_temperature(None), Err(ReadError::IoFailure));
}

#[test]
fn parses_integer_text() {
    assert_eq!(parse_i64("0"), Some(0));
    assert_eq!(parse_i64("-0"), Some(0));
    assert_eq!(parse_i64("007"), Some(7));
    assert_eq!(parse_i64("9223372036854775807"), Some(i64::MAX));
    assert_eq!(parse_i64("-9223372036854775808"), Some(i64::MIN));
    assert_eq!(parse_i64("9223372036854775808"), None);
    assert_eq!(parse_i64(""), None);
}

#[test]
fn trims_trailing_white_space_only() {
    assert_eq!(trimmed_len("ab \n\t"), 2);
    assert_eq!(trimmed_len("  ab"), 4);
    assert_eq!(trimmed_len(" \n"), 0);
    assert_eq!(trimmed_len("é\u{2003}"), 1);
}

#[test]
fn renders_natural_numbers() {
    assert_eq!(nat_to_text(0), "0");
    assert_eq!(nat_to_text(10), "10");
    assert_eq!(nat_to_text(u64::MAX), "18446744073709551615");
}

#[test]
fn payload_is_exact_decimal() {
    assert_eq!(sample(42567).payload_text(), "42.567");
    assert_eq!(sample(42500).payload_text(), "42.5");
    assert_eq!(sample(42560).payload_text(), "42.56");
    assert_eq!(sample(42000).payload_text(), "42");
    assert_eq!(sample(0).payload_text(), "0");
    assert_eq!(sample(5).payload_text(), "0.005");
    assert_eq!(sample(-500).payload_text(), "-0.5");
    assert_eq!(sample(i64::MIN).payload_text(), "-9223372036854775.808");
}

#[test]
fn display_has_two_decimals() {
    assert_eq!(sample(42567).display_text(), "42.57");
    assert_eq!(sample(42565).display_text(), "42.57");
    assert_eq!(sample(42564).display_text(), "42.56");
    assert_eq!(sample(42000).display_text(), "42.00");
    assert_eq!(sample(999995).display_text(), "1000.00");
    assert_eq!(sample(-1234).display_text(), "-1.23");
    assert_eq!(sample(7).display_text(), "0.01");
}

#[test]
fn identity_is_first_segment() {
    assert_eq!(resolve_identity(Some("blade7.local.lan\n")), Ok("blade7".to_string()));
    assert_eq!(resolve_identity(Some("blade7\n")), Ok("blade7".to_string()));
    assert_eq!(resolve_identity(Some("blade7")), Ok("blade7".to_string()));
    assert_eq!(resolve_identity(Some(".local\n")), Ok(String::new()));
}

#[test]
fn empty_hostname_is_format_failure() {
    assert_eq!(resolve_identity(Some("")), Err(ReadError::FormatFailure));
    assert_eq!(resolve_identity(Some(" \n")), Err(ReadError::FormatFailure));
}

#[test]
fn unreadable_hostname_is_io_failure() {
    assert_eq!(resolve_identity(None), Err(ReadError::IoFailure));
}

#[test]
fn falls_back_to_default_identity() {
    let config = AgentConfig::defaults();
    assert_eq!(identity_or(Err(ReadError::IoFailure), &config.fallback_identity), "computeblade_default");
    assert_eq!(identity_or(Ok("node-a".to_string()), &config.fallback_identity), "node-a");
}

#[test]
fn topic_for_blade7() {
    assert_eq!(topic_for("blade7"), "cluster/blade7/cpu_temp");
}

#[test]
fn config_defaults_and_silent_flag() {
    let config = AgentConfig::defaults();
    assert!(!config.silent);
    assert!(config.shows_info());
    assert_eq!(config.broker_host, "192.168.1.15");
    assert_eq!(config.broker_port, 1883);
    assert_eq!(config.sensor_path, "/sys/class/thermal/thermal_zone0/temp");
    assert_eq!(config.hostname_path, "/etc/hostname");
    assert_eq!(config.sample_period_secs, 5);
    assert_eq!(config.retry_delay_secs, 5);
    assert_eq!(config.max_connect_attempts, None);
    let args = vec!["agent".to_string(), "--silent".to_string()];
    let silent = AgentConfig::from_args(&args);
    assert!(silent.silent);
    assert!(!silent.shows_info());
    let args = vec!["agent".to_string(), "--silentx".to_string()];
    assert!(!AgentConfig::from_args(&args).silent);
}

#[test]
fn connect_request_uses_identity() {
    let config = AgentConfig::defaults();
    let r = config.connect_request("node-a");
    assert_eq!(r.client_id, "node-a");
    assert_eq!(r.host, "192.168.1.15");
    assert_eq!(r.port, 1883);
}

#[test]
fn unreachable_broker_retries_at_fixed_interval() {
    let mut retry = RetryState::new(5, None);
    for _ in 0..100 {
        assert_eq!(retry.on_outcome(ConnectOutcome::Failed), ConnectAction::RetryAfter(5));
    }
    assert_eq!(retry.failures, 100);
    assert_eq!(retry.on_outcome(ConnectOutcome::Connected), ConnectAction::Proceed);
    assert_eq!(retry.failures, 100);
}

#[test]
fn capped_retry_gives_up() {
    let mut retry = RetryState::new(5, Some(3));
    assert_eq!(retry.on_outcome(ConnectOutcome::Failed), ConnectAction::RetryAfter(5));
    assert_eq!(retry.on_outcome(ConnectOutcome::Failed), ConnectAction::RetryAfter(5));
    assert_eq!(retry.on_outcome(ConnectOutcome::Failed), ConnectAction::GiveUp);
}

#[test]
fn missing_sensor_skips_one_cycle() {
    let mut l = SamplingLoop::new(topic_for("blade7"));
    assert!(matches!(l.step(Event::Tick), Action::ReadSensor));
    let a = l.step(Event::ReadDone(read_temperature(None)));
    assert!(matches!(a, Action::ReportReadError(ReadError::IoFailure)));
    assert_eq!(l.phase, Phase::WaitingForTick);
    assert!(matches!(l.step(Event::Tick), Action::ReadSensor));
    assert_eq!(l.phase, Phase::ProcessingSample(Stage::Reading));
}

#[test]
fn publish_failure_then_recovery() {
    let mut l = SamplingLoop::new(topic_for("blade7"));
    assert!(matches!(l.step(Event::Tick), Action::ReadSensor));
    assert!(matches!(l.step(Event::ReadDone(Ok(sample(40000)))), Action::Publish { .. }));
    let a = l.step(Event::PublishDone(Err(PublishError::TransportFailure)));
    assert!(matches!(a, Action::ReportPublishError(PublishError::TransportFailure)));
    assert_eq!(l.phase, Phase::WaitingForTick);
    assert!(matches!(l.step(Event::Tick), Action::ReadSensor));
    match l.step(Event::ReadDone(Ok(sample(41000)))) {
        Action::Publish { topic, payload, display } => {
            assert_eq!(topic, "cluster/blade7/cpu_temp");
            assert_eq!(payload, "41");
            assert_eq!(display, "41.00");
        }
        other => panic!("unexpected {:?}", other),
    }
    assert!(matches!(l.step(Event::PublishDone(Ok(()))), Action::Wait));
    assert_eq!(l.phase, Phase::WaitingForTick);
}

#[test]
fn events_out_of_turn_are_ignored() {
    let mut l = SamplingLoop::new("t".to_string());
    assert!(matches!(l.step(Event::PublishDone(Ok(()))), Action::Wait));
    assert!(matches!(l.step(Event::ReadDone(Ok(sample(1)))), Action::Wait));
    assert_eq!(l.phase, Phase::WaitingForTick);
    l.step(Event::Tick);
    assert!(matches!(l.step(Event::Tick), Action::Wait));
    assert_eq!(l.phase, Phase::ProcessingSample(Stage::Reading));
}

#[test]
fn end_to_end_one_tick() {
    let identity = identity_or(resolve_identity(Some("node-a.cluster")), "computeblade_default");
    let mut l = SamplingLoop::new(topic_for(&identity));
    assert!(matches!(l.step(Event::Tick), Action::ReadSensor));
    match l.step(Event::ReadDone(read_temperature(Some("42567")))) {
        Action::Publish { topic, payload, display } => {
            assert_eq!(topic, "cluster/node-a/cpu_temp");
            assert_eq!(payload, "42.567");
            assert_eq!(payload.parse::<f64>().unwrap(), 42.567);
            assert_eq!(display, "42.57");
        }
        other => panic!("unexpected {:?}", other),
    }
}
