use cloudwatch_logs_sink::config::{CloudwatchLogsSinkConfig, RegionSetting};
use rusoto_core::RusotoError;
use cloudwatch_logs_sink::event::{LogEvent, Value};
use cloudwatch_logs_sink::healthcheck::{healthcheck, healthcheck_request, HealthcheckError};
use cloudwatch_logs_sink::remote::StreamInfo;
use cloudwatch_logs_sink::sequencer::{
    write_outcome, CloudwatchError, CloudwatchLogsSvc, Readiness, SlotOutcome, State,
};

fn config() -> CloudwatchLogsSinkConfig {
    CloudwatchLogsSinkConfig {
        stream_name: "test-1".into(),
        group_name: "router".into(),
        endpoint: Some("http://localhost:6000".into()),
        ..Default::default()
    }
}

fn stream(name: Option<&str>, token: Option<&str>) -> StreamInfo {
    StreamInfo {
        log_stream_name: name.map(|s| s.to_string()),
        upload_sequence_token: token.map(|s| s.to_string()),
    }
}

fn event(msg: &str, ms: i64) -> LogEvent {
    let mut e = LogEvent::new();
    e.insert_implicit("message".into(), Value::Bytes(msg.into()));
    e.insert_implicit("timestamp".into(), Value::Timestamp(ms));
    e
}

fn ready_with(token: &str) -> CloudwatchLogsSvc {
    let mut svc = CloudwatchLogsSvc::new(config()).unwrap();
    assert!(matches!(svc.poll_ready(), Readiness::Describe(_)));
    svc.describe_done(Ok(Some(vec![stream(Some("test-1"), Some(token))]))).unwrap();
    svc
}

#[test]
fn idle_poll_asks_for_describe() {
    let mut svc = CloudwatchLogsSvc::new(config()).unwrap();
    assert!(matches!(svc.state(), State::Idle));
    match svc.poll_ready() {
        Readiness::Describe(d) => {
            assert_eq!(d.limit, 1);
            assert_eq!(d.log_group_name, "router");
            assert_eq!(d.log_stream_name_prefix, "test-1");
        }
        _ => panic!("expected a describe call"),
    }
    assert!(matches!(svc.state(), State::Describing));
    assert!(matches!(svc.poll_ready(), Readiness::Pending));
}

#[test]
fn no_streams_found_never_ready() {
    let mut svc = CloudwatchLogsSvc::new(config()).unwrap();
    svc.poll_ready();
    assert!(matches!(svc.describe_done(Ok(Some(vec![]))), Err(CloudwatchError::NoStreamsFound)));
    assert!(matches!(svc.state(), State::Idle));
    assert!(!svc.is_ready());
    assert!(matches!(svc.poll_ready(), Readiness::Describe(_)));
    assert!(matches!(svc.describe_done(Ok(None)), Err(CloudwatchError::NoStreamsFound)));
    assert!(!svc.is_ready());
}

#[test]
fn describe_failure_resets_to_idle() {
    let mut svc = CloudwatchLogsSvc::new(config()).unwrap();
    svc.poll_ready();
    match svc.describe_done(Err(RusotoError::Validation("boom".into()))) {
        Err(CloudwatchError::Describe(RusotoError::Validation(e))) => assert_eq!(e, "boom"),
        _ => panic!("expected a describe error"),
    }
    assert!(matches!(svc.state(), State::Idle));
}

#[test]
fn first_write_uses_described_token() {
    let mut svc = ready_with("abc");
    assert!(matches!(svc.poll_ready(), Readiness::Ready));
    let req = svc.call(vec![event("one", 10), event("two", 20)]);
    assert_eq!(req.sequence_token.as_deref(), Some("abc"));
    assert_eq!(req.log_group_name, "router");
    assert_eq!(req.log_stream_name, "test-1");
    assert_eq!(req.log_events.len(), 2);
    assert_eq!(req.log_events[0].message, "one");
    assert_eq!(req.log_events[0].timestamp, 10);
    assert_eq!(req.log_events[1].message, "two");
    assert_eq!(req.log_events[1].timestamp, 20);
}

#[test]
fn accepted_write_blocks_next_accept() {
    let mut svc = ready_with("abc");
    svc.call(vec![event("one", 10)]);
    assert!(matches!(svc.state(), State::Writing));
    assert!(!svc.is_ready());
    for _ in 0..3 {
        assert!(matches!(svc.poll_ready(), Readiness::Pending));
    }
    assert!(!svc.is_ready());
}

#[test]
fn response_token_becomes_current() {
    let mut svc = ready_with("abc");
    svc.call(vec![event("one", 10)]);
    svc.write_observed(SlotOutcome::Delivered(Some("def".into())));
    match svc.state() {
        State::Ready(t) => assert_eq!(t.as_deref(), Some("def")),
        _ => panic!("expected ready"),
    }
    assert!(matches!(svc.poll_ready(), Readiness::Ready));
}

#[test]
fn dropped_write_resets_and_redescribes() {
    let mut svc = ready_with("abc");
    svc.call(vec![event("one", 10)]);
    svc.write_observed(SlotOutcome::Closed);
    assert!(matches!(svc.state(), State::Idle));
    assert!(matches!(svc.poll_ready(), Readiness::Describe(_)));
    svc.describe_done(Ok(Some(vec![stream(Some("test-1"), Some("xyz"))]))).unwrap();
    let req = svc.call(vec![event("two", 20)]);
    assert_eq!(req.sequence_token.as_deref(), Some("xyz"));
}

#[test]
fn tokens_chain_across_writes() {
    let mut svc = ready_with("t0");
    let replies = ["t1", "t2", "t3"];
    let mut used = Vec::new();
    for r in replies.iter() {
        assert!(matches!(svc.poll_ready(), Readiness::Ready));
        let req = svc.call(vec![event("x", 1)]);
        used.push(req.sequence_token.unwrap());
        assert!(matches!(svc.poll_ready(), Readiness::Pending));
        svc.write_observed(SlotOutcome::Delivered(Some(r.to_string())));
    }
    assert_eq!(used, vec!["t0", "t1", "t2"]);
}

#[test]
fn stream_without_token_gives_no_token() {
    let mut svc = CloudwatchLogsSvc::new(config()).unwrap();
    svc.poll_ready();
    svc.describe_done(Ok(Some(vec![stream(Some("test-1"), None)]))).unwrap();
    let req = svc.call(vec![]);
    assert!(req.sequence_token.is_none());
    assert!(req.log_events.is_empty());
}

#[test]
fn write_outcomes() {
    assert!(write_outcome(Ok(()), true).is_ok());
    assert!(matches!(write_outcome(Ok(()), false), Err(CloudwatchError::ServiceDropped)));
    assert!(matches!(
        write_outcome(Err(RusotoError::Blocking), false),
        Err(CloudwatchError::Put(RusotoError::Blocking))
    ));
    match write_outcome(Err(RusotoError::Validation("denied".into())), true) {
        Err(CloudwatchError::Put(RusotoError::Validation(e))) => assert_eq!(e, "denied"),
        _ => panic!("expected a put error"),
    }
}

#[test]
fn healthcheck_rejects_prefix_match() {
    let cfg = config();
    match healthcheck(&cfg, Ok(Some(vec![stream(Some("test-1-old"), None)]))) {
        Err(HealthcheckError::StreamNameMismatch { got, expected }) => {
            assert_eq!(got, "test-1-old");
            assert_eq!(expected, "test-1");
        }
        _ => panic!("expected a mismatch"),
    }
}

#[test]
fn healthcheck_outcomes() {
    let cfg = config();
    assert!(healthcheck(&cfg, Ok(Some(vec![stream(Some("test-1"), Some("a"))]))).is_ok());
    assert!(matches!(healthcheck(&cfg, Ok(Some(vec![]))), Err(HealthcheckError::NoStreamsFound)));
    assert!(matches!(healthcheck(&cfg, Ok(None)), Err(HealthcheckError::NoStreamsFound)));
    assert!(matches!(
        healthcheck(&cfg, Ok(Some(vec![stream(None, None)]))),
        Err(HealthcheckError::NoStreamsFound)
    ));
    assert!(matches!(
        healthcheck(&cfg, Err(RusotoError::Blocking)),
        Err(HealthcheckError::DescribeFailed(_))
    ));
    let d = healthcheck_request(&cfg);
    assert_eq!(d.limit, 1);
    assert_eq!(d.log_stream_name_prefix, "test-1");
}

#[test]
fn config_defaults() {
    let cfg = CloudwatchLogsSinkConfig::default();
    assert_eq!(cfg.timeout_secs(), 60);
    assert_eq!(cfg.in_flight_limit(), 5);
    assert_eq!(cfg.rate_limit_duration_secs(), 1);
    assert_eq!(cfg.rate_limit_num(), 5);
    assert_eq!(cfg.batch_timeout_secs(), 1);
    assert_eq!(cfg.batch_size_bytes(), 1048576);
    let set = CloudwatchLogsSinkConfig {
        batch_size: Some(10),
        request_timeout_secs: Some(3),
        ..Default::default()
    };
    assert_eq!(set.batch_size_bytes(), 10);
    assert_eq!(set.timeout_secs(), 3);
}

#[test]
fn region_setting_prefers_endpoint() {
    let both = CloudwatchLogsSinkConfig {
        region: Some("us-east-1".into()),
        endpoint: Some("http://localhost:6000".into()),
        ..Default::default()
    };
    assert!(matches!(both.region_setting(), Ok(RegionSetting::Endpoint(e)) if e == "http://localhost:6000"));
    let named = CloudwatchLogsSinkConfig { region: Some("us-east-1".into()), ..Default::default() };
    assert!(matches!(named.region_setting(), Ok(RegionSetting::Named(n)) if n == "us-east-1"));
    match CloudwatchLogsSinkConfig::default().region_setting() {
        Err(m) => assert_eq!(m, "Must set either region or endpoint"),
        Ok(_) => panic!("expected an error"),
    }
}

#[test]
fn error_messages() {
    assert_eq!(CloudwatchError::NoStreamsFound.message(), "CloudwatchError: No Streams Found");
    assert_eq!(
        CloudwatchError::ServiceDropped.message(),
        "CloudwatchError: The service was dropped while there was a request in flight."
    );
    let put = CloudwatchError::from(RusotoError::<rusoto_logs::PutLogEventsError>::Validation("bad".into()));
    assert!(matches!(put, CloudwatchError::Put(_)));
    assert!(put.message().starts_with("CloudwatchError::Put: "));
    assert!(put.message().contains("bad"));
    let describe: CloudwatchError = RusotoError::<rusoto_logs::DescribeLogStreamsError>::Validation("gone".into()).into();
    assert!(matches!(describe, CloudwatchError::Describe(_)));
    assert!(describe.message().starts_with("CloudwatchError::Describe: "));
    assert_eq!(HealthcheckError::NoStreamsFound.message(), "No streams found");
    let mismatch = HealthcheckError::StreamNameMismatch { got: "test-1-old".into(), expected: "test-1".into() };
    assert_eq!(
        mismatch.message(),
        "Stream returned is not the same as the one passed in got: test-1-old, expected: test-1"
    );
    assert!(HealthcheckError::DescribeFailed(RusotoError::Blocking)
        .message()
        .starts_with("DescribeLogStreams failed: "));
}

#[test]
fn new_needs_somewhere_to_connect() {
    match CloudwatchLogsSvc::new(CloudwatchLogsSinkConfig::default()) {
        Err(m) => assert_eq!(m, "Must set either region or endpoint"),
        Ok(_) => panic!("expected an error"),
    }
    let unknown = CloudwatchLogsSinkConfig { region: Some("nowhere-9".into()), ..Default::default() };
    assert!(CloudwatchLogsSvc::new(unknown).is_err());
    let known = CloudwatchLogsSinkConfig { region: Some("us-east-1".into()), ..Default::default() };
    let svc = CloudwatchLogsSvc::new(known).unwrap();
    assert!(matches!(svc.state(), State::Idle));
    assert!(CloudwatchLogsSvc::new(config()).is_ok());
}

#[test]
fn error_messages_differ() {
    let put = CloudwatchError::Put(RusotoError::Blocking).message();
    let describe = CloudwatchError::Describe(RusotoError::Blocking).message();
    let none = CloudwatchError::NoStreamsFound.message();
    let dropped = CloudwatchError::ServiceDropped.message();
    let all = [put, describe, none, dropped];
    for i in 0..all.len() {
        for j in 0..i {
            assert_ne!(all[i], all[j]);
        }
    }
}
