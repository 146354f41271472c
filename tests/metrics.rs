use chrono::{TimeZone, Utc};
use dogstatsd::{
    format_for_send, CountMetric, DistributionMetric, Event, EventOptions, GaugeMetric,
    HistogramMetric, Metric, ServiceCheck, ServiceCheckOptions, ServiceStatus, SetMetric,
    TimeMetric, TimingMetric, Timestamp,
};

fn timestamp_of(t: &chrono::DateTime<Utc>) -> Timestamp {
    Timestamp { secs: t.timestamp(), nanos: t.timestamp_subsec_nanos() }
}

#[test]
fn test_format_for_send_no_tags() {
    assert_eq!(
        &b"namespace.foo:1|c"[..],
        &format_for_send(
            &CountMetric::Incr("foo", 1),
            "namespace",
            &[] as &[&str],
            &String::default().into_bytes()
        )[..]
    )
}

#[test]
fn test_format_for_optional_value_in_increment() {
    assert_eq!(
        &b"namespace.foo:20|c"[..],
        &format_for_send(
            &CountMetric::Incr("foo", 20),
            "namespace",
            &[] as &[&str],
            &String::default().into_bytes()
        )[..]
    )
}

#[test]
fn test_format_for_send_no_namespace() {
    assert_eq!(
        &b"foo:1|c|#tag:1,tag:2"[..],
        &format_for_send(
            &CountMetric::Incr("foo", 1),
            "",
            &["tag:1", "tag:2"],
            &String::default().into_bytes()
        )[..]
    )
}

#[test]
fn test_format_for_no_default_tags() {
    assert_eq!(
        &b"namespace.foo:1|c|#tag:1,tag:2,defaultag:3,seconddefault:4"[..],
        &format_for_send(
            &CountMetric::Incr("foo", 1),
            "namespace",
            &["tag:1", "tag:2"],
            &String::from("defaultag:3,seconddefault:4").into_bytes()
        )[..]
    )
}

#[test]
fn test_format_for_send_everything() {
    assert_eq!(
        &b"namespace.foo:1|c|#tag:1,tag:2,defaultag:3,seconddefault:4"[..],
        &format_for_send(
            &CountMetric::Incr("foo", 1),
            "namespace",
            &["tag:1", "tag:2"],
            &String::from("defaultag:3,seconddefault:4").into_bytes()
        )[..]
    )
}

#[test]
fn test_format_for_send_everything_omit_namespace() {
    assert_eq!(
        &b"_e{5,4}:title|text|#tag:1,tag:2"[..],
        &format_for_send(
            &Event::new("title".into(), "text".into()),
            "namespace",
            &["tag:1", "tag:2"],
            &String::default().into_bytes()
        )[..]
    )
}

#[test]
fn test_format_with_only_default_tags() {
    assert_eq!(
        &b"namespace.foo:1|c|#defaultag:3,seconddefault:4"[..],
        &format_for_send(
            &CountMetric::Incr("foo", 1),
            "namespace",
            &[] as &[&str],
            &String::from("defaultag:3,seconddefault:4").into_bytes()
        )[..]
    )
}

#[test]
fn test_count_incr_metric() {
    let metric = CountMetric::Incr("incr".into(), 1);

    assert_eq!("incr:1|c", metric.metric_type_format())
}

#[test]
fn test_count_decr_metric() {
    let metric = CountMetric::Decr("decr".into(), 1);

    assert_eq!("decr:-1|c", metric.metric_type_format())
}

#[test]
fn test_count_decr_by_value_metric() {
    let metric = CountMetric::Decr("decr".into(), 35);

    assert_eq!("decr:-35|c", metric.metric_type_format())
}

#[test]
fn test_count_metric() {
    let metric = CountMetric::Arbitrary("arb".into(), 54321);
    assert_eq!("arb:54321|c", metric.metric_type_format());
    let metric = CountMetric::Arbitrary("arb".into(), -12345);
    assert_eq!("arb:-12345|c", metric.metric_type_format());
    let metric = CountMetric::Arbitrary("arb".into(), 0);
    assert_eq!("arb:0|c", metric.metric_type_format());
}

#[test]
fn test_time_metric() {
    let start_time = Utc.with_ymd_and_hms(2016, 4, 24, 0, 0, 0).unwrap();
    let end_time = Utc
        .timestamp_millis_opt(start_time.timestamp_millis() + 900)
        .unwrap();
    let start = timestamp_of(&start_time);
    let end = timestamp_of(&end_time);
    let metric = TimeMetric::new("time".into(), &start, &end);

    assert_eq!("time:900|ms", metric.metric_type_format())
}

#[test]
fn test_timing_metric() {
    let metric = TimingMetric::new("timing".into(), 720);

    assert_eq!("timing:720|ms", metric.metric_type_format())
}

#[test]
fn test_gauge_metric() {
    let metric = GaugeMetric::new("gauge".into(), "12345".into());

    assert_eq!("gauge:12345|g", metric.metric_type_format())
}

#[test]
fn test_histogram_metric() {
    let metric = HistogramMetric::new("histogram".into(), "67890".into());

    assert_eq!("histogram:67890|h", metric.metric_type_format())
}

#[test]
fn test_distribution_metric() {
    let metric = DistributionMetric::new("distribution".into(), "67890".into());

    assert_eq!("distribution:67890|d", metric.metric_type_format())
}

#[test]
fn test_set_metric() {
    let metric = SetMetric::new("set".into(), "13579".into());

    assert_eq!("set:13579|s", metric.metric_type_format())
}

#[test]
fn test_service_check() {
    let metric = ServiceCheck::new(
        "redis.can_connect".into(),
        ServiceStatus::Warning,
        ServiceCheckOptions::default(),
    );

    assert_eq!("_sc|redis.can_connect|1", metric.metric_type_format())
}

#[test]
fn test_service_check_with_timestamp() {
    let options = ServiceCheckOptions {
        timestamp: Some(1234567890),
        ..Default::default()
    };
    let metric = ServiceCheck::new("redis.can_connect".into(), ServiceStatus::Warning, options);

    assert_eq!(
        "_sc|redis.can_connect|1|d:1234567890",
        metric.metric_type_format()
    )
}

#[test]
fn test_service_check_with_hostname() {
    let options = ServiceCheckOptions {
        hostname: Some("my_server.localhost"),
        ..Default::default()
    };
    let metric = ServiceCheck::new("redis.can_connect".into(), ServiceStatus::Warning, options);

    assert_eq!(
        "_sc|redis.can_connect|1|h:my_server.localhost",
        metric.metric_type_format()
    )
}

#[test]
fn test_service_check_with_message() {
    let options = ServiceCheckOptions {
        message: Some("Service is possibly down"),
        ..Default::default()
    };
    let metric = ServiceCheck::new("redis.can_connect".into(), ServiceStatus::Warning, options);

    assert_eq!(
        "_sc|redis.can_connect|1|m:Service is possibly down",
        metric.metric_type_format()
    )
}

#[test]
fn test_service_check_with_all() {
    let options = ServiceCheckOptions {
        timestamp: Some(1234567890),
        hostname: Some("my_server.localhost"),
        message: Some("Service is possibly down"),
    };
    let metric = ServiceCheck::new("redis.can_connect".into(), ServiceStatus::Warning, options);

    assert_eq!(
        "_sc|redis.can_connect|1|d:1234567890|h:my_server.localhost|m:Service is possibly down",
        metric.metric_type_format()
    )
}

#[test]
fn test_event() {
    let metric = Event::new(
        "Event Title".into(),
        "Event Body - Something Happened".into(),
    );

    assert_eq!(
        "_e{11,31}:Event Title|Event Body - Something Happened",
        metric.metric_type_format()
    )
}

#[test]
fn bare_frame_without_namespace_or_tags() {
    let metric = GaugeMetric::new("load", "0.5");
    let frame = format_for_send(&metric, "", &[] as &[&str], &Vec::new());
    assert_eq!(frame, metric.metric_type_format().into_bytes());
    assert_eq!(&frame[..], &b"load:0.5|g"[..]);
}

#[test]
fn service_check_frame_ignores_namespace() {
    let check = ServiceCheck::new("db.up", ServiceStatus::Critical, ServiceCheckOptions::default());
    assert_eq!(
        &format_for_send(&check, "namespace", &["env:prod"], &b"team:core".to_vec())[..],
        &b"_sc|db.up|2|#env:prod,team:core"[..]
    );
    let event = Event::new("up", "again");
    assert_eq!(
        &format_for_send(&event, "namespace", &[] as &[&str], &Vec::new())[..],
        &b"_e{2,5}:up|again"[..]
    );
}

#[test]
fn single_tag_and_default_tags_without_namespace() {
    assert_eq!(
        &format_for_send(&TimingMetric::new("t", 5), "", &["a"], &b"b:1".to_vec())[..],
        &b"t:5|ms|#a,b:1"[..]
    );
}

#[test]
fn decrement_of_the_smallest_amount_is_negated_exactly() {
    let metric = CountMetric::Decr("d", i64::MIN);
    assert_eq!("d:9223372036854775808|c", metric.metric_type_format());
    let metric = CountMetric::Decr("d", -7);
    assert_eq!("d:7|c", metric.metric_type_format());
    let metric = CountMetric::Arbitrary("a", i64::MIN);
    assert_eq!("a:-9223372036854775808|c", metric.metric_type_format());
}

#[test]
fn time_metric_truncates_toward_zero() {
    let start = Timestamp { secs: 10, nanos: 999_999 };
    let end = Timestamp { secs: 10, nanos: 1_000_100 };
    assert_eq!("t:0|ms", TimeMetric::new("t", &start, &end).metric_type_format());
    let end = Timestamp { secs: 12, nanos: 500_000_000 };
    assert_eq!("t:2499|ms", TimeMetric::new("t", &start, &end).metric_type_format());
    let early = Timestamp { secs: 9, nanos: 0 };
    assert_eq!("t:-1000|ms", TimeMetric::new("t", &start, &early).metric_type_format());
    let a = Timestamp { secs: i64::MIN, nanos: 0 };
    let b = Timestamp { secs: i64::MAX, nanos: 0 };
    assert_eq!(
        "t:18446744073709551615000|ms",
        TimeMetric::new("t", &a, &b).metric_type_format()
    );
}

#[test]
fn event_options_in_fixed_order() {
    let options = EventOptions {
        timestamp: Some(-5),
        hostname: Some("h1"),
        aggregation_key: Some("k1"),
        priority: Some("low"),
        source_type_name: Some("src"),
        alert_type: Some("error"),
    };
    let event = Event::with_options("T", "héllo", options);
    assert_eq!(
        "_e{1,6}:T|héllo|d:-5|h:h1|k:k1|p:low|s:src|t:error",
        event.metric_type_format()
    );
    let only_alert = EventOptions { alert_type: Some("info"), ..Default::default() };
    assert_eq!("_e{1,1}:a|b|t:info", Event::with_options("a", "b", only_alert).metric_type_format());
}

#[test]
fn service_statuses_have_their_codes() {
    let cases = [
        (ServiceStatus::OK, "_sc|s|0"),
        (ServiceStatus::Warning, "_sc|s|1"),
        (ServiceStatus::Critical, "_sc|s|2"),
        (ServiceStatus::Unknown, "_sc|s|3"),
    ];
    for (status, expected) in cases {
        let check = ServiceCheck::new("s", status, ServiceCheckOptions::default());
        assert_eq!(expected, check.metric_type_format());
        assert!(!check.uses_namespace());
    }
}

#[test]
fn namespace_applies_to_plain_metrics_only() {
    assert!(CountMetric::Incr("c", 1).uses_namespace());
    assert!(SetMetric::new("s", "1").uses_namespace());
    assert!(!Event::new("t", "b").uses_namespace());
}

#[test]
fn integer_values_are_written_in_decimal() {
    assert_eq!("g:-42|g", GaugeMetric::with_integer("g", -42).metric_type_format());
    assert_eq!("h:0|h", HistogramMetric::with_integer("h", 0).metric_type_format());
    assert_eq!(
        "d:9223372036854775807|d",
        DistributionMetric::with_integer("d", i64::MAX).metric_type_format()
    );
    assert_eq!("s:13579|s", SetMetric::with_integer("s", 13579).metric_type_format());
    assert_eq!(
        &format_for_send(&SetMetric::with_integer("users", 7), "app", &["a:b"], &Vec::new())[..],
        &b"app.users:7|s|#a:b"[..]
    );
}
