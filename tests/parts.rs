use datastar::event::{encode_event, push_data, push_decimal, to_decimal, EventKind};
use datastar::fragments::{FragmentMergeMode, MergeFragmentsConfig, RemoveFragmentsConfig};
use datastar::lines::split_lines;
use datastar::response::response_headers;
use datastar::scripts::ExecuteScriptConfig;
use datastar::signals::{MergeSignalsConfig, RemoveSignalsConfig};

#[test]
fn split_lines_as_str_lines() {
    let cases = [
        "",
        "a",
        "a\n",
        "a\r\nb",
        "\n",
        "\n\n",
        "a\n\nb\n",
        "x\r",
        "x\r\r\n",
        "é\nü\r\n",
        "\r\n",
    ];
    for case in cases {
        let expected: Vec<&str> = case.lines().collect();
        assert_eq!(split_lines(case), expected, "{:?}", case);
    }
}

#[test]
fn decimal_notation() {
    assert_eq!(to_decimal(0), "0");
    assert_eq!(to_decimal(7), "7");
    assert_eq!(to_decimal(10), "10");
    assert_eq!(to_decimal(300), "300");
    assert_eq!(to_decimal(u32::MAX), "4294967295");
    let mut s = String::from("n=");
    push_decimal(&mut s, 1205);
    assert_eq!(s, "n=1205");
}

#[test]
fn data_line_format() {
    let mut s = String::new();
    push_data(&mut s, "key", "some value");
    assert_eq!(s, "data: key some value\n");
}

#[test]
fn event_names() {
    assert_eq!(EventKind::MergeFragments.as_str(), "datastar-merge-fragments");
    assert_eq!(EventKind::RemoveFragments.as_str(), "datastar-remove-fragments");
    assert_eq!(EventKind::MergeSignals.as_str(), "datastar-merge-signals");
    assert_eq!(EventKind::RemoveSignals.as_str(), "datastar-remove-signals");
    assert_eq!(EventKind::ExecuteScript.as_str(), "datastar-execute-script");
}

#[test]
fn generic_event_encoding() {
    let out = encode_event(EventKind::MergeSignals, &vec![("k", "v"), ("k2", "")], Some("id".to_string()), 5);
    assert_eq!(out, "event: datastar-merge-signals\nid: id\nretryDuration: 5\ndata: k v\ndata: k2 \n\n");
}

#[test]
fn configs_start_at_protocol_defaults() {
    let c = MergeFragmentsConfig::new();
    assert_eq!(c.merge_mode, FragmentMergeMode::Morph);
    assert_eq!(c.selector, None);
    assert_eq!(c.settle_duration, 300);
    assert!(!c.use_view_transition);
    assert_eq!(c.event_id, None);
    assert_eq!(c.retry_duration, 1000);

    let c = RemoveFragmentsConfig::new();
    assert_eq!((c.settle_duration, c.use_view_transition, c.retry_duration), (300, false, 1000));
    assert_eq!(c.event_id, None);

    let c = MergeSignalsConfig::new();
    assert_eq!((c.only_if_missing, c.retry_duration), (false, 1000));
    assert_eq!(c.event_id, None);

    let c = RemoveSignalsConfig::new();
    assert_eq!(c.retry_duration, 1000);
    assert_eq!(c.event_id, None);

    let c = ExecuteScriptConfig::new();
    assert!(c.auto_remove);
    assert!(c.attributes.is_empty());
    assert_eq!(c.event_id, None);
    assert_eq!(c.retry_duration, 1000);
}

#[test]
fn setters_change_one_field() {
    let c = MergeFragmentsConfig::new().selector("#a").settle_duration(12).event_id("e");
    assert_eq!(c.selector.as_deref(), Some("#a"));
    assert_eq!(c.settle_duration, 12);
    assert_eq!(c.event_id.as_deref(), Some("e"));
    assert_eq!(c.retry_duration, 1000);
    assert_eq!(c.merge_mode, FragmentMergeMode::Morph);

    let c = ExecuteScriptConfig::new().attribute("a 1").attribute("b 2");
    assert_eq!(c.attributes, vec!["a 1".to_string(), "b 2".to_string()]);
}

#[test]
fn event_stream_headers() {
    assert_eq!(
        response_headers(),
        [
            ("cache-control", "no-cache"),
            ("connection", "keep-alive"),
            ("content-type", "text/event-stream")
        ]
    );
}
