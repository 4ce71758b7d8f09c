use datastar::fragments::{FragmentMergeMode, MergeFragmentsConfig, RemoveFragmentsConfig};
use datastar::generator::{
    encode_execute_script, encode_merge_fragments, encode_merge_signals, encode_remove_fragments,
    encode_remove_signals, ServerSentEventGenerator,
};
use datastar::scripts::ExecuteScriptConfig;
use datastar::signals::{MergeSignalsConfig, RemoveSignalsConfig};

fn has_single_final_blank_line(block: &str) -> bool {
    block.ends_with("\n\n") && !block[..block.len() - 1].contains("\n\n") && !block.starts_with('\n')
}

#[test]
fn merge_fragments_with_defaults() {
    let out = encode_merge_fragments("<div>hi</div>", MergeFragmentsConfig::new());
    assert_eq!(out, "event: datastar-merge-fragments\ndata: fragments <div>hi</div>\n\n");
}

#[test]
fn remove_signals_with_defaults() {
    let out = encode_remove_signals(&["a.b", "c"], RemoveSignalsConfig::new());
    assert_eq!(out, "event: datastar-remove-signals\ndata: paths a.b\ndata: paths c\n\n");
}

#[test]
fn defaults_give_only_required_lines() {
    assert_eq!(
        encode_remove_fragments("#gone", RemoveFragmentsConfig::new()),
        "event: datastar-remove-fragments\ndata: selector #gone\n\n"
    );
    assert_eq!(
        encode_merge_signals("{\"a\":1}", MergeSignalsConfig::new()),
        "event: datastar-merge-signals\ndata: signals {\"a\":1}\n\n"
    );
    assert_eq!(
        encode_execute_script("console.log(1)", ExecuteScriptConfig::new()),
        "event: datastar-execute-script\ndata: script console.log(1)\n\n"
    );
}

#[test]
fn event_id_follows_event_line_for_every_kind() {
    let blocks = vec![
        encode_merge_fragments("<p></p>", MergeFragmentsConfig::new().event_id("e1")),
        encode_remove_fragments("#x", RemoveFragmentsConfig::new().event_id("e1")),
        encode_merge_signals("{}", MergeSignalsConfig::new().event_id("e1")),
        encode_remove_signals(&["p"], RemoveSignalsConfig::new().event_id("e1")),
        encode_execute_script("f()", ExecuteScriptConfig::new().event_id("e1")),
    ];
    for block in blocks {
        let lines: Vec<&str> = block.split('\n').collect();
        assert!(lines[0].starts_with("event: datastar-"));
        assert_eq!(lines[1], "id: e1");
    }
}

#[test]
fn retry_duration_line_comes_after_id() {
    let out = encode_merge_signals(
        "{}",
        MergeSignalsConfig::new().event_id("7").retry_duration(2000),
    );
    assert_eq!(
        out,
        "event: datastar-merge-signals\nid: 7\nretryDuration: 2000\ndata: signals {}\n\n"
    );
}

#[test]
fn default_retry_duration_is_omitted() {
    let out = encode_remove_signals(&["x"], RemoveSignalsConfig::new().retry_duration(1000));
    assert_eq!(out, "event: datastar-remove-signals\ndata: paths x\n\n");
}

#[test]
fn largest_retry_duration() {
    let out = encode_remove_signals(&[], RemoveSignalsConfig::new().retry_duration(u32::MAX as u128));
    assert_eq!(out, "event: datastar-remove-signals\nretryDuration: 4294967295\n\n");
}

#[test]
fn zero_retry_duration() {
    let out = encode_remove_signals(&[], RemoveSignalsConfig::new().retry_duration(0));
    assert_eq!(out, "event: datastar-remove-signals\nretryDuration: 0\n\n");
}

#[test]
fn merge_fragments_with_every_option() {
    let config = MergeFragmentsConfig::new()
        .merge_mode(FragmentMergeMode::UpsertAttributes)
        .selector("#target")
        .settle_duration(500)
        .use_view_transition(true)
        .event_id("42")
        .retry_duration(3000);
    let out = encode_merge_fragments("<a>\n</a>", config);
    assert_eq!(
        out,
        "event: datastar-merge-fragments\nid: 42\nretryDuration: 3000\n\
         data: mergeMode upsertAttributes\ndata: selector #target\n\
         data: settleDuration 500\ndata: useViewTransition true\n\
         data: fragments <a>\ndata: fragments </a>\n\n"
    );
}

#[test]
fn merge_mode_names() {
    let cases = [
        (FragmentMergeMode::Inner, "inner"),
        (FragmentMergeMode::Outer, "outer"),
        (FragmentMergeMode::Prepend, "prepend"),
        (FragmentMergeMode::Append, "append"),
        (FragmentMergeMode::Before, "before"),
        (FragmentMergeMode::After, "after"),
        (FragmentMergeMode::UpsertAttributes, "upsertAttributes"),
    ];
    for (mode, name) in cases {
        assert_eq!(mode.as_datastar_name(), name);
        let out = encode_merge_fragments("x", MergeFragmentsConfig::new().merge_mode(mode));
        assert_eq!(
            out,
            format!("event: datastar-merge-fragments\ndata: mergeMode {}\ndata: fragments x\n\n", name)
        );
    }
    assert_eq!(FragmentMergeMode::Morph.as_datastar_name(), "morph");
    assert_eq!(FragmentMergeMode::default(), FragmentMergeMode::Morph);
}

#[test]
fn morph_mode_is_omitted() {
    let out = encode_merge_fragments("x", MergeFragmentsConfig::new().merge_mode(FragmentMergeMode::Morph));
    assert_eq!(out, "event: datastar-merge-fragments\ndata: fragments x\n\n");
}

#[test]
fn default_settle_duration_is_omitted() {
    let out = encode_remove_fragments("#a", RemoveFragmentsConfig::new().settle_duration(300));
    assert_eq!(out, "event: datastar-remove-fragments\ndata: selector #a\n\n");
}

#[test]
fn remove_fragments_with_every_option() {
    let config = RemoveFragmentsConfig::new()
        .settle_duration(0)
        .use_view_transition(true)
        .event_id("r")
        .retry_duration(10);
    assert_eq!(
        encode_remove_fragments(".item", config),
        "event: datastar-remove-fragments\nid: r\nretryDuration: 10\n\
         data: selector .item\ndata: settleDuration 0\ndata: useViewTransition true\n\n"
    );
}

#[test]
fn merge_signals_only_if_missing() {
    let out = encode_merge_signals("{\"a\":1}", MergeSignalsConfig::new().only_if_missing(true));
    assert_eq!(
        out,
        "event: datastar-merge-signals\ndata: onlyIfMissing true\ndata: signals {\"a\":1}\n\n"
    );
}

#[test]
fn execute_script_with_every_option() {
    let config = ExecuteScriptConfig::new()
        .auto_remove(false)
        .attribute("type module")
        .attribute("defer true")
        .event_id("s")
        .retry_duration(1);
    assert_eq!(
        encode_execute_script("a();\nb();", config),
        "event: datastar-execute-script\nid: s\nretryDuration: 1\n\
         data: autoRemove false\ndata: attributes type module\ndata: attributes defer true\n\
         data: script a();\ndata: script b();\n\n"
    );
}

#[test]
fn auto_remove_true_is_omitted() {
    let out = encode_execute_script("x()", ExecuteScriptConfig::new().auto_remove(true));
    assert_eq!(out, "event: datastar-execute-script\ndata: script x()\n\n");
}

#[test]
fn payload_lines_become_data_lines_in_order() {
    let out = encode_merge_fragments("<ul>\r\n<li>1</li>\n\n<li>2</li>\n</ul>\n", MergeFragmentsConfig::new());
    let fragments: Vec<&str> = out
        .lines()
        .filter_map(|l| l.strip_prefix("data: fragments "))
        .collect();
    assert_eq!(fragments, vec!["<ul>", "<li>1</li>", "", "<li>2</li>", "</ul>"]);

    let out = encode_merge_signals("{\n\"a\": 1\n}", MergeSignalsConfig::new());
    assert_eq!(
        out,
        "event: datastar-merge-signals\ndata: signals {\ndata: signals \"a\": 1\ndata: signals }\n\n"
    );

    let out = encode_execute_script("one\ntwo\nthree", ExecuteScriptConfig::new());
    let script: Vec<&str> = out.lines().filter_map(|l| l.strip_prefix("data: script ")).collect();
    assert_eq!(script, vec!["one", "two", "three"]);
}

#[test]
fn empty_payload_has_no_data_line() {
    assert_eq!(
        encode_merge_fragments("", MergeFragmentsConfig::new()),
        "event: datastar-merge-fragments\n\n"
    );
    assert_eq!(
        encode_merge_signals("", MergeSignalsConfig::new()),
        "event: datastar-merge-signals\n\n"
    );
}

#[test]
fn every_block_ends_with_one_blank_line() {
    let blocks = vec![
        encode_merge_fragments("a\n\n\nb\n\n", MergeFragmentsConfig::new().selector("#s")),
        encode_remove_fragments("#x", RemoveFragmentsConfig::new().settle_duration(1)),
        encode_merge_signals("\n\n", MergeSignalsConfig::new().only_if_missing(true)),
        encode_remove_signals(&["", "p"], RemoveSignalsConfig::new().event_id("")),
        encode_execute_script("\r\n\r\n", ExecuteScriptConfig::new().attribute("")),
        encode_remove_signals(&[], RemoveSignalsConfig::new()),
    ];
    for block in blocks {
        assert!(has_single_final_blank_line(&block), "{:?}", block);
    }
}

#[test]
fn generator_collects_blocks_in_order() {
    let mut generator = ServerSentEventGenerator { events: Vec::new() };
    generator.merge_fragments("<p>1</p>", MergeFragmentsConfig::new());
    generator.remove_fragments("#p", RemoveFragmentsConfig::new());
    generator.merge_signals("{}", MergeSignalsConfig::new());
    generator.remove_signals(&["a"], RemoveSignalsConfig::new());
    generator.execute_script("go()", ExecuteScriptConfig::new());
    assert_eq!(
        generator.events,
        vec![
            "event: datastar-merge-fragments\ndata: fragments <p>1</p>\n\n".to_string(),
            "event: datastar-remove-fragments\ndata: selector #p\n\n".to_string(),
            "event: datastar-merge-signals\ndata: signals {}\n\n".to_string(),
            "event: datastar-remove-signals\ndata: paths a\n\n".to_string(),
            "event: datastar-execute-script\ndata: script go()\n\n".to_string(),
        ]
    );
}
