use podman_healthcheckd::podman::{
    command_failure, events_args, get_healthcheck, healthcheck_args, inspect_args, inspect_output,
    podman_ps, ps_args, ps_listing, ps_reply, run_healthcheck,
    CheckOutcome, CommandOutput, HealthcheckConfig, InspectConfig, InspectReply, InspectResult,
    PsEntry, PsReply,
};

fn output(success: bool, stdout: &[u8], stderr: &[u8]) -> CommandOutput {
    CommandOutput { success, stdout: stdout.to_vec(), stderr: stderr.to_vec() }
}

fn config(test: &[&str]) -> HealthcheckConfig {
    HealthcheckConfig {
        test: test.iter().map(|t| t.to_string()).collect(),
        interval: 1,
        timeout: 2,
        start_period: 3,
        retries: 4,
    }
}

fn inspected(healthcheck: Option<HealthcheckConfig>) -> InspectResult {
    InspectResult { config: InspectConfig { healthcheck } }
}

fn assert_parse(reply: PsReply, expected: &str) {
    match reply {
        PsReply::Parse(text) => assert_eq!(text, expected),
        other => panic!("expected text to parse, got {:?}", other),
    }
}

fn assert_failed(reply: PsReply, expected: &str) {
    match reply {
        PsReply::Known(Err(message)) => assert_eq!(message, expected),
        other => panic!("expected a failure, got {:?}", other),
    }
}

fn lists_nothing(reply: PsReply) -> bool {
    match reply {
        PsReply::Known(Ok(entries)) => entries.is_empty(),
        _ => false,
    }
}

#[test]
fn arguments() {
    assert_eq!(ps_args(), ["ps", "--format", "json"]);
    assert_eq!(inspect_args("abc"), ["inspect", "abc"]);
    assert_eq!(healthcheck_args("abc"), ["healthcheck", "run", "abc"]);
    assert_eq!(
        events_args(),
        ["events", "--format", "json", "--filter", "type=container"]
    );
}

#[test]
fn listing_that_could_not_run() {
    assert_failed(
        podman_ps(&Err("No such file".to_string())),
        "failed to run podman ps: No such file",
    );
}

#[test]
fn listing_that_failed_reports_trimmed_stderr() {
    assert_failed(
        podman_ps(&Ok(output(false, b"[]", b"\n  Error: no socket \n"))),
        "podman ps failed: Error: no socket",
    );
}

#[test]
fn blank_listing_has_no_containers() {
    assert!(lists_nothing(podman_ps(&Ok(output(true, b"", b"")))));
    assert!(lists_nothing(podman_ps(&Ok(output(true, b" \n\t", b"warning")))));
    assert!(lists_nothing(ps_reply(true, "\u{3000}\u{85}", "")));
}

#[test]
fn listing_is_parsed_untrimmed() {
    assert_parse(podman_ps(&Ok(output(true, b" [] \n", b""))), " [] \n");
}

#[test]
fn malformed_bytes_are_replaced() {
    assert_parse(podman_ps(&Ok(output(true, b"a\xffb", b""))), "a\u{fffd}b");
    assert_parse(podman_ps(&Ok(output(true, "h\u{e9}".as_bytes(), b""))), "h\u{e9}");
}

fn has_white_space_property(code: u32) -> bool {
    (0x9..=0xd).contains(&code)
        || [0x20, 0x85, 0xa0, 0x1680, 0x2028, 0x2029, 0x202f, 0x205f, 0x3000].contains(&code)
        || (0x2000..=0x200a).contains(&code)
}

#[test]
fn white_space_is_what_unicode_says() {
    for code in 0..=0x10ffffu32 {
        if let Some(c) = char::from_u32(code) {
            let text = c.to_string();
            let blank = lists_nothing(ps_reply(true, &text, ""));
            assert_eq!(blank, has_white_space_property(code), "U+{:04X}", code);
        }
    }
}

#[test]
fn unreadable_listing_is_an_error() {
    assert_eq!(
        ps_listing(Err("expected value at line 1 column 1".to_string())).unwrap_err(),
        "failed to parse podman ps output: expected value at line 1 column 1"
    );
    let entry =
        PsEntry { id: "x".to_string(), names: vec!["n".to_string()], state: "running".to_string() };
    let listed = ps_listing(Ok(vec![entry])).unwrap();
    assert_eq!(listed.len(), 1);
    assert_eq!(listed[0].id, "x");
}

#[test]
fn failure_text_comes_only_with_failure() {
    assert_eq!(command_failure(&output(true, b"", b"noise")), None);
    assert_eq!(
        command_failure(&output(false, b"", b" no such container\n")),
        Some("no such container".to_string())
    );
}

#[test]
fn inspect_output_is_read_only_on_success() {
    assert_eq!(inspect_output(Some(output(true, b"[]", b""))).unwrap(), b"[]");
    assert!(matches!(
        inspect_output(Some(output(false, b"[]", b""))),
        Err(InspectReply::Refused)
    ));
    assert!(matches!(inspect_output(None), Err(InspectReply::NotRun)));
}

#[test]
fn healthcheck_of_the_first_container_is_taken() {
    let reply = InspectReply::Inspected(vec![
        inspected(Some(config(&["CMD", "curl"]))),
        inspected(Some(config(&["CMD", "wget"]))),
    ]);
    let found = get_healthcheck(reply).unwrap();
    assert_eq!(found.test, ["CMD", "curl"]);
    assert_eq!(found.interval, 1);
    assert_eq!(found.timeout, 2);
    assert_eq!(found.start_period, 3);
    assert_eq!(found.retries, 4);
}

#[test]
fn disabled_or_missing_healthchecks_are_skipped() {
    let first_none = vec![inspected(None), inspected(Some(config(&["CMD"])))];
    assert!(get_healthcheck(InspectReply::Inspected(first_none)).is_none());
    let off = vec![inspected(Some(config(&["NONE"])))];
    assert!(get_healthcheck(InspectReply::Inspected(off)).is_none());
    let off_with_more = vec![inspected(Some(config(&["NONE", "x"])))];
    assert!(get_healthcheck(InspectReply::Inspected(off_with_more)).is_none());
    assert!(get_healthcheck(InspectReply::Inspected(vec![])).is_none());
    assert!(get_healthcheck(InspectReply::NotRun).is_none());
    assert!(get_healthcheck(InspectReply::Refused).is_none());
    assert!(get_healthcheck(InspectReply::Unreadable).is_none());
}

#[test]
fn empty_test_or_other_words_are_kept() {
    let empty = vec![inspected(Some(config(&[])))];
    assert!(get_healthcheck(InspectReply::Inspected(empty)).is_some());
    let lower = vec![inspected(Some(config(&["none"])))];
    assert!(get_healthcheck(InspectReply::Inspected(lower)).is_some());
    let second = vec![inspected(Some(config(&["CMD", "NONE"])))];
    assert!(get_healthcheck(InspectReply::Inspected(second)).is_some());
}

#[test]
fn only_a_timely_success_passes() {
    assert!(run_healthcheck(&CheckOutcome::Exited { success: true }));
    assert!(!run_healthcheck(&CheckOutcome::Exited { success: false }));
    assert!(!run_healthcheck(&CheckOutcome::ExecFailed));
    assert!(!run_healthcheck(&CheckOutcome::TimedOut));
}
