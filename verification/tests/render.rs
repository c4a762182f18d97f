use bern_test::coordinator::{initiate_run_all, run_to_completion, PanicBridge, Summary};
use bern_test::coordinator::TestOutcome;
use bern_test::registry::Registry;
use bern_test::render::{
    render_did_not_panic, render_header, render_menu, render_menu_entry, render_prompt,
    render_run_all_entry, render_running_banner, render_summary, render_test_line,
};
use bern_test::store::RunState;
use bern_test::{get_version, is_autorun_enabled, Config};

#[test]
fn decimal_rendering_is_exact() {
    // the banner carries the bare decimal, at every digit-count boundary
    assert_eq!(render_running_banner(0), b"running 0 tests".to_vec());
    assert_eq!(render_running_banner(9), b"running 9 tests".to_vec());
    assert_eq!(render_running_banner(10), b"running 10 tests".to_vec());
    assert_eq!(render_running_banner(99), b"running 99 tests".to_vec());
    assert_eq!(render_running_banner(100), b"running 100 tests".to_vec());
    assert_eq!(render_running_banner(255), b"running 255 tests".to_vec());
}

#[test]
fn menu_lines_are_exact() {
    assert_eq!(
        render_menu_entry(&b"m".to_vec(), &b"some_test".to_vec(), 0),
        b"[0] m::some_test".to_vec()
    );
    assert_eq!(render_run_all_entry(), b"[255] run all tests".to_vec());
    assert_eq!(render_prompt(3), b"Select test [0..2]:".to_vec());
}

#[test]
fn whole_menu_lists_every_test_then_run_all_then_prompt() {
    let mut reg = Registry::new(b"m".to_vec());
    reg.add(b"a".to_vec(), false).unwrap();
    reg.add(b"b".to_vec(), true).unwrap();
    let lines = render_menu(&reg);
    assert_eq!(lines.len(), 4);
    assert_eq!(lines[0], b"[0] m::a".to_vec());
    assert_eq!(lines[1], b"[1] m::b".to_vec());
    assert_eq!(lines[2], b"[255] run all tests".to_vec());
    assert_eq!(lines[3], b"Select test [0..1]:".to_vec());
}

#[test]
fn summary_lines_are_exact() {
    let failed = Summary { ok: false, passed: 2, failed: 1 };
    assert_eq!(
        render_summary(&failed),
        b"test result: FAILED. 2 passed; 1 failed".to_vec()
    );
    let ok = Summary { ok: true, passed: 12, failed: 0 };
    assert_eq!(
        render_summary(&ok),
        b"test result: ok. 12 passed; 0 failed".to_vec()
    );
}

#[test]
fn failure_reason_line_is_exact() {
    assert_eq!(render_did_not_panic(), b"did not panic".to_vec());
}

#[test]
fn header_carries_the_version() {
    assert_eq!(
        render_header(get_version()),
        b"~~~~~~~~~~~~~~ Bern Test v0.1.0 ~~~~~~~~~~~~~~".to_vec()
    );
}

#[test]
fn autorun_switch_is_read_from_the_configuration() {
    assert!(is_autorun_enabled(&Config { autorun: true }));
    assert!(!is_autorun_enabled(&Config { autorun: false }));
}

#[test]
fn example_run_prints_the_expected_transcript() {
    // three tests: a passes, b should panic and does, c faults unexpectedly
    let mut reg = Registry::new(b"m".to_vec());
    reg.add(b"a".to_vec(), false).unwrap();
    reg.add(b"b".to_vec(), true).unwrap();
    reg.add(b"c".to_vec(), false).unwrap();
    let behaviors = vec![false, true, true];

    let mut store = RunState { sentinel: 0, next_index: 0, success_count: 0 };
    initiate_run_all(&mut store);
    let mut bridge = PanicBridge::new();
    let report = run_to_completion(&reg, &mut store, &mut bridge, &behaviors);

    let mut transcript: Vec<Vec<u8>> = Vec::new();
    for (i, outcome) in report.outcomes.iter().enumerate() {
        transcript.push(render_test_line(&reg.module, &reg.get(i as u8).name, *outcome));
    }
    transcript.push(render_summary(&report.summary));

    assert_eq!(
        transcript,
        vec![
            b"test m::a ... ok".to_vec(),
            b"test m::b ... ok".to_vec(),
            b"test m::c ... FAILED".to_vec(),
            b"test result: FAILED. 2 passed; 1 failed".to_vec(),
        ]
    );
}

#[test]
fn failed_outcome_token_is_failed_for_both_failure_kinds() {
    let module = b"m".to_vec();
    let name = b"t".to_vec();
    assert_eq!(
        render_test_line(&module, &name, TestOutcome::FailedDidNotPanic),
        b"test m::t ... FAILED".to_vec()
    );
    assert_eq!(
        render_test_line(&module, &name, TestOutcome::FailedFault),
        b"test m::t ... FAILED".to_vec()
    );
    assert_eq!(
        render_test_line(&module, &name, TestOutcome::Passed),
        b"test m::t ... ok".to_vec()
    );
}
