//! The resilient run coordinator.
//!
//! On every boot the host hands the coordinator the persisted
//! [`RunState`](crate::store::RunState) image and the configuration; the
//! coordinator decides whether to begin an unattended run, resume one that a
//! mid-run reset interrupted, or prompt the operator for a selection.  A
//! faulting test never returns control within its power cycle, so the only
//! continuation mechanism across tests is the persisted store: each step
//! persists the next index *before* the test body runs.
//!
//! The coordinator also owns the panic/fault bridge: the one flag shared
//! with the fault handler, armed immediately before a test body runs, which
//! classifies a fault as an expected panic or a genuine failure.

use crate::registry::Registry;
use crate::store::RunState;
use crate::store::SENTINEL_MAGIC;
use vstd::prelude::*;

verus! {

/// The recorded result of one executed test.
#[derive(Clone, Copy, PartialEq, Eq, Structural, Debug)]
pub enum TestOutcome {
    /// The test behaved as declared: it returned normally, or it was a
    /// should-panic test and panicked.
    Passed,
    /// A should-panic test returned normally.
    FailedDidNotPanic,
    /// A test that was not expected to panic faulted.
    FailedFault,
}

/// How a test's declared expectation and its actual behaviour combine: a
/// test passes iff it panicked exactly when it was expected to.
pub open spec fn spec_outcome(expect_panic: bool, panicked: bool) -> TestOutcome {
    if expect_panic == panicked {
        TestOutcome::Passed
    } else if expect_panic {
        TestOutcome::FailedDidNotPanic
    } else {
        TestOutcome::FailedFault
    }
}

/// Whether an outcome counts towards the success counter.
pub open spec fn spec_is_success(o: TestOutcome) -> bool {
    o is Passed
}

/// Law: the four combinations of expectation and behaviour classify as the
/// design demands — a should-panic test that panics is a success, one that
/// returns normally is the "did not panic" failure, an unexpected fault is
/// a failure, and a plain normal return is a success.
pub proof fn lemma_outcome_classification(expect_panic: bool, panicked: bool)
    ensures
        expect_panic && panicked ==> spec_outcome(expect_panic, panicked) is Passed,
        expect_panic && !panicked ==> spec_outcome(expect_panic, panicked) is FailedDidNotPanic,
        !expect_panic && panicked ==> spec_outcome(expect_panic, panicked) is FailedFault,
        !expect_panic && !panicked ==> spec_outcome(expect_panic, panicked) is Passed,
{
}

/// The ephemeral flag shared between the coordinator and the fault handler.
///
/// It lives in ordinarily-initialized memory, so it resets on every power
/// cycle; it is armed immediately before a test body runs and read only if
/// that body faults.
pub struct PanicBridge {
    /// Whether the test now running is expected to panic.
    pub should_panic: bool,
}

impl PanicBridge {
    /// The flag at boot: no test is running, no panic is expected.
    pub fn new() -> (r: PanicBridge)
        ensures
            r.should_panic == false,
    {
        PanicBridge { should_panic: false }
    }

    /// Arms the flag with the running test's expectation.  The host must do
    /// this before invoking the test body, so the fault handler sees it.
    pub fn arm(&mut self, expect_panic: bool)
        ensures
            final(self).should_panic == expect_panic,
    {
        self.should_panic = expect_panic;
    }

    /// Classifies a test body that returned normally.
    pub fn classify_return(&self) -> (o: TestOutcome)
        ensures
            o == spec_outcome(self.should_panic, false),
    {
        if self.should_panic {
            TestOutcome::FailedDidNotPanic
        } else {
            TestOutcome::Passed
        }
    }

    /// Classifies a fault seized by the fault handler while the armed test
    /// body was running.
    pub fn classify_fault(&self) -> (o: TestOutcome)
        ensures
            o == spec_outcome(self.should_panic, true),
    {
        if self.should_panic {
            TestOutcome::Passed
        } else {
            TestOutcome::FailedFault
        }
    }
}

/// The coordinator's states.  `Idle` is the instant before the entry logic
/// runs; `Completed` is terminal: nothing progresses further without an
/// operator or an external restart.
#[derive(Clone, Copy, PartialEq, Eq, Structural, Debug)]
pub enum Phase {
    /// Before the entry logic has consulted the persisted store.
    Idle,
    /// Awaiting an operator selection.
    InteractiveMenu,
    /// Running the one selected test, with no automatic progression.
    RunningSingle(u8),
    /// Running every test in order, resuming across resets.
    RunningAll,
    /// The unattended run printed its summary and released the store.
    Completed,
}

/// What the entry logic decided to do on this boot.
#[derive(Clone, Copy, PartialEq, Eq, Structural, Debug)]
pub enum BootDecision {
    /// No run is active and unattended-by-default is configured: initiate an
    /// unattended run, then step it.
    BeginUnattended,
    /// No run is active: show the menu and await a selection.  No test runs
    /// before a valid selection is obtained.
    PromptUser,
    /// A run is already active (this boot resumes after a reset): step it
    /// without re-initiating.
    ResumeUnattended,
}

/// The state each decision transitions to.
pub open spec fn spec_phase_of(d: BootDecision) -> Phase {
    match d {
        BootDecision::BeginUnattended => Phase::RunningAll,
        BootDecision::PromptUser => Phase::InteractiveMenu,
        BootDecision::ResumeUnattended => Phase::RunningAll,
    }
}

/// The entry logic of every boot, as a function of the persisted store and
/// the configuration.
pub open spec fn spec_entry_decision(s: RunState, autorun: bool) -> BootDecision {
    if autorun && !s.active() {
        BootDecision::BeginUnattended
    } else if !s.active() {
        BootDecision::PromptUser
    } else {
        BootDecision::ResumeUnattended
    }
}

/// Consults the persisted store and decides how this boot proceeds.
///
/// A sentinel that does not hold the magic constant — including whatever a
/// cold power-on left in the region — reads as "no active run", so with
/// unattended-by-default disabled the system falls back to the interactive
/// menu no matter what the stale counters hold.
pub fn entry_decision(store: &RunState, autorun: bool) -> (d: BootDecision)
    ensures
        d == spec_entry_decision(*store, autorun),
        !autorun && store.sentinel != SENTINEL_MAGIC ==> d == BootDecision::PromptUser
            && spec_phase_of(d) == Phase::InteractiveMenu,
        store.active() ==> d == BootDecision::ResumeUnattended && spec_phase_of(d)
            == Phase::RunningAll,
{
    if autorun && !store.is_active() {
        BootDecision::BeginUnattended
    } else if !store.is_active() {
        BootDecision::PromptUser
    } else {
        BootDecision::ResumeUnattended
    }
}

/// The store image every freshly initiated unattended run starts from:
/// sentinel set, next test 0, no successes yet.
pub open spec fn spec_started_store() -> RunState {
    RunState { sentinel: SENTINEL_MAGIC, next_index: 0, success_count: 0 }
}

/// Initiates an unattended run: marks the store active (which resets the
/// success counter) and rewinds the next-test index to 0.
pub fn initiate_run_all(store: &mut RunState)
    ensures
        *final(store) == spec_started_store(),
{
    store.activate();
    store.set_next_test(0);
}

/// What an operator selection does: 255 initiates the unattended sequence,
/// any other value selects that single test and leaves the store alone.
pub open spec fn spec_apply_selection(s: RunState, selection: u8) -> (Phase, RunState) {
    if selection == 255 {
        (Phase::RunningAll, spec_started_store())
    } else {
        (Phase::RunningSingle(selection), s)
    }
}

/// Applies a valid operator selection to the store.
pub fn apply_selection(store: &mut RunState, selection: u8) -> (p: Phase)
    ensures
        (p, *final(store)) == spec_apply_selection(*old(store), selection),
{
    if selection == 255 {
        initiate_run_all(store);
        Phase::RunningAll
    } else {
        Phase::RunningSingle(selection)
    }
}

/// Law: the selection 255 is interpreted without consulting the registry, so
/// it is accepted whatever the number of tests, and it leaves the store in
/// exactly the image that an unattended-by-default boot produces — from
/// there the two paths are one and the same stepping sequence.
pub proof fn lemma_select_all_matches_autorun(s: RunState)
    ensures
        spec_apply_selection(s, 255).0 == Phase::RunningAll,
        spec_apply_selection(s, 255).1 == spec_started_store(),
{
}

/// The one-line summary of a completed unattended run over `n` tests:
/// "ok" iff every test succeeded, and the failure count is exactly the
/// remainder, so passed and failed always sum to `n`.
pub open spec fn spec_summary(n: u8, successes: u8) -> Summary {
    Summary { ok: successes == n, passed: successes, failed: (n - successes) as u8 }
}

/// The final accounting of an unattended run.
#[derive(Clone, Copy, PartialEq, Eq, Structural, Debug)]
pub struct Summary {
    /// True iff every registered test succeeded.
    pub ok: bool,
    /// Number of tests that succeeded.
    pub passed: u8,
    /// Number of tests that failed.
    pub failed: u8,
}

/// What one step of the unattended run asks the host to do.
#[derive(Clone, Copy, PartialEq, Eq, Structural, Debug)]
pub enum StepAction {
    /// Run this test (set up, execute through the bridge, tear down).  The
    /// store already points past it, so a reset resumes at the next one.
    RunTest(u8),
    /// All tests have run: the summary is final and the store is released.
    Finished(Summary),
}

/// One step of the `RunningAll` state over `n` registered tests.
///
/// While tests remain, the next index is persisted *before* the test runs:
/// if the test faults and the teardown resets the device, the next boot
/// resumes exactly one test further.  Once no test remains, the summary is
/// computed, the store is deactivated, and the run is complete.
pub fn step_run_all(store: &mut RunState, n: u8) -> (a: StepAction)
    requires
        old(store).active(),
        old(store).success_count <= n,
    ensures
        old(store).next_index < n ==> {
            &&& a == StepAction::RunTest(old(store).next_index)
            &&& final(store).next_index == old(store).next_index + 1
            &&& final(store).sentinel == old(store).sentinel
            &&& final(store).success_count == old(store).success_count
            &&& final(store).active()
        },
        old(store).next_index >= n ==> {
            &&& a == StepAction::Finished(spec_summary(n, old(store).success_count))
            &&& !final(store).active()
            &&& final(store).next_index == old(store).next_index
            &&& final(store).success_count == old(store).success_count
        },
        old(store).wf(n as int) ==> final(store).wf(n as int),
{
    let next = store.get_next_test();
    if next < n {
        store.set_next_test(next + 1);
        StepAction::RunTest(next)
    } else {
        let successes = store.get_success_count();
        let summary = Summary { ok: successes == n, passed: successes, failed: n - successes };
        store.deactivate();
        StepAction::Finished(summary)
    }
}

/// Records one classified outcome in the persisted store: the success
/// counter grows exactly on a pass.
pub fn record_outcome(store: &mut RunState, outcome: TestOutcome)
    requires
        old(store).success_count < 255,
    ensures
        spec_is_success(outcome) ==> final(store).success_count == old(store).success_count + 1,
        !spec_is_success(outcome) ==> final(store).success_count == old(store).success_count,
        final(store).sentinel == old(store).sentinel,
        final(store).next_index == old(store).next_index,
        old(store).success_count < old(store).next_index
            ==> final(store).success_count <= final(store).next_index,
{
    match outcome {
        TestOutcome::Passed => store.test_succeeded(),
        _ => (),
    }
}

/// Runs the one selected test in interactive mode: arm the bridge, let the
/// body behave as `panicked` reports, classify, and record.  There is no
/// automatic progression afterwards.  A selection beyond the registry is a
/// silent no-op, mirroring the menu's tolerance of a stray index.
pub fn run_single(
    reg: &Registry,
    store: &mut RunState,
    bridge: &mut PanicBridge,
    index: u8,
    panicked: bool,
) -> (r: Option<TestOutcome>)
    requires
        reg.wf(),
        old(store).success_count < 255,
    ensures
        (index as int) < reg.tests@.len() ==> {
            &&& r == Some(spec_outcome(reg.spec_expect_panic(index as int), panicked))
            &&& final(bridge).should_panic == reg.spec_expect_panic(index as int)
            &&& spec_is_success(spec_outcome(reg.spec_expect_panic(index as int), panicked))
                ==> final(store).success_count == old(store).success_count + 1
            &&& !spec_is_success(spec_outcome(reg.spec_expect_panic(index as int), panicked))
                ==> final(store).success_count == old(store).success_count
        },
        (index as int) >= reg.tests@.len() ==> {
            &&& r is None
            &&& *final(store) == *old(store)
            &&& *final(bridge) == *old(bridge)
        },
        final(store).sentinel == old(store).sentinel,
        final(store).next_index == old(store).next_index,
{
    if index < reg.len() {
        let expect = reg.get(index).expect_panic;
        bridge.arm(expect);
        let outcome = if panicked {
            bridge.classify_fault()
        } else {
            bridge.classify_return()
        };
        record_outcome(store, outcome);
        Some(outcome)
    } else {
        None
    }
}

/// How many of the tests `from..to` succeed, given the declared
/// expectations and the actual behaviours: test `i` succeeds iff
/// `expects[i] == panics[i]`.
pub open spec fn spec_successes(expects: Seq<bool>, panics: Seq<bool>, from: int, to: int) -> int
    decreases to - from,
{
    if to <= from {
        0
    } else {
        spec_successes(expects, panics, from, to - 1) + if spec_is_success(
            spec_outcome(expects[to - 1], panics[to - 1]),
        ) {
            1int
        } else {
            0int
        }
    }
}

/// Everything an unattended run reports: the outcome of each test it
/// executed, in order, and the final summary line's data.
#[derive(Debug)]
pub struct RunReport {
    /// Outcomes of the tests this run executed, first resumed test first.
    pub outcomes: Vec<TestOutcome>,
    /// The final accounting, printed once after the last test.
    pub summary: Summary,
}

/// Drives an active unattended run to completion.
///
/// Each registered test is one boot cycle: the step persists the next index,
/// the bridge is armed, the body runs — `behaviors[i]` says whether body `i`
/// faults — and the outcome is recorded before the teardown resets the
/// device.  Entered with `next_index == k`, the run executes exactly the
/// tests `k..n`, never re-running an earlier one, and the resumption itself
/// leaves the success counter untouched: only recorded passes grow it.  The
/// summary always accounts for every registered test — passed and failed sum
/// to `n` — and reads "ok" iff every one of them passed.
pub fn run_to_completion(
    reg: &Registry,
    store: &mut RunState,
    bridge: &mut PanicBridge,
    behaviors: &Vec<bool>,
) -> (r: RunReport)
    requires
        reg.wf(),
        behaviors@.len() == reg.tests@.len(),
        old(store).active(),
        old(store).success_count <= old(store).next_index,
        old(store).next_index <= reg.tests@.len(),
    ensures
        !final(store).active(),
        r.outcomes@.len() == reg.tests@.len() - old(store).next_index,
        forall|j: int|
            0 <= j < r.outcomes@.len() ==> r.outcomes@[j] == spec_outcome(
                reg.spec_expects()[old(store).next_index + j],
                behaviors@[old(store).next_index + j],
            ),
        r.summary.passed as int == old(store).success_count + spec_successes(
            reg.spec_expects(),
            behaviors@,
            old(store).next_index as int,
            reg.tests@.len() as int,
        ),
        r.summary.passed as int + r.summary.failed as int == reg.tests@.len(),
        r.summary.ok == (r.summary.passed as int == reg.tests@.len()),
        final(store).next_index as int == reg.tests@.len(),
{
    let n = reg.len();
    let ghost k = old(store).next_index as int;
    let ghost s0 = old(store).success_count as int;
    let mut outcomes: Vec<TestOutcome> = Vec::new();
    let mut next = store.get_next_test();
    while next < n
        invariant
            reg.wf(),
            behaviors@.len() == reg.tests@.len(),
            n as int == reg.tests@.len(),
            store.active(),
            next == store.next_index,
            k <= store.next_index as int <= n as int,
            store.success_count as int <= store.next_index as int,
            store.success_count as int == s0 + spec_successes(
                reg.spec_expects(),
                behaviors@,
                k,
                store.next_index as int,
            ),
            outcomes@.len() == store.next_index as int - k,
            forall|j: int|
                0 <= j < outcomes@.len() ==> outcomes@[j] == spec_outcome(
                    reg.spec_expects()[k + j],
                    behaviors@[k + j],
                ),
        decreases n as int - next as int,
    {
        let a = step_run_all(store, n);
        match a {
            StepAction::RunTest(i) => {
                let expect = reg.get(i).expect_panic;
                bridge.arm(expect);
                let outcome = if behaviors[i as usize] {
                    bridge.classify_fault()
                } else {
                    bridge.classify_return()
                };
                record_outcome(store, outcome);
                outcomes.push(outcome);
            },
            StepAction::Finished(_) => {
                proof {
                    assert(false);
                }
            },
        }
        next = store.get_next_test();
    }
    let a = step_run_all(store, n);
    match a {
        StepAction::Finished(summary) => RunReport { outcomes, summary },
        StepAction::RunTest(_) => vstd::pervasive::unreached(),
    }
}

} // verus!
