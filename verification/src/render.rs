//! Console protocol lines.
//!
//! The harness talks to the operator over a byte channel; this module builds
//! each protocol line as the exact byte sequence its contract states: the
//! menu entries, the "run all" entry and the selection prompt, the unattended
//! banner, the per-test line, the diagnostics, and the one-line summary.
//! ANSI colouring of the ok/FAILED tokens is the host's affair and is layered
//! on outside the library.

use crate::console::Diagnostic;
use crate::coordinator::Summary;
use crate::coordinator::TestOutcome;
use crate::registry::Registry;
use vstd::prelude::*;
use vstd::string::StringSliceAdditionalSpecFns;

verus! {

/// The ASCII decimal rendering of `n`, for `0 <= n <= 255`: no leading
/// zeros, one to three digits.
pub open spec fn spec_decimal(n: int) -> Seq<u8> {
    if n < 10 {
        seq![(48 + n) as u8]
    } else if n < 100 {
        seq![(48 + n / 10) as u8, (48 + n % 10) as u8]
    } else {
        seq![(48 + n / 100) as u8, (48 + (n / 10) % 10) as u8, (48 + n % 10) as u8]
    }
}

/// Appends the UTF-8 bytes of `s`.
fn append_str(out: &mut Vec<u8>, s: &str)
    ensures
        final(out)@ == old(out)@ + s.spec_bytes(),
{
    out.extend_from_slice(s.as_bytes());
    proof {
        assert(out@ =~= old(out)@ + s.spec_bytes());
    }
}

/// Appends the bytes of `more`.
fn append_bytes(out: &mut Vec<u8>, more: &Vec<u8>)
    ensures
        final(out)@ == old(out)@ + more@,
{
    out.extend_from_slice(more.as_slice());
    proof {
        assert(out@ =~= old(out)@ + more@);
    }
}

/// Appends the decimal rendering of `v`.
fn append_decimal(out: &mut Vec<u8>, v: u8)
    ensures
        final(out)@ == old(out)@ + spec_decimal(v as int),
{
    if v >= 100 {
        out.push(48 + v / 100);
        out.push(48 + (v / 10) % 10);
        out.push(48 + v % 10);
    } else if v >= 10 {
        out.push(48 + v / 10);
        out.push(48 + v % 10);
    } else {
        out.push(48 + v);
    }
    proof {
        assert(out@ =~= old(out)@ + spec_decimal(v as int));
    }
}

/// The menu entry of test `index`: `[<index>] <module>::<name>`.
pub open spec fn spec_menu_line(module: Seq<u8>, name: Seq<u8>, index: int) -> Seq<u8> {
    ("[").spec_bytes() + spec_decimal(index) + ("] ").spec_bytes() + module + ("::").spec_bytes()
        + name
}

/// The menu entry offering to run everything: `[255] run all tests`.
pub open spec fn spec_run_all_line() -> Seq<u8> {
    ("[255] run all tests").spec_bytes()
}

/// The selection prompt for `n` tests: `Select test [0..<n-1>]:`.
pub open spec fn spec_prompt_line(n: int) -> Seq<u8> {
    ("Select test [0..").spec_bytes() + spec_decimal(n - 1) + ("]:").spec_bytes()
}

/// The banner an unattended run starts with: `running <n> tests`.
pub open spec fn spec_running_banner(n: int) -> Seq<u8> {
    ("running ").spec_bytes() + spec_decimal(n) + (" tests").spec_bytes()
}

/// The status token a recorded outcome prints.
pub open spec fn spec_outcome_token(outcome: TestOutcome) -> Seq<u8> {
    if outcome is Passed {
        ("ok").spec_bytes()
    } else {
        ("FAILED").spec_bytes()
    }
}

/// The logical per-test line: `test <module>::<name> ... ` followed by the
/// outcome token.  The prefix prints before the body runs; the token lands
/// on the same logical line from whichever path concluded the test.
pub open spec fn spec_test_line(module: Seq<u8>, name: Seq<u8>, outcome: TestOutcome) -> Seq<u8> {
    ("test ").spec_bytes() + module + ("::").spec_bytes() + name + (" ... ").spec_bytes()
        + spec_outcome_token(outcome)
}

/// The reason line printed under a should-panic test that returned
/// normally.
pub open spec fn spec_did_not_panic_line() -> Seq<u8> {
    ("did not panic").spec_bytes()
}

/// The summary of a completed unattended run:
/// `test result: <ok|FAILED>. <passed> passed; <failed> failed`.
pub open spec fn spec_summary_line(s: Summary) -> Seq<u8> {
    ("test result: ").spec_bytes() + (if s.ok {
        ("ok").spec_bytes()
    } else {
        ("FAILED").spec_bytes()
    }) + (". ").spec_bytes() + spec_decimal(s.passed as int) + (" passed; ").spec_bytes()
        + spec_decimal(s.failed as int) + (" failed").spec_bytes()
}

/// Renders one test's menu entry.
pub fn render_menu_entry(module: &Vec<u8>, name: &Vec<u8>, index: u8) -> (r: Vec<u8>)
    ensures
        r@ == spec_menu_line(module@, name@, index as int),
{
    let mut out: Vec<u8> = Vec::new();
    append_str(&mut out, "[");
    append_decimal(&mut out, index);
    append_str(&mut out, "] ");
    append_bytes(&mut out, module);
    append_str(&mut out, "::");
    append_bytes(&mut out, name);
    proof {
        assert(out@ =~= spec_menu_line(module@, name@, index as int));
    }
    out
}

/// Renders the `[255] run all tests` entry.
pub fn render_run_all_entry() -> (r: Vec<u8>)
    ensures
        r@ == spec_run_all_line(),
{
    let mut out: Vec<u8> = Vec::new();
    append_str(&mut out, "[255] run all tests");
    proof {
        assert(out@ =~= spec_run_all_line());
    }
    out
}

/// Renders the selection prompt.  At least one test must be registered; the
/// prompt names the index range `0..n-1`.
pub fn render_prompt(n: u8) -> (r: Vec<u8>)
    requires
        n >= 1,
    ensures
        r@ == spec_prompt_line(n as int),
{
    let mut out: Vec<u8> = Vec::new();
    append_str(&mut out, "Select test [0..");
    append_decimal(&mut out, n - 1);
    append_str(&mut out, "]:");
    proof {
        assert(out@ =~= spec_prompt_line(n as int));
    }
    out
}

/// Renders the whole interactive menu: one entry per registered test, then
/// the "run all" entry, then the prompt.
pub fn render_menu(reg: &Registry) -> (lines: Vec<Vec<u8>>)
    requires
        reg.wf(),
        reg.tests@.len() >= 1,
    ensures
        lines@.len() == reg.tests@.len() + 2,
        forall|j: int|
            0 <= j < reg.tests@.len() ==> lines@[j]@ == spec_menu_line(
                reg.module@,
                reg.tests@[j].name@,
                j,
            ),
        lines@[reg.tests@.len() as int]@ == spec_run_all_line(),
        lines@[reg.tests@.len() as int + 1]@ == spec_prompt_line(reg.tests@.len() as int),
{
    let n = reg.len();
    let mut lines: Vec<Vec<u8>> = Vec::new();
    let mut i: u8 = 0;
    while i < n
        invariant
            reg.wf(),
            n as int == reg.tests@.len(),
            0 <= i <= n,
            lines@.len() == i as int,
            forall|j: int|
                0 <= j < i as int ==> lines@[j]@ == spec_menu_line(
                    reg.module@,
                    reg.tests@[j].name@,
                    j,
                ),
        decreases n as int - i as int,
    {
        let entry = render_menu_entry(&reg.module, &reg.get(i).name, i);
        lines.push(entry);
        i = i + 1;
    }
    lines.push(render_run_all_entry());
    lines.push(render_prompt(n));
    lines
}

/// Renders the banner an unattended run starts with.
pub fn render_running_banner(n: u8) -> (r: Vec<u8>)
    ensures
        r@ == spec_running_banner(n as int),
{
    let mut out: Vec<u8> = Vec::new();
    append_str(&mut out, "running ");
    append_decimal(&mut out, n);
    append_str(&mut out, " tests");
    proof {
        assert(out@ =~= spec_running_banner(n as int));
    }
    out
}

/// Renders the logical per-test line for a recorded outcome.
pub fn render_test_line(module: &Vec<u8>, name: &Vec<u8>, outcome: TestOutcome) -> (r: Vec<u8>)
    ensures
        r@ == spec_test_line(module@, name@, outcome),
{
    let mut out: Vec<u8> = Vec::new();
    append_str(&mut out, "test ");
    append_bytes(&mut out, module);
    append_str(&mut out, "::");
    append_bytes(&mut out, name);
    append_str(&mut out, " ... ");
    match outcome {
        TestOutcome::Passed => append_str(&mut out, "ok"),
        _ => append_str(&mut out, "FAILED"),
    }
    proof {
        assert(out@ =~= spec_test_line(module@, name@, outcome));
    }
    out
}

/// Renders the reason line of a should-panic test that returned normally.
pub fn render_did_not_panic() -> (r: Vec<u8>)
    ensures
        r@ == spec_did_not_panic_line(),
{
    let mut out: Vec<u8> = Vec::new();
    append_str(&mut out, "did not panic");
    proof {
        assert(out@ =~= spec_did_not_panic_line());
    }
    out
}

/// The exact diagnostic line of each console failure.
pub open spec fn spec_diagnostic_line(d: Diagnostic) -> Seq<u8> {
    match d {
        Diagnostic::CouldNotParse => ("Error: Could not parse test index").spec_bytes(),
        Diagnostic::RxOverflow => ("Error: Serial RX buffer overflow").spec_bytes(),
        Diagnostic::NoDownlink => ("Error: No serial downlink provided").spec_bytes(),
        Diagnostic::UnknownSerial => ("Error: Unknown serial error").spec_bytes(),
    }
}

/// Renders the one diagnostic line a console failure produces.
pub fn render_diagnostic(d: Diagnostic) -> (r: Vec<u8>)
    ensures
        r@ == spec_diagnostic_line(d),
{
    let mut out: Vec<u8> = Vec::new();
    match d {
        Diagnostic::CouldNotParse => append_str(&mut out, "Error: Could not parse test index"),
        Diagnostic::RxOverflow => append_str(&mut out, "Error: Serial RX buffer overflow"),
        Diagnostic::NoDownlink => append_str(&mut out, "Error: No serial downlink provided"),
        Diagnostic::UnknownSerial => append_str(&mut out, "Error: Unknown serial error"),
    }
    proof {
        assert(out@ =~= spec_diagnostic_line(d));
    }
    out
}

/// Renders the one-line summary of a completed unattended run.
pub fn render_summary(s: &Summary) -> (r: Vec<u8>)
    ensures
        r@ == spec_summary_line(*s),
{
    let mut out: Vec<u8> = Vec::new();
    append_str(&mut out, "test result: ");
    if s.ok {
        append_str(&mut out, "ok");
    } else {
        append_str(&mut out, "FAILED");
    }
    append_str(&mut out, ". ");
    append_decimal(&mut out, s.passed);
    append_str(&mut out, " passed; ");
    append_decimal(&mut out, s.failed);
    append_str(&mut out, " failed");
    proof {
        assert(out@ =~= spec_summary_line(*s));
    }
    out
}

/// The console header banner, with the harness version in the middle.
pub open spec fn spec_header_line(version: Seq<char>) -> Seq<u8> {
    ("~~~~~~~~~~~~~~ Bern Test v").spec_bytes() + vstd::utf8::encode_utf8(version) + (
    " ~~~~~~~~~~~~~~").spec_bytes()
}

/// Renders the console header banner.
pub fn render_header(version: &str) -> (r: Vec<u8>)
    ensures
        r@ == spec_header_line(version@),
{
    let mut out: Vec<u8> = Vec::new();
    append_str(&mut out, "~~~~~~~~~~~~~~ Bern Test v");
    append_str(&mut out, version);
    append_str(&mut out, " ~~~~~~~~~~~~~~");
    proof {
        assert(out@ =~= spec_header_line(version@));
    }
    out
}

} // verus!
