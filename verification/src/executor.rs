//! The decision core of script execution.
//!
//! A live session executes one protocol command at a time and reports what
//! happened; everything that can be decided without the browser is here and
//! verified: which methods have a handler, what one step records, and how a
//! whole run folds outcomes into a report — strictly in order, stopping at
//! the first failure.  The session loop itself lives with the I/O layer and
//! feeds this module one outcome per attempted command.

use vstd::prelude::*;

use crate::json::{jv, JsonV, JsonValue};
use crate::script::{
    opt_view, structurally_valid, CdpScript, CommandResult, CommandStatus, CommandV,
    ExecutionReport, ReportV, ResultV,
};
use crate::strutil::str_eq;

verus! {

/// What one attempted command produced: a response (and perhaps a saved
/// file), or an error message.
#[derive(Debug)]
pub enum StepOutcome {
    Success { response: JsonValue, saved_file: Option<String> },
    Failure { error: String },
}

/// Mathematical view of an outcome.
pub enum OutcomeV {
    Success { response: JsonV, saved_file: Option<Seq<char>> },
    Failure { error: Seq<char> },
}

impl View for StepOutcome {
    type V = OutcomeV;

    open spec fn view(&self) -> OutcomeV {
        match self {
            StepOutcome::Success { response, saved_file } => OutcomeV::Success {
                response: jv(*response),
                saved_file: opt_view(*saved_file),
            },
            StepOutcome::Failure { error } => OutcomeV::Failure { error: error@ },
        }
    }
}

/// Spec views of a sequence of timed outcomes.
pub open spec fn outs_view(s: Seq<(StepOutcome, u64)>) -> Seq<(OutcomeV, int)> {
    Seq::new(
        s.len(),
        |i: int|
            if 0 <= i < s.len() {
                (s[i].0@, s[i].1 as int)
            } else {
                (OutcomeV::Failure { error: Seq::empty() }, 0int)
            },
    )
}

/// A run continues only after a success.
pub fn continues_after(outcome: &StepOutcome) -> (r: bool)
    ensures
        r == (outcome@ is Success),
{
    match outcome {
        StepOutcome::Success { .. } => true,
        StepOutcome::Failure { .. } => false,
    }
}

// ===== dispatch =====

/// The typed handler behind each method the executor dispatches.
#[derive(Debug, Clone, Copy, PartialEq, Eq, Structural)]
pub enum HandlerKind {
    PageNavigate,
    PageCaptureScreenshot,
    PageReload,
    PageGoBack,
    PageGoForward,
    RuntimeEvaluate,
    InputInsertText,
    InputDispatchMouseEvent,
    InputDispatchKeyEvent,
    NetworkGetCookies,
    NetworkSetCookie,
    NetworkDeleteCookies,
    EmulationSetGeolocation,
    EmulationSetDeviceMetrics,
}

/// The executor's closed dispatch table: the handler of each method string.
/// This list is maintained separately from the validator's registry and need
/// not agree with it.
pub open spec fn spec_handler_for(m: Seq<char>) -> Option<HandlerKind> {
    if m == "Page.navigate"@ {
        Some(HandlerKind::PageNavigate)
    } else if m == "Page.captureScreenshot"@ {
        Some(HandlerKind::PageCaptureScreenshot)
    } else if m == "Page.reload"@ {
        Some(HandlerKind::PageReload)
    } else if m == "Page.goBack"@ {
        Some(HandlerKind::PageGoBack)
    } else if m == "Page.goForward"@ {
        Some(HandlerKind::PageGoForward)
    } else if m == "Runtime.evaluate"@ {
        Some(HandlerKind::RuntimeEvaluate)
    } else if m == "Input.insertText"@ {
        Some(HandlerKind::InputInsertText)
    } else if m == "Input.dispatchMouseEvent"@ {
        Some(HandlerKind::InputDispatchMouseEvent)
    } else if m == "Input.dispatchKeyEvent"@ {
        Some(HandlerKind::InputDispatchKeyEvent)
    } else if m == "Network.getCookies"@ {
        Some(HandlerKind::NetworkGetCookies)
    } else if m == "Network.setCookie"@ {
        Some(HandlerKind::NetworkSetCookie)
    } else if m == "Network.deleteCookies"@ {
        Some(HandlerKind::NetworkDeleteCookies)
    } else if m == "Emulation.setGeolocationOverride"@ {
        Some(HandlerKind::EmulationSetGeolocation)
    } else if m == "Emulation.setDeviceMetricsOverride"@ {
        Some(HandlerKind::EmulationSetDeviceMetrics)
    } else {
        None
    }
}

/// The handler of `method`, if the executor dispatches it.
pub fn handler_for(method: &str) -> (r: Option<HandlerKind>)
    ensures
        r == spec_handler_for(method@),
{
    if str_eq(method, "Page.navigate") {
        Some(HandlerKind::PageNavigate)
    } else if str_eq(method, "Page.captureScreenshot") {
        Some(HandlerKind::PageCaptureScreenshot)
    } else if str_eq(method, "Page.reload") {
        Some(HandlerKind::PageReload)
    } else if str_eq(method, "Page.goBack") {
        Some(HandlerKind::PageGoBack)
    } else if str_eq(method, "Page.goForward") {
        Some(HandlerKind::PageGoForward)
    } else if str_eq(method, "Runtime.evaluate") {
        Some(HandlerKind::RuntimeEvaluate)
    } else if str_eq(method, "Input.insertText") {
        Some(HandlerKind::InputInsertText)
    } else if str_eq(method, "Input.dispatchMouseEvent") {
        Some(HandlerKind::InputDispatchMouseEvent)
    } else if str_eq(method, "Input.dispatchKeyEvent") {
        Some(HandlerKind::InputDispatchKeyEvent)
    } else if str_eq(method, "Network.getCookies") {
        Some(HandlerKind::NetworkGetCookies)
    } else if str_eq(method, "Network.setCookie") {
        Some(HandlerKind::NetworkSetCookie)
    } else if str_eq(method, "Network.deleteCookies") {
        Some(HandlerKind::NetworkDeleteCookies)
    } else if str_eq(method, "Emulation.setGeolocationOverride") {
        Some(HandlerKind::EmulationSetGeolocation)
    } else if str_eq(method, "Emulation.setDeviceMetricsOverride") {
        Some(HandlerKind::EmulationSetDeviceMetrics)
    } else {
        None
    }
}

/// Whether the executor dispatches `method` at all.
pub fn method_has_handler(method: &str) -> (r: bool)
    ensures
        r == (spec_handler_for(method@) is Some),
{
    handler_for(method).is_some()
}

/// Failure message for a method without a handler.
pub open spec fn spec_unsupported_msg(m: Seq<char>) -> Seq<char> {
    "Unsupported CDP method: "@ + m
}

/// Build the failure message for a method without a handler.
pub fn unsupported_method_error(method: &str) -> (r: String)
    ensures
        r@ == spec_unsupported_msg(method@),
{
    let mut m = String::from_str("Unsupported CDP method: ");
    m.append(method);
    m
}

/// The dispatch table and the validator's registry are maintained
/// separately; this pins down their exact relation.  Every method with a
/// handler is known to the registry, and the registry knows exactly one
/// method more: `Emulation.clearGeolocationOverride` validates but has no
/// handler.
pub proof fn lemma_dispatch_within_registry(m: Seq<char>)
    ensures
        spec_handler_for(m) is Some ==> crate::validation::spec_known_commands().contains(m),
        (crate::validation::spec_known_commands().contains(m) && spec_handler_for(m) is None)
            ==> m == "Emulation.clearGeolocationOverride"@,
{
    let known = crate::validation::spec_known_commands();
    if spec_handler_for(m) is Some {
        if m == "Page.navigate"@ {
            assert(known[0] == m);
        } else if m == "Page.captureScreenshot"@ {
            assert(known[1] == m);
        } else if m == "Page.reload"@ {
            assert(known[2] == m);
        } else if m == "Page.goBack"@ {
            assert(known[3] == m);
        } else if m == "Page.goForward"@ {
            assert(known[4] == m);
        } else if m == "Runtime.evaluate"@ {
            assert(known[5] == m);
        } else if m == "Input.insertText"@ {
            assert(known[6] == m);
        } else if m == "Input.dispatchMouseEvent"@ {
            assert(known[7] == m);
        } else if m == "Input.dispatchKeyEvent"@ {
            assert(known[8] == m);
        } else if m == "Network.getCookies"@ {
            assert(known[9] == m);
        } else if m == "Network.setCookie"@ {
            assert(known[10] == m);
        } else if m == "Network.deleteCookies"@ {
            assert(known[11] == m);
        } else if m == "Emulation.setGeolocationOverride"@ {
            assert(known[12] == m);
        } else {
            assert(known[13] == m);
        }
    }
    if known.contains(m) && spec_handler_for(m) is None {
        let j = choose|j: int| 0 <= j < known.len() && known[j] == m;
        assert(m == known[14]);
    }
}

// ===== one run, as specification =====

/// What step `step` (1-based) records for `method` given its outcome.
pub open spec fn spec_step_result(step: int, method: Seq<char>, o: OutcomeV, dur: int) -> ResultV {
    match o {
        OutcomeV::Success { response, saved_file } => ResultV {
            step,
            method,
            status: CommandStatus::Success,
            duration_ms: dur,
            response: Some(response),
            error: None,
            saved_file,
        },
        OutcomeV::Failure { error } => ResultV {
            step,
            method,
            status: CommandStatus::Failed,
            duration_ms: dur,
            response: None,
            error: Some(error),
            saved_file: None,
        },
    }
}

/// Whether some outcome before index `k` already failed.
pub open spec fn stopped(outs: Seq<(OutcomeV, int)>, k: int) -> bool {
    exists|w: int| 0 <= w < k && outs[w].0 is Failure
}

/// The results after considering the first `k` commands: each is recorded in
/// order until, and including, the first failure; nothing after it.
pub open spec fn spec_results(cmds: Seq<CommandV>, outs: Seq<(OutcomeV, int)>, k: nat) -> Seq<
    ResultV,
>
    decreases k,
{
    if k == 0 {
        Seq::empty()
    } else {
        let pre = spec_results(cmds, outs, (k - 1) as nat);
        if stopped(outs, k - 1) {
            pre
        } else {
            pre.push(spec_step_result(k as int, cmds[k - 1].method, outs[k - 1].0, outs[k - 1].1))
        }
    }
}

/// How many recorded results have status `st`.
pub open spec fn count_status(rs: Seq<ResultV>, st: CommandStatus) -> int
    decreases rs.len(),
{
    if rs.len() == 0 {
        0
    } else {
        (if rs[0].status == st {
            1int
        } else {
            0int
        }) + count_status(rs.drop_first(), st)
    }
}

/// The sum of the recorded durations.
pub open spec fn total_dur(rs: Seq<ResultV>) -> int
    decreases rs.len(),
{
    if rs.len() == 0 {
        0
    } else {
        rs[0].duration_ms + total_dur(rs.drop_first())
    }
}

/// Appending one result counts its status once.
pub proof fn lemma_count_status_push(rs: Seq<ResultV>, r: ResultV, st: CommandStatus)
    ensures
        count_status(rs.push(r), st) == count_status(rs, st) + (
        if r.status == st {
            1int
        } else {
            0int
        }),
    decreases rs.len(),
{
    if rs.len() == 0 {
        assert(rs.push(r).drop_first() =~= Seq::<ResultV>::empty());
        assert(count_status(rs.push(r).drop_first(), st) == 0);
        assert(rs.push(r)[0] == r);
    } else {
        assert(rs.push(r).drop_first() =~= rs.drop_first().push(r));
        lemma_count_status_push(rs.drop_first(), r, st);
        assert(rs.push(r)[0] == rs[0]);
    }
}

/// Appending one result adds its duration once.
pub proof fn lemma_total_dur_push(rs: Seq<ResultV>, r: ResultV)
    ensures
        total_dur(rs.push(r)) == total_dur(rs) + r.duration_ms,
    decreases rs.len(),
{
    if rs.len() == 0 {
        assert(rs.push(r).drop_first() =~= Seq::<ResultV>::empty());
        assert(total_dur(rs.push(r).drop_first()) == 0);
        assert(rs.push(r)[0] == r);
    } else {
        assert(rs.push(r).drop_first() =~= rs.drop_first().push(r));
        lemma_total_dur_push(rs.drop_first(), r);
        assert(rs.push(r)[0] == rs[0]);
    }
}

/// The report after considering the first `k` commands.
pub open spec fn spec_report_at(
    name: Seq<char>,
    cmds: Seq<CommandV>,
    outs: Seq<(OutcomeV, int)>,
    k: nat,
) -> ReportV {
    let rs = spec_results(cmds, outs, k);
    ReportV {
        script_name: name,
        total_commands: cmds.len() as int,
        successful: count_status(rs, CommandStatus::Success),
        failed: count_status(rs, CommandStatus::Failed),
        skipped: count_status(rs, CommandStatus::Skipped),
        total_duration_ms: total_dur(rs),
        results: rs,
    }
}

/// The report of a whole run: one outcome was observed per attempted
/// command, so the fold runs over as many steps as there are outcomes.
pub open spec fn spec_execute(
    name: Seq<char>,
    cmds: Seq<CommandV>,
    outs: Seq<(OutcomeV, int)>,
) -> ReportV {
    spec_report_at(name, cmds, outs, if cmds.len() <= outs.len() {
        cmds.len()
    } else {
        outs.len()
    })
}

/// Once a failure stopped the run, later commands change nothing.
pub proof fn lemma_results_stable(
    cmds: Seq<CommandV>,
    outs: Seq<(OutcomeV, int)>,
    a: nat,
    b: nat,
)
    requires
        a <= b,
        stopped(outs, a as int),
    ensures
        spec_results(cmds, outs, b) == spec_results(cmds, outs, a),
    decreases b - a,
{
    if b > a {
        lemma_results_stable(cmds, outs, a, (b - 1) as nat);
        assert(stopped(outs, b - 1));
    }
}

/// The sum of the first `k` observed durations.
pub open spec fn durs_upto(outs: Seq<(OutcomeV, int)>, k: nat) -> int
    decreases k,
{
    if k == 0 {
        0
    } else {
        durs_upto(outs, (k - 1) as nat) + outs[k - 1].1
    }
}

/// With no failure among the first `k` outcomes, every step is recorded.
pub proof fn lemma_results_len(cmds: Seq<CommandV>, outs: Seq<(OutcomeV, int)>, k: nat)
    requires
        !stopped(outs, k as int),
    ensures
        spec_results(cmds, outs, k).len() == k,
    decreases k,
{
    if k > 0 {
        assert(!stopped(outs, k - 1));
        lemma_results_len(cmds, outs, (k - 1) as nat);
    }
}

/// A status count never exceeds the number of results.
pub proof fn lemma_count_status_le_len(rs: Seq<ResultV>, st: CommandStatus)
    ensures
        0 <= count_status(rs, st) <= rs.len(),
    decreases rs.len(),
{
    if rs.len() > 0 {
        lemma_count_status_le_len(rs.drop_first(), st);
    }
}

/// With no failure among the first `k` outcomes, the recorded time is the
/// sum of the first `k` durations.
pub proof fn lemma_results_durs(cmds: Seq<CommandV>, outs: Seq<(OutcomeV, int)>, k: nat)
    requires
        !stopped(outs, k as int),
    ensures
        total_dur(spec_results(cmds, outs, k)) == durs_upto(outs, k),
    decreases k,
{
    if k > 0 {
        assert(!stopped(outs, k - 1));
        lemma_results_durs(cmds, outs, (k - 1) as nat);
        lemma_total_dur_push(
            spec_results(cmds, outs, (k - 1) as nat),
            spec_step_result(k as int, cmds[k - 1].method, outs[k - 1].0, outs[k - 1].1),
        );
    }
}

/// Partial sums of non-negative durations grow with the prefix.
pub proof fn lemma_durs_mono(outs: Seq<(OutcomeV, int)>, a: nat, b: nat)
    requires
        a <= b,
        forall|j: int| 0 <= j < b ==> #[trigger] outs[j].1 >= 0,
    ensures
        durs_upto(outs, a) <= durs_upto(outs, b),
    decreases b - a,
{
    if b > a {
        lemma_durs_mono(outs, a, (b - 1) as nat);
    }
}

/// Build the report of a run: one observed outcome per attempted command,
/// in order.  Fails, without a report, exactly when the script does not pass
/// structural validation, as a run would.
#[verifier::loop_isolation(false)]
pub fn apply_outcomes(script: &CdpScript, outcomes: &Vec<(StepOutcome, u64)>) -> (r: Result<
    ExecutionReport,
    String,
>)
    requires
        durs_upto(outs_view(outcomes@), outcomes@.len() as nat) <= u64::MAX,
    ensures
        r is Ok <==> structurally_valid(script@),
        r matches Ok(rep) ==> rep@ == spec_execute(
            script@.name,
            script@.commands,
            outs_view(outcomes@),
        ),
        r matches Err(m) ==> Some(m@) == crate::script::spec_structural_error(script@),
{
    match script.validate() {
        Ok(()) => {},
        Err(m) => {
            return Err(m);
        },
    }
    let n: usize = if script.cdp_commands.len() <= outcomes.len() {
        script.cdp_commands.len()
    } else {
        outcomes.len()
    };
    let mut report = ExecutionReport::new(script.name.clone(), script.cdp_commands.len());
    let ghost cmds = script@.commands;
    let ghost outs = outs_view(outcomes@);
    proof {
        assert(spec_results(cmds, outs, 0) =~= Seq::<ResultV>::empty());
        assert(count_status(spec_results(cmds, outs, 0), CommandStatus::Success) == 0);
        assert(count_status(spec_results(cmds, outs, 0), CommandStatus::Failed) == 0);
        assert(count_status(spec_results(cmds, outs, 0), CommandStatus::Skipped) == 0);
        assert(total_dur(spec_results(cmds, outs, 0)) == 0);
        assert(report@.results =~= spec_report_at(script@.name, cmds, outs, 0).results);
        assert(report@ == spec_report_at(script@.name, cmds, outs, 0));
    }
    let mut i: usize = 0;
    while i < n
        invariant
            i <= n,
            report@ == spec_report_at(script@.name, cmds, outs, i as nat),
            !stopped(outs, i as int),
        decreases n - i,
    {
        let ghost rs = spec_results(cmds, outs, i as nat);
        proof {
            lemma_results_len(cmds, outs, i as nat);
            lemma_results_durs(cmds, outs, i as nat);
            lemma_durs_mono(outs, (i + 1) as nat, outcomes@.len() as nat);
            lemma_count_status_le_len(rs, CommandStatus::Success);
            lemma_count_status_le_len(rs, CommandStatus::Failed);
            lemma_count_status_le_len(rs, CommandStatus::Skipped);
        }
        let step: usize = i + 1;
        let method = script.cdp_commands[i].method.clone();
        let pair = &outcomes[i];
        let duration_ms: u64 = pair.1;
        let is_failure: bool;
        let result = match &pair.0 {
            StepOutcome::Success { response, saved_file } => {
                is_failure = false;
                CommandResult {
                    step,
                    method,
                    status: CommandStatus::Success,
                    duration_ms,
                    response: Some(response.deep_clone()),
                    error: None,
                    saved_file: match saved_file {
                        Some(s) => Some(s.clone()),
                        None => None,
                    },
                }
            },
            StepOutcome::Failure { error } => {
                is_failure = true;
                CommandResult {
                    step,
                    method,
                    status: CommandStatus::Failed,
                    duration_ms,
                    response: None,
                    error: Some(error.clone()),
                    saved_file: None,
                }
            },
        };
        proof {
            assert(result@ == spec_step_result(
                i + 1,
                cmds[i as int].method,
                outs[i as int].0,
                outs[i as int].1,
            ));
        }
        report.add_result(result);
        proof {
            assert(spec_results(cmds, outs, (i + 1) as nat) == rs.push(result@));
            lemma_count_status_push(rs, result@, CommandStatus::Success);
            lemma_count_status_push(rs, result@, CommandStatus::Failed);
            lemma_count_status_push(rs, result@, CommandStatus::Skipped);
            lemma_total_dur_push(rs, result@);
            assert(report@ == spec_report_at(script@.name, cmds, outs, (i + 1) as nat));
        }
        if is_failure {
            proof {
                assert(outs[i as int].0 is Failure);
                assert(stopped(outs, i + 1));
                lemma_results_stable(cmds, outs, (i + 1) as nat, n as nat);
            }
            return Ok(report);
        }
        proof {
            assert(!stopped(outs, i + 1)) by {
                if stopped(outs, i + 1) {
                    let w = choose|w: int| 0 <= w < i + 1 && outs[w].0 is Failure;
                    assert(w == i || w < i);
                }
            }
        }
        i = i + 1;
    }
    Ok(report)
}

/// Law: when the first `k - 1` outcomes succeed and the `k`-th fails, the
/// report holds exactly `k` results — `k - 1` successes, one failure, no
/// skips — and commands after the `k`-th never appear in it.
pub proof fn lemma_prefix_success(cmds: Seq<CommandV>, outs: Seq<(OutcomeV, int)>, m: nat)
    requires
        forall|j: int| 0 <= j < m ==> #[trigger] outs[j].0 is Success,
    ensures
        !stopped(outs, m as int),
        spec_results(cmds, outs, m).len() == m,
        count_status(spec_results(cmds, outs, m), CommandStatus::Success) == m,
        count_status(spec_results(cmds, outs, m), CommandStatus::Failed) == 0,
        count_status(spec_results(cmds, outs, m), CommandStatus::Skipped) == 0,
    decreases m,
{
    if m > 0 {
        lemma_prefix_success(cmds, outs, (m - 1) as nat);
        lemma_count_status_push(
            spec_results(cmds, outs, (m - 1) as nat),
            spec_step_result(m as int, cmds[m - 1].method, outs[m - 1].0, outs[m - 1].1),
            CommandStatus::Success,
        );
        lemma_count_status_push(
            spec_results(cmds, outs, (m - 1) as nat),
            spec_step_result(m as int, cmds[m - 1].method, outs[m - 1].0, outs[m - 1].1),
            CommandStatus::Failed,
        );
        lemma_count_status_push(
            spec_results(cmds, outs, (m - 1) as nat),
            spec_step_result(m as int, cmds[m - 1].method, outs[m - 1].0, outs[m - 1].1),
            CommandStatus::Skipped,
        );
    }
}

/// Law: a run stops at its first failure.  With successes before step `k`
/// and a failure at step `k`, the report holds exactly `k` results —
/// `k - 1` successes, the one failure, no skips — whatever outcomes follow.
pub proof fn lemma_stop_at_first_failure(
    name: Seq<char>,
    cmds: Seq<CommandV>,
    outs: Seq<(OutcomeV, int)>,
    k: int,
)
    requires
        1 <= k <= cmds.len(),
        k <= outs.len(),
        forall|j: int| 0 <= j < k - 1 ==> #[trigger] outs[j].0 is Success,
        outs[k - 1].0 is Failure,
    ensures
        spec_execute(name, cmds, outs).results.len() == k,
        spec_execute(name, cmds, outs).successful == k - 1,
        spec_execute(name, cmds, outs).failed == 1,
        spec_execute(name, cmds, outs).skipped == 0,
{
    lemma_prefix_success(cmds, outs, (k - 1) as nat);
    let pre = spec_results(cmds, outs, (k - 1) as nat);
    let last = spec_step_result(k, cmds[k - 1].method, outs[k - 1].0, outs[k - 1].1);
    assert(!stopped(outs, k - 1));
    assert(spec_results(cmds, outs, k as nat) == pre.push(last));
    lemma_count_status_push(pre, last, CommandStatus::Success);
    lemma_count_status_push(pre, last, CommandStatus::Failed);
    lemma_count_status_push(pre, last, CommandStatus::Skipped);
    assert(stopped(outs, k));
    let n: nat = if cmds.len() <= outs.len() {
        cmds.len()
    } else {
        outs.len()
    };
    lemma_results_stable(cmds, outs, k as nat, n);
}

} // verus!
