//! Arrangement orchestration: the decision rules that drive launching and
//! moving windows — bounded retries with fixed backoff, soft-failure
//! tolerance, per-window failure isolation, and the batch summary.
//!
//! The collaborators that actually launch and move windows live outside this
//! library; the driver performs each action and feeds the outcome back into
//! the state machine here, so every decision is made by verified code.

use vstd::prelude::*;
use vstd::string::StringExecFns;

use crate::config::WindowConfig;
use crate::layout::{GridLayout, GridModel, Rect};

verus! {

/// What one attempt of the window mover reported.
#[derive(Debug, Clone)]
pub enum MoveOutcome {
    /// The window was moved to the requested rectangle.
    Moved,
    /// The target window is not yet visible to the operating system: the
    /// soft, expected condition (the window may not have been created yet).
    WindowNotYetPresent,
    /// The move failed for any other cause, with its reason.
    Failed(String),
}

/// Whether an attempt outcome counts as success. A "window not yet present"
/// report is success exactly when the caller tolerates missing windows.
pub open spec fn outcome_is_success(o: MoveOutcome, tolerate_missing: bool) -> bool {
    match o {
        MoveOutcome::Moved => true,
        MoveOutcome::WindowNotYetPresent => tolerate_missing,
        MoveOutcome::Failed(_) => false,
    }
}

/// The failure reason an unsuccessful outcome carries.
pub open spec fn outcome_reason(o: MoveOutcome) -> Seq<char> {
    match o {
        MoveOutcome::Failed(e) => e@,
        _ => "window not found"@,
    }
}

/// Classify one mover report. Success is either a completed move or, when
/// `tolerate_missing` is set, the soft "window not yet present" condition.
pub fn move_succeeded(o: &MoveOutcome, tolerate_missing: bool) -> (r: bool)
    ensures
        r == outcome_is_success(*o, tolerate_missing),
{
    match o {
        MoveOutcome::Moved => true,
        MoveOutcome::WindowNotYetPresent => tolerate_missing,
        MoveOutcome::Failed(_) => false,
    }
}

/// The status of one window's bounded-retry move.
#[derive(Debug, Clone)]
pub enum MoveStatus {
    /// Attempts may still be made.
    Pending,
    /// The move resolved successfully.
    Done,
    /// Every permitted attempt failed; the last failure reason.
    Failed(String),
}

/// What the driver must do after recording an attempt's outcome.
#[derive(Debug, Clone, Copy, PartialEq, Eq, Structural)]
pub enum RetryAction {
    /// Wait out the fixed backoff delay, then attempt the move again.
    Backoff,
    /// The move is resolved, successfully or not; attempt no more.
    Stop,
}

/// Bounded-retry state machine for moving one window: each failed attempt
/// is retried after a fixed backoff until an attempt succeeds or
/// `max_attempts` attempts are spent.
#[derive(Debug)]
pub struct MoveRetry {
    /// How many attempts may be made in all.
    pub max_attempts: u32,
    /// How many attempts have been recorded.
    pub attempts: u32,
    /// Whether "window not yet present" resolves as a no-op success.
    pub tolerate_missing: bool,
    /// Current status.
    pub status: MoveStatus,
}

impl MoveRetry {
    /// Start a move in state `Attempting(0)`.
    pub fn new(max_attempts: u32, tolerate_missing: bool) -> (m: Self)
        requires
            1 <= max_attempts,
        ensures
            m.max_attempts == max_attempts,
            m.attempts == 0,
            m.tolerate_missing == tolerate_missing,
            m.status is Pending,
    {
        Self { max_attempts, attempts: 0, tolerate_missing, status: MoveStatus::Pending }
    }

    /// Record the outcome of one attempt. On success the move is done; on
    /// failure it is retried after a backoff while attempts remain, and
    /// resolves as failed, with the last reason, when they are spent.
    pub fn record(&mut self, outcome: &MoveOutcome) -> (action: RetryAction)
        requires
            old(self).status is Pending,
            old(self).attempts < old(self).max_attempts,
        ensures
            final(self).max_attempts == old(self).max_attempts,
            final(self).tolerate_missing == old(self).tolerate_missing,
            final(self).attempts == old(self).attempts + 1,
            outcome_is_success(*outcome, old(self).tolerate_missing) ==> {
                &&& final(self).status is Done
                &&& action == RetryAction::Stop
            },
            !outcome_is_success(*outcome, old(self).tolerate_missing)
                && old(self).attempts + 1 < old(self).max_attempts ==> {
                &&& final(self).status is Pending
                &&& action == RetryAction::Backoff
            },
            !outcome_is_success(*outcome, old(self).tolerate_missing)
                && old(self).attempts + 1 == old(self).max_attempts ==> {
                &&& final(self).status matches MoveStatus::Failed(e) && e@ == outcome_reason(*outcome)
                &&& action == RetryAction::Stop
            },
    {
        self.attempts = self.attempts + 1;
        if move_succeeded(outcome, self.tolerate_missing) {
            self.status = MoveStatus::Done;
            RetryAction::Stop
        } else if self.attempts < self.max_attempts {
            RetryAction::Backoff
        } else {
            let reason: String = match outcome {
                MoveOutcome::Failed(e) => e.clone(),
                _ => String::from_str("window not found"),
            };
            self.status = MoveStatus::Failed(reason);
            RetryAction::Stop
        }
    }
}

/// The attempt index at which a move resolves successfully: the first index
/// in `i..max` whose outcome counts as success, or `max` when none does.
pub open spec fn first_success(
    outcomes: Seq<MoveOutcome>,
    i: int,
    max: int,
    tolerate_missing: bool,
) -> int
    decreases max - i,
{
    if i < 0 || i >= max {
        max
    } else if outcome_is_success(outcomes[i], tolerate_missing) {
        i
    } else {
        first_success(outcomes, i + 1, max, tolerate_missing)
    }
}

/// Resolve one window's move against a recorded sequence of attempt
/// outcomes: attempts run in order until one succeeds or `max_attempts` are
/// spent. Returns the terminal status and the number of attempts consumed.
pub fn resolve_move_attempts(
    outcomes: &Vec<MoveOutcome>,
    max_attempts: u32,
    tolerate_missing: bool,
) -> (r: (MoveStatus, u32))
    requires
        1 <= max_attempts,
        outcomes@.len() >= max_attempts,
    ensures
        ({
            let k = first_success(outcomes@, 0, max_attempts as int, tolerate_missing);
            &&& k < max_attempts ==> r.0 is Done && r.1 == k + 1
            &&& k == max_attempts ==> {
                &&& r.0 matches MoveStatus::Failed(e)
                    && e@ == outcome_reason(outcomes@[max_attempts - 1])
                &&& r.1 == max_attempts
            }
        }),
{
    let mut retry = MoveRetry::new(max_attempts, tolerate_missing);
    let mut i: u32 = 0;
    while i < max_attempts - 1
        invariant
            i < max_attempts <= outcomes@.len(),
            retry.status is Pending,
            retry.attempts == i,
            retry.max_attempts == max_attempts,
            retry.tolerate_missing == tolerate_missing,
            first_success(outcomes@, i as int, max_attempts as int, tolerate_missing)
                == first_success(outcomes@, 0, max_attempts as int, tolerate_missing),
        decreases max_attempts - i,
    {
        let action = retry.record(&outcomes[i as usize]);
        if action == RetryAction::Stop {
            return (retry.status, i + 1);
        }
        i = i + 1;
    }
    let _ = retry.record(&outcomes[i as usize]);
    proof {
        if outcome_is_success(outcomes@[i as int], tolerate_missing) {
            assert(first_success(outcomes@, i as int, max_attempts as int, tolerate_missing)
                == i);
        } else {
            assert(first_success(outcomes@, i as int + 1, max_attempts as int, tolerate_missing)
                == max_attempts);
            assert(first_success(outcomes@, i as int, max_attempts as int, tolerate_missing)
                == max_attempts);
        }
    }
    (retry.status, i + 1)
}

/// Per-window terminal status in a batch result.
#[derive(Debug, Clone)]
pub enum WindowStatus {
    /// Launched and then moved into its cell.
    LaunchedAndMoved,
    /// Launched; no arrangement was requested.
    LaunchedOnly,
    /// Moved into its cell; no launch was requested.
    MovedOnly,
    /// The launch failed, with its reason.
    LaunchFailed(String),
    /// The bounded-retry move failed, with its last reason.
    MoveFailed(String),
}

/// A failure status, as opposed to one of the three success statuses.
pub open spec fn is_failure_status(st: WindowStatus) -> bool {
    st is LaunchFailed || st is MoveFailed
}

/// How many statuses in a sequence are failures.
pub open spec fn count_failures(sts: Seq<WindowStatus>) -> nat
    decreases sts.len(),
{
    if sts.len() == 0 {
        0
    } else {
        count_failures(sts.drop_last()) + if is_failure_status(sts.last()) {
            1nat
        } else {
            0nat
        }
    }
}

/// The status one window ends the batch with, from its own launch and move
/// results alone. A failed launch is reported in preference to a failed
/// move, since the window was never created.
pub open spec fn window_status_of(
    did_launch: bool,
    launch_error: Option<String>,
    did_arrange: bool,
    move_status: MoveStatus,
) -> WindowStatus {
    match (did_launch, launch_error) {
        (true, Some(e)) => WindowStatus::LaunchFailed(e),
        _ => match (did_arrange, move_status) {
            (true, MoveStatus::Failed(e)) => WindowStatus::MoveFailed(e),
            _ => if did_launch && did_arrange {
                WindowStatus::LaunchedAndMoved
            } else if did_launch {
                WindowStatus::LaunchedOnly
            } else {
                WindowStatus::MovedOnly
            },
        },
    }
}

/// One window's line in the batch report.
#[derive(Debug, Clone)]
pub struct WindowReport {
    /// The window's configured name.
    pub name: String,
    /// How the window fared.
    pub status: WindowStatus,
}

/// The outcome of a whole batch: one report per window, in configured
/// order, and the success/failure counts. Partial success is the normal
/// terminal state, not an error.
#[derive(Debug)]
pub struct BatchResult {
    /// Per-window reports, index i for configured window i.
    pub reports: Vec<WindowReport>,
    /// How many windows ended in a success status.
    pub succeeded: usize,
    /// How many windows ended in a failure status.
    pub failed: usize,
}

/// Classify one window from its own results alone.
fn classify_window(
    did_launch: bool,
    launch_error: &Option<String>,
    did_arrange: bool,
    move_status: &MoveStatus,
) -> (st: WindowStatus)
    ensures
        st == window_status_of(did_launch, *launch_error, did_arrange, *move_status),
{
    if did_launch {
        if let Some(e) = launch_error {
            return WindowStatus::LaunchFailed(e.clone());
        }
    }
    if did_arrange {
        if let MoveStatus::Failed(e) = move_status {
            return WindowStatus::MoveFailed(e.clone());
        }
    }
    if did_launch && did_arrange {
        WindowStatus::LaunchedAndMoved
    } else if did_launch {
        WindowStatus::LaunchedOnly
    } else {
        WindowStatus::MovedOnly
    }
}

/// Summarize a finished batch. Each window's report depends only on that
/// window's own launch and move results — one window's failure never
/// changes what is reported for another — and the summary itself always
/// succeeds.
pub fn summarize_batch(
    windows: &Vec<WindowConfig>,
    did_launch: bool,
    launch_errors: &Vec<Option<String>>,
    did_arrange: bool,
    move_results: &Vec<MoveStatus>,
) -> (r: BatchResult)
    requires
        did_launch || did_arrange,
        did_launch ==> launch_errors@.len() == windows@.len(),
        did_arrange ==> move_results@.len() == windows@.len(),
    ensures
        r.reports@.len() == windows@.len(),
        forall|i: int| 0 <= i < windows@.len()
            ==> (#[trigger] r.reports@[i]).name@ == windows@[i].name@,
        forall|i: int| 0 <= i < windows@.len()
            ==> (#[trigger] r.reports@[i]).status == window_status_of(
                did_launch,
                if did_launch { launch_errors@[i] } else { None },
                did_arrange,
                if did_arrange { move_results@[i] } else { MoveStatus::Done },
            ),
        r.failed == count_failures(r.reports@.map_values(|rep: WindowReport| rep.status)),
        r.succeeded + r.failed == windows@.len(),
{
    let none_error: Option<String> = None;
    let move_done: MoveStatus = MoveStatus::Done;

    let n = windows.len();
    let mut reports: Vec<WindowReport> = Vec::new();
    let mut failed: usize = 0;
    let mut i: usize = 0;
    while i < n
        invariant
            i <= n,
            n == windows@.len(),
            did_launch || did_arrange,
            did_launch ==> launch_errors@.len() == n,
            did_arrange ==> move_results@.len() == n,
            none_error is None,
            move_done is Done,
            reports@.len() == i,
            forall|j: int| 0 <= j < i ==> (#[trigger] reports@[j]).name@ == windows@[j].name@,
            forall|j: int| 0 <= j < i
                ==> (#[trigger] reports@[j]).status == window_status_of(
                    did_launch,
                    if did_launch { launch_errors@[j] } else { None },
                    did_arrange,
                    if did_arrange { move_results@[j] } else { MoveStatus::Done },
                ),
            failed <= i,
            failed == count_failures(reports@.map_values(|rep: WindowReport| rep.status)),
        decreases n - i,
    {
        let launch_error = if did_launch { &launch_errors[i] } else { &none_error };
        let move_status = if did_arrange { &move_results[i] } else { &move_done };
        let status = classify_window(did_launch, launch_error, did_arrange, move_status);
        let is_failure = match &status {
            WindowStatus::LaunchFailed(_) => true,
            WindowStatus::MoveFailed(_) => true,
            _ => false,
        };
        let ghost old_statuses = reports@.map_values(|rep: WindowReport| rep.status);
        reports.push(WindowReport { name: windows[i].name.clone(), status });
        proof {
            let statuses = reports@.map_values(|rep: WindowReport| rep.status);
            assert(statuses.drop_last() =~= old_statuses);
        }
        if is_failure {
            failed = failed + 1;
        }
        i = i + 1;
    }
    BatchResult { reports, succeeded: n - failed, failed }
}

/// A planned batch: the configured windows paired, index by index, with the
/// grid cells they are to occupy.
pub struct ArrangementPlan {
    /// The windows, in configured order.
    pub windows: Vec<WindowConfig>,
    /// placements[i] is the cell of windows[i]; never re-sorted.
    pub placements: Vec<Rect>,
}

/// Plan a batch: compute the placement for every configured window. The
/// window count is assumed already validated against the grid capacity.
pub fn plan_run(
    windows: Vec<WindowConfig>,
    cols: u32,
    rows: u32,
    display_area: Rect,
) -> (p: ArrangementPlan)
    requires
        (GridModel { cols, rows, display_area }).wf(),
        windows@.len() <= cols * rows,
    ensures
        p.windows == windows,
        p.placements@ == (GridModel { cols, rows, display_area }).positions(windows@.len() as int),
        p.placements@.len() == windows@.len(),
{
    let grid = GridLayout::new(cols, rows, display_area);
    let placements = grid.calculate_all_positions(windows.len());
    ArrangementPlan { windows, placements }
}

/// What the batch driver must do next.
#[derive(Debug, Clone, Copy, PartialEq, Eq, Structural)]
pub enum BatchAction {
    /// Launch the window at `index`, then report how it went.
    Launch { index: usize },
    /// Attempt (attempt number `attempt`) to move the window at `index`
    /// into its placement, then report the outcome.
    Move { index: usize, attempt: u32 },
    /// The batch is finished; collect the result.
    Finished,
}

/// The whole-batch state machine: launches every window in configured
/// order (when launching is requested), only then moves every window into
/// its cell in the same order (when arranging is requested), driving one
/// bounded-retry move at a time. The driver performs each requested action
/// and feeds back what happened; all sequencing decisions are made here.
#[derive(Debug)]
pub struct BatchRun {
    /// The windows, in configured order.
    pub windows: Vec<WindowConfig>,
    /// placements[i] is the cell of windows[i]; never re-sorted.
    pub placements: Vec<Rect>,
    /// Whether windows are launched.
    pub do_launch: bool,
    /// Whether windows are moved into their cells.
    pub do_arrange: bool,
    /// Attempts permitted per move.
    pub max_attempts: u32,
    /// Whether "window not yet present" resolves a move as success.
    pub tolerate_missing: bool,
    /// Per-window launch results recorded so far (None is success).
    pub launch_errors: Vec<Option<String>>,
    /// Per-window terminal move results recorded so far.
    pub move_results: Vec<MoveStatus>,
    /// The retry state of the move in flight.
    pub retry: MoveRetry,
}

impl BatchRun {
    /// The launch phase is still running: more windows to launch.
    pub open spec fn launching(self) -> bool {
        self.do_launch && self.launch_errors@.len() < self.windows@.len()
    }

    /// The arrange phase is running: the launch phase (if any) is over and
    /// moves remain. No move begins before the whole launch batch is done.
    pub open spec fn arranging(self) -> bool {
        &&& !self.launching()
        &&& self.do_arrange
        &&& self.move_results@.len() < self.windows@.len()
    }

    /// Every requested phase has run to completion.
    pub open spec fn complete(self) -> bool {
        !self.launching() && !self.arranging()
    }

    /// Internal consistency, preserved by every step.
    pub open spec fn wf(self) -> bool {
        &&& self.placements@.len() == self.windows@.len()
        &&& self.max_attempts >= 1
        &&& self.do_launch || self.do_arrange
        &&& self.launch_errors@.len() <= self.windows@.len()
        &&& !self.do_launch ==> self.launch_errors@.len() == 0
        &&& self.move_results@.len() <= self.windows@.len()
        &&& !self.do_arrange ==> self.move_results@.len() == 0
        &&& self.retry.max_attempts == self.max_attempts
        &&& self.retry.tolerate_missing == self.tolerate_missing
        &&& self.retry.status is Pending
        &&& self.retry.attempts < self.max_attempts
        &&& !self.arranging() ==> self.retry.attempts == 0
    }

    /// Start a batch over a plan. The plan's pairing of windows to cells is
    /// carried unchanged.
    pub fn new(
        plan: ArrangementPlan,
        do_launch: bool,
        do_arrange: bool,
        max_attempts: u32,
        tolerate_missing: bool,
    ) -> (run: Self)
        requires
            plan.placements@.len() == plan.windows@.len(),
            do_launch || do_arrange,
            max_attempts >= 1,
        ensures
            run.wf(),
            run.windows == plan.windows,
            run.placements == plan.placements,
            run.do_launch == do_launch,
            run.do_arrange == do_arrange,
            run.max_attempts == max_attempts,
            run.tolerate_missing == tolerate_missing,
            run.launch_errors@.len() == 0,
            run.move_results@.len() == 0,
    {
        BatchRun {
            windows: plan.windows,
            placements: plan.placements,
            do_launch,
            do_arrange,
            max_attempts,
            tolerate_missing,
            launch_errors: Vec::new(),
            move_results: Vec::new(),
            retry: MoveRetry::new(max_attempts, tolerate_missing),
        }
    }

    /// What the driver must do next: launches first, in order; then moves,
    /// in order, one attempt at a time.
    pub fn next_action(&self) -> (a: BatchAction)
        requires
            self.wf(),
        ensures
            self.launching() ==> a == (BatchAction::Launch {
                index: self.launch_errors@.len() as usize,
            }),
            self.arranging() ==> a == (BatchAction::Move {
                index: self.move_results@.len() as usize,
                attempt: self.retry.attempts,
            }),
            self.complete() ==> a == BatchAction::Finished,
    {
        if self.do_launch && self.launch_errors.len() < self.windows.len() {
            BatchAction::Launch { index: self.launch_errors.len() }
        } else if self.do_arrange && self.move_results.len() < self.windows.len() {
            BatchAction::Move { index: self.move_results.len(), attempt: self.retry.attempts }
        } else {
            BatchAction::Finished
        }
    }

    /// Record how the requested launch went (None is success). A failure is
    /// recorded and the batch moves on to the next window: one window's
    /// launch failure stops nothing else.
    pub fn record_launch(&mut self, error: Option<String>)
        requires
            old(self).wf(),
            old(self).launching(),
        ensures
            final(self).wf(),
            final(self).launch_errors@ == old(self).launch_errors@.push(error),
            final(self).windows == old(self).windows,
            final(self).placements == old(self).placements,
            final(self).do_launch == old(self).do_launch,
            final(self).do_arrange == old(self).do_arrange,
            final(self).max_attempts == old(self).max_attempts,
            final(self).tolerate_missing == old(self).tolerate_missing,
            final(self).move_results == old(self).move_results,
    {
        self.launch_errors.push(error);
    }

    /// Record the outcome of the requested move attempt. A success or an
    /// exhausted retry resolves the window — its terminal status is
    /// appended and the next window's move begins fresh; otherwise the
    /// driver backs off and attempts the same window again.
    pub fn record_move_outcome(&mut self, outcome: &MoveOutcome) -> (action: RetryAction)
        requires
            old(self).wf(),
            old(self).arranging(),
        ensures
            final(self).wf(),
            final(self).windows == old(self).windows,
            final(self).placements == old(self).placements,
            final(self).do_launch == old(self).do_launch,
            final(self).do_arrange == old(self).do_arrange,
            final(self).max_attempts == old(self).max_attempts,
            final(self).tolerate_missing == old(self).tolerate_missing,
            final(self).launch_errors == old(self).launch_errors,
            outcome_is_success(*outcome, old(self).tolerate_missing) ==> {
                &&& action == RetryAction::Stop
                &&& final(self).move_results@ == old(self).move_results@.push(MoveStatus::Done)
                &&& final(self).retry.attempts == 0
            },
            !outcome_is_success(*outcome, old(self).tolerate_missing)
                && old(self).retry.attempts + 1 < old(self).max_attempts ==> {
                &&& action == RetryAction::Backoff
                &&& final(self).move_results == old(self).move_results
                &&& final(self).retry.attempts == old(self).retry.attempts + 1
            },
            !outcome_is_success(*outcome, old(self).tolerate_missing)
                && old(self).retry.attempts + 1 == old(self).max_attempts ==> {
                &&& action == RetryAction::Stop
                &&& final(self).move_results@.len() == old(self).move_results@.len() + 1
                &&& final(self).move_results@.drop_last() == old(self).move_results@
                &&& final(self).move_results@.last() matches MoveStatus::Failed(e)
                    && e@ == outcome_reason(*outcome)
                &&& final(self).retry.attempts == 0
            },
    {
        let action = self.retry.record(outcome);
        if action == RetryAction::Stop {
            let status = match &self.retry.status {
                MoveStatus::Done => MoveStatus::Done,
                MoveStatus::Failed(e) => MoveStatus::Failed(e.clone()),
                MoveStatus::Pending => MoveStatus::Pending,
            };
            let ghost pre = self.move_results@;
            self.move_results.push(status);
            proof {
                assert(self.move_results@.drop_last() =~= pre);
            }
            self.retry = MoveRetry::new(self.max_attempts, self.tolerate_missing);
        }
        action
    }

    /// Collect the batch result: every window's status, from its own
    /// recorded results alone, and the counts.
    pub fn finish(self) -> (r: BatchResult)
        requires
            self.wf(),
            self.complete(),
        ensures
            r.reports@.len() == self.windows@.len(),
            forall|i: int| 0 <= i < self.windows@.len()
                ==> (#[trigger] r.reports@[i]).name@ == self.windows@[i].name@,
            forall|i: int| 0 <= i < self.windows@.len()
                ==> (#[trigger] r.reports@[i]).status == window_status_of(
                    self.do_launch,
                    if self.do_launch { self.launch_errors@[i] } else { None },
                    self.do_arrange,
                    if self.do_arrange { self.move_results@[i] } else { MoveStatus::Done },
                ),
            r.failed == count_failures(r.reports@.map_values(|rep: WindowReport| rep.status)),
            r.succeeded + r.failed == self.windows@.len(),
    {
        summarize_batch(
            &self.windows,
            self.do_launch,
            &self.launch_errors,
            self.do_arrange,
            &self.move_results,
        )
    }
}

/// What `first_success` means: it stays within `i..=max`, it lands on a
/// successful outcome whenever one exists among the permitted attempts, and
/// every earlier attempt failed.
pub proof fn lemma_first_success_characterized(
    outcomes: Seq<MoveOutcome>,
    i: int,
    max: int,
    tolerate_missing: bool,
)
    requires
        0 <= i <= max,
    ensures
        i <= first_success(outcomes, i, max, tolerate_missing) <= max,
        first_success(outcomes, i, max, tolerate_missing) < max ==> outcome_is_success(
            outcomes[first_success(outcomes, i, max, tolerate_missing)],
            tolerate_missing,
        ),
        forall|k: int| i <= k < first_success(outcomes, i, max, tolerate_missing)
            ==> !outcome_is_success(#[trigger] outcomes[k], tolerate_missing),
    decreases max - i,
{
    if i < max && !outcome_is_success(outcomes[i], tolerate_missing) {
        lemma_first_success_characterized(outcomes, i + 1, max, tolerate_missing);
    }
}

/// Retry exhaustion: when every one of the `max` permitted attempts fails,
/// no attempt index resolves the move, so it surfaces as failed with the
/// last attempt's reason.
pub proof fn lemma_retry_exhaustion(
    outcomes: Seq<MoveOutcome>,
    i: int,
    max: int,
    tolerate_missing: bool,
)
    requires
        0 <= i <= max,
        forall|k: int| i <= k < max ==> !outcome_is_success(#[trigger] outcomes[k], tolerate_missing),
    ensures
        first_success(outcomes, i, max, tolerate_missing) == max,
    decreases max - i,
{
    if i < max {
        lemma_retry_exhaustion(outcomes, i + 1, max, tolerate_missing);
    }
}

/// Retry recovery: a move that fails on the first attempt and succeeds on
/// the second resolves successfully at attempt index 1 — two attempts, no
/// error surfaced.
pub proof fn lemma_retry_recovery(outcomes: Seq<MoveOutcome>, max: int, tolerate_missing: bool)
    requires
        2 <= max,
        !outcome_is_success(outcomes[0], tolerate_missing),
        outcome_is_success(outcomes[1], tolerate_missing),
    ensures
        first_success(outcomes, 0, max, tolerate_missing) == 1,
{
    assert(first_success(outcomes, 1, max, tolerate_missing) == 1);
}

/// Soft-failure tolerance: a "window not yet present" outcome is success
/// when tolerated — a tolerant move resolves immediately on it, with no
/// retry — yet it stays distinguishable from a hard failure, which never
/// counts as success.
pub proof fn lemma_soft_failure_tolerated(outcomes: Seq<MoveOutcome>, max: int, e: String)
    requires
        1 <= max,
        outcomes[0] is WindowNotYetPresent,
    ensures
        first_success(outcomes, 0, max, true) == 0,
        outcome_is_success(MoveOutcome::WindowNotYetPresent, true),
        !outcome_is_success(MoveOutcome::WindowNotYetPresent, false),
        !outcome_is_success(MoveOutcome::Failed(e), true),
        !outcome_is_success(MoveOutcome::Failed(e), false),
{
}

} // verus!
