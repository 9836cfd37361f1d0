use wsl_multi_launcher::config::WindowConfig;
use wsl_multi_launcher::layout::Rect;
use wsl_multi_launcher::orchestrate::{
    move_succeeded, plan_run, resolve_move_attempts, summarize_batch, BatchAction, BatchRun,
    MoveOutcome, MoveRetry, MoveStatus, RetryAction, WindowStatus,
};
use wsl_multi_launcher::windows::{get_display_working_area, DisplayError};
use wsl_multi_launcher::layout::{BoundsInfo, DisplayInfo};

fn window(name: &str) -> WindowConfig {
    WindowConfig { name: name.to_string(), command: "bash".to_string(), working_dir: None }
}

#[test]
fn test_retry_exhaustion_surfaces_move_failed() {
    // A move that fails on all 3 attempts resolves as failed, with the
    // last attempt's reason.
    let outcomes = vec![
        MoveOutcome::Failed("first".to_string()),
        MoveOutcome::Failed("second".to_string()),
        MoveOutcome::Failed("third".to_string()),
    ];
    let (status, used) = resolve_move_attempts(&outcomes, 3, true);
    assert_eq!(used, 3);
    match status {
        MoveStatus::Failed(reason) => assert_eq!(reason, "third"),
        _ => panic!("expected a failed move"),
    }
}

#[test]
fn test_retry_recovery_surfaces_success() {
    // A move that fails once and succeeds on attempt 2 is a success with
    // no externally visible error.
    let outcomes = vec![
        MoveOutcome::Failed("transient".to_string()),
        MoveOutcome::Moved,
        MoveOutcome::Moved,
    ];
    let (status, used) = resolve_move_attempts(&outcomes, 3, true);
    assert_eq!(used, 2);
    assert!(matches!(status, MoveStatus::Done));
}

#[test]
fn test_soft_failure_treated_as_success() {
    // "Window not yet present" resolves a tolerant move immediately: one
    // attempt, no retry, no error.
    let outcomes = vec![
        MoveOutcome::WindowNotYetPresent,
        MoveOutcome::Failed("never reached".to_string()),
        MoveOutcome::Failed("never reached".to_string()),
    ];
    let (status, used) = resolve_move_attempts(&outcomes, 3, true);
    assert_eq!(used, 1);
    assert!(matches!(status, MoveStatus::Done));

    // Without tolerance the same report is a retryable failure,
    // distinguishable from success.
    assert!(move_succeeded(&MoveOutcome::WindowNotYetPresent, true));
    assert!(!move_succeeded(&MoveOutcome::WindowNotYetPresent, false));
    assert!(!move_succeeded(&MoveOutcome::Failed("hard".to_string()), true));
    assert!(move_succeeded(&MoveOutcome::Moved, false));
}

#[test]
fn test_soft_failure_distinct_from_hard_failure() {
    // Intolerant of missing windows: "not yet present" consumes attempts
    // like any failure.
    let outcomes = vec![
        MoveOutcome::WindowNotYetPresent,
        MoveOutcome::Moved,
        MoveOutcome::Moved,
    ];
    let (status, used) = resolve_move_attempts(&outcomes, 3, false);
    assert_eq!(used, 2);
    assert!(matches!(status, MoveStatus::Done));
}

#[test]
fn test_move_retry_state_machine() {
    let mut retry = MoveRetry::new(3, true);
    assert!(matches!(retry.status, MoveStatus::Pending));

    // First attempt fails: backoff, still pending.
    let action = retry.record(&MoveOutcome::Failed("busy".to_string()));
    assert_eq!(action, RetryAction::Backoff);
    assert!(matches!(retry.status, MoveStatus::Pending));
    assert_eq!(retry.attempts, 1);

    // Second attempt succeeds: stop, done.
    let action = retry.record(&MoveOutcome::Moved);
    assert_eq!(action, RetryAction::Stop);
    assert!(matches!(retry.status, MoveStatus::Done));
    assert_eq!(retry.attempts, 2);
}

#[test]
fn test_exhausted_retries_surface_in_batch_report() {
    // End to end over recorded outcomes: window b's mover fails every
    // attempt, so the batch reports b as move-failed with the last reason,
    // while a's single success leaves it moved.
    let windows = vec![window("a"), window("b")];
    let scripts = vec![
        vec![MoveOutcome::Moved, MoveOutcome::Moved, MoveOutcome::Moved],
        vec![
            MoveOutcome::Failed("busy".to_string()),
            MoveOutcome::Failed("busy".to_string()),
            MoveOutcome::Failed("still busy".to_string()),
        ],
    ];
    let move_results: Vec<MoveStatus> = scripts
        .iter()
        .map(|outcomes| resolve_move_attempts(outcomes, 3, true).0)
        .collect();
    let result = summarize_batch(&windows, false, &Vec::new(), true, &move_results);

    assert!(matches!(result.reports[0].status, WindowStatus::MovedOnly));
    match &result.reports[1].status {
        WindowStatus::MoveFailed(reason) => assert_eq!(reason, "still busy"),
        _ => panic!("expected b to be reported as move-failed"),
    }
    assert_eq!(result.succeeded, 1);
    assert_eq!(result.failed, 1);
}

#[test]
fn test_partial_failure_isolated() {
    // Window b's move fails; a and c succeed. The batch reports a and c
    // as moved and b as failed, and the batch call itself returns
    // normally.
    let windows = vec![window("a"), window("b"), window("c")];
    let launch_errors: Vec<Option<String>> = vec![None, None, None];
    let move_results = vec![
        MoveStatus::Done,
        MoveStatus::Failed("stuck".to_string()),
        MoveStatus::Done,
    ];
    let result = summarize_batch(&windows, true, &launch_errors, true, &move_results);

    assert_eq!(result.reports.len(), 3);
    assert_eq!(result.reports[0].name, "a");
    assert!(matches!(result.reports[0].status, WindowStatus::LaunchedAndMoved));
    assert_eq!(result.reports[1].name, "b");
    match &result.reports[1].status {
        WindowStatus::MoveFailed(reason) => assert_eq!(reason, "stuck"),
        _ => panic!("expected b to be reported as move-failed"),
    }
    assert_eq!(result.reports[2].name, "c");
    assert!(matches!(result.reports[2].status, WindowStatus::LaunchedAndMoved));
    assert_eq!(result.succeeded, 2);
    assert_eq!(result.failed, 1);
}

#[test]
fn test_launch_failure_reported_per_window() {
    let windows = vec![window("a"), window("b")];
    let launch_errors: Vec<Option<String>> = vec![Some("no terminal".to_string()), None];
    let move_results = vec![MoveStatus::Done, MoveStatus::Done];
    let result = summarize_batch(&windows, true, &launch_errors, true, &move_results);

    match &result.reports[0].status {
        WindowStatus::LaunchFailed(reason) => assert_eq!(reason, "no terminal"),
        _ => panic!("expected a to be reported as launch-failed"),
    }
    assert!(matches!(result.reports[1].status, WindowStatus::LaunchedAndMoved));
    assert_eq!(result.succeeded, 1);
    assert_eq!(result.failed, 1);
}

#[test]
fn test_launch_only_and_arrange_only_statuses() {
    let windows = vec![window("a")];
    let launch_errors: Vec<Option<String>> = vec![None];
    let move_results = vec![MoveStatus::Done];

    let launched = summarize_batch(&windows, true, &launch_errors, false, &Vec::new());
    assert!(matches!(launched.reports[0].status, WindowStatus::LaunchedOnly));
    assert_eq!(launched.succeeded, 1);

    let moved = summarize_batch(&windows, false, &Vec::new(), true, &move_results);
    assert!(matches!(moved.reports[0].status, WindowStatus::MovedOnly));
    assert_eq!(moved.succeeded, 1);
}

#[test]
fn test_plan_pairs_windows_with_cells_in_order() {
    let windows = vec![window("a"), window("b"), window("c"), window("d")];
    let display = Rect::new(0, 0, 1920, 1080);
    let plan = plan_run(windows, 2, 2, display);

    assert_eq!(plan.windows.len(), 4);
    assert_eq!(plan.placements.len(), 4);
    assert_eq!(plan.windows[0].name, "a");
    assert_eq!(plan.placements[0], Rect::new(0, 0, 960, 540));
    assert_eq!(plan.placements[1], Rect::new(960, 0, 960, 540));
    assert_eq!(plan.placements[2], Rect::new(0, 540, 960, 540));
    assert_eq!(plan.placements[3], Rect::new(960, 540, 960, 540));
}

#[test]
fn test_batch_run_sequences_launches_before_moves() {
    // A full batch driven against scripted collaborator responses:
    // window b's launch fails, a's move needs a retry, c's window is not
    // yet present (tolerated). Launches must all happen before any move.
    let windows = vec![window("a"), window("b"), window("c")];
    let display = Rect::new(0, 0, 1920, 1080);
    let plan = plan_run(windows, 2, 2, display);

    let launch_script: Vec<Option<String>> =
        vec![None, Some("no terminal".to_string()), None];
    let move_scripts: Vec<Vec<MoveOutcome>> = vec![
        vec![MoveOutcome::Failed("busy".to_string()), MoveOutcome::Moved, MoveOutcome::Moved],
        vec![MoveOutcome::Failed("no window".to_string()); 3],
        vec![MoveOutcome::WindowNotYetPresent; 3],
    ];

    let mut run = BatchRun::new(plan, true, true, 3, true);
    let mut seen_move = false;
    let mut launches: usize = 0;
    loop {
        match run.next_action() {
            BatchAction::Launch { index } => {
                assert!(!seen_move, "a move was requested before the launch batch finished");
                assert_eq!(index, launches);
                run.record_launch(launch_script[index].clone());
                launches += 1;
            }
            BatchAction::Move { index, attempt } => {
                seen_move = true;
                let outcome = move_scripts[index][attempt as usize].clone();
                run.record_move_outcome(&outcome);
            }
            BatchAction::Finished => break,
        }
    }
    assert_eq!(launches, 3);

    let result = run.finish();
    assert!(matches!(result.reports[0].status, WindowStatus::LaunchedAndMoved));
    match &result.reports[1].status {
        // The launch failure takes precedence over the move failure.
        WindowStatus::LaunchFailed(reason) => assert_eq!(reason, "no terminal"),
        other => panic!("expected b to be reported as launch-failed, got {:?}", other),
    }
    assert!(matches!(result.reports[2].status, WindowStatus::LaunchedAndMoved));
    assert_eq!(result.succeeded, 2);
    assert_eq!(result.failed, 1);
}

#[test]
fn test_get_display_working_area() {
    let displays = vec![
        DisplayInfo {
            device_name: "DISPLAY1".to_string(),
            primary: true,
            bounds: BoundsInfo { x: 0, y: 0, width: 1920, height: 1080 },
            working_area: BoundsInfo { x: 0, y: 0, width: 1920, height: 1040 },
        },
        DisplayInfo {
            device_name: "DISPLAY2".to_string(),
            primary: false,
            bounds: BoundsInfo { x: 1920, y: 0, width: 1920, height: 1080 },
            working_area: BoundsInfo { x: 1920, y: 0, width: 1920, height: 1040 },
        },
    ];

    let area = get_display_working_area(&displays, 1).unwrap();
    assert_eq!(area, Rect::new(1920, 0, 1920, 1040));

    let missing = get_display_working_area(&displays, 2);
    assert_eq!(missing.unwrap_err(), DisplayError::DisplayNotFound);
}
