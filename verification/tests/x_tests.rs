use lemurs::x::{
    format_hex32, mcookie, poll_budget, DisplayServerLauncher, LauncherPhase, PollBudget,
    XSetupError,
};

fn launcher_in_wait(timeout_secs: u32) -> (DisplayServerLauncher, bool) {
    // Track the thread's (hypothetical) signal mask alongside, performing
    // exactly the directives the machine hands out.
    let mut mask_blocked = false;
    let mut l = DisplayServerLauncher::start(timeout_secs);
    assert_eq!(l.phase, LauncherPhase::Idle);
    l.signal_blocked();
    mask_blocked = true;
    l.notify_fd_armed();
    l.server_spawned();
    assert_eq!(l.phase, LauncherPhase::WaitingReady);
    (l, mask_blocked)
}

#[test]
fn test_ready_within_timeout_yields_ready_with_child_running() {
    let (mut l, mut mask_blocked) = launcher_in_wait(10);
    let d = l.ready_signal_received();
    if d.unblock_signal {
        mask_blocked = false;
    }
    assert!(!d.kill_child); // the child stays running
    assert_eq!(l.phase, LauncherPhase::Done);
    assert_eq!(l.outcome, Some(Ok(())));
    assert!(!mask_blocked); // the mask equals the mask before the call
}

#[test]
fn test_child_exit_without_signal_is_premature_exit() {
    let (mut l, mut mask_blocked) = launcher_in_wait(10);
    let d = l.child_exited();
    if d.unblock_signal {
        mask_blocked = false;
    }
    assert!(!d.kill_child);
    assert_eq!(l.outcome, Some(Err(XSetupError::XServerPrematureExit)));
    assert!(!mask_blocked);
}

#[test]
fn test_timeout_kills_child_and_restores_mask() {
    // A 1 s timeout while the child sleeps on: after 1000 ms the budget is
    // spent, the wait times out, and the child is killed.
    let (mut l, mut mask_blocked) = launcher_in_wait(1);
    assert_eq!(poll_budget(1, 0), PollBudget::Wait { timeout_ms: 100 });
    assert_eq!(poll_budget(1, 950), PollBudget::Wait { timeout_ms: 50 });
    assert_eq!(poll_budget(1, 1000), PollBudget::Expired);
    let d = l.wait_timed_out(1000);
    if d.unblock_signal {
        mask_blocked = false;
    }
    assert!(d.kill_child);
    assert_eq!(l.outcome, Some(Err(XSetupError::XServerTimeout)));
    assert!(!mask_blocked);
}

#[test]
fn test_wait_error_restores_mask() {
    let (mut l, mut mask_blocked) = launcher_in_wait(10);
    let d = l.wait_failed("EBADF".to_string());
    if d.unblock_signal {
        mask_blocked = false;
    }
    assert_eq!(l.outcome, Some(Err(XSetupError::PollError("EBADF".to_string()))));
    assert!(!mask_blocked);
}

#[test]
fn test_spawn_failure_restores_mask() {
    let mut mask_blocked = false;
    let mut l = DisplayServerLauncher::start(5);
    l.signal_blocked();
    mask_blocked = true;
    l.notify_fd_armed();
    let d = l.server_spawn_failed();
    if d.unblock_signal {
        mask_blocked = false;
    }
    assert_eq!(l.outcome, Some(Err(XSetupError::XServerStart)));
    assert!(!mask_blocked);
}

#[test]
fn test_block_failure_never_touched_the_mask() {
    let mut l = DisplayServerLauncher::start(5);
    let d = l.signal_block_failed("EINVAL".to_string());
    assert!(!d.unblock_signal);
    assert_eq!(l.outcome, Some(Err(XSetupError::SignalMasking("EINVAL".to_string()))));
    assert!(!l.mask_blocked);
}

#[test]
fn test_unbounded_wait_keeps_polling_past_three_seconds() {
    // With timeout 0 the budget never expires: well past three seconds the
    // wait still polls in short slices, so liveness is still rechecked.
    for elapsed in [0u64, 1000, 3000, 3500, 60_000, 10_000_000] {
        assert_eq!(poll_budget(0, elapsed), PollBudget::Wait { timeout_ms: 100 });
    }
}

#[test]
fn test_poll_budget_slices() {
    assert_eq!(poll_budget(5, 0), PollBudget::Wait { timeout_ms: 100 });
    assert_eq!(poll_budget(5, 4899), PollBudget::Wait { timeout_ms: 100 });
    assert_eq!(poll_budget(5, 4950), PollBudget::Wait { timeout_ms: 50 });
    assert_eq!(poll_budget(5, 4999), PollBudget::Wait { timeout_ms: 1 });
    assert_eq!(poll_budget(5, 5000), PollBudget::Expired);
    assert_eq!(poll_budget(5, 99_999), PollBudget::Expired);
}

#[test]
fn test_format_hex32_exact_values() {
    assert_eq!(format_hex32(0), "00000000000000000000000000000000");
    assert_eq!(format_hex32(255), "000000000000000000000000000000ff");
    assert_eq!(format_hex32(0xdead_beef), "000000000000000000000000deadbeef");
    assert_eq!(
        format_hex32(u128::MAX),
        "ffffffffffffffffffffffffffffffff"
    );
}

#[test]
fn test_format_vt_number_pads_single_digits() {
    assert_eq!(lemurs::x::format_vt_number("1"), "01");
    assert_eq!(lemurs::x::format_vt_number("12"), "12");
}

#[test]
fn test_mcookie_is_32_hex_digits() {
    let c = mcookie();
    assert_eq!(c.len(), 32);
    assert!(c.chars().all(|ch| ch.is_ascii_hexdigit()));
}
