//! Starting an X server and waiting for its readiness signal.
//!
//! The readiness handshake is an explicit state machine. The notification
//! signal is blocked before the server is spawned, so no wakeup can be lost;
//! the wait polls a signal-backed descriptor in short bounded slices,
//! rechecking child liveness each slice; and every exit path unblocks the
//! signal again, so the calling thread's mask is never left altered. The
//! unverified glue performs the spawn, the poll and the liveness check, and
//! reports each outcome into the machine, which decides what happens next.

use vstd::prelude::*;

use rand::Rng;

verus! {

/// Everything that can go wrong while setting up the X server.
#[derive(Debug, Clone, PartialEq, Eq)]
pub enum XSetupError {
    /// `DISPLAY` is not set.
    DisplayEnvVar,
    /// `HOME` is not set.
    HomeEnvVar,
    /// `XDG_VTNR` is not set.
    VTNREnvVar,
    /// The authority file could not be filled.
    FillingXAuth,
    /// A path that is given is not valid UTF-8.
    InvalidUTF8Path,
    /// The X server binary could not be started.
    XServerStart,
    /// The X server did not signal readiness within the configured timeout.
    XServerTimeout,
    /// The X server exited before it signaled readiness.
    XServerPrematureExit,
    /// The readiness signal could not be blocked or unblocked.
    SignalMasking(String),
    /// The signal-backed notification descriptor could not be created.
    SignalFdCreation(String),
    /// Waiting on the notification descriptor failed.
    PollError(String),
}

/// How long the next poll slice may wait.
#[derive(Debug, Clone, Copy, PartialEq, Eq, Structural)]
pub enum PollBudget {
    /// The configured timeout has elapsed: stop waiting.
    Expired,
    /// Keep waiting, for at most this many milliseconds.
    Wait { timeout_ms: u64 },
}

/// The fixed poll slice, in milliseconds: child liveness is rechecked at
/// least this often even while awaiting the signal.
pub const POLL_INTERVAL_MS: u64 = 100;

/// How long the next poll slice may wait, given the configured timeout in
/// whole seconds (0 = unbounded) and the milliseconds elapsed since spawn.
/// With a bounded timeout the budget expires exactly when the elapsed time
/// reaches it; an unbounded wait never expires but still polls in slices.
pub fn poll_budget(timeout_secs: u32, elapsed_ms: u64) -> (r: PollBudget)
    ensures
        timeout_secs == 0 ==> r == (PollBudget::Wait { timeout_ms: POLL_INTERVAL_MS }),
        timeout_secs != 0 && elapsed_ms >= timeout_secs * 1000 ==> r == PollBudget::Expired,
        timeout_secs != 0 && elapsed_ms < timeout_secs * 1000 ==> r == (PollBudget::Wait {
            timeout_ms: if timeout_secs * 1000 - elapsed_ms < POLL_INTERVAL_MS {
                (timeout_secs * 1000 - elapsed_ms) as u64
            } else {
                POLL_INTERVAL_MS
            },
        }),
{
    if timeout_secs == 0 {
        return PollBudget::Wait { timeout_ms: POLL_INTERVAL_MS };
    }
    let total_ms: u64 = (timeout_secs as u64) * 1000;
    if elapsed_ms >= total_ms {
        PollBudget::Expired
    } else {
        let remaining = total_ms - elapsed_ms;
        let slice = if remaining < POLL_INTERVAL_MS {
            remaining
        } else {
            POLL_INTERVAL_MS
        };
        PollBudget::Wait { timeout_ms: slice }
    }
}

/// Where the readiness handshake stands.
#[derive(Debug, Clone, Copy, PartialEq, Eq, Structural)]
pub enum LauncherPhase {
    /// Nothing has happened yet.
    Idle,
    /// The readiness signal is blocked; the notification descriptor comes
    /// next. Blocking comes before spawning, so no wakeup can be lost.
    SignalBlocked,
    /// The notification descriptor is armed; the server may be spawned.
    NotifyArmed,
    /// The server is running (as far as known) and the wait loop is polling.
    WaitingReady,
    /// The handshake is over, one way or the other.
    Done,
}

/// What the glue must do right after a transition.
#[derive(Debug, Clone, Copy, PartialEq, Eq, Structural)]
pub struct LauncherDirectives {
    /// Unblock the readiness signal now.
    pub unblock_signal: bool,
    /// Kill the server child now.
    pub kill_child: bool,
}

/// The readiness handshake machine.
///
/// `mask_blocked` mirrors whether the thread's signal mask currently has the
/// readiness signal blocked, assuming the glue performs every directive; the
/// machine's invariant then says the mask is restored on every exit path.
pub struct DisplayServerLauncher {
    pub phase: LauncherPhase,
    pub timeout_secs: u32,
    pub mask_blocked: bool,
    pub outcome: Option<Result<(), XSetupError>>,
}

impl DisplayServerLauncher {
    /// The machine invariant: the signal is blocked during the handshake
    /// proper and never once the handshake is over; an outcome exists exactly
    /// in the `Done` phase; and a timeout outcome can exist only with a
    /// bounded timeout configured.
    pub open spec fn wf(&self) -> bool {
        &&& (self.phase == LauncherPhase::Idle ==> !self.mask_blocked)
        &&& (self.phase == LauncherPhase::SignalBlocked ==> self.mask_blocked)
        &&& (self.phase == LauncherPhase::NotifyArmed ==> self.mask_blocked)
        &&& (self.phase == LauncherPhase::WaitingReady ==> self.mask_blocked)
        &&& (self.phase == LauncherPhase::Done ==> !self.mask_blocked)
        &&& (self.outcome is Some <==> self.phase == LauncherPhase::Done)
        &&& (self.outcome == Some(Err::<(), XSetupError>(XSetupError::XServerTimeout))
            ==> self.timeout_secs != 0)
    }

    /// A fresh handshake for the configured timeout (0 = unbounded).
    pub fn start(timeout_secs: u32) -> (r: DisplayServerLauncher)
        ensures
            r.wf(),
            r.phase == LauncherPhase::Idle,
            r.timeout_secs == timeout_secs,
            !r.mask_blocked,
    {
        DisplayServerLauncher {
            phase: LauncherPhase::Idle,
            timeout_secs,
            mask_blocked: false,
            outcome: None,
        }
    }

    /// The readiness signal was blocked in the thread's mask, before any
    /// spawn: the lost-wakeup window is closed.
    pub fn signal_blocked(&mut self)
        requires
            old(self).wf(),
            old(self).phase == LauncherPhase::Idle,
        ensures
            final(self).wf(),
            final(self).phase == LauncherPhase::SignalBlocked,
            final(self).mask_blocked,
            final(self).timeout_secs == old(self).timeout_secs,
            final(self).outcome is None,
    {
        self.phase = LauncherPhase::SignalBlocked;
        self.mask_blocked = true;
    }

    /// Blocking the readiness signal failed: the handshake is over before it
    /// began, and the mask was never altered.
    pub fn signal_block_failed(&mut self, err: String) -> (r: LauncherDirectives)
        requires
            old(self).wf(),
            old(self).phase == LauncherPhase::Idle,
        ensures
            final(self).wf(),
            final(self).phase == LauncherPhase::Done,
            !final(self).mask_blocked,
            final(self).outcome == Some(Err::<(), XSetupError>(XSetupError::SignalMasking(err))),
            !r.unblock_signal && !r.kill_child,
    {
        self.phase = LauncherPhase::Done;
        self.outcome = Some(Err(XSetupError::SignalMasking(err)));
        LauncherDirectives { unblock_signal: false, kill_child: false }
    }

    /// The notification descriptor is armed.
    pub fn notify_fd_armed(&mut self)
        requires
            old(self).wf(),
            old(self).phase == LauncherPhase::SignalBlocked,
        ensures
            final(self).wf(),
            final(self).phase == LauncherPhase::NotifyArmed,
            final(self).mask_blocked,
            final(self).timeout_secs == old(self).timeout_secs,
            final(self).outcome is None,
    {
        self.phase = LauncherPhase::NotifyArmed;
    }

    /// Creating the notification descriptor failed: unblock the signal and
    /// give up.
    pub fn notify_fd_failed(&mut self, err: String) -> (r: LauncherDirectives)
        requires
            old(self).wf(),
            old(self).phase == LauncherPhase::SignalBlocked,
        ensures
            final(self).wf(),
            final(self).phase == LauncherPhase::Done,
            !final(self).mask_blocked,
            final(self).outcome == Some(Err::<(), XSetupError>(XSetupError::SignalFdCreation(err))),
            r.unblock_signal && !r.kill_child,
    {
        self.phase = LauncherPhase::Done;
        self.mask_blocked = false;
        self.outcome = Some(Err(XSetupError::SignalFdCreation(err)));
        LauncherDirectives { unblock_signal: true, kill_child: false }
    }

    /// The server child was spawned, inheriting the blocked mask: start the
    /// bounded wait.
    pub fn server_spawned(&mut self)
        requires
            old(self).wf(),
            old(self).phase == LauncherPhase::NotifyArmed,
        ensures
            final(self).wf(),
            final(self).phase == LauncherPhase::WaitingReady,
            final(self).mask_blocked,
            final(self).timeout_secs == old(self).timeout_secs,
            final(self).outcome is None,
    {
        self.phase = LauncherPhase::WaitingReady;
    }

    /// Spawning the server failed: unblock the signal and give up.
    pub fn server_spawn_failed(&mut self) -> (r: LauncherDirectives)
        requires
            old(self).wf(),
            old(self).phase == LauncherPhase::NotifyArmed,
        ensures
            final(self).wf(),
            final(self).phase == LauncherPhase::Done,
            !final(self).mask_blocked,
            final(self).outcome == Some(Err::<(), XSetupError>(XSetupError::XServerStart)),
            r.unblock_signal && !r.kill_child,
    {
        self.phase = LauncherPhase::Done;
        self.mask_blocked = false;
        self.outcome = Some(Err(XSetupError::XServerStart));
        LauncherDirectives { unblock_signal: true, kill_child: false }
    }

    /// The readiness signal arrived while the child was still running: the
    /// handshake succeeds; the signal is unblocked and the child is left
    /// running.
    pub fn ready_signal_received(&mut self) -> (r: LauncherDirectives)
        requires
            old(self).wf(),
            old(self).phase == LauncherPhase::WaitingReady,
        ensures
            final(self).wf(),
            final(self).phase == LauncherPhase::Done,
            !final(self).mask_blocked,
            final(self).outcome == Some(Ok::<(), XSetupError>(())),
            r.unblock_signal && !r.kill_child,
    {
        self.phase = LauncherPhase::Done;
        self.mask_blocked = false;
        self.outcome = Some(Ok(()));
        LauncherDirectives { unblock_signal: true, kill_child: false }
    }

    /// The child exited before signaling readiness: unblock the signal and
    /// report the premature exit. There is no child left to kill.
    pub fn child_exited(&mut self) -> (r: LauncherDirectives)
        requires
            old(self).wf(),
            old(self).phase == LauncherPhase::WaitingReady,
        ensures
            final(self).wf(),
            final(self).phase == LauncherPhase::Done,
            !final(self).mask_blocked,
            final(self).outcome == Some(Err::<(), XSetupError>(XSetupError::XServerPrematureExit)),
            r.unblock_signal && !r.kill_child,
    {
        self.phase = LauncherPhase::Done;
        self.mask_blocked = false;
        self.outcome = Some(Err(XSetupError::XServerPrematureExit));
        LauncherDirectives { unblock_signal: true, kill_child: false }
    }

    /// The configured timeout elapsed with neither signal nor exit: unblock
    /// the signal, kill the child, and report the timeout. Only a bounded
    /// timeout can elapse: with `timeout_secs == 0` this step is unreachable,
    /// so an unbounded wait never times out.
    pub fn wait_timed_out(&mut self, elapsed_ms: u64) -> (r: LauncherDirectives)
        requires
            old(self).wf(),
            old(self).phase == LauncherPhase::WaitingReady,
            old(self).timeout_secs != 0,
            elapsed_ms >= old(self).timeout_secs * 1000,
        ensures
            final(self).wf(),
            final(self).phase == LauncherPhase::Done,
            !final(self).mask_blocked,
            final(self).outcome == Some(Err::<(), XSetupError>(XSetupError::XServerTimeout)),
            r.unblock_signal && r.kill_child,
    {
        self.phase = LauncherPhase::Done;
        self.mask_blocked = false;
        self.outcome = Some(Err(XSetupError::XServerTimeout));
        LauncherDirectives { unblock_signal: true, kill_child: true }
    }

    /// Waiting on the notification descriptor failed with anything but an
    /// interruption: unblock the signal and report the error. An interrupted
    /// wait is no event at all: the loop simply polls again.
    pub fn wait_failed(&mut self, err: String) -> (r: LauncherDirectives)
        requires
            old(self).wf(),
            old(self).phase == LauncherPhase::WaitingReady,
        ensures
            final(self).wf(),
            final(self).phase == LauncherPhase::Done,
            !final(self).mask_blocked,
            final(self).outcome == Some(Err::<(), XSetupError>(XSetupError::PollError(err))),
            r.unblock_signal && !r.kill_child,
    {
        self.phase = LauncherPhase::Done;
        self.mask_blocked = false;
        self.outcome = Some(Err(XSetupError::PollError(err)));
        LauncherDirectives { unblock_signal: true, kill_child: false }
    }
}

/// The calling thread's signal mask after the handshake returns equals the
/// mask before it, for every outcome: a finished machine never leaves the
/// readiness signal blocked.
pub proof fn lemma_mask_restored_on_every_exit(l: DisplayServerLauncher)
    requires
        l.wf(),
        l.phase == LauncherPhase::Done,
    ensures
        !l.mask_blocked,
{
}

/// An unbounded wait never reports a timeout.
pub proof fn lemma_unbounded_wait_never_times_out(l: DisplayServerLauncher)
    requires
        l.wf(),
        l.timeout_secs == 0,
    ensures
        l.outcome != Some(Err::<(), XSetupError>(XSetupError::XServerTimeout)),
{
}

/// The lower-case hexadecimal digit for a value below sixteen.
pub open spec fn spec_hex_char(n: int) -> char {
    if n == 0 {
        '0'
    } else if n == 1 {
        '1'
    } else if n == 2 {
        '2'
    } else if n == 3 {
        '3'
    } else if n == 4 {
        '4'
    } else if n == 5 {
        '5'
    } else if n == 6 {
        '6'
    } else if n == 7 {
        '7'
    } else if n == 8 {
        '8'
    } else if n == 9 {
        '9'
    } else if n == 10 {
        'a'
    } else if n == 11 {
        'b'
    } else if n == 12 {
        'c'
    } else if n == 13 {
        'd'
    } else if n == 14 {
        'e'
    } else {
        'f'
    }
}

/// The last `count` lower-case hexadecimal digits of a value, zero-padded.
pub open spec fn spec_hex_digits(v: int, count: nat) -> Seq<char>
    decreases count,
{
    if count == 0 {
        Seq::empty()
    } else {
        spec_hex_digits(v / 16, (count - 1) as nat).push(spec_hex_char(v % 16))
    }
}

/// A hexadecimal rendering always has exactly its digit count.
pub proof fn lemma_hex_digits_len(v: int, count: nat)
    ensures
        spec_hex_digits(v, count).len() == count,
    decreases count,
{
    if count > 0 {
        lemma_hex_digits_len(v / 16, (count - 1) as nat);
    }
}

/// The one-character string for a hexadecimal digit.
fn hex_digit_str(n: u8) -> (r: &'static str)
    requires
        n < 16,
    ensures
        r@ == seq![spec_hex_char(n as int)],
{
    proof {
        reveal_strlit("0");
        reveal_strlit("1");
        reveal_strlit("2");
        reveal_strlit("3");
        reveal_strlit("4");
        reveal_strlit("5");
        reveal_strlit("6");
        reveal_strlit("7");
        reveal_strlit("8");
        reveal_strlit("9");
        reveal_strlit("a");
        reveal_strlit("b");
        reveal_strlit("c");
        reveal_strlit("d");
        reveal_strlit("e");
        reveal_strlit("f");
    }
    let r = if n == 0 {
        "0"
    } else if n == 1 {
        "1"
    } else if n == 2 {
        "2"
    } else if n == 3 {
        "3"
    } else if n == 4 {
        "4"
    } else if n == 5 {
        "5"
    } else if n == 6 {
        "6"
    } else if n == 7 {
        "7"
    } else if n == 8 {
        "8"
    } else if n == 9 {
        "9"
    } else if n == 10 {
        "a"
    } else if n == 11 {
        "b"
    } else if n == 12 {
        "c"
    } else if n == 13 {
        "d"
    } else if n == 14 {
        "e"
    } else {
        "f"
    };
    proof {
        assert(r@ =~= seq![spec_hex_char(n as int)]);
    }
    r
}

/// Render a 128-bit value as its 32 lower-case hexadecimal digits,
/// zero-padded, most significant first.
pub fn format_hex32(v: u128) -> (r: String)
    ensures
        r@ == spec_hex_digits(v as int, 32),
{
    let mut x: u128 = v;
    let mut out = String::new();
    let mut k: usize = 0;
    while k < 32
        invariant
            0 <= k <= 32,
            x as int == spec_shiftdown(v as int, k as nat),
            out@ == spec_hex_digits(v as int, k as nat),
        decreases 32 - k,
    {
        let d: u8 = (x % 16) as u8;
        let digit = hex_digit_str(d);
        let prefixed = String::from_str(digit).concat(out.as_str());
        proof {
            lemma_shiftdown_step(v as int, k as nat);
            lemma_hex_prepend(v as int, k as nat);
        }
        out = prefixed;
        x = x / 16;
        k = k + 1;
    }
    out
}

/// The value with `count` low hexadecimal digits removed.
pub open spec fn spec_shiftdown(v: int, count: nat) -> int
    decreases count,
{
    if count == 0 {
        v
    } else {
        spec_shiftdown(v, (count - 1) as nat) / 16
    }
}

proof fn lemma_shiftdown_step(v: int, k: nat)
    ensures
        spec_shiftdown(v, k) / 16 == spec_shiftdown(v, k + 1),
{
    assert(spec_shiftdown(v, k + 1) == spec_shiftdown(v, ((k + 1) - 1) as nat) / 16);
}

/// Prepending the next digit extends the rendering by one place.
proof fn lemma_hex_prepend(v: int, k: nat)
    ensures
        seq![spec_hex_char(spec_shiftdown(v, k) % 16)] + spec_hex_digits(v, k)
            =~= spec_hex_digits(v, k + 1),
    decreases k,
{
    if k == 0 {
        assert(spec_hex_digits(v, 1) == spec_hex_digits(v / 16, 0).push(spec_hex_char(v % 16)));
        assert(seq![spec_hex_char(spec_shiftdown(v, 0) % 16)] + Seq::<char>::empty() =~= seq![
            spec_hex_char(v % 16),
        ]);
    } else {
        lemma_hex_prepend(v / 16, (k - 1) as nat);
        assert(spec_shiftdown(v, k) == spec_shiftdown(v / 16, (k - 1) as nat)) by {
            lemma_shiftdown_front(v, k);
        }
        assert(spec_hex_digits(v, k) == spec_hex_digits(v / 16, (k - 1) as nat).push(
            spec_hex_char(v % 16),
        ));
        assert(spec_hex_digits(v, k + 1) == spec_hex_digits(v / 16, k as nat).push(
            spec_hex_char(v % 16),
        ));
    }
}

/// Removing digits from below commutes with one division by sixteen.
proof fn lemma_shiftdown_front(v: int, k: nat)
    requires
        k > 0,
    ensures
        spec_shiftdown(v, k) == spec_shiftdown(v / 16, (k - 1) as nat),
    decreases k,
{
    if k == 1 {
        assert(spec_shiftdown(v, 1) == spec_shiftdown(v, 0) / 16);
    } else {
        lemma_shiftdown_front(v, (k - 1) as nat);
        assert(spec_shiftdown(v, k) == spec_shiftdown(v, (k - 1) as nat) / 16);
        assert(spec_shiftdown(v / 16, (k - 1) as nat) == spec_shiftdown(v / 16, (k - 2) as nat)
            / 16);
    }
}

/// The virtual-terminal number as the X server's `vt` argument wants it:
/// padded to at least two digits.
pub fn format_vt_number(vtnr: &str) -> (r: String)
    ensures
        vtnr@.len() == 1 ==> r@ == "0"@ + vtnr@,
        vtnr@.len() != 1 ==> r@ == vtnr@,
{
    if vtnr.unicode_len() == 1 {
        String::from_str("0").concat(vtnr)
    } else {
        vtnr.to_owned()
    }
}

/// Relies on rand: one value drawn from the thread-local generator. The
/// result is random; nothing is promised of it.
#[verifier::external_body]
fn random_u128() -> (r: u128) {
    rand::rng().random()
}

/// A fresh 32-digit hexadecimal authority cookie for the X server.
pub fn mcookie() -> (r: String)
    ensures
        r@.len() == 32,
{
    let v = random_u128();
    let r = format_hex32(v);
    proof {
        lemma_hex_digits_len(v as int, 32);
    }
    r
}

} // verus!
