//! Post-login session targets and the privilege-drop spawner.
//!
//! Before a session child executes any user-controlled program, its identity
//! is reduced in a fixed, irreversible three-step order: supplementary
//! groups, then primary group, then user id. Setting the user id first would
//! forfeit the permission to change groups afterwards, so the order is
//! mandatory; and a failure at any step must abort the child before the
//! target program runs. The sequence is modelled as a state machine whose
//! laws state exactly that, and [`run_privilege_drop`] is the executable
//! driver the forked child runs.

use vstd::prelude::*;

use crate::auth::{parse_env_entry, spec_split_env_entry, AuthUserInfo};
use crate::env_container::EnvironmentContainer;
use crate::strutil::{copy_pairs, copy_u32s, spec_trim, str_eq, trim_spaces};
use crate::views::strs_view;

verus! {

/// A post-login session target: a Wayland compositor script, an X11 client
/// script, or a plain TTY shell.
#[derive(Debug, Clone)]
pub enum PostLoginEnvironment {
    Wayland { script_path: String, env_name: String },
    X11 { script_path: String, env_name: String },
    Shell,
}

impl PostLoginEnvironment {
    /// The value for `XDG_SESSION_TYPE` that this target exports.
    pub fn to_xdg_type(&self) -> (r: &'static str)
        ensures
            r@ == match self {
                PostLoginEnvironment::Shell => "tty"@,
                PostLoginEnvironment::Wayland { .. } => "wayland"@,
                PostLoginEnvironment::X11 { .. } => "x11"@,
            },
    {
        match self {
            Self::Shell => "tty",
            Self::Wayland { .. } => "wayland",
            Self::X11 { .. } => "x11",
        }
    }

    /// The value for `XDG_CURRENT_DESKTOP`, if this target names one.
    pub fn to_xdg_desktop(&self) -> (r: Option<&str>)
        ensures
            match self {
                PostLoginEnvironment::Shell => r is None,
                PostLoginEnvironment::Wayland { env_name, .. } => r matches Some(n) && n@
                    == env_name@,
                PostLoginEnvironment::X11 { env_name, .. } => r matches Some(n) && n@
                    == env_name@,
            },
    {
        match self {
            Self::Wayland { env_name, .. } => Some(env_name.as_str()),
            Self::X11 { env_name, .. } => Some(env_name.as_str()),
            Self::Shell => None,
        }
    }
}

/// Why starting a session target failed.
#[derive(Debug, Clone, PartialEq, Eq, Structural)]
pub enum EnvironmentStartError {
    WaylandStart,
    X11Start,
    TTYStart,
}

/// Whether `i` is the position of the first line break in `s`.
pub open spec fn is_first_newline(s: Seq<char>, i: int) -> bool {
    &&& 0 <= i < s.len()
    &&& s[i] == '\n'
    &&& forall|j: int| 0 <= j < i ==> s[j] != '\n'
}

proof fn lemma_first_newline_unique(s: Seq<char>, a: int, b: int)
    requires
        is_first_newline(s, a),
        is_first_newline(s, b),
    ensures
        a == b,
{
    if a < b {
        assert(s[a] != '\n');
    } else if b < a {
        assert(s[b] != '\n');
    }
}

/// The lines of a text: the pieces between line breaks, with the break
/// characters themselves gone. A text without a break is one line.
pub open spec fn spec_split_lines(s: Seq<char>) -> Seq<Seq<char>>
    decreases s.len(),
{
    if exists|i: int| is_first_newline(s, i) {
        let i = choose|i: int| is_first_newline(s, i);
        seq![s.take(i)] + spec_split_lines(s.skip(i + 1))
    } else {
        seq![s]
    }
}

/// Split a text into its lines, exactly as [`spec_split_lines`] states.
pub fn split_lines(s: &str) -> (r: Vec<String>)
    ensures
        strs_view(r@) == spec_split_lines(s@),
{
    let len = s.unicode_len();
    let mut out: Vec<String> = Vec::new();
    let mut start: usize = 0;
    let mut i: usize = 0;
    proof {
        assert(s@.skip(0) =~= s@);
    }
    while i < len
        invariant
            len == s@.len(),
            0 <= start <= i <= len,
            forall|j: int| start <= j < i ==> s@[j] != '\n',
            spec_split_lines(s@) == strs_view(out@) + spec_split_lines(s@.skip(start as int)),
        decreases len - i,
    {
        if s.get_char(i) == '\n' {
            let line = s.substring_char(start, i).to_owned();
            let ghost prev = out@;
            out.push(line);
            proof {
                let u = s@.skip(start as int);
                let w = i - start as int;
                assert(u[w] == s@[i as int]);
                assert forall|j: int| 0 <= j < w implies u[j] != '\n' by {
                    assert(u[j] == s@[j + start]);
                }
                assert(is_first_newline(u, w));
                let c = choose|c: int| is_first_newline(u, c);
                lemma_first_newline_unique(u, c, w);
                assert(u.take(w) =~= s@.subrange(start as int, i as int));
                assert(u.skip(w + 1) =~= s@.skip(i as int + 1));
                assert(strs_view(out@) =~= strs_view(prev).push(s@.subrange(
                    start as int,
                    i as int,
                )));
                assert(spec_split_lines(u) == seq![u.take(w)] + spec_split_lines(u.skip(w + 1)));
                assert(strs_view(out@) + spec_split_lines(s@.skip(i as int + 1)) =~= strs_view(
                    prev,
                ) + spec_split_lines(u));
            }
            start = i + 1;
        }
        i = i + 1;
    }
    let line = s.substring_char(start, len).to_owned();
    let ghost prev = out@;
    out.push(line);
    proof {
        let u = s@.skip(start as int);
        if exists|c: int| is_first_newline(u, c) {
            let c = choose|c: int| is_first_newline(u, c);
            assert(u[c] == s@[c + start]);
            assert(false);
        }
        assert(u =~= s@.subrange(start as int, len as int));
        assert(strs_view(out@) =~= strs_view(prev).push(u));
        assert(strs_view(out@) =~= strs_view(prev) + spec_split_lines(u));
    }
    out
}

/// The group name a line declares, where the line (with surrounding
/// whitespace ignored) is `[` name `]`.
pub open spec fn spec_header_name(line: Seq<char>) -> Option<Seq<char>> {
    let t = spec_trim(line);
    if t.len() >= 2 && t[0] == '[' && t[t.len() - 1] == ']' {
        Some(t.subrange(1, t.len() - 1))
    } else {
        None
    }
}

/// The key/value pair a line declares: split at the first `=`, with
/// whitespace around key and value ignored.
pub open spec fn spec_entry(line: Seq<char>) -> Option<(Seq<char>, Seq<char>)> {
    match spec_split_env_entry(line) {
        Some(kv) => Some((spec_trim(kv.0), spec_trim(kv.1))),
        None => None,
    }
}

/// The key a line declares, if any.
pub open spec fn spec_entry_key(line: Seq<char>) -> Option<Seq<char>> {
    match spec_entry(line) {
        Some(kv) => Some(kv.0),
        None => None,
    }
}

/// Whether line `h` declares the `Desktop Entry` group.
pub open spec fn is_de_header(lv: Seq<Seq<char>>, h: int) -> bool {
    0 <= h < lv.len() && spec_header_name(lv[h]) == Some("Desktop Entry"@)
}

/// Whether line `h` is the first declaring the `Desktop Entry` group.
pub open spec fn first_de_header(lv: Seq<Seq<char>>, h: int) -> bool {
    is_de_header(lv, h) && forall|j: int| 0 <= j < h ==> !is_de_header(lv, j)
}

/// Whether the group starting at line `h` runs to `e` exactly: every line
/// between declares no group, and `e` is the end of the file or the next
/// group header.
pub open spec fn section_end(lv: Seq<Seq<char>>, h: int, e: int) -> bool {
    &&& h < e <= lv.len()
    &&& (forall|m: int| h < m < e ==> spec_header_name(lv[m]) is None)
    &&& (e == lv.len() || spec_header_name(lv[e]) is Some)
}

/// Why a desktop entry was rejected.
#[derive(Debug, Clone, Copy, PartialEq, Eq, Structural)]
pub enum DesktopEntryError {
    /// No `[Desktop Entry]` group is present.
    MissingGroup,
    /// The group has no `Exec` key.
    MissingExec,
}

fn header_name_of(line: &str) -> (r: Option<String>)
    ensures
        match r {
            Some(nm) => spec_header_name(line@) == Some(nm@),
            None => spec_header_name(line@) is None,
        },
{
    let t = trim_spaces(line);
    let tl = t.unicode_len();
    if tl >= 2 && t.get_char(0) == '[' && t.get_char(tl - 1) == ']' {
        Some(t.substring_char(1, tl - 1).to_owned())
    } else {
        None
    }
}

fn is_any_header(line: &str) -> (r: bool)
    ensures
        r == (spec_header_name(line@) is Some),
{
    header_name_of(line).is_some()
}

fn is_desktop_entry_header(line: &str) -> (r: bool)
    ensures
        r == (spec_header_name(line@) == Some("Desktop Entry"@)),
{
    match header_name_of(line) {
        Some(nm) => str_eq(nm.as_str(), "Desktop Entry"),
        None => false,
    }
}

fn entry_of(line: &str) -> (r: Option<(String, String)>)
    ensures
        match r {
            Some(kv) => spec_entry(line@) == Some((kv.0@, kv.1@)),
            None => spec_entry(line@) is None,
        },
{
    match parse_env_entry(line) {
        Some(kv) => {
            let k = trim_spaces(kv.0.as_str()).to_owned();
            let v = trim_spaces(kv.1.as_str()).to_owned();
            Some((k, v))
        },
        None => None,
    }
}

fn find_de_header(lines: &Vec<String>) -> (r: Option<usize>)
    ensures
        match r {
            Some(h) => first_de_header(strs_view(lines@), h as int),
            None => forall|j: int|
                0 <= j < lines@.len() ==> !is_de_header(strs_view(lines@), j),
        },
{
    let mut h: usize = 0;
    while h < lines.len()
        invariant
            0 <= h <= lines@.len(),
            forall|j: int| 0 <= j < h ==> !is_de_header(strs_view(lines@), j),
        decreases lines@.len() - h,
    {
        proof {
            assert(strs_view(lines@)[h as int] == lines@[h as int]@);
        }
        if is_desktop_entry_header(lines[h].as_str()) {
            return Some(h);
        }
        h = h + 1;
    }
    None
}

/// Read one desktop-entry file, given as its lines: the `Exec` command of
/// the first `Desktop Entry` group, named by the group's `Name` key or by
/// the command itself when no name is given. A file without the group, or a
/// group without `Exec`, is rejected.
pub fn parse_desktop_entry(lines: &Vec<String>) -> (r: Result<(String, String), DesktopEntryError>)
    ensures
        ({
            let lv = strs_view(lines@);
            match r {
                Err(DesktopEntryError::MissingGroup) => forall|h: int|
                    0 <= h < lv.len() ==> !is_de_header(lv, h),
                Err(DesktopEntryError::MissingExec) => exists|h: int, e: int|
                    first_de_header(lv, h) && #[trigger] section_end(lv, h, e) && (forall|m: int|
                        h < m < e ==> spec_entry_key(lv[m]) != Some("Exec"@)),
                Ok(ne) => exists|h: int, e: int|
                    {
                        &&& first_de_header(lv, h)
                        &&& #[trigger] section_end(lv, h, e)
                        &&& (exists|j: int|
                            h < j < e && #[trigger] spec_entry_key(lv[j]) == Some("Exec"@) && (
                            forall|m: int|
                                h < m < j ==> spec_entry_key(lv[m]) != Some("Exec"@))
                                && spec_entry(lv[j])->Some_0.1 == ne.1@)
                        &&& ((exists|m: int|
                            h < m < e && #[trigger] spec_entry_key(lv[m]) == Some("Name"@) && (
                            forall|p: int|
                                h < p < m ==> spec_entry_key(lv[p]) != Some("Name"@))
                                && spec_entry(lv[m])->Some_0.1 == ne.0@) || ((forall|m: int|
                            h < m < e ==> spec_entry_key(lv[m]) != Some("Name"@)) && ne.0@
                            == ne.1@))
                    },
            }
        }),
{
    let ghost lv = strs_view(lines@);
    let n = lines.len();
    let h = match find_de_header(lines) {
        None => {
            return Err(DesktopEntryError::MissingGroup);
        },
        Some(h) => h,
    };
    let mut exec_val: Option<String> = None;
    let mut name_val: Option<String> = None;
    let ghost mut exec_j: int = 0;
    let ghost mut name_m: int = 0;
    let mut j: usize = h + 1;
    while j < n && !is_any_header(lines[j].as_str())
        invariant
            lv == strs_view(lines@),
            n == lv.len(),
            first_de_header(lv, h as int),
            h < j <= n,
            forall|m: int| h < m < j ==> spec_header_name(lv[m]) is None,
            match exec_val {
                None => forall|m: int| h < m < j ==> spec_entry_key(lv[m]) != Some("Exec"@),
                Some(v) => h < exec_j < j && spec_entry_key(lv[exec_j]) == Some("Exec"@) && (
                forall|m: int| h < m < exec_j ==> spec_entry_key(lv[m]) != Some("Exec"@))
                    && spec_entry(lv[exec_j])->Some_0.1 == v@,
            },
            match name_val {
                None => forall|m: int| h < m < j ==> spec_entry_key(lv[m]) != Some("Name"@),
                Some(v) => h < name_m < j && spec_entry_key(lv[name_m]) == Some("Name"@) && (
                forall|m: int| h < m < name_m ==> spec_entry_key(lv[m]) != Some("Name"@))
                    && spec_entry(lv[name_m])->Some_0.1 == v@,
            },
        decreases n - j,
    {
        proof {
            assert(lv[j as int] == lines@[j as int]@);
        }
        match entry_of(lines[j].as_str()) {
            Some(kv) => {
                if exec_val.is_none() && str_eq(kv.0.as_str(), "Exec") {
                    proof {
                        exec_j = j as int;
                    }
                    exec_val = Some(kv.1.clone());
                }
                if name_val.is_none() && str_eq(kv.0.as_str(), "Name") {
                    proof {
                        name_m = j as int;
                    }
                    name_val = Some(kv.1);
                }
            },
            None => {},
        }
        j = j + 1;
    }
    proof {
        if j < n {
            assert(lv[j as int] == lines@[j as int]@);
        }
        assert(section_end(lv, h as int, j as int));
    }
    match exec_val {
        None => Err(DesktopEntryError::MissingExec),
        Some(e) => {
            let name = match name_val {
                Some(nm) => nm,
                None => e.clone(),
            };
            Ok((name, e))
        },
    }
}

/// Assemble the selectable session targets from what the session
/// directories hold: the TTY shell first when configured, then every
/// Wayland session, then every runnable session script; when nothing at all
/// was found, the TTY shell alone is the fallback.
pub fn get_envs(
    include_tty_shell: bool,
    wayland: Vec<(String, String)>,
    scripts: Vec<(String, String)>,
) -> (r: Vec<(String, PostLoginEnvironment)>)
    ensures
        ({
            let t: int = if include_tty_shell {
                1
            } else {
                0
            };
            let w = wayland@.len() as int;
            let sc = scripts@.len() as int;
            &&& (t + w + sc == 0 ==> r@.len() == 1 && r@[0].0@ == "Terminal"@ && r@[0].1
                == PostLoginEnvironment::Shell)
            &&& (t + w + sc > 0 ==> {
                &&& r@.len() == t + w + sc
                &&& (include_tty_shell ==> r@[0].0@ == "Terminal"@ && r@[0].1
                    == PostLoginEnvironment::Shell)
                &&& (forall|j: int|
                    0 <= j < w ==> #[trigger] r@[t + j] == (
                    wayland@[j].0,
                    PostLoginEnvironment::Wayland {
                        script_path: wayland@[j].1,
                        env_name: wayland@[j].0,
                    },
                ))
                &&& (forall|j: int|
                    0 <= j < sc ==> #[trigger] r@[t + w + j] == (
                    scripts@[j].0,
                    PostLoginEnvironment::Wayland {
                        script_path: scripts@[j].1,
                        env_name: scripts@[j].0,
                    },
                ))
            })
        }),
{
    let ghost t: int = if include_tty_shell {
        1int
    } else {
        0int
    };
    let mut r: Vec<(String, PostLoginEnvironment)> = Vec::new();
    if include_tty_shell {
        r.push((String::from_str("Terminal"), PostLoginEnvironment::Shell));
    }
    let mut i: usize = 0;
    while i < wayland.len()
        invariant
            t == if include_tty_shell {
                1int
            } else {
                0int
            },
            0 <= i <= wayland@.len(),
            r@.len() == t + i,
            include_tty_shell ==> r@[0].0@ == "Terminal"@ && r@[0].1
                == PostLoginEnvironment::Shell,
            forall|j: int|
                0 <= j < i ==> #[trigger] r@[t + j] == (
                wayland@[j].0,
                PostLoginEnvironment::Wayland {
                    script_path: wayland@[j].1,
                    env_name: wayland@[j].0,
                },
            ),
        decreases wayland@.len() - i,
    {
        let entry = &wayland[i];
        r.push(
            (
                entry.0.clone(),
                PostLoginEnvironment::Wayland {
                    script_path: entry.1.clone(),
                    env_name: entry.0.clone(),
                },
            ),
        );
        i = i + 1;
    }
    let mut k: usize = 0;
    while k < scripts.len()
        invariant
            t == if include_tty_shell {
                1int
            } else {
                0int
            },
            0 <= k <= scripts@.len(),
            r@.len() == t + wayland@.len() + k,
            include_tty_shell ==> r@[0].0@ == "Terminal"@ && r@[0].1
                == PostLoginEnvironment::Shell,
            forall|j: int|
                0 <= j < wayland@.len() ==> #[trigger] r@[t + j] == (
                wayland@[j].0,
                PostLoginEnvironment::Wayland {
                    script_path: wayland@[j].1,
                    env_name: wayland@[j].0,
                },
            ),
            forall|j: int|
                0 <= j < k ==> #[trigger] r@[t + wayland@.len() + j] == (
                scripts@[j].0,
                PostLoginEnvironment::Wayland {
                    script_path: scripts@[j].1,
                    env_name: scripts@[j].0,
                },
            ),
        decreases scripts@.len() - k,
    {
        let entry = &scripts[k];
        r.push(
            (
                entry.0.clone(),
                PostLoginEnvironment::Wayland {
                    script_path: entry.1.clone(),
                    env_name: entry.0.clone(),
                },
            ),
        );
        k = k + 1;
    }
    if r.len() == 0 {
        r.push((String::from_str("Terminal"), PostLoginEnvironment::Shell));
    }
    r
}

/// One step of the privilege drop, in its mandatory order.
#[derive(Debug, Clone, Copy, PartialEq, Eq, Structural)]
pub enum DropStep {
    SetGroups,
    SetGid,
    SetUid,
}

/// Why a spawn failed: the privilege drop failed at the named step.
#[derive(Debug, Clone, Copy, PartialEq, Eq, Structural)]
pub enum SpawnError {
    PrivilegeDropFailed(DropStep),
}

/// What the forked child must do next.
#[derive(Debug, Clone, Copy, PartialEq, Eq, Structural)]
pub enum DropAction {
    /// Set the supplementary groups to exactly the target's groups.
    DoSetGroups,
    /// Set the primary group id.
    DoSetGid,
    /// Set the user id; this step is irreversible.
    DoSetUid,
    /// All three steps succeeded: only now may the target program run.
    Exec,
    /// The named step failed: abort the child, executing nothing.
    Abort(DropStep),
}

/// The step a given position in the sequence performs.
pub open spec fn step_at(i: int) -> DropStep {
    if i == 0 {
        DropStep::SetGroups
    } else if i == 1 {
        DropStep::SetGid
    } else {
        DropStep::SetUid
    }
}

/// The privilege-drop sequence: how many steps have succeeded, and whether
/// one has failed.
pub struct PrivilegeDropSequence {
    pub done: u8,
    pub failed: Option<DropStep>,
}

impl PrivilegeDropSequence {
    /// The machine invariant.
    pub open spec fn wf(&self) -> bool {
        &&& self.done <= 3
        &&& (self.failed matches Some(s) ==> self.done < 3 && s == step_at(self.done as int))
    }

    /// The action the sequence demands next: the steps in their fixed order,
    /// `Exec` only once all three are done, and `Abort` forever after a
    /// failure.
    pub open spec fn spec_next_action(&self) -> DropAction {
        match self.failed {
            Some(s) => DropAction::Abort(s),
            None => if self.done == 0 {
                DropAction::DoSetGroups
            } else if self.done == 1 {
                DropAction::DoSetGid
            } else if self.done == 2 {
                DropAction::DoSetUid
            } else {
                DropAction::Exec
            },
        }
    }

    /// The sequence after one step's outcome is recorded: success advances,
    /// failure pins the failed step; a finished or failed sequence no longer
    /// moves.
    pub open spec fn spec_record(self, ok: bool) -> PrivilegeDropSequence {
        if self.failed is Some || self.done >= 3 {
            self
        } else if ok {
            PrivilegeDropSequence { done: (self.done + 1) as u8, failed: self.failed }
        } else {
            PrivilegeDropSequence { done: self.done, failed: Some(step_at(self.done as int)) }
        }
    }

    /// A fresh sequence: nothing done, nothing failed.
    pub fn new() -> (r: PrivilegeDropSequence)
        ensures
            r.wf(),
            r.done == 0,
            r.failed is None,
    {
        PrivilegeDropSequence { done: 0, failed: None }
    }

    /// What to do next.
    pub fn next_action(&self) -> (r: DropAction)
        requires
            self.wf(),
        ensures
            r == self.spec_next_action(),
    {
        match self.failed {
            Some(s) => DropAction::Abort(s),
            None => {
                if self.done == 0 {
                    DropAction::DoSetGroups
                } else if self.done == 1 {
                    DropAction::DoSetGid
                } else if self.done == 2 {
                    DropAction::DoSetUid
                } else {
                    DropAction::Exec
                }
            },
        }
    }

    /// Record whether the step just performed succeeded.
    pub fn record(&mut self, ok: bool)
        requires
            old(self).wf(),
        ensures
            final(self).wf(),
            *final(self) == old(self).spec_record(ok),
    {
        if self.failed.is_none() && self.done < 3 {
            if ok {
                self.done = self.done + 1;
            } else {
                let step = if self.done == 0 {
                    DropStep::SetGroups
                } else if self.done == 1 {
                    DropStep::SetGid
                } else {
                    DropStep::SetUid
                };
                self.failed = Some(step);
            }
        }
    }
}

/// The sequence after a whole run of step outcomes, from a fresh machine.
pub open spec fn run_drop(results: Seq<bool>) -> PrivilegeDropSequence
    decreases results.len(),
{
    if results.len() == 0 {
        PrivilegeDropSequence { done: 0, failed: None }
    } else {
        run_drop(results.drop_last()).spec_record(results.last())
    }
}

/// Any run is well formed.
pub proof fn lemma_run_drop_wf(results: Seq<bool>)
    ensures
        run_drop(results).wf(),
    decreases results.len(),
{
    if results.len() > 0 {
        lemma_run_drop_wf(results.drop_last());
    }
}

/// The order holds for every spawn: after any run of successful steps, the
/// next action demanded is exactly the next step of
/// setgroups, setgid, setuid, and after all three only `Exec` remains.
pub proof fn lemma_drop_order(results: Seq<bool>)
    requires
        results.len() <= 3,
        forall|j: int| 0 <= j < results.len() ==> results[j],
    ensures
        run_drop(results).done == results.len(),
        run_drop(results).failed is None,
        results.len() == 0 ==> run_drop(results).spec_next_action() == DropAction::DoSetGroups,
        results.len() == 1 ==> run_drop(results).spec_next_action() == DropAction::DoSetGid,
        results.len() == 2 ==> run_drop(results).spec_next_action() == DropAction::DoSetUid,
        results.len() == 3 ==> run_drop(results).spec_next_action() == DropAction::Exec,
    decreases results.len(),
{
    if results.len() > 0 {
        assert(forall|j: int| 0 <= j < results.drop_last().len() ==> results.drop_last()[j]);
        lemma_drop_order(results.drop_last());
    }
}

/// If step `i` fails, no later step and no target-program execution occurs:
/// the whole rest of the run leaves the machine pinned at the failed step,
/// demanding `Abort` and never `Exec`.
pub proof fn lemma_failed_step_halts_sequence(results: Seq<bool>, i: int)
    requires
        0 <= i < results.len(),
        i < 3,
        !results[i],
        forall|j: int| 0 <= j < i ==> results[j],
    ensures
        run_drop(results).done == i,
        run_drop(results).failed == Some(step_at(i)),
        run_drop(results).spec_next_action() == DropAction::Abort(step_at(i)),
    decreases results.len(),
{
    if i == results.len() - 1 {
        assert(results.drop_last().len() == i);
        assert(forall|j: int| 0 <= j < i ==> results.drop_last()[j] == results[j]);
        lemma_drop_order(results.drop_last());
    } else {
        assert(!results.drop_last()[i]);
        assert(forall|j: int| 0 <= j < i ==> results.drop_last()[j] == results[j]);
        lemma_failed_step_halts_sequence(results.drop_last(), i);
    }
}

/// `Exec` is demanded only when all three steps have succeeded.
pub proof fn lemma_exec_needs_all_steps(m: PrivilegeDropSequence)
    requires
        m.wf(),
        m.spec_next_action() == DropAction::Exec,
    ensures
        m.done == 3,
        m.failed is None,
{
}

/// Relies on nix::unistd::setgroups to set the supplementary group list.
/// The outcome is the kernel's; nothing is promised of it.
#[verifier::external_body]
fn sys_setgroups(gids: &Vec<u32>) -> (r: Result<(), i32>) {
    let groups: Vec<nix::unistd::Gid> = gids.iter().map(|g| nix::unistd::Gid::from_raw(
        *g,
    )).collect();
    nix::unistd::setgroups(&groups).map_err(|e| e as i32)
}

/// Relies on nix::unistd::setgid to set the primary group id.
/// The outcome is the kernel's; nothing is promised of it.
#[verifier::external_body]
fn sys_setgid(gid: u32) -> (r: Result<(), i32>) {
    nix::unistd::setgid(nix::unistd::Gid::from_raw(gid)).map_err(|e| e as i32)
}

/// Relies on nix::unistd::setuid to set the user id, irreversibly.
/// The outcome is the kernel's; nothing is promised of it.
#[verifier::external_body]
fn sys_setuid(uid: u32) -> (r: Result<(), i32>) {
    nix::unistd::setuid(nix::unistd::Uid::from_raw(uid)).map_err(|e| e as i32)
}

/// Drop the child's privileges to the target identity, in the mandatory
/// order, aborting at the first failure. This is what the forked child runs
/// before the target program; on `Err` the child must terminate at once.
pub fn run_privilege_drop(uid: u32, gid: u32, gids: &Vec<u32>) -> (r: Result<(), SpawnError>)
    ensures
        r matches Err(e) ==> e matches SpawnError::PrivilegeDropFailed(_),
{
    let mut sequence = PrivilegeDropSequence::new();
    loop
        invariant
            sequence.wf(),
        decreases 2 * (4 - sequence.done as int) - (if sequence.failed is Some {
            1int
        } else {
            0int
        }),
    {
        match sequence.next_action() {
            DropAction::DoSetGroups => {
                let ok = sys_setgroups(gids).is_ok();
                sequence.record(ok);
            },
            DropAction::DoSetGid => {
                let ok = sys_setgid(gid).is_ok();
                sequence.record(ok);
            },
            DropAction::DoSetUid => {
                let ok = sys_setuid(uid).is_ok();
                sequence.record(ok);
            },
            DropAction::Exec => {
                return Ok(());
            },
            DropAction::Abort(step) => {
                return Err(SpawnError::PrivilegeDropFailed(step));
            },
        }
    }
}

/// The shell flag a session child is started with.
#[derive(Debug, Clone, Copy, PartialEq, Eq, Structural)]
pub enum ShellLoginFlag {
    NoFlag,
    Short,
    Long,
}

/// Everything a session spawn needs, fixed before the fork: program,
/// arguments, environment, working directory and target identity.
pub struct SpawnRequest {
    pub program: String,
    pub args: Vec<String>,
    pub env: Vec<(String, String)>,
    pub working_dir: String,
    pub uid: u32,
    pub gid: u32,
    pub gids: Vec<u32>,
}

/// The argument list a target is started with: the optional login flag, then
/// `-c`, then the target script or the user's shell.
pub open spec fn spec_session_args(
    target: Seq<char>,
    shell_login_flag: ShellLoginFlag,
) -> Seq<Seq<char>> {
    let flag_part: Seq<Seq<char>> = match shell_login_flag {
        ShellLoginFlag::NoFlag => Seq::empty(),
        ShellLoginFlag::Short => seq!["-l"@],
        ShellLoginFlag::Long => seq!["--login"@],
    };
    flag_part + seq!["-c"@, target]
}

impl PostLoginEnvironment {
    /// The command line this target runs: the Wayland or X11 script, or the
    /// user's own shell for a TTY session.
    pub open spec fn spec_target_command(&self, user_shell: Seq<char>) -> Seq<char> {
        match self {
            PostLoginEnvironment::Wayland { script_path, .. } => script_path@,
            PostLoginEnvironment::X11 { script_path, .. } => script_path@,
            PostLoginEnvironment::Shell => user_shell,
        }
    }

    /// Assemble the spawn request for this target: the system shell runs the
    /// target command under the user's identity, with the assembled
    /// environment and working directory.
    pub fn spawn_request(
        &self,
        user_info: &AuthUserInfo,
        process_env: &EnvironmentContainer,
        shell_login_flag: ShellLoginFlag,
        system_shell: &str,
    ) -> (r: SpawnRequest)
        ensures
            r.program@ == system_shell@,
            strs_view(r.args@) == spec_session_args(
                self.spec_target_command(user_info.shell@),
                shell_login_flag,
            ),
            r.env@ == process_env.vars@,
            r.working_dir == process_env.working_dir,
            r.uid == user_info.uid,
            r.gid == user_info.primary_gid,
            r.gids@ == user_info.all_gids@,
    {
        let mut args: Vec<String> = Vec::new();
        match shell_login_flag {
            ShellLoginFlag::NoFlag => {},
            ShellLoginFlag::Short => args.push(String::from_str("-l")),
            ShellLoginFlag::Long => args.push(String::from_str("--login")),
        }
        args.push(String::from_str("-c"));
        let target = match self {
            Self::Wayland { script_path, .. } => script_path.clone(),
            Self::X11 { script_path, .. } => script_path.clone(),
            Self::Shell => user_info.shell.clone(),
        };
        args.push(target);
        proof {
            assert(strs_view(args@) =~= spec_session_args(
                self.spec_target_command(user_info.shell@),
                shell_login_flag,
            ));
        }
        SpawnRequest {
            program: system_shell.to_owned(),
            args,
            env: copy_pairs(&process_env.vars),
            working_dir: process_env.working_dir.clone(),
            uid: user_info.uid,
            gid: user_info.primary_gid,
            gids: copy_u32s(&user_info.all_gids),
        }
    }
}

} // verus!
