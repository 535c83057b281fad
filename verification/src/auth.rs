//! The PAM-mediated authentication pipeline, modelled as an explicit state
//! machine.
//!
//! The four PAM steps (authenticate, account check, set credentials, open
//! session) each cross a C ABI boundary; the calls themselves are performed by
//! unverified glue, which reports every status code back into the machine
//! here. The machine decides how each status is interpreted, when the held
//! secret is cleared, and guarantees that an [`AuthUserInfo`] can only be
//! built from a flow that has passed every step.

use vstd::prelude::*;

use uzers::os::unix::UserExt;

verus! {

/// PAM status code for a successful call.
pub const PAM_STATUS_SUCCESS: i32 = 0;

/// PAM status code: the service cannot retrieve user credentials.
pub const PAM_STATUS_CRED_UNAVAIL: i32 = 15;

/// PAM status code: the user's credentials have expired.
pub const PAM_STATUS_CRED_EXPIRED: i32 = 16;

/// Conversation message style: prompt with echo disabled (a password prompt).
pub const PAM_MSG_PROMPT_ECHO_OFF: i32 = 1;

/// Conversation message style: prompt with echo enabled.
pub const PAM_MSG_PROMPT_ECHO_ON: i32 = 2;

/// Conversation message style: an error message to show the user.
pub const PAM_MSG_ERROR: i32 = 3;

/// Conversation message style: an informational message to show the user.
pub const PAM_MSG_TEXT_INFO: i32 = 4;

/// Everything that can go wrong while opening an authenticated session.
///
/// The enumeration is closed: every PAM status maps into exactly one variant,
/// and a status without a dedicated variant is carried verbatim in `Other`.
#[derive(Debug, Clone, PartialEq, Eq, Structural)]
pub enum AuthenticationError {
    /// The PAM transaction could not be started for the service.
    ServiceInit,
    /// Authentication or the account check rejected the credentials.
    InvalidCredentials,
    /// PAM accepted the user but the name service knows no such user.
    IdentityNotFound,
    /// The user's home directory or shell path is not valid UTF-8.
    PathEncoding,
    /// The PAM session could not be opened.
    SessionOpenFailed,
    /// Establishing credentials failed: credentials unavailable.
    CredentialsUnavailable,
    /// Establishing credentials failed: credentials expired.
    CredentialsExpired,
    /// Any other PAM status code, carried unchanged.
    Other(i32),
}

/// The reply the conversation callback hands back for one prompt message.
#[derive(Debug, Clone, PartialEq, Eq)]
pub enum ConversationReply {
    /// Answer the prompt with the held secret.
    Secret(String),
    /// Answer the prompt with empty text.
    EmptyText,
    /// Hand back no response at all.
    NoResponse,
    /// The message style is unknown: abort the whole conversation.
    AbortConversation,
}

/// The state shared with the conversation callback: the in-flight secret.
///
/// The secret is present only until authentication succeeds; afterwards every
/// prompt receives [`ConversationReply::NoResponse`], never stale memory.
pub struct PamConversationState {
    pub secret: Option<String>,
}

impl PamConversationState {
    /// What the conversation answers for a message of the given style.
    pub open spec fn spec_respond(&self, style: i32) -> ConversationReply {
        if style == PAM_MSG_PROMPT_ECHO_OFF || style == PAM_MSG_PROMPT_ECHO_ON {
            match self.secret {
                Some(s) => ConversationReply::Secret(s),
                None => ConversationReply::NoResponse,
            }
        } else if style == PAM_MSG_ERROR || style == PAM_MSG_TEXT_INFO {
            ConversationReply::EmptyText
        } else {
            ConversationReply::AbortConversation
        }
    }

    /// Decide the reply for one conversation message: prompts receive the held
    /// secret (or nothing once it is cleared), info and error messages receive
    /// empty text, and any unknown style aborts the conversation.
    pub fn respond(&self, style: i32) -> (r: ConversationReply)
        ensures
            r == self.spec_respond(style),
    {
        if style == PAM_MSG_PROMPT_ECHO_OFF || style == PAM_MSG_PROMPT_ECHO_ON {
            match &self.secret {
                Some(s) => ConversationReply::Secret(s.clone()),
                None => ConversationReply::NoResponse,
            }
        } else if style == PAM_MSG_ERROR || style == PAM_MSG_TEXT_INFO {
            ConversationReply::EmptyText
        } else {
            ConversationReply::AbortConversation
        }
    }
}

/// An ephemeral credential: a username and the secret password, held only
/// until the authentication flow takes them over, and never logged.
pub struct Credential {
    pub username: String,
    pub secret: String,
}

impl Credential {
    /// Hold a username and its secret for one authentication attempt.
    pub fn new(username: String, secret: String) -> (r: Credential)
        ensures
            r.username == username,
            r.secret == secret,
    {
        Credential { username, secret }
    }

    /// Begin the authentication flow: the secret moves into the conversation
    /// state, and the username remains for the transaction and the identity
    /// lookup.
    pub fn into_flow(self) -> (r: (String, PamFlow))
        ensures
            r.0 == self.username,
            r.1.wf(),
            r.1.phase == PamPhase::Started,
            r.1.conv.secret == Some(self.secret),
    {
        (self.username, PamFlow::begin(self.secret))
    }
}

/// How far the PAM transaction has come. The order is fixed:
/// authenticate, account check, set credentials, open session.
#[derive(Debug, Clone, Copy, PartialEq, Eq, Structural)]
pub enum PamPhase {
    /// The transaction is open; nothing has been verified yet.
    Started,
    /// `pam_authenticate` succeeded; the secret has been cleared.
    Authenticated,
    /// `pam_acct_mgmt` succeeded.
    AccountChecked,
    /// `pam_setcred` succeeded.
    CredentialsSet,
    /// `pam_open_session` succeeded: the full sequence is done.
    SessionOpened,
}

/// The authentication flow: the current phase plus the conversation state.
pub struct PamFlow {
    pub phase: PamPhase,
    pub conv: PamConversationState,
}

impl PamFlow {
    /// The flow invariant: once authentication has succeeded the secret is
    /// gone, in every later phase.
    pub open spec fn wf(&self) -> bool {
        self.phase != PamPhase::Started ==> self.conv.secret is None
    }

    /// Begin a flow for a freshly started PAM transaction holding the secret
    /// for the conversation callback.
    pub fn begin(secret: String) -> (r: PamFlow)
        ensures
            r.wf(),
            r.phase == PamPhase::Started,
            r.conv.secret == Some(secret),
    {
        PamFlow {
            phase: PamPhase::Started,
            conv: PamConversationState { secret: Some(secret) },
        }
    }

    /// Record the status of `pam_authenticate`. On success the held secret is
    /// cleared at once, so no later prompt can ever receive it; on failure the
    /// caller gets `InvalidCredentials` and the flow does not advance.
    pub fn complete_authenticate(&mut self, status: i32) -> (r: Result<(), AuthenticationError>)
        requires
            old(self).phase == PamPhase::Started,
        ensures
            final(self).wf(),
            status == PAM_STATUS_SUCCESS ==> r is Ok
                && final(self).phase == PamPhase::Authenticated
                && final(self).conv.secret is None,
            status != PAM_STATUS_SUCCESS ==> r == Err::<(), AuthenticationError>(
                AuthenticationError::InvalidCredentials,
            ) && *final(self) == *old(self),
    {
        if status == PAM_STATUS_SUCCESS {
            self.conv.secret = None;
            self.phase = PamPhase::Authenticated;
            Ok(())
        } else {
            Err(AuthenticationError::InvalidCredentials)
        }
    }

    /// Record the status of `pam_acct_mgmt`.
    pub fn complete_account_check(&mut self, status: i32) -> (r: Result<(), AuthenticationError>)
        requires
            old(self).wf(),
            old(self).phase == PamPhase::Authenticated,
        ensures
            final(self).wf(),
            final(self).conv == old(self).conv,
            status == PAM_STATUS_SUCCESS ==> r is Ok
                && final(self).phase == PamPhase::AccountChecked,
            status != PAM_STATUS_SUCCESS ==> r == Err::<(), AuthenticationError>(
                AuthenticationError::InvalidCredentials,
            ) && *final(self) == *old(self),
    {
        if status == PAM_STATUS_SUCCESS {
            self.phase = PamPhase::AccountChecked;
            Ok(())
        } else {
            Err(AuthenticationError::InvalidCredentials)
        }
    }

    /// Record the status of `pam_setcred`. The two credential statuses with
    /// dedicated variants map to those variants; every other failing status is
    /// surfaced unchanged as `Other`, never coerced into an unrelated variant.
    pub fn complete_set_credentials(&mut self, status: i32) -> (r: Result<
        (),
        AuthenticationError,
    >)
        requires
            old(self).wf(),
            old(self).phase == PamPhase::AccountChecked,
        ensures
            final(self).wf(),
            final(self).conv == old(self).conv,
            status == PAM_STATUS_SUCCESS ==> r is Ok
                && final(self).phase == PamPhase::CredentialsSet,
            status != PAM_STATUS_SUCCESS ==> *final(self) == *old(self),
            status == PAM_STATUS_CRED_UNAVAIL ==> r == Err::<(), AuthenticationError>(
                AuthenticationError::CredentialsUnavailable,
            ),
            status == PAM_STATUS_CRED_EXPIRED ==> r == Err::<(), AuthenticationError>(
                AuthenticationError::CredentialsExpired,
            ),
            status != PAM_STATUS_SUCCESS && status != PAM_STATUS_CRED_UNAVAIL && status
                != PAM_STATUS_CRED_EXPIRED ==> r == Err::<(), AuthenticationError>(
                AuthenticationError::Other(status),
            ),
    {
        if status == PAM_STATUS_SUCCESS {
            self.phase = PamPhase::CredentialsSet;
            Ok(())
        } else if status == PAM_STATUS_CRED_UNAVAIL {
            Err(AuthenticationError::CredentialsUnavailable)
        } else if status == PAM_STATUS_CRED_EXPIRED {
            Err(AuthenticationError::CredentialsExpired)
        } else {
            Err(AuthenticationError::Other(status))
        }
    }

    /// Record the status of `pam_open_session`.
    pub fn complete_open_session(&mut self, status: i32) -> (r: Result<(), AuthenticationError>)
        requires
            old(self).wf(),
            old(self).phase == PamPhase::CredentialsSet,
        ensures
            final(self).wf(),
            final(self).conv == old(self).conv,
            status == PAM_STATUS_SUCCESS ==> r is Ok
                && final(self).phase == PamPhase::SessionOpened,
            status != PAM_STATUS_SUCCESS ==> r == Err::<(), AuthenticationError>(
                AuthenticationError::SessionOpenFailed,
            ) && *final(self) == *old(self),
    {
        if status == PAM_STATUS_SUCCESS {
            self.phase = PamPhase::SessionOpened;
            Ok(())
        } else {
            Err(AuthenticationError::SessionOpenFailed)
        }
    }
}

/// The held secret is cleared no later than immediately after a successful
/// authenticate step: in every phase past `Started`, a prompt of either echo
/// style receives no response.
pub proof fn lemma_cleared_secret_prompts_get_nothing(flow: PamFlow, style: i32)
    requires
        flow.wf(),
        flow.phase != PamPhase::Started,
        style == PAM_MSG_PROMPT_ECHO_OFF || style == PAM_MSG_PROMPT_ECHO_ON,
    ensures
        flow.conv.spec_respond(style) == ConversationReply::NoResponse,
{
}

/// Interpret the status of `pam_start` itself, before any flow exists.
pub fn interpret_start_status(status: i32) -> (r: Result<(), AuthenticationError>)
    ensures
        status == PAM_STATUS_SUCCESS <==> r is Ok,
        status != PAM_STATUS_SUCCESS ==> r == Err::<(), AuthenticationError>(
            AuthenticationError::ServiceInit,
        ),
{
    if status == PAM_STATUS_SUCCESS {
        Ok(())
    } else {
        Err(AuthenticationError::ServiceInit)
    }
}

/// `i` is the position of the first `=` in `s`.
pub open spec fn is_first_eq(s: Seq<char>, i: int) -> bool {
    &&& 0 <= i < s.len()
    &&& s[i] == '='
    &&& forall|j: int| 0 <= j < i ==> s[j] != '='
}

/// The first `=` position is unique.
pub proof fn lemma_first_eq_unique(s: Seq<char>, a: int, b: int)
    requires
        is_first_eq(s, a),
        is_first_eq(s, b),
    ensures
        a == b,
{
    if a < b {
        assert(s[a] != '=');
    } else if b < a {
        assert(s[b] != '=');
    }
}

/// What one exported environment entry means: split `KEY=VALUE` at the first
/// `=`; an entry without `=` carries no variable.
pub open spec fn spec_split_env_entry(s: Seq<char>) -> Option<(Seq<char>, Seq<char>)> {
    if exists|i: int| is_first_eq(s, i) {
        let i = choose|i: int| is_first_eq(s, i);
        Some((s.subrange(0, i), s.subrange(i + 1, s.len() as int)))
    } else {
        None
    }
}

/// Split one `KEY=VALUE` entry, as exported by the PAM environment list, at
/// its first `=`.
pub fn parse_env_entry(entry: &str) -> (r: Option<(String, String)>)
    ensures
        match r {
            Some(kv) => spec_split_env_entry(entry@) == Some((kv.0@, kv.1@)),
            None => spec_split_env_entry(entry@) is None,
        },
{
    let len = entry.unicode_len();
    let mut i: usize = 0;
    while i < len
        invariant
            len == entry@.len(),
            0 <= i <= len,
            forall|j: int| 0 <= j < i ==> entry@[j] != '=',
        decreases len - i,
    {
        if entry.get_char(i) == '=' {
            let key = entry.substring_char(0, i).to_owned();
            let val = entry.substring_char(i + 1, len).to_owned();
            proof {
                assert(is_first_eq(entry@, i as int));
                let c = choose|c: int| is_first_eq(entry@, c);
                lemma_first_eq_unique(entry@, c, i as int);
            }
            return Some((key, val));
        }
        i = i + 1;
    }
    proof {
        if exists|c: int| is_first_eq(entry@, c) {
            let c = choose|c: int| is_first_eq(entry@, c);
            assert(entry@[c] != '=');
        }
    }
    None
}

/// The sequence of key/value pairs in a sequence of strings.
pub open spec fn pairs_view(v: Seq<(String, String)>) -> Seq<(Seq<char>, Seq<char>)> {
    v.map_values(|p: (String, String)| (p.0@, p.1@))
}

/// The variables harvested from a list of exported entries, in order; entries
/// without `=` are passed over, all others are kept unaltered.
pub open spec fn spec_harvest(entries: Seq<Seq<char>>) -> Seq<(Seq<char>, Seq<char>)>
    decreases entries.len(),
{
    if entries.len() == 0 {
        Seq::empty()
    } else {
        let rest = spec_harvest(entries.drop_last());
        match spec_split_env_entry(entries.last()) {
            Some(kv) => rest.push(kv),
            None => rest,
        }
    }
}

/// Harvest the PAM-exported environment: parse every `KEY=VALUE` entry, in
/// order, losing none and altering none.
pub fn harvest_env(entries: &Vec<String>) -> (r: Vec<(String, String)>)
    ensures
        pairs_view(r@) == spec_harvest(entries@.map_values(|e: String| e@)),
{
    let ghost all = entries@.map_values(|e: String| e@);
    let mut result: Vec<(String, String)> = Vec::new();
    let mut i: usize = 0;
    while i < entries.len()
        invariant
            all == entries@.map_values(|e: String| e@),
            0 <= i <= entries@.len(),
            pairs_view(result@) == spec_harvest(all.subrange(0, i as int)),
        decreases entries@.len() - i,
    {
        let ghost prev = result@;
        match parse_env_entry(entries[i].as_str()) {
            Some(kv) => {
                result.push(kv);
                proof {
                    assert(pairs_view(result@) =~= pairs_view(prev).push(
                        (result@.last().0@, result@.last().1@),
                    ));
                }
            },
            None => {},
        }
        proof {
            let pre = all.subrange(0, i as int);
            let cur = all.subrange(0, i as int + 1);
            assert(cur.drop_last() =~= pre);
            assert(cur.last() == entries@[i as int]@);
        }
        i = i + 1;
    }
    proof {
        assert(all.subrange(0, entries@.len() as int) =~= all);
    }
    result
}

/// What the name service reports for one user, reduced to plain values.
/// A path that is not valid UTF-8 is reported as `None`.
#[derive(Debug, Clone, PartialEq, Eq)]
pub struct UserRecord {
    pub uid: u32,
    pub primary_gid: u32,
    pub all_gids: Vec<u32>,
    pub home_dir: Option<String>,
    pub shell: Option<String>,
}

/// Relies on uzers::get_user_by_name for the name-service lookup, and on
/// uzers' accessors `uid`, `primary_group_id`, `groups`, `home_dir` and
/// `shell` to read the record. The outcome depends on the system's user
/// database, so nothing is promised of it.
#[verifier::external_body]
fn lookup_user(username: &str) -> (r: Option<UserRecord>) {
    uzers::get_user_by_name(username).map(|u| UserRecord {
        uid: u.uid(),
        primary_gid: u.primary_group_id(),
        all_gids: u.groups().map_or_else(Vec::new, |gs| {
            gs.into_iter().map(|g| g.gid()).collect()
        }),
        home_dir: u.home_dir().to_str().map(|s| s.to_string()),
        shell: u.shell().to_str().map(|s| s.to_string()),
    })
}

/// The POSIX identity of an authenticated user, fully resolved.
#[derive(Debug, Clone, PartialEq, Eq)]
pub struct PosixIdentity {
    pub uid: u32,
    pub primary_gid: u32,
    pub all_gids: Vec<u32>,
    pub home_dir: String,
    pub shell: String,
}

/// Interpret one name-service outcome: absence is `IdentityNotFound` (PAM
/// success does not guarantee the name service resolves the user), a path
/// that is not UTF-8 is `PathEncoding`, and a complete record yields the
/// identity unaltered.
pub fn interpret_user_record(record: Option<UserRecord>) -> (r: Result<
    PosixIdentity,
    AuthenticationError,
>)
    ensures
        match record {
            None => r == Err::<PosixIdentity, AuthenticationError>(
                AuthenticationError::IdentityNotFound,
            ),
            Some(rec) => {
                if rec.home_dir is None || rec.shell is None {
                    r == Err::<PosixIdentity, AuthenticationError>(
                        AuthenticationError::PathEncoding,
                    )
                } else {
                    &&& r is Ok
                    &&& r->Ok_0.uid == rec.uid
                    &&& r->Ok_0.primary_gid == rec.primary_gid
                    &&& r->Ok_0.all_gids == rec.all_gids
                    &&& Some(r->Ok_0.home_dir) == rec.home_dir
                    &&& Some(r->Ok_0.shell) == rec.shell
                }
            },
        },
{
    match record {
        None => Err(AuthenticationError::IdentityNotFound),
        Some(rec) => {
            let home_dir = match rec.home_dir {
                Some(h) => h,
                None => {
                    return Err(AuthenticationError::PathEncoding);
                },
            };
            let shell = match rec.shell {
                Some(s) => s,
                None => {
                    return Err(AuthenticationError::PathEncoding);
                },
            };
            Ok(PosixIdentity {
                uid: rec.uid,
                primary_gid: rec.primary_gid,
                all_gids: rec.all_gids,
                home_dir,
                shell,
            })
        },
    }
}

/// Resolve a username to its POSIX identity through the name service.
/// Whatever the lookup reports, the outcome is interpreted exactly as
/// [`interpret_user_record`] states.
pub fn resolve_identity(username: &str) -> (r: Result<PosixIdentity, AuthenticationError>)
    ensures
        r is Err ==> r->Err_0 == AuthenticationError::IdentityNotFound || r->Err_0
            == AuthenticationError::PathEncoding,
{
    interpret_user_record(lookup_user(username))
}

/// An authenticated user: the result of the full PAM sequence plus the
/// resolved POSIX identity and the harvested PAM environment.
///
/// A value of this type can only be built from a flow whose phase is
/// `SessionOpened`: no partial-success variant is representable. The glue
/// that owns the PAM handle keeps it beside this value and ends the session
/// when the value is gone.
pub struct AuthUserInfo {
    pub username: String,
    pub uid: u32,
    pub primary_gid: u32,
    pub all_gids: Vec<u32>,
    pub home_dir: String,
    pub shell: String,
    pub pam_env: Vec<(String, String)>,
}

impl AuthUserInfo {
    /// Build the authenticated identity. The flow is consumed: it must have
    /// passed authenticate, account check, set credentials and open session.
    /// The harvested environment reflects the exported entries exactly.
    pub fn from_session(
        flow: PamFlow,
        username: String,
        identity: PosixIdentity,
        env_entries: &Vec<String>,
    ) -> (r: AuthUserInfo)
        requires
            flow.wf(),
            flow.phase == PamPhase::SessionOpened,
        ensures
            r.username == username,
            r.uid == identity.uid,
            r.primary_gid == identity.primary_gid,
            r.all_gids == identity.all_gids,
            r.home_dir == identity.home_dir,
            r.shell == identity.shell,
            pairs_view(r.pam_env@) == spec_harvest(env_entries@.map_values(|e: String| e@)),
    {
        let pam_env = harvest_env(env_entries);
        AuthUserInfo {
            username,
            uid: identity.uid,
            primary_gid: identity.primary_gid,
            all_gids: identity.all_gids,
            home_dir: identity.home_dir,
            shell: identity.shell,
            pam_env,
        }
    }

    /// The PAM-exported environment variables, in export order.
    pub fn get_env(&self) -> (r: &Vec<(String, String)>)
        ensures
            r == &self.pam_env,
    {
        &self.pam_env
    }
}

} // verus!
