//! The registry of pseudo-console sessions: creation, lookup, listing,
//! termination, signals, resizing, attachment bookkeeping and idle reaping.
//! Native resources are created and released by the caller; the registry
//! records which handles belong to which session and hands each record back
//! exactly once, when the session leaves the registry.

use vstd::prelude::*;

use dashmap::DashMap;

use crate::text::{hex_digits, with_hex8};
use crate::types::{
    ApiError, ErrorCode, SessionCreateRequest, SessionCreateResponse, SessionInfo, SessionState,
    Shell, Signal,
};

verus! {

/// An OS handle held as an integer-sized opaque value, so that it can cross
/// threads.
#[derive(Debug, Clone, Copy, PartialEq, Eq, Structural)]
pub struct SendHandle(pub usize);

impl SendHandle {
    /// Wraps a raw handle value.
    pub fn from_handle(h: usize) -> (r: SendHandle)
        ensures
            r.0 == h,
    {
        SendHandle(h)
    }

    /// The raw handle value.
    pub fn as_handle(&self) -> (r: usize)
        ensures
            r == self.0,
    {
        self.0
    }
}

/// A pseudo-console handle held as an integer-sized opaque value.
#[derive(Debug, Clone, Copy, PartialEq, Eq, Structural)]
pub struct SendablePty {
    handle: usize,
}

impl SendablePty {
    /// The raw handle value.
    pub closed spec fn spec_handle(&self) -> usize {
        self.handle
    }

    /// Wraps a raw pseudo-console handle value.
    pub fn new(handle: usize) -> (r: SendablePty)
        ensures
            r.spec_handle() == handle,
    {
        SendablePty { handle }
    }

    /// The raw pseudo-console handle value.
    pub fn handle(&self) -> (r: usize)
        ensures
            r == self.spec_handle(),
    {
        self.handle
    }
}

/// The record of one session. Instants are milliseconds since the Unix epoch.
#[derive(Debug)]
pub struct Session {
    pub id: String,
    pub shell: Shell,
    pub pid: u32,
    pub state: SessionState,
    pub attached: bool,
    pub cols: u16,
    pub rows: u16,
    pub created_at_ms: i64,
    pub last_activity_ms: i64,
    /// Idle time in seconds after which an unattached session is reaped.
    pub idle_timeout_sec: u64,
    /// The shell process; terminated and closed when the session is removed.
    pub process_handle: SendHandle,
    /// The pseudo-console; closed when the session is removed.
    pub pty: SendablePty,
}

impl Session {
    /// A copy of the record.
    pub fn duplicate(&self) -> (r: Session)
        ensures
            r == *self,
    {
        Session {
            id: self.id.clone(),
            shell: self.shell,
            pid: self.pid,
            state: self.state,
            attached: self.attached,
            cols: self.cols,
            rows: self.rows,
            created_at_ms: self.created_at_ms,
            last_activity_ms: self.last_activity_ms,
            idle_timeout_sec: self.idle_timeout_sec,
            process_handle: self.process_handle,
            pty: self.pty,
        }
    }
}

/// dashmap's concurrent map, opaque to the proofs; what it holds is named
/// by `registry_entries`.
#[verifier::external_type_specification]
#[verifier::external_body]
#[verifier::reject_recursive_types(K)]
#[verifier::reject_recursive_types(V)]
#[verifier::reject_recursive_types(S)]
pub struct ExDashMap<K, V, S>(DashMap<K, V, S>);

/// The sessions that a map holds, by identifier.
pub uninterp spec fn registry_entries(m: DashMap<String, Session>) -> Map<Seq<char>, Session>;

/// Relies on `DashMap::new`: the map starts empty.
#[verifier::external_body]
fn map_new() -> (r: DashMap<String, Session>)
    ensures
        registry_entries(r).dom() == Set::<Seq<char>>::empty(),
{
    DashMap::new()
}

/// Relies on `DashMap::insert`: the key afterwards maps to the value, the
/// other keys are unchanged.
#[verifier::external_body]
fn map_insert(m: &mut DashMap<String, Session>, key: String, value: Session)
    ensures
        registry_entries(*final(m)) == registry_entries(*old(m)).insert(key@, value),
{
    m.insert(key, value);
}

/// Relies on `DashMap::remove`: the entry of the key, if any, leaves the map
/// and is returned.
#[verifier::external_body]
fn map_remove(m: &mut DashMap<String, Session>, key: &str) -> (r: Option<Session>)
    ensures
        registry_entries(*final(m)) == registry_entries(*old(m)).remove(key@),
        registry_entries(*old(m)).contains_key(key@) ==> r == Some(registry_entries(*old(m))[key@]),
        !registry_entries(*old(m)).contains_key(key@) ==> r is None,
{
    m.remove(key).map(|(_, v)| v)
}

/// Relies on `DashMap::get`: a copy of the entry of the key, if any.
#[verifier::external_body]
fn map_get(m: &DashMap<String, Session>, key: &str) -> (r: Option<Session>)
    ensures
        registry_entries(*m).contains_key(key@) ==> r == Some(registry_entries(*m)[key@]),
        !registry_entries(*m).contains_key(key@) ==> r is None,
{
    m.get(key).map(|e| e.value().duplicate())
}

/// Relies on `DashMap::contains_key`.
#[verifier::external_body]
fn map_contains(m: &DashMap<String, Session>, key: &str) -> (r: bool)
    ensures
        r == registry_entries(*m).contains_key(key@),
{
    m.contains_key(key)
}

/// Relies on `DashMap::iter`: each key of the map once, in no fixed order.
#[verifier::external_body]
fn map_keys(m: &DashMap<String, Session>) -> (r: Vec<String>)
    ensures
        forall|i: int| 0 <= i < r@.len() ==> registry_entries(*m).contains_key(#[trigger] r@[i]@),
        forall|k: Seq<char>| registry_entries(*m).contains_key(k) ==> exists|i: int| 0 <= i < r@.len() && #[trigger] r@[i]@ == k,
        forall|i: int, j: int| 0 <= i < j < r@.len() ==> #[trigger] r@[i]@ != #[trigger] r@[j]@,
{
    m.iter().map(|e| e.key().clone()).collect()
}


/// What `DateTime::to_rfc3339` writes for an instant given in milliseconds
/// since the Unix epoch.
pub uninterp spec fn rfc3339_of(ms: i64) -> Seq<char>;

/// Relies on chrono's `DateTime::<Utc>::from_timestamp_millis`, which turns
/// the instant into a date, and `DateTime::to_rfc3339`, which writes it: the
/// text depends on the instant alone. An instant outside chrono's range gives
/// the empty string.
#[verifier::external_body]
fn format_rfc3339(ms: i64) -> (r: String)
    ensures
        r@ == rfc3339_of(ms),
{
    match chrono::DateTime::<chrono::Utc>::from_timestamp_millis(ms) {
        Some(d) => d.to_rfc3339(),
        None => String::new(),
    }
}

/// The Crockford base-32 digits, in order of value.
pub open spec fn crockford_alphabet() -> Seq<char> {
    "0123456789ABCDEFGHJKMNPQRSTVWXYZ"@
}

/// Relies on `Ulid::new` and `Ulid::to_string`: a fresh time-ordered
/// identifier, written in 26 Crockford base-32 characters.
#[verifier::external_body]
fn new_ulid_text() -> (r: String)
    ensures
        r@.len() == 26,
        forall|i: int| 0 <= i < 26 ==> crockford_alphabet().contains(#[trigger] r@[i]),
{
    ulid::Ulid::new().to_string()
}

/// Interval of the idle reaper, in milliseconds.
pub const REAPER_INTERVAL_MS: u64 = 30_000;

/// Errors of registry operations.
#[derive(Debug)]
pub enum SessionError {
    /// No session has the identifier.
    NotFound,
    /// The host cannot run pseudo-console sessions.
    NotSupported(String),
    /// A native call or the registry failed.
    Internal(String),
}

/// The HTTP status and body for a registry error: 404 `NOT_FOUND`,
/// 501 `NOT_SUPPORTED` or 500 `INTERNAL`.
pub fn session_error_response(e: SessionError) -> (r: (u16, ApiError))
    ensures
        match e {
            SessionError::NotFound => r.0 == 404 && r.1.error.code == ErrorCode::NotFound
                && r.1.error.message@ == "Session not found"@,
            SessionError::NotSupported(m) => r.0 == 501 && r.1.error.code == ErrorCode::NotSupported
                && r.1.error.message@ == m@,
            SessionError::Internal(m) => r.0 == 500 && r.1.error.code == ErrorCode::Internal
                && r.1.error.message@ == m@,
        },
        r.1.error.details.extra@.len() == 0,
{
    match e {
        SessionError::NotFound => (404, ApiError::new(ErrorCode::NotFound, String::from_str("Session not found"))),
        SessionError::NotSupported(m) => (501, ApiError::new(ErrorCode::NotSupported, m)),
        SessionError::Internal(m) => (500, ApiError::new(ErrorCode::Internal, m)),
    }
}

/// The error of a host without the pseudo-console facility.
pub fn conpty_unsupported_error() -> (r: SessionError)
    ensures
        r matches SessionError::NotSupported(m) && m@ == "ConPTY is only available on Windows"@,
{
    SessionError::NotSupported(String::from_str("ConPTY is only available on Windows"))
}

/// The error of a failed native call that returned a status code, written
/// as `<call> failed: 0x` and eight hexadecimal digits.
pub fn native_status_error(call: &str, status: u32) -> (r: SessionError)
    ensures
        r matches SessionError::Internal(m) && m@ == call@ + " failed: "@ + "0x"@ + hex_digits(status as nat, 8),
{
    let mut prefix = String::from_str(call);
    prefix.append(" failed: ");
    SessionError::Internal(with_hex8(prefix.as_str(), status))
}

/// Whether a session's metadata is reported faithfully by `info`.
pub open spec fn info_matches(info: SessionInfo, s: Session) -> bool {
    &&& info.id@ == s.id@
    &&& info.shell == s.shell
    &&& info.pid == s.pid
    &&& info.state == s.state
    &&& info.attached == s.attached
    &&& info.cols == s.cols
    &&& info.rows == s.rows
    &&& info.created_at@ == rfc3339_of(s.created_at_ms)
    &&& info.last_activity_at@ == rfc3339_of(s.last_activity_ms)
}

/// The metadata of a session.
pub fn session_info(s: &Session) -> (r: SessionInfo)
    ensures
        info_matches(r, *s),
{
    SessionInfo {
        id: s.id.clone(),
        shell: s.shell,
        pid: s.pid,
        state: s.state,
        attached: s.attached,
        cols: s.cols,
        rows: s.rows,
        created_at: format_rfc3339(s.created_at_ms),
        last_activity_at: format_rfc3339(s.last_activity_ms),
    }
}

/// Whether the reaper removes the session at instant `now_ms`: it is
/// unattached and the time since its last activity exceeds its timeout.
pub open spec fn reap_due(s: Session, now_ms: int) -> bool {
    !s.attached && now_ms - s.last_activity_ms > s.idle_timeout_sec * 1000
}

/// Decides whether the reaper removes the session.
pub fn is_reap_due(s: &Session, now_ms: i64) -> (r: bool)
    ensures
        r == reap_due(*s, now_ms as int),
{
    if s.attached || now_ms < s.last_activity_ms {
        return false;
    }
    let diff: u128 = (now_ms as i128 - s.last_activity_ms as i128) as u128;
    diff > s.idle_timeout_sec as u128 * 1000
}

/// The session with its last activity moved to `now_ms`, unless that is
/// earlier than the activity already recorded.
pub open spec fn touched(s: Session, now_ms: int) -> Session {
    if now_ms > s.last_activity_ms {
        Session { last_activity_ms: now_ms as i64, ..s }
    } else {
        s
    }
}

/// No session's last activity moved backwards.
pub open spec fn activity_monotone(before: Map<Seq<char>, Session>, after: Map<Seq<char>, Session>) -> bool {
    forall|k: Seq<char>|
        before.contains_key(k) && after.contains_key(k) ==> #[trigger] after[k].last_activity_ms >= before[k].last_activity_ms
}

/// Outcome of an attach request.
#[derive(Debug, Clone, Copy, PartialEq, Eq, Structural)]
pub enum AttachOutcome {
    /// The attachment is accepted and the session marked attached.
    Attached,
    /// No session has the identifier.
    NotFound,
    /// Another attachment is active.
    AlreadyAttached,
    /// The shell has exited: the attachment is closed normally.
    Ended,
}

/// The outcome of an attach request on the registry's sessions.
pub open spec fn attach_outcome(entries: Map<Seq<char>, Session>, id: Seq<char>) -> AttachOutcome {
    if !entries.contains_key(id) {
        AttachOutcome::NotFound
    } else if entries[id].attached {
        AttachOutcome::AlreadyAttached
    } else if entries[id].state == SessionState::Exited {
        AttachOutcome::Ended
    } else {
        AttachOutcome::Attached
    }
}

/// The close code of an attach outcome that ends the attachment at once.
pub open spec fn attach_close_code(outcome: AttachOutcome) -> Option<u16> {
    match outcome {
        AttachOutcome::Attached => None,
        AttachOutcome::NotFound => Some(1011u16),
        AttachOutcome::AlreadyAttached => Some(1008u16),
        AttachOutcome::Ended => Some(1000u16),
    }
}

/// The close frame, code and reason, that ends an attachment at once;
/// none when the attachment was accepted.
pub fn attach_close_frame(outcome: AttachOutcome) -> (r: Option<(u16, String)>)
    ensures
        r is None <==> attach_close_code(outcome) is None,
        r matches Some(f) ==> attach_close_code(outcome) == Some(f.0),
        outcome == AttachOutcome::NotFound ==> (r matches Some(f) && f.1@ == "Session not found"@),
        outcome == AttachOutcome::AlreadyAttached ==> (r matches Some(f) && f.1@ == "Session already attached"@),
        outcome == AttachOutcome::Ended ==> (r matches Some(f) && f.1@ == "Session ended"@),
{
    match outcome {
        AttachOutcome::Attached => None,
        AttachOutcome::NotFound => Some((1011, String::from_str("Session not found"))),
        AttachOutcome::AlreadyAttached => Some((1008, String::from_str("Session already attached"))),
        AttachOutcome::Ended => Some((1000, String::from_str("Session ended"))),
    }
}

/// What the caller does to deliver a signal.
#[derive(Debug)]
pub enum SignalAction {
    /// Enqueue these bytes on the session's input channel.
    Input(Vec<u8>),
    /// Terminate the shell process behind this handle.
    TerminateProcess(SendHandle),
}

/// No two sessions hold the same process or the same pseudo-console.
pub open spec fn handles_distinct(entries: Map<Seq<char>, Session>) -> bool {
    forall|a: Seq<char>, b: Seq<char>|
        #[trigger] entries.contains_key(a) && #[trigger] entries.contains_key(b) && a != b
            ==> entries[a].process_handle != entries[b].process_handle && entries[a].pty != entries[b].pty
}

/// Whether no session holds the process or the pseudo-console.
pub open spec fn handles_fresh(entries: Map<Seq<char>, Session>, process_handle: SendHandle, pty: SendablePty) -> bool {
    forall|k: Seq<char>| #[trigger] entries.contains_key(k) ==> entries[k].process_handle != process_handle && entries[k].pty != pty
}

/// The attachment path of a session.
pub open spec fn ws_path(id: Seq<char>) -> Seq<char> {
    "/api/v1/sessions/"@ + id + "/ws"@
}

/// The registry of live sessions, keyed by identifier.
pub struct SessionManager {
    sessions: DashMap<String, Session>,
}

impl View for SessionManager {
    type V = Map<Seq<char>, Session>;

    closed spec fn view(&self) -> Map<Seq<char>, Session> {
        registry_entries(self.sessions)
    }
}

impl Default for SessionManager {
    fn default() -> (r: SessionManager)
        ensures
            r.wf(),
            r@ == Map::<Seq<char>, Session>::empty(),
    {
        SessionManager::new()
    }
}

impl SessionManager {
    /// Each session is filed under its own identifier, and no two sessions
    /// hold the same process or pseudo-console.
    pub open spec fn wf(&self) -> bool {
        &&& forall|k: Seq<char>| #[trigger] self@.contains_key(k) ==> self@[k].id@ == k
        &&& handles_distinct(self@)
    }

    /// Whether a native handle already belongs to a session.
    fn handles_in_use(&self, process_handle: SendHandle, pty: SendablePty) -> (r: bool)
        ensures
            r == !handles_fresh(self@, process_handle, pty),
    {
        let keys = map_keys(&self.sessions);
        let mut i: usize = 0;
        while i < keys.len()
            invariant
                i <= keys@.len(),
                forall|j: int| 0 <= j < keys@.len() ==> self@.contains_key(#[trigger] keys@[j]@),
                forall|k: Seq<char>| self@.contains_key(k) ==> exists|j: int| 0 <= j < keys@.len() && #[trigger] keys@[j]@ == k,
                forall|j: int| 0 <= j < i ==> self@[#[trigger] keys@[j]@].process_handle != process_handle
                    && self@[keys@[j]@].pty != pty,
            decreases keys@.len() - i,
        {
            proof {
                assert(self@.contains_key(keys@[i as int]@));
            }
            if let Some(s) = map_get(&self.sessions, keys[i].as_str()) {
                if s.process_handle == process_handle || s.pty == pty {
                    return true;
                }
            }
            i = i + 1;
        }
        proof {
            assert forall|k: Seq<char>| #[trigger] self@.contains_key(k) implies self@[k].process_handle != process_handle
                && self@[k].pty != pty by {
                let j = choose|j: int| 0 <= j < keys@.len() && #[trigger] keys@[j]@ == k;
                assert(self@[keys@[j]@].process_handle != process_handle);
            }
        }
        false
    }

    /// An empty registry.
    pub fn new() -> (r: SessionManager)
        ensures
            r.wf(),
            r@ == Map::<Seq<char>, Session>::empty(),
    {
        let r = SessionManager { sessions: map_new() };
        proof {
            assert(r@ =~= Map::<Seq<char>, Session>::empty());
        }
        r
    }

    /// Files a new running, unattached session under `id` with the created
    /// native resources, if no session has that identifier and no session
    /// holds those resources; the request's shell, size and idle timeout are
    /// recorded and both instants are `now_ms`.
    pub fn register_session(
        &mut self,
        id: String,
        req: &SessionCreateRequest,
        pid: u32,
        process_handle: SendHandle,
        pty: SendablePty,
        now_ms: i64,
    ) -> (r: Result<SessionCreateResponse, SessionError>)
        requires
            old(self).wf(),
        ensures
            final(self).wf(),
            activity_monotone(old(self)@, final(self)@),
            old(self)@.contains_key(id@) || !handles_fresh(old(self)@, process_handle, pty) ==> (r matches Err(
                SessionError::Internal(_),
            ) && final(self)@ == old(self)@),
            !old(self)@.contains_key(id@) && handles_fresh(old(self)@, process_handle, pty) ==> {
                &&& r matches Ok(resp)
                &&& resp.id@ == id@
                &&& resp.ws_url@ == ws_path(id@)
                &&& resp.created_at@ == rfc3339_of(now_ms)
                &&& final(self)@ == old(self)@.insert(id@, final(self)@[id@])
                &&& final(self)@[id@] == (Session {
                    id,
                    shell: req.shell,
                    pid,
                    state: SessionState::Running,
                    attached: false,
                    cols: req.cols,
                    rows: req.rows,
                    created_at_ms: now_ms,
                    last_activity_ms: now_ms,
                    idle_timeout_sec: req.idle_timeout_sec,
                    process_handle,
                    pty,
                })
            },
    {
        if map_contains(&self.sessions, id.as_str()) {
            return Err(SessionError::Internal(String::from_str("Session identifier already in use")));
        }
        if self.handles_in_use(process_handle, pty) {
            return Err(SessionError::Internal(String::from_str("Native handle already registered")));
        }
        let mut ws_url = String::from_str("/api/v1/sessions/");
        ws_url.append(id.as_str());
        ws_url.append("/ws");
        let resp = SessionCreateResponse { id: id.clone(), ws_url, created_at: format_rfc3339(now_ms) };
        let session = Session {
            id: id.clone(),
            shell: req.shell,
            pid,
            state: SessionState::Running,
            attached: false,
            cols: req.cols,
            rows: req.rows,
            created_at_ms: now_ms,
            last_activity_ms: now_ms,
            idle_timeout_sec: req.idle_timeout_sec,
            process_handle,
            pty,
        };
        map_insert(&mut self.sessions, id, session);
        Ok(resp)
    }

    /// Files a new session under a fresh identifier (see `register_session`).
    /// Whatever identifier comes back, the registry either gains exactly one
    /// running, unattached session under it, or is unchanged and an error is
    /// returned. With handles that no session holds and no identifier of
    /// the identifier's length in the registry, it succeeds.
    pub fn create_session(
        &mut self,
        req: &SessionCreateRequest,
        pid: u32,
        process_handle: SendHandle,
        pty: SendablePty,
        now_ms: i64,
    ) -> (r: Result<SessionCreateResponse, SessionError>)
        requires
            old(self).wf(),
        ensures
            final(self).wf(),
            activity_monotone(old(self)@, final(self)@),
            r is Err ==> final(self)@ == old(self)@,
            handles_fresh(old(self)@, process_handle, pty) && (forall|k: Seq<char>|
                #[trigger] old(self)@.contains_key(k) ==> k.len() != 26) ==> r is Ok,
            r matches Ok(resp) ==> {
                &&& resp.id@.len() == 26
                &&& forall|i: int| 0 <= i < 26 ==> crockford_alphabet().contains(#[trigger] resp.id@[i])
                &&& !old(self)@.contains_key(resp.id@)
                &&& handles_fresh(old(self)@, process_handle, pty)
                &&& resp.ws_url@ == ws_path(resp.id@)
                &&& resp.created_at@ == rfc3339_of(now_ms)
                &&& final(self)@ == old(self)@.insert(resp.id@, final(self)@[resp.id@])
                &&& final(self)@[resp.id@].id@ == resp.id@
                &&& final(self)@[resp.id@].shell == req.shell
                &&& final(self)@[resp.id@].cols == req.cols
                &&& final(self)@[resp.id@].rows == req.rows
                &&& final(self)@[resp.id@].created_at_ms == now_ms
                &&& final(self)@[resp.id@].last_activity_ms == now_ms
                &&& final(self)@[resp.id@].idle_timeout_sec == req.idle_timeout_sec
                &&& final(self)@[resp.id@].pid == pid
                &&& final(self)@[resp.id@].state == SessionState::Running
                &&& !final(self)@[resp.id@].attached
                &&& final(self)@[resp.id@].process_handle == process_handle
                &&& final(self)@[resp.id@].pty == pty
            },
    {
        let id = new_ulid_text();
        self.register_session(id, req, pid, process_handle, pty, now_ms)
    }

    /// Snapshot of the metadata of every session, in no fixed order.
    pub fn list_sessions(&self) -> (r: Vec<SessionInfo>)
        requires
            self.wf(),
        ensures
            forall|i: int| 0 <= i < r@.len() ==> self@.contains_key(#[trigger] r@[i].id@) && info_matches(r@[i], self@[r@[i].id@]),
            forall|k: Seq<char>| self@.contains_key(k) ==> exists|i: int| 0 <= i < r@.len() && #[trigger] r@[i].id@ == k,
            forall|i: int, j: int| 0 <= i < j < r@.len() ==> #[trigger] r@[i].id@ != #[trigger] r@[j].id@,
    {
        let keys = map_keys(&self.sessions);
        let mut out: Vec<SessionInfo> = Vec::new();
        let mut i: usize = 0;
        while i < keys.len()
            invariant
                i <= keys@.len(),
                self.wf(),
                out@.len() == i,
                forall|j: int| 0 <= j < keys@.len() ==> self@.contains_key(#[trigger] keys@[j]@),
                forall|j: int| 0 <= j < i ==> (#[trigger] out@[j]).id@ == keys@[j]@ && info_matches(out@[j], self@[keys@[j]@]),
            decreases keys@.len() - i,
        {
            let k = &keys[i];
            match map_get(&self.sessions, k.as_str()) {
                Some(s) => {
                    out.push(session_info(&s));
                },
                None => {
                    proof {
                        assert(self@.contains_key(keys@[i as int]@));
                    }
                },
            }
            i = i + 1;
        }
        proof {
            assert forall|k: Seq<char>| self@.contains_key(k) implies exists|i: int| 0 <= i < out@.len() && #[trigger] out@[i].id@ == k by {
                let i = choose|i: int| 0 <= i < keys@.len() && #[trigger] keys@[i]@ == k;
                assert(out@[i].id@ == k);
            }
            assert forall|a: int, b: int| 0 <= a < b < out@.len() implies #[trigger] out@[a].id@ != #[trigger] out@[b].id@ by {
                assert(keys@[a]@ != keys@[b]@);
            }
        }
        out
    }

    /// Metadata of the session with the identifier, if there is one.
    pub fn get_session(&self, id: &str) -> (r: Option<SessionInfo>)
        requires
            self.wf(),
        ensures
            r is Some <==> self@.contains_key(id@),
            r matches Some(info) ==> info_matches(info, self@[id@]),
    {
        match map_get(&self.sessions, id) {
            Some(s) => Some(session_info(&s)),
            None => None,
        }
    }

    /// Whether a session has the identifier.
    pub fn session_exists(&self, id: &str) -> (r: bool)
        ensures
            r == self@.contains_key(id@),
    {
        map_contains(&self.sessions, id)
    }

    /// A copy of the record of the session with the identifier, if there is one.
    pub fn get_session_for_ws(&self, id: &str) -> (r: Option<Session>)
        ensures
            self@.contains_key(id@) ==> r == Some(self@[id@]),
            !self@.contains_key(id@) ==> r is None,
    {
        map_get(&self.sessions, id)
    }

    /// Removes the session and hands its record back, so that the caller
    /// terminates the shell and releases its handles; `NotFound` when no
    /// session has the identifier.
    pub fn terminate_session(&mut self, id: &str) -> (r: Result<Session, SessionError>)
        requires
            old(self).wf(),
        ensures
            final(self).wf(),
            activity_monotone(old(self)@, final(self)@),
            final(self)@ == old(self)@.remove(id@),
            old(self)@.contains_key(id@) ==> r == Ok::<Session, SessionError>(old(self)@[id@]),
            !old(self)@.contains_key(id@) ==> r matches Err(SessionError::NotFound),
    {
        match map_remove(&mut self.sessions, id) {
            Some(s) => Ok(s),
            None => Err(SessionError::NotFound),
        }
    }

    /// What delivers the signal: a `0x03` byte on the input channel for
    /// `CtrlC` and `CtrlBreak`, terminating the shell process for
    /// `Terminate`; `NotFound` when no session has the identifier.
    pub fn send_signal(&self, id: &str, signal: Signal) -> (r: Result<SignalAction, SessionError>)
        ensures
            !self@.contains_key(id@) ==> r matches Err(SessionError::NotFound),
            self@.contains_key(id@) ==> match signal {
                Signal::Terminate => r matches Ok(SignalAction::TerminateProcess(h)) && h == self@[id@].process_handle,
                _ => r matches Ok(SignalAction::Input(b)) && b@ == seq![0x03u8],
            },
    {
        match map_get(&self.sessions, id) {
            None => Err(SessionError::NotFound),
            Some(s) => match signal {
                Signal::Terminate => Ok(SignalAction::TerminateProcess(s.process_handle)),
                _ => {
                    let mut b: Vec<u8> = Vec::new();
                    b.push(0x03);
                    proof {
                        assert(b@ =~= seq![0x03u8]);
                    }
                    Ok(SignalAction::Input(b))
                },
            },
        }
    }

    /// The pseudo-console to resize for the session.
    pub fn pty_of(&self, id: &str) -> (r: Result<SendablePty, SessionError>)
        ensures
            !self@.contains_key(id@) ==> r matches Err(SessionError::NotFound),
            self@.contains_key(id@) ==> r == Ok::<SendablePty, SessionError>(self@[id@].pty),
    {
        match map_get(&self.sessions, id) {
            None => Err(SessionError::NotFound),
            Some(s) => Ok(s.pty),
        }
    }

    /// Records the outcome of resizing the session's pseudo-console: on
    /// success the new size is stored; a failure is reported and leaves the
    /// stored size as it was.
    pub fn resize_session(&mut self, id: &str, cols: u16, rows: u16, outcome: Result<(), String>) -> (r: Result<(), SessionError>)
        requires
            old(self).wf(),
        ensures
            final(self).wf(),
            !old(self)@.contains_key(id@) ==> (r matches Err(SessionError::NotFound)) && final(self)@ == old(self)@,
            old(self)@.contains_key(id@) && outcome is Err ==> (r matches Err(SessionError::Internal(m)) && outcome matches Err(o) && m@ == o@) && final(self)@ == old(self)@,
            old(self)@.contains_key(id@) && outcome is Ok ==> r is Ok && final(self)@ == old(self)@.insert(id@, Session { cols, rows, ..old(self)@[id@] }),
            activity_monotone(old(self)@, final(self)@),
    {
        match map_get(&self.sessions, id) {
            None => Err(SessionError::NotFound),
            Some(s) => match outcome {
                Err(msg) => Err(SessionError::Internal(msg)),
                Ok(()) => {
                    let updated = Session { cols, rows, ..s };
                    let key = updated.id.clone();
                    map_insert(&mut self.sessions, key, updated);
                    Ok(())
                },
            },
        }
    }

    /// Handles an attach request: accepted only for a running session with
    /// no active attachment, which is then marked attached and touched;
    /// otherwise the registry is unchanged.
    pub fn attach(&mut self, id: &str, now_ms: i64) -> (r: AttachOutcome)
        requires
            old(self).wf(),
        ensures
            final(self).wf(),
            r == attach_outcome(old(self)@, id@),
            r == AttachOutcome::Attached ==> final(self)@ == old(self)@.insert(
                id@,
                Session { attached: true, ..touched(old(self)@[id@], now_ms as int) },
            ),
            r != AttachOutcome::Attached ==> final(self)@ == old(self)@,
            activity_monotone(old(self)@, final(self)@),
    {
        match map_get(&self.sessions, id) {
            None => AttachOutcome::NotFound,
            Some(s) => {
                if s.attached {
                    AttachOutcome::AlreadyAttached
                } else if s.state == SessionState::Exited {
                    AttachOutcome::Ended
                } else {
                    let last = if now_ms > s.last_activity_ms { now_ms } else { s.last_activity_ms };
                    let updated = Session { attached: true, last_activity_ms: last, ..s };
                    let key = updated.id.clone();
                    map_insert(&mut self.sessions, key, updated);
                    AttachOutcome::Attached
                }
            },
        }
    }

    /// Ends the session's attachment, if the session is still there.
    pub fn detach(&mut self, id: &str)
        requires
            old(self).wf(),
        ensures
            final(self).wf(),
            old(self)@.contains_key(id@) ==> final(self)@ == old(self)@.insert(id@, Session { attached: false, ..old(self)@[id@] }),
            !old(self)@.contains_key(id@) ==> final(self)@ == old(self)@,
            activity_monotone(old(self)@, final(self)@),
    {
        if let Some(s) = map_get(&self.sessions, id) {
            let updated = Session { attached: false, ..s };
            let key = updated.id.clone();
            map_insert(&mut self.sessions, key, updated);
        }
    }

    /// Records activity on the session at `now_ms`; the last activity never
    /// moves backwards.
    pub fn touch(&mut self, id: &str, now_ms: i64)
        requires
            old(self).wf(),
        ensures
            final(self).wf(),
            old(self)@.contains_key(id@) ==> final(self)@ == old(self)@.insert(id@, touched(old(self)@[id@], now_ms as int)),
            !old(self)@.contains_key(id@) ==> final(self)@ == old(self)@,
            activity_monotone(old(self)@, final(self)@),
    {
        if let Some(s) = map_get(&self.sessions, id) {
            if now_ms > s.last_activity_ms {
                let updated = Session { last_activity_ms: now_ms, ..s };
                let key = updated.id.clone();
                map_insert(&mut self.sessions, key, updated);
            } else {
                proof {
                    assert(old(self)@.insert(id@, old(self)@[id@]) =~= old(self)@);
                }
            }
        }
    }

    /// Records that the session's shell has exited.
    pub fn mark_exited(&mut self, id: &str)
        requires
            old(self).wf(),
        ensures
            final(self).wf(),
            old(self)@.contains_key(id@) ==> final(self)@ == old(self)@.insert(id@, Session { state: SessionState::Exited, ..old(self)@[id@] }),
            !old(self)@.contains_key(id@) ==> final(self)@ == old(self)@,
            activity_monotone(old(self)@, final(self)@),
    {
        if let Some(s) = map_get(&self.sessions, id) {
            let updated = Session { state: SessionState::Exited, ..s };
            let key = updated.id.clone();
            map_insert(&mut self.sessions, key, updated);
        }
    }

    /// One pass of the idle reaper at instant `now_ms`: every session that
    /// is due (unattached, idle longer than its timeout) leaves the registry
    /// and its record is handed back for termination; the others stay as
    /// they are.
    #[verifier::spinoff_prover]
    #[verifier::rlimit(40)]
    pub fn cleanup_idle_sessions(&mut self, now_ms: i64) -> (r: Vec<Session>)
        requires
            old(self).wf(),
        ensures
            final(self).wf(),
            forall|k: Seq<char>| #[trigger] final(self)@.contains_key(k) <==> old(self)@.contains_key(k) && !reap_due(old(self)@[k], now_ms as int),
            forall|k: Seq<char>| #[trigger] final(self)@.contains_key(k) ==> final(self)@[k] == old(self)@[k],
            forall|i: int| 0 <= i < r@.len() ==> old(self)@.contains_key(#[trigger] r@[i].id@) && r@[i] == old(self)@[r@[i].id@]
                && reap_due(r@[i], now_ms as int),
            forall|k: Seq<char>| old(self)@.contains_key(k) && reap_due(old(self)@[k], now_ms as int)
                ==> exists|i: int| 0 <= i < r@.len() && #[trigger] r@[i].id@ == k,
            forall|i: int, j: int| 0 <= i < j < r@.len() ==> #[trigger] r@[i].id@ != #[trigger] r@[j].id@,
            activity_monotone(old(self)@, final(self)@),
    {
        let keys = map_keys(&self.sessions);
        let ghost start = self@;
        let mut removed: Vec<Session> = Vec::new();
        let mut i: usize = 0;
        while i < keys.len()
            invariant
                i <= keys@.len(),
                self.wf(),
                start == old(self)@,
                forall|j: int| 0 <= j < keys@.len() ==> start.contains_key(#[trigger] keys@[j]@),
                forall|k: Seq<char>| start.contains_key(k) ==> exists|j: int| 0 <= j < keys@.len() && #[trigger] keys@[j]@ == k,
                forall|a: int, b: int| 0 <= a < b < keys@.len() ==> #[trigger] keys@[a]@ != #[trigger] keys@[b]@,
                forall|k: Seq<char>| #[trigger] self@.contains_key(k) ==> start.contains_key(k) && self@[k] == start[k],
                forall|k: Seq<char>| start.contains_key(k) && !reap_due(start[k], now_ms as int) ==> #[trigger] self@.contains_key(k),
                forall|j: int| i <= j < keys@.len() ==> self@.contains_key(#[trigger] keys@[j]@),
                forall|j: int| 0 <= j < i && reap_due(start[keys@[j]@], now_ms as int) ==> !self@.contains_key(#[trigger] keys@[j]@),
                forall|m: int| 0 <= m < removed@.len() ==> start.contains_key(#[trigger] removed@[m].id@)
                    && removed@[m] == start[removed@[m].id@] && reap_due(removed@[m], now_ms as int)
                    && exists|j: int| 0 <= j < i && #[trigger] keys@[j]@ == removed@[m].id@,
                forall|j: int| 0 <= j < i && reap_due(start[keys@[j]@], now_ms as int)
                    ==> exists|m: int| 0 <= m < removed@.len() && #[trigger] removed@[m].id@ == #[trigger] keys@[j]@,
                forall|a: int, b: int| 0 <= a < b < removed@.len() ==> #[trigger] removed@[a].id@ != #[trigger] removed@[b].id@,
            decreases keys@.len() - i,
        {
            let k = &keys[i];
            proof {
                assert(self@.contains_key(keys@[i as int]@));
            }
            if let Some(s) = map_get(&self.sessions, k.as_str()) {
                if is_reap_due(&s, now_ms) {
                    let gone = map_remove(&mut self.sessions, k.as_str());
                    if let Some(g) = gone {
                        let ghost old_removed = removed@;
                        removed.push(g);
                        proof {
                            assert forall|a: int, b: int| 0 <= a < b < removed@.len() implies #[trigger] removed@[a].id@ != #[trigger] removed@[b].id@ by {
                                if b == removed@.len() - 1 {
                                    let j = choose|j: int| 0 <= j < i && #[trigger] keys@[j]@ == old_removed[a].id@;
                                    assert(keys@[j]@ != keys@[i as int]@);
                                } else {
                                    assert(old_removed[a] == removed@[a]);
                                    assert(old_removed[b] == removed@[b]);
                                }
                            }
                            assert forall|m: int| 0 <= m < removed@.len() implies start.contains_key(#[trigger] removed@[m].id@)
                                && removed@[m] == start[removed@[m].id@] && reap_due(removed@[m], now_ms as int)
                                && exists|j: int| 0 <= j < i + 1 && #[trigger] keys@[j]@ == removed@[m].id@ by {
                                if m == removed@.len() - 1 {
                                    assert(keys@[i as int]@ == removed@[m].id@);
                                } else {
                                    assert(old_removed[m] == removed@[m]);
                                }
                            }
                            assert forall|j: int| 0 <= j < i + 1 && reap_due(start[keys@[j]@], now_ms as int)
                                implies exists|m: int| 0 <= m < removed@.len() && #[trigger] removed@[m].id@ == #[trigger] keys@[j]@ by {
                                if j == i {
                                    assert(removed@[removed@.len() - 1].id@ == keys@[j]@);
                                } else {
                                    let m = choose|m: int| 0 <= m < old_removed.len() && #[trigger] old_removed[m].id@ == keys@[j]@;
                                    assert(removed@[m] == old_removed[m]);
                                }
                            }
                        }
                    }
                }
            }
            proof {
                assert forall|j: int| 0 <= j < i + 1 && reap_due(start[keys@[j]@], now_ms as int) implies !self@.contains_key(#[trigger] keys@[j]@) by {
                }
                assert forall|j: int| i + 1 <= j < keys@.len() implies self@.contains_key(#[trigger] keys@[j]@) by {
                    assert(keys@[j]@ != keys@[i as int]@);
                }
            }
            i = i + 1;
        }
        proof {
            assert forall|k: Seq<char>| #[trigger] self@.contains_key(k) <==> start.contains_key(k) && !reap_due(start[k], now_ms as int) by {
                if start.contains_key(k) && reap_due(start[k], now_ms as int) {
                    let j = choose|j: int| 0 <= j < keys@.len() && #[trigger] keys@[j]@ == k;
                    assert(!self@.contains_key(keys@[j]@));
                }
            }
            assert forall|k: Seq<char>| start.contains_key(k) && reap_due(start[k], now_ms as int)
                implies exists|m: int| 0 <= m < removed@.len() && #[trigger] removed@[m].id@ == k by {
                let j = choose|j: int| 0 <= j < keys@.len() && #[trigger] keys@[j]@ == k;
                assert(reap_due(start[keys@[j]@], now_ms as int));
            }
        }
        removed
    }
}

/// Two attachments are never active on one session at once: once an attach
/// request is accepted, the next one on that session, with no detach in
/// between, is refused as already attached.
pub proof fn lemma_single_attachment(entries: Map<Seq<char>, Session>, id: Seq<char>, now_ms: int)
    requires
        attach_outcome(entries, id) == AttachOutcome::Attached,
    ensures
        attach_outcome(
            entries.insert(id, Session { attached: true, ..touched(entries[id], now_ms) }),
            id,
        ) == AttachOutcome::AlreadyAttached,
{
}

/// While a session is in the registry it is the only one that holds its
/// process and its pseudo-console; once it has been removed, no session in
/// the registry holds them any more, so the caller that received the record
/// releases them exactly once.
pub proof fn lemma_session_owns_its_handles(entries: Map<Seq<char>, Session>, id: Seq<char>)
    requires
        handles_distinct(entries),
        entries.contains_key(id),
    ensures
        forall|k: Seq<char>| #[trigger] entries.contains_key(k) && entries[k].process_handle == entries[id].process_handle ==> k == id,
        forall|k: Seq<char>| #[trigger] entries.contains_key(k) && entries[k].pty == entries[id].pty ==> k == id,
        handles_fresh(entries.remove(id), entries[id].process_handle, entries[id].pty),
{
}

/// Termination is idempotent: after a session has been terminated, a second
/// termination of the same identifier finds nothing and reports `NotFound`.
pub proof fn lemma_terminate_idempotent(entries: Map<Seq<char>, Session>, id: Seq<char>)
    ensures
        !entries.remove(id).contains_key(id),
        entries.remove(id).remove(id) == entries.remove(id),
{
    assert(entries.remove(id).remove(id) =~= entries.remove(id));
}

/// A session whose shell exited before any attachment closes the next
/// attachment at once with the normal code 1000.
pub proof fn lemma_exited_session_closes_normally(entries: Map<Seq<char>, Session>, id: Seq<char>)
    requires
        entries.contains_key(id),
        !entries[id].attached,
        entries[id].state == SessionState::Exited,
    ensures
        attach_outcome(entries, id) == AttachOutcome::Ended,
        attach_close_code(attach_outcome(entries, id)) == Some(1000u16),
{
}

/// An unattached session with no activity is reaped by the first reaper
/// pass that comes one reaper interval or more after it became idle (its
/// last activity plus its timeout); as passes come one interval apart, that
/// is within two intervals of becoming idle.
pub proof fn lemma_idle_session_reaped(s: Session, now_ms: int)
    requires
        !s.attached,
        now_ms >= s.last_activity_ms + s.idle_timeout_sec * 1000 + REAPER_INTERVAL_MS,
    ensures
        reap_due(s, now_ms),
{
}

} // verus!
