//! Bounded per-session history cache.
//!
//! A [`SessionStore`] maps a session key to the prompts most recently
//! submitted under that key and to the command last produced for it.  The
//! history of every session is capped at the limit the store was made with;
//! when a prompt would exceed the cap the oldest entries leave first.
use std::collections::VecDeque;
use vstd::hash_map::StringHashMap;
use vstd::prelude::*;

verus! {

/// How many prompts the daemon keeps for each session.
pub const DEFAULT_MAX_HISTORY: usize = 10;

/// What a session holds, as mathematical values.
pub struct SessionView {
    /// Prior prompts, oldest first.
    pub history: Seq<Seq<char>>,
    /// The command most recently produced, if any.
    pub last_command: Option<Seq<char>>,
}

impl SessionView {
    /// The session of a key that was never seen.
    pub open spec fn empty() -> SessionView {
        SessionView { history: Seq::empty(), last_command: None }
    }
}

/// The last `limit` entries of `entries`, in their order.
pub open spec fn keep_last<T>(entries: Seq<T>, limit: nat) -> Seq<T> {
    if entries.len() <= limit {
        entries
    } else {
        entries.subrange(entries.len() - limit, entries.len() as int)
    }
}

/// The session stored under `key`, or the empty session.
pub open spec fn session_of(sessions: Map<Seq<char>, SessionView>, key: Seq<char>) -> SessionView {
    if sessions.contains_key(key) {
        sessions[key]
    } else {
        SessionView::empty()
    }
}

/// The sessions after `prompt` was recorded under `key` with a cap of `limit`.
pub open spec fn with_input(
    sessions: Map<Seq<char>, SessionView>,
    limit: nat,
    key: Seq<char>,
    prompt: Seq<char>,
) -> Map<Seq<char>, SessionView> {
    let before = session_of(sessions, key);
    sessions.insert(
        key,
        SessionView {
            history: keep_last(before.history.push(prompt), limit),
            last_command: before.last_command,
        },
    )
}

/// The sessions after `command` was recorded under `key`.
pub open spec fn with_output(
    sessions: Map<Seq<char>, SessionView>,
    key: Seq<char>,
    command: Seq<char>,
) -> Map<Seq<char>, SessionView> {
    let before = session_of(sessions, key);
    sessions.insert(key, SessionView { history: before.history, last_command: Some(command) })
}

/// Every stored history holds at most `limit` prompts.
pub open spec fn within_limit(sessions: Map<Seq<char>, SessionView>, limit: nat) -> bool {
    forall|key: Seq<char>| #[trigger]
        sessions.contains_key(key) ==> sessions[key].history.len() <= limit
}

/// The views of a sequence of strings.
pub open spec fn views(strings: Seq<String>) -> Seq<Seq<char>> {
    strings.map_values(|s: String| s@)
}

/// The view of an optional string.
pub open spec fn option_view(value: Option<String>) -> Option<Seq<char>> {
    match value {
        Some(s) => Some(s@),
        None => None,
    }
}

/// One conversational context: its recent prompts and its last command.
#[derive(Debug)]
pub struct Session {
    prompts: VecDeque<String>,
    last_command: Option<String>,
}

impl View for Session {
    type V = SessionView;

    closed spec fn view(&self) -> SessionView {
        SessionView {
            history: views(self.prompts@),
            last_command: option_view(self.last_command),
        }
    }
}

impl Session {
    fn new() -> (session: Session)
        ensures
            session@ == SessionView::empty(),
            session.prompts@.len() == 0,
    {
        let session = Session { prompts: VecDeque::new(), last_command: None };
        assert(session@.history =~= Seq::empty());
        session
    }

    fn duplicate(&self) -> (copy: Session)
        ensures
            copy@ == self@,
            copy.prompts@.len() == self.prompts@.len(),
    {
        let mut prompts: VecDeque<String> = VecDeque::new();
        let mut i: usize = 0;
        while i < self.prompts.len()
            invariant
                i <= self.prompts@.len(),
                prompts@ == self.prompts@.take(i as int),
            decreases self.prompts@.len() - i,
        {
            prompts.push_back(self.prompts[i].clone());
            i += 1;
            assert(self.prompts@.take(i as int) =~= self.prompts@.take(i - 1).push(
                self.prompts@[i - 1],
            ));
        }
        assert(prompts@ =~= self.prompts@);
        let last_command = match &self.last_command {
            Some(command) => Some(command.clone()),
            None => None,
        };
        Session { prompts, last_command }
    }
}

impl Default for Session {
    fn default() -> (session: Session)
        ensures
            session@ == SessionView::empty(),
    {
        Session::new()
    }
}

/// A copy of a session's state, handed to request handlers.
#[derive(Debug, Clone)]
pub struct SessionSnapshot {
    /// Prior prompts, oldest first.
    pub history: Vec<String>,
    /// The command most recently produced, if any.
    pub last_command: Option<String>,
}

impl View for SessionSnapshot {
    type V = SessionView;

    open spec fn view(&self) -> SessionView {
        SessionView {
            history: views(self.history@),
            last_command: option_view(self.last_command),
        }
    }
}

impl Default for SessionSnapshot {
    fn default() -> (snapshot: SessionSnapshot)
        ensures
            snapshot@ == SessionView::empty(),
    {
        let snapshot = SessionSnapshot { history: Vec::new(), last_command: None };
        assert(snapshot@.history =~= Seq::empty());
        snapshot
    }
}

/// Sessions by key, each history capped at `max_history` prompts.
pub struct SessionStore {
    sessions: StringHashMap<Session>,
    max_history: usize,
}

impl View for SessionStore {
    type V = Map<Seq<char>, SessionView>;

    closed spec fn view(&self) -> Map<Seq<char>, SessionView> {
        self.sessions@.map_values(|s: Session| s@)
    }
}

impl Default for SessionStore {
    fn default() -> (store: SessionStore)
        ensures
            store@ == Map::<Seq<char>, SessionView>::empty(),
            store.limit() == 0,
    {
        SessionStore::new(0)
    }
}

impl SessionStore {
    /// The cap on the length of every history.
    pub closed spec fn limit(&self) -> nat {
        self.max_history as nat
    }

    #[verifier::type_invariant]
    spec fn capped(&self) -> bool {
        forall|key: Seq<char>| #[trigger]
            self.sessions@.contains_key(key) ==> self.sessions@[key].prompts@.len()
                <= self.max_history
    }

    /// An empty store whose histories will hold at most `max_history` prompts.
    pub fn new(max_history: usize) -> (store: SessionStore)
        ensures
            store@ == Map::<Seq<char>, SessionView>::empty(),
            store.limit() == max_history,
    {
        let store = SessionStore { sessions: StringHashMap::new(), max_history };
        assert(store@ =~= Map::<Seq<char>, SessionView>::empty());
        store
    }

    /// Stores `session` under `session_id`, replacing what was there.  The
    /// map is taken out of the store while it is changed, so that the store
    /// itself never holds a history beyond its limit.
    fn put(&mut self, session_id: &str, session: Session)
        requires
            session.prompts@.len() <= old(self).max_history,
        ensures
            final(self).max_history == old(self).max_history,
            final(self).sessions@ == old(self).sessions@.insert(session_id@, session),
    {
        proof {
            use_type_invariant(&*self);
        }
        let mut sessions: StringHashMap<Session> = StringHashMap::new();
        std::mem::swap(&mut self.sessions, &mut sessions);
        sessions.insert(String::from_str(session_id), session);
        std::mem::swap(&mut self.sessions, &mut sessions);
    }

    /// Appends `prompt` to the history of `session_id`, creating the session
    /// if it is new, and drops the oldest prompts beyond the cap.
    pub fn record_input(&mut self, session_id: &str, prompt: &str)
        ensures
            final(self).limit() == old(self).limit(),
            final(self)@ == with_input(old(self)@, old(self).limit(), session_id@, prompt@),
            within_limit(final(self)@, final(self).limit()),
    {
        proof {
            use_type_invariant(&*self);
        }
        let mut session = match self.sessions.get(session_id) {
            Some(existing) => existing.duplicate(),
            None => Session::new(),
        };
        let ghost before = session@;
        assert(before == session_of(self@, session_id@));
        session.prompts.push_back(String::from_str(prompt));
        let ghost pushed = session.prompts@;
        assert(views(pushed) =~= before.history.push(prompt@));
        while session.prompts.len() > self.max_history
            invariant
                session.prompts@.len() <= pushed.len(),
                session.prompts@ == pushed.skip(pushed.len() - session.prompts@.len()),
                session.prompts@.len() >= self.max_history || session.prompts@.len()
                    == pushed.len(),
                option_view(session.last_command) == before.last_command,
            decreases session.prompts@.len(),
        {
            session.prompts.pop_front();
        }
        assert(session@.history =~= keep_last(views(pushed), self.limit()));
        self.put(session_id, session);
        assert(self@ =~= with_input(old(self)@, old(self).limit(), session_id@, prompt@));
        assert(within_limit(self@, self.limit())) by {
            assert forall|key: Seq<char>| #[trigger] self@.contains_key(key) implies self@[key].history.len()
                <= self.limit() by {
                assert(self.sessions@.contains_key(key));
            }
        }
    }

    /// Sets the last command of `session_id`, creating the session if it is
    /// new.
    pub fn record_output(&mut self, session_id: &str, command: &str)
        ensures
            final(self).limit() == old(self).limit(),
            final(self)@ == with_output(old(self)@, session_id@, command@),
            within_limit(final(self)@, final(self).limit()),
    {
        proof {
            use_type_invariant(&*self);
        }
        let mut session = match self.sessions.get(session_id) {
            Some(existing) => existing.duplicate(),
            None => Session::new(),
        };
        assert(session@ == session_of(self@, session_id@));
        session.last_command = Some(String::from_str(command));
        self.put(session_id, session);
        assert(self@ =~= with_output(old(self)@, session_id@, command@));
        assert(within_limit(self@, self.limit())) by {
            assert forall|key: Seq<char>| #[trigger] self@.contains_key(key) implies self@[key].history.len()
                <= self.limit() by {
                assert(self.sessions@.contains_key(key));
            }
        }
    }

    /// A copy of the session of `session_id`: empty, with no last command,
    /// where the key was never seen.
    pub fn snapshot(&self, session_id: &str) -> (snapshot: SessionSnapshot)
        ensures
            snapshot@ == session_of(self@, session_id@),
            snapshot@.history.len() <= self.limit(),
    {
        proof {
            use_type_invariant(self);
        }
        match self.sessions.get(session_id) {
            Some(session) => {
                let mut history: Vec<String> = Vec::new();
                let mut i: usize = 0;
                while i < session.prompts.len()
                    invariant
                        i <= session.prompts@.len(),
                        history@ == session.prompts@.take(i as int),
                    decreases session.prompts@.len() - i,
                {
                    history.push(session.prompts[i].clone());
                    i += 1;
                    assert(session.prompts@.take(i as int) =~= session.prompts@.take(i - 1).push(
                        session.prompts@[i - 1],
                    ));
                }
                assert(history@ =~= session.prompts@);
                let last_command = match &session.last_command {
                    Some(command) => Some(command.clone()),
                    None => None,
                };
                SessionSnapshot { history, last_command }
            },
            None => {
                let snapshot = SessionSnapshot { history: Vec::new(), last_command: None };
                assert(snapshot@.history =~= Seq::empty());
                snapshot
            },
        }
    }
}

/// The sessions after the `prompts` were recorded under `key`, one after
/// the other.
pub open spec fn with_inputs(
    sessions: Map<Seq<char>, SessionView>,
    limit: nat,
    key: Seq<char>,
    prompts: Seq<Seq<char>>,
) -> Map<Seq<char>, SessionView>
    decreases prompts.len(),
{
    if prompts.len() == 0 {
        sessions
    } else {
        with_input(
            with_inputs(sessions, limit, key, prompts.drop_last()),
            limit,
            key,
            prompts.last(),
        )
    }
}

/// Keeping the last `limit` entries keeps as many as there are, up to
/// `limit`.
pub proof fn keep_last_len<T>(entries: Seq<T>, limit: nat)
    ensures
        keep_last(entries, limit).len() == if entries.len() <= limit {
            entries.len()
        } else {
            limit
        },
{
}

/// Trimming before an entry is appended does not change what is kept
/// after it.
pub proof fn keep_last_absorbs<T>(entries: Seq<T>, entry: T, limit: nat)
    ensures
        keep_last(keep_last(entries, limit).push(entry), limit) == keep_last(
            entries.push(entry),
            limit,
        ),
{
    assert(keep_last(keep_last(entries, limit).push(entry), limit) =~= keep_last(
        entries.push(entry),
        limit,
    ));
}

/// After any number of prompts were recorded under a key that was unseen
/// before, the history of that key holds the last `limit` of them in the
/// order of their submission: as many as were submitted, up to `limit`.
pub proof fn history_holds_last_prompts(
    sessions: Map<Seq<char>, SessionView>,
    limit: nat,
    key: Seq<char>,
    prompts: Seq<Seq<char>>,
)
    requires
        !sessions.contains_key(key),
    ensures
        session_of(with_inputs(sessions, limit, key, prompts), key).history == keep_last(
            prompts,
            limit,
        ),
        session_of(with_inputs(sessions, limit, key, prompts), key).history.len() == if prompts.len()
            <= limit {
            prompts.len()
        } else {
            limit
        },
    decreases prompts.len(),
{
    if prompts.len() > 0 {
        let earlier = prompts.drop_last();
        history_holds_last_prompts(sessions, limit, key, earlier);
        keep_last_absorbs(earlier, prompts.last(), limit);
        assert(earlier.push(prompts.last()) =~= prompts);
    }
}

/// A key that was never seen has the empty session: no history and no
/// last command.
pub proof fn unseen_session_is_empty(sessions: Map<Seq<char>, SessionView>, key: Seq<char>)
    requires
        !sessions.contains_key(key),
    ensures
        session_of(sessions, key).history.len() == 0,
        session_of(sessions, key).last_command is None,
{
}

/// Recording a prompt keeps every history within the limit.
pub proof fn input_keeps_limit(
    sessions: Map<Seq<char>, SessionView>,
    limit: nat,
    key: Seq<char>,
    prompt: Seq<char>,
)
    requires
        within_limit(sessions, limit),
    ensures
        within_limit(with_input(sessions, limit, key, prompt), limit),
{
    let after = with_input(sessions, limit, key, prompt);
    assert forall|k: Seq<char>| #[trigger] after.contains_key(k) implies after[k].history.len()
        <= limit by {
        if k != key {
            assert(sessions.contains_key(k));
        }
    }
}

/// Recording a command keeps every history within the limit.
pub proof fn output_keeps_limit(
    sessions: Map<Seq<char>, SessionView>,
    limit: nat,
    key: Seq<char>,
    command: Seq<char>,
)
    requires
        within_limit(sessions, limit),
    ensures
        within_limit(with_output(sessions, key, command), limit),
{
    let after = with_output(sessions, key, command);
    assert forall|k: Seq<char>| #[trigger] after.contains_key(k) implies after[k].history.len()
        <= limit by {
        if k != key {
            assert(sessions.contains_key(k));
        } else if sessions.contains_key(key) {
        }
    }
}

/// Two snapshots of one key taken from the same store, with no change to
/// the store between them, are equal.
pub proof fn snapshot_is_repeatable(
    store: SessionStore,
    key: Seq<char>,
    first: SessionSnapshot,
    second: SessionSnapshot,
)
    requires
        first@ == session_of(store@, key),
        second@ == session_of(store@, key),
    ensures
        first@ == second@,
{
}

/// One change to a store.
pub enum SessionOp {
    /// A prompt recorded under a key.
    Input { key: Seq<char>, prompt: Seq<char> },
    /// A command recorded under a key.
    Output { key: Seq<char>, command: Seq<char> },
}

impl SessionOp {
    /// The key that the change is made under.
    pub open spec fn key(self) -> Seq<char> {
        match self {
            SessionOp::Input { key, .. } => key,
            SessionOp::Output { key, .. } => key,
        }
    }
}

/// The sessions after one change.
pub open spec fn applied(
    sessions: Map<Seq<char>, SessionView>,
    limit: nat,
    op: SessionOp,
) -> Map<Seq<char>, SessionView> {
    match op {
        SessionOp::Input { key, prompt } => with_input(sessions, limit, key, prompt),
        SessionOp::Output { key, command } => with_output(sessions, key, command),
    }
}

/// The sessions after the changes `ops`, made in their order.
pub open spec fn applied_all(
    sessions: Map<Seq<char>, SessionView>,
    limit: nat,
    ops: Seq<SessionOp>,
) -> Map<Seq<char>, SessionView>
    decreases ops.len(),
{
    if ops.len() == 0 {
        sessions
    } else {
        applied(applied_all(sessions, limit, ops.drop_last()), limit, ops.last())
    }
}

/// The changes among `ops` that are made under `key`, in their order.
pub open spec fn ops_of(ops: Seq<SessionOp>, key: Seq<char>) -> Seq<SessionOp> {
    ops.filter(|op: SessionOp| op.key() == key)
}

/// However the changes made under different keys interleave, the session
/// of a key is what the changes made under that key alone would have made
/// it.
pub proof fn sessions_do_not_interfere(
    sessions: Map<Seq<char>, SessionView>,
    limit: nat,
    ops: Seq<SessionOp>,
    key: Seq<char>,
)
    ensures
        session_of(applied_all(sessions, limit, ops), key) == session_of(
            applied_all(sessions, limit, ops_of(ops, key)),
            key,
        ),
    decreases ops.len(),
{
    reveal(Seq::filter);
    if ops.len() > 0 {
        let earlier = ops.drop_last();
        let last = ops.last();
        sessions_do_not_interfere(sessions, limit, earlier, key);
        if last.key() == key {
            let own = ops_of(earlier, key).push(last);
            assert(ops_of(ops, key) == own);
            assert(own.drop_last() =~= ops_of(earlier, key));
            assert(own.last() == last);
        } else {
            assert(ops_of(ops, key) == ops_of(earlier, key));
        }
    }
}

/// Every sequence of changes keeps every history within the limit.
pub proof fn changes_keep_limit(
    sessions: Map<Seq<char>, SessionView>,
    limit: nat,
    ops: Seq<SessionOp>,
)
    requires
        within_limit(sessions, limit),
    ensures
        within_limit(applied_all(sessions, limit, ops), limit),
    decreases ops.len(),
{
    if ops.len() > 0 {
        changes_keep_limit(sessions, limit, ops.drop_last());
        let before = applied_all(sessions, limit, ops.drop_last());
        match ops.last() {
            SessionOp::Input { key, prompt } => input_keeps_limit(before, limit, key, prompt),
            SessionOp::Output { key, command } => output_keeps_limit(before, limit, key, command),
        }
    }
}

} // verus!
