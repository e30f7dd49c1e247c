//! The observation engine: a two-state machine over the last key that was seen.
use vstd::prelude::*;

verus! {

/// A point in time as seconds and nanoseconds since the Unix epoch.
#[derive(Clone, Copy, Debug, PartialEq, Eq, Structural)]
pub struct Timestamp {
    pub seconds: i64,
    pub nanos: i32,
}

/// A decoded record of the watched collection.
#[derive(Clone, Debug)]
pub struct SharedRecord {
    /// The identity the store assigned, when the transport supplies it.
    pub id: Option<String>,
    pub url: String,
    pub created_at: Timestamp,
    pub expires_at: Option<Timestamp>,
}

/// What the engine asks the surrounding program to do: open one URL.
#[derive(Clone, Debug)]
pub struct ActionRequest {
    pub url: String,
}

/// The whole state of a watcher: the key of the record seen last, and whether
/// anything has been seen at all since the process started.
#[derive(Clone, Debug)]
pub struct WatcherState {
    last_seen_key: Option<String>,
    has_completed_first_observation: bool,
}

/// The identity used for deduplication: the store id when present, else the URL.
pub open spec fn key_of(r: SharedRecord) -> Seq<char> {
    match r.id {
        Some(id) => id@,
        None => r.url@,
    }
}

/// One step of the machine on the abstract state (`None` is the uninitialised
/// state, `Some(k)` the steady state with last key `k`). Returns the next state
/// and the URL to act on, if any.
pub open spec fn step(
    s: Option<Seq<char>>,
    key: Seq<char>,
    url: Seq<char>,
) -> (Option<Seq<char>>, Option<Seq<char>>) {
    match s {
        None => (Some(key), None),
        Some(last) => if last == key {
            (s, None)
        } else {
            (Some(key), Some(url))
        },
    }
}

/// The abstract view of an optional action.
pub open spec fn action_view(a: Option<ActionRequest>) -> Option<Seq<char>> {
    match a {
        Some(req) => Some(req.url@),
        None => None,
    }
}

impl WatcherState {
    /// The state is steady exactly when a key has been recorded.
    pub closed spec fn wf(&self) -> bool {
        self.has_completed_first_observation == self.last_seen_key.is_some()
    }

    /// The abstract state: `None` before the first observation, else the last key.
    pub closed spec fn view(&self) -> Option<Seq<char>> {
        match self.last_seen_key {
            Some(k) => Some(k@),
            None => None,
        }
    }

    /// A state in which nothing has been observed yet.
    pub fn new() -> (r: WatcherState)
        ensures
            r.wf(),
            r@ == None::<Seq<char>>,
    {
        WatcherState { last_seen_key: None, has_completed_first_observation: false }
    }

    /// Whether a first record has been observed.
    pub fn is_initialized(&self) -> (r: bool)
        requires
            self.wf(),
        ensures
            r == self@.is_some(),
    {
        self.has_completed_first_observation
    }

    /// The key of the record seen last, if any.
    pub fn last_seen_key(&self) -> (r: Option<String>)
        ensures
            r.is_some() == self@.is_some(),
            r.is_some() ==> r.unwrap()@ == self@.unwrap(),
    {
        match &self.last_seen_key {
            Some(k) => Some(k.clone()),
            None => None,
        }
    }
}

impl SharedRecord {
    /// The deduplication key of this record.
    pub fn key(&self) -> (r: String)
        ensures
            r@ == key_of(*self),
    {
        match &self.id {
            Some(id) => id.clone(),
            None => self.url.clone(),
        }
    }
}

/// Decides whether `record` is a new event. The first observation only records
/// its key; later ones ask for an action exactly when the key differs from the
/// last one seen, and then record the new key.
pub fn observe(record: SharedRecord, state: &mut WatcherState) -> (r: Option<ActionRequest>)
    requires
        old(state).wf(),
    ensures
        final(state).wf(),
        final(state)@ == step(old(state)@, key_of(record), record.url@).0,
        action_view(r) == step(old(state)@, key_of(record), record.url@).1,
{
    let key = record.key();
    if !state.has_completed_first_observation {
        state.last_seen_key = Some(key);
        state.has_completed_first_observation = true;
        return None;
    }
    let same = match &state.last_seen_key {
        Some(last) => *last == key,
        None => false,
    };
    if same {
        None
    } else {
        state.last_seen_key = Some(key);
        Some(ActionRequest { url: record.url })
    }
}

} // verus!
