//! Turning a raw stored document into a `SharedRecord`.
use vstd::prelude::*;
use vstd::string::{StringExecFns, StrSliceExecFns};
use crate::engine::{observe, step, action_view, key_of, SharedRecord, Timestamp, ActionRequest, WatcherState};

verus! {

/// The value of one stored field, as far as the decoder needs to tell them apart.
#[derive(Clone, Debug)]
pub enum FieldValue {
    Text(String),
    Time(Timestamp),
    /// Any other kind of value (number, map, null, ...).
    Other,
}

/// A document as the store hands it over: its id, when the transport gives one,
/// and its fields by name.
#[derive(Clone, Debug)]
pub struct RawRecord {
    pub id: Option<String>,
    pub fields: Vec<(String, FieldValue)>,
}

/// Why a raw document is not a `SharedRecord`.
#[derive(Clone, Copy, Debug, PartialEq, Eq, Structural)]
pub enum DecodeError {
    /// No `url` field holding text.
    MissingUrl,
    /// A `url`, but no `timestamp` field holding a time.
    MissingTimestamp,
}

/// Name of the field that holds the URL.
pub open spec fn url_field() -> Seq<char> {
    seq!['u', 'r', 'l']
}

/// Name of the field that holds the creation time.
pub open spec fn timestamp_field() -> Seq<char> {
    seq!['t', 'i', 'm', 'e', 's', 't', 'a', 'm', 'p']
}

/// Name of the field that holds the expiry written back after an action.
pub open spec fn expiry_field() -> Seq<char> {
    seq!['e', 'x', 'p', 'i', 'r', 'e', 'd', '_', 'a', 't']
}

/// The value of the first field named `name`, if any.
pub open spec fn lookup(fields: Seq<(String, FieldValue)>, name: Seq<char>) -> Option<FieldValue>
    decreases fields.len(),
{
    if fields.len() == 0 {
        None
    } else if fields[0].0@ == name {
        Some(fields[0].1)
    } else {
        lookup(fields.drop_first(), name)
    }
}

/// The text of a field, if it holds text.
pub open spec fn text_of(f: Option<FieldValue>) -> Option<Seq<char>> {
    match f {
        Some(FieldValue::Text(s)) => Some(s@),
        _ => None,
    }
}

/// The time of a field, if it holds a time.
pub open spec fn time_of(f: Option<FieldValue>) -> Option<Timestamp> {
    match f {
        Some(FieldValue::Time(t)) => Some(t),
        _ => None,
    }
}

/// The view of an optional string.
pub open spec fn opt_view(o: Option<String>) -> Option<Seq<char>> {
    match o {
        Some(s) => Some(s@),
        None => None,
    }
}

/// The last segment of a slash-separated path: all of it after the last `/`.
pub open spec fn last_segment(path: Seq<char>) -> Seq<char>
    decreases path.len(),
{
    if path.len() == 0 {
        path
    } else if path.last() == '/' {
        seq![]
    } else {
        last_segment(path.drop_last()).push(path.last())
    }
}

/// The id of a document, from its full resource name
/// (`projects/p/databases/d/documents/collection/id`).
pub fn document_id(name: &str) -> (r: String)
    ensures
        r@ == last_segment(name@),
{
    let len = name.unicode_len();
    let mut i: usize = len;
    assert(name@.subrange(0, len as int) =~= name@);
    assert(name@.subrange(len as int, len as int) =~= Seq::<char>::empty());
    assert(last_segment(name@) =~= last_segment(name@) + Seq::<char>::empty());
    while i > 0
        invariant
            i <= len == name@.len(),
            last_segment(name@) == last_segment(name@.subrange(0, i as int)) + name@.subrange(
                i as int,
                len as int,
            ),
        decreases i,
    {
        let ghost prefix = name@.subrange(0, i as int);
        assert(prefix.drop_last() =~= name@.subrange(0, i - 1));
        if name.get_char(i - 1) == '/' {
            assert(last_segment(prefix) == Seq::<char>::empty());
            assert(last_segment(name@) =~= name@.subrange(i as int, len as int));
            return name.substring_char(i, len).to_owned();
        }
        assert(name@.subrange(i - 1, len as int) =~= seq![name@[i - 1]] + name@.subrange(
            i as int,
            len as int,
        ));
        assert(last_segment(prefix) =~= last_segment(prefix.drop_last()).push(name@[i - 1]));
        i = i - 1;
    }
    assert(name@.subrange(0, 0) =~= Seq::<char>::empty());
    assert(last_segment(name@) =~= name@.subrange(0, len as int));
    name.substring_char(0, len).to_owned()
}

/// What decoding `raw` gives, as a relation on the result.
pub open spec fn decodes_to(raw: RawRecord, r: Result<SharedRecord, DecodeError>) -> bool {
    let url = text_of(lookup(raw.fields@, url_field()));
    let ts = time_of(lookup(raw.fields@, timestamp_field()));
    match r {
        Ok(rec) => url.is_some() && ts.is_some() && rec.url@ == url.unwrap() && rec.created_at
            == ts.unwrap() && rec.expires_at == time_of(lookup(raw.fields@, expiry_field()))
            && opt_view(rec.id) == opt_view(raw.id),
        Err(DecodeError::MissingUrl) => url.is_none(),
        Err(DecodeError::MissingTimestamp) => url.is_some() && ts.is_none(),
    }
}

/// The index of the first field named `name`.
fn find_field(fields: &Vec<(String, FieldValue)>, name: &String) -> (r: Option<usize>)
    ensures
        match r {
            Some(i) => i < fields@.len() && lookup(fields@, name@) == Some(fields@[i as int].1),
            None => lookup(fields@, name@) == None::<FieldValue>,
        },
{
    let mut i: usize = 0;
    assert(fields@.skip(0) =~= fields@);
    while i < fields.len()
        invariant
            i <= fields@.len(),
            lookup(fields@, name@) == lookup(fields@.skip(i as int), name@),
        decreases fields@.len() - i,
    {
        assert(fields@.skip(i as int).drop_first() =~= fields@.skip(i as int + 1));
        if fields[i].0 == *name {
            return Some(i);
        }
        i = i + 1;
    }
    assert(fields@.skip(i as int) =~= Seq::<(String, FieldValue)>::empty());
    None
}

fn text_field(fields: &Vec<(String, FieldValue)>, name: &String) -> (r: Option<String>)
    ensures
        opt_view(r) == text_of(lookup(fields@, name@)),
{
    match find_field(fields, name) {
        Some(i) => match &fields[i].1 {
            FieldValue::Text(s) => Some(s.clone()),
            _ => None,
        },
        None => None,
    }
}

fn time_field(fields: &Vec<(String, FieldValue)>, name: &String) -> (r: Option<Timestamp>)
    ensures
        r == time_of(lookup(fields@, name@)),
{
    match find_field(fields, name) {
        Some(i) => match &fields[i].1 {
            FieldValue::Time(t) => Some(*t),
            _ => None,
        },
        None => None,
    }
}

fn clone_opt(o: &Option<String>) -> (r: Option<String>)
    ensures
        opt_view(r) == opt_view(*o),
{
    match o {
        Some(s) => Some(s.clone()),
        None => None,
    }
}

/// Decodes a raw document. It needs a text `url` and a time `timestamp`; an
/// `expired_at` time and the id are taken when present.
pub fn decode(raw: &RawRecord) -> (r: Result<SharedRecord, DecodeError>)
    ensures
        decodes_to(*raw, r),
{
    let url_name = String::from_str("url");
    let ts_name = String::from_str("timestamp");
    let exp_name = String::from_str("expired_at");
    proof {
        reveal_strlit("url");
        reveal_strlit("timestamp");
        reveal_strlit("expired_at");
        assert(url_name@ =~= url_field());
        assert(ts_name@ =~= timestamp_field());
        assert(exp_name@ =~= expiry_field());
    }
    let url = match text_field(&raw.fields, &url_name) {
        Some(u) => u,
        None => return Err(DecodeError::MissingUrl),
    };
    let created_at = match time_field(&raw.fields, &ts_name) {
        Some(t) => t,
        None => return Err(DecodeError::MissingTimestamp),
    };
    let expires_at = time_field(&raw.fields, &exp_name);
    Ok(SharedRecord { id: clone_opt(&raw.id), url, created_at, expires_at })
}

/// Whether the document already carries the expiry that this watcher writes
/// back after acting on it: such an update is its own echo, not a new event.
pub fn is_self_authored(raw: &RawRecord) -> (r: bool)
    ensures
        r == lookup(raw.fields@, expiry_field()).is_some(),
{
    let exp_name = String::from_str("expired_at");
    proof {
        reveal_strlit("expired_at");
        assert(exp_name@ =~= expiry_field());
    }
    find_field(&raw.fields, &exp_name).is_some()
}

/// One cycle of the watcher on a raw document: decode it, then observe it.
/// A document that does not decode leaves the state as it was.
pub fn observe_raw(raw: &RawRecord, state: &mut WatcherState) -> (r: Result<
    Option<ActionRequest>,
    DecodeError,
>)
    requires
        old(state).wf(),
    ensures
        final(state).wf(),
        match r {
            Ok(a) => exists|rec: SharedRecord|
                decodes_to(*raw, Ok(rec)) && final(state)@ == step(
                    old(state)@,
                    key_of(rec),
                    rec.url@,
                ).0 && action_view(a) == step(old(state)@, key_of(rec), rec.url@).1,
            Err(e) => decodes_to(*raw, Err(e)) && final(state)@ == old(state)@,
        },
{
    match decode(raw) {
        Ok(rec) => {
            let ghost g = rec;
            let a = observe(rec, state);
            assert(decodes_to(*raw, Ok(g)));
            Ok(a)
        },
        Err(e) => Err(e),
    }
}

} // verus!
