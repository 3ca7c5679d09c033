//! The action registry and the inbound action wire protocol.
//!
//! An action is a named, externally invocable operation: a handler takes an
//! opaque JSON parameter payload and returns either a serialized result or a
//! failure detail.  The registry maps action names to handlers; it is built
//! before the gateway runs and is only read afterwards, so dispatch needs no
//! lock.  Dispatch of an unknown name, a handler failure, and a malformed
//! inbound frame each become a structured error response — never a crash of
//! the transport that carried the request.
use crate::codec::{json_string, push_json_string, push_str_chars};
use vstd::prelude::*;

verus! {

#[verifier::external_type_specification]
#[verifier::external_body]
pub struct ExValue(serde_json::Value);

/// The name → handler mapping, immutable once the gateway runs.
#[derive(Clone)]
pub struct ActionRegistry<H> {
    pub entries: Vec<(String, H)>,
}

/// The registry contents as a map from action name to handler.
pub open spec fn map_of<H>(entries: Seq<(String, H)>) -> Map<Seq<char>, H>
    decreases entries.len(),
{
    if entries.len() == 0 {
        Map::empty()
    } else {
        map_of(entries.drop_last()).insert(entries.last().0@, entries.last().1)
    }
}

proof fn lemma_map_of_contains<H>(entries: Seq<(String, H)>, k: Seq<char>)
    ensures
        map_of(entries).contains_key(k) <==> exists|i: int|
            0 <= i < entries.len() && entries[i].0@ == k,
    decreases entries.len(),
{
    if entries.len() > 0 {
        lemma_map_of_contains(entries.drop_last(), k);
        if map_of(entries).contains_key(k) {
            if entries.last().0@ != k {
                let i = choose|i: int|
                    0 <= i < entries.drop_last().len() && entries.drop_last()[i].0@ == k;
                assert(entries[i].0@ == k);
            }
        }
        if exists|i: int| 0 <= i < entries.len() && entries[i].0@ == k {
            let i = choose|i: int| 0 <= i < entries.len() && entries[i].0@ == k;
            if i < entries.len() - 1 {
                assert(entries.drop_last()[i].0@ == k);
            }
        }
    }
}

/// No two entries share a name.
pub open spec fn unique_keys<H>(entries: Seq<(String, H)>) -> bool {
    forall|i: int, j: int|
        0 <= i < j < entries.len() ==> entries[i].0@ != entries[j].0@
}

proof fn lemma_map_of_index<H>(entries: Seq<(String, H)>, i: int)
    requires
        unique_keys(entries),
        0 <= i < entries.len(),
    ensures
        map_of(entries).contains_key(entries[i].0@),
        map_of(entries)[entries[i].0@] == entries[i].1,
    decreases entries.len(),
{
    if i == entries.len() - 1 {
    } else {
        assert(unique_keys(entries.drop_last()));
        assert(entries.drop_last()[i] == entries[i]);
        lemma_map_of_index(entries.drop_last(), i);
        assert(entries[i].0@ != entries.last().0@);
    }
}

proof fn lemma_map_of_update<H>(entries: Seq<(String, H)>, i: int, p: (String, H))
    requires
        unique_keys(entries),
        0 <= i < entries.len(),
        entries[i].0@ == p.0@,
    ensures
        map_of(entries.update(i, p)) =~= map_of(entries).insert(p.0@, p.1),
    decreases entries.len(),
{
    if i == entries.len() - 1 {
        assert(entries.update(i, p).drop_last() =~= entries.drop_last());
    } else {
        assert(unique_keys(entries.drop_last()));
        assert(entries.drop_last()[i] == entries[i]);
        assert(entries.update(i, p).drop_last() =~= entries.drop_last().update(i, p));
        lemma_map_of_update(entries.drop_last(), i, p);
        assert(entries[i].0@ != entries.last().0@);
        assert(entries.update(i, p).last() == entries.last());
    }
}

/// Inserts into an association list with unique names, replacing any entry
/// already bound to the same name.
pub(crate) fn assoc_insert<V>(entries: &mut Vec<(String, V)>, name: &str, value: V)
    requires
        unique_keys(old(entries)@),
    ensures
        unique_keys(final(entries)@),
        map_of(final(entries)@) == map_of(old(entries)@).insert(name@, value),
        !map_of(old(entries)@).contains_key(name@) ==> final(entries)@.len() == old(entries)@.len()
            + 1 && final(entries)@.drop_last() == old(entries)@,
{
    let key = name.to_owned();
    let mut i: usize = 0;
    while i < entries.len()
        invariant
            i <= entries@.len(),
            forall|j: int| 0 <= j < i ==> entries@[j].0@ != key@,
            entries == old(entries),
            unique_keys(old(entries)@),
            key@ == name@,
        decreases entries@.len() - i,
    {
        if entries[i].0 == key {
            let ghost pre = entries@;
            entries.set(i, (key, value));
            proof {
                lemma_map_of_index(pre, i as int);
                lemma_map_of_update(pre, i as int, (entries@[i as int].0, value));
                assert(forall|j: int|
                    0 <= j < entries@.len() ==> entries@[j].0@ == pre[j].0@);
                assert(unique_keys(entries@));
            }
            return ;
        }
        i = i + 1;
    }
    let ghost pre = entries@;
    entries.push((key, value));
    proof {
        assert(entries@.drop_last() =~= pre);
        lemma_map_of_contains(pre, name@);
        assert(forall|j: int| 0 <= j < pre.len() ==> entries@[j] == pre[j] && pre[j].0@ != name@);
        assert(unique_keys(entries@));
    }
}

impl<H> View for ActionRegistry<H> {
    type V = Map<Seq<char>, H>;

    open spec fn view(&self) -> Map<Seq<char>, H> {
        map_of(self.entries@)
    }
}

impl<H> ActionRegistry<H> {
    /// The registry's internal invariant: entry names are unique, so each name
    /// resolves to exactly one handler.
    pub open spec fn wf(&self) -> bool {
        unique_keys(self.entries@)
    }

    /// An empty registry.
    pub fn new() -> (reg: ActionRegistry<H>)
        ensures
            reg.wf(),
            reg@ == Map::<Seq<char>, H>::empty(),
    {
        ActionRegistry { entries: Vec::new() }
    }

    /// Binds `name` to `handler`, replacing any handler previously registered
    /// under the same name.  Only valid before the gateway enters its run
    /// phase; afterwards the registry is read-only.
    pub fn register(&mut self, name: &str, handler: H)
        requires
            old(self).wf(),
        ensures
            final(self).wf(),
            final(self)@ == old(self)@.insert(name@, handler),
    {
        assoc_insert(&mut self.entries, name, handler);
    }

    /// Looks the name up; `Some` exactly for registered names, and then the
    /// very handler registered under that name.
    pub fn get(&self, name: &str) -> (r: Option<&H>)
        requires
            self.wf(),
        ensures
            match r {
                Some(h) => self@.contains_key(name@) && *h == self@[name@],
                None => !self@.contains_key(name@),
            },
    {
        let key = name.to_owned();
        let mut i: usize = 0;
        while i < self.entries.len()
            invariant
                i <= self.entries@.len(),
                forall|j: int| 0 <= j < i ==> self.entries@[j].0@ != key@,
                self.wf(),
                key@ == name@,
            decreases self.entries@.len() - i,
        {
            if self.entries[i].0 == key {
                proof {
                    lemma_map_of_index(self.entries@, i as int);
                }
                return Some(&self.entries[i].1);
            }
            i = i + 1;
        }
        proof {
            lemma_map_of_contains(self.entries@, name@);
        }
        None
    }
}

/// A structured dispatch failure, reported over the channel the request
/// arrived on.
#[derive(Clone, Debug)]
pub enum ActionError {
    /// The requested name matches no registry entry.
    UnknownAction { action: String },
    /// The handler itself reported a failure.
    HandlerFailed { detail: String },
}

/// The wire form of an "unknown action" error response.
pub open spec fn unknown_action_json(name: Seq<char>) -> Seq<char> {
    "{\"status\":\"failed\",\"error\":\"unknown_action\",\"action\":"@ + json_string(name) + "}"@
}

/// The wire form of a "handler failed" error response.
pub open spec fn handler_failed_json(detail: Seq<char>) -> Seq<char> {
    "{\"status\":\"failed\",\"error\":\"handler_failed\",\"detail\":"@ + json_string(detail) + "}"@
}

/// The wire form of the response to an unparsable inbound frame.
pub open spec fn parse_error_json() -> Seq<char> {
    "{\"status\":\"failed\",\"error\":\"invalid_frame\"}"@
}

impl ActionError {
    /// The response frame reporting this error.
    pub fn to_frame_text(&self) -> (r: String)
        ensures
            match self {
                ActionError::UnknownAction { action } => r@ == unknown_action_json(action@),
                ActionError::HandlerFailed { detail } => r@ == handler_failed_json(detail@),
            },
    {
        let mut out: Vec<char> = Vec::new();
        match self {
            ActionError::UnknownAction { action } => {
                push_str_chars(&mut out, "{\"status\":\"failed\",\"error\":\"unknown_action\",\"action\":");
                push_json_string(&mut out, action.as_str());
                push_str_chars(&mut out, "}");
                proof {
                    assert(out@ =~= unknown_action_json(action@));
                }
            },
            ActionError::HandlerFailed { detail } => {
                push_str_chars(&mut out, "{\"status\":\"failed\",\"error\":\"handler_failed\",\"detail\":");
                push_json_string(&mut out, detail.as_str());
                push_str_chars(&mut out, "}");
                proof {
                    assert(out@ =~= handler_failed_json(detail@));
                }
            },
        }
        crate::codec::chars_to_string(&out)
    }
}

impl<H: Fn(serde_json::Value) -> Result<String, String>> ActionRegistry<H> {
    /// Dispatches one action request: looks the name up and invokes exactly
    /// the handler registered under it, with the parameter payload passed
    /// through unmodified.  An unregistered name yields a structured "unknown
    /// action" error; a handler failure is caught here and yields a structured
    /// "handler failed" error.  Dispatch itself never fails.
    pub fn dispatch(&self, name: &str, params: serde_json::Value) -> (r: Result<String, ActionError>)
        requires
            self.wf(),
            self@.contains_key(name@) ==> call_requires(self@[name@], (params,)),
        ensures
            !self@.contains_key(name@) ==> (r matches Err(e)
                && e matches ActionError::UnknownAction { action } && action@ == name@),
            self@.contains_key(name@) ==> match r {
                Ok(out) => call_ensures(self@[name@], (params,), Ok(out)),
                Err(e) => e matches ActionError::HandlerFailed { detail } && call_ensures(
                    self@[name@],
                    (params,),
                    Err(detail),
                ),
            },
    {
        match self.get(name) {
            None => Err(ActionError::UnknownAction { action: name.to_owned() }),
            Some(handler) => match handler(params) {
                Ok(out) => Ok(out),
                Err(detail) => Err(ActionError::HandlerFailed { detail }),
            },
        }
    }

    /// Handles one inbound wire frame: parses it as an action request,
    /// dispatches it, and returns the response frame — the handler's own
    /// result on success, a structured error frame otherwise.  A malformed
    /// frame is answered, never allowed to take the connection down.
    pub fn handle_frame_text(&self, text: &str) -> (r: String)
        requires
            self.wf(),
            forall|n: Seq<char>, p: serde_json::Value|
                self@.contains_key(n) ==> #[trigger] call_requires(self@[n], (p,)),
        ensures
            frame_response_ok(self@, text@, r@),
    {
        match parse_action_frame(text) {
            None => {
                let mut out: Vec<char> = Vec::new();
                push_str_chars(&mut out, "{\"status\":\"failed\",\"error\":\"invalid_frame\"}");
                proof {
                    assert(out@ =~= parse_error_json());
                }
                crate::codec::chars_to_string(&out)
            },
            Some(frame) => match self.dispatch(frame.action.as_str(), frame.params) {
                Ok(out) => out,
                Err(e) => e.to_frame_text(),
            },
        }
    }
}

/// What a response frame may say about an inbound frame: the parse-error
/// frame when the text is no action frame; the unknown-action frame when the
/// name is not registered; otherwise an outcome the registered handler itself
/// can produce on some payload — its own result, or its failure wrapped as a
/// structured error.
pub open spec fn frame_response_ok<H: Fn(serde_json::Value) -> Result<String, String>>(
    m: Map<Seq<char>, H>,
    text: Seq<char>,
    r: Seq<char>,
) -> bool {
    match action_name_of(text) {
        None => r == parse_error_json(),
        Some(n) => {
            if m.contains_key(n) {
                (exists|p: serde_json::Value, out: String|
                    call_ensures(m[n], (p,), Ok(out)) && r == out@) || (exists|
                    p: serde_json::Value,
                    detail: String,
                |
                    call_ensures(m[n], (p,), Err(detail)) && r == handler_failed_json(detail@))
            } else {
                r == unknown_action_json(n)
            }
        },
    }
}

/// The action name carried by the text, when the text is a JSON object whose
/// `action` member is a string; what it is depends on the text alone.
pub uninterp spec fn action_name_of(s: Seq<char>) -> Option<Seq<char>>;

/// An inbound action request: the target action's name and its opaque
/// parameter payload.
pub struct ActionFrame {
    pub action: String,
    pub params: serde_json::Value,
}

/// Relies on serde_json::from_str::<Value>, Value::get and Value::as_str:
/// parses the text as JSON and takes out the string member `action` and the
/// member `params` (null when absent).  Success, and the name taken out,
/// are functions of the text alone.
#[verifier::external_body]
fn parse_action_frame(text: &str) -> (r: Option<ActionFrame>)
    ensures
        r is Some <==> action_name_of(text@) is Some,
        r matches Some(f) ==> action_name_of(text@) == Some(f.action@),
{
    let v: serde_json::Value = serde_json::from_str(text).ok()?;
    let action = v.get("action")?.as_str()?.to_owned();
    let params = v.get("params").cloned().unwrap_or(serde_json::Value::Null);
    Some(ActionFrame { action, params })
}

} // verus!
