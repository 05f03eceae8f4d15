//! JSON values in configs: text members, and the `rope_scaling` block.
use serde_json::Value;
use vstd::prelude::*;
use crate::text::{debug_string, debug_text, same, text};

verus! {

/// `serde_json::Value`, a parsed JSON value, carried opaquely.
#[verifier::external_type_specification]
#[verifier::external_body]
pub struct ExValue(Value);

/// The text of a JSON string value, `None` for a value of another kind.
pub uninterp spec fn json_str(v: Value) -> Option<Seq<char>>;

/// The members of a JSON object by name; a value of another kind has none.
pub uninterp spec fn json_members(v: Value) -> Map<Seq<char>, Value>;

/// The Debug rendering of a JSON value.
pub uninterp spec fn json_debug(v: Value) -> Seq<char>;

/// `serde_json::Value::as_str`: the associated string when the value is a string, `None` otherwise.
#[verifier::external_body]
pub(crate) fn value_str(v: &Value) -> (r: Option<&str>)
    ensures
        r is Some <==> json_str(*v) is Some,
        r matches Some(s) ==> json_str(*v) == Some(s@),
{
    v.as_str()
}

/// `serde_json::Value::get` with a string index: the member of that name when the value is an
/// object that has one, `None` otherwise.
#[verifier::external_body]
pub(crate) fn value_get<'a>(v: &'a Value, key: &str) -> (r: Option<&'a Value>)
    ensures
        match r {
            Some(m) => json_members(*v).contains_key(key@) && *m == json_members(*v)[key@],
            None => !json_members(*v).contains_key(key@),
        },
{
    v.get(key)
}

/// `<serde_json::Value as Debug>::fmt`: the rendering named `json_debug`.
#[verifier::external_body]
pub(crate) fn value_debug(v: &Value) -> (r: String)
    ensures r@ == json_debug(*v),
{
    format!("{v:?}")
}

/// The text under `key` in a JSON object, where a string stands there.
pub open spec fn member_text(v: Value, key: Seq<char>) -> Option<Seq<char>> {
    if json_members(v).contains_key(key) { json_str(json_members(v)[key]) } else { None }
}

/// The text under `key` in a JSON object, where a string stands there.
pub fn text_member<'a>(v: &'a Value, key: &str) -> (r: Option<&'a str>)
    ensures
        r is Some <==> member_text(*v, key@) is Some,
        r matches Some(s) ==> member_text(*v, key@) == Some(s@),
{
    match value_get(v, key) {
        Some(m) => value_str(m),
        None => None,
    }
}

/// A `rope_scaling` object: its members, each name at most once.
#[derive(Clone, Debug)]
pub struct ScalingBlock {
    pub members: Vec<(String, Value)>,
}

/// The value under `key`, searched from member `i` on.
pub open spec fn member_from(m: Seq<(String, Value)>, key: Seq<char>, i: int) -> Option<Value>
    decreases m.len() - i,
{
    if i < 0 || i >= m.len() { None } else if m[i].0@ == key { Some(m[i].1) } else { member_from(m, key, i + 1) }
}

/// The members from `i` on, each behind a comma and a space.
pub open spec fn members_text(m: Seq<(String, Value)>, i: int) -> Seq<char>
    decreases m.len() - i,
{
    if i < 0 || i >= m.len() {
        Seq::empty()
    } else {
        ", "@ + debug_text(m[i].0@) + ": "@ + json_debug(m[i].1) + members_text(m, i + 1)
    }
}

impl ScalingBlock {
    /// The value of a member.
    pub open spec fn spec_get(&self, key: Seq<char>) -> Option<Value> {
        member_from(self.members@, key, 0)
    }

    /// The scaling kind: the text under `rope_type`, or under `type` where no member is named
    /// `rope_type`.
    pub open spec fn spec_kind(&self) -> Option<Seq<char>> {
        let named = match self.spec_get("rope_type"@) {
            Some(v) => Some(v),
            None => self.spec_get("type"@),
        };
        match named {
            Some(v) => json_str(v),
            None => None,
        }
    }

    /// Debug rendering as a map.
    pub open spec fn spec_debug(&self) -> Seq<char> {
        let m = self.members@;
        if m.len() == 0 {
            "{}"@
        } else {
            "{"@ + debug_text(m[0].0@) + ": "@ + json_debug(m[0].1) + members_text(m, 1) + "}"@
        }
    }

    /// The value of a member.
    pub fn get(&self, key: &str) -> (r: Option<&Value>)
        ensures
            r is Some <==> self.spec_get(key@) is Some,
            r matches Some(v) ==> self.spec_get(key@) == Some(*v),
    {
        let mut i: usize = 0;
        while i < self.members.len()
            invariant
                0 <= i <= self.members.len(),
                self.spec_get(key@) == member_from(self.members@, key@, i as int),
            decreases self.members.len() - i,
        {
            if same(self.members[i].0.as_str(), key) {
                return Some(&self.members[i].1);
            }
            i = i + 1;
        }
        None
    }

    /// The scaling kind that the block names.
    pub fn kind(&self) -> (r: Option<&str>)
        ensures
            r is Some <==> self.spec_kind() is Some,
            r matches Some(s) ==> self.spec_kind() == Some(s@),
    {
        match self.get("rope_type") {
            Some(v) => value_str(v),
            None => match self.get("type") {
                Some(v) => value_str(v),
                None => None,
            },
        }
    }

    /// Debug rendering as a map.
    pub fn debug(&self) -> (r: String)
        ensures r@ == self.spec_debug(),
    {
        let n: usize = self.members.len();
        if n == 0 {
            return "{}".to_owned();
        }
        let mut tail: String = String::new();
        let mut i: usize = n;
        assert(tail@ =~= members_text(self.members@, n as int));
        while i > 1
            invariant
                1 <= i <= n == self.members.len(),
                tail@ == members_text(self.members@, i as int),
            decreases i,
        {
            i = i - 1;
            let k: String = debug_string(self.members[i].0.as_str());
            let v: String = value_debug(&self.members[i].1);
            tail = text(", ").lit(k.as_str()).lit(": ").lit(v.as_str()).lit(tail.as_str()).done();
        }
        let k: String = debug_string(self.members[0].0.as_str());
        let v: String = value_debug(&self.members[0].1);
        text("{").lit(k.as_str()).lit(": ").lit(v.as_str()).lit(tail.as_str()).lit("}").done()
    }
}

} // verus!
