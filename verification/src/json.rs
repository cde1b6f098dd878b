//! Reading one JSON object with `serde_json`, reduced to what the record parser looks at: the
//! member names and, for each member, the kind of its value and its text where it is a string.

use vstd::prelude::*;

verus! {

/// The value of one member of a JSON object. Only a string keeps its content.
#[derive(Debug)]
pub enum JsonMember {
    Null,
    Bool,
    Number,
    Text(String),
    Array,
    Object,
}

/// A [`JsonMember`] with its text as a sequence of characters.
pub enum MemberView {
    Null,
    Bool,
    Number,
    Text(Seq<char>),
    Array,
    Object,
}

impl View for JsonMember {
    type V = MemberView;

    open spec fn view(&self) -> MemberView {
        match self {
            JsonMember::Null => MemberView::Null,
            JsonMember::Bool => MemberView::Bool,
            JsonMember::Number => MemberView::Number,
            JsonMember::Text(text) => MemberView::Text(text@),
            JsonMember::Array => MemberView::Array,
            JsonMember::Object => MemberView::Object,
        }
    }
}

#[verifier::external_type_specification]
#[verifier::external_body]
pub struct ExJsonError(serde_json::Error);

/// The members of the JSON object that `text` holds, by name; `None` where `text` is not
/// exactly one JSON object. Where a name occurs twice, the later member counts.
pub uninterp spec fn json_object(text: Seq<char>) -> Option<Map<Seq<char>, MemberView>>;

/// No two members of the list have the same name.
pub open spec fn distinct_names(members: Seq<(String, JsonMember)>) -> bool {
    forall|i: int, j: int|
        0 <= i < j < members.len() ==> (#[trigger] members[i]).0@ != (#[trigger] members[j]).0@
}

/// The names that occur in the list, each with the value of the member that bears it.
pub open spec fn by_name(members: Seq<(String, JsonMember)>) -> Map<Seq<char>, MemberView> {
    Map::new(
        |name: Seq<char>| exists|i: int| 0 <= i < members.len() && (#[trigger] members[i]).0@ == name,
        |name: Seq<char>|
            {
                let i = choose|i: int| 0 <= i < members.len() && (#[trigger] members[i]).0@ == name;
                members[i].1@
            },
    )
}

/// `serde_json::from_str` at the type `serde_json::Map<String, serde_json::Value>`, and the
/// members of that map handed out one by one. It succeeds exactly on the texts that
/// [`json_object`] knows as an object, with the same members, each name once. Of a value that
/// is no string only the kind is kept.
#[verifier::external_body]
pub(crate) fn read_object(text: &str) -> (outcome: Result<
    Vec<(String, JsonMember)>,
    serde_json::Error,
>)
    ensures
        match outcome {
            Ok(members) => distinct_names(members@) && json_object(text@) == Some(
                by_name(members@),
            ),
            Err(_) => json_object(text@) is None,
        },
{
    let object = serde_json::from_str::<serde_json::Map<String, serde_json::Value>>(text)?;
    Ok(object.into_iter().map(|(name, value)| (name, match value {
        serde_json::Value::Null => JsonMember::Null,
        serde_json::Value::Bool(_) => JsonMember::Bool,
        serde_json::Value::Number(_) => JsonMember::Number,
        serde_json::Value::String(text) => JsonMember::Text(text),
        serde_json::Value::Array(_) => JsonMember::Array,
        serde_json::Value::Object(_) => JsonMember::Object,
    })).collect())
}

/// The member called `name`, if the list has one.
pub fn find_member<'a>(members: &'a Vec<(String, JsonMember)>, name: &str) -> (found: Option<
    &'a JsonMember,
>)
    requires
        distinct_names(members@),
    ensures
        match found {
            Some(member) => by_name(members@).contains_key(name@) && by_name(members@)[name@]
                == member@,
            None => !by_name(members@).contains_key(name@),
        },
{
    let wanted = name.to_owned();
    let mut i: usize = 0;
    while i < members.len()
        invariant
            i <= members.len(),
            wanted@ == name@,
            distinct_names(members@),
            forall|k: int| 0 <= k < i ==> (#[trigger] members@[k]).0@ != name@,
        decreases members.len() - i,
    {
        if members[i].0 == wanted {
            proof {
                let k = choose|k: int|
                    0 <= k < members@.len() && (#[trigger] members@[k]).0@ == name@;
                assert(members@[i as int].0@ == name@);
                assert(k == i);
            }
            return Some(&members[i].1);
        }
        i += 1;
    }
    None
}

} // verus!
