use vstd::prelude::*;

verus! {

/// A JSON document as the library reads it.
///
/// A number is kept as the text that serde_json writes for it, so that no
/// floating-point value passes through the library's logic.
pub enum Json {
    Null,
    Bool(bool),
    Number(String),
    Text(String),
    Array(Vec<Json>),
    Object(Vec<(String, Json)>),
}

#[verifier::external_type_specification]
#[verifier::external_body]
pub struct ExValue(serde_json::Value);

/// The document that serde_json reads from a text, or `None` where it refuses
/// the text.
pub uninterp spec fn json_of(text: Seq<char>) -> Option<Json>;

/// Relies on `serde_json::from_str::<serde_json::Value>`: whether a text is a
/// JSON document, and which one, depends on the text alone.
#[verifier::external_body]
pub(crate) fn parse_json(text: &str) -> (r: Result<Json, String>)
    ensures
        r is Ok <==> json_of(text@) is Some,
        r matches Ok(doc) ==> json_of(text@) == Some(doc),
{
    match serde_json::from_str::<serde_json::Value>(text) {
        Ok(v) => Ok(from_value(v)),
        Err(e) => Err(e.to_string()),
    }
}

/// Relies on serde_json's `Value` variants and on `Number`'s `Display`: each
/// value is carried over one for one, a number as its written form.
#[verifier::external_body]
fn from_value(v: serde_json::Value) -> Json {
    match v {
        serde_json::Value::Null => Json::Null,
        serde_json::Value::Bool(b) => Json::Bool(b),
        serde_json::Value::Number(n) => Json::Number(n.to_string()),
        serde_json::Value::String(s) => Json::Text(s),
        serde_json::Value::Array(a) => Json::Array(a.into_iter().map(from_value).collect()),
        serde_json::Value::Object(m) => Json::Object(
            m.into_iter().map(|(k, x)| (k, from_value(x))).collect(),
        ),
    }
}

/// The value of the first member of `members` named `key`.
pub open spec fn member_of(members: Seq<(String, Json)>, key: Seq<char>) -> Option<Json>
    decreases members.len(),
{
    if members.len() == 0 {
        None
    } else if members[0].0@ == key {
        Some(members[0].1)
    } else {
        member_of(members.drop_first(), key)
    }
}

/// The member `key` of an object; `None` for any other kind of value.
pub open spec fn field_of(doc: Json, key: Seq<char>) -> Option<Json> {
    match doc {
        Json::Object(members) => member_of(members@, key),
        _ => None,
    }
}

/// The member `key` of `doc`, where `doc` is an object that has one.
pub fn field<'a>(doc: &'a Json, key: &str) -> (r: Option<&'a Json>)
    ensures
        match r {
            Some(v) => field_of(*doc, key@) == Some(*v),
            None => field_of(*doc, key@) is None,
        },
{
    match doc {
        Json::Object(members) => {
            let wanted = String::from_str(key);
            let mut i: usize = 0;
            assert(members@.skip(0) =~= members@);
            while i < members.len()
                invariant
                    0 <= i <= members.len(),
                    wanted@ == key@,
                    field_of(*doc, key@) == member_of(members@, key@),
                    member_of(members@, key@) == member_of(members@.skip(i as int), key@),
                decreases members.len() - i,
            {
                proof {
                    assert(members@.skip(i as int).drop_first() =~= members@.skip(i + 1));
                    assert(members@.skip(i as int)[0] == members@[i as int]);
                }
                if members[i].0 == wanted {
                    return Some(&members[i].1);
                }
                i = i + 1;
            }
            None
        },
        _ => None,
    }
}

/// The characters of a string value.
pub open spec fn text_of(v: Option<Json>) -> Option<Seq<char>> {
    match v {
        Some(Json::Text(s)) => Some(s@),
        _ => None,
    }
}

/// The written form of a number value.
pub open spec fn number_of(v: Option<Json>) -> Option<Seq<char>> {
    match v {
        Some(Json::Number(s)) => Some(s@),
        _ => None,
    }
}

/// The member `key` of `doc`, where it is a string.
pub fn text_field(doc: &Json, key: &str) -> (r: Option<String>)
    ensures
        match r {
            Some(s) => text_of(field_of(*doc, key@)) == Some(s@),
            None => text_of(field_of(*doc, key@)) is None,
        },
{
    match field(doc, key) {
        Some(Json::Text(s)) => Some(s.clone()),
        _ => None,
    }
}

/// The member `key` of `doc`, where it is a number, as it is written.
pub fn number_field(doc: &Json, key: &str) -> (r: Option<String>)
    ensures
        match r {
            Some(s) => number_of(field_of(*doc, key@)) == Some(s@),
            None => number_of(field_of(*doc, key@)) is None,
        },
{
    match field(doc, key) {
        Some(Json::Number(s)) => Some(s.clone()),
        _ => None,
    }
}

} // verus!
