use vstd::prelude::*;
use vstd::string::*;

use crate::mapper::{json_document, parse_json, ConfigDoc, MapError, MAX_DOCUMENT_CHARS};

verus! {

/// The upper-case form of a text, as std's Unicode case mapping gives it.
pub uninterp spec fn upper_of(s: Seq<char>) -> Seq<char>;

/// Relies on str::to_uppercase: the result depends on the characters
/// alone, and an empty text stays empty.
#[verifier::external_body]
fn to_uppercase(s: &str) -> (r: String)
    ensures
        r@ == upper_of(s@),
        s@.len() == 0 ==> r@.len() == 0,
{
    s.to_uppercase()
}

/// The members of the top-level object that the JSON reader makes of
/// `text`, in document order, each as its key and the text of its value;
/// `None` where it reads no object.
pub uninterp spec fn json_member_texts(text: Seq<char>) -> Option<Vec<(String, String)>>;

/// Relies on json::parse, json::object::Object::iter (members in document
/// order) and json::JsonValue's `Display`, which shows a string as its
/// characters and any other value as its JSON text; the result depends on
/// the text alone.
#[verifier::external_body]
fn member_texts(text: &str) -> (r: Option<Vec<(String, String)>>)
    requires
        text@.len() <= MAX_DOCUMENT_CHARS,
    ensures
        r == json_member_texts(text@),
{
    match json::parse(text) {
        Ok(json::JsonValue::Object(o)) => Some(
            o.iter().map(|(k, v)| (k.to_string(), v.to_string())).collect(),
        ),
        _ => None,
    }
}

/// The name under which a setting read from the file with key `key` is
/// known.
pub open spec fn setting_name(key: Seq<char>) -> Seq<char> {
    "UYUNI_"@ + upper_of(key)
}

/// Names each member of the settings file: its setting name and the text
/// of its value, in order.
pub fn settings_of(members: &Vec<(String, String)>) -> (r: Vec<(String, String)>)
    ensures
        r.len() == members.len(),
        forall|i: int|
            0 <= i < members.len() ==> (#[trigger] r@[i]).0@ == setting_name(members@[i].0@)
                && r@[i].1@ == members@[i].1@,
{
    let mut pairs: Vec<(String, String)> = Vec::new();
    let mut i: usize = 0;
    while i < members.len()
        invariant
            i <= members.len(),
            pairs.len() == i,
            forall|j: int|
                0 <= j < i ==> (#[trigger] pairs@[j]).0@ == setting_name(members@[j].0@)
                    && pairs@[j].1@ == members@[j].1@,
        decreases members.len() - i,
    {
        let upper = to_uppercase(members[i].0.as_str());
        let name = String::from_str("UYUNI_").concat(upper.as_str());
        pairs.push((name, members[i].1.clone()));
        i = i + 1;
    }
    pairs
}

/// Reads the settings file's text: one setting for each member of its
/// top-level object, named after the member's key and holding the text of
/// its value (a string as it is, any other value as its JSON text).
pub fn import_json_data(text: &str) -> (r: Result<Vec<(String, String)>, MapError>)
    ensures
        text@.len() > MAX_DOCUMENT_CHARS ==> r matches Err(MapError::TooLarge),
        text@.len() <= MAX_DOCUMENT_CHARS ==> (json_document(text@) is None ==> r matches Err(
            MapError::Unparsable,
        )),
        text@.len() <= MAX_DOCUMENT_CHARS ==> (json_document(text@) matches Some(d) ==> (!(
        d is Object) ==> r matches Err(MapError::NotAnObject))),
        text@.len() <= MAX_DOCUMENT_CHARS ==> (json_document(text@) matches Some(d) ==> (
        d is Object ==> (r is Ok <==> json_member_texts(text@) is Some))),
        r matches Ok(pairs) ==> (json_member_texts(text@) matches Some(m) && pairs.len()
            == m.len() && forall|i: int|
            0 <= i < m.len() ==> (#[trigger] pairs@[i]).0@ == setting_name(m@[i].0@)
                && pairs@[i].1@ == m@[i].1@),
{
    if text.unicode_len() > MAX_DOCUMENT_CHARS {
        return Err(MapError::TooLarge);
    }
    match parse_json(text) {
        None => Err(MapError::Unparsable),
        Some(ConfigDoc::Object(_)) => match member_texts(text) {
            Some(members) => Ok(settings_of(&members)),
            None => Err(MapError::Unparsable),
        },
        Some(_) => Err(MapError::NotAnObject),
    }
}

} // verus!
