use vstd::prelude::*;
use dashmap::DashMap;

verus! {

/// What the data of a message holds: texts by their keys.
pub type Texts = Map<Seq<char>, Seq<char>>;

/// The keys that the data of a message holds, each with its text.
pub uninterp spec fn text_entries(map: DashMap<String, String>) -> Map<Seq<char>, Seq<char>>;

/// `DashMap::new`: a map that holds nothing.
#[verifier::external_body]
pub(crate) fn texts_new() -> (map: DashMap<String, String>)
    ensures
        text_entries(map) == Texts::empty(),
{
    DashMap::new()
}

/// `DashMap::insert`: the key holds the new text afterwards, every other key
/// is as before; the text that the key held before is returned.
#[verifier::external_body]
pub(crate) fn texts_insert(map: &mut DashMap<String, String>, key: String, text: String) -> (before: Option<String>)
    ensures
        text_entries(*final(map)) == text_entries(*old(map)).insert(key@, text@),
        before.is_some() == text_entries(*old(map)).contains_key(key@),
        before.is_some() ==> before.unwrap()@ == text_entries(*old(map))[key@],
{
    map.insert(key, text)
}

/// `DashMap::get`: a copy of the text that the key holds, if it holds one.
#[verifier::external_body]
pub(crate) fn texts_get(map: &DashMap<String, String>, key: &str) -> (found: Option<String>)
    ensures
        found.is_some() == text_entries(*map).contains_key(key@),
        found.is_some() ==> found.unwrap()@ == text_entries(*map)[key@],
{
    map.get(key).map(|entry| entry.value().clone())
}

/// `DashMap::contains_key`: whether the key holds a text.
#[verifier::external_body]
pub(crate) fn texts_contains(map: &DashMap<String, String>, key: &str) -> (held: bool)
    ensures
        held == text_entries(*map).contains_key(key@),
{
    map.contains_key(key)
}

} // verus!
