//! The naming convention that marks a scene node as a source of collision
//! geometry: its name, lowercased, contains the word `collider`.

use vstd::prelude::*;

verus! {

/// The lowercase form that `str::to_lowercase` gives to a text.
pub uninterp spec fn lowercase_of(text: Seq<char>) -> Seq<char>;

/// The marker word, as a sequence of characters.
pub open spec fn collider_word() -> Seq<char> {
    seq!['c', 'o', 'l', 'l', 'i', 'd', 'e', 'r']
}

/// `word` stands in `text` at position `at`.
pub open spec fn occurs_at(text: Seq<char>, word: Seq<char>, at: int) -> bool {
    &&& 0 <= at
    &&& at + word.len() <= text.len()
    &&& forall|k: int| 0 <= k < word.len() ==> #[trigger] text[at + k] == word[k]
}

/// `word` stands somewhere in `text`.
pub open spec fn contains_word(text: Seq<char>, word: Seq<char>) -> bool {
    exists|at: int| occurs_at(text, word, at)
}

/// A name follows the convention when its lowercase form contains the marker
/// word.
pub open spec fn names_collider(name: Seq<char>) -> bool {
    contains_word(lowercase_of(name), collider_word())
}

/// Calls `str::to_lowercase` and hands the result out character by character.
/// Trusted: the result is the lowercase form of `name`, which the standard
/// library computes from the Unicode tables and this crate only names.
#[verifier::external_body]
fn lowercase_chars(name: &str) -> (lowered: Vec<char>)
    ensures
        lowered@ == lowercase_of(name@),
{
    name.to_lowercase().chars().collect()
}

fn marker() -> (word: Vec<char>)
    ensures
        word@ == collider_word(),
{
    let word = vec!['c', 'o', 'l', 'l', 'i', 'd', 'e', 'r'];
    assert(word@ =~= collider_word());
    word
}

/// Does `word` stand in `text` at `at`?
fn matches_at(text: &Vec<char>, word: &Vec<char>, at: usize) -> (found: bool)
    requires
        at + word.len() <= text.len(),
    ensures
        found == occurs_at(text@, word@, at as int),
{
    let mut k: usize = 0;
    while k < word.len()
        invariant
            k <= word.len(),
            at + word.len() <= text.len(),
            forall|j: int| 0 <= j < k ==> #[trigger] text@[at + j] == word@[j],
        decreases word.len() - k,
    {
        if text[at + k] != word[k] {
            return false;
        }
        k += 1;
    }
    true
}

/// Searches `text` for `word`, leftmost position first.
pub fn find_word(text: &Vec<char>, word: &Vec<char>) -> (place: Option<usize>)
    ensures
        place is Some <==> contains_word(text@, word@),
        place matches Some(at) ==> occurs_at(text@, word@, at as int) && forall|earlier: int|
            0 <= earlier < at ==> !occurs_at(text@, word@, earlier),
{
    if word.len() > text.len() {
        return None;
    }
    let last: usize = text.len() - word.len();
    let mut at: usize = 0;
    while at <= last
        invariant
            at <= last + 1,
            last == text.len() - word.len(),
            forall|earlier: int| 0 <= earlier < at ==> !occurs_at(text@, word@, earlier),
        decreases last + 1 - at,
    {
        if matches_at(text, word, at) {
            return Some(at);
        }
        at += 1;
    }
    None
}

/// Tells whether an already lowercased name contains the marker word.
pub fn lowered_name_is_collider(lowered: &Vec<char>) -> (hit: bool)
    ensures
        hit == contains_word(lowered@, collider_word()),
{
    let word = marker();
    find_word(lowered, &word).is_some()
}

/// Tells whether a node name follows the collider naming convention, whatever
/// the case of its letters.
pub fn is_collider_name(name: &str) -> (hit: bool)
    ensures
        hit == names_collider(name@),
{
    let lowered = lowercase_chars(name);
    lowered_name_is_collider(&lowered)
}

} // verus!
