//! Character strings: case folding and lists of tags.

use vstd::prelude::*;

verus! {

/// The lowercase form of a string, as `str::to_lowercase` computes it.
pub uninterp spec fn lowercase(s: Seq<char>) -> Seq<char>;

/// `str::to_lowercase` of the standard library. The lowercase form follows
/// the Unicode case mapping, which is far too long to state here; the
/// contract claims only that the result is a function of the characters of
/// the string, and calls that function `lowercase`.
pub assume_specification[ str::to_lowercase ](s: &str) -> (r: String)
    ensures
        r@ == lowercase(s@),
;

/// The strings of a list as sequences of characters.
pub open spec fn tags_of(list: Seq<String>) -> Seq<Seq<char>> {
    list.map_values(|tag: String| tag@)
}

/// Some element of `wanted` occurs in `present`.
pub open spec fn shares_a_tag(wanted: Seq<Seq<char>>, present: Seq<Seq<char>>) -> bool {
    exists|i: int| 0 <= i < wanted.len() && present.contains(#[trigger] wanted[i])
}

/// Whether two strings are equal, letter for letter.
pub fn same_text(a: &str, b: &str) -> (same: bool)
    ensures
        same == (a@ == b@),
{
    let owned_a = String::from_str(a);
    let owned_b = String::from_str(b);
    owned_a == owned_b
}

/// Whether `tag` occurs in `tags`, letter for letter.
pub fn has_tag(tags: &Vec<String>, tag: &String) -> (found: bool)
    ensures
        found == tags_of(tags@).contains(tag@),
{
    let mut i: usize = 0;
    while i < tags.len()
        invariant
            i <= tags.len(),
            forall|j: int| 0 <= j < i ==> tags_of(tags@)[j] != tag@,
        decreases tags.len() - i,
    {
        if tags[i] == *tag {
            assert(tags_of(tags@)[i as int] == tag@);
            return true;
        }
        i += 1;
    }
    false
}

/// Whether some string of `wanted` occurs in `present`, letter for letter.
pub fn shares_tag(wanted: &Vec<String>, present: &Vec<String>) -> (found: bool)
    ensures
        found == shares_a_tag(tags_of(wanted@), tags_of(present@)),
{
    let mut i: usize = 0;
    while i < wanted.len()
        invariant
            i <= wanted.len(),
            forall|j: int| 0 <= j < i ==> !tags_of(present@).contains(#[trigger] tags_of(wanted@)[j]),
        decreases wanted.len() - i,
    {
        if has_tag(present, &wanted[i]) {
            assert(tags_of(present@).contains(tags_of(wanted@)[i as int]));
            return true;
        }
        i += 1;
    }
    false
}

/// A copy of a list of strings.
pub fn clone_tags(list: &Vec<String>) -> (copy: Vec<String>)
    ensures
        copy@ == list@,
{
    let mut copy: Vec<String> = Vec::new();
    let mut i: usize = 0;
    while i < list.len()
        invariant
            i <= list.len(),
            copy@ == list@.take(i as int),
        decreases list.len() - i,
    {
        copy.push(list[i].clone());
        assert(copy@ =~= list@.take(i as int + 1));
        i += 1;
    }
    assert(list@.take(list.len() as int) =~= list@);
    copy
}

} // verus!
