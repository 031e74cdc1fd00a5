//! Lower case and snake case.

use vstd::prelude::*;

verus! {

/// An ASCII upper-case letter.
pub open spec fn is_upper(c: char) -> bool {
    'A' <= c <= 'Z'
}

/// One of the three characters that separate words: space, hyphen, underscore.
pub open spec fn is_separator(c: char) -> bool {
    c == ' ' || c == '-' || c == '_'
}

/// The ASCII lower-case form of a character; anything but `A`..`Z` is itself.
pub open spec fn spec_lower_case_char(c: char) -> char {
    if is_upper(c) {
        ((c as u8) + 32) as char
    } else {
        c
    }
}

/// `s` with each of its characters in lower case.
pub open spec fn spec_lower_case(s: Seq<char>) -> Seq<char> {
    s.map_values(|c: char| spec_lower_case_char(c))
}

/// Whether `c` is one of `A` to `Z`.
pub fn is_upper_char(c: char) -> (r: bool)
    ensures
        r == is_upper(c),
{
    'A' <= c && c <= 'Z'
}

/// The ASCII lower-case form of `c`.
pub fn lower_case_char(c: char) -> (r: char)
    ensures
        r == spec_lower_case_char(c),
{
    if is_upper_char(c) {
        let b: u8 = c as u8;
        (b + 32) as char
    } else {
        c
    }
}

/// Whether `s` has a last character and it is an underscore.
pub open spec fn ends_with_underscore(s: Seq<char>) -> bool {
    s.len() > 0 && s.last() == '_'
}

/// `prev` with the lower-case letter `tail` of a new word: an underscore
/// goes between them unless `prev` is empty or ends in one.
pub open spec fn spec_append_upper(prev: Seq<char>, tail: char) -> Seq<char> {
    if prev.len() == 0 || ends_with_underscore(prev) {
        prev.push(tail)
    } else {
        prev.push('_').push(tail)
    }
}

/// `prev` with a word boundary: an underscore, unless `prev` is empty or
/// ends in one.
pub open spec fn spec_append_seperator(prev: Seq<char>) -> Seq<char> {
    if prev.len() == 0 || ends_with_underscore(prev) {
        prev
    } else {
        prev.push('_')
    }
}

/// `prev` with `tail` behind it.
pub open spec fn spec_append_other(prev: Seq<char>, tail: char) -> Seq<char> {
    prev.push(tail)
}

/// What one character of the input adds to the snake-case text so far.
pub open spec fn snake_step(acc: Seq<char>, letter: char) -> Seq<char> {
    if is_upper(letter) {
        spec_append_upper(acc, spec_lower_case_char(letter))
    } else if is_separator(letter) {
        spec_append_seperator(acc)
    } else {
        spec_append_other(acc, spec_lower_case_char(letter))
    }
}

/// The snake-case text of `s` before its last underscore is taken off:
/// [`snake_step`] for each character, from the left.
pub open spec fn snake_fold(s: Seq<char>) -> Seq<char>
    decreases s.len(),
{
    if s.len() == 0 {
        Seq::empty()
    } else {
        snake_step(snake_fold(s.drop_last()), s.last())
    }
}

/// The snake-case spelling of `s`: upper-case letters start a new word and
/// are lowered; spaces, hyphens and underscores become one underscore
/// between two words; everything else stays; no underscore is left at the end.
pub open spec fn spec_snake_case(s: Seq<char>) -> Seq<char> {
    let folded = snake_fold(s);
    if ends_with_underscore(folded) {
        folded.drop_last()
    } else {
        folded
    }
}

/// `String::push`: the string grows by `c` at its end.
#[verifier::external_body]
fn push_char(s: &mut String, c: char)
    ensures
        final(s)@ == old(s)@.push(c),
{
    s.push(c)
}

/// `String::pop`: the last character leaves the string and is handed out;
/// an empty string stays empty and `None` comes back.
#[verifier::external_body]
fn pop_char(s: &mut String) -> (r: Option<char>)
    ensures
        old(s)@.len() == 0 ==> r.is_none() && final(s)@ == old(s)@,
        old(s)@.len() > 0 ==> r == Some(old(s)@.last()) && final(s)@ == old(s)@.drop_last(),
{
    s.pop()
}

/// `str::ends_with` for a single character: whether `c` is the last
/// character of `s`.
#[verifier::external_body]
fn ends_with_char(s: &String, c: char) -> (r: bool)
    ensures
        r == (s@.len() > 0 && s@.last() == c),
{
    s.ends_with(c)
}

/// `s` in lower case, character by character.
pub fn lower_case(s: &String) -> (r: String)
    ensures
        r@ == spec_lower_case(s@),
{
    let mut lower = String::new();
    for letter in iter: s.as_str().chars()
        invariant
            iter.seq() == s@,
            lower@ == spec_lower_case(s@.take(iter.index())),
    {
        push_char(&mut lower, lower_case_char(letter));
    }
    lower
}

/// The snake-case spelling of `s`.
pub fn snake_case(s: &String) -> (r: String)
    ensures
        r@ == spec_snake_case(s@),
{
    let mut snake = String::new();
    for letter in iter: s.as_str().chars()
        invariant
            iter.seq() == s@,
            snake@ == snake_fold(s@.take(iter.index())),
    {
        assert(s@.take(iter.index() + 1).drop_last() == s@.take(iter.index()));
        if is_upper_char(letter) {
            snake = append_upper(snake, lower_case_char(letter));
        } else if letter == ' ' || letter == '-' || letter == '_' {
            snake = append_seperator(snake);
        } else {
            snake = append_other(snake, lower_case_char(letter));
        }
    }
    assert(s@.take(s@.len() as int) == s@);
    if ends_with_char(&snake, '_') {
        pop_char(&mut snake);
    }
    snake
}

/// `prev` with the lower-case letter `tail` of a new word behind it, and an
/// underscore between the two unless `prev` is empty or ends in one.
pub fn append_upper(prev: String, tail: char) -> (r: String)
    ensures
        r@ == spec_append_upper(prev@, tail),
{
    let mut prev = prev;
    if !ends_with_char(&prev, '_') && !prev.as_str().is_empty() {
        push_char(&mut prev, '_');
    }
    push_char(&mut prev, tail);
    prev
}

/// `prev` with an underscore behind it, unless it is empty or ends in one.
pub fn append_seperator(prev: String) -> (r: String)
    ensures
        r@ == spec_append_seperator(prev@),
{
    let mut prev = prev;
    if !ends_with_char(&prev, '_') && !prev.as_str().is_empty() {
        push_char(&mut prev, '_');
    }
    prev
}

/// `prev` with `tail` behind it.
pub fn append_other(prev: String, tail: char) -> (r: String)
    ensures
        r@ == spec_append_other(prev@, tail),
{
    let mut prev = prev;
    push_char(&mut prev, tail);
    prev
}

/// No upper-case letter, space or hyphen, and every underscore stands
/// behind a character that is none. Such a text may still end in an underscore.
pub open spec fn spec_is_snake_prefix(s: Seq<char>) -> bool {
    &&& forall|i: int| 0 <= i < s.len() ==> !is_upper(#[trigger] s[i]) && s[i] != ' ' && s[i] != '-'
    &&& forall|i: int| 0 <= i < s.len() && #[trigger] s[i] == '_' ==> i > 0 && s[i - 1] != '_'
}

/// A snake-case text: lower-case words with single underscores between
/// them, and none at either end.
pub open spec fn spec_is_snake(s: Seq<char>) -> bool {
    spec_is_snake_prefix(s) && !ends_with_underscore(s)
}

proof fn lemma_snake_fold_shape(s: Seq<char>)
    ensures
        spec_is_snake_prefix(snake_fold(s)),
    decreases s.len(),
{
    if s.len() > 0 {
        lemma_snake_fold_shape(s.drop_last());
    }
}

proof fn lemma_snake_fold_fixed(s: Seq<char>)
    requires
        spec_is_snake_prefix(s),
    ensures
        snake_fold(s) == s,
    decreases s.len(),
{
    if s.len() > 0 {
        lemma_snake_fold_fixed(s.drop_last());
    }
}

/// What [`snake_case`] yields is a snake-case text.
pub proof fn lemma_snake_case_is_snake(s: Seq<char>)
    ensures
        spec_is_snake(spec_snake_case(s)),
{
    lemma_snake_fold_shape(s);
}

/// A snake-case text is its own snake-case spelling.
pub proof fn lemma_snake_case_keeps_snake(s: Seq<char>)
    requires
        spec_is_snake(s),
    ensures
        spec_snake_case(s) == s,
{
    lemma_snake_fold_fixed(s);
}

/// To spell a text in snake case twice is to spell it once.
pub proof fn lemma_snake_case_idempotent(s: Seq<char>)
    ensures
        spec_snake_case(spec_snake_case(s)) == spec_snake_case(s),
{
    lemma_snake_case_is_snake(s);
    lemma_snake_case_keeps_snake(spec_snake_case(s));
}

} // verus!
