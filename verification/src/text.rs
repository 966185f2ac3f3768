//! Text helpers shared by the other modules.

use vstd::prelude::*;
use vstd::string::{StrSliceExecFns, StringExecFns, StringSliceAdditionalSpecFns};
use vstd::utf8::encode_utf8_decode_utf8;

verus! {

/// The texts of a list of strings, in order.
pub open spec fn text_list(items: Seq<String>) -> Seq<Seq<char>> {
    Seq::new(items.len(), |i: int| items[i]@)
}

/// Two strings hold the same characters exactly when their UTF-8 encodings agree.
pub proof fn lemma_same_bytes_same_text(a: Seq<char>, b: Seq<char>)
    ensures
        (vstd::utf8::encode_utf8(a) == vstd::utf8::encode_utf8(b)) <==> (a == b),
{
    encode_utf8_decode_utf8(a);
    encode_utf8_decode_utf8(b);
}

/// Whether `a` and `b` are the same text.
pub fn str_eq(a: &str, b: &str) -> (same: bool)
    ensures
        same == (a@ == b@),
{
    let left = a.as_bytes();
    let right = b.as_bytes();
    proof {
        lemma_same_bytes_same_text(a@, b@);
    }
    if left.len() != right.len() {
        return false;
    }
    let mut i: usize = 0;
    while i < left.len()
        invariant
            i <= left.len(),
            left.len() == right.len(),
            left@ == a.spec_bytes(),
            right@ == b.spec_bytes(),
            forall|k: int| 0 <= k < i ==> left@[k] == right@[k],
        decreases left.len() - i,
    {
        if left[i] != right[i] {
            proof {
                assert(left@[i as int] != right@[i as int]);
                lemma_same_bytes_same_text(a@, b@);
            }
            return false;
        }
        i += 1;
    }
    assert(left@ =~= right@);
    true
}

/// A copy of a list of strings.
pub fn clone_strings(items: &[String]) -> (copy: Vec<String>)
    ensures
        copy@ == items@,
        text_list(copy@) == text_list(items@),
{
    let mut copy: Vec<String> = Vec::new();
    let mut i: usize = 0;
    while i < items.len()
        invariant
            i <= items.len(),
            copy@ == items@.take(i as int),
        decreases items.len() - i,
    {
        copy.push(items[i].clone());
        assert(copy@ =~= items@.take(i + 1));
        i += 1;
    }
    assert(items@.take(i as int) =~= items@);
    copy
}

/// Whether `c` is white space: a character with the Unicode property
/// `White_Space`, which is what trimming a string removes.
pub open spec fn is_white_space(c: char) -> bool {
    let code = c as u32;
    ||| 0x09 <= code <= 0x0d
    ||| code == 0x20
    ||| code == 0x85
    ||| code == 0xa0
    ||| code == 0x1680
    ||| 0x2000 <= code <= 0x200a
    ||| code == 0x2028
    ||| code == 0x2029
    ||| code == 0x202f
    ||| code == 0x205f
    ||| code == 0x3000
}

/// Whether a text is empty or holds white space only.
pub open spec fn is_blank(text: Seq<char>) -> bool {
    forall|i: int| 0 <= i < text.len() ==> is_white_space(#[trigger] text[i])
}

/// Whether `c` is white space.
pub fn char_is_white_space(c: char) -> (white: bool)
    ensures
        white == is_white_space(c),
{
    let code = c as u32;
    (0x09 <= code && code <= 0x0d) || code == 0x20 || code == 0x85 || code == 0xa0 || code
        == 0x1680 || (0x2000 <= code && code <= 0x200a) || code == 0x2028 || code == 0x2029
        || code == 0x202f || code == 0x205f || code == 0x3000
}

/// Whether `text` is empty or holds white space only.
pub fn str_is_blank(text: &str) -> (blank: bool)
    ensures
        blank == is_blank(text@),
{
    for c in it: text.chars()
        invariant
            it.seq() == text@,
            forall|i: int| 0 <= i < it.index() ==> is_white_space(#[trigger] text@[i]),
    {
        if !char_is_white_space(c) {
            return false;
        }
    }
    true
}

/// `head` followed by `tail`.
pub fn concat2(head: &str, tail: &str) -> (joined: String)
    ensures
        joined@ == head@ + tail@,
{
    let mut joined = String::from_str(head);
    joined.append(tail);
    joined
}

/// `head`, then `middle`, then `tail`.
pub fn concat3(head: &str, middle: &str, tail: &str) -> (joined: String)
    ensures
        joined@ == head@ + middle@ + tail@,
{
    let mut joined = String::from_str(head);
    joined.append(middle);
    joined.append(tail);
    joined
}

/// The characters of a string, in order.
pub fn chars_of(text: &str) -> (chars: Vec<char>)
    ensures
        chars@ == text@,
{
    let mut chars: Vec<char> = Vec::new();
    for c in it: text.chars()
        invariant
            it.seq() == text@,
            chars@ == text@.take(it.index() as int),
    {
        chars.push(c);
        assert(chars@ =~= text@.take(it.index() + 1));
    }
    assert(text@.take(text@.len() as int) =~= text@);
    chars
}

/// Whether `part` stands in `text` at the place `at`.
pub open spec fn occurs_at(text: Seq<char>, part: Seq<char>, at: int) -> bool {
    0 <= at && at + part.len() <= text.len() && text.subrange(at, at + part.len()) == part
}

/// Whether `part` stands somewhere in `text`. The empty text stands in
/// every text.
pub open spec fn has_part(text: Seq<char>, part: Seq<char>) -> bool {
    exists|at: int| occurs_at(text, part, at)
}

/// Whether `text` begins with `prefix`.
pub open spec fn has_prefix(text: Seq<char>, prefix: Seq<char>) -> bool {
    occurs_at(text, prefix, 0)
}

/// Whether `part` stands in `text` at the place `at`.
fn chars_occur_at(text: &Vec<char>, part: &Vec<char>, at: usize) -> (found: bool)
    requires
        at + part.len() <= text.len(),
    ensures
        found == occurs_at(text@, part@, at as int),
{
    let mut k: usize = 0;
    while k < part.len()
        invariant
            k <= part.len(),
            at + part.len() <= text.len(),
            forall|j: int| 0 <= j < k ==> text@[at + j] == part@[j],
        decreases part.len() - k,
    {
        if text[at + k] != part[k] {
            assert(text@.subrange(at as int, at + part.len())[k as int] != part@[k as int]);
            return false;
        }
        k += 1;
    }
    assert(text@.subrange(at as int, at + part.len()) =~= part@);
    true
}

/// Whether `text` begins with `prefix`.
pub fn str_starts_with(text: &str, prefix: &str) -> (found: bool)
    ensures
        found == has_prefix(text@, prefix@),
{
    let text_chars = chars_of(text);
    let prefix_chars = chars_of(prefix);
    if prefix_chars.len() > text_chars.len() {
        return false;
    }
    chars_occur_at(&text_chars, &prefix_chars, 0)
}

/// Whether `part` stands somewhere in `text`.
pub fn str_contains(text: &str, part: &str) -> (found: bool)
    ensures
        found == has_part(text@, part@),
{
    let text_chars = chars_of(text);
    let part_chars = chars_of(part);
    if part_chars.len() > text_chars.len() {
        return false;
    }
    let last = text_chars.len() - part_chars.len();
    let mut at: usize = 0;
    loop
        invariant
            at <= last,
            last == text_chars.len() - part_chars.len(),
            text_chars@ == text@,
            part_chars@ == part@,
            forall|i: int| 0 <= i < at ==> !occurs_at(text@, part@, i),
        decreases last - at,
    {
        if chars_occur_at(&text_chars, &part_chars, at) {
            return true;
        }
        if at == last {
            return false;
        }
        at += 1;
    }
}

/// The place of the first character from `from` on that is not white space,
/// or the length of the text where there is none.
pub open spec fn skip_white(text: Seq<char>, from: int) -> int
    decreases text.len() - from,
{
    if from < 0 || from >= text.len() {
        text.len() as int
    } else if !is_white_space(text[from]) {
        from
    } else {
        skip_white(text, from + 1)
    }
}

/// The place after the last character before `to` that is not white space,
/// or zero where there is none.
pub open spec fn skip_white_back(text: Seq<char>, to: int) -> int
    decreases to,
{
    if to <= 0 || to > text.len() {
        0
    } else if !is_white_space(text[to - 1]) {
        to
    } else {
        skip_white_back(text, to - 1)
    }
}

/// A text without the white space at its beginning and at its end.
pub open spec fn trimmed(text: Seq<char>) -> Seq<char> {
    let from = skip_white(text, 0);
    let to = skip_white_back(text, text.len() as int);
    if from >= to {
        Seq::empty()
    } else {
        text.subrange(from, to)
    }
}

/// A text without the white space at its beginning and at its end.
pub fn str_trim(text: &str) -> (inner: String)
    ensures
        inner@ == trimmed(text@),
{
    let chars = chars_of(text);
    let mut from: usize = 0;
    while from < chars.len() && char_is_white_space(chars[from])
        invariant
            from <= chars.len(),
            chars@ == text@,
            skip_white(text@, 0) == skip_white(text@, from as int),
        decreases chars.len() - from,
    {
        from += 1;
    }
    let mut to: usize = chars.len();
    while to > 0 && char_is_white_space(chars[to - 1])
        invariant
            to <= chars.len(),
            chars@ == text@,
            skip_white_back(text@, text@.len() as int) == skip_white_back(text@, to as int),
        decreases to,
    {
        to -= 1;
    }
    if from >= to {
        String::new()
    } else {
        String::from_str(text.substring_char(from, to))
    }
}

/// The number of bytes that the UTF-8 encoding of a text takes.
pub open spec fn byte_len(text: Seq<char>) -> nat {
    vstd::utf8::encode_utf8(text).len()
}

/// Whether the encoding of a text can be cut after `at` bytes: whether a
/// character ends there, or the text.
pub open spec fn can_cut(text: Seq<char>, at: int) -> bool {
    vstd::utf8::is_char_boundary(vstd::utf8::encode_utf8(text), at)
}

/// The text that the bytes from `from` to `to` of the encoding of `text`
/// encode.
pub open spec fn byte_range(text: Seq<char>, from: int, to: int) -> Seq<char> {
    vstd::utf8::decode_utf8(vstd::utf8::encode_utf8(text).subrange(from, to))
}

/// The number of bytes of a string.
pub fn str_byte_len(text: &str) -> (len: usize)
    ensures
        len == byte_len(text@),
{
    text.as_bytes().len()
}

/// Whether a string can be cut after `at` bytes.
pub fn str_can_cut(text: &str, at: usize) -> (whole: bool)
    ensures
        whole == can_cut(text@, at as int),
{
    text.is_char_boundary(at)
}

/// The first `at` bytes of a string.
pub fn str_head(text: &str, at: usize) -> (head: &str)
    requires
        can_cut(text@, at as int),
    ensures
        head@ == byte_range(text@, 0, at as int),
{
    let (head, _) = text.split_at(at);
    proof {
        encode_utf8_decode_utf8(head@);
    }
    head
}

/// A string without its first `at` bytes.
pub fn str_tail(text: &str, at: usize) -> (tail: &str)
    requires
        can_cut(text@, at as int),
    ensures
        tail@ == byte_range(text@, at as int, byte_len(text@) as int),
{
    let (_, tail) = text.split_at(at);
    proof {
        encode_utf8_decode_utf8(tail@);
    }
    tail
}

/// `part` appended to the path `base`, with one `/` between them unless
/// `base` is empty or ends in one already.
pub open spec fn joined_path(base: Seq<char>, part: Seq<char>) -> Seq<char> {
    if base.len() == 0 {
        part
    } else if base.last() == '/' {
        base + part
    } else {
        base + "/"@ + part
    }
}

/// Appends `part` to the path `base`.
pub fn join_path(base: &str, part: &str) -> (joined: String)
    ensures
        joined@ == joined_path(base@, part@),
{
    let mut last: Option<char> = None;
    for c in it: base.chars()
        invariant
            it.seq() == base@,
            match last {
                Some(seen) => it.index() > 0 && seen == base@[it.index() - 1],
                None => it.index() == 0,
            },
    {
        last = Some(c);
    }
    match last {
        None => String::from_str(part),
        Some(seen) => {
            let mut joined = String::from_str(base);
            if seen != '/' {
                joined.append("/");
                proof {
                    reveal_strlit("/");
                }
            }
            joined.append(part);
            joined
        },
    }
}

} // verus!
