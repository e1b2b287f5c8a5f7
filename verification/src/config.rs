//! Finding the folder to scan.
//!
//! The folder is named in the first line of a small settings file, in the
//! form `key = value`. Where that file cannot be used the user is asked, and
//! an empty answer stands for a default folder. Reading the file and asking
//! the user are the caller's part; what the line and the answer mean is
//! decided here.

use vstd::prelude::*;

verus! {

/// Whether a character is white space: the characters that Unicode gives
/// the property `White_Space`.
pub open spec fn spec_is_whitespace(c: char) -> bool {
    let code = c as u32;
    ||| 0x09 <= code <= 0x0D
    ||| code == 0x20
    ||| code == 0x85
    ||| code == 0xA0
    ||| code == 0x1680
    ||| 0x2000 <= code <= 0x200A
    ||| code == 0x2028
    ||| code == 0x2029
    ||| code == 0x202F
    ||| code == 0x205F
    ||| code == 0x3000
}

/// Whether a character is white space.
#[verifier::when_used_as_spec(spec_is_whitespace)]
pub fn is_whitespace(c: char) -> (white: bool)
    ensures
        white == spec_is_whitespace(c),
{
    let code: u32 = c as u32;
    (0x09 <= code && code <= 0x0D) || code == 0x20 || code == 0x85 || code == 0xA0 || code
        == 0x1680 || (0x2000 <= code && code <= 0x200A) || code == 0x2028 || code == 0x2029
        || code == 0x202F || code == 0x205F || code == 0x3000
}

/// A text without the white space that it begins with.
pub open spec fn trim_start(text: Seq<char>) -> Seq<char>
    decreases text.len(),
{
    if text.len() > 0 && is_whitespace(text.first()) {
        trim_start(text.drop_first())
    } else {
        text
    }
}

/// A text without the white space that it ends with.
pub open spec fn trim_end(text: Seq<char>) -> Seq<char>
    decreases text.len(),
{
    if text.len() > 0 && is_whitespace(text.last()) {
        trim_end(text.drop_last())
    } else {
        text
    }
}

/// A text without the white space at either end.
pub open spec fn trimmed(text: Seq<char>) -> Seq<char> {
    trim_end(trim_start(text))
}

/// The part of a line between its first `=` and its second, or the end of
/// the line where there is no second one. A line without `=` has no such
/// part.
pub open spec fn second_field(line: Seq<char>) -> Option<Seq<char>> {
    match line.index_of_first('=') {
        None => None,
        Some(first) => {
            let rest = line.skip(first + 1);
            match rest.index_of_first('=') {
                None => Some(rest),
                Some(second) => Some(rest.take(second)),
            }
        },
    }
}

/// The folder that a settings line names: its second field, trimmed.
pub open spec fn spec_storage_path(line: Seq<char>) -> Option<Seq<char>> {
    match second_field(line) {
        None => None,
        Some(field) => Some(trimmed(field)),
    }
}

/// The folder that the user's answer stands for: the answer, trimmed, or
/// the default folder where nothing is left of it.
pub open spec fn spec_root_from_input(input: Seq<char>, default_root: Seq<char>) -> Seq<char> {
    if trimmed(input).len() == 0 {
        default_root
    } else {
        trimmed(input)
    }
}

/// White space at the start of a text can be dropped before trimming.
proof fn lemma_trim_start_skips(text: Seq<char>, k: int)
    requires
        0 <= k <= text.len(),
        forall|i: int| 0 <= i < k ==> is_whitespace(#[trigger] text[i]),
    ensures
        trim_start(text) == trim_start(text.skip(k)),
    decreases k,
{
    if k == 0 {
        assert(text.skip(0) =~= text);
    } else {
        lemma_trim_start_skips(text, k - 1);
        let shorter = text.skip(k - 1);
        assert(shorter.drop_first() =~= text.skip(k));
    }
}

/// White space at the end of a text can be dropped before trimming.
proof fn lemma_trim_end_takes(text: Seq<char>, k: int)
    requires
        0 <= k <= text.len(),
        forall|i: int| k <= i < text.len() ==> is_whitespace(#[trigger] text[i]),
    ensures
        trim_end(text) == trim_end(text.take(k)),
    decreases text.len() - k,
{
    if k == text.len() {
        assert(text.take(k) =~= text);
    } else {
        lemma_trim_end_takes(text, k + 1);
        let shorter = text.take(k + 1);
        assert(shorter.drop_last() =~= text.take(k));
    }
}

/// The characters of a text, one by one.
fn chars_of(text: &str) -> (chars: Vec<char>)
    ensures
        chars@ == text@,
{
    broadcast use vstd::string::group_string_axioms;

    let mut chars: Vec<char> = Vec::new();
    for c in walk: text.chars()
        invariant
            walk.seq() == text@,
            chars@ == walk.seq().take(walk.index() as int),
    {
        chars.push(c);
    }
    chars
}

/// Finds where the trimmed form of `text[from..to]` begins and ends.
fn trim_bounds(text: &Vec<char>, from: usize, to: usize) -> (bounds: (usize, usize))
    requires
        from <= to <= text.len(),
    ensures
        from <= bounds.0 <= bounds.1 <= to,
        text@.subrange(bounds.0 as int, bounds.1 as int) == trimmed(
            text@.subrange(from as int, to as int),
        ),
{
    let ghost part = text@.subrange(from as int, to as int);
    let mut start: usize = from;
    while start < to && is_whitespace(text[start])
        invariant
            from <= start <= to <= text.len(),
            part == text@.subrange(from as int, to as int),
            forall|i: int| 0 <= i < start - from ==> is_whitespace(#[trigger] part[i]),
        decreases to - start,
    {
        start = start + 1;
    }
    let ghost tail = part.skip(start - from);
    proof {
        lemma_trim_start_skips(part, start - from);
    }
    let mut end: usize = to;
    while end > start && is_whitespace(text[end - 1])
        invariant
            start <= end <= to <= text.len(),
            from <= start,
            tail == text@.subrange(start as int, to as int),
            forall|i: int| end - start <= i < tail.len() ==> is_whitespace(#[trigger] tail[i]),
        decreases end,
    {
        end = end - 1;
    }
    proof {
        lemma_trim_end_takes(tail, end - start);
    }
    (start, end)
}

/// Finds the first `=` at or after `from`, or the end of the text.
fn find_equals(text: &Vec<char>, from: usize) -> (at: usize)
    requires
        from <= text.len(),
    ensures
        from <= at <= text.len(),
        forall|i: int| from <= i < at ==> text@[i] != '=',
        at < text.len() ==> text@[at as int] == '=',
{
    let mut at: usize = from;
    while at < text.len() && text[at] != '='
        invariant
            from <= at <= text.len(),
            forall|i: int| from <= i < at ==> text@[i] != '=',
        decreases text.len() - at,
    {
        at = at + 1;
    }
    at
}

/// Reads the folder out of the first line of the settings file.
///
/// The line has the form `key = value`. The folder is what stands between
/// the first `=` and the next one (or the end of the line), without the
/// white space around it. A line without `=` names no folder.
pub fn storage_path(line: &str) -> (path: Option<String>)
    ensures
        path is Some <==> line@.contains('='),
        match path {
            Some(p) => spec_storage_path(line@) == Some(p@),
            None => spec_storage_path(line@) is None,
        },
{
    let chars = chars_of(line);
    let len = chars.len();
    let first = find_equals(&chars, 0);
    proof {
        line@.index_of_first_ensures('=');
    }
    if first >= len {
        return None;
    }
    let second = find_equals(&chars, first + 1);
    proof {
        let rest = line@.skip(first + 1);
        rest.index_of_first_ensures('=');
        if second < len {
            assert(rest[second - first - 1] == '=');
        }
        assert(second_field(line@) == Some(line@.subrange(first + 1, second as int)));
    }
    let (start, end) = trim_bounds(&chars, first + 1, second);
    Some(line.substring_char(start, end).to_owned())
}

/// Decides which folder to scan from what the user typed.
///
/// The answer counts without the white space around it, so the line break
/// that ends it is no part of it. An answer of which nothing is left stands
/// for `default_root`.
pub fn root_from_input(input: &str, default_root: String) -> (root: String)
    ensures
        root@ == spec_root_from_input(input@, default_root@),
{
    let chars = chars_of(input);
    let len = chars.len();
    let (start, end) = trim_bounds(&chars, 0, len);
    proof {
        assert(input@.subrange(0, len as int) =~= input@);
    }
    if start == end {
        default_root
    } else {
        input.substring_char(start, end).to_owned()
    }
}

} // verus!
