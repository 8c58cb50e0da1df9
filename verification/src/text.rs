use vstd::prelude::*;
use vstd::string::StringExecFns;

verus! {

/// Whether two pieces of text are the same.
pub fn str_eq(a: &str, b: &str) -> (same: bool)
    ensures
        same == (a@ == b@),
{
    a.to_owned() == b.to_owned()
}

/// A copy of a piece of text that may be absent.
pub fn clone_text(text: &Option<String>) -> (copy: Option<String>)
    ensures
        copy == *text,
{
    match text {
        Some(text) => Some(text.clone()),
        None => None,
    }
}


/// The lowercase form of a text, as the Unicode character database
/// defines it.
pub uninterp spec fn lowercase(text: Seq<char>) -> Seq<char>;

/// Calls `str::to_lowercase`. Trusted: the call returns the text that
/// `lowercase` names.
#[verifier::external_body]
pub(crate) fn to_lowercase(text: &str) -> (lower: String)
    ensures
        lower@ == lowercase(text@),
{
    text.to_lowercase()
}

/// Whether a text begins with another.
pub open spec fn has_prefix(text: Seq<char>, prefix: Seq<char>) -> bool {
    prefix.len() <= text.len() && text.subrange(0, prefix.len() as int) == prefix
}

/// A text without the copies of a prefix that it begins with, however
/// many there are in a row.
pub open spec fn without_prefixes(text: Seq<char>, prefix: Seq<char>) -> Seq<char>
    decreases text.len(),
{
    if prefix.len() > 0 && has_prefix(text, prefix) {
        without_prefixes(text.skip(prefix.len() as int), prefix)
    } else {
        text
    }
}

/// Removes from the start of a text every copy of a prefix that it begins
/// with.
pub fn trim_start_matches(text: &str, prefix: &str) -> (rest: String)
    ensures
        rest@ == without_prefixes(text@, prefix@),
{
    let len = text.unicode_len();
    let step = prefix.unicode_len();
    if step == 0 {
        return text.to_owned();
    }
    let mut start: usize = 0;
    assert(text@.skip(0) =~= text@);
    loop
        invariant
            0 < step == prefix@.len(),
            len == text@.len(),
            start <= len,
            without_prefixes(text@, prefix@) == without_prefixes(
                text@.skip(start as int),
                prefix@,
            ),
        ensures
            start <= len,
            without_prefixes(text@, prefix@) == text@.skip(start as int),
        decreases len - start,
    {
        if step > len - start {
            break ;
        }
        let head = text.substring_char(start, start + step);
        if !str_eq(head, prefix) {
            assert(text@.skip(start as int).subrange(0, step as int) =~= head@);
            break ;
        }
        proof {
            assert(text@.skip(start as int).subrange(0, step as int) =~= head@);
            assert(text@.skip(start as int).skip(step as int) =~= text@.skip(start + step));
        }
        start += step;
    }
    let rest = text.substring_char(start, len);
    assert(rest@ =~= text@.skip(start as int));
    rest.to_owned()
}

/// Calls `String::push`. Trusted: the character is added at the end and
/// nothing else changes.
#[verifier::external_body]
pub(crate) fn string_push(text: &mut String, c: char)
    ensures
        final(text)@ == old(text)@.push(c),
{
    text.push(c)
}

/// Whether a byte is a visible ASCII character, a space or a tab.
pub open spec fn is_visible(byte: u8) -> bool {
    32 <= byte < 127 || byte == 9
}

/// Whether the value of a header can be read as text: every byte of it is
/// a visible ASCII character, a space or a tab.
pub open spec fn is_header_text(value: Seq<u8>) -> bool {
    forall|i: int| 0 <= i < value.len() ==> is_visible(#[trigger] value[i])
}

/// The characters that the bytes of an ASCII text stand for.
pub open spec fn ascii_chars(value: Seq<u8>) -> Seq<char> {
    Seq::new(value.len(), |i: int| value[i] as char)
}

/// Whether the value of a header can be read as text.
pub fn is_readable(value: &[u8]) -> (readable: bool)
    ensures
        readable == is_header_text(value@),
{
    let mut i: usize = 0;
    while i < value.len()
        invariant
            i <= value@.len(),
            forall|j: int| 0 <= j < i ==> is_visible(#[trigger] value@[j]),
        decreases value@.len() - i,
    {
        let byte = value[i];
        if !(32 <= byte && byte < 127 || byte == 9) {
            assert(!is_visible(value@[i as int]));
            return false;
        }
        i += 1;
    }
    true
}

/// Reads the value of a header as text, where it can be read so.
pub fn header_text(value: &[u8]) -> (text: Option<String>)
    ensures
        match text {
            Some(text) => is_header_text(value@) && text@ == ascii_chars(value@),
            None => !is_header_text(value@),
        },
{
    let mut text = String::new();
    let mut i: usize = 0;
    while i < value.len()
        invariant
            i <= value@.len(),
            forall|j: int| 0 <= j < i ==> is_visible(#[trigger] value@[j]),
            text@ == ascii_chars(value@.subrange(0, i as int)),
        decreases value@.len() - i,
    {
        let byte = value[i];
        if !(32 <= byte && byte < 127 || byte == 9) {
            return None;
        }
        string_push(&mut text, byte as char);
        proof {
            assert(value@.subrange(0, i + 1) =~= value@.subrange(0, i as int).push(byte));
            assert(ascii_chars(value@.subrange(0, i + 1)) =~= ascii_chars(
                value@.subrange(0, i as int),
            ).push(byte as char));
        }
        i += 1;
    }
    assert(value@.subrange(0, i as int) =~= value@);
    Some(text)
}

/// A text without the copies of a pattern in it: the text is read from
/// the left, and wherever a copy of the pattern begins, the copy is left
/// out and reading goes on behind it.
pub open spec fn without_matches(text: Seq<char>, pattern: Seq<char>) -> Seq<char>
    decreases text.len(),
{
    if pattern.len() == 0 || text.len() == 0 {
        text
    } else if has_prefix(text, pattern) {
        without_matches(text.skip(pattern.len() as int), pattern)
    } else {
        seq![text[0]] + without_matches(text.skip(1), pattern)
    }
}

/// Removes every copy of a pattern from a text.
pub fn remove_matches(text: &str, pattern: &str) -> (rest: String)
    ensures
        rest@ == without_matches(text@, pattern@),
{
    let len = text.unicode_len();
    let step = pattern.unicode_len();
    if step == 0 {
        return text.to_owned();
    }
    let mut rest = String::new();
    let mut at: usize = 0;
    assert(text@.skip(0) =~= text@);
    while at < len
        invariant
            0 < step == pattern@.len(),
            len == text@.len(),
            at <= len,
            without_matches(text@, pattern@) == rest@ + without_matches(
                text@.skip(at as int),
                pattern@,
            ),
        decreases len - at,
    {
        let ghost tail = text@.skip(at as int);
        let matched = if step <= len - at {
            let head = text.substring_char(at, at + step);
            assert(tail.subrange(0, step as int) =~= head@);
            str_eq(head, pattern)
        } else {
            false
        };
        if matched {
            assert(tail.skip(step as int) =~= text@.skip(at + step));
            at += step;
        } else {
            let one = text.substring_char(at, at + 1);
            assert(one@ =~= seq![tail[0]]);
            assert(tail.skip(1) =~= text@.skip(at + 1));
            let ghost sofar = rest@;
            rest.append(one);
            assert(rest@ + without_matches(tail.skip(1), pattern@) =~= sofar + (seq![tail[0]]
                + without_matches(tail.skip(1), pattern@)));
            at += 1;
        }
    }
    assert(rest@ + without_matches(text@.skip(at as int), pattern@) =~= rest@);
    rest
}

} // verus!
