use vstd::prelude::*;
use vstd::string::StringExecFns;

verus! {

/// Whether a character is white space: one of the characters that have the
/// Unicode property White_Space.
pub open spec fn is_white_space(c: char) -> bool {
    let code = c as u32;
    ||| 0x09 <= code <= 0x0D
    ||| code == 0x20
    ||| code == 0x85
    ||| code == 0xA0
    ||| code == 0x1680
    ||| 0x2000 <= code <= 0x200A
    ||| code == 0x2028
    ||| code == 0x2029
    ||| code == 0x202F
    ||| code == 0x205F
    ||| code == 0x3000
}

/// A text without the white space at its start.
pub open spec fn trimmed_start(text: Seq<char>) -> Seq<char>
    decreases text.len(),
{
    if text.len() > 0 && is_white_space(text[0]) {
        trimmed_start(text.skip(1))
    } else {
        text
    }
}

/// A text without the white space at its end.
pub open spec fn trimmed_end(text: Seq<char>) -> Seq<char>
    decreases text.len(),
{
    if text.len() > 0 && is_white_space(text.last()) {
        trimmed_end(text.drop_last())
    } else {
        text
    }
}

/// A text without the white space at its two ends.
pub open spec fn trimmed(text: Seq<char>) -> Seq<char> {
    trimmed_end(trimmed_start(text))
}

/// What `str::to_lowercase` makes of a text.
pub uninterp spec fn lowercase(text: Seq<char>) -> Seq<char>;

/// `text` with every occurrence of `from` replaced by `to`, the occurrences
/// taken from the left and never overlapping.
pub open spec fn replaced(text: Seq<char>, from: Seq<char>, to: Seq<char>) -> Seq<char>
    decreases text.len(),
{
    if from.len() == 0 || text.len() < from.len() {
        text
    } else if text.subrange(0, from.len() as int) == from {
        to + replaced(text.skip(from.len() as int), from, to)
    } else {
        seq![text[0]] + replaced(text.skip(1), from, to)
    }
}

/// The pieces into which the separator cuts a text, as `str::split` gives
/// them: a text without the separator is one piece, and a separator at
/// either end leaves an empty piece there.
pub open spec fn pieces(text: Seq<char>, separator: char) -> Seq<Seq<char>>
    decreases text.len(),
{
    if text.len() == 0 {
        seq![Seq::empty()]
    } else {
        let before = pieces(text.drop_last(), separator);
        if text.last() == separator {
            before.push(Seq::empty())
        } else {
            before.drop_last().push(before.last().push(text.last()))
        }
    }
}

/// The content of a text that is not blank: `None` for a text of white space
/// only, else the text without the white space at its two ends.
pub open spec fn non_blank(text: Seq<char>) -> Option<Seq<char>> {
    if trimmed(text).len() == 0 {
        None
    } else {
        Some(trimmed(text))
    }
}

/// The texts that a list of strings holds.
pub open spec fn texts(list: Seq<String>) -> Seq<Seq<char>> {
    list.map_values(|s: String| s@)
}

/// The texts of a list in their order, with `separator` between each two.
pub open spec fn joined(list: Seq<Seq<char>>, separator: Seq<char>) -> Seq<char>
    decreases list.len(),
{
    if list.len() == 0 {
        Seq::empty()
    } else if list.len() == 1 {
        list[0]
    } else {
        joined(list.drop_last(), separator) + separator + list.last()
    }
}

/// Whether `text` ends with `suffix`.
pub open spec fn has_suffix(text: Seq<char>, suffix: Seq<char>) -> bool {
    suffix.len() <= text.len() && text.subrange(text.len() - suffix.len(), text.len() as int)
        == suffix
}

/// `str::trim` returns the slice that is left when leading and trailing
/// white space is removed, white space being the characters with the Unicode
/// property White_Space.
pub assume_specification[ str::trim ](text: &str) -> (r: &str)
    ensures
        r@ == trimmed(text@),
;

/// `str::to_lowercase` returns the lower-case form of the text as a new
/// `String`; the result is named `lowercase`.
pub assume_specification[ str::to_lowercase ](text: &str) -> (r: String)
    ensures
        r@ == lowercase(text@),
;

/// `str::ends_with`, for a suffix that is a text.
#[verifier::external_body]
pub(crate) fn ends_with(text: &str, suffix: &str) -> (b: bool)
    ensures
        b == has_suffix(text@, suffix@),
{
    text.ends_with(suffix)
}

/// `str::replace`, for a pattern that is a text of at least one character:
/// every match, found from the left and not overlapping an earlier one, gives
/// way to `to`.
#[verifier::external_body]
pub(crate) fn replace(text: &str, from: &str, to: &str) -> (r: String)
    requires
        from@.len() > 0,
    ensures
        r@ == replaced(text@, from@, to@),
{
    text.replace(from, to)
}

/// `String::push` appends one character.
#[verifier::external_body]
pub(crate) fn push_char(text: &mut String, c: char)
    ensures
        final(text)@ == old(text)@.push(c),
{
    text.push(c)
}

/// The text that an optional `String` holds, if any.
pub open spec fn opt_text(text: Option<String>) -> Option<Seq<char>> {
    match text {
        Some(t) => Some(t@),
        None => None,
    }
}

/// A copy of `text` as an owned `String`.
pub fn owned(text: &str) -> (r: String)
    ensures
        r@ == text@,
{
    String::from_str(text)
}

/// The non-blank content of a text: `None` when nothing but white space is
/// in it, else the text without the white space at its two ends.
pub fn some_string(to_string: String) -> (r: Option<String>)
    ensures
        opt_text(r) == non_blank(to_string@),
{
    let t = to_string.as_str().trim();
    if t.is_empty() {
        None
    } else {
        Some(owned(t))
    }
}

/// The pieces into which `separator` cuts `text`.
pub fn split_on(text: &str, separator: char) -> (list: Vec<String>)
    ensures
        texts(list@) == pieces(text@, separator),
{
    let mut list: Vec<String> = Vec::new();
    let mut piece = String::new();
    for c in iter: text.chars()
        invariant
            iter.seq() == text@,
            texts(list@).push(piece@) == pieces(text@.take(iter.index()), separator),
    {
        let ghost seen = text@.take(iter.index());
        let ghost next = text@.take(iter.index() + 1);
        assert(next.drop_last() =~= seen);
        if c == separator {
            list.push(piece);
            piece = String::new();
        } else {
            push_char(&mut piece, c);
            assert(texts(list@).push(piece@) =~= pieces(seen, separator).drop_last().push(
                pieces(seen, separator).last().push(c),
            ));
        }
    }
    assert(text@.take(text@.len() as int) =~= text@);
    list.push(piece);
    list
}

/// The texts of `list` in their order, with `separator` between each two.
pub fn join(list: &Vec<String>, separator: &str) -> (r: String)
    ensures
        r@ == joined(texts(list@), separator@),
{
    let mut r = String::new();
    let mut i: usize = 0;
    while i < list.len()
        invariant
            i <= list.len(),
            r@ == joined(texts(list@).take(i as int), separator@),
        decreases list.len() - i,
    {
        let ghost before = texts(list@).take(i as int);
        let ghost after = texts(list@).take(i + 1);
        assert(after.drop_last() =~= before);
        if i > 0 {
            r.append(separator);
        }
        r.append(list[i].as_str());
        i += 1;
    }
    assert(texts(list@).take(list.len() as int) =~= texts(list@));
    r
}

} // verus!
