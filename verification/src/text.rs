//! Character classes, trimming, comparison and joining of text.

use vstd::prelude::*;
use vstd::string::{StrSliceExecFns, StringExecFns};
use vstd::utf8::is_ascii_chars;

verus! {

/// Whether a character has the Unicode property `White_Space`.
pub open spec fn is_white_space(c: char) -> bool {
    ||| '\u{9}' <= c <= '\u{d}'
    ||| c == '\u{20}'
    ||| c == '\u{85}'
    ||| c == '\u{a0}'
    ||| c == '\u{1680}'
    ||| '\u{2000}' <= c <= '\u{200a}'
    ||| c == '\u{2028}'
    ||| c == '\u{2029}'
    ||| c == '\u{202f}'
    ||| c == '\u{205f}'
    ||| c == '\u{3000}'
}

/// Whether a character is a control code, of the Unicode category `Cc`.
pub open spec fn is_control(c: char) -> bool {
    c <= '\u{1f}' || '\u{7f}' <= c <= '\u{9f}'
}

/// The text without its leading and trailing white space.
pub open spec fn trimmed(text: Seq<char>) -> Seq<char>
    decreases text.len(),
{
    if text.len() == 0 {
        text
    } else if is_white_space(text.first()) {
        trimmed(text.drop_first())
    } else if is_white_space(text.last()) {
        trimmed(text.drop_last())
    } else {
        text
    }
}

/// Whether a text holds nothing but white space.
pub open spec fn is_blank(text: Seq<char>) -> bool {
    forall|i: int| 0 <= i < text.len() ==> is_white_space(#[trigger] text[i])
}

/// What is left of a trimmed text neither begins nor ends with white space, and is a part of
/// the text.
pub proof fn trimmed_is_tight(text: Seq<char>)
    ensures
        trimmed(text).len() > 0 ==> !is_white_space(trimmed(text).first()) && !is_white_space(
            trimmed(text).last(),
        ),
        forall|i: int|
            0 <= i < trimmed(text).len() ==> text.contains(#[trigger] trimmed(text)[i]),
    decreases text.len(),
{
    if text.len() == 0 {
    } else if is_white_space(text.first()) {
        trimmed_is_tight(text.drop_first());
        assert forall|i: int| 0 <= i < trimmed(text).len() implies text.contains(
            #[trigger] trimmed(text)[i],
        ) by {
            let k = choose|k: int|
                0 <= k < text.drop_first().len() && text.drop_first()[k] == trimmed(text)[i];
            assert(text[k + 1] == trimmed(text)[i]);
        }
    } else if is_white_space(text.last()) {
        trimmed_is_tight(text.drop_last());
        assert forall|i: int| 0 <= i < trimmed(text).len() implies text.contains(
            #[trigger] trimmed(text)[i],
        ) by {
            let k = choose|k: int|
                0 <= k < text.drop_last().len() && text.drop_last()[k] == trimmed(text)[i];
            assert(text[k] == trimmed(text)[i]);
        }
    }
}

/// Trimming a trimmed text changes nothing.
pub proof fn trimmed_idempotent(text: Seq<char>)
    ensures
        trimmed(trimmed(text)) == trimmed(text),
{
    trimmed_is_tight(text);
}

/// Trimming leaves nothing exactly of a text of white space.
pub proof fn trimmed_empty_iff_blank(text: Seq<char>)
    ensures
        trimmed(text).len() == 0 <==> is_blank(text),
    decreases text.len(),
{
    if text.len() == 0 {
    } else if is_white_space(text.first()) {
        let rest = text.drop_first();
        trimmed_empty_iff_blank(rest);
        if is_blank(rest) {
            assert forall|i: int| 0 <= i < text.len() implies is_white_space(#[trigger] text[i]) by {
                if i > 0 {
                    assert(text[i] == rest[i - 1]);
                }
            }
        }
        if is_blank(text) {
            assert forall|i: int| 0 <= i < rest.len() implies is_white_space(#[trigger] rest[i]) by {
                assert(rest[i] == text[i + 1]);
            }
        }
    } else {
        assert(!is_white_space(text[0]));
        trimmed_keeps_first(text);
    }
}

/// Trimming takes away white space only, and only from the two ends: what is left is one piece of
/// the text, with nothing but white space before and after it.
pub proof fn trimmed_drops_only_white_space(text: Seq<char>)
    ensures
        exists|head: Seq<char>, tail: Seq<char>|
            {
                &&& text == #[trigger] (head + trimmed(text) + tail)
                &&& forall|i: int| 0 <= i < head.len() ==> is_white_space(#[trigger] head[i])
                &&& forall|i: int| 0 <= i < tail.len() ==> is_white_space(#[trigger] tail[i])
            },
    decreases text.len(),
{
    if text.len() > 0 && (is_white_space(text.first()) || is_white_space(text.last())) {
        let at_front = is_white_space(text.first());
        let rest = if at_front {
            text.drop_first()
        } else {
            text.drop_last()
        };
        trimmed_drops_only_white_space(rest);
        let (head, tail) = choose|head: Seq<char>, tail: Seq<char>|
            {
                &&& rest == #[trigger] (head + trimmed(rest) + tail)
                &&& forall|i: int| 0 <= i < head.len() ==> is_white_space(#[trigger] head[i])
                &&& forall|i: int| 0 <= i < tail.len() ==> is_white_space(#[trigger] tail[i])
            };
        if at_front {
            let longer = seq![text.first()] + head;
            assert(trimmed(text) == trimmed(rest));
            assert(text =~= seq![text.first()] + rest);
            assert(longer + trimmed(text) + tail =~= seq![text.first()] + (head + trimmed(rest)
                + tail));
        } else {
            let longer = tail.push(text.last());
            assert(trimmed(text) == trimmed(rest));
            assert(text =~= rest.push(text.last()));
            assert(head + trimmed(text) + longer =~= (head + trimmed(rest) + tail).push(
                text.last(),
            ));
        }
    } else {
        let none = Seq::<char>::empty();
        assert(text =~= none + trimmed(text) + none);
    }
}

/// Trimming gives back a text that white space was put around, if that text neither begins nor
/// ends with white space.
pub proof fn trimmed_of_surrounded(head: Seq<char>, text: Seq<char>, tail: Seq<char>)
    requires
        forall|i: int| 0 <= i < head.len() ==> is_white_space(#[trigger] head[i]),
        forall|i: int| 0 <= i < tail.len() ==> is_white_space(#[trigger] tail[i]),
        text.len() > 0,
        !is_white_space(text.first()),
        !is_white_space(text.last()),
    ensures
        trimmed(head + text + tail) == text,
    decreases head.len() + tail.len(),
{
    let whole = head + text + tail;
    if head.len() > 0 {
        assert(whole.first() == head[0]);
        let shorter = head.drop_first();
        assert forall|i: int| 0 <= i < shorter.len() implies is_white_space(
            #[trigger] shorter[i],
        ) by {
            assert(shorter[i] == head[i + 1]);
        }
        trimmed_of_surrounded(shorter, text, tail);
        assert(whole.drop_first() =~= shorter + text + tail);
    } else if tail.len() > 0 {
        assert(whole.first() == text.first());
        assert(whole.last() == tail.last());
        assert(is_white_space(tail[tail.len() - 1]));
        let shorter = tail.drop_last();
        assert forall|i: int| 0 <= i < shorter.len() implies is_white_space(
            #[trigger] shorter[i],
        ) by {
            assert(shorter[i] == tail[i]);
        }
        trimmed_of_surrounded(head, text, shorter);
        assert(whole.drop_last() =~= head + text + shorter);
    } else {
        assert(whole =~= text);
    }
}

proof fn trimmed_keeps_first(text: Seq<char>)
    requires
        text.len() > 0,
        !is_white_space(text.first()),
    ensures
        trimmed(text).len() > 0,
    decreases text.len(),
{
    if is_white_space(text.last()) {
        assert(text.len() > 1);
        assert(text.drop_last().first() == text.first());
        trimmed_keeps_first(text.drop_last());
    }
}

/// The contents of a list of strings.
pub open spec fn texts(list: Seq<String>) -> Seq<Seq<char>> {
    Seq::new(list.len(), |i: int| list[i]@)
}

/// The contents of a string, where there is one.
pub open spec fn optional_text(value: Option<String>) -> Option<Seq<char>> {
    match value {
        Some(text) => Some(text@),
        None => None,
    }
}

/// The contents of a list of strings are those of each string, in order, with none left out.
pub proof fn texts_keep_every_text(list: Seq<String>)
    ensures
        texts(list).len() == list.len(),
        forall|i: int| 0 <= i < list.len() ==> #[trigger] texts(list)[i] == list[i]@,
{
}

/// An optional string has contents exactly if there is one, and then its own.
pub proof fn optional_text_is_the_text(value: Option<String>)
    ensures
        value matches Some(text) ==> optional_text(value) == Some(text@),
        value is None ==> optional_text(value) is None,
{
}

/// The characters of a text.
pub(crate) fn characters(text: &str) -> (res: Vec<char>)
    ensures
        res@ == text@,
{
    let mut res: Vec<char> = Vec::new();
    for c in it: text.chars()
        invariant
            it.seq() == text@,
            res@ == text@.take(it.index()),
    {
        res.push(c);
        assert(res@ =~= text@.take(it.index() + 1));
    }
    assert(res@ =~= text@);
    res
}

/// Whether a character has the Unicode property `White_Space`.
pub(crate) fn white_space(c: char) -> (res: bool)
    ensures
        res == is_white_space(c),
{
    ('\u{9}' <= c && c <= '\u{d}') || c == '\u{20}' || c == '\u{85}' || c == '\u{a0}' || c
        == '\u{1680}' || ('\u{2000}' <= c && c <= '\u{200a}') || c == '\u{2028}' || c == '\u{2029}'
        || c == '\u{202f}' || c == '\u{205f}' || c == '\u{3000}'
}

/// Whether a character is a control code.
pub(crate) fn control(c: char) -> (res: bool)
    ensures
        res == is_control(c),
{
    c <= '\u{1f}' || ('\u{7f}' <= c && c <= '\u{9f}')
}

/// The text without its leading and trailing white space.
pub(crate) fn trim(text: &str) -> (res: &str)
    ensures
        res@ == trimmed(text@),
{
    let chars = characters(text);
    let mut start: usize = 0;
    assert(text@.subrange(0, text@.len() as int) =~= text@);
    while start < chars.len() && white_space(chars[start])
        invariant
            chars@ == text@,
            start <= chars.len(),
            trimmed(text@) == trimmed(text@.subrange(start as int, text@.len() as int)),
        decreases chars.len() - start,
    {
        let ghost rest = text@.subrange(start as int, text@.len() as int);
        assert(rest.drop_first() =~= text@.subrange(start + 1, text@.len() as int));
        start = start + 1;
    }
    let mut end: usize = chars.len();
    while start < end && white_space(chars[end - 1])
        invariant
            chars@ == text@,
            start <= end <= chars.len(),
            start < chars.len() ==> !is_white_space(text@[start as int]),
            trimmed(text@) == trimmed(text@.subrange(start as int, end as int)),
        decreases end - start,
    {
        let ghost rest = text@.subrange(start as int, end as int);
        assert(rest.drop_last() =~= text@.subrange(start as int, end - 1));
        assert(rest.first() == text@[start as int]);
        end = end - 1;
    }
    let ghost rest = text@.subrange(start as int, end as int);
    assert(rest.len() > 0 ==> rest.first() == text@[start as int] && rest.last() == text@[end - 1]);
    text.substring_char(start, end)
}

/// The lower-case form of an ASCII letter; any other character stays as it is.
pub open spec fn ascii_lower(c: char) -> char {
    if 'A' <= c <= 'Z' {
        (c as int - 'A' as int + 'a' as int) as char
    } else {
        c
    }
}

/// The text with its ASCII letters in lower case.
pub open spec fn ascii_lower_text(text: Seq<char>) -> Seq<char> {
    Seq::new(text.len(), |i: int| ascii_lower(text[i]))
}

/// Lower-casing keeps the length of a text and every character but the letters `A` to `Z`, and puts
/// in place of each of these the letter that stands as far from `a` as it stood from `A`.
pub proof fn ascii_lower_text_changes_only_capitals(text: Seq<char>)
    ensures
        ascii_lower_text(text).len() == text.len(),
        forall|i: int|
            0 <= i < text.len() ==> if 'A' <= #[trigger] text[i] <= 'Z' {
                ascii_lower_text(text)[i] as int - 'a' as int == text[i] as int - 'A' as int
            } else {
                ascii_lower_text(text)[i] == text[i]
            },
{
}

/// Lower-casing a lower-cased text changes nothing.
pub proof fn ascii_lower_text_idempotent(text: Seq<char>)
    ensures
        ascii_lower_text(ascii_lower_text(text)) == ascii_lower_text(text),
{
    assert(ascii_lower_text(ascii_lower_text(text)) =~= ascii_lower_text(text));
}

/// The lower-case equivalent of a text by the rules of Unicode, as `str::to_lowercase` gives it.
pub uninterp spec fn lower_text(text: Seq<char>) -> Seq<char>;

/// Whether a text is the lower-case form of another. No letter of `A` to `Z` is left in it, and of
/// an ASCII text nothing changes but these letters.
pub open spec fn is_lower_form(lower: Seq<char>, text: Seq<char>) -> bool {
    &&& lower == lower_text(text)
    &&& is_ascii_chars(text) ==> lower == ascii_lower_text(text)
    &&& forall|i: int| 0 <= i < lower.len() ==> !('A' <= #[trigger] lower[i] <= 'Z')
}

/// `str::to_lowercase`: the lower-case equivalent of the text by the rules of Unicode. Each letter
/// of `A` to `Z` becomes its counterpart of `a` to `z`, other ASCII characters are kept, and no
/// character becomes one of `A` to `Z`. What becomes of other characters is not spelled out.
pub assume_specification[ str::to_lowercase ](text: &str) -> (res: String)
    ensures
        res@ == lower_text(text@),
        is_ascii_chars(text@) ==> res@ == ascii_lower_text(text@),
        forall|i: int| 0 <= i < res@.len() ==> !('A' <= #[trigger] res@[i] <= 'Z'),
;

/// The first text followed by the second.
pub(crate) fn joined(first: &str, second: &str) -> (res: String)
    ensures
        res@ == first@ + second@,
{
    let mut res = first.to_owned();
    res.append(second);
    res
}

/// The parts of a text before and after the first occurrence of a character, if it occurs.
pub open spec fn split_at_first(text: Seq<char>, separator: char) -> Option<(Seq<char>, Seq<char>)> {
    match text.index_of_first(separator) {
        Some(i) => Some((text.take(i), text.skip(i + 1))),
        None => None,
    }
}

/// A text that is made of a head without the character, the character and a tail splits into
/// this head and tail.
pub proof fn split_at_first_of_joined(head: Seq<char>, separator: char, tail: Seq<char>)
    requires
        !head.contains(separator),
    ensures
        split_at_first(head + seq![separator] + tail, separator) == Some((head, tail)),
{
    let text = head + seq![separator] + tail;
    text.index_of_first_ensures(separator);
    assert(text[head.len() as int] == separator);
    assert(text.contains(separator));
    let i = text.index_of_first(separator)->0;
    if i < head.len() {
        assert(head[i] == separator);
    }
    assert(i == head.len());
    assert(text.take(i) =~= head);
    assert(text.skip(i + 1) =~= tail);
}

/// Joining the two parts of a split text with the character gives the text again.
pub proof fn split_at_first_rejoins(text: Seq<char>, separator: char)
    ensures
        split_at_first(text, separator) matches Some((head, tail)) ==> {
            &&& text == head + seq![separator] + tail
            &&& !head.contains(separator)
        },
{
    text.index_of_first_ensures(separator);
    if let Some((head, tail)) = split_at_first(text, separator) {
        assert(text =~= head + seq![separator] + tail);
    }
}

/// Splits a text at the first occurrence of a character.
pub(crate) fn split_text(text: &str, separator: char) -> (res: Option<(&str, &str)>)
    ensures
        match res {
            Some((head, tail)) => split_at_first(text@, separator) == Some((head@, tail@)),
            None => split_at_first(text@, separator) is None,
        },
{
    let chars = characters(text);
    let mut i: usize = 0;
    while i < chars.len()
        invariant
            chars@ == text@,
            i <= chars.len(),
            forall|k: int| 0 <= k < i ==> #[trigger] text@[k] != separator,
        decreases chars.len() - i,
    {
        if chars[i] == separator {
            let head = text.substring_char(0, i);
            let tail = text.substring_char(i + 1, chars.len());
            proof {
                assert(text@.take(i as int) =~= head@);
                assert(text@ =~= head@ + seq![separator] + tail@);
                assert forall|k: int| 0 <= k < head@.len() implies head@[k] != separator by {
                    assert(head@[k] == text@[k]);
                }
                split_at_first_of_joined(head@, separator, tail@);
            }
            return Some((head, tail));
        }
        i = i + 1;
    }
    proof {
        text@.index_of_first_ensures(separator);
    }
    None
}

} // verus!
