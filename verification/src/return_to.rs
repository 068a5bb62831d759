//! Where to send the browser after a login.

use crate::text::{
    characters, control, is_control, is_white_space, trim, trimmed, trimmed_drops_only_white_space,
    trimmed_idempotent, trimmed_is_tight, trimmed_of_surrounded,
};
use vstd::prelude::*;

verus! {

/// Whether a text is an absolute path of the same origin: it begins with exactly one slash and
/// holds neither a backslash nor a control code.
pub open spec fn is_same_origin_path(text: Seq<char>) -> bool {
    &&& text.len() > 0 && text[0] == '/'
    &&& !(text.len() > 1 && text[1] == '/')
    &&& !text.contains('\\')
    &&& forall|i: int| 0 <= i < text.len() ==> !is_control(#[trigger] text[i])
}

/// The return path that is kept of a requested one.
pub open spec fn sanitized(value: Option<Seq<char>>) -> Option<Seq<char>> {
    match value {
        Some(text) => if is_same_origin_path(trimmed(text)) {
            Some(trimmed(text))
        } else {
            None
        },
        None => None,
    }
}

/// Whether a text is an absolute path of the same origin.
fn same_origin_path(text: &str) -> (res: bool)
    ensures
        res == is_same_origin_path(text@),
{
    let chars = characters(text);
    if chars.len() == 0 || chars[0] != '/' {
        return false;
    }
    if chars.len() > 1 && chars[1] == '/' {
        return false;
    }
    let mut i: usize = 0;
    while i < chars.len()
        invariant
            chars@ == text@,
            i <= chars.len(),
            forall|k: int| 0 <= k < i ==> #[trigger] text@[k] != '\\' && !is_control(text@[k]),
        decreases chars.len() - i,
    {
        if chars[i] == '\\' || control(chars[i]) {
            assert(text@[i as int] == chars@[i as int]);
            return false;
        }
        i = i + 1;
    }
    true
}

/// Keep only same-origin absolute paths for post-login redirects.
pub fn sanitize_return_to(value: Option<&str>) -> (res: Option<String>)
    ensures
        match value {
            Some(text) => match res {
                Some(path) => sanitized(Some(text@)) == Some(path@),
                None => sanitized(Some(text@)) is None,
            },
            None => res is None,
        },
        value matches Some(text) ==> {
            let path = trimmed(text@);
            if path.len() > 0 && path[0] == '/' && (path.len() > 1 ==> path[1] != '/') && (forall|
                i: int,
            |
                0 <= i < path.len() ==> #[trigger] path[i] != '\\' && !(path[i] <= '\u{1f}')
                    && !('\u{7f}' <= path[i] <= '\u{9f}')) {
                res matches Some(kept) && kept@ == path
            } else {
                res is None
            }
        },
{
    match value {
        Some(text) => {
            let path = trim(text);
            if same_origin_path(path) {
                Some(path.to_owned())
            } else {
                None
            }
        },
        None => None,
    }
}

/// Whatever is kept is a same-origin path without white space around it, and sanitizing it once
/// more keeps it unchanged.
pub proof fn sanitized_is_stable(value: Option<Seq<char>>)
    ensures
        sanitized(value) matches Some(path) ==> {
            &&& is_same_origin_path(path)
            &&& sanitized(Some(path)) == Some(path)
        },
{
    if let Some(text) = value {
        trimmed_idempotent(text);
    }
}

/// Every same-origin path is kept, whatever its length, and exactly as it is but for the white
/// space around it: any text that begins with a slash, has no second slash behind it, ends with
/// no white space and holds neither a backslash nor a control code.
pub proof fn every_same_origin_path_is_kept(head: Seq<char>, path: Seq<char>, tail: Seq<char>)
    requires
        forall|i: int| 0 <= i < head.len() ==> is_white_space(#[trigger] head[i]),
        forall|i: int| 0 <= i < tail.len() ==> is_white_space(#[trigger] tail[i]),
        path.len() > 0,
        path[0] == '/',
        path.len() > 1 ==> path[1] != '/',
        !is_white_space(path.last()),
        forall|i: int|
            0 <= i < path.len() ==> #[trigger] path[i] != '\\' && !(path[i] <= '\u{1f}') && !(
            '\u{7f}' <= path[i] <= '\u{9f}'),
    ensures
        sanitized(Some(head + path + tail)) == Some(path),
{
    trimmed_of_surrounded(head, path, tail);
}

/// Nothing but a same-origin path is ever kept: what is kept is a piece of the requested text
/// with only white space around it, begins with a slash that no second one follows, and holds
/// neither a backslash nor a control code. Nothing is kept of nothing.
pub proof fn only_same_origin_paths_are_kept(text: Seq<char>)
    ensures
        sanitized(None) is None,
        sanitized(Some(text)) matches Some(path) ==> {
            &&& exists|head: Seq<char>, tail: Seq<char>|
                {
                    &&& text == #[trigger] (head + path + tail)
                    &&& forall|i: int| 0 <= i < head.len() ==> is_white_space(#[trigger] head[i])
                    &&& forall|i: int| 0 <= i < tail.len() ==> is_white_space(#[trigger] tail[i])
                }
            &&& path.len() > 0
            &&& path[0] == '/'
            &&& path.len() > 1 ==> path[1] != '/'
            &&& !is_white_space(path.last())
            &&& forall|i: int|
                0 <= i < path.len() ==> #[trigger] path[i] != '\\' && !(path[i] <= '\u{1f}') && !(
                '\u{7f}' <= path[i] <= '\u{9f}')
        },
{
    trimmed_drops_only_white_space(text);
    trimmed_is_tight(text);
    if let Some(path) = sanitized(Some(text)) {
        assert forall|i: int| 0 <= i < path.len() implies #[trigger] path[i] != '\\' && !(path[i]
            <= '\u{1f}') && !('\u{7f}' <= path[i] <= '\u{9f}') by {
            assert(!is_control(path[i]));
            assert(path.contains(path[i]));
        }
    }
}

} // verus!
