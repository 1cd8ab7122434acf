//! The file name that a path ends in, and the extension of a file name.
//!
//! Paths are read as text in which `/` separates the components.

use vstd::prelude::*;
use crate::text::{chars_of, string_of};

verus! {

/// The characters of `text` after its last `mark`; all of `text` where it holds no `mark`.
pub open spec fn suffix_after(text: Seq<char>, mark: char) -> Seq<char>
    decreases text.len(),
{
    if text.len() == 0 || text.last() == mark {
        Seq::empty()
    } else {
        suffix_after(text.drop_last(), mark).push(text.last())
    }
}

/// The final component of `path`, if it has one.
///
/// Separators at the end and components that are a single `.` are passed over. There is
/// no final component where nothing is left after that, nor where `..` is found there.
pub open spec fn final_component_of(path: Seq<char>) -> Option<Seq<char>>
    decreases path.len(),
{
    let last = suffix_after(path, '/');
    if path.len() == 0 {
        None
    } else if last.len() == 0 || last == seq!['.'] {
        final_component_of(path.drop_last())
    } else if last == seq!['.', '.'] {
        None
    } else {
        Some(last)
    }
}

/// The extension of a file name: what follows its last `.`, unless it holds none or only
/// begins with one.
pub open spec fn extension_of(name: Seq<char>) -> Option<Seq<char>> {
    let after = suffix_after(name, '.');
    if after.len() + 1 < name.len() {
        Some(after)
    } else {
        None
    }
}

/// The extension of the final component of `path`, if there is one.
pub open spec fn path_extension_of(path: Seq<char>) -> Option<Seq<char>> {
    match final_component_of(path) {
        Some(name) => extension_of(name),
        None => None,
    }
}

/// The suffix after the last `mark` is the end of the text, holds no `mark`, and stands
/// right behind a `mark` unless it is the whole text.
pub proof fn lemma_suffix_after(text: Seq<char>, mark: char)
    ensures
        suffix_after(text, mark).len() <= text.len(),
        suffix_after(text, mark) == text.skip(text.len() - suffix_after(text, mark).len()),
        forall|i: int|
            0 <= i < suffix_after(text, mark).len() ==> #[trigger] suffix_after(text, mark)[i]
                != mark,
        suffix_after(text, mark).len() < text.len() ==> text[text.len() - suffix_after(
            text,
            mark,
        ).len() - 1] == mark,
    decreases text.len(),
{
    if text.len() > 0 && text.last() != mark {
        lemma_suffix_after(text.drop_last(), mark);
    }
}

/// A final component is not empty, holds no separator, and is neither `.` nor `..`.
pub proof fn lemma_final_component(path: Seq<char>)
    ensures
        final_component_of(path) matches Some(name) ==> ({
            &&& name.len() > 0
            &&& forall|i: int| 0 <= i < name.len() ==> #[trigger] name[i] != '/'
            &&& name != seq!['.']
            &&& name != seq!['.', '.']
        }),
    decreases path.len(),
{
    if path.len() > 0 {
        let last = suffix_after(path, '/');
        lemma_suffix_after(path, '/');
        if last.len() == 0 || last == seq!['.'] {
            lemma_final_component(path.drop_last());
        }
    }
}

/// Where the suffix after the last `mark` begins in the first `end` characters of `chars`.
fn suffix_start(chars: &Vec<char>, end: usize, mark: char) -> (start: usize)
    requires
        end <= chars.len(),
    ensures
        start <= end,
        chars@.subrange(start as int, end as int) == suffix_after(chars@.take(end as int), mark),
{
    let mut start: usize = end;
    while start > 0 && chars[start - 1] != mark
        invariant
            start <= end <= chars.len(),
            suffix_after(chars@.take(end as int), mark) == suffix_after(
                chars@.take(start as int),
                mark,
            ) + chars@.subrange(start as int, end as int),
        decreases start,
    {
        proof {
            let head = chars@.take(start as int);
            assert(head.drop_last() == chars@.take(start - 1));
            assert(seq![head.last()] + chars@.subrange(start as int, end as int)
                == chars@.subrange(start - 1, end as int));
        }
        start -= 1;
    }
    start
}

/// The final component of `path`, as [`final_component_of`] defines it.
pub fn final_component(path: &str) -> (name: Option<String>)
    ensures
        name.deep_view() == final_component_of(path@),
{
    let chars = chars_of(path);
    let mut end: usize = chars.len();
    assert(chars@.take(end as int) == chars@);
    while end > 0
        invariant
            end <= chars.len(),
            chars@ == path@,
            final_component_of(path@) == final_component_of(chars@.take(end as int)),
        decreases end,
    {
        let start: usize = suffix_start(&chars, end, '/');
        let len: usize = end - start;
        proof {
            assert(chars@.take(end as int).drop_last() == chars@.take(end - 1));
        }
        if len == 0 || (len == 1 && chars[start] == '.') {
            end -= 1;
        } else if len == 2 && chars[start] == '.' && chars[start + 1] == '.' {
            assert(chars@.subrange(start as int, end as int) == seq!['.', '.']);
            return None;
        } else {
            let name = string_of(&chars, start, end);
            proof {
                // The component is neither `.` nor `..`.
                let last = chars@.subrange(start as int, end as int);
                assert(last == seq!['.'] ==> last[0] == '.');
                assert(last == seq!['.', '.'] ==> last[0] == '.' && last[1] == '.');
            }
            return Some(name);
        }
    }
    None
}

/// The extension of the file name `name`, as [`extension_of`] defines it.
pub fn extension(name: &str) -> (ext: Option<String>)
    ensures
        ext.deep_view() == extension_of(name@),
{
    let chars = chars_of(name);
    let end: usize = chars.len();
    let start: usize = suffix_start(&chars, end, '.');
    assert(chars@.take(end as int) == chars@);
    if start > 1 {
        Some(string_of(&chars, start, end))
    } else {
        None
    }
}

/// The extension of the final component of `path`, as [`path_extension_of`] defines it.
pub fn path_extension(path: &str) -> (ext: Option<String>)
    ensures
        ext.deep_view() == path_extension_of(path@),
{
    match final_component(path) {
        Some(name) => extension(name.as_str()),
        None => None,
    }
}

} // verus!
