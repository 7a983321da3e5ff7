//! Path syntax: the final component of a path, its stem and its extension.
//!
//! A path is a sequence of characters in which `/` separates components.
//! Trailing separators and trailing `.` components carry no name and are
//! skipped when the final component is looked for, so `album/song.mp3/` and
//! `album/song.mp3/.` both end in the component `song.mp3`.

use vstd::prelude::*;

verus! {

/// Whether `c` separates the components of a path.
pub open spec fn is_separator(c: char) -> bool {
    c == '/'
}

/// Whether the last character of `path` belongs to no name: it is a
/// separator, or a `.` that forms a component by itself.
pub open spec fn ends_in_filler(path: Seq<char>) -> bool {
    &&& path.len() > 0
    &&& (is_separator(path.last()) || (path.last() == '.' && (path.len() == 1 || is_separator(
        path[path.len() - 2],
    ))))
}

/// Where the final component of `path` ends: the length of `path` once
/// trailing separators and trailing `.` components are dropped.
pub open spec fn name_end(path: Seq<char>) -> nat
    decreases path.len(),
{
    if ends_in_filler(path) {
        name_end(path.drop_last())
    } else {
        path.len()
    }
}

/// Where the component that ends at `end` starts: just behind the last
/// separator before `end`, or at 0 where there is none.
pub open spec fn name_start(path: Seq<char>, end: nat) -> nat
    recommends
        end <= path.len(),
    decreases end,
{
    if end == 0 || is_separator(path[end - 1]) {
        end
    } else {
        name_start(path, (end - 1) as nat)
    }
}

/// The final component of `path`; empty where the path holds none.
pub open spec fn final_component(path: Seq<char>) -> Seq<char> {
    path.subrange(name_start(path, name_end(path)) as int, name_end(path) as int)
}

/// Whether `path` ends in a file name: it has a final component, and that
/// component is not `..`.
pub open spec fn has_file_name(path: Seq<char>) -> bool {
    let name = final_component(path);
    name.len() > 0 && !(name.len() == 2 && name[0] == '.' && name[1] == '.')
}

/// The index of the last `.` in `name`, or -1 where it holds none.
pub open spec fn last_dot(name: Seq<char>) -> int
    decreases name.len(),
{
    if name.len() == 0 {
        -1
    } else if name.last() == '.' {
        name.len() - 1
    } else {
        last_dot(name.drop_last())
    }
}

/// The length of the stem of `name`: what stands before its last `.`, or
/// all of it where it has no `.` or only a leading one.
pub open spec fn stem_len(name: Seq<char>) -> nat {
    if last_dot(name) >= 1 {
        last_dot(name) as nat
    } else {
        name.len()
    }
}

/// Where the stem of the final component of `path` ends.
pub open spec fn stem_end(path: Seq<char>) -> nat {
    name_start(path, name_end(path)) + stem_len(final_component(path))
}

/// The extension of `path`, without the dot: what follows the last `.` of
/// its file name, unless that `.` is the first character of the name.
pub open spec fn spec_extension(path: Seq<char>) -> Option<Seq<char>> {
    if has_file_name(path) && stem_end(path) < name_end(path) {
        Some(path.subrange((stem_end(path) + 1) as int, name_end(path) as int))
    } else {
        None
    }
}

/// The final component lies within the path and holds no separator; it is
/// empty exactly where nothing is left once the filler is dropped, and it
/// ends in a character that is no filler.
pub proof fn lemma_final_component(path: Seq<char>)
    ensures
        name_start(path, name_end(path)) <= name_end(path) <= path.len(),
        name_end(path) > 0 ==> name_start(path, name_end(path)) < name_end(path),
        name_end(path) > 0 ==> !ends_in_filler(path.take(name_end(path) as int)),
        forall|i: int|
            name_start(path, name_end(path)) <= i < name_end(path) ==> !is_separator(
                #[trigger] path[i],
            ),
        name_start(path, name_end(path)) == 0 || is_separator(
            path[name_start(path, name_end(path)) - 1],
        ),
{
    lemma_name_end(path);
    lemma_name_start(path, name_end(path));
}

/// `name_end` stays within the path and stops at a character that is no filler.
pub proof fn lemma_name_end(path: Seq<char>)
    ensures
        name_end(path) <= path.len(),
        name_end(path) > 0 ==> !ends_in_filler(path.take(name_end(path) as int)),
        name_end(path) > 0 ==> !is_separator(path[name_end(path) - 1]),
    decreases path.len(),
{
    if ends_in_filler(path) {
        lemma_name_end(path.drop_last());
    }
}

/// `name_start` finds the separator-free stretch that ends at `end`.
pub proof fn lemma_name_start(path: Seq<char>, end: nat)
    requires
        end <= path.len(),
    ensures
        name_start(path, end) <= end,
        end > 0 && !is_separator(path[end - 1]) ==> name_start(path, end) < end,
        forall|i: int| name_start(path, end) <= i < end ==> !is_separator(#[trigger] path[i]),
        name_start(path, end) == 0 || is_separator(path[name_start(path, end) - 1]),
    decreases end,
{
    if end == 0 || is_separator(path[end - 1]) {
    } else {
        lemma_name_start(path, (end - 1) as nat);
    }
}

/// `last_dot` is the position of a `.` behind which no other `.` stands.
pub proof fn lemma_last_dot(name: Seq<char>)
    ensures
        -1 <= last_dot(name) < name.len(),
        last_dot(name) >= 0 ==> name[last_dot(name)] == '.',
        forall|i: int| last_dot(name) < i < name.len() ==> #[trigger] name[i] != '.',
    decreases name.len(),
{
    if name.len() > 0 && name.last() != '.' {
        let shorter = name.drop_last();
        lemma_last_dot(shorter);
        assert forall|i: int| last_dot(name) < i < name.len() implies #[trigger] name[i] != '.' by {
            if i < shorter.len() {
                assert(shorter[i] == name[i]);
            }
        }
    }
}

/// A separator-free stretch that starts behind a separator, or at the
/// front of the path, is where `name_start` leads from its end.
pub proof fn lemma_name_start_is(path: Seq<char>, start: nat, end: nat)
    requires
        start <= end <= path.len(),
        start == 0 || is_separator(path[start - 1]),
        forall|i: int| start <= i < end ==> !is_separator(#[trigger] path[i]),
    ensures
        name_start(path, end) == start,
    decreases end,
{
    if end > start {
        lemma_name_start_is(path, start, (end - 1) as nat);
    }
}

/// A `.` behind which no other `.` stands is the one that `last_dot` finds.
pub proof fn lemma_last_dot_is(name: Seq<char>, dot: int)
    requires
        0 <= dot < name.len(),
        name[dot] == '.',
        forall|i: int| dot < i < name.len() ==> #[trigger] name[i] != '.',
    ensures
        last_dot(name) == dot,
    decreases name.len(),
{
    if name.last() != '.' {
        lemma_last_dot_is(name.drop_last(), dot);
    }
}

/// The stem of a file name is not empty and ends within the name.
pub proof fn lemma_stem_end(path: Seq<char>)
    requires
        has_file_name(path),
    ensures
        name_start(path, name_end(path)) < stem_end(path) <= name_end(path) <= path.len(),
        stem_end(path) < name_end(path) ==> path[stem_end(path) as int] == '.',
{
    lemma_final_component(path);
    lemma_last_dot(final_component(path));
}

/// Whether `text` holds neither a `.` nor a separator.
pub open spec fn is_plain(text: Seq<char>) -> bool {
    forall|i: int| 0 <= i < text.len() ==> #[trigger] text[i] != '.' && !is_separator(text[i])
}

/// A path made of a directory part, a stem, a dot and a plain extension
/// ends in the file name that the stem, the dot and the extension form,
/// and has that extension.
pub proof fn lemma_extension_of_parts(dir: Seq<char>, stem: Seq<char>, extension: Seq<char>)
    requires
        dir.len() == 0 || is_separator(dir.last()),
        stem.len() > 0,
        forall|i: int| 0 <= i < stem.len() ==> !is_separator(#[trigger] stem[i]),
        extension.len() > 0,
        is_plain(extension),
    ensures
        ({
            let path = dir + stem + seq!['.'] + extension;
            &&& has_file_name(path)
            &&& name_end(path) == path.len()
            &&& name_start(path, name_end(path)) == dir.len()
            &&& stem_end(path) == dir.len() + stem.len()
            &&& spec_extension(path) == Some(extension)
        }),
{
    let path = dir + stem + seq!['.'] + extension;
    lemma_name_start_is(path, dir.len(), path.len());
    lemma_last_dot_is(final_component(path), stem.len() as int);
}

/// The stem of the file name of `path`, followed by a dot and a plain
/// extension, ends in a file name with the same stem and that extension.
pub proof fn lemma_stem_with_extension(path: Seq<char>, extension: Seq<char>)
    requires
        has_file_name(path),
        extension.len() > 0,
        is_plain(extension),
    ensures
        ({
            let renamed = path.take(stem_end(path) as int) + seq!['.'] + extension;
            &&& has_file_name(renamed)
            &&& name_end(renamed) == renamed.len()
            &&& name_start(renamed, name_end(renamed)) == name_start(path, name_end(path))
            &&& stem_end(renamed) == stem_end(path)
            &&& spec_extension(renamed) == Some(extension)
        }),
{
    lemma_stem_end(path);
    lemma_final_component(path);
    let start = name_start(path, name_end(path)) as int;
    let dir = path.take(start);
    let stem = path.subrange(start, stem_end(path) as int);
    lemma_extension_of_parts(dir, stem, extension);
    assert(dir + stem =~= path.take(stem_end(path) as int));
}

/// The characters of `text`, in order.
pub(crate) fn chars_of(text: &str) -> (chars: Vec<char>)
    ensures
        chars@ == text@,
{
    let mut chars: Vec<char> = Vec::new();
    for c in it: text.chars()
        invariant
            chars@ == it.seq().take(it.index()),
    {
        chars.push(c);
    }
    chars
}

/// Where the file name of a path lies among its characters.
pub(crate) struct NameSpan {
    pub(crate) named: bool,
    pub(crate) start: usize,
    pub(crate) stem_end: usize,
    pub(crate) end: usize,
}

impl NameSpan {
    pub(crate) open spec fn describes(self, path: Seq<char>) -> bool {
        &&& self.named == has_file_name(path)
        &&& self.start == name_start(path, name_end(path))
        &&& self.stem_end == stem_end(path)
        &&& self.end == name_end(path)
        &&& self.start <= self.stem_end <= self.end <= path.len()
    }
}

fn separates(c: char) -> (separator: bool)
    ensures
        separator == is_separator(c),
{
    c == '/'
}

fn find_name_end(chars: &Vec<char>) -> (end: usize)
    ensures
        end == name_end(chars@),
{
    let mut end: usize = chars.len();
    assert(chars@.take(end as int) =~= chars@);
    while end > 0 && (separates(chars[end - 1]) || (chars[end - 1] == '.' && (end == 1
        || separates(chars[end - 2]))))
        invariant
            end <= chars.len(),
            name_end(chars@) == name_end(chars@.take(end as int)),
        decreases end,
    {
        assert(chars@.take(end as int).drop_last() =~= chars@.take(end - 1));
        end -= 1;
    }
    end
}

fn find_name_start(chars: &Vec<char>, end: usize) -> (start: usize)
    requires
        end <= chars.len(),
    ensures
        start == name_start(chars@, end as nat),
{
    let mut start: usize = end;
    while start > 0 && !separates(chars[start - 1])
        invariant
            start <= end <= chars.len(),
            name_start(chars@, end as nat) == name_start(chars@, start as nat),
        decreases start,
    {
        start -= 1;
    }
    start
}

fn find_stem_end(chars: &Vec<char>, start: usize, end: usize) -> (stem_end: usize)
    requires
        start <= end <= chars.len(),
    ensures
        stem_end == start + stem_len(chars@.subrange(start as int, end as int)),
        start <= stem_end <= end,
{
    let ghost name = chars@.subrange(start as int, end as int);
    let mut dot: usize = end;
    assert(name.take(dot - start) =~= name);
    while dot > start && chars[dot - 1] != '.'
        invariant
            start <= dot <= end <= chars.len(),
            name == chars@.subrange(start as int, end as int),
            last_dot(name) == last_dot(name.take(dot - start)),
        decreases dot,
    {
        assert(name.take(dot - start).drop_last() =~= name.take(dot - 1 - start));
        dot -= 1;
    }
    if dot - start > 1 {
        dot - 1
    } else {
        end
    }
}

pub(crate) fn locate(chars: &Vec<char>) -> (span: NameSpan)
    ensures
        span.describes(chars@),
{
    let end = find_name_end(chars);
    proof {
        lemma_final_component(chars@);
    }
    let start = find_name_start(chars, end);
    let stem_end = find_stem_end(chars, start, end);
    let named = end > start && !(end - start == 2 && chars[start] == '.' && chars[start + 1]
        == '.');
    NameSpan { named, start, stem_end, end }
}

/// Whether the characters of `chars` from `from` up to `to` spell `word`.
pub(crate) fn spells(chars: &Vec<char>, from: usize, to: usize, word: &Vec<char>) -> (same: bool)
    requires
        from <= to <= chars.len(),
    ensures
        same == (chars@.subrange(from as int, to as int) == word@),
{
    if to - from != word.len() {
        return false;
    }
    let mut i: usize = 0;
    while i < word.len()
        invariant
            from <= to <= chars.len(),
            to - from == word.len(),
            i <= word.len(),
            forall|j: int| 0 <= j < i ==> chars@[from + j] == word@[j],
        decreases word.len() - i,
    {
        if chars[from + i] != word[i] {
            return false;
        }
        i += 1;
    }
    assert(chars@.subrange(from as int, to as int) =~= word@);
    true
}

/// The extension of `path`, without the dot, where its file name has one.
pub fn extension(path: &str) -> (ext: Option<String>)
    ensures
        ext.deep_view() == spec_extension(path@),
{
    let chars = chars_of(path);
    let span = locate(&chars);
    if span.named && span.stem_end < span.end {
        Some(String::from_str(path.substring_char(span.stem_end + 1, span.end)))
    } else {
        None
    }
}

/// Whether the file name of `path` has the extension `wanted`.
pub fn has_extension(path: &str, wanted: &str) -> (has: bool)
    ensures
        has == (spec_extension(path@) == Some(wanted@)),
{
    let chars = chars_of(path);
    let word = chars_of(wanted);
    let span = locate(&chars);
    span.named && span.stem_end < span.end && spells(&chars, span.stem_end + 1, span.end, &word)
}

} // verus!
