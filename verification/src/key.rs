//! Keys of catalog rows: names joined by dots.
//!
//! A catalog row is keyed by `catalog`, a schema row by `catalog.schema`,
//! a table row by `catalog.schema.table`.

use vstd::prelude::*;
use vstd::string::StrSliceExecFns;

verus! {

/// The character that separates the names in a key.
pub open spec fn separator() -> char {
    '.'
}

/// The parts into which the dots cut a text, from left to right.
///
/// A text without a dot is one part, the empty text included; each dot
/// closes a part and opens the next, so two dots in a row, or a dot at
/// either end, give an empty part.
pub open spec fn dot_parts(text: Seq<char>) -> Seq<Seq<char>>
    decreases text.len(),
{
    if text.len() == 0 {
        seq![Seq::<char>::empty()]
    } else {
        let before = dot_parts(text.drop_last());
        if text.last() == separator() {
            before.push(Seq::<char>::empty())
        } else {
            before.drop_last().push(before.last().push(text.last()))
        }
    }
}

/// The parts written one after the other with a dot between neighbours.
pub open spec fn join_dotted(parts: Seq<Seq<char>>) -> Seq<char>
    decreases parts.len(),
{
    if parts.len() == 0 {
        Seq::<char>::empty()
    } else if parts.len() == 1 {
        parts[0]
    } else {
        join_dotted(parts.drop_last()) + seq![separator()] + parts.last()
    }
}

/// No character of the text is a dot.
pub open spec fn dot_free(text: Seq<char>) -> bool {
    forall|i: int| 0 <= i < text.len() ==> text[i] != separator()
}

/// The texts that a sequence of strings holds.
pub open spec fn texts(parts: Seq<String>) -> Seq<Seq<char>> {
    parts.map_values(|part: String| part@)
}

/// A text has at least one part.
pub proof fn lemma_dot_parts_nonempty(text: Seq<char>)
    ensures
        dot_parts(text).len() >= 1,
    decreases text.len(),
{
    if text.len() > 0 {
        lemma_dot_parts_nonempty(text.drop_last());
    }
}

/// Appending a text without dots lengthens the last part and leaves the
/// others alone.
pub proof fn lemma_dot_parts_append(text: Seq<char>, tail: Seq<char>)
    requires
        dot_free(tail),
    ensures
        dot_parts(text + tail) == dot_parts(text).drop_last().push(dot_parts(text).last() + tail),
    decreases tail.len(),
{
    lemma_dot_parts_nonempty(text);
    let parts = dot_parts(text);
    if tail.len() == 0 {
        assert(text + tail =~= text);
        assert(parts.drop_last().push(parts.last() + tail) =~= parts);
    } else {
        let shorter = tail.drop_last();
        lemma_dot_parts_append(text, shorter);
        assert((text + tail).drop_last() =~= text + shorter);
        assert((parts.last() + shorter).push(tail.last()) =~= parts.last() + tail);
    }
}

/// Cutting at the dots undoes joining with dots: parts without dots, at
/// least one of them, are the parts of their joined text.
pub proof fn lemma_dot_parts_of_join(parts: Seq<Seq<char>>)
    requires
        parts.len() >= 1,
        forall|i: int| 0 <= i < parts.len() ==> dot_free(#[trigger] parts[i]),
    ensures
        dot_parts(join_dotted(parts)) == parts,
    decreases parts.len(),
{
    let nothing = Seq::<char>::empty();
    if parts.len() == 1 {
        lemma_dot_parts_append(nothing, parts[0]);
        assert(nothing + parts[0] =~= parts[0]);
    } else {
        let front = parts.drop_last();
        assert forall|i: int| 0 <= i < front.len() implies dot_free(#[trigger] front[i]) by {
            assert(front[i] == parts[i]);
        }
        lemma_dot_parts_of_join(front);
        let opened = join_dotted(front) + seq![separator()];
        assert(opened.drop_last() =~= join_dotted(front));
        assert(dot_parts(opened) == front.push(nothing));
        lemma_dot_parts_append(opened, parts.last());
        assert(front.push(nothing).drop_last().push(nothing + parts.last()) =~= parts);
    }
}

/// Joining with dots undoes cutting at the dots, and no part holds a dot.
pub proof fn lemma_join_of_dot_parts(text: Seq<char>)
    ensures
        dot_parts(text).len() >= 1,
        forall|i: int| 0 <= i < dot_parts(text).len() ==> dot_free(#[trigger] dot_parts(text)[i]),
        join_dotted(dot_parts(text)) == text,
    decreases text.len(),
{
    if text.len() > 0 {
        let shorter = text.drop_last();
        lemma_join_of_dot_parts(shorter);
        let before = dot_parts(shorter);
        if text.last() == separator() {
            assert(dot_parts(text).drop_last() =~= before);
        } else {
            lemma_join_grow_last(before, text.last());
            assert(shorter.push(text.last()) =~= text);
        }
    }
}

/// Lengthening the last part lengthens the joined text by the same
/// character.
proof fn lemma_join_grow_last(parts: Seq<Seq<char>>, c: char)
    requires
        parts.len() >= 1,
    ensures
        join_dotted(parts.drop_last().push(parts.last().push(c))) == join_dotted(parts).push(c),
{
    let grown = parts.drop_last().push(parts.last().push(c));
    if parts.len() > 1 {
        let front = join_dotted(parts.drop_last()) + seq![separator()];
        assert(grown.drop_last() =~= parts.drop_last());
        assert(front + parts.last().push(c) =~= (front + parts.last()).push(c));
    }
}

/// Cuts a key at its dots.
pub fn split_key(key: &str) -> (parts: Vec<String>)
    ensures
        texts(parts@) == dot_parts(key@),
{
    let length = key.unicode_len();
    let mut parts: Vec<String> = Vec::new();
    // The part that is still open begins at `start`.
    let mut start: usize = 0;
    let mut at: usize = 0;
    assert(key@.take(0) =~= Seq::<char>::empty());
    while at < length
        invariant
            length == key@.len(),
            start <= at <= length,
            dot_parts(key@.take(at as int)) == texts(parts@).push(
                key@.subrange(start as int, at as int),
            ),
        decreases length - at,
    {
        let c = key.get_char(at);
        let ghost open = key@.subrange(start as int, at as int);
        assert(key@.take(at + 1).drop_last() =~= key@.take(at as int));
        if c == '.' {
            parts.push(key.substring_char(start, at).to_owned());
            start = at + 1;
            assert(key@.subrange(start as int, at + 1) =~= Seq::<char>::empty());
        } else {
            assert(open.push(c) =~= key@.subrange(start as int, at + 1));
        }
        at = at + 1;
    }
    parts.push(key.substring_char(start, length).to_owned());
    assert(key@.take(length as int) =~= key@);
    parts
}

} // verus!
