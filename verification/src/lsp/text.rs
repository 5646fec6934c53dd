//! Lines, columns and indentation of a document.

use vstd::prelude::*;
use vstd::utf8::{decode_utf8, encode_utf8, is_char_boundary};

use crate::lsp::location::FileLocation;

verus! {

/// Whether `character` is white space as Unicode defines it (the property
/// `White_Space`).
pub open spec fn white_space(character: char) -> bool {
    let code = character as u32;
    ||| 0x0009 <= code <= 0x000d
    ||| code == 0x0020
    ||| code == 0x0085
    ||| code == 0x00a0
    ||| code == 0x1680
    ||| 0x2000 <= code <= 0x200a
    ||| code == 0x2028
    ||| code == 0x2029
    ||| code == 0x202f
    ||| code == 0x205f
    ||| code == 0x3000
}

pub fn is_white_space(character: char) -> (white: bool)
    ensures
        white == white_space(character),
{
    let code: u32 = character as u32;
    (0x0009 <= code && code <= 0x000d) || code == 0x0020 || code == 0x0085 || code == 0x00a0 || code
        == 0x1680 || (0x2000 <= code && code <= 0x200a) || code == 0x2028 || code == 0x2029 || code
        == 0x202f || code == 0x205f || code == 0x3000
}

/// The index of the first line feed of `text` at or after `from`, and the
/// length of `text` where there is none.
pub open spec fn line_end(text: Seq<char>, from: int) -> int
    decreases text.len() - from,
{
    if from < 0 || from >= text.len() {
        text.len() as int
    } else if text[from] == '\n' {
        from
    } else {
        line_end(text, from + 1)
    }
}

/// The line that stands in `text` from `from` up to `end`: where a line feed
/// ends it, a carriage return before the line feed does not belong to it.
pub open spec fn line_between(text: Seq<char>, from: int, end: int) -> Seq<char> {
    if end < text.len() && from < end && text[end - 1] == '\r' {
        text.subrange(from, end - 1)
    } else {
        text.subrange(from, end)
    }
}

/// The lines of `text` from `from` on. A line ends at a line feed, or at a
/// carriage return followed by one, or at the end of the text; what ends it
/// is no part of it. A text that ends with a line feed has no empty line
/// after it.
pub open spec fn lines_from(text: Seq<char>, from: int) -> Seq<Seq<char>>
    decreases text.len() - from + 1,
{
    if from < 0 || from >= text.len() {
        Seq::empty()
    } else {
        proof {
            lemma_line_end(text, from);
        }
        seq![line_between(text, from, line_end(text, from))] + lines_from(
            text,
            line_end(text, from) + 1,
        )
    }
}

/// The lines of `text`.
pub open spec fn lines(text: Seq<char>) -> Seq<Seq<char>> {
    lines_from(text, 0)
}

/// The end of a line lies at or behind its start, within the text.
pub proof fn lemma_line_end(text: Seq<char>, from: int)
    requires
        0 <= from <= text.len(),
    ensures
        from <= line_end(text, from) <= text.len(),
        forall|index: int| from <= index < line_end(text, from) ==> text[index] != '\n',
        line_end(text, from) < text.len() ==> text[line_end(text, from)] == '\n',
    decreases text.len() - from,
{
    if from < text.len() && text[from] != '\n' {
        lemma_line_end(text, from + 1);
    }
}

/// Where each line of a text begins and ends, counted in characters.
pub struct LineBounds {
    pub start: usize,
    pub end: usize,
}

/// Whether `bounds` are those of the lines of `text`, in their order.
pub open spec fn bounds_of_lines(text: Seq<char>, bounds: Seq<LineBounds>) -> bool {
    &&& bounds.len() == lines(text).len()
    &&& forall|index: int|
        0 <= index < bounds.len() ==> 0 <= (#[trigger] bounds[index]).start <= bounds[index].end
            <= text.len() && text.subrange(bounds[index].start as int, bounds[index].end as int)
            == lines(text)[index]
}

/// Where the lines of `contents` begin and end.
pub fn line_bounds(contents: &str) -> (bounds: Vec<LineBounds>)
    ensures
        bounds_of_lines(contents@, bounds@),
{
    let ghost text = contents@;
    let count: usize = contents.unicode_len();
    let mut bounds: Vec<LineBounds> = Vec::new();
    let mut start: usize = 0;
    let mut index: usize = 0;
    let mut after_return: bool = false;
    for character in iterator: contents.chars()
        invariant
            text == contents@,
            count == text.len(),
            iterator.seq() == text,
            index == iterator.index(),
            start <= index <= count,
            line_end(text, start as int) == line_end(text, index as int),
            after_return == (start < index && text[index - 1] == '\r'),
            lines(text).len() == bounds@.len() + lines_from(text, start as int).len(),
            forall|line: int|
                0 <= line < bounds@.len() ==> 0 <= (#[trigger] bounds@[line]).start
                    <= bounds@[line].end <= text.len() && text.subrange(
                    bounds@[line].start as int,
                    bounds@[line].end as int,
                ) == lines(text)[line],
            forall|line: int|
                0 <= line < lines_from(text, start as int).len() ==> lines(text)[bounds@.len()
                    + line] == #[trigger] lines_from(text, start as int)[line],
    {
        proof {
            lemma_line_end(text, index as int);
        }
        if character == '\n' {
            let end: usize = if after_return {
                index - 1
            } else {
                index
            };
            proof {
                let rest = lines_from(text, index + 1);
                assert(lines_from(text, start as int) =~= seq![
                    line_between(text, start as int, index as int),
                ] + rest);
                assert(lines(text)[bounds@.len() as int] == lines_from(text, start as int)[0]);
                assert forall|line: int| 0 <= line < rest.len() implies lines(text)[bounds@.len()
                    + 1 + line] == #[trigger] rest[line] by {
                    assert(lines_from(text, start as int)[line + 1] == rest[line]);
                }
            }
            bounds.push(LineBounds { start, end });
            start = index + 1;
            after_return = false;
        } else {
            after_return = character == '\r';
        }
        index += 1;
    }
    if start < count {
        proof {
            lemma_line_end(text, index as int);
            assert(lines_from(text, count + 1) =~= Seq::<Seq<char>>::empty());
            assert(lines_from(text, start as int) =~= seq![
                line_between(text, start as int, count as int),
            ]);
            assert(lines(text)[bounds@.len() as int] == lines_from(text, start as int)[0]);
        }
        bounds.push(LineBounds { start, end: count });
    }
    bounds
}

/// The line `line` of `contents`, if it has so many.
pub fn line_at<'a>(contents: &'a str, line: usize) -> (found: Option<&'a str>)
    ensures
        match found {
            Some(text) => line < lines(contents@).len() && text@ == lines(contents@)[line as int],
            None => line >= lines(contents@).len(),
        },
{
    let bounds = line_bounds(contents);
    if line < bounds.len() {
        Some(contents.substring_char(bounds[line].start, bounds[line].end))
    } else {
        None
    }
}

/// The column in bytes of the character that stands at column `column` of
/// `line`, counted in characters: the number of bytes that the characters
/// before it take in UTF-8. For a column behind the last character it is the
/// length of the line in bytes.
pub open spec fn byte_column(line: Seq<char>, column: int) -> nat {
    if 0 <= column < line.len() {
        encode_utf8(line.subrange(0, column)).len()
    } else {
        encode_utf8(line).len()
    }
}

/// `location` with its column, counted in characters of `line`, replaced by
/// the column in bytes.
pub fn map_column_from_char_to_byte_offset(line: &str, location: FileLocation) -> (mapped:
    FileLocation)
    ensures
        mapped.offset == location.offset,
        mapped.line == location.line,
        mapped.column == byte_column(line@, location.column as int),
{
    let column: usize = if location.column() < line.unicode_len() {
        line.substring_char(0, location.column()).as_bytes().len()
    } else {
        line.as_bytes().len()
    };
    FileLocation::new(location.offset(), location.line(), column)
}

/// The index of the first character of `text` at or after `from` that is no
/// white space, and the length of `text` where there is none.
pub open spec fn white_space_end(text: Seq<char>, from: int) -> int
    decreases text.len() - from,
{
    if from < 0 || from >= text.len() || !white_space(text[from]) {
        if from < 0 || from >= text.len() {
            text.len() as int
        } else {
            from
        }
    } else {
        white_space_end(text, from + 1)
    }
}

/// The white space at the start of `text`.
pub open spec fn leading_white_space(text: Seq<char>) -> Seq<char> {
    text.subrange(0, white_space_end(text, 0))
}

/// What stands in the first `column` bytes of `line`.
pub open spec fn byte_prefix(line: Seq<char>, column: int) -> Seq<char> {
    decode_utf8(encode_utf8(line).subrange(0, column))
}

/// The white space run ends within the text.
proof fn lemma_white_space_end(text: Seq<char>, from: int)
    requires
        0 <= from <= text.len(),
    ensures
        from <= white_space_end(text, from) <= text.len(),
    decreases text.len() - from,
{
    if from < text.len() && white_space(text[from]) {
        lemma_white_space_end(text, from + 1);
    }
}

/// The white space with which what stands before byte `column` of `line`
/// begins.
pub fn indentation<'a>(line: &'a str, column: usize) -> (indent: &'a str)
    requires
        column <= encode_utf8(line@).len(),
        is_char_boundary(encode_utf8(line@), column as int),
    ensures
        indent@ == leading_white_space(byte_prefix(line@, column as int)),
{
    let (before, _) = line.split_at(column);
    let ghost prefix = before@;
    proof {
        vstd::utf8::encode_utf8_decode_utf8(prefix);
        assert(prefix == byte_prefix(line@, column as int));
    }
    let count: usize = before.unicode_len();
    let mut white: usize = 0;
    let mut index: usize = 0;
    for character in iterator: before.chars()
        invariant
            prefix == before@,
            count == prefix.len(),
            iterator.seq() == prefix,
            index == iterator.index(),
            white <= index <= count,
            white_space_end(prefix, white as int) == white_space_end(prefix, 0),
            white < index ==> !white_space(prefix[white as int]),
    {
        if white == index && is_white_space(character) {
            white += 1;
        }
        index += 1;
    }
    proof {
        lemma_white_space_end(prefix, 0);
    }
    before.substring_char(0, white)
}

} // verus!
