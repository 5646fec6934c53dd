//! The code actions offered at the cursor, and the store that keeps the
//! offered ones until the editor asks for one of them.

use std::collections::HashMap;

use tower_lsp::lsp_types::VersionedTextDocumentIdentifier;
use vstd::prelude::*;
use vstd::utf8::{encode_utf8, is_char_boundary};

use crate::lsp::location::{
    BabbelaarCodeAction, BabbelaarCodeActionType, FileEdit, FileLocation, FileRange,
};
use crate::lsp::text::{
    byte_column, byte_prefix, indentation, leading_white_space, line_at, line_bounds, lines,
    map_column_from_char_to_byte_offset,
};
use crate::strings::{decimal, decimal_string, text_equal};

verus! {

/// `tower_lsp::lsp_types::VersionedTextDocumentIdentifier`: a document in
/// one of its versions. The library keeps such a value and hands it back; it
/// reads nothing of it.
#[verifier::external_type_specification]
#[verifier::external_body]
pub struct ExVersionedTextDocumentIdentifier(VersionedTextDocumentIdentifier);

/// What went wrong while a request of the editor was served.
#[derive(Debug, PartialEq, Eq)]
pub enum BabbelaarLspError {
    /// The editor sent something that does not fit the document.
    InvalidDataSent { explanation: String },
}

/// A code action and the document, in one of its versions, that it was
/// computed for.
#[derive(Debug)]
pub struct CodeActionItem {
    pub action: BabbelaarCodeAction,
    pub document: VersionedTextDocumentIdentifier,
}

/// The code actions that were offered, each under the number that it was
/// given.
#[derive(Debug)]
pub struct CodeActionRepository {
    id_tracker: usize,
    values: HashMap<usize, CodeActionItem>,
}

impl CodeActionRepository {
    /// The number that the next code action is given.
    pub closed spec fn next_id(&self) -> usize {
        self.id_tracker
    }

    /// The code actions that are kept, by their numbers.
    pub closed spec fn items(&self) -> Map<usize, CodeActionItem> {
        self.values@
    }

    /// A store without code actions. The first one will be number 1.
    pub fn new() -> (repository: CodeActionRepository)
        ensures
            repository.next_id() == 1,
            repository.items() == Map::<usize, CodeActionItem>::empty(),
    {
        CodeActionRepository { id_tracker: 1, values: HashMap::new() }
    }

    /// Whether the numbers have run out, so that nothing more can be kept.
    pub fn is_full(&self) -> (full: bool)
        ensures
            full == (self.next_id() == usize::MAX),
    {
        self.id_tracker == usize::MAX
    }

    /// Keeps a code action and gives the number under which it is kept.
    #[must_use]
    pub fn add(&mut self, action: BabbelaarCodeAction, document: VersionedTextDocumentIdentifier)
        -> (id: usize)
        requires
            old(self).next_id() < usize::MAX,
        ensures
            id == old(self).next_id(),
            final(self).next_id() == id + 1,
            final(self).items() == old(self).items().insert(
                id,
                CodeActionItem { action, document },
            ),
    {
        let id = self.id_tracker;
        self.id_tracker += 1;
        self.values.insert(id, CodeActionItem { action, document });
        id
    }

    /// The code action that is kept under `id`.
    #[must_use]
    pub fn get(&self, id: usize) -> (item: Option<&CodeActionItem>)
        ensures
            match item {
                Some(item) => self.items().contains_key(id) && *item == self.items()[id],
                None => !self.items().contains_key(id),
            },
    {
        self.values.get(&id)
    }
}

/// A field of a structure as its declaration gives it.
#[derive(Debug, PartialEq, Eq)]
pub struct StructureField {
    pub name: String,
    /// What is written for a value of the field's type that is yet to be
    /// chosen.
    pub default_value_hint: String,
}

/// Whether `name` is among `present`.
pub open spec fn is_present(present: Seq<String>, name: Seq<char>) -> bool {
    exists|index: int| 0 <= index < present.len() && (#[trigger] present[index])@ == name
}

/// The line that gives `field` its place in an instantiation.
pub open spec fn field_line(indent: Seq<char>, field: StructureField) -> Seq<char> {
    seq!['\n'] + indent + field.name@ + seq![':', ' '] + field.default_value_hint@ + seq![',']
}

/// The lines for those of the first `count` fields that are not among
/// `present`, in the order of the fields.
pub open spec fn missing_fields(
    indent: Seq<char>,
    fields: Seq<StructureField>,
    present: Seq<String>,
    count: int,
) -> Seq<char>
    decreases count,
{
    if count <= 0 || count > fields.len() {
        Seq::empty()
    } else if is_present(present, fields[count - 1].name@) {
        missing_fields(indent, fields, present, count - 1)
    } else {
        missing_fields(indent, fields, present, count - 1) + field_line(indent, fields[count - 1])
    }
}

/// Whether one of the first `count` fields is not among `present`.
pub open spec fn any_missing(fields: Seq<StructureField>, present: Seq<String>, count: int) -> bool {
    exists|index: int|
        0 <= index < count && index < fields.len() && !is_present(
            present,
            (#[trigger] fields[index]).name@,
        )
}

/// `text` as `Debug` writes a string slice.
pub uninterp spec fn quoted(text: Seq<char>) -> Seq<char>;

/// `Debug` of std for a string slice, as `format!` applies it: the text in
/// double quotes, with double quotes, backslashes and what cannot be printed
/// written as escapes. The contract gives the result a name and says no more
/// of it.
#[verifier::external_body]
fn quoted_string(text: &str) -> (result: String)
    ensures
        result@ == quoted(text@),
{
    format!("{:?}", text)
}

/// What tells the editor that the document has no line `line`: it names the
/// line, the number of lines and the last of them.
pub open spec fn missing_line_explanation(line: int, count: int, last: Option<Seq<char>>) -> Seq<
    char,
> {
    "er is geen lijn op "@ + decimal(line) + ", we hebben er "@ + decimal(count)
        + ". De laatste is \""@ + match last {
        Some(text) => "Some("@ + quoted(text) + ")"@,
        None => "None"@,
    } + "\""@
}

fn explain_missing_line(line: usize, count: usize, last: Option<&str>) -> (explanation: String)
    ensures
        explanation@ == missing_line_explanation(
            line as int,
            count as int,
            match last {
                Some(text) => Some(text@),
                None => None,
            },
        ),
{
    let mut explanation = String::from_str("er is geen lijn op ");
    explanation.append(decimal_string(line as i128).as_str());
    explanation.append(", we hebben er ");
    explanation.append(decimal_string(count as i128).as_str());
    explanation.append(". De laatste is \"");
    match last {
        Some(text) => {
            explanation.append("Some(");
            explanation.append(quoted_string(text).as_str());
            explanation.append(")");
        },
        None => {
            explanation.append("None");
        },
    }
    explanation.append("\"");
    explanation
}

/// Whether `name` is among `present`.
fn contains_name(present: &Vec<String>, name: &str) -> (found: bool)
    ensures
        found == is_present(present@, name@),
{
    let count: usize = present.len();
    let mut index: usize = 0;
    while index < count
        invariant
            index <= count,
            count == present@.len(),
            forall|earlier: int| 0 <= earlier < index ==> (#[trigger] present@[earlier])@ != name@,
        decreases count - index,
    {
        if text_equal(present[index].as_str(), name) {
            return true;
        }
        index += 1;
    }
    false
}

/// What the search for code actions knows and has found so far.
pub struct CodeActionsAnalysisContext<'ctx> {
    pub items: Vec<BabbelaarCodeAction>,
    pub cursor_range: FileRange,
    pub contents: &'ctx str,
}

impl<'ctx> CodeActionsAnalysisContext<'ctx> {
    /// The last line of the document, if it has a line.
    pub open spec fn last_line(&self) -> Option<Seq<char>> {
        if lines(self.contents@).len() > 0 {
            Some(lines(self.contents@).last())
        } else {
            None
        }
    }

    /// The range from `start` to `end`, two places on the line of `start`
    /// whose columns count characters, with the columns counted in bytes.
    /// Where the document has no such line, that is an error.
    pub fn create_range_and_calculate_byte_column(&self, start: FileLocation, end: FileLocation)
        -> (result: Result<FileRange, BabbelaarLspError>)
        ensures
            match result {
                Ok(range) => {
                    let line = lines(self.contents@)[start.line as int];
                    &&& start.line < lines(self.contents@).len()
                    &&& range.start.offset == start.offset
                    &&& range.start.line == start.line
                    &&& range.start.column == byte_column(line, start.column as int)
                    &&& range.end.offset == end.offset
                    &&& range.end.line == end.line
                    &&& range.end.column == byte_column(line, end.column as int)
                },
                Err(BabbelaarLspError::InvalidDataSent { explanation }) => {
                    &&& start.line >= lines(self.contents@).len()
                    &&& explanation@ == missing_line_explanation(
                        start.line as int,
                        lines(self.contents@).len() as int,
                        self.last_line(),
                    )
                },
            },
    {
        let bounds = line_bounds(self.contents);
        let count: usize = bounds.len();
        if start.line() < count {
            let line = self.contents.substring_char(
                bounds[start.line()].start,
                bounds[start.line()].end,
            );
            let start = map_column_from_char_to_byte_offset(line, start);
            let end = map_column_from_char_to_byte_offset(line, end);
            Ok(FileRange::new(start, end))
        } else {
            let last: Option<&str> = if count > 0 {
                Some(self.contents.substring_char(bounds[count - 1].start, bounds[count - 1].end))
            } else {
                None
            };
            Err(
                BabbelaarLspError::InvalidDataSent {
                    explanation: explain_missing_line(start.line(), count, last),
                },
            )
        }
    }

    /// Whether `start`, with its column counted in bytes, lies on its line
    /// between two characters or at one of its ends.
    pub open spec fn on_boundary(&self, start: FileLocation) -> bool {
        start.line < lines(self.contents@).len() ==> {
            let line = lines(self.contents@)[start.line as int];
            &&& start.column <= encode_utf8(line).len()
            &&& is_char_boundary(encode_utf8(line), start.column as int)
        }
    }

    pub fn is_on_boundary(&self, start: FileLocation) -> (on: bool)
        ensures
            on == self.on_boundary(start),
    {
        match line_at(self.contents, start.line()) {
            Some(line) => start.column() <= line.as_bytes().len() && line.is_char_boundary(
                start.column(),
            ),
            None => true,
        }
    }

    /// The white space with which the line of `start` begins, as far as it
    /// stands before `start`, whose column counts bytes. There is none where
    /// the document has no such line.
    pub fn indentation_at(&self, start: FileLocation) -> (indent: Option<&'ctx str>)
        requires
            self.on_boundary(start),
        ensures
            match indent {
                Some(indent) => start.line < lines(self.contents@).len() && indent@
                    == leading_white_space(
                    byte_prefix(lines(self.contents@)[start.line as int], start.column as int),
                ),
                None => start.line >= lines(self.contents@).len(),
            },
    {
        match line_at(self.contents, start.line()) {
            Some(line) => Some(indentation(line, start.column())),
            None => None,
        }
    }

    /// The indentation of the fields of an instantiation whose name begins
    /// at `name_start`: four spaces more than that of the line of the name.
    pub open spec fn field_indent(&self, name_start: FileLocation) -> Seq<char> {
        if name_start.line < lines(self.contents@).len() {
            leading_white_space(
                byte_prefix(
                    lines(self.contents@)[name_start.line as int],
                    name_start.column as int,
                ),
            ) + seq![' ', ' ', ' ', ' ']
        } else {
            seq!['i', 'n', 'v', 'a', 'l', 'i', 'd', ' ', ' ', ' ', ' ']
        }
    }

    /// Offers, for an instantiation of `structure`, to add the fields that it
    /// leaves out: `fields` are those of the structure, `present` the names of
    /// those that the instantiation gives, `name_start` is where its name
    /// begins, and `braces` is what stands between its curly brackets. The
    /// action replaces that by one line for each field left out. Where none
    /// is left out, nothing is offered.
    pub fn fill_structure_fields(
        &mut self,
        structure: &str,
        fields: &Vec<StructureField>,
        present: &Vec<String>,
        name_start: FileLocation,
        braces: FileRange,
    )
        requires
            old(self).on_boundary(name_start),
        ensures
            final(self).cursor_range == old(self).cursor_range,
            final(self).contents == old(self).contents,
            !any_missing(fields@, present@, fields@.len() as int) ==> final(self).items == old(
                self,
            ).items,
            any_missing(fields@, present@, fields@.len() as int) ==> {
                let action = final(self).items@.last();
                &&& final(self).items@.len() == old(self).items@.len() + 1
                &&& final(self).items@.drop_last() == old(self).items@
                &&& action.ty matches BabbelaarCodeActionType::FillStructureFields { structure: named }
                &&& named@ == structure@
                &&& action.edits@.len() == 1
                &&& action.edits@[0].replacement_range == braces
                &&& action.edits@[0].new_text@ == missing_fields(
                    old(self).field_indent(name_start),
                    fields@,
                    present@,
                    fields@.len() as int,
                ) + seq!['\n']
            },
    {
        let mut indent: String = match self.indentation_at(name_start) {
            Some(indent) => String::from_str(indent),
            None => String::from_str("invalid"),
        };
        indent.append("    ");
        proof {
            reveal_strlit("invalid");
            reveal_strlit("    ");
            assert(indent@ =~= self.field_indent(name_start));
        }
        let mut text = String::new();
        let mut missing: bool = false;
        let count: usize = fields.len();
        let mut index: usize = 0;
        while index < count
            invariant
                index <= count,
                count == fields@.len(),
                text@ == missing_fields(indent@, fields@, present@, index as int),
                missing == any_missing(fields@, present@, index as int),
            decreases count - index,
        {
            let field = &fields[index];
            if !contains_name(present, field.name.as_str()) {
                text.append("\n");
                text.append(indent.as_str());
                text.append(field.name.as_str());
                text.append(": ");
                text.append(field.default_value_hint.as_str());
                text.append(",");
                missing = true;
                proof {
                    reveal_strlit("\n");
                    reveal_strlit(": ");
                    reveal_strlit(",");
                    assert(text@ =~= missing_fields(indent@, fields@, present@, index as int)
                        + field_line(indent@, fields@[index as int]));
                }
            } else {
                proof {
                    assert forall|other: int|
                        0 <= other < index + 1 && other < fields@.len() implies is_present(
                        present@,
                        (#[trigger] fields@[other]).name@,
                    ) || any_missing(fields@, present@, index as int) by {}
                }
            }
            index += 1;
        }
        text.append("\n");
        proof {
            reveal_strlit("\n");
        }
        if missing {
            let edit = FileEdit::new(braces, text);
            let mut edits: Vec<FileEdit> = Vec::new();
            edits.push(edit);
            let action = BabbelaarCodeAction::new(
                BabbelaarCodeActionType::FillStructureFields {
                    structure: String::from_str(structure),
                },
                edits,
            );
            self.items.push(action);
            proof {
                assert(self.items@.drop_last() =~= old(self).items@);
            }
        }
    }
}

} // verus!
