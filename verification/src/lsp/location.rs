//! Places in a document, the edits made there, and the actions that make
//! them.

use vstd::prelude::*;

verus! {

/// A place in a document: its distance from the start of the document, and
/// the line and the column at which it stands, all counted from zero.
#[derive(Debug, Clone, Copy, PartialEq, Eq, Structural)]
pub struct FileLocation {
    pub offset: usize,
    pub line: usize,
    pub column: usize,
}

impl FileLocation {
    pub fn new(offset: usize, line: usize, column: usize) -> (location: FileLocation)
        ensures
            location == (FileLocation { offset, line, column }),
    {
        FileLocation { offset, line, column }
    }

    pub fn offset(&self) -> (offset: usize)
        ensures
            offset == self.offset,
    {
        self.offset
    }

    pub fn line(&self) -> (line: usize)
        ensures
            line == self.line,
    {
        self.line
    }

    pub fn column(&self) -> (column: usize)
        ensures
            column == self.column,
    {
        self.column
    }
}

/// The part of a document from `start` up to `end`.
#[derive(Debug, Clone, Copy, PartialEq, Eq, Structural)]
pub struct FileRange {
    pub start: FileLocation,
    pub end: FileLocation,
}

impl FileRange {
    pub fn new(start: FileLocation, end: FileLocation) -> (range: FileRange)
        ensures
            range == (FileRange { start, end }),
    {
        FileRange { start, end }
    }

    pub fn start(&self) -> (start: FileLocation)
        ensures
            start == self.start,
    {
        self.start
    }

    pub fn end(&self) -> (end: FileLocation)
        ensures
            end == self.end,
    {
        self.end
    }
}

/// One change to a document: `new_text` takes the place of what stands in
/// `replacement_range`.
#[derive(Debug, PartialEq, Eq)]
pub struct FileEdit {
    pub replacement_range: FileRange,
    pub new_text: String,
}

impl FileEdit {
    pub fn new(replacement_range: FileRange, new_text: String) -> (edit: FileEdit)
        ensures
            edit == (FileEdit { replacement_range, new_text }),
    {
        FileEdit { replacement_range, new_text }
    }
}

/// What a code action does.
#[derive(Debug, PartialEq, Eq)]
pub enum BabbelaarCodeActionType {
    /// Adds the fields that an instantiation of `structure` leaves out.
    FillStructureFields { structure: String },
}

/// Something that the editor offers to do at the cursor.
#[derive(Debug, PartialEq, Eq)]
pub struct BabbelaarCodeAction {
    pub ty: BabbelaarCodeActionType,
    pub edits: Vec<FileEdit>,
}

impl BabbelaarCodeAction {
    pub fn new(ty: BabbelaarCodeActionType, edits: Vec<FileEdit>) -> (action: BabbelaarCodeAction)
        ensures
            action == (BabbelaarCodeAction { ty, edits }),
    {
        BabbelaarCodeAction { ty, edits }
    }
}

} // verus!
