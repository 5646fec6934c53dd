use babbelaar_compiler::lsp::actions::{
    BabbelaarLspError, CodeActionRepository, CodeActionsAnalysisContext, StructureField,
};
use babbelaar_compiler::lsp::location::{
    BabbelaarCodeAction, BabbelaarCodeActionType, FileEdit, FileLocation, FileRange,
};
use babbelaar_compiler::lsp::text::{
    indentation, is_white_space, line_at, line_bounds, map_column_from_char_to_byte_offset,
};
use tower_lsp::lsp_types::{Url, VersionedTextDocumentIdentifier};

fn document(version: i32) -> VersionedTextDocumentIdentifier {
    VersionedTextDocumentIdentifier { uri: Url::parse("file:///werk/hoofd.bab").unwrap(), version }
}

fn action(structure: &str) -> BabbelaarCodeAction {
    BabbelaarCodeAction::new(
        BabbelaarCodeActionType::FillStructureFields { structure: String::from(structure) },
        vec![],
    )
}

fn context(contents: &str) -> CodeActionsAnalysisContext<'_> {
    let nowhere = FileLocation::new(0, 0, 0);
    CodeActionsAnalysisContext { items: vec![], cursor_range: FileRange::new(nowhere, nowhere), contents }
}

const TEXTS: [&str; 14] = [
    "",
    "\n",
    "\r\n",
    "een",
    "een\n",
    "een\ntwee",
    "een\r\ntwee\r\n",
    "foo\nbar\n\r\nbaz\r",
    "\n\n\n",
    "a\r\rb\n\rc",
    "\r",
    "\rx\n",
    "héé\n  wereld €\n\t𝄞 sleutel",
    "laatste\n\n",
];

#[test]
fn repository_numbers_from_one() {
    let mut repository = CodeActionRepository::new();
    assert!(repository.get(0).is_none());
    assert!(repository.get(1).is_none());
    let first = repository.add(action("A"), document(1));
    let second = repository.add(action("B"), document(2));
    assert_eq!(first, 1);
    assert_eq!(second, 2);
    let kept = repository.get(1).unwrap();
    assert_eq!(kept.action, action("A"));
    assert_eq!(kept.document, document(1));
    let kept = repository.get(2).unwrap();
    assert_eq!(kept.action, action("B"));
    assert_eq!(kept.document.version, 2);
    assert!(repository.get(3).is_none());
    assert!(repository.get(0).is_none());
}

#[test]
fn white_space_is_what_std_calls_so() {
    for code in 0..=0x10ffffu32 {
        if let Some(character) = char::from_u32(code) {
            assert_eq!(is_white_space(character), character.is_whitespace(), "U+{:04X}", code);
        }
    }
}

#[test]
fn lines_are_those_of_std() {
    for text in TEXTS {
        let expected: Vec<&str> = text.lines().collect();
        let bounds = line_bounds(text);
        assert_eq!(bounds.len(), expected.len(), "{:?}", text);
        let characters: Vec<char> = text.chars().collect();
        for (index, line) in expected.iter().enumerate() {
            let found: String = characters[bounds[index].start..bounds[index].end].iter().collect();
            assert_eq!(&found, line, "{:?}", text);
            assert_eq!(line_at(text, index), Some(*line));
        }
        assert_eq!(line_at(text, expected.len()), None);
        assert_eq!(line_at(text, usize::MAX), None);
    }
}

#[test]
fn carriage_return_at_the_end_stays() {
    assert_eq!(line_at("foo\nbar\n\r\nbaz\r", 2), Some(""));
    assert_eq!(line_at("foo\nbar\n\r\nbaz\r", 3), Some("baz\r"));
    assert_eq!(line_at("foo\nbar\n\r\nbaz\r", 4), None);
}

#[test]
fn column_counts_bytes() {
    let line = "hé €𝄞x";
    let expected = [0usize, 1, 3, 4, 7, 11, 12, 12, 12];
    for (column, bytes) in expected.iter().enumerate() {
        let mapped = map_column_from_char_to_byte_offset(line, FileLocation::new(40, 3, column));
        assert_eq!(mapped, FileLocation::new(40, 3, *bytes));
        let by_std = line.char_indices().nth(column).unwrap_or((line.len(), ' ')).0;
        assert_eq!(mapped.column(), by_std);
    }
    assert_eq!(map_column_from_char_to_byte_offset("", FileLocation::new(0, 0, 5)).column(), 0);
}

#[test]
fn range_is_mapped_on_the_line_of_its_start() {
    let ctx = context("kort\n  hé = € + 1;\nx");
    let range = ctx
        .create_range_and_calculate_byte_column(FileLocation::new(9, 1, 3), FileLocation::new(13, 1, 7))
        .unwrap();
    assert_eq!("  hé = € + 1;".char_indices().nth(7), Some((8, '€')));
    assert_eq!(range, FileRange::new(FileLocation::new(9, 1, 3), FileLocation::new(13, 1, 8)));
    let range = ctx
        .create_range_and_calculate_byte_column(FileLocation::new(0, 0, 2), FileLocation::new(0, 1, 90))
        .unwrap();
    assert_eq!(range.start().column(), 2);
    assert_eq!(range.end(), FileLocation::new(0, 1, 4));
}

#[test]
fn range_on_a_missing_line_is_an_error() {
    let ctx = context("een\ntwee\n");
    let result =
        ctx.create_range_and_calculate_byte_column(FileLocation::new(0, 2, 0), FileLocation::new(0, 2, 1));
    assert_eq!(
        result,
        Err(BabbelaarLspError::InvalidDataSent {
            explanation: String::from(
                "er is geen lijn op 2, we hebben er 2. De laatste is \"Some(\"twee\")\""
            ),
        })
    );
    let result = context("")
        .create_range_and_calculate_byte_column(FileLocation::new(0, 0, 0), FileLocation::new(0, 0, 0));
    assert_eq!(
        result,
        Err(BabbelaarLspError::InvalidDataSent {
            explanation: String::from("er is geen lijn op 0, we hebben er 0. De laatste is \"None\""),
        })
    );
}

#[test]
fn indentation_is_leading_white_space_before_the_column() {
    assert_eq!(indentation("    stel a = 1;", 9), "    ");
    assert_eq!(indentation("    stel a = 1;", 2), "  ");
    assert_eq!(indentation("\t \u{a0}x  ", 7), "\t \u{a0}");
    assert_eq!(indentation("x  ", 3), "");
    assert_eq!(indentation("   ", 3), "   ");
    assert_eq!(indentation("", 0), "");
    for line in ["  \u{3000}héé  ", "\t\tx", "geen", " \u{2003}\u{1680}é"] {
        for column in 0..=line.len() {
            if line.is_char_boundary(column) {
                let before = &line[..column];
                let expected = &before[..before.len() - before.trim_start().len()];
                assert_eq!(indentation(line, column), expected);
            }
        }
    }
}

#[test]
fn indentation_at_a_place() {
    let ctx = context("structuur A {\n    veld: g32,\n}\n\t  stel a = nieuw A {};");
    assert_eq!(ctx.indentation_at(FileLocation::new(0, 1, 4)), Some("    "));
    assert_eq!(ctx.indentation_at(FileLocation::new(0, 0, 5)), Some(""));
    assert_eq!(ctx.indentation_at(FileLocation::new(0, 3, 18)), Some("\t  "));
    assert_eq!(ctx.indentation_at(FileLocation::new(0, 3, 1)), Some("\t"));
    assert_eq!(ctx.indentation_at(FileLocation::new(0, 4, 0)), None);
}

fn field(name: &str, hint: &str) -> StructureField {
    StructureField { name: String::from(name), default_value_hint: String::from(hint) }
}

#[test]
fn missing_fields_are_offered() {
    let contents = "werkwijze hoofd() {\n    stel a = nieuw Punt { y: 2, };\n}";
    let mut ctx = context(contents);
    let fields = vec![field("x", "0"), field("y", "0"), field("naam", "\"\"")];
    let braces = FileRange::new(FileLocation::new(41, 1, 21), FileLocation::new(49, 1, 29));
    ctx.fill_structure_fields(
        "Punt",
        &fields,
        &vec![String::from("y")],
        FileLocation::new(35, 1, 19),
        braces,
    );
    assert_eq!(
        ctx.items,
        vec![BabbelaarCodeAction::new(
            BabbelaarCodeActionType::FillStructureFields { structure: String::from("Punt") },
            vec![FileEdit::new(braces, String::from("\n        x: 0,\n        naam: \"\",\n"))],
        )]
    );
    ctx.fill_structure_fields("Punt", &fields, &vec![], FileLocation::new(0, 0, 3), braces);
    assert_eq!(ctx.items.len(), 2);
    assert_eq!(ctx.items[1].edits[0].new_text, "\n    x: 0,\n    y: 0,\n    naam: \"\",\n");
}

#[test]
fn nothing_is_offered_where_no_field_is_missing() {
    let mut ctx = context("nieuw Punt { x: 1, y: 2 }");
    let fields = vec![field("x", "0"), field("y", "0")];
    let braces = FileRange::new(FileLocation::new(12, 0, 12), FileLocation::new(24, 0, 24));
    ctx.fill_structure_fields(
        "Punt",
        &fields,
        &vec![String::from("y"), String::from("x"), String::from("z")],
        FileLocation::new(6, 0, 6),
        braces,
    );
    assert!(ctx.items.is_empty());
    ctx.fill_structure_fields("Leeg", &vec![], &vec![], FileLocation::new(6, 0, 6), braces);
    assert!(ctx.items.is_empty());
}

#[test]
fn fields_of_an_instantiation_on_a_missing_line() {
    let mut ctx = context("");
    let braces = FileRange::new(FileLocation::new(0, 0, 0), FileLocation::new(0, 0, 0));
    ctx.fill_structure_fields("A", &vec![field("x", "0")], &vec![], FileLocation::new(0, 7, 0), braces);
    assert_eq!(ctx.items[0].edits[0].new_text, "\ninvalid    x: 0,\n");
}
