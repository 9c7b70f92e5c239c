use mdx_fault::error::{Error, ErrorKind, ParserError, Point, Position};
use swc_core::ecma::parser::error::SyntaxError;

fn point(line: usize, column: usize) -> Point {
    Point { line, column, offset: 0 }
}

fn at(kind: ErrorKind, line: usize, column: usize) -> Error {
    Error { kind, point: Some(point(line, column)) }
}

#[test]
fn renders_spread_child_with_position() {
    let e = at(ErrorKind::JsxSpreadNotSupported, 3, 7);
    assert_eq!(
        e.render(),
        "3:7 Unexpected spread child, which is not supported in Babel, SWC, or React"
    );
}

#[test]
fn renders_content_after_expression() {
    let e = at(ErrorKind::UnexpectedContentAfterExpr, 1, 1);
    assert_eq!(
        e.render(),
        "1:1 Could not parse expression with swc: Unexpected content after expression"
    );
}

#[test]
fn renders_interface_default_export() {
    let e = at(ErrorKind::CannotExportTsInterfaceAsDefault, 20, 105);
    assert_eq!(
        e.render(),
        "20:105 Cannot use TypeScript interface declarations as default export in MDX files. The default export is reserved for a layout, which must be a component"
    );
}

#[test]
fn renders_only_import_export() {
    let e = at(ErrorKind::OnlyImportExport, 9, 10);
    assert_eq!(e.render(), "9:10 Only import and export are supported");
}

#[test]
fn renders_multiple_layouts_with_previous() {
    let previous = Position { start: point(4, 1), end: point(4, 30) };
    let e = at(ErrorKind::CannotSpecifyMultipleLayouts { previous: Some(previous) }, 12, 1);
    assert_eq!(e.render(), "12:1 Cannot specify multiple layouts (previous: 4:1)");
}

#[test]
fn renders_multiple_layouts_without_previous() {
    let e = at(ErrorKind::CannotSpecifyMultipleLayouts { previous: None }, 2, 5);
    assert_eq!(e.render(), "2:5 Cannot specify multiple layouts (previous: 0:0)");
}

#[test]
fn renders_parser_message() {
    let parser = ParserError { message: String::from("Expected ident"), lo: 3, hi: 8 };
    let e = at(ErrorKind::Parser(parser), 1, 4);
    assert_eq!(e.render(), "1:4 Expected ident");
}

#[test]
fn unknown_position_renders_zero_prefix() {
    let e = Error { kind: ErrorKind::OnlyImportExport, point: None };
    let text = e.render();
    assert!(text.starts_with("0:0 "));
    assert_eq!(text, "0:0 Only import and export are supported");
}

#[test]
fn rendering_twice_gives_the_same_text() {
    let previous = Position { start: point(4, 2), end: point(5, 1) };
    let e = at(ErrorKind::CannotSpecifyMultipleLayouts { previous: Some(previous) }, 12, 3);
    assert_eq!(e.render(), e.render());
    let bare = Error { kind: ErrorKind::JsxSpreadNotSupported, point: None };
    assert_eq!(bare.render(), bare.render());
}

#[test]
fn renders_large_and_zero_numbers() {
    let e = at(ErrorKind::OnlyImportExport, 0, 1234567890);
    assert_eq!(e.render(), "0:1234567890 Only import and export are supported");
    let max = at(ErrorKind::OnlyImportExport, usize::MAX, 10);
    assert_eq!(max.render(), format!("{}:10 Only import and export are supported", usize::MAX));
}

#[test]
fn kind_converts_without_position() {
    let e = Error::from(ErrorKind::JsxSpreadNotSupported);
    assert_eq!(e, Error { kind: ErrorKind::JsxSpreadNotSupported, point: None });
}

#[test]
fn parser_error_keeps_message_and_range() {
    let e = Error::from_parser(SyntaxError::Eof.msg().into_owned(), 10, 12);
    assert_eq!(
        e,
        Error {
            kind: ErrorKind::Parser(ParserError {
                message: String::from("Unexpected eof"),
                lo: 10,
                hi: 12,
            }),
            point: None,
        }
    );
    assert_eq!(e.render(), "0:0 Unexpected eof");
}
