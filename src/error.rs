//! The diagnostics that a traversal can raise, and how each one reads.
use vstd::prelude::*;

verus! {

/// One place in the source text: a line and a column (both counted from 1),
/// and the byte offset from the start of the document.
#[derive(Clone, Copy, Debug, PartialEq, Eq, Structural)]
pub struct Point {
    pub line: usize,
    pub column: usize,
    pub offset: usize,
}

/// A stretch of the source text, from `start` up to `end`.
#[derive(Clone, Copy, Debug, PartialEq, Eq, Structural)]
pub struct Position {
    pub start: Point,
    pub end: Point,
}

/// An error that the lower-level parser reported, kept with its own
/// message and the byte range where it was found.
#[derive(Clone, Debug, PartialEq, Eq)]
pub struct ParserError {
    pub message: String,
    pub lo: u32,
    pub hi: u32,
}

/// What went wrong.
#[derive(Clone, Debug, PartialEq, Eq)]
pub enum ErrorKind {
    JsxSpreadNotSupported,
    UnexpectedContentAfterExpr,
    CannotExportTsInterfaceAsDefault,
    CannotSpecifyMultipleLayouts { previous: Option<Position> },
    Parser(ParserError),
    OnlyImportExport,
}

/// A diagnostic: what went wrong, and where, when that is known.
#[derive(Clone, Debug, PartialEq, Eq)]
pub struct Error {
    pub kind: ErrorKind,
    pub point: Option<Point>,
}

/// The character of one decimal digit.
pub open spec fn digit_char(d: nat) -> char {
    if d == 0 {
        '0'
    } else if d == 1 {
        '1'
    } else if d == 2 {
        '2'
    } else if d == 3 {
        '3'
    } else if d == 4 {
        '4'
    } else if d == 5 {
        '5'
    } else if d == 6 {
        '6'
    } else if d == 7 {
        '7'
    } else if d == 8 {
        '8'
    } else {
        '9'
    }
}

/// `n` written in decimal, without leading zeros.
pub open spec fn decimal(n: nat) -> Seq<char>
    decreases n,
{
    if n < 10 {
        seq![digit_char(n)]
    } else {
        decimal(n / 10) + seq![digit_char(n % 10)]
    }
}

/// `line:column` of a point.
pub open spec fn point_text(p: Point) -> Seq<char> {
    decimal(p.line as nat) + seq![':'] + decimal(p.column as nat)
}

/// The prefix that locates a diagnostic: its point, or `0:0` when none is known,
/// followed by a space.
pub open spec fn prefix_text(point: Option<Point>) -> Seq<char> {
    match point {
        Some(p) => point_text(p) + seq![' '],
        None => seq!['0', ':', '0', ' '],
    }
}

/// How the earlier occurrence of a layout is named: the start of its
/// position, or `0:0` when none is known.
pub open spec fn previous_text(previous: Option<Position>) -> Seq<char> {
    match previous {
        Some(p) => point_text(p.start),
        None => seq!['0', ':', '0'],
    }
}

/// The one-line message of each kind of diagnostic.
pub open spec fn message_text(kind: ErrorKind) -> Seq<char> {
    match kind {
        ErrorKind::JsxSpreadNotSupported =>
            "Unexpected spread child, which is not supported in Babel, SWC, or React"@,
        ErrorKind::UnexpectedContentAfterExpr =>
            "Could not parse expression with swc: Unexpected content after expression"@,
        ErrorKind::CannotExportTsInterfaceAsDefault =>
            "Cannot use TypeScript interface declarations as default export in MDX files. The default export is reserved for a layout, which must be a component"@,
        ErrorKind::CannotSpecifyMultipleLayouts { previous } =>
            "Cannot specify multiple layouts (previous: "@ + previous_text(previous) + ")"@,
        ErrorKind::Parser(p) => p.message@,
        ErrorKind::OnlyImportExport => "Only import and export are supported"@,
    }
}

/// The full text of a diagnostic: where, then what.
pub open spec fn rendered(e: Error) -> Seq<char> {
    prefix_text(e.point) + message_text(e.kind)
}

fn digit_str(d: usize) -> (r: &'static str)
    requires
        d < 10,
    ensures
        r@ == seq![digit_char(d as nat)],
{
    proof {
        reveal_strlit("0");
        reveal_strlit("1");
        reveal_strlit("2");
        reveal_strlit("3");
        reveal_strlit("4");
        reveal_strlit("5");
        reveal_strlit("6");
        reveal_strlit("7");
        reveal_strlit("8");
        reveal_strlit("9");
    }
    if d == 0 {
        "0"
    } else if d == 1 {
        "1"
    } else if d == 2 {
        "2"
    } else if d == 3 {
        "3"
    } else if d == 4 {
        "4"
    } else if d == 5 {
        "5"
    } else if d == 6 {
        "6"
    } else if d == 7 {
        "7"
    } else if d == 8 {
        "8"
    } else {
        "9"
    }
}

fn write_decimal(out: &mut String, n: usize)
    ensures
        final(out)@ == old(out)@ + decimal(n as nat),
    decreases n,
{
    if n >= 10 {
        write_decimal(out, n / 10);
    }
    out.append(digit_str(n % 10));
    proof {
        assert((n / 10) as nat == (n as nat) / 10);
        assert((n % 10) as nat == (n as nat) % 10);
    }
    assert(final(out)@ =~= old(out)@ + decimal(n as nat));
}

fn write_point(out: &mut String, p: &Point)
    ensures
        final(out)@ == old(out)@ + point_text(*p),
{
    proof {
        reveal_strlit(":");
    }
    write_decimal(out, p.line);
    out.append(":");
    write_decimal(out, p.column);
    assert(final(out)@ =~= old(out)@ + point_text(*p));
}

impl Error {
    /// A diagnostic, with no position, that carries an error of the
    /// lower-level parser: the parser's own `message` for it, and the byte
    /// range `lo..hi` at which the parser found it.
    pub fn from_parser(message: String, lo: u32, hi: u32) -> (r: Error)
        ensures
            r.kind == ErrorKind::Parser(ParserError { message, lo, hi }),
            r.point is None,
    {
        Error { kind: ErrorKind::Parser(ParserError { message, lo, hi }), point: None }
    }

    /// The diagnostic as one line of text: `line:column message`, with `0:0`
    /// standing for an unknown position.
    pub fn render(&self) -> (r: String)
        ensures
            r@ == rendered(*self),
    {
        let mut out = String::new();
        match &self.point {
            Some(p) => {
                write_point(&mut out, p);
                out.append(" ");
                proof {
                    reveal_strlit(" ");
                }
            },
            None => {
                out.append("0:0 ");
                proof {
                    reveal_strlit("0:0 ");
                }
            },
        }
        assert(out@ =~= prefix_text(self.point));
        match &self.kind {
            ErrorKind::JsxSpreadNotSupported => {
                out.append("Unexpected spread child, which is not supported in Babel, SWC, or React");
            },
            ErrorKind::UnexpectedContentAfterExpr => {
                out.append("Could not parse expression with swc: Unexpected content after expression");
            },
            ErrorKind::CannotExportTsInterfaceAsDefault => {
                out.append("Cannot use TypeScript interface declarations as default export in MDX files. The default export is reserved for a layout, which must be a component");
            },
            ErrorKind::CannotSpecifyMultipleLayouts { previous } => {
                out.append("Cannot specify multiple layouts (previous: ");
                match previous {
                    Some(p) => write_point(&mut out, &p.start),
                    None => {
                        out.append("0:0");
                        proof {
                            reveal_strlit("0:0");
                        }
                    },
                }
                out.append(")");
                assert(out@ =~= prefix_text(self.point) + message_text(self.kind));
            },
            ErrorKind::Parser(p) => {
                out.append(p.message.as_str());
            },
            ErrorKind::OnlyImportExport => {
                out.append("Only import and export are supported");
            },
        }
        out
    }
}

impl From<ErrorKind> for Error {
    fn from(kind: ErrorKind) -> (r: Error) {
        Error { kind, point: None }
    }
}

impl vstd::std_specs::convert::FromSpecImpl<ErrorKind> for Error {
    open spec fn obeys_from_spec() -> bool {
        true
    }

    open spec fn from_spec(kind: ErrorKind) -> Error {
        Error { kind, point: None }
    }
}

/// Rendering depends on the diagnostic alone: the same diagnostic always
/// reads the same.
pub proof fn rendering_is_deterministic(a: Error, b: Error)
    requires
        a == b,
    ensures
        rendered(a) == rendered(b),
{
}

/// A diagnostic with no known position reads `0:0 ` first.
pub proof fn unknown_position_prefix(e: Error)
    requires
        e.point is None,
    ensures
        rendered(e).take(4) == seq!['0', ':', '0', ' '],
{
    assert(rendered(e).take(4) =~= seq!['0', ':', '0', ' ']);
}

} // verus!
