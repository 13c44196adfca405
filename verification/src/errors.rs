//! Errors of the lexer and of AST lowering, with their codes, names and
//! the diagnostics they are reported as.
use vstd::prelude::*;

use crate::span::{BytePos, Span, span_encoding};
use crate::text::{char_text, push_str};

verus! {

pub const LEX_ERROR_BASE: u32 = 1000;
pub const LEX_UNTERMINATED_STRING: u32 = 1001;
pub const LEX_UNTERMINATED_CHAR: u32 = 1002;
pub const LEX_UNTERMINATED_COMMENT: u32 = 1003;
pub const LEX_UNTERMINATED_MACRO: u32 = 1004;
pub const LEX_INVALID_ESCAPE: u32 = 1005;
pub const LEX_INVALID_NUMBER: u32 = 1006;
pub const LEX_UNEXPECTED_CHAR: u32 = 1007;
pub const LEX_EMPTY_CHAR: u32 = 1008;

/// A lexer error; positions are byte offsets into the lexed text.
#[derive(Debug, Clone, PartialEq, Eq)]
pub enum LexError {
    UnterminatedString { start: u32, message: String },
    UnterminatedChar { start: u32, message: String },
    UnterminatedComment { start: u32, message: String },
    UnterminatedMacro { start: u32, message: String },
    InvalidEscape { start: u32, escape_char: char, message: String },
    InvalidNumber { start: u32, message: String },
    UnexpectedChar { position: u32, char: char, message: String },
    EmptyChar { start: u32, message: String },
}

/// A diagnostic ready to be reported: message, code, primary span, the
/// label on that span and a help line.
pub struct Diagnostic {
    pub message: String,
    pub code: u32,
    pub span: Span,
    pub label: String,
    pub help: String,
}

impl LexError {
    pub open spec fn spec_message(&self) -> Seq<char> {
        match self {
            LexError::UnterminatedString { message, .. } => message@,
            LexError::UnterminatedChar { message, .. } => message@,
            LexError::UnterminatedComment { message, .. } => message@,
            LexError::UnterminatedMacro { message, .. } => message@,
            LexError::InvalidEscape { message, .. } => message@,
            LexError::InvalidNumber { message, .. } => message@,
            LexError::UnexpectedChar { message, .. } => message@,
            LexError::EmptyChar { message, .. } => message@,
        }
    }

    pub open spec fn spec_start(&self) -> u32 {
        match self {
            LexError::UnterminatedString { start, .. } => *start,
            LexError::UnterminatedChar { start, .. } => *start,
            LexError::UnterminatedComment { start, .. } => *start,
            LexError::UnterminatedMacro { start, .. } => *start,
            LexError::InvalidEscape { start, .. } => *start,
            LexError::InvalidNumber { start, .. } => *start,
            LexError::UnexpectedChar { position, .. } => *position,
            LexError::EmptyChar { start, .. } => *start,
        }
    }

    /// How many bytes the error's span covers: the opening quote, the `''`,
    /// the escape sequence, the first byte, or the opener of a comment or
    /// macro.
    pub open spec fn spec_width(&self) -> u32 {
        match self {
            LexError::UnterminatedString { .. } => 1,
            LexError::UnterminatedChar { .. } => 1,
            LexError::EmptyChar { .. } => 2,
            LexError::InvalidEscape { .. } => 2,
            LexError::InvalidNumber { .. } => 1,
            LexError::UnexpectedChar { .. } => 1,
            LexError::UnterminatedComment { .. } => 2,
            LexError::UnterminatedMacro { .. } => 2,
        }
    }

    pub open spec fn spec_code(&self) -> u32 {
        match self {
            LexError::UnterminatedString { .. } => LEX_UNTERMINATED_STRING,
            LexError::UnterminatedChar { .. } => LEX_UNTERMINATED_CHAR,
            LexError::UnterminatedComment { .. } => LEX_UNTERMINATED_COMMENT,
            LexError::UnterminatedMacro { .. } => LEX_UNTERMINATED_MACRO,
            LexError::InvalidEscape { .. } => LEX_INVALID_ESCAPE,
            LexError::InvalidNumber { .. } => LEX_INVALID_NUMBER,
            LexError::UnexpectedChar { .. } => LEX_UNEXPECTED_CHAR,
            LexError::EmptyChar { .. } => LEX_EMPTY_CHAR,
        }
    }

    pub open spec fn spec_name(&self) -> Seq<char> {
        match self {
            LexError::UnterminatedString { .. } => "unterminated_string"@,
            LexError::UnterminatedChar { .. } => "unterminated_char"@,
            LexError::UnterminatedComment { .. } => "unterminated_comment"@,
            LexError::UnterminatedMacro { .. } => "unterminated_macro"@,
            LexError::InvalidEscape { .. } => "invalid_escape"@,
            LexError::InvalidNumber { .. } => "invalid_number"@,
            LexError::UnexpectedChar { .. } => "unexpected_char"@,
            LexError::EmptyChar { .. } => "empty_char"@,
        }
    }

    /// The label shown on the error's span.
    pub open spec fn spec_label(&self) -> Seq<char> {
        match self {
            LexError::UnterminatedString { .. } => "String literal is not terminated"@,
            LexError::UnterminatedChar { .. } => "Character literal is not terminated"@,
            LexError::EmptyChar { .. } => "Character literal cannot be empty"@,
            LexError::InvalidEscape { escape_char, .. } => "Invalid escape sequence '\\"@ + seq![*escape_char] + "'"@,
            LexError::InvalidNumber { .. } => "Invalid number format"@,
            LexError::UnexpectedChar { char, .. } => "Unexpected character '"@ + seq![*char] + "'"@,
            LexError::UnterminatedComment { .. } => "Comment is not terminated"@,
            LexError::UnterminatedMacro { .. } => "Macro content is not terminated"@,
        }
    }

    /// The help line of the error.
    pub open spec fn spec_help(&self) -> Seq<char> {
        match self {
            LexError::UnterminatedString { .. } => "Add a closing quote (\") to terminate the string literal"@,
            LexError::UnterminatedChar { .. } => "Add a closing single quote (') to terminate the character literal"@,
            LexError::EmptyChar { .. } => "Add a character between the single quotes, e.g., 'a' or '\\n'"@,
            LexError::InvalidEscape { .. } => "Valid escape sequences are: \\n, \\t, \\r, \\\\, \\', \\\", \\0, \\a, \\b, \\f, \\v, \\x{...}, \\u{...}"@,
            LexError::InvalidNumber { .. } => "Make sure decimal numbers have digits after the decimal point"@,
            LexError::UnexpectedChar { .. } => "Remove or replace this character with a valid token"@,
            LexError::UnterminatedComment { .. } => "Add a comment terminator"@,
            LexError::UnterminatedMacro { .. } => "Add a closing brace '}' to terminate the macro content"@,
        }
    }

    pub fn message(&self) -> (r: &str)
        ensures
            r@ == self.spec_message(),
    {
        match self {
            LexError::UnterminatedString { message, .. } => message.as_str(),
            LexError::UnterminatedChar { message, .. } => message.as_str(),
            LexError::UnterminatedComment { message, .. } => message.as_str(),
            LexError::UnterminatedMacro { message, .. } => message.as_str(),
            LexError::InvalidEscape { message, .. } => message.as_str(),
            LexError::InvalidNumber { message, .. } => message.as_str(),
            LexError::UnexpectedChar { message, .. } => message.as_str(),
            LexError::EmptyChar { message, .. } => message.as_str(),
        }
    }

    pub fn start_position(&self) -> (r: u32)
        ensures
            r == self.spec_start(),
    {
        match self {
            LexError::UnterminatedString { start, .. } => *start,
            LexError::UnterminatedChar { start, .. } => *start,
            LexError::UnterminatedComment { start, .. } => *start,
            LexError::UnterminatedMacro { start, .. } => *start,
            LexError::InvalidEscape { start, .. } => *start,
            LexError::InvalidNumber { start, .. } => *start,
            LexError::UnexpectedChar { position, .. } => *position,
            LexError::EmptyChar { start, .. } => *start,
        }
    }

    /// The span to highlight, in global positions from `base_pos`.
    pub fn to_span(&self, base_pos: BytePos) -> (r: Span)
        requires
            base_pos.0 + self.spec_start() + self.spec_width() <= u32::MAX,
        ensures
            (r.lo, r.hi) == span_encoding(
                (base_pos.0 + self.spec_start()) as u32,
                (base_pos.0 + self.spec_start() + self.spec_width()) as u32,
            ),
    {
        let start = self.start_position();
        let end = match self {
            LexError::UnterminatedString { .. } => start + 1,
            LexError::UnterminatedChar { .. } => start + 1,
            LexError::EmptyChar { .. } => start + 2,
            LexError::InvalidEscape { .. } => start + 2,
            LexError::InvalidNumber { .. } => start + 1,
            LexError::UnexpectedChar { .. } => start + 1,
            LexError::UnterminatedComment { .. } => start + 2,
            LexError::UnterminatedMacro { .. } => start + 2,
        };
        Span::new(BytePos(base_pos.0 + start), BytePos(base_pos.0 + end))
    }

    pub fn error_code(&self) -> (r: u32)
        ensures
            r == self.spec_code(),
    {
        match self {
            LexError::UnterminatedString { .. } => LEX_UNTERMINATED_STRING,
            LexError::UnterminatedChar { .. } => LEX_UNTERMINATED_CHAR,
            LexError::UnterminatedComment { .. } => LEX_UNTERMINATED_COMMENT,
            LexError::UnterminatedMacro { .. } => LEX_UNTERMINATED_MACRO,
            LexError::InvalidEscape { .. } => LEX_INVALID_ESCAPE,
            LexError::InvalidNumber { .. } => LEX_INVALID_NUMBER,
            LexError::UnexpectedChar { .. } => LEX_UNEXPECTED_CHAR,
            LexError::EmptyChar { .. } => LEX_EMPTY_CHAR,
        }
    }

    pub fn error_name(&self) -> (r: &'static str)
        ensures
            r@ == self.spec_name(),
    {
        match self {
            LexError::UnterminatedString { .. } => "unterminated_string",
            LexError::UnterminatedChar { .. } => "unterminated_char",
            LexError::UnterminatedComment { .. } => "unterminated_comment",
            LexError::UnterminatedMacro { .. } => "unterminated_macro",
            LexError::InvalidEscape { .. } => "invalid_escape",
            LexError::InvalidNumber { .. } => "invalid_number",
            LexError::UnexpectedChar { .. } => "unexpected_char",
            LexError::EmptyChar { .. } => "empty_char",
        }
    }

    fn quoted_char(before: &str, c: char) -> (r: String)
        ensures
            r@ == before@ + seq![c] + "'"@,
    {
        let mut s = String::from_str(before);
        let ct = char_text(c);
        push_str(&mut s, ct.as_str());
        push_str(&mut s, "'");
        s
    }

    /// The diagnostic this error is reported as.
    pub fn diagnostic(&self, base_pos: BytePos) -> (d: Diagnostic)
        requires
            base_pos.0 + self.spec_start() + self.spec_width() <= u32::MAX,
        ensures
            d.message@ == self.spec_message(),
            d.code == self.spec_code(),
            (d.span.lo, d.span.hi) == span_encoding(
                (base_pos.0 + self.spec_start()) as u32,
                (base_pos.0 + self.spec_start() + self.spec_width()) as u32,
            ),
            d.label@ == self.spec_label(),
            d.help@ == self.spec_help(),
    {
        let span = self.to_span(base_pos);
        let message = String::from_str(self.message());
        let code = self.error_code();
        let (label, help) = match self {
            LexError::UnterminatedString { .. } => (
                String::from_str("String literal is not terminated"),
                String::from_str("Add a closing quote (\") to terminate the string literal"),
            ),
            LexError::UnterminatedChar { .. } => (
                String::from_str("Character literal is not terminated"),
                String::from_str("Add a closing single quote (') to terminate the character literal"),
            ),
            LexError::EmptyChar { .. } => (
                String::from_str("Character literal cannot be empty"),
                String::from_str("Add a character between the single quotes, e.g., 'a' or '\\n'"),
            ),
            LexError::InvalidEscape { escape_char, .. } => (
                Self::quoted_char("Invalid escape sequence '\\", *escape_char),
                String::from_str("Valid escape sequences are: \\n, \\t, \\r, \\\\, \\', \\\", \\0, \\a, \\b, \\f, \\v, \\x{...}, \\u{...}"),
            ),
            LexError::InvalidNumber { .. } => (
                String::from_str("Invalid number format"),
                String::from_str("Make sure decimal numbers have digits after the decimal point"),
            ),
            LexError::UnexpectedChar { char, .. } => (
                Self::quoted_char("Unexpected character '", *char),
                String::from_str("Remove or replace this character with a valid token"),
            ),
            LexError::UnterminatedComment { .. } => (
                String::from_str("Comment is not terminated"),
                String::from_str("Add a comment terminator"),
            ),
            LexError::UnterminatedMacro { .. } => (
                String::from_str("Macro content is not terminated"),
                String::from_str("Add a closing brace '}' to terminate the macro content"),
            ),
        };
        Diagnostic { message, code, span, label, help }
    }
}

/// The result type of lexer operations.
pub type LexResult<T> = Result<T, LexError>;

pub const LOWER_ERROR_BASE: u32 = 4000;

/// An error of lowering the syntax tree.
#[derive(Debug, Clone)]
pub enum LowerError {
    LiteralError { message: String, span: Span },
    UnresolvedIdentifier { message: String, span: Span },
    InternalError(String),
    ScopeError(String),
}

impl LowerError {
    pub open spec fn spec_message(&self) -> Seq<char> {
        match self {
            LowerError::LiteralError { message, .. } => message@,
            LowerError::UnresolvedIdentifier { message, .. } => message@,
            LowerError::InternalError(message) => message@,
            LowerError::ScopeError(message) => message@,
        }
    }

    pub fn message(&self) -> (r: &str)
        ensures
            r@ == self.spec_message(),
    {
        match self {
            LowerError::LiteralError { message, .. } => message.as_str(),
            LowerError::UnresolvedIdentifier { message, .. } => message.as_str(),
            LowerError::InternalError(message) => message.as_str(),
            LowerError::ScopeError(message) => message.as_str(),
        }
    }

    /// The error's span; the dummy span for errors without a location.
    pub fn to_span(&self) -> (r: Span)
        ensures
            r == match self {
                LowerError::LiteralError { span, .. } => *span,
                LowerError::UnresolvedIdentifier { span, .. } => *span,
                _ => Span { lo: 0, hi: 0 },
            },
    {
        match self {
            LowerError::LiteralError { span, .. } => *span,
            LowerError::UnresolvedIdentifier { span, .. } => *span,
            LowerError::InternalError(_) => Span::dummy(),
            LowerError::ScopeError(_) => Span::dummy(),
        }
    }

    pub fn error_code(&self) -> (r: u32)
        ensures
            r == match self {
                LowerError::LiteralError { .. } => 4001u32,
                LowerError::UnresolvedIdentifier { .. } => 4002u32,
                LowerError::InternalError(_) => 4003u32,
                LowerError::ScopeError(_) => 4004u32,
            },
    {
        match self {
            LowerError::LiteralError { .. } => LOWER_ERROR_BASE + 1,
            LowerError::UnresolvedIdentifier { .. } => LOWER_ERROR_BASE + 2,
            LowerError::InternalError(_) => LOWER_ERROR_BASE + 3,
            LowerError::ScopeError(_) => LOWER_ERROR_BASE + 4,
        }
    }

    pub fn error_name(&self) -> (r: &'static str)
        ensures
            r@ == match self {
                LowerError::LiteralError { .. } => "literal_error"@,
                LowerError::UnresolvedIdentifier { .. } => "unresolved_identifier"@,
                LowerError::InternalError(_) => "internal_error"@,
                LowerError::ScopeError(_) => "scope_error"@,
            },
    {
        match self {
            LowerError::LiteralError { .. } => "literal_error",
            LowerError::UnresolvedIdentifier { .. } => "unresolved_identifier",
            LowerError::InternalError(_) => "internal_error",
            LowerError::ScopeError(_) => "scope_error",
        }
    }
}

/// What went wrong while lowering.
#[derive(Debug)]
pub enum LoweringErrorKind {
    UnsupportedNode(String),
    MalformedAst(String),
    UnsupportedClause(String),
    InvalidParameter(String),
    InvalidPattern(String),
    InvalidItemInContext(String),
    InvalidEnumVariant(String),
    InvalidStructField(String),
    MissingIdentifier,
    InvalidTypeExpr(String),
}

/// A lowering error with its location.
#[derive(Debug)]
pub struct LoweringError {
    pub kind: LoweringErrorKind,
    pub span: Span,
}

/// The code of each kind of lowering error.
pub open spec fn lowering_code(k: LoweringErrorKind) -> u32 {
    match k {
        LoweringErrorKind::UnsupportedNode(_) => 2001,
        LoweringErrorKind::MalformedAst(_) => 2002,
        LoweringErrorKind::UnsupportedClause(_) => 2003,
        LoweringErrorKind::InvalidParameter(_) => 2004,
        LoweringErrorKind::InvalidPattern(_) => 2005,
        LoweringErrorKind::InvalidItemInContext(_) => 2006,
        LoweringErrorKind::InvalidEnumVariant(_) => 2007,
        LoweringErrorKind::InvalidStructField(_) => 2008,
        LoweringErrorKind::MissingIdentifier => 2009,
        LoweringErrorKind::InvalidTypeExpr(_) => 2010,
    }
}

/// The name of each kind of lowering error.
pub open spec fn lowering_name(k: LoweringErrorKind) -> Seq<char> {
    match k {
        LoweringErrorKind::UnsupportedNode(_) => "unsupported AST node"@,
        LoweringErrorKind::MalformedAst(_) => "malformed AST structure"@,
        LoweringErrorKind::UnsupportedClause(_) => "unsupported clause"@,
        LoweringErrorKind::InvalidParameter(_) => "invalid parameter"@,
        LoweringErrorKind::InvalidPattern(_) => "invalid pattern"@,
        LoweringErrorKind::InvalidItemInContext(_) => "invalid item in context"@,
        LoweringErrorKind::InvalidEnumVariant(_) => "invalid enum variant"@,
        LoweringErrorKind::InvalidStructField(_) => "invalid struct field"@,
        LoweringErrorKind::MissingIdentifier => "missing identifier"@,
        LoweringErrorKind::InvalidTypeExpr(_) => "invalid type expression"@,
    }
}

/// The message each kind of lowering error is reported with.
pub open spec fn lowering_message(k: LoweringErrorKind) -> Seq<char> {
    match k {
        LoweringErrorKind::UnsupportedNode(name) => "unsupported AST node `"@ + name@ + "` during lowering"@,
        LoweringErrorKind::MalformedAst(msg) => "malformed AST: "@ + msg@,
        LoweringErrorKind::UnsupportedClause(msg) => "unsupported clause form: "@ + msg@,
        LoweringErrorKind::InvalidParameter(msg) => "invalid function parameter: "@ + msg@,
        LoweringErrorKind::InvalidPattern(msg) => "invalid pattern: "@ + msg@,
        LoweringErrorKind::InvalidItemInContext(msg) => "invalid item in this context: "@ + msg@,
        LoweringErrorKind::InvalidEnumVariant(msg) => "invalid enum variant: "@ + msg@,
        LoweringErrorKind::InvalidStructField(msg) => "invalid struct field: "@ + msg@,
        LoweringErrorKind::MissingIdentifier => "expected an identifier"@,
        LoweringErrorKind::InvalidTypeExpr(msg) => "invalid type expression: "@ + msg@,
    }
}

fn prefixed(prefix: &str, msg: &String) -> (r: String)
    ensures
        r@ == prefix@ + msg@,
{
    let mut s = String::from_str(prefix);
    push_str(&mut s, msg.as_str());
    s
}

impl LoweringError {
    pub fn new(kind: LoweringErrorKind, span: Span) -> (e: Self)
        ensures
            e.kind == kind && e.span == span,
    {
        LoweringError { kind, span }
    }

    pub fn unsupported_node(name: String, span: Span) -> (e: Self)
        ensures
            e.kind == LoweringErrorKind::UnsupportedNode(name) && e.span == span,
    {
        Self::new(LoweringErrorKind::UnsupportedNode(name), span)
    }

    pub fn malformed_ast(msg: String, span: Span) -> (e: Self)
        ensures
            e.kind == LoweringErrorKind::MalformedAst(msg) && e.span == span,
    {
        Self::new(LoweringErrorKind::MalformedAst(msg), span)
    }

    pub fn unsupported_clause(msg: String, span: Span) -> (e: Self)
        ensures
            e.kind == LoweringErrorKind::UnsupportedClause(msg) && e.span == span,
    {
        Self::new(LoweringErrorKind::UnsupportedClause(msg), span)
    }

    pub fn invalid_parameter(msg: String, span: Span) -> (e: Self)
        ensures
            e.kind == LoweringErrorKind::InvalidParameter(msg) && e.span == span,
    {
        Self::new(LoweringErrorKind::InvalidParameter(msg), span)
    }

    pub fn invalid_pattern(msg: String, span: Span) -> (e: Self)
        ensures
            e.kind == LoweringErrorKind::InvalidPattern(msg) && e.span == span,
    {
        Self::new(LoweringErrorKind::InvalidPattern(msg), span)
    }

    pub fn invalid_item(msg: String, span: Span) -> (e: Self)
        ensures
            e.kind == LoweringErrorKind::InvalidItemInContext(msg) && e.span == span,
    {
        Self::new(LoweringErrorKind::InvalidItemInContext(msg), span)
    }

    pub fn invalid_enum_variant(msg: String, span: Span) -> (e: Self)
        ensures
            e.kind == LoweringErrorKind::InvalidEnumVariant(msg) && e.span == span,
    {
        Self::new(LoweringErrorKind::InvalidEnumVariant(msg), span)
    }

    pub fn invalid_struct_field(msg: String, span: Span) -> (e: Self)
        ensures
            e.kind == LoweringErrorKind::InvalidStructField(msg) && e.span == span,
    {
        Self::new(LoweringErrorKind::InvalidStructField(msg), span)
    }

    pub fn missing_identifier(span: Span) -> (e: Self)
        ensures
            e.kind == LoweringErrorKind::MissingIdentifier && e.span == span,
    {
        Self::new(LoweringErrorKind::MissingIdentifier, span)
    }

    pub fn invalid_type_expr(msg: String, span: Span) -> (e: Self)
        ensures
            e.kind == LoweringErrorKind::InvalidTypeExpr(msg) && e.span == span,
    {
        Self::new(LoweringErrorKind::InvalidTypeExpr(msg), span)
    }

    pub fn error_code(&self) -> (r: u32)
        ensures
            r == lowering_code(self.kind),
    {
        match &self.kind {
            LoweringErrorKind::UnsupportedNode(_) => 2001,
            LoweringErrorKind::MalformedAst(_) => 2002,
            LoweringErrorKind::UnsupportedClause(_) => 2003,
            LoweringErrorKind::InvalidParameter(_) => 2004,
            LoweringErrorKind::InvalidPattern(_) => 2005,
            LoweringErrorKind::InvalidItemInContext(_) => 2006,
            LoweringErrorKind::InvalidEnumVariant(_) => 2007,
            LoweringErrorKind::InvalidStructField(_) => 2008,
            LoweringErrorKind::MissingIdentifier => 2009,
            LoweringErrorKind::InvalidTypeExpr(_) => 2010,
        }
    }

    pub fn error_name(&self) -> (r: &'static str)
        ensures
            r@ == lowering_name(self.kind),
    {
        match &self.kind {
            LoweringErrorKind::UnsupportedNode(_) => "unsupported AST node",
            LoweringErrorKind::MalformedAst(_) => "malformed AST structure",
            LoweringErrorKind::UnsupportedClause(_) => "unsupported clause",
            LoweringErrorKind::InvalidParameter(_) => "invalid parameter",
            LoweringErrorKind::InvalidPattern(_) => "invalid pattern",
            LoweringErrorKind::InvalidItemInContext(_) => "invalid item in context",
            LoweringErrorKind::InvalidEnumVariant(_) => "invalid enum variant",
            LoweringErrorKind::InvalidStructField(_) => "invalid struct field",
            LoweringErrorKind::MissingIdentifier => "missing identifier",
            LoweringErrorKind::InvalidTypeExpr(_) => "invalid type expression",
        }
    }

    /// The message the error is reported with.
    pub fn message(&self) -> (r: String)
        ensures
            r@ == lowering_message(self.kind),
    {
        match &self.kind {
            LoweringErrorKind::UnsupportedNode(name) => {
                let mut s = prefixed("unsupported AST node `", name);
                push_str(&mut s, "` during lowering");
                s
            },
            LoweringErrorKind::MalformedAst(msg) => prefixed("malformed AST: ", msg),
            LoweringErrorKind::UnsupportedClause(msg) => prefixed("unsupported clause form: ", msg),
            LoweringErrorKind::InvalidParameter(msg) => prefixed("invalid function parameter: ", msg),
            LoweringErrorKind::InvalidPattern(msg) => prefixed("invalid pattern: ", msg),
            LoweringErrorKind::InvalidItemInContext(msg) => prefixed("invalid item in this context: ", msg),
            LoweringErrorKind::InvalidEnumVariant(msg) => prefixed("invalid enum variant: ", msg),
            LoweringErrorKind::InvalidStructField(msg) => prefixed("invalid struct field: ", msg),
            LoweringErrorKind::MissingIdentifier => String::from_str("expected an identifier"),
            LoweringErrorKind::InvalidTypeExpr(msg) => prefixed("invalid type expression: ", msg),
        }
    }

    /// The diagnostic the error is reported as: its message and code, on
    /// its span, labelled with its name.
    pub fn diagnostic(&self) -> (d: Diagnostic)
        ensures
            d.message@ == lowering_message(self.kind),
            d.code == lowering_code(self.kind),
            d.span == self.span,
            d.label@ == lowering_name(self.kind),
            d.help@ == Seq::<char>::empty(),
    {
        Diagnostic {
            message: self.message(),
            code: self.error_code(),
            span: self.span,
            label: String::from_str(self.error_name()),
            help: String::new(),
        }
    }
}

} // verus!
