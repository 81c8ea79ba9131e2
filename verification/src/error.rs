//! The error taxonomy: lexical errors, formatted-string errors, parse errors,
//! and the mapping from the grammar engine's raw failure shape into the
//! closed `ParseErrorType` set.

use vstd::prelude::*;
use crate::location::Location;
use crate::token::{Spanned, Tok, spec_tok_text};
use crate::strutil::{concat2, push_char, push_dec, push_str, spec_dec_digits, str_eq};

verus! {

/// An error detected while scanning source text, with its position.
#[derive(Debug, PartialEq)]
pub struct LexicalError {
    pub error: LexicalErrorType,
    pub location: Location,
}

/// The closed set of tokenizer failures.
#[derive(Debug, PartialEq)]
pub enum LexicalErrorType {
    StringError,
    UnicodeError,
    NestingError,
    IndentationError,
    TabError,
    TabsAfterSpaces,
    DefaultArgumentError,
    PositionalArgumentError,
    DuplicateKeywordArgumentError,
    UnrecognizedToken { tok: char },
    FStringError(FStringErrorType),
    LineContinuationError,
    Eof,
    OtherError(String),
}

/// A failure inside a formatted-string literal, with its position.
#[derive(Debug, PartialEq)]
pub struct FStringError {
    pub error: FStringErrorType,
    pub location: Location,
}

/// The closed set of formatted-string scanning failures.
#[derive(Debug, PartialEq)]
pub enum FStringErrorType {
    UnclosedLbrace,
    UnopenedRbrace,
    ExpectedRbrace,
    InvalidExpression(Box<ParseErrorType>),
    InvalidConversionFlag,
    EmptyExpression,
    MismatchedDelimiter(char, char),
    ExpressionNestedTooDeeply,
    ExpressionCannotInclude(char),
    SingleRbrace,
    Unmatched(char),
    UnterminatedString,
}

/// The closed set of parse failures handed to callers.
#[derive(Debug, PartialEq)]
pub enum ParseErrorType {
    /// The parser ran into an unexpected end of input.
    Eof,
    /// The parser found a token after the input should have ended.
    ExtraToken(Tok),
    /// The parser found a token no rule could start with.
    InvalidToken,
    /// The parser found an unexpected token; when exactly one alternative
    /// was possible, its name is kept.
    UnrecognizedToken(Tok, Option<String>),
    /// A tokenizer failure surfacing through the parser.
    Lexical(LexicalErrorType),
}

/// The single-line, user-visible message for each lexical failure.
pub open spec fn spec_lexical_message(e: LexicalErrorType) -> Seq<char>
    decreases e,
{
    match e {
        LexicalErrorType::StringError => "Got unexpected string"@,
        LexicalErrorType::FStringError(err) => "Got error in f-string: "@ + spec_fstring_message(
            err,
        ),
        LexicalErrorType::UnicodeError => "Got unexpected unicode"@,
        LexicalErrorType::NestingError => "Got unexpected nesting"@,
        LexicalErrorType::IndentationError => "unindent does not match any outer indentation level"@,
        LexicalErrorType::TabError => "inconsistent use of tabs and spaces in indentation"@,
        LexicalErrorType::TabsAfterSpaces => "Tabs not allowed as part of indentation after spaces"@,
        LexicalErrorType::DefaultArgumentError => "non-default argument follows default argument"@,
        LexicalErrorType::DuplicateKeywordArgumentError => "keyword argument repeated"@,
        LexicalErrorType::PositionalArgumentError => "positional argument follows keyword argument"@,
        LexicalErrorType::UnrecognizedToken { tok } => "Got unexpected token "@.push(tok),
        LexicalErrorType::LineContinuationError => "unexpected character after line continuation character"@,
        LexicalErrorType::Eof => "unexpected EOF while parsing"@,
        LexicalErrorType::OtherError(msg) => msg@,
    }
}

/// The single-line, user-visible message for each formatted-string failure.
pub open spec fn spec_fstring_message(e: FStringErrorType) -> Seq<char>
    decreases e,
{
    match e {
        FStringErrorType::UnclosedLbrace => "expecting '}'"@,
        FStringErrorType::UnopenedRbrace => "Unopened '}'"@,
        FStringErrorType::ExpectedRbrace => "Expected '}' after conversion flag."@,
        FStringErrorType::InvalidExpression(err) => spec_parse_message(*err),
        FStringErrorType::InvalidConversionFlag => "invalid conversion character"@,
        FStringErrorType::EmptyExpression => "empty expression not allowed"@,
        FStringErrorType::MismatchedDelimiter(first, second) => "closing parenthesis '"@.push(
            second,
        ) + "' does not match opening parenthesis '"@.push(first) + "'"@,
        FStringErrorType::SingleRbrace => "single '}' is not allowed"@,
        FStringErrorType::Unmatched(delim) => "unmatched '"@.push(delim) + "'"@,
        FStringErrorType::ExpressionNestedTooDeeply => "expressions nested too deeply"@,
        FStringErrorType::UnterminatedString => "unterminated string"@,
        FStringErrorType::ExpressionCannotInclude(c) => if c == '\\' {
            "f-string expression part cannot include a backslash"@
        } else {
            "f-string expression part cannot include '"@.push(c) + "'s"@
        },
    }
}

/// The single-line, user-visible message for each parse failure.
pub open spec fn spec_parse_message(e: ParseErrorType) -> Seq<char>
    decreases e,
{
    match e {
        ParseErrorType::Eof => "Got unexpected EOF"@,
        ParseErrorType::ExtraToken(tok) => "Got extraneous token: "@ + spec_tok_text(tok),
        ParseErrorType::InvalidToken => "Got invalid token"@,
        ParseErrorType::UnrecognizedToken(tok, expected) => if (tok matches Tok::Indent) {
            "unexpected indent"@
        } else if expected matches Some(s) && s@ == "Indent"@ {
            "expected an indented block"@
        } else {
            "invalid syntax. Got unexpected token "@ + spec_tok_text(tok)
        },
        ParseErrorType::Lexical(err) => spec_lexical_message(err),
    }
}

impl LexicalErrorType {
    /// The user-visible message for this failure.
    pub fn message(&self) -> (r: String)
        ensures
            r@ == spec_lexical_message(*self),
        decreases *self,
    {
        match self {
            LexicalErrorType::StringError => "Got unexpected string".to_owned(),
            LexicalErrorType::FStringError(err) => {
                let inner = err.message();
                concat2("Got error in f-string: ", inner.as_str())
            },
            LexicalErrorType::UnicodeError => "Got unexpected unicode".to_owned(),
            LexicalErrorType::NestingError => "Got unexpected nesting".to_owned(),
            LexicalErrorType::IndentationError => "unindent does not match any outer indentation level".to_owned(),
            LexicalErrorType::TabError => "inconsistent use of tabs and spaces in indentation".to_owned(),
            LexicalErrorType::TabsAfterSpaces => "Tabs not allowed as part of indentation after spaces".to_owned(),
            LexicalErrorType::DefaultArgumentError => "non-default argument follows default argument".to_owned(),
            LexicalErrorType::DuplicateKeywordArgumentError => "keyword argument repeated".to_owned(),
            LexicalErrorType::PositionalArgumentError => "positional argument follows keyword argument".to_owned(),
            LexicalErrorType::UnrecognizedToken { tok } => {
                let mut s = "Got unexpected token ".to_owned();
                push_char(&mut s, *tok);
                s
            },
            LexicalErrorType::LineContinuationError => "unexpected character after line continuation character".to_owned(),
            LexicalErrorType::Eof => "unexpected EOF while parsing".to_owned(),
            LexicalErrorType::OtherError(msg) => msg.clone(),
        }
    }
}

impl FStringErrorType {
    /// The user-visible message for this failure.
    pub fn message(&self) -> (r: String)
        ensures
            r@ == spec_fstring_message(*self),
        decreases *self,
    {
        match self {
            FStringErrorType::UnclosedLbrace => "expecting '}'".to_owned(),
            FStringErrorType::UnopenedRbrace => "Unopened '}'".to_owned(),
            FStringErrorType::ExpectedRbrace => "Expected '}' after conversion flag.".to_owned(),
            FStringErrorType::InvalidExpression(err) => err.message(),
            FStringErrorType::InvalidConversionFlag => "invalid conversion character".to_owned(),
            FStringErrorType::EmptyExpression => "empty expression not allowed".to_owned(),
            FStringErrorType::MismatchedDelimiter(first, second) => {
                let mut s = "closing parenthesis '".to_owned();
                push_char(&mut s, *second);
                crate::strutil::push_str(&mut s, "' does not match opening parenthesis '");
                push_char(&mut s, *first);
                crate::strutil::push_str(&mut s, "'");
                s
            },
            FStringErrorType::SingleRbrace => "single '}' is not allowed".to_owned(),
            FStringErrorType::Unmatched(delim) => {
                let mut s = "unmatched '".to_owned();
                push_char(&mut s, *delim);
                crate::strutil::push_str(&mut s, "'");
                s
            },
            FStringErrorType::ExpressionNestedTooDeeply => "expressions nested too deeply".to_owned(),
            FStringErrorType::UnterminatedString => "unterminated string".to_owned(),
            FStringErrorType::ExpressionCannotInclude(c) => {
                if *c == '\\' {
                    "f-string expression part cannot include a backslash".to_owned()
                } else {
                    let mut s = "f-string expression part cannot include '".to_owned();
                    push_char(&mut s, *c);
                    crate::strutil::push_str(&mut s, "'s");
                    s
                }
            },
        }
    }
}

impl ParseErrorType {
    /// The user-visible message for this failure.
    pub fn message(&self) -> (r: String)
        ensures
            r@ == spec_parse_message(*self),
        decreases *self,
    {
        match self {
            ParseErrorType::Eof => "Got unexpected EOF".to_owned(),
            ParseErrorType::ExtraToken(tok) => {
                let text = tok.text();
                concat2("Got extraneous token: ", text.as_str())
            },
            ParseErrorType::InvalidToken => "Got invalid token".to_owned(),
            ParseErrorType::UnrecognizedToken(tok, expected) => {
                if tok.is_indent() {
                    "unexpected indent".to_owned()
                } else {
                    let expects_indent = match expected {
                        Some(s) => str_eq(s.as_str(), "Indent"),
                        None => false,
                    };
                    if expects_indent {
                        "expected an indented block".to_owned()
                    } else {
                        let text = tok.text();
                        concat2("invalid syntax. Got unexpected token ", text.as_str())
                    }
                }
            },
            ParseErrorType::Lexical(err) => err.message(),
        }
    }

    /// True exactly when the failure is an indentation problem: a lexical
    /// `IndentationError`, or an unrecognized `Indent` token, or an
    /// unrecognized token whose single expected alternative is named
    /// "Indent".
    pub fn is_indentation_error(&self) -> (r: bool)
        ensures
            r == spec_is_indentation_error(*self),
    {
        match self {
            ParseErrorType::Lexical(LexicalErrorType::IndentationError) => true,
            ParseErrorType::UnrecognizedToken(token, expected) => {
                if token.is_indent() {
                    true
                } else {
                    match expected {
                        Some(s) => str_eq(s.as_str(), "Indent"),
                        None => false,
                    }
                }
            },
            _ => false,
        }
    }

    /// True exactly for the two tab-related lexical failures.
    pub fn is_tab_error(&self) -> (r: bool)
        ensures
            r == spec_is_tab_error(*self),
    {
        match self {
            ParseErrorType::Lexical(LexicalErrorType::TabError) => true,
            ParseErrorType::Lexical(LexicalErrorType::TabsAfterSpaces) => true,
            _ => false,
        }
    }
}

/// What `is_indentation_error` returns.
pub open spec fn spec_is_indentation_error(e: ParseErrorType) -> bool {
    match e {
        ParseErrorType::Lexical(LexicalErrorType::IndentationError) => true,
        ParseErrorType::UnrecognizedToken(token, expected) => (token matches Tok::Indent) || (
        expected matches Some(s) && s@ == "Indent"@),
        _ => false,
    }
}

/// What `is_tab_error` returns.
pub open spec fn spec_is_tab_error(e: ParseErrorType) -> bool {
    e matches ParseErrorType::Lexical(err) && (err matches LexicalErrorType::TabError
        || err matches LexicalErrorType::TabsAfterSpaces)
}

/// An error kind together with its position and the name of the source unit,
/// the shape every failure leaves the library in.
#[derive(Debug, PartialEq)]
pub struct BaseError<T> {
    pub error: T,
    pub location: Location,
    pub source_path: String,
}

impl<T> BaseError<T> {
    /// Gives up the wrapper and hands back the inner error kind.
    pub fn error(self) -> (r: T)
        ensures
            r == self.error,
    {
        self.error
    }
}

impl BaseError<ParseErrorType> {
    /// Lifts a lexical failure into the broader parse-failure taxonomy,
    /// keeping its position and source name.
    pub fn from(obj: BaseError<LexicalErrorType>) -> (r: Self)
        ensures
            r.error == ParseErrorType::Lexical(obj.error),
            r.location == obj.location,
            r.source_path == obj.source_path,
    {
        BaseError {
            error: ParseErrorType::Lexical(obj.error),
            location: obj.location,
            source_path: obj.source_path,
        }
    }
}

impl BaseError<LexicalErrorType> {
    /// The inverse direction of `BaseError::from`, for callers that hold the
    /// narrower wrapper.
    pub fn into(self) -> (r: BaseError<ParseErrorType>)
        ensures
            r.error == ParseErrorType::Lexical(self.error),
            r.location == self.location,
            r.source_path == self.source_path,
    {
        BaseError::from(self)
    }
}

impl BaseError<ParseErrorType> {
    /// The full user-facing rendering of a parse failure:
    /// `<message> at <source_path>:<row>:<column>`.
    pub fn display_string(&self) -> (r: String)
        ensures
            r@ == spec_parse_message(self.error) + " at "@ + self.source_path@ + ":"@
                + spec_dec_digits(self.location.row as nat) + ":"@ + spec_dec_digits(
                self.location.column as nat,
            ),
    {
        let mut s = self.error.message();
        push_str(&mut s, " at ");
        push_str(&mut s, self.source_path.as_str());
        push_str(&mut s, ":");
        push_dec(&mut s, self.location.row);
        push_str(&mut s, ":");
        push_dec(&mut s, self.location.column);
        s
    }
}

impl BaseError<LexicalErrorType> {
    /// The full user-facing rendering of a lexical failure:
    /// `<message> at <source_path>:<row>:<column>`.
    pub fn display_string(&self) -> (r: String)
        ensures
            r@ == spec_lexical_message(self.error) + " at "@ + self.source_path@ + ":"@
                + spec_dec_digits(self.location.row as nat) + ":"@ + spec_dec_digits(
                self.location.column as nat,
            ),
    {
        let mut s = self.error.message();
        push_str(&mut s, " at ");
        push_str(&mut s, self.source_path.as_str());
        push_str(&mut s, ":");
        push_dec(&mut s, self.location.row);
        push_str(&mut s, ":");
        push_dec(&mut s, self.location.column);
        s
    }
}

/// An error during parsing, as handed to the library's callers.
pub type ParseError = BaseError<ParseErrorType>;

/// The grammar engine's raw failure shape. The parser reports failures in
/// this vocabulary; `parse_error_from_engine` maps them into the
/// closed `ParseErrorType` set before they leave the library.
#[derive(Debug, PartialEq)]
pub enum EngineError {
    /// A token no rule could start with.
    InvalidToken { location: Location },
    /// Input ended where a rule still expected tokens.
    UnrecognizedEof { location: Location },
    /// A token that fits no continuation, with the names of the alternatives
    /// that would have been accepted in its place.
    UnrecognizedToken { token: Spanned, expected: Vec<String> },
    /// A token left over after the entry rule was complete.
    ExtraToken { token: Spanned },
    /// A tokenizer failure surfacing mid-parse.
    User { error: LexicalError },
}

impl FStringError {
    /// Wraps a formatted-string failure as the engine's lexical failure
    /// shape, so an embedded parse can abort the enclosing one.
    pub fn into_engine_error(self) -> (r: EngineError)
        ensures
            r == (EngineError::User {
                error: LexicalError {
                    error: LexicalErrorType::FStringError(self.error),
                    location: self.location,
                },
            }),
    {
        EngineError::User {
            error: LexicalError {
                error: LexicalErrorType::FStringError(self.error),
                location: self.location,
            },
        }
    }
}

/// The column one to the right of `c`, pointing at the gap where a token was
/// expected rather than at the token itself.
pub open spec fn spec_bump_column(c: u32) -> u32 {
    if c == u32::MAX {
        c
    } else {
        (c + 1) as u32
    }
}

/// The error kind and position that `parse_error_from_engine` produces for a
/// raw engine failure. An unrecognized token with exactly one expected
/// alternative keeps that alternative's name; any other count keeps none,
/// and its position is bumped one column right of the offending token.
pub open spec fn spec_engine_outcome(err: EngineError) -> (ParseErrorType, Location) {
    match err {
        EngineError::InvalidToken { location } => (ParseErrorType::Eof, location),
        EngineError::UnrecognizedEof { location } => (ParseErrorType::Eof, location),
        EngineError::ExtraToken { token } => (ParseErrorType::ExtraToken(token.1), token.0),
        EngineError::User { error } => (ParseErrorType::Lexical(error.error), error.location),
        EngineError::UnrecognizedToken { token, expected } => (
            ParseErrorType::UnrecognizedToken(
                token.1,
                if expected@.len() == 1 {
                    Some(expected@[0])
                } else {
                    None
                },
            ),
            Location { row: token.0.row, column: spec_bump_column(token.0.column) },
        ),
    }
}

/// Maps the grammar engine's raw failure shape into the library's
/// closed parse-failure set, tagging it with the source unit's name.
pub fn parse_error_from_engine(err: EngineError, source_path: &str) -> (r: ParseError)
    ensures
        r.error == spec_engine_outcome(err).0,
        r.location == spec_engine_outcome(err).1,
        r.source_path@ == source_path@,
{
    let source_path = source_path.to_owned();
    match err {
        EngineError::InvalidToken { location } => BaseError {
            error: ParseErrorType::Eof,
            location,
            source_path,
        },
        EngineError::UnrecognizedEof { location } => BaseError {
            error: ParseErrorType::Eof,
            location,
            source_path,
        },
        EngineError::ExtraToken { token } => BaseError {
            error: ParseErrorType::ExtraToken(token.1),
            location: token.0,
            source_path,
        },
        EngineError::User { error } => BaseError {
            error: ParseErrorType::Lexical(error.error),
            location: error.location,
            source_path,
        },
        EngineError::UnrecognizedToken { token, expected } => {
            let mut expected = expected;
            let narrowed: Option<String> = if expected.len() == 1 {
                Some(expected.remove(0))
            } else {
                None
            };
            let column = if token.0.column == u32::MAX {
                token.0.column
            } else {
                token.0.column + 1
            };
            BaseError {
                error: ParseErrorType::UnrecognizedToken(token.1, narrowed),
                location: Location { row: token.0.row, column },
                source_path,
            }
        },
    }
}

} // verus!
