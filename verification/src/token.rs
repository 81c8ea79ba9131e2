//! The token alphabet produced by the tokenizer and consumed by the parser.

use vstd::prelude::*;
use crate::location::{loc_le, Location};

verus! {

/// A lexical token. Tokens are immutable once produced.
///
/// Besides the language's keywords, operators, delimiters and literals, the
/// alphabet holds the structural markers the tokenizer emits for line layout
/// (`Newline`, `Indent`, `Dedent`, `Comment`, `EndOfFile`) and the three
/// synthetic mode markers injected in front of a token stream to select the
/// grammar's entry point.
#[derive(Clone, Debug, PartialEq)]
pub enum Tok {
    Name { name: String },
    /// Integer literal, kept as its exact digit text so no precision is lost.
    Int { value: String },
    /// Floating literal, kept as its exact source text.
    Float { value: String },
    Str { value: String, is_fstring: bool },
    Newline,
    Indent,
    Dedent,
    Comment,
    EndOfFile,
    Lpar,
    Rpar,
    Lsqb,
    Rsqb,
    Lbrace,
    Rbrace,
    Colon,
    ColonEqual,
    Comma,
    Semi,
    Dot,
    Arrow,
    Equal,
    Plus,
    Minus,
    Star,
    DoubleStar,
    Slash,
    DoubleSlash,
    Percent,
    Vbar,
    Amper,
    Circumflex,
    Tilde,
    LeftShift,
    RightShift,
    Less,
    Greater,
    LessEqual,
    GreaterEqual,
    EqEqual,
    NotEqual,
    And,
    Or,
    Not,
    If,
    Elif,
    Else,
    While,
    For,
    In,
    Is,
    Lambda,
    Pass,
    Break,
    Continue,
    Return,
    Def,
    Class,
    Extends,
    Do,
    Async,
    Await,
    Yield,
    From,
    True,
    False,
    NoneKw,
    StartModule,
    StartInteractive,
    StartExpression,
}

/// A token together with its start and end position in the source.
pub type Spanned = (Location, Tok, Location);

/// The triples are in source order: each token's span is ordered, and no
/// token starts before the previous one ended.
pub open spec fn sorted_spanned(ts: Seq<Spanned>) -> bool {
    (forall|i: int| 0 <= i < ts.len() ==> loc_le((#[trigger] ts[i]).0, ts[i].2)) && (forall|
        i: int,
        j: int,
    |
        0 <= i && i + 1 == j && j < ts.len() ==> loc_le((#[trigger] ts[i]).2, (#[trigger] ts[j]).0))
}

/// What `Tok::text` returns for each token: the surface text a user would
/// recognize it by, used in error messages.
pub open spec fn spec_tok_text(t: Tok) -> Seq<char> {
    match t {
        Tok::Name { name } => name@,
        Tok::Int { value } => value@,
        Tok::Float { value } => value@,
        Tok::Str { value, .. } => value@,
        Tok::Newline => "newline"@,
        Tok::Indent => "indent"@,
        Tok::Dedent => "dedent"@,
        Tok::Comment => "comment"@,
        Tok::EndOfFile => "EOF"@,
        Tok::Lpar => "("@,
        Tok::Rpar => ")"@,
        Tok::Lsqb => "["@,
        Tok::Rsqb => "]"@,
        Tok::Lbrace => "{"@,
        Tok::Rbrace => "}"@,
        Tok::Colon => ":"@,
        Tok::ColonEqual => ":="@,
        Tok::Comma => ","@,
        Tok::Semi => ";"@,
        Tok::Dot => "."@,
        Tok::Arrow => "->"@,
        Tok::Equal => "="@,
        Tok::Plus => "+"@,
        Tok::Minus => "-"@,
        Tok::Star => "*"@,
        Tok::DoubleStar => "**"@,
        Tok::Slash => "/"@,
        Tok::DoubleSlash => "//"@,
        Tok::Percent => "%"@,
        Tok::Vbar => "|"@,
        Tok::Amper => "&"@,
        Tok::Circumflex => "^"@,
        Tok::Tilde => "~"@,
        Tok::LeftShift => "<<"@,
        Tok::RightShift => ">>"@,
        Tok::Less => "<"@,
        Tok::Greater => ">"@,
        Tok::LessEqual => "<="@,
        Tok::GreaterEqual => ">="@,
        Tok::EqEqual => "=="@,
        Tok::NotEqual => "!="@,
        Tok::And => "and"@,
        Tok::Or => "or"@,
        Tok::Not => "not"@,
        Tok::If => "if"@,
        Tok::Elif => "elif"@,
        Tok::Else => "else"@,
        Tok::While => "while"@,
        Tok::For => "for"@,
        Tok::In => "in"@,
        Tok::Is => "is"@,
        Tok::Lambda => "lambda"@,
        Tok::Pass => "pass"@,
        Tok::Break => "break"@,
        Tok::Continue => "continue"@,
        Tok::Return => "return"@,
        Tok::Def => "def"@,
        Tok::Class => "class"@,
        Tok::Extends => "extends"@,
        Tok::Do => "do"@,
        Tok::Async => "async"@,
        Tok::Await => "await"@,
        Tok::Yield => "yield"@,
        Tok::From => "from"@,
        Tok::True => "True"@,
        Tok::False => "False"@,
        Tok::NoneKw => "None"@,
        Tok::StartModule => "start-of-module"@,
        Tok::StartInteractive => "start-of-interactive"@,
        Tok::StartExpression => "start-of-expression"@,
    }
}

impl Tok {
    /// True exactly for the `Indent` structural marker.
    pub fn is_indent(&self) -> (r: bool)
        ensures
            r == (*self matches Tok::Indent),
    {
        match self {
            Tok::Indent => true,
            _ => false,
        }
    }

    /// The surface text of the token, used in user-visible messages.
    pub fn text(&self) -> (r: String)
        ensures
            r@ == spec_tok_text(*self),
    {
        match self {
            Tok::Name { name } => name.clone(),
            Tok::Int { value } => value.clone(),
            Tok::Float { value } => value.clone(),
            Tok::Str { value, .. } => value.clone(),
            Tok::Newline => "newline".to_owned(),
            Tok::Indent => "indent".to_owned(),
            Tok::Dedent => "dedent".to_owned(),
            Tok::Comment => "comment".to_owned(),
            Tok::EndOfFile => "EOF".to_owned(),
            Tok::Lpar => "(".to_owned(),
            Tok::Rpar => ")".to_owned(),
            Tok::Lsqb => "[".to_owned(),
            Tok::Rsqb => "]".to_owned(),
            Tok::Lbrace => "{".to_owned(),
            Tok::Rbrace => "}".to_owned(),
            Tok::Colon => ":".to_owned(),
            Tok::ColonEqual => ":=".to_owned(),
            Tok::Comma => ",".to_owned(),
            Tok::Semi => ";".to_owned(),
            Tok::Dot => ".".to_owned(),
            Tok::Arrow => "->".to_owned(),
            Tok::Equal => "=".to_owned(),
            Tok::Plus => "+".to_owned(),
            Tok::Minus => "-".to_owned(),
            Tok::Star => "*".to_owned(),
            Tok::DoubleStar => "**".to_owned(),
            Tok::Slash => "/".to_owned(),
            Tok::DoubleSlash => "//".to_owned(),
            Tok::Percent => "%".to_owned(),
            Tok::Vbar => "|".to_owned(),
            Tok::Amper => "&".to_owned(),
            Tok::Circumflex => "^".to_owned(),
            Tok::Tilde => "~".to_owned(),
            Tok::LeftShift => "<<".to_owned(),
            Tok::RightShift => ">>".to_owned(),
            Tok::Less => "<".to_owned(),
            Tok::Greater => ">".to_owned(),
            Tok::LessEqual => "<=".to_owned(),
            Tok::GreaterEqual => ">=".to_owned(),
            Tok::EqEqual => "==".to_owned(),
            Tok::NotEqual => "!=".to_owned(),
            Tok::And => "and".to_owned(),
            Tok::Or => "or".to_owned(),
            Tok::Not => "not".to_owned(),
            Tok::If => "if".to_owned(),
            Tok::Elif => "elif".to_owned(),
            Tok::Else => "else".to_owned(),
            Tok::While => "while".to_owned(),
            Tok::For => "for".to_owned(),
            Tok::In => "in".to_owned(),
            Tok::Is => "is".to_owned(),
            Tok::Lambda => "lambda".to_owned(),
            Tok::Pass => "pass".to_owned(),
            Tok::Break => "break".to_owned(),
            Tok::Continue => "continue".to_owned(),
            Tok::Return => "return".to_owned(),
            Tok::Def => "def".to_owned(),
            Tok::Class => "class".to_owned(),
            Tok::Extends => "extends".to_owned(),
            Tok::Do => "do".to_owned(),
            Tok::Async => "async".to_owned(),
            Tok::Await => "await".to_owned(),
            Tok::Yield => "yield".to_owned(),
            Tok::From => "from".to_owned(),
            Tok::True => "True".to_owned(),
            Tok::False => "False".to_owned(),
            Tok::NoneKw => "None".to_owned(),
            Tok::StartModule => "start-of-module".to_owned(),
            Tok::StartInteractive => "start-of-interactive".to_owned(),
            Tok::StartExpression => "start-of-expression".to_owned(),
        }
    }
}

} // verus!
