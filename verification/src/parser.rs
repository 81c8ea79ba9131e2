//! The grammar-driven parser: consumes the token sequence under a selected
//! entry mode and builds the AST, carrying every failure into the
//! library's closed error set.
//!
//! Parsing is a deterministic descent over the token stream. Every parsing
//! step keeps two books: the stream only ever shrinks from the front, and —
//! when the stream's positions are in source order — every node built has
//! its span in order too, which is how the location-monotonicity invariant
//! of the whole tree is proved.

use vstd::prelude::*;
use crate::ast::{
    expr_wf, mod_wf, rightmost_path_ok, stmt_rightmost_path_ok, stmt_wf, suite_wf,
    Arg, Arguments, BoolOpKind, CmpOp, Comprehension, Constant, ConversionFlag, DoMode, Expr,
    ExprKind, Keyword, Mod, NoCustom, Operator, Stmt, StmtKind, UnaryOpKind,
};
use crate::error::{EngineError, LexicalError, ParseError, ParseErrorType};
use crate::lexer::LexResult;
use crate::location::{loc_le, Location};
use crate::mode::Mode;
use crate::token::{sorted_spanned, Spanned, Tok};

verus! {

/// The discriminant of a token, used for matching and for one-token
/// lookahead without touching the payloads.
#[derive(Copy, Clone, Debug, PartialEq, Eq, Structural)]
pub(crate) enum TokTag {
    Name,
    Int,
    Float,
    Str,
    Newline,
    Indent,
    Dedent,
    Comment,
    EndOfFile,
    Lpar,
    Rpar,
    Lsqb,
    Rsqb,
    Lbrace,
    Rbrace,
    Colon,
    ColonEqual,
    Comma,
    Semi,
    Dot,
    Arrow,
    Equal,
    Plus,
    Minus,
    Star,
    DoubleStar,
    Slash,
    DoubleSlash,
    Percent,
    Vbar,
    Amper,
    Circumflex,
    Tilde,
    LeftShift,
    RightShift,
    Less,
    Greater,
    LessEqual,
    GreaterEqual,
    EqEqual,
    NotEqual,
    And,
    Or,
    Not,
    If,
    Elif,
    Else,
    While,
    For,
    In,
    Is,
    Lambda,
    Pass,
    Break,
    Continue,
    Return,
    Def,
    Class,
    Extends,
    Do,
    Async,
    Await,
    Yield,
    From,
    True,
    False,
    NoneKw,
    StartModule,
    StartInteractive,
    StartExpression,
    /// The stream is exhausted.
    Missing,
}

pub(crate) open spec fn tag_of(t: Tok) -> TokTag {
    match t {
        Tok::Name { .. } => TokTag::Name,
        Tok::Int { .. } => TokTag::Int,
        Tok::Float { .. } => TokTag::Float,
        Tok::Str { .. } => TokTag::Str,
        Tok::Newline => TokTag::Newline,
        Tok::Indent => TokTag::Indent,
        Tok::Dedent => TokTag::Dedent,
        Tok::Comment => TokTag::Comment,
        Tok::EndOfFile => TokTag::EndOfFile,
        Tok::Lpar => TokTag::Lpar,
        Tok::Rpar => TokTag::Rpar,
        Tok::Lsqb => TokTag::Lsqb,
        Tok::Rsqb => TokTag::Rsqb,
        Tok::Lbrace => TokTag::Lbrace,
        Tok::Rbrace => TokTag::Rbrace,
        Tok::Colon => TokTag::Colon,
        Tok::ColonEqual => TokTag::ColonEqual,
        Tok::Comma => TokTag::Comma,
        Tok::Semi => TokTag::Semi,
        Tok::Dot => TokTag::Dot,
        Tok::Arrow => TokTag::Arrow,
        Tok::Equal => TokTag::Equal,
        Tok::Plus => TokTag::Plus,
        Tok::Minus => TokTag::Minus,
        Tok::Star => TokTag::Star,
        Tok::DoubleStar => TokTag::DoubleStar,
        Tok::Slash => TokTag::Slash,
        Tok::DoubleSlash => TokTag::DoubleSlash,
        Tok::Percent => TokTag::Percent,
        Tok::Vbar => TokTag::Vbar,
        Tok::Amper => TokTag::Amper,
        Tok::Circumflex => TokTag::Circumflex,
        Tok::Tilde => TokTag::Tilde,
        Tok::LeftShift => TokTag::LeftShift,
        Tok::RightShift => TokTag::RightShift,
        Tok::Less => TokTag::Less,
        Tok::Greater => TokTag::Greater,
        Tok::LessEqual => TokTag::LessEqual,
        Tok::GreaterEqual => TokTag::GreaterEqual,
        Tok::EqEqual => TokTag::EqEqual,
        Tok::NotEqual => TokTag::NotEqual,
        Tok::And => TokTag::And,
        Tok::Or => TokTag::Or,
        Tok::Not => TokTag::Not,
        Tok::If => TokTag::If,
        Tok::Elif => TokTag::Elif,
        Tok::Else => TokTag::Else,
        Tok::While => TokTag::While,
        Tok::For => TokTag::For,
        Tok::In => TokTag::In,
        Tok::Is => TokTag::Is,
        Tok::Lambda => TokTag::Lambda,
        Tok::Pass => TokTag::Pass,
        Tok::Break => TokTag::Break,
        Tok::Continue => TokTag::Continue,
        Tok::Return => TokTag::Return,
        Tok::Def => TokTag::Def,
        Tok::Class => TokTag::Class,
        Tok::Extends => TokTag::Extends,
        Tok::Do => TokTag::Do,
        Tok::Async => TokTag::Async,
        Tok::Await => TokTag::Await,
        Tok::Yield => TokTag::Yield,
        Tok::From => TokTag::From,
        Tok::True => TokTag::True,
        Tok::False => TokTag::False,
        Tok::NoneKw => TokTag::NoneKw,
        Tok::StartModule => TokTag::StartModule,
        Tok::StartInteractive => TokTag::StartInteractive,
        Tok::StartExpression => TokTag::StartExpression,
    }
}

pub(crate) fn tag_of_tok(t: &Tok) -> (r: TokTag)
    ensures
        r == tag_of(*t),
{
    match t {
        Tok::Name { .. } => TokTag::Name,
        Tok::Int { .. } => TokTag::Int,
        Tok::Float { .. } => TokTag::Float,
        Tok::Str { .. } => TokTag::Str,
        Tok::Newline => TokTag::Newline,
        Tok::Indent => TokTag::Indent,
        Tok::Dedent => TokTag::Dedent,
        Tok::Comment => TokTag::Comment,
        Tok::EndOfFile => TokTag::EndOfFile,
        Tok::Lpar => TokTag::Lpar,
        Tok::Rpar => TokTag::Rpar,
        Tok::Lsqb => TokTag::Lsqb,
        Tok::Rsqb => TokTag::Rsqb,
        Tok::Lbrace => TokTag::Lbrace,
        Tok::Rbrace => TokTag::Rbrace,
        Tok::Colon => TokTag::Colon,
        Tok::ColonEqual => TokTag::ColonEqual,
        Tok::Comma => TokTag::Comma,
        Tok::Semi => TokTag::Semi,
        Tok::Dot => TokTag::Dot,
        Tok::Arrow => TokTag::Arrow,
        Tok::Equal => TokTag::Equal,
        Tok::Plus => TokTag::Plus,
        Tok::Minus => TokTag::Minus,
        Tok::Star => TokTag::Star,
        Tok::DoubleStar => TokTag::DoubleStar,
        Tok::Slash => TokTag::Slash,
        Tok::DoubleSlash => TokTag::DoubleSlash,
        Tok::Percent => TokTag::Percent,
        Tok::Vbar => TokTag::Vbar,
        Tok::Amper => TokTag::Amper,
        Tok::Circumflex => TokTag::Circumflex,
        Tok::Tilde => TokTag::Tilde,
        Tok::LeftShift => TokTag::LeftShift,
        Tok::RightShift => TokTag::RightShift,
        Tok::Less => TokTag::Less,
        Tok::Greater => TokTag::Greater,
        Tok::LessEqual => TokTag::LessEqual,
        Tok::GreaterEqual => TokTag::GreaterEqual,
        Tok::EqEqual => TokTag::EqEqual,
        Tok::NotEqual => TokTag::NotEqual,
        Tok::And => TokTag::And,
        Tok::Or => TokTag::Or,
        Tok::Not => TokTag::Not,
        Tok::If => TokTag::If,
        Tok::Elif => TokTag::Elif,
        Tok::Else => TokTag::Else,
        Tok::While => TokTag::While,
        Tok::For => TokTag::For,
        Tok::In => TokTag::In,
        Tok::Is => TokTag::Is,
        Tok::Lambda => TokTag::Lambda,
        Tok::Pass => TokTag::Pass,
        Tok::Break => TokTag::Break,
        Tok::Continue => TokTag::Continue,
        Tok::Return => TokTag::Return,
        Tok::Def => TokTag::Def,
        Tok::Class => TokTag::Class,
        Tok::Extends => TokTag::Extends,
        Tok::Do => TokTag::Do,
        Tok::Async => TokTag::Async,
        Tok::Await => TokTag::Await,
        Tok::Yield => TokTag::Yield,
        Tok::From => TokTag::From,
        Tok::True => TokTag::True,
        Tok::False => TokTag::False,
        Tok::NoneKw => TokTag::NoneKw,
        Tok::StartModule => TokTag::StartModule,
        Tok::StartInteractive => TokTag::StartInteractive,
        Tok::StartExpression => TokTag::StartExpression,
    }
}

/// The parser's working state: the unconsumed tokens, the lexical error
/// that ended the stream (if one did), the end of the last consumed token,
/// and the remaining embedding depth for formatted-string sub-parses.
pub(crate) struct Parser {
    pub(crate) toks: Vec<Spanned>,
    pub(crate) pending: Option<LexicalError>,
    pub(crate) last: Location,
    pub(crate) depth: u32,
}

impl Parser {
    /// The stream's positions are in source order, and continue from the
    /// last consumed token.
    pub(crate) open spec fn inv(self) -> bool {
        sorted_spanned(self.toks@) && (self.toks@.len() > 0 ==> loc_le(
            self.last,
            self.toks@[0].0,
        ))
    }

    /// The position nothing later in the stream precedes: the next token's
    /// start, or where input ended.
    pub(crate) open spec fn low(self) -> Location {
        if self.toks@.len() > 0 {
            self.toks@[0].0
        } else {
            self.last
        }
    }

    pub(crate) open spec fn n(self) -> int {
        self.toks@.len() as int
    }
}

/// What every parsing step keeps: the stream only shrinks, the embedding
/// depth stands, and an ordered stream stays ordered while the low-water
/// position moves forward.
pub(crate) open spec fn steps(pre: Parser, post: Parser) -> bool {
    &&& post.depth == pre.depth
    &&& post.toks@.len() <= pre.toks@.len()
    &&& (pre.inv() ==> post.inv() && loc_le(pre.low(), post.low()))
}

/// A well-formed expression whose own span sits between the stream
/// positions a step started and ended at.
pub(crate) open spec fn expr_between(pre: Parser, post: Parser, e: Expr) -> bool {
    &&& expr_wf(e)
    &&& loc_le(pre.low(), e.location)
    &&& e.end_location matches Some(x) && loc_le(x, post.low())
}

/// A well-formed statement whose own span sits between the stream
/// positions a step started and ended at.
pub(crate) open spec fn stmt_between(pre: Parser, post: Parser, s: Stmt) -> bool {
    &&& stmt_wf(s)
    &&& loc_le(pre.low(), s.location)
    &&& s.end_location matches Some(x) && loc_le(x, post.low())
}

/// A non-empty, well-formed statement block sitting between the stream
/// positions a step started and ended at.
pub(crate) open spec fn suite_between(pre: Parser, post: Parser, b: Seq<Stmt>) -> bool {
    &&& b.len() >= 1
    &&& forall|i: int| 0 <= i < b.len() ==> stmt_wf(#[trigger] b[i])
    &&& loc_le(pre.low(), b[0].location)
    &&& b.last().end_location matches Some(x) && loc_le(b[0].location, x) && loc_le(
        x,
        post.low(),
    )
}

impl Parser {
    /// Consumes the front token.
    fn bump(&mut self) -> (t: Spanned)
        requires
            old(self).toks@.len() > 0,
        ensures
            t == old(self).toks@[0],
            final(self).toks@ == old(self).toks@.subrange(1, old(self).toks@.len() as int),
            final(self).last == t.2,
            final(self).depth == old(self).depth,
            final(self).pending == old(self).pending,
            steps(*old(self), *final(self)),
            old(self).inv() ==> loc_le(t.0, t.2) && loc_le(old(self).low(), t.0) && loc_le(
                t.2,
                final(self).low(),
            ),
    {
        let t = self.toks.remove(0);
        self.last = t.2;
        proof {
            assert(self.toks@ =~= old(self).toks@.subrange(1, old(self).toks@.len() as int));
            if old(self).inv() {
                assert forall|i: int| 0 <= i < self.toks@.len() implies #[trigger] self.toks@[i]
                    == old(self).toks@[i + 1] by {}
            }
        }
        t
    }

    /// The discriminant of the front token, or `Missing` at stream end.
    pub(crate) open spec fn peek_tag(self) -> TokTag {
        if self.toks@.len() > 0 {
            tag_of(self.toks@[0].1)
        } else {
            TokTag::Missing
        }
    }

    /// The discriminant of the second token, or `Missing`.
    pub(crate) open spec fn peek_tag2(self) -> TokTag {
        if self.toks@.len() > 1 {
            tag_of(self.toks@[1].1)
        } else {
            TokTag::Missing
        }
    }

    fn peek(&self) -> (r: TokTag)
        ensures
            r == self.peek_tag(),
    {
        if self.toks.len() > 0 {
            tag_of_tok(&self.toks[0].1)
        } else {
            TokTag::Missing
        }
    }

    fn peek2(&self) -> (r: TokTag)
        ensures
            r == self.peek_tag2(),
    {
        if self.toks.len() > 1 {
            tag_of_tok(&self.toks[1].1)
        } else {
            TokTag::Missing
        }
    }

    /// The failure to report when a token was needed and the stream had
    /// ended: the lexical error that cut the stream short, or an
    /// unexpected end of input at the last position.
    fn take_end_error(&mut self) -> (r: EngineError)
        ensures
            final(self).toks == old(self).toks,
            final(self).last == old(self).last,
            final(self).depth == old(self).depth,
            steps(*old(self), *final(self)),
            old(self).pending matches Some(e) ==> r == (EngineError::User { error: e }),
            old(self).pending is None ==> r == (EngineError::UnrecognizedEof {
                location: old(self).last,
            }),
    {
        let mut taken: Option<LexicalError> = Option::None;
        core::mem::swap(&mut self.pending, &mut taken);
        match taken {
            Some(e) => EngineError::User { error: e },
            Option::None => EngineError::UnrecognizedEof { location: self.last },
        }
    }

    /// Consumes the front token, which must carry the wanted discriminant;
    /// otherwise fails, naming `name` as the one expected alternative.
    fn expect(&mut self, tag: TokTag, name: &str) -> (r: Result<Spanned, EngineError>)
        ensures
            steps(*old(self), *final(self)),
            r matches Ok(t) ==> old(self).toks@.len() > 0 && t == old(self).toks@[0] && tag_of(t.1)
                == tag && final(self).toks@.len() < old(self).toks@.len() && final(self).last
                == t.2 && (old(self).inv() ==> loc_le(t.0, t.2) && loc_le(old(self).low(), t.0)
                && loc_le(t.2, final(self).low())),
            r matches Err(e) ==> (e matches EngineError::UnrecognizedToken {
                token,
                expected,
            } ==> expected@.len() == 1 && expected@[0]@ == name@),
            old(self).toks@.len() > 0 && tag_of(old(self).toks@[0].1) == tag ==> r is Ok,
    {
        if self.toks.len() == 0 {
            return Err(self.take_end_error());
        }
        let t = self.bump();
        if tag_of_tok(&t.1) == tag {
            Ok(t)
        } else {
            let mut expected: Vec<String> = Vec::new();
            expected.push(name.to_owned());
            Err(EngineError::UnrecognizedToken { token: t, expected })
        }
    }
}

/// The end position to continue from after a sub-expression: its end where
/// it has one, else its start (synthetic nodes).
fn end_of(e: &Expr) -> (r: Location)
    ensures
        e.end_location matches Some(x) ==> r == x,
{
    match e.end_location {
        Some(x) => x,
        Option::None => e.location,
    }
}

/// Whether a token of this discriminant can begin an expression.
fn tag_starts_expr(tag: TokTag) -> bool {
    tag == TokTag::Name || tag == TokTag::Int || tag == TokTag::Float || tag == TokTag::Str || tag
        == TokTag::True || tag == TokTag::False || tag == TokTag::NoneKw || tag == TokTag::Lpar
        || tag == TokTag::Lsqb || tag == TokTag::Lbrace || tag == TokTag::Minus || tag
        == TokTag::Plus || tag == TokTag::Tilde || tag == TokTag::Not || tag == TokTag::Lambda
        || tag == TokTag::Await || tag == TokTag::Star
}

/// Whether the collected keyword arguments already name `name`.
fn has_kwarg(keywords: &Vec<Keyword>, name: &String) -> (r: bool)
    ensures
        r == exists|i: int|
            0 <= i < keywords@.len() && ((#[trigger] keywords@[i]).arg matches Some(s) && s@
                == name@),
{
    let n = keywords.len();
    let mut i: usize = 0;
    let mut found = false;
    while i < n
        invariant
            i <= n,
            n == keywords@.len(),
            found == exists|k: int|
                0 <= k < i && ((#[trigger] keywords@[k]).arg matches Some(s) && s@ == name@),
        decreases n - i,
    {
        match &keywords[i].arg {
            Some(s) => {
                if crate::strutil::str_eq(s.as_str(), name.as_str()) {
                    found = true;
                }
            },
            Option::None => {},
        }
        i = i + 1;
    }
    found
}

impl Parser {
    /// A conditional expression or lambda.
    #[verifier::loop_isolation(false)]
    fn parse_test(&mut self) -> (r: Result<Expr, EngineError>)
        ensures
            steps(*old(self), *final(self)),
            r matches Ok(e) ==> final(self).toks@.len() < old(self).toks@.len()
                && rightmost_path_ok(e),
            r matches Ok(e) ==> old(self).inv() ==> expr_between(*old(self), *final(self), e),
            leaf_then_end(*old(self)) ==> ((r matches Ok(e)) && r->Ok_0 == leaf_expr(
                old(self).toks@[0],
            ) && final(self).toks@ == old(self).toks@.subrange(1, 2)),
        decreases self.depth, self.toks@.len(), 27int,
    {
        if self.peek() == TokTag::Lambda {
            return self.parse_lambda();
        }
        let body = self.parse_or_test()?;
        if self.peek() == TokTag::If {
            let _ift = self.bump();
            let test = self.parse_or_test()?;
            let _elt = self.expect(TokTag::Else, "else")?;
            let orelse = self.parse_test()?;
            let end = end_of(&orelse);
            Ok(
                Expr {
                    location: body.location,
                    end_location: Some(end),
                    custom: NoCustom,
                    node: ExprKind::IfExp {
                        test: Box::new(test),
                        body: Box::new(body),
                        orelse: Box::new(orelse),
                    },
                },
            )
        } else {
            Ok(body)
        }
    }

    /// A lambda expression: `lambda` parameters `:` body.
    #[verifier::loop_isolation(false)]
    fn parse_lambda(&mut self) -> (r: Result<Expr, EngineError>)
        ensures
            steps(*old(self), *final(self)),
            r matches Ok(e) ==> final(self).toks@.len() < old(self).toks@.len()
                && rightmost_path_ok(e),
            r matches Ok(e) ==> old(self).inv() ==> expr_between(*old(self), *final(self), e),
        decreases self.depth, self.toks@.len(), 26int,
    {
        let kw = self.expect(TokTag::Lambda, "lambda")?;
        let args = self.parse_params()?;
        let _c = self.expect(TokTag::Colon, ":")?;
        let body = self.parse_test()?;
        let end = end_of(&body);
        Ok(
            Expr {
                location: kw.0,
                end_location: Some(end),
                custom: NoCustom,
                node: ExprKind::Lambda { args: Box::new(args), body: Box::new(body) },
            },
        )
    }

    /// A test, possibly bound in place with `:=`.
    #[verifier::loop_isolation(false)]
    fn parse_namedexpr(&mut self) -> (r: Result<Expr, EngineError>)
        ensures
            steps(*old(self), *final(self)),
            r matches Ok(e) ==> final(self).toks@.len() < old(self).toks@.len()
                && rightmost_path_ok(e),
            r matches Ok(e) ==> old(self).inv() ==> expr_between(*old(self), *final(self), e),
            leaf_then_end(*old(self)) ==> ((r matches Ok(e)) && r->Ok_0 == leaf_expr(
                old(self).toks@[0],
            ) && final(self).toks@ == old(self).toks@.subrange(1, 2)),
        decreases self.depth, self.toks@.len(), 28int,
    {
        let target = self.parse_test()?;
        if self.peek() == TokTag::ColonEqual {
            let _w = self.bump();
            let value = self.parse_test()?;
            let end = end_of(&value);
            Ok(
                Expr {
                    location: target.location,
                    end_location: Some(end),
                    custom: NoCustom,
                    node: ExprKind::NamedExpr { target: Box::new(target), value: Box::new(value) },
                },
            )
        } else {
            Ok(target)
        }
    }

    /// A chain of `or`-joined operands.
    #[verifier::loop_isolation(false)]
    fn parse_or_test(&mut self) -> (r: Result<Expr, EngineError>)
        ensures
            steps(*old(self), *final(self)),
            r matches Ok(e) ==> final(self).toks@.len() < old(self).toks@.len()
                && rightmost_path_ok(e),
            r matches Ok(e) ==> old(self).inv() ==> expr_between(*old(self), *final(self), e),
            leaf_then_end(*old(self)) ==> ((r matches Ok(e)) && r->Ok_0 == leaf_expr(
                old(self).toks@[0],
            ) && final(self).toks@ == old(self).toks@.subrange(1, 2)),
        decreases self.depth, self.toks@.len(), 25int,
    {
        let ghost p0 = *self;
        let first = self.parse_and_test()?;
        if self.peek() != TokTag::Or {
            return Ok(first);
        }
        let loc = first.location;
        let mut values: Vec<Expr> = Vec::new();
        let mut end = end_of(&first);
        values.push(first);
        loop
            invariant
                steps(p0, *self),
                self.toks@.len() < p0.toks@.len(),
                values@.len() >= 1,
                rightmost_path_ok(values@.last()),
                p0.inv() ==> (forall|i: int| 0 <= i < values@.len() ==> expr_wf(
                    #[trigger] values@[i],
                )) && loc_le(p0.low(), loc) && loc_le(loc, end) && loc_le(end, self.low()) && (
                values@.last().end_location matches Some(x) && x == end),
            decreases self.toks@.len(),
        {
            if self.peek() != TokTag::Or {
                break;
            }
            let _o = self.bump();
            let next = self.parse_and_test()?;
            end = end_of(&next);
            values.push(next);
        }
        Ok(
            Expr {
                location: loc,
                end_location: Some(end),
                custom: NoCustom,
                node: ExprKind::BoolOp { op: BoolOpKind::Or, values },
            },
        )
    }

    /// A chain of `and`-joined operands.
    #[verifier::loop_isolation(false)]
    fn parse_and_test(&mut self) -> (r: Result<Expr, EngineError>)
        ensures
            steps(*old(self), *final(self)),
            r matches Ok(e) ==> final(self).toks@.len() < old(self).toks@.len()
                && rightmost_path_ok(e),
            r matches Ok(e) ==> old(self).inv() ==> expr_between(*old(self), *final(self), e),
            leaf_then_end(*old(self)) ==> ((r matches Ok(e)) && r->Ok_0 == leaf_expr(
                old(self).toks@[0],
            ) && final(self).toks@ == old(self).toks@.subrange(1, 2)),
        decreases self.depth, self.toks@.len(), 24int,
    {
        let ghost p0 = *self;
        let first = self.parse_not_test()?;
        if self.peek() != TokTag::And {
            return Ok(first);
        }
        let loc = first.location;
        let mut values: Vec<Expr> = Vec::new();
        let mut end = end_of(&first);
        values.push(first);
        loop
            invariant
                steps(p0, *self),
                self.toks@.len() < p0.toks@.len(),
                values@.len() >= 1,
                rightmost_path_ok(values@.last()),
                p0.inv() ==> (forall|i: int| 0 <= i < values@.len() ==> expr_wf(
                    #[trigger] values@[i],
                )) && loc_le(p0.low(), loc) && loc_le(loc, end) && loc_le(end, self.low()) && (
                values@.last().end_location matches Some(x) && x == end),
            decreases self.toks@.len(),
        {
            if self.peek() != TokTag::And {
                break;
            }
            let _o = self.bump();
            let next = self.parse_not_test()?;
            end = end_of(&next);
            values.push(next);
        }
        Ok(
            Expr {
                location: loc,
                end_location: Some(end),
                custom: NoCustom,
                node: ExprKind::BoolOp { op: BoolOpKind::And, values },
            },
        )
    }

    /// `not` applied to an operand, or a comparison.
    #[verifier::loop_isolation(false)]
    fn parse_not_test(&mut self) -> (r: Result<Expr, EngineError>)
        ensures
            steps(*old(self), *final(self)),
            r matches Ok(e) ==> final(self).toks@.len() < old(self).toks@.len()
                && rightmost_path_ok(e),
            r matches Ok(e) ==> old(self).inv() ==> expr_between(*old(self), *final(self), e),
            leaf_then_end(*old(self)) ==> ((r matches Ok(e)) && r->Ok_0 == leaf_expr(
                old(self).toks@[0],
            ) && final(self).toks@ == old(self).toks@.subrange(1, 2)),
        decreases self.depth, self.toks@.len(), 23int,
    {
        if self.peek() == TokTag::Not {
            let t = self.bump();
            let operand = self.parse_not_test()?;
            let end = end_of(&operand);
            Ok(
                Expr {
                    location: t.0,
                    end_location: Some(end),
                    custom: NoCustom,
                    node: ExprKind::UnaryOp { op: UnaryOpKind::Not, operand: Box::new(operand) },
                },
            )
        } else {
            self.parse_comparison()
        }
    }

    /// A chained comparison, or a plain arithmetic expression.
    #[verifier::loop_isolation(false)]
    fn parse_comparison(&mut self) -> (r: Result<Expr, EngineError>)
        ensures
            steps(*old(self), *final(self)),
            r matches Ok(e) ==> final(self).toks@.len() < old(self).toks@.len()
                && rightmost_path_ok(e),
            r matches Ok(e) ==> old(self).inv() ==> expr_between(*old(self), *final(self), e),
            leaf_then_end(*old(self)) ==> ((r matches Ok(e)) && r->Ok_0 == leaf_expr(
                old(self).toks@[0],
            ) && final(self).toks@ == old(self).toks@.subrange(1, 2)),
        decreases self.depth, self.toks@.len(), 22int,
    {
        let ghost p0 = *self;
        let left = self.parse_bitor()?;
        let tag0 = self.peek();
        let is_cmp0 = tag0 == TokTag::EqEqual || tag0 == TokTag::NotEqual || tag0 == TokTag::Less
            || tag0 == TokTag::Greater || tag0 == TokTag::LessEqual || tag0 == TokTag::GreaterEqual
            || tag0 == TokTag::Is || tag0 == TokTag::In || (tag0 == TokTag::Not && self.peek2()
            == TokTag::In);
        if !is_cmp0 {
            return Ok(left);
        }
        let loc = left.location;
        let mut end = end_of(&left);
        let mut ops: Vec<CmpOp> = Vec::new();
        let mut comparators: Vec<Expr> = Vec::new();
        let left_box = Box::new(left);
        loop
            invariant
                steps(p0, *self),
                self.toks@.len() < p0.toks@.len(),
                ops@.len() == comparators@.len(),
                rightmost_path_ok(*left_box),
                p0.inv() ==> expr_wf(*left_box) && (forall|i: int|
                    0 <= i < comparators@.len() ==> expr_wf(#[trigger] comparators@[i])) && loc_le(
                    p0.low(),
                    loc,
                ) && loc_le(loc, end) && loc_le(end, self.low()) && ((*left_box).end_location
                    matches Some(x0) && loc_le(x0, end)) && (comparators@.len() > 0 ==> (
                comparators@.last().end_location matches Some(x) && x == end)),
            decreases self.toks@.len(),
        {
            let tag = self.peek();
            let op: CmpOp = if tag == TokTag::EqEqual {
                CmpOp::Eq
            } else if tag == TokTag::NotEqual {
                CmpOp::NotEq
            } else if tag == TokTag::Less {
                CmpOp::Lt
            } else if tag == TokTag::Greater {
                CmpOp::Gt
            } else if tag == TokTag::LessEqual {
                CmpOp::LtE
            } else if tag == TokTag::GreaterEqual {
                CmpOp::GtE
            } else if tag == TokTag::Is {
                if self.peek2() == TokTag::Not {
                    CmpOp::IsNot
                } else {
                    CmpOp::Is
                }
            } else if tag == TokTag::In {
                CmpOp::In
            } else if tag == TokTag::Not && self.peek2() == TokTag::In {
                CmpOp::NotIn
            } else {
                break;
            };
            let _t1 = self.bump();
            match op {
                CmpOp::IsNot => {
                    let _t2 = self.bump();
                },
                CmpOp::NotIn => {
                    let _t2 = self.bump();
                },
                _ => {},
            }
            let next = self.parse_bitor()?;
            end = end_of(&next);
            ops.push(op);
            comparators.push(next);
        }
        if comparators.len() == 0 {
            // no comparator was consumed after all; hand back the operand
            let e = *left_box;
            return Ok(e);
        }
        Ok(
            Expr {
                location: loc,
                end_location: Some(end),
                custom: NoCustom,
                node: ExprKind::Compare { left: left_box, ops, comparators },
            },
        )
    }


    /// Bitwise or, left associative.
    #[verifier::loop_isolation(false)]
    fn parse_bitor(&mut self) -> (r: Result<Expr, EngineError>)
        ensures
            steps(*old(self), *final(self)),
            r matches Ok(e) ==> final(self).toks@.len() < old(self).toks@.len()
                && rightmost_path_ok(e),
            r matches Ok(e) ==> old(self).inv() ==> expr_between(*old(self), *final(self), e),
            leaf_then_end(*old(self)) ==> ((r matches Ok(e)) && r->Ok_0 == leaf_expr(
                old(self).toks@[0],
            ) && final(self).toks@ == old(self).toks@.subrange(1, 2)),
        decreases self.depth, self.toks@.len(), 21int,
    {
        let ghost p0 = *self;
        let mut e = self.parse_bitxor()?;
        loop
            invariant
                steps(p0, *self),
                self.toks@.len() < p0.toks@.len(),
                rightmost_path_ok(e),
                p0.inv() ==> expr_between(p0, *self, e),
                leaf_then_end(p0) ==> (e == leaf_expr(p0.toks@[0]) && self.toks@
                    == p0.toks@.subrange(1, 2)),
            decreases self.toks@.len(),
        {
            let tag = self.peek();
            if tag != TokTag::Vbar {
                break;
            }
            let _t = self.bump();
            let op = Operator::BitOr;
            let right = self.parse_bitxor()?;
            let end = end_of(&right);
            e = Expr {
                location: e.location,
                end_location: Some(end),
                custom: NoCustom,
                node: ExprKind::BinOp { left: Box::new(e), op, right: Box::new(right) },
            };
        }
        Ok(e)
    }

    /// Bitwise exclusive or, left associative.
    #[verifier::loop_isolation(false)]
    fn parse_bitxor(&mut self) -> (r: Result<Expr, EngineError>)
        ensures
            steps(*old(self), *final(self)),
            r matches Ok(e) ==> final(self).toks@.len() < old(self).toks@.len()
                && rightmost_path_ok(e),
            r matches Ok(e) ==> old(self).inv() ==> expr_between(*old(self), *final(self), e),
            leaf_then_end(*old(self)) ==> ((r matches Ok(e)) && r->Ok_0 == leaf_expr(
                old(self).toks@[0],
            ) && final(self).toks@ == old(self).toks@.subrange(1, 2)),
        decreases self.depth, self.toks@.len(), 20int,
    {
        let ghost p0 = *self;
        let mut e = self.parse_bitand()?;
        loop
            invariant
                steps(p0, *self),
                self.toks@.len() < p0.toks@.len(),
                rightmost_path_ok(e),
                p0.inv() ==> expr_between(p0, *self, e),
                leaf_then_end(p0) ==> (e == leaf_expr(p0.toks@[0]) && self.toks@
                    == p0.toks@.subrange(1, 2)),
            decreases self.toks@.len(),
        {
            let tag = self.peek();
            if tag != TokTag::Circumflex {
                break;
            }
            let _t = self.bump();
            let op = Operator::BitXor;
            let right = self.parse_bitand()?;
            let end = end_of(&right);
            e = Expr {
                location: e.location,
                end_location: Some(end),
                custom: NoCustom,
                node: ExprKind::BinOp { left: Box::new(e), op, right: Box::new(right) },
            };
        }
        Ok(e)
    }

    /// Bitwise and, left associative.
    #[verifier::loop_isolation(false)]
    fn parse_bitand(&mut self) -> (r: Result<Expr, EngineError>)
        ensures
            steps(*old(self), *final(self)),
            r matches Ok(e) ==> final(self).toks@.len() < old(self).toks@.len()
                && rightmost_path_ok(e),
            r matches Ok(e) ==> old(self).inv() ==> expr_between(*old(self), *final(self), e),
            leaf_then_end(*old(self)) ==> ((r matches Ok(e)) && r->Ok_0 == leaf_expr(
                old(self).toks@[0],
            ) && final(self).toks@ == old(self).toks@.subrange(1, 2)),
        decreases self.depth, self.toks@.len(), 19int,
    {
        let ghost p0 = *self;
        let mut e = self.parse_shift()?;
        loop
            invariant
                steps(p0, *self),
                self.toks@.len() < p0.toks@.len(),
                rightmost_path_ok(e),
                p0.inv() ==> expr_between(p0, *self, e),
                leaf_then_end(p0) ==> (e == leaf_expr(p0.toks@[0]) && self.toks@
                    == p0.toks@.subrange(1, 2)),
            decreases self.toks@.len(),
        {
            let tag = self.peek();
            if tag != TokTag::Amper {
                break;
            }
            let _t = self.bump();
            let op = Operator::BitAnd;
            let right = self.parse_shift()?;
            let end = end_of(&right);
            e = Expr {
                location: e.location,
                end_location: Some(end),
                custom: NoCustom,
                node: ExprKind::BinOp { left: Box::new(e), op, right: Box::new(right) },
            };
        }
        Ok(e)
    }

    /// Shift operators, left associative.
    #[verifier::loop_isolation(false)]
    fn parse_shift(&mut self) -> (r: Result<Expr, EngineError>)
        ensures
            steps(*old(self), *final(self)),
            r matches Ok(e) ==> final(self).toks@.len() < old(self).toks@.len()
                && rightmost_path_ok(e),
            r matches Ok(e) ==> old(self).inv() ==> expr_between(*old(self), *final(self), e),
            leaf_then_end(*old(self)) ==> ((r matches Ok(e)) && r->Ok_0 == leaf_expr(
                old(self).toks@[0],
            ) && final(self).toks@ == old(self).toks@.subrange(1, 2)),
        decreases self.depth, self.toks@.len(), 18int,
    {
        let ghost p0 = *self;
        let mut e = self.parse_arith()?;
        loop
            invariant
                steps(p0, *self),
                self.toks@.len() < p0.toks@.len(),
                rightmost_path_ok(e),
                p0.inv() ==> expr_between(p0, *self, e),
                leaf_then_end(p0) ==> (e == leaf_expr(p0.toks@[0]) && self.toks@
                    == p0.toks@.subrange(1, 2)),
            decreases self.toks@.len(),
        {
            let tag = self.peek();
            if tag != TokTag::LeftShift && tag != TokTag::RightShift {
                break;
            }
            let _t = self.bump();
            let op = if tag == TokTag::LeftShift {
                Operator::LShift
            } else {
                Operator::RShift
            };
            let right = self.parse_arith()?;
            let end = end_of(&right);
            e = Expr {
                location: e.location,
                end_location: Some(end),
                custom: NoCustom,
                node: ExprKind::BinOp { left: Box::new(e), op, right: Box::new(right) },
            };
        }
        Ok(e)
    }

    /// Additive operators, left associative.
    #[verifier::loop_isolation(false)]
    fn parse_arith(&mut self) -> (r: Result<Expr, EngineError>)
        ensures
            steps(*old(self), *final(self)),
            r matches Ok(e) ==> final(self).toks@.len() < old(self).toks@.len()
                && rightmost_path_ok(e),
            r matches Ok(e) ==> old(self).inv() ==> expr_between(*old(self), *final(self), e),
            leaf_then_end(*old(self)) ==> ((r matches Ok(e)) && r->Ok_0 == leaf_expr(
                old(self).toks@[0],
            ) && final(self).toks@ == old(self).toks@.subrange(1, 2)),
        decreases self.depth, self.toks@.len(), 17int,
    {
        let ghost p0 = *self;
        let mut e = self.parse_term()?;
        loop
            invariant
                steps(p0, *self),
                self.toks@.len() < p0.toks@.len(),
                rightmost_path_ok(e),
                p0.inv() ==> expr_between(p0, *self, e),
                leaf_then_end(p0) ==> (e == leaf_expr(p0.toks@[0]) && self.toks@
                    == p0.toks@.subrange(1, 2)),
            decreases self.toks@.len(),
        {
            let tag = self.peek();
            if tag != TokTag::Plus && tag != TokTag::Minus {
                break;
            }
            let _t = self.bump();
            let op = if tag == TokTag::Plus {
                Operator::Add
            } else {
                Operator::Sub
            };
            let right = self.parse_term()?;
            let end = end_of(&right);
            e = Expr {
                location: e.location,
                end_location: Some(end),
                custom: NoCustom,
                node: ExprKind::BinOp { left: Box::new(e), op, right: Box::new(right) },
            };
        }
        Ok(e)
    }

    /// Multiplicative operators, left associative.
    #[verifier::loop_isolation(false)]
    fn parse_term(&mut self) -> (r: Result<Expr, EngineError>)
        ensures
            steps(*old(self), *final(self)),
            r matches Ok(e) ==> final(self).toks@.len() < old(self).toks@.len()
                && rightmost_path_ok(e),
            r matches Ok(e) ==> old(self).inv() ==> expr_between(*old(self), *final(self), e),
            leaf_then_end(*old(self)) ==> ((r matches Ok(e)) && r->Ok_0 == leaf_expr(
                old(self).toks@[0],
            ) && final(self).toks@ == old(self).toks@.subrange(1, 2)),
        decreases self.depth, self.toks@.len(), 16int,
    {
        let ghost p0 = *self;
        let mut e = self.parse_factor()?;
        loop
            invariant
                steps(p0, *self),
                self.toks@.len() < p0.toks@.len(),
                rightmost_path_ok(e),
                p0.inv() ==> expr_between(p0, *self, e),
                leaf_then_end(p0) ==> (e == leaf_expr(p0.toks@[0]) && self.toks@
                    == p0.toks@.subrange(1, 2)),
            decreases self.toks@.len(),
        {
            let tag = self.peek();
            if tag != TokTag::Star && tag != TokTag::Slash && tag != TokTag::DoubleSlash && tag
                != TokTag::Percent {
                break;
            }
            let _t = self.bump();
            let op = if tag == TokTag::Star {
                Operator::Mult
            } else if tag == TokTag::Slash {
                Operator::Div
            } else if tag == TokTag::DoubleSlash {
                Operator::FloorDiv
            } else {
                Operator::Mod
            };
            let right = self.parse_factor()?;
            let end = end_of(&right);
            e = Expr {
                location: e.location,
                end_location: Some(end),
                custom: NoCustom,
                node: ExprKind::BinOp { left: Box::new(e), op, right: Box::new(right) },
            };
        }
        Ok(e)
    }

    /// Unary sign or inversion.
    #[verifier::loop_isolation(false)]
    fn parse_factor(&mut self) -> (r: Result<Expr, EngineError>)
        ensures
            steps(*old(self), *final(self)),
            r matches Ok(e) ==> final(self).toks@.len() < old(self).toks@.len()
                && rightmost_path_ok(e),
            r matches Ok(e) ==> old(self).inv() ==> expr_between(*old(self), *final(self), e),
            leaf_then_end(*old(self)) ==> ((r matches Ok(e)) && r->Ok_0 == leaf_expr(
                old(self).toks@[0],
            ) && final(self).toks@ == old(self).toks@.subrange(1, 2)),
        decreases self.depth, self.toks@.len(), 15int,
    {
        let tag = self.peek();
        if tag == TokTag::Plus || tag == TokTag::Minus || tag == TokTag::Tilde {
            let t = self.bump();
            let op = if tag == TokTag::Plus {
                UnaryOpKind::UAdd
            } else if tag == TokTag::Minus {
                UnaryOpKind::USub
            } else {
                UnaryOpKind::Invert
            };
            let operand = self.parse_factor()?;
            let end = end_of(&operand);
            Ok(
                Expr {
                    location: t.0,
                    end_location: Some(end),
                    custom: NoCustom,
                    node: ExprKind::UnaryOp { op, operand: Box::new(operand) },
                },
            )
        } else {
            self.parse_power()
        }
    }


    /// Exponentiation, binding tighter than unary sign and associating to
    /// the right.
    #[verifier::loop_isolation(false)]
    fn parse_power(&mut self) -> (r: Result<Expr, EngineError>)
        ensures
            steps(*old(self), *final(self)),
            r matches Ok(e) ==> final(self).toks@.len() < old(self).toks@.len()
                && rightmost_path_ok(e),
            r matches Ok(e) ==> old(self).inv() ==> expr_between(*old(self), *final(self), e),
            leaf_then_end(*old(self)) ==> ((r matches Ok(e)) && r->Ok_0 == leaf_expr(
                old(self).toks@[0],
            ) && final(self).toks@ == old(self).toks@.subrange(1, 2)),
        decreases self.depth, self.toks@.len(), 14int,
    {
        let base = self.parse_atom_expr()?;
        if self.peek() == TokTag::DoubleStar {
            let _op = self.bump();
            let right = self.parse_factor()?;
            let end = end_of(&right);
            Ok(
                Expr {
                    location: base.location,
                    end_location: Some(end),
                    custom: NoCustom,
                    node: ExprKind::BinOp {
                        left: Box::new(base),
                        op: Operator::Pow,
                        right: Box::new(right),
                    },
                },
            )
        } else {
            Ok(base)
        }
    }

    /// An optionally awaited atom with call, subscript and attribute
    /// trailers.
    #[verifier::loop_isolation(false)]
    fn parse_atom_expr(&mut self) -> (r: Result<Expr, EngineError>)
        ensures
            steps(*old(self), *final(self)),
            r matches Ok(e) ==> final(self).toks@.len() < old(self).toks@.len()
                && rightmost_path_ok(e),
            r matches Ok(e) ==> old(self).inv() ==> expr_between(*old(self), *final(self), e),
            leaf_then_end(*old(self)) ==> ((r matches Ok(e)) && r->Ok_0 == leaf_expr(
                old(self).toks@[0],
            ) && final(self).toks@ == old(self).toks@.subrange(1, 2)),
        decreases self.depth, self.toks@.len(), 13int,
    {
        let ghost p0 = *self;
        let awaited: Option<Location> = if self.peek() == TokTag::Await {
            let t = self.bump();
            Some(t.0)
        } else {
            Option::None
        };
        let mut e = self.parse_atom()?;
        loop
            invariant
                steps(p0, *self),
                self.toks@.len() < p0.toks@.len(),
                rightmost_path_ok(e),
                p0.inv() ==> expr_between(p0, *self, e),
                leaf_then_end(p0) ==> (e == leaf_expr(p0.toks@[0]) && self.toks@
                    == p0.toks@.subrange(1, 2)),
            decreases self.toks@.len(),
        {
            let tag = self.peek();
            if tag == TokTag::Lpar {
                let _l = self.bump();
                let (args, keywords) = self.parse_call_args()?;
                let rp = self.expect(TokTag::Rpar, ")")?;
                e = Expr {
                    location: e.location,
                    end_location: Some(rp.2),
                    custom: NoCustom,
                    node: ExprKind::Call { func: Box::new(e), args, keywords },
                };
            } else if tag == TokTag::Lsqb {
                let _l = self.bump();
                let idx = self.parse_testlist()?;
                let rb = self.expect(TokTag::Rsqb, "]")?;
                e = Expr {
                    location: e.location,
                    end_location: Some(rb.2),
                    custom: NoCustom,
                    node: ExprKind::Subscript { value: Box::new(e), slice: Box::new(idx) },
                };
            } else if tag == TokTag::Dot {
                let _d = self.bump();
                let nt = self.expect(TokTag::Name, "Name")?;
                let attr = match nt.1 {
                    Tok::Name { name } => name,
                    _ => String::new(),
                };
                e = Expr {
                    location: e.location,
                    end_location: Some(nt.2),
                    custom: NoCustom,
                    node: ExprKind::Attribute { value: Box::new(e), attr },
                };
            } else {
                break;
            }
        }
        match awaited {
            Some(loc) => {
                let end = end_of(&e);
                Ok(
                    Expr {
                        location: loc,
                        end_location: Some(end),
                        custom: NoCustom,
                        node: ExprKind::Await { value: Box::new(e) },
                    },
                )
            },
            Option::None => Ok(e),
        }
    }
}

impl Parser {
    /// A parenthesized form, collection display or comprehension, literal,
    /// name, or formatted string.
    #[verifier::loop_isolation(false)]
    #[verifier::rlimit(60)]
    fn parse_atom(&mut self) -> (r: Result<Expr, EngineError>)
        ensures
            steps(*old(self), *final(self)),
            r matches Ok(e) ==> final(self).toks@.len() < old(self).toks@.len()
                && rightmost_path_ok(e),
            r matches Ok(e) ==> old(self).inv() ==> expr_between(*old(self), *final(self), e),
            leaf_then_end(*old(self)) ==> ((r matches Ok(e)) && r->Ok_0 == leaf_expr(
                old(self).toks@[0],
            ) && final(self).toks@ == old(self).toks@.subrange(1, 2)),
        decreases self.depth, self.toks@.len(), 12int,
    {
        let ghost p0 = *self;
        let tag = self.peek();
        if self.toks.len() == 0 {
            return Err(self.take_end_error());
        }
        if tag == TokTag::Name {
            let t = self.bump();
            let id = match t.1 {
                Tok::Name { name } => name,
                _ => String::new(),
            };
            return Ok(
                Expr {
                    location: t.0,
                    end_location: Some(t.2),
                    custom: NoCustom,
                    node: ExprKind::Name { id },
                },
            );
        }
        if tag == TokTag::Int {
            let t = self.bump();
            let value = match t.1 {
                Tok::Int { value } => value,
                _ => String::new(),
            };
            return Ok(
                Expr {
                    location: t.0,
                    end_location: Some(t.2),
                    custom: NoCustom,
                    node: ExprKind::Constant {
                        value: Constant::Int(value),
                        kind: Option::None,
                    },
                },
            );
        }
        if tag == TokTag::Float {
            let t = self.bump();
            let value = match t.1 {
                Tok::Float { value } => value,
                _ => String::new(),
            };
            return Ok(
                Expr {
                    location: t.0,
                    end_location: Some(t.2),
                    custom: NoCustom,
                    node: ExprKind::Constant {
                        value: Constant::Float(value),
                        kind: Option::None,
                    },
                },
            );
        }
        if tag == TokTag::True || tag == TokTag::False {
            let t = self.bump();
            return Ok(
                Expr {
                    location: t.0,
                    end_location: Some(t.2),
                    custom: NoCustom,
                    node: ExprKind::Constant {
                        value: Constant::Bool(tag == TokTag::True),
                        kind: Option::None,
                    },
                },
            );
        }
        if tag == TokTag::NoneKw {
            let t = self.bump();
            return Ok(
                Expr {
                    location: t.0,
                    end_location: Some(t.2),
                    custom: NoCustom,
                    node: ExprKind::Constant { value: Constant::NoneLit, kind: Option::None },
                },
            );
        }
        if tag == TokTag::Str {
            let t = self.bump();
            let (value, is_fstring) = match t.1 {
                Tok::Str { value, is_fstring } => (value, is_fstring),
                _ => (String::new(), false),
            };
            if !is_fstring {
                return Ok(
                    Expr {
                        location: t.0,
                        end_location: Some(t.2),
                        custom: NoCustom,
                        node: ExprKind::Constant {
                            value: Constant::Str(value),
                            kind: Option::None,
                        },
                    },
                );
            }
            if self.depth == 0 {
                return Err(
                    EngineError::User {
                        error: LexicalError {
                            error: crate::error::LexicalErrorType::FStringError(
                                crate::error::FStringErrorType::ExpressionNestedTooDeeply,
                            ),
                            location: t.0,
                        },
                    },
                );
            }
            let chars = crate::strutil::str_to_chars(value.as_str());
            let end = if t.0.le(&t.2) {
                t.2
            } else {
                t.0
            };
            match crate::fstring::parse_fstring_value(&chars, t.0, end, self.depth - 1) {
                Ok(e) => {
                    return Ok(e);
                },
                Err(fe) => {
                    return Err(fe.into_engine_error());
                },
            }
        }
        if tag == TokTag::Star {
            let t = self.bump();
            let v = self.parse_or_test()?;
            let end = end_of(&v);
            return Ok(
                Expr {
                    location: t.0,
                    end_location: Some(end),
                    custom: NoCustom,
                    node: ExprKind::Starred { value: Box::new(v) },
                },
            );
        }
        if tag == TokTag::Lpar {
            let lp = self.bump();
            if self.peek() == TokTag::Rpar {
                let rp = self.bump();
                return Ok(
                    Expr {
                        location: lp.0,
                        end_location: Some(rp.2),
                        custom: NoCustom,
                        node: ExprKind::Tuple { elts: Vec::new() },
                    },
                );
            }
            if self.peek() == TokTag::Yield {
                let yt = self.bump();
                let e = if self.peek() == TokTag::From {
                    let _f = self.bump();
                    let v = self.parse_test()?;
                    let end = end_of(&v);
                    Expr {
                        location: yt.0,
                        end_location: Some(end),
                        custom: NoCustom,
                        node: ExprKind::YieldFrom { value: Box::new(v) },
                    }
                } else if tag_starts_expr(self.peek()) {
                    let v = self.parse_test()?;
                    let end = end_of(&v);
                    Expr {
                        location: yt.0,
                        end_location: Some(end),
                        custom: NoCustom,
                        node: ExprKind::Yield { value: Some(Box::new(v)) },
                    }
                } else {
                    Expr {
                        location: yt.0,
                        end_location: Some(yt.2),
                        custom: NoCustom,
                        node: ExprKind::Yield { value: Option::None },
                    }
                };
                let _rp = self.expect(TokTag::Rpar, ")")?;
                return Ok(e);
            }
            let first = self.parse_namedexpr()?;
            if self.peek() == TokTag::For {
                let generators = self.parse_comp_clauses()?;
                let rp = self.expect(TokTag::Rpar, ")")?;
                return Ok(
                    Expr {
                        location: lp.0,
                        end_location: Some(rp.2),
                        custom: NoCustom,
                        node: ExprKind::GeneratorExp { elt: Box::new(first), generators },
                    },
                );
            }
            if self.peek() == TokTag::Comma {
                let mut elts: Vec<Expr> = Vec::new();
                elts.push(first);
                loop
                    invariant
                        steps(p0, *self),
                        self.toks@.len() < p0.toks@.len(),
                        elts@.len() >= 1,
                        p0.inv() ==> (forall|i: int| 0 <= i < elts@.len() ==> expr_wf(
                            #[trigger] elts@[i],
                        )),
                    decreases self.toks@.len(),
                {
                    if self.peek() != TokTag::Comma {
                        break;
                    }
                    let _c = self.bump();
                    if !tag_starts_expr(self.peek()) {
                        break;
                    }
                    let next = self.parse_namedexpr()?;
                    elts.push(next);
                }
                let rp = self.expect(TokTag::Rpar, ")")?;
                return Ok(
                    Expr {
                        location: lp.0,
                        end_location: Some(rp.2),
                        custom: NoCustom,
                        node: ExprKind::Tuple { elts },
                    },
                );
            }
            let _rp = self.expect(TokTag::Rpar, ")")?;
            return Ok(first);
        }
        if tag == TokTag::Lsqb {
            let lb = self.bump();
            if self.peek() == TokTag::Rsqb {
                let rb = self.bump();
                return Ok(
                    Expr {
                        location: lb.0,
                        end_location: Some(rb.2),
                        custom: NoCustom,
                        node: ExprKind::List { elts: Vec::new() },
                    },
                );
            }
            let first = self.parse_namedexpr()?;
            if self.peek() == TokTag::For {
                let generators = self.parse_comp_clauses()?;
                let rb = self.expect(TokTag::Rsqb, "]")?;
                return Ok(
                    Expr {
                        location: lb.0,
                        end_location: Some(rb.2),
                        custom: NoCustom,
                        node: ExprKind::ListComp { elt: Box::new(first), generators },
                    },
                );
            }
            let mut elts: Vec<Expr> = Vec::new();
            elts.push(first);
            loop
                invariant
                    steps(p0, *self),
                    self.toks@.len() < p0.toks@.len(),
                    elts@.len() >= 1,
                    p0.inv() ==> (forall|i: int| 0 <= i < elts@.len() ==> expr_wf(
                        #[trigger] elts@[i],
                    )),
                decreases self.toks@.len(),
            {
                if self.peek() != TokTag::Comma {
                    break;
                }
                let _c = self.bump();
                if !tag_starts_expr(self.peek()) {
                    break;
                }
                let next = self.parse_namedexpr()?;
                elts.push(next);
            }
            let rb = self.expect(TokTag::Rsqb, "]")?;
            return Ok(
                Expr {
                    location: lb.0,
                    end_location: Some(rb.2),
                    custom: NoCustom,
                    node: ExprKind::List { elts },
                },
            );
        }
        if tag == TokTag::Lbrace {
            let lb = self.bump();
            if self.peek() == TokTag::Rbrace {
                let rb = self.bump();
                return Ok(
                    Expr {
                        location: lb.0,
                        end_location: Some(rb.2),
                        custom: NoCustom,
                        node: ExprKind::Dict { keys: Vec::new(), values: Vec::new() },
                    },
                );
            }
            let first = self.parse_test()?;
            if self.peek() == TokTag::Colon {
                let _c = self.bump();
                let firstval = self.parse_test()?;
                if self.peek() == TokTag::For {
                    let generators = self.parse_comp_clauses()?;
                    let rb = self.expect(TokTag::Rbrace, "}")?;
                    return Ok(
                        Expr {
                            location: lb.0,
                            end_location: Some(rb.2),
                            custom: NoCustom,
                            node: ExprKind::DictComp {
                                key: Box::new(first),
                                value: Box::new(firstval),
                                generators,
                            },
                        },
                    );
                }
                let mut keys: Vec<Expr> = Vec::new();
                let mut values: Vec<Expr> = Vec::new();
                keys.push(first);
                values.push(firstval);
                loop
                    invariant
                        steps(p0, *self),
                        self.toks@.len() < p0.toks@.len(),
                        keys@.len() == values@.len(),
                        p0.inv() ==> (forall|i: int| 0 <= i < keys@.len() ==> expr_wf(
                            #[trigger] keys@[i],
                        )) && (forall|i: int| 0 <= i < values@.len() ==> expr_wf(
                            #[trigger] values@[i],
                        )),
                    decreases self.toks@.len(),
                {
                    if self.peek() != TokTag::Comma {
                        break;
                    }
                    let _c = self.bump();
                    if !tag_starts_expr(self.peek()) {
                        break;
                    }
                    let k = self.parse_test()?;
                    let _col = self.expect(TokTag::Colon, ":")?;
                    let v = self.parse_test()?;
                    keys.push(k);
                    values.push(v);
                }
                let rb = self.expect(TokTag::Rbrace, "}")?;
                return Ok(
                    Expr {
                        location: lb.0,
                        end_location: Some(rb.2),
                        custom: NoCustom,
                        node: ExprKind::Dict { keys, values },
                    },
                );
            }
            if self.peek() == TokTag::For {
                let generators = self.parse_comp_clauses()?;
                let rb = self.expect(TokTag::Rbrace, "}")?;
                return Ok(
                    Expr {
                        location: lb.0,
                        end_location: Some(rb.2),
                        custom: NoCustom,
                        node: ExprKind::SetComp { elt: Box::new(first), generators },
                    },
                );
            }
            let mut elts: Vec<Expr> = Vec::new();
            elts.push(first);
            loop
                invariant
                    steps(p0, *self),
                    self.toks@.len() < p0.toks@.len(),
                    elts@.len() >= 1,
                    p0.inv() ==> (forall|i: int| 0 <= i < elts@.len() ==> expr_wf(
                        #[trigger] elts@[i],
                    )),
                decreases self.toks@.len(),
            {
                if self.peek() != TokTag::Comma {
                    break;
                }
                let _c = self.bump();
                if !tag_starts_expr(self.peek()) {
                    break;
                }
                let next = self.parse_test()?;
                elts.push(next);
            }
            let rb = self.expect(TokTag::Rbrace, "}")?;
            return Ok(
                Expr {
                    location: lb.0,
                    end_location: Some(rb.2),
                    custom: NoCustom,
                    node: ExprKind::SetLit { elts },
                },
            );
        }
        let t = self.bump();
        Err(EngineError::UnrecognizedToken { token: t, expected: Vec::new() })
    }

    /// The positional and keyword arguments of a call, up to the closing
    /// parenthesis.
    #[verifier::loop_isolation(false)]
    fn parse_call_args(&mut self) -> (r: Result<(Vec<Expr>, Vec<Keyword>), EngineError>)
        ensures
            steps(*old(self), *final(self)),
            r matches Ok(p) ==> old(self).inv() ==> (forall|i: int|
                0 <= i < p.0@.len() ==> expr_wf(#[trigger] p.0@[i])) && (forall|i: int|
                0 <= i < p.1@.len() ==> expr_wf(#[trigger] p.1@[i].value)),
        decreases self.depth, self.toks@.len(), 40int,
    {
        let ghost p0 = *self;
        let mut args: Vec<Expr> = Vec::new();
        let mut keywords: Vec<Keyword> = Vec::new();
        loop
            invariant
                steps(p0, *self),
                p0.inv() ==> (forall|i: int| 0 <= i < args@.len() ==> expr_wf(
                    #[trigger] args@[i],
                )) && (forall|i: int| 0 <= i < keywords@.len() ==> expr_wf(
                    #[trigger] keywords@[i].value,
                )),
            decreases self.toks@.len(),
        {
            let tag = self.peek();
            if tag == TokTag::Rpar || tag == TokTag::Missing {
                break;
            }
            if tag == TokTag::Star {
                let t = self.bump();
                let v = self.parse_test()?;
                let end = end_of(&v);
                args.push(
                    Expr {
                        location: t.0,
                        end_location: Some(end),
                        custom: NoCustom,
                        node: ExprKind::Starred { value: Box::new(v) },
                    },
                );
            } else if tag == TokTag::DoubleStar {
                let _t = self.bump();
                let v = self.parse_test()?;
                keywords.push(Keyword { arg: Option::None, value: v });
            } else if tag == TokTag::Name && self.peek2() == TokTag::Equal {
                let t = self.bump();
                let name = match t.1 {
                    Tok::Name { name } => name,
                    _ => String::new(),
                };
                if has_kwarg(&keywords, &name) {
                    return Err(
                        EngineError::User {
                            error: LexicalError {
                                error: crate::error::LexicalErrorType::DuplicateKeywordArgumentError,
                                location: t.0,
                            },
                        },
                    );
                }
                let _eq = self.bump();
                let v = self.parse_test()?;
                keywords.push(Keyword { arg: Some(name), value: v });
            } else {
                if keywords.len() > 0 {
                    let t = self.bump();
                    return Err(
                        EngineError::User {
                            error: LexicalError {
                                error: crate::error::LexicalErrorType::PositionalArgumentError,
                                location: t.0,
                            },
                        },
                    );
                }
                let v = self.parse_namedexpr()?;
                args.push(v);
            }
            if self.peek() == TokTag::Comma {
                let _c = self.bump();
            } else {
                break;
            }
        }
        Ok((args, keywords))
    }

    /// A comma-separated expression list, a tuple when more than one item
    /// or a trailing comma appears.
    #[verifier::loop_isolation(false)]
    fn parse_testlist(&mut self) -> (r: Result<Expr, EngineError>)
        ensures
            steps(*old(self), *final(self)),
            r matches Ok(e) ==> final(self).toks@.len() < old(self).toks@.len()
                && rightmost_path_ok(e),
            r matches Ok(e) ==> old(self).inv() ==> expr_between(*old(self), *final(self), e),
            leaf_then_end(*old(self)) ==> ((r matches Ok(e)) && r->Ok_0 == leaf_expr(
                old(self).toks@[0],
            ) && final(self).toks@ == old(self).toks@.subrange(1, 2)),
        decreases self.depth, self.toks@.len(), 30int,
    {
        let ghost p0 = *self;
        let first = self.parse_test()?;
        if self.peek() != TokTag::Comma {
            return Ok(first);
        }
        let loc = first.location;
        let mut end = end_of(&first);
        let mut elts: Vec<Expr> = Vec::new();
        elts.push(first);
        loop
            invariant
                steps(p0, *self),
                self.toks@.len() < p0.toks@.len(),
                elts@.len() >= 1,
                p0.inv() ==> (forall|i: int| 0 <= i < elts@.len() ==> expr_wf(
                    #[trigger] elts@[i],
                )) && loc_le(p0.low(), loc) && loc_le(loc, end) && loc_le(end, self.low()),
            decreases self.toks@.len(),
        {
            if self.peek() != TokTag::Comma {
                break;
            }
            let c = self.bump();
            end = c.2;
            if !tag_starts_expr(self.peek()) {
                break;
            }
            let next = self.parse_test()?;
            end = end_of(&next);
            elts.push(next);
        }
        Ok(
            Expr {
                location: loc,
                end_location: Some(end),
                custom: NoCustom,
                node: ExprKind::Tuple { elts },
            },
        )
    }

    /// An assignment or loop target list: atoms and their trailers, joined
    /// by commas into a tuple.
    #[verifier::loop_isolation(false)]
    fn parse_target_list(&mut self) -> (r: Result<Expr, EngineError>)
        ensures
            steps(*old(self), *final(self)),
            r matches Ok(e) ==> final(self).toks@.len() < old(self).toks@.len()
                && rightmost_path_ok(e),
            r matches Ok(e) ==> old(self).inv() ==> expr_between(*old(self), *final(self), e),
        decreases self.depth, self.toks@.len(), 31int,
    {
        let ghost p0 = *self;
        let first = self.parse_factor()?;
        if self.peek() != TokTag::Comma {
            return Ok(first);
        }
        let loc = first.location;
        let mut end = end_of(&first);
        let mut elts: Vec<Expr> = Vec::new();
        elts.push(first);
        loop
            invariant
                steps(p0, *self),
                self.toks@.len() < p0.toks@.len(),
                elts@.len() >= 1,
                p0.inv() ==> (forall|i: int| 0 <= i < elts@.len() ==> expr_wf(
                    #[trigger] elts@[i],
                )) && loc_le(p0.low(), loc) && loc_le(loc, end) && loc_le(end, self.low()),
            decreases self.toks@.len(),
        {
            if self.peek() != TokTag::Comma {
                break;
            }
            let c = self.bump();
            end = c.2;
            if !tag_starts_expr(self.peek()) {
                break;
            }
            let next = self.parse_factor()?;
            end = end_of(&next);
            elts.push(next);
        }
        Ok(
            Expr {
                location: loc,
                end_location: Some(end),
                custom: NoCustom,
                node: ExprKind::Tuple { elts },
            },
        )
    }

    /// One or more `for` clauses of a comprehension, each with its `if`
    /// conditions.
    #[verifier::loop_isolation(false)]
    fn parse_comp_clauses(&mut self) -> (r: Result<Vec<Comprehension>, EngineError>)
        ensures
            steps(*old(self), *final(self)),
            r matches Ok(g) ==> final(self).toks@.len() < old(self).toks@.len(),
            r matches Ok(g) ==> old(self).inv() ==> (forall|i: int|
                0 <= i < g@.len() ==> crate::ast::comprehension_wf(#[trigger] g@[i])),
        decreases self.depth, self.toks@.len(), 40int,
    {
        let ghost p0 = *self;
        let mut generators: Vec<Comprehension> = Vec::new();
        let _f0 = self.expect(TokTag::For, "for")?;
        let target0 = self.parse_target_list()?;
        let _in0 = self.expect(TokTag::In, "in")?;
        let iter0 = self.parse_or_test()?;
        let mut ifs0: Vec<Expr> = Vec::new();
        loop
            invariant
                steps(p0, *self),
                self.toks@.len() < p0.toks@.len(),
                p0.inv() ==> (forall|i: int| 0 <= i < ifs0@.len() ==> expr_wf(
                    #[trigger] ifs0@[i],
                )),
            decreases self.toks@.len(),
        {
            if self.peek() != TokTag::If {
                break;
            }
            let _i = self.bump();
            let cond = self.parse_or_test()?;
            ifs0.push(cond);
        }
        generators.push(Comprehension { target: target0, iter: iter0, ifs: ifs0 });
        loop
            invariant
                steps(p0, *self),
                self.toks@.len() < p0.toks@.len(),
                p0.inv() ==> (forall|i: int| 0 <= i < generators@.len()
                    ==> crate::ast::comprehension_wf(#[trigger] generators@[i])),
            decreases self.toks@.len(),
        {
            if self.peek() != TokTag::For {
                break;
            }
            let _f = self.bump();
            let target = self.parse_target_list()?;
            let _in = self.expect(TokTag::In, "in")?;
            let iter = self.parse_or_test()?;
            let mut ifs: Vec<Expr> = Vec::new();
            let ghost gmid = *self;
            loop
                invariant
                    steps(p0, *self),
                    self.toks@.len() <= gmid.toks@.len(),
                    self.toks@.len() < p0.toks@.len(),
                    self.depth == p0.depth,
                    p0.inv() ==> (forall|i: int| 0 <= i < ifs@.len() ==> expr_wf(
                        #[trigger] ifs@[i],
                    )),
                decreases self.toks@.len(),
            {
                if self.peek() != TokTag::If {
                    break;
                }
                let _i = self.bump();
                let cond = self.parse_or_test()?;
                ifs.push(cond);
            }
            generators.push(Comprehension { target, iter, ifs });
        }
        Ok(generators)
    }

    /// A formal parameter list: names, each with an optional default; a
    /// parameter without a default may not follow one with a default.
    #[verifier::loop_isolation(false)]
    fn parse_params(&mut self) -> (r: Result<Arguments, EngineError>)
        ensures
            steps(*old(self), *final(self)),
            r matches Ok(a) ==> old(self).inv() ==> crate::ast::arguments_wf(a),
        decreases self.depth, self.toks@.len(), 40int,
    {
        let ghost p0 = *self;
        let mut args: Vec<Arg> = Vec::new();
        let mut defaults: Vec<Expr> = Vec::new();
        loop
            invariant
                steps(p0, *self),
                defaults@.len() <= args@.len(),
                p0.inv() ==> (forall|i: int| 0 <= i < args@.len() ==> crate::ast::span_ok(
                    (#[trigger] args@[i]).location,
                    args@[i].end_location,
                )) && (forall|i: int| 0 <= i < defaults@.len() ==> expr_wf(
                    #[trigger] defaults@[i],
                )),
            decreases self.toks@.len(),
        {
            if self.peek() != TokTag::Name {
                break;
            }
            let t = self.bump();
            let name = match t.1 {
                Tok::Name { name } => name,
                _ => String::new(),
            };
            args.push(Arg { location: t.0, end_location: Some(t.2), arg: name });
            if self.peek() == TokTag::Equal {
                let _eq = self.bump();
                let d = self.parse_test()?;
                defaults.push(d);
            } else if defaults.len() > 0 {
                return Err(
                    EngineError::User {
                        error: LexicalError {
                            error: crate::error::LexicalErrorType::DefaultArgumentError,
                            location: t.0,
                        },
                    },
                );
            }
            if self.peek() == TokTag::Comma {
                let _c = self.bump();
            } else {
                break;
            }
        }
        Ok(Arguments { args, defaults })
    }
}

impl Parser {
    /// A block after a `:`: either an indented suite, or one simple
    /// statement on the same line ended by its newline.
    #[verifier::loop_isolation(false)]
    fn parse_suite(&mut self) -> (r: Result<Vec<Stmt>, EngineError>)
        ensures
            steps(*old(self), *final(self)),
            r matches Ok(b) ==> final(self).toks@.len() < old(self).toks@.len(),
            r matches Ok(b) ==> old(self).inv() ==> suite_between(*old(self), *final(self), b@),
        decreases self.depth, self.toks@.len(), 47int,
    {
        if self.peek() == TokTag::Newline {
            self.parse_indented_block()
        } else {
            let s = self.parse_small_stmt()?;
            let _nl = self.expect(TokTag::Newline, "Newline")?;
            let mut body: Vec<Stmt> = Vec::new();
            body.push(s);
            Ok(body)
        }
    }

    /// A newline, an indent, at least one statement, and the matching
    /// dedent.
    #[verifier::loop_isolation(false)]
    fn parse_indented_block(&mut self) -> (r: Result<Vec<Stmt>, EngineError>)
        ensures
            steps(*old(self), *final(self)),
            r matches Ok(b) ==> final(self).toks@.len() < old(self).toks@.len(),
            r matches Ok(b) ==> old(self).inv() ==> suite_between(*old(self), *final(self), b@),
        decreases self.depth, self.toks@.len(), 46int,
    {
        let ghost p0 = *self;
        let _nl = self.expect(TokTag::Newline, "Newline")?;
        let _ind = self.expect(TokTag::Indent, "Indent")?;
        let mut body: Vec<Stmt> = Vec::new();
        loop
            invariant
                steps(p0, *self),
                self.toks@.len() < p0.toks@.len(),
                p0.inv() ==> (forall|i: int| 0 <= i < body@.len() ==> stmt_wf(
                    #[trigger] body@[i],
                )) && (body@.len() > 0 ==> loc_le(p0.low(), body@[0].location) && loc_le(
                    body@[0].location,
                    self.low(),
                ) && (body@.last().end_location matches Some(x) && loc_le(
                    body@[0].location,
                    x,
                ) && loc_le(x, self.low()))),
            decreases self.toks@.len(),
        {
            let tag = self.peek();
            if tag == TokTag::Dedent || tag == TokTag::Missing {
                break;
            }
            let st = self.parse_statement()?;
            body.push(st);
        }
        if body.len() == 0 {
            if self.toks.len() == 0 {
                return Err(self.take_end_error());
            }
            let t = self.bump();
            return Err(EngineError::UnrecognizedToken { token: t, expected: Vec::new() });
        }
        let _ded = self.expect(TokTag::Dedent, "Dedent")?;
        Ok(body)
    }

    /// One simple statement: an expression statement, an assignment, a
    /// `return`, `pass`, `break` or `continue`.
    #[verifier::loop_isolation(false)]
    fn parse_small_stmt(&mut self) -> (r: Result<Stmt, EngineError>)
        ensures
            steps(*old(self), *final(self)),
            r matches Ok(st) ==> final(self).toks@.len() < old(self).toks@.len()
                && stmt_rightmost_path_ok(st.node),
            r matches Ok(st) ==> old(self).inv() ==> stmt_between(*old(self), *final(self), st),
        decreases self.depth, self.toks@.len(), 46int,
    {
        let ghost p0 = *self;
        let tag = self.peek();
        if tag == TokTag::Pass || tag == TokTag::Break || tag == TokTag::Continue {
            let t = self.bump();
            let node = if tag == TokTag::Pass {
                StmtKind::Pass
            } else if tag == TokTag::Break {
                StmtKind::Break
            } else {
                StmtKind::Continue
            };
            return Ok(
                Stmt { location: t.0, end_location: Some(t.2), custom: NoCustom, node },
            );
        }
        if tag == TokTag::Return {
            let t = self.bump();
            if tag_starts_expr(self.peek()) {
                let v = self.parse_testlist()?;
                let end = end_of(&v);
                return Ok(
                    Stmt {
                        location: t.0,
                        end_location: Some(end),
                        custom: NoCustom,
                        node: StmtKind::Return { value: Some(Box::new(v)) },
                    },
                );
            }
            return Ok(
                Stmt {
                    location: t.0,
                    end_location: Some(t.2),
                    custom: NoCustom,
                    node: StmtKind::Return { value: Option::None },
                },
            );
        }
        let first = self.parse_testlist()?;
        if self.peek() != TokTag::Equal {
            let loc = first.location;
            let end = end_of(&first);
            return Ok(
                Stmt {
                    location: loc,
                    end_location: Some(end),
                    custom: NoCustom,
                    node: StmtKind::Expr { value: Box::new(first) },
                },
            );
        }
        let loc = first.location;
        let mut targets: Vec<Expr> = Vec::new();
        targets.push(first);
        let _eq = self.bump();
        let mut value = self.parse_testlist()?;
        loop
            invariant
                steps(p0, *self),
                self.toks@.len() < p0.toks@.len(),
                targets@.len() >= 1,
                rightmost_path_ok(value),
                p0.inv() ==> (forall|i: int| 0 <= i < targets@.len() ==> expr_wf(
                    #[trigger] targets@[i],
                )) && expr_wf(value) && loc_le(p0.low(), loc) && loc_le(loc, value.location) && (
                value.end_location matches Some(x) && loc_le(x, self.low())),
            decreases self.toks@.len(),
        {
            if self.peek() != TokTag::Equal {
                break;
            }
            let _eq2 = self.bump();
            let next = self.parse_testlist()?;
            targets.push(value);
            value = next;
        }
        let end = end_of(&value);
        Ok(
            Stmt {
                location: loc,
                end_location: Some(end),
                custom: NoCustom,
                node: StmtKind::Assign { targets, value: Box::new(value) },
            },
        )
    }

    /// An `if`/`elif` chain with an optional `else`; called with the
    /// leading `if` or `elif` token still in the stream.
    #[verifier::loop_isolation(false)]
    fn parse_if(&mut self) -> (r: Result<Stmt, EngineError>)
        requires
            old(self).toks@.len() > 0,
        ensures
            steps(*old(self), *final(self)),
            r matches Ok(st) ==> final(self).toks@.len() < old(self).toks@.len(),
            r matches Ok(st) ==> old(self).inv() ==> stmt_between(*old(self), *final(self), st),
        decreases self.depth, self.toks@.len(), 45int,
    {
        let t = self.bump();
        let test = self.parse_namedexpr()?;
        let _c = self.expect(TokTag::Colon, ":")?;
        let body = self.parse_suite()?;
        let mut end = end_of_suite(&body);
        let mut orelse: Vec<Stmt> = Vec::new();
        if self.peek() == TokTag::Elif {
            let sub = self.parse_if()?;
            end = match sub.end_location {
                Some(x) => x,
                Option::None => end,
            };
            orelse.push(sub);
        } else if self.peek() == TokTag::Else {
            let _e = self.bump();
            let _c2 = self.expect(TokTag::Colon, ":")?;
            let else_body = self.parse_suite()?;
            end = end_of_suite(&else_body);
            orelse = else_body;
        }
        Ok(
            Stmt {
                location: t.0,
                end_location: Some(end),
                custom: NoCustom,
                node: StmtKind::If { test: Box::new(test), body, orelse },
            },
        )
    }

    /// A `while` loop with an optional `else` block.
    #[verifier::loop_isolation(false)]
    fn parse_while(&mut self) -> (r: Result<Stmt, EngineError>)
        requires
            old(self).toks@.len() > 0,
        ensures
            steps(*old(self), *final(self)),
            r matches Ok(st) ==> final(self).toks@.len() < old(self).toks@.len(),
            r matches Ok(st) ==> old(self).inv() ==> stmt_between(*old(self), *final(self), st),
        decreases self.depth, self.toks@.len(), 45int,
    {
        let t = self.bump();
        let test = self.parse_namedexpr()?;
        let _c = self.expect(TokTag::Colon, ":")?;
        let body = self.parse_suite()?;
        let mut end = end_of_suite(&body);
        let mut orelse: Vec<Stmt> = Vec::new();
        if self.peek() == TokTag::Else {
            let _e = self.bump();
            let _c2 = self.expect(TokTag::Colon, ":")?;
            let else_body = self.parse_suite()?;
            end = end_of_suite(&else_body);
            orelse = else_body;
        }
        Ok(
            Stmt {
                location: t.0,
                end_location: Some(end),
                custom: NoCustom,
                node: StmtKind::While { test: Box::new(test), body, orelse },
            },
        )
    }

    /// A `for` loop over an iterable.
    #[verifier::loop_isolation(false)]
    fn parse_for(&mut self) -> (r: Result<Stmt, EngineError>)
        requires
            old(self).toks@.len() > 0,
        ensures
            steps(*old(self), *final(self)),
            r matches Ok(st) ==> final(self).toks@.len() < old(self).toks@.len(),
            r matches Ok(st) ==> old(self).inv() ==> stmt_between(*old(self), *final(self), st),
        decreases self.depth, self.toks@.len(), 45int,
    {
        let t = self.bump();
        let target = self.parse_target_list()?;
        let _in = self.expect(TokTag::In, "in")?;
        let iter = self.parse_testlist()?;
        let _c = self.expect(TokTag::Colon, ":")?;
        let body = self.parse_suite()?;
        let end = end_of_suite(&body);
        Ok(
            Stmt {
                location: t.0,
                end_location: Some(end),
                custom: NoCustom,
                node: StmtKind::For { target: Box::new(target), iter: Box::new(iter), body },
            },
        )
    }

    /// A function definition.
    #[verifier::loop_isolation(false)]
    fn parse_def(&mut self) -> (r: Result<Stmt, EngineError>)
        requires
            old(self).toks@.len() > 0,
        ensures
            steps(*old(self), *final(self)),
            r matches Ok(st) ==> final(self).toks@.len() < old(self).toks@.len(),
            r matches Ok(st) ==> old(self).inv() ==> stmt_between(*old(self), *final(self), st),
        decreases self.depth, self.toks@.len(), 45int,
    {
        let t = self.bump();
        let nt = self.expect(TokTag::Name, "Name")?;
        let name = match nt.1 {
            Tok::Name { name } => name,
            _ => String::new(),
        };
        let _lp = self.expect(TokTag::Lpar, "(")?;
        let args = self.parse_params()?;
        let _rp = self.expect(TokTag::Rpar, ")")?;
        let _c = self.expect(TokTag::Colon, ":")?;
        let body = self.parse_suite()?;
        let end = end_of_suite(&body);
        Ok(
            Stmt {
                location: t.0,
                end_location: Some(end),
                custom: NoCustom,
                node: StmtKind::FunctionDef { name, args: Box::new(args), body },
            },
        )
    }

    /// A class definition, with an optional `extends` base-class list.
    #[verifier::loop_isolation(false)]
    fn parse_class(&mut self) -> (r: Result<Stmt, EngineError>)
        requires
            old(self).toks@.len() > 0,
        ensures
            steps(*old(self), *final(self)),
            r matches Ok(st) ==> final(self).toks@.len() < old(self).toks@.len(),
            r matches Ok(st) ==> old(self).inv() ==> stmt_between(*old(self), *final(self), st),
        decreases self.depth, self.toks@.len(), 45int,
    {
        let ghost p0 = *self;
        let t = self.bump();
        let nt = self.expect(TokTag::Name, "Name")?;
        let name = match nt.1 {
            Tok::Name { name } => name,
            _ => String::new(),
        };
        let mut bases: Vec<Expr> = Vec::new();
        if self.peek() == TokTag::Extends {
            let _e = self.bump();
            let b0 = self.parse_test()?;
            bases.push(b0);
            loop
                invariant
                    steps(p0, *self),
                    self.toks@.len() < p0.toks@.len(),
                    p0.inv() ==> (forall|i: int| 0 <= i < bases@.len() ==> expr_wf(
                        #[trigger] bases@[i],
                    )),
                decreases self.toks@.len(),
            {
                if self.peek() != TokTag::Comma {
                    break;
                }
                let _c = self.bump();
                let b = self.parse_test()?;
                bases.push(b);
            }
        }
        let _c = self.expect(TokTag::Colon, ":")?;
        let body = self.parse_suite()?;
        let end = end_of_suite(&body);
        Ok(
            Stmt {
                location: t.0,
                end_location: Some(end),
                custom: NoCustom,
                node: StmtKind::ClassDef { name, bases, body },
            },
        )
    }

    /// One statement: a compound form, or a simple statement optionally
    /// carrying a trailing `do:` block, ended by its newline.
    #[verifier::loop_isolation(false)]
    #[verifier::rlimit(60)]
    fn parse_statement(&mut self) -> (r: Result<Stmt, EngineError>)
        ensures
            steps(*old(self), *final(self)),
            r matches Ok(st) ==> final(self).toks@.len() < old(self).toks@.len(),
            r matches Ok(st) ==> old(self).inv() ==> stmt_between(*old(self), *final(self), st),
        decreases self.depth, self.toks@.len(), 50int,
    {
        let ghost p0 = *self;
        let tag = self.peek();
        if tag == TokTag::Missing {
            return Err(self.take_end_error());
        }
        if tag == TokTag::If {
            return self.parse_if();
        }
        if tag == TokTag::While {
            return self.parse_while();
        }
        if tag == TokTag::For {
            return self.parse_for();
        }
        if tag == TokTag::Def {
            return self.parse_def();
        }
        if tag == TokTag::Class {
            return self.parse_class();
        }
        let mut st = self.parse_small_stmt()?;
        let has_do = self.peek() == TokTag::Do || (self.peek() == TokTag::Async && self.peek2()
            == TokTag::Do);
        if !has_do {
            let _nl = self.expect(TokTag::Newline, "Newline")?;
            return Ok(st);
        }
        let mode = if self.peek() == TokTag::Async {
            let _a = self.bump();
            DoMode::Async
        } else {
            DoMode::Sync
        };
        let do_tok = self.expect(TokTag::Do, "do")?;
        let _c = self.expect(TokTag::Colon, ":")?;
        let body = self.parse_indented_block()?;
        let block_end = end_of_suite(&body);
        let block = Expr {
            location: do_tok.0,
            end_location: Some(block_end),
            custom: NoCustom,
            node: ExprKind::DoBlock { body, mode },
        };
        let ghost block_g = block;
        let ghost node0 = st.node;
        let ghost inv0 = p0.inv();
        // splice the block onto the statement's attachment point: a call
        // there takes it as its final argument; anything else refuses it
        let attach = |target: Expr| -> (res: (Expr, bool))
            ensures
                res.1 == (target.node matches ExprKind::Call { .. }),
                (rightmost_path_ok(target) ==> rightmost_path_ok(res.0)),
                (expr_wf(target) && expr_wf(block_g) ==> expr_wf(res.0)),
            {
                match target.node {
                    ExprKind::Call { func, args, keywords } => {
                        let ghost args0 = args@;
                        let mut args = args;
                        args.push(block);
                        proof {
                            assert forall|i: int|
                                0 <= i < args@.len() && expr_wf(block_g) && (forall|j: int|
                                    0 <= j < args0.len() ==> expr_wf(
                                        #[trigger] args0[j],
                                    )) implies expr_wf(#[trigger] args@[i]) by {
                                if i < args0.len() {
                                    assert(args@[i] == args0[i]);
                                }
                            }
                        }
                        (
                            Expr {
                                location: target.location,
                                end_location: target.end_location,
                                custom: NoCustom,
                                node: ExprKind::Call { func, args, keywords },
                            },
                            true,
                        )
                    },
                    node => (
                        Expr {
                            location: target.location,
                            end_location: target.end_location,
                            custom: NoCustom,
                            node,
                        },
                        false,
                    ),
                }
            };
        proof {
            crate::ast::lemma_stmt_target_path_ok(node0);
            if inv0 {
                crate::ast::lemma_stmt_target_wf(node0);
                assert(expr_wf(block_g));
            }
        }
        let attached = crate::ast::modify_rightmost_expr_of_statement(&mut st.node, attach);
        if !attached {
            return Err(
                EngineError::UnrecognizedToken { token: do_tok, expected: Vec::new() },
            );
        }
        proof {
            let t = crate::ast::stmt_rightmost_target(node0)->Some_0;
            let p = choose|p: (Expr, bool)|
                call_ensures(attach, (t,), p) && crate::ast::is_stmt_rightmost_replaced(
                    node0,
                    st.node,
                    p.0,
                ) && attached == p.1;
            if inv0 {
                crate::ast::lemma_stmt_rightmost_replaced_wf(node0, st.node, p.0);
            }
        }
        st.end_location = Some(block_end);
        Ok(st)
    }

    /// The statements of a module or interactive unit, up to and including
    /// the end-of-file marker.
    #[verifier::loop_isolation(false)]
    fn parse_statements(&mut self) -> (r: Result<Vec<Stmt>, EngineError>)
        ensures
            steps(*old(self), *final(self)),
            r matches Ok(b) ==> old(self).inv() ==> suite_wf(b@),
            r matches Ok(b) ==> (b@.len() == 0 ==> forall|i: int|
                0 <= i < old(self).toks@.len() ==> !content_tok(
                    (#[trigger] old(self).toks@[i]).1,
                )),
            (old(self).toks@.len() == 1 && tag_of(old(self).toks@[0].1) == TokTag::EndOfFile)
                ==> ((r matches Ok(b)) && r->Ok_0@.len() == 0),
            old(self).toks@.len() == 0 ==> ((r matches Err(ee)) && (old(
                self,
            ).pending matches Some(le) ==> r->Err_0 == (EngineError::User { error: le })) && (old(
                self,
            ).pending is None ==> r->Err_0 == (EngineError::UnrecognizedEof {
                location: old(self).last,
            }))),
        decreases self.depth, self.toks@.len(), 60int,
    {
        let ghost p0 = *self;
        let mut body: Vec<Stmt> = Vec::new();
        loop
            invariant
                steps(p0, *self),
                (p0.toks@.len() == 1 && tag_of(p0.toks@[0].1) == TokTag::EndOfFile) ==> (
                body@.len() == 0 && self.toks@ == p0.toks@),
                p0.toks@.len() == 0 ==> (self.toks@.len() == 0 && self.pending == p0.pending
                    && self.last == p0.last),
                body@.len() == 0 ==> self.toks@ == p0.toks@.subrange(
                    p0.toks@.len() - self.toks@.len(),
                    p0.toks@.len() as int,
                ),
                body@.len() == 0 ==> (forall|i: int|
                    0 <= i < p0.toks@.len() - self.toks@.len() ==> !content_tok(
                        (#[trigger] p0.toks@[i]).1,
                    )),
                p0.inv() ==> (forall|i: int| 0 <= i < body@.len() ==> stmt_wf(
                    #[trigger] body@[i],
                )),
            decreases self.toks@.len(),
        {
            let tag = self.peek();
            if tag == TokTag::Newline {
                let _nl = self.bump();
                proof {
                    if body@.len() == 0 {
                        assert(self.toks@ =~= p0.toks@.subrange(
                            p0.toks@.len() - self.toks@.len(),
                            p0.toks@.len() as int,
                        ));
                    }
                }
            } else if tag == TokTag::EndOfFile {
                let _e = self.bump();
                proof {
                    if body@.len() == 0 {
                        assert(self.toks@ =~= p0.toks@.subrange(
                            p0.toks@.len() - self.toks@.len(),
                            p0.toks@.len() as int,
                        ));
                    }
                }
                break;
            } else if tag == TokTag::Missing {
                return Err(self.take_end_error());
            } else {
                let st = self.parse_statement()?;
                body.push(st);
            }
        }
        if self.toks.len() > 0 {
            let t = self.bump();
            return Err(EngineError::ExtraToken { token: t });
        }
        Ok(body)
    }

    /// The entry rule: the injected marker selects the grammar's entry
    /// point, and everything after the recognized unit must be consumed.
    #[verifier::loop_isolation(false)]
    fn parse_top(&mut self) -> (r: Result<Mod, EngineError>)
        ensures
            steps(*old(self), *final(self)),
            r matches Ok(m) ==> old(self).inv() ==> mod_wf(m),
            r matches Ok(m) ==> old(self).toks@.len() > 0 && (tag_of(old(self).toks@[0].1)
                == TokTag::StartModule ==> m is Module) && (tag_of(old(self).toks@[0].1)
                == TokTag::StartInteractive ==> m is Interactive) && (tag_of(old(self).toks@[0].1)
                == TokTag::StartExpression ==> m is Expression),
            r matches Ok(m) ==> (m matches Mod::Module { body } && body@.len() == 0 ==> forall|
                k: int,
            |
                1 <= k < old(self).toks@.len() ==> !content_tok(
                    (#[trigger] old(self).toks@[k]).1,
                )),
            (old(self).toks@.len() == 2 && (old(self).toks@[0].1 matches Tok::StartModule)
                && tag_of(old(self).toks@[1].1) == TokTag::EndOfFile) ==> ((r matches Ok(m)) && (
            r->Ok_0 matches Mod::Module { body } && body@.len() == 0)),
            old(self).pending matches Some(le) ==> old(self).toks@.len() == 1 ==> (old(
                self,
            ).toks@[0].1 matches Tok::StartModule) ==> ((r matches Err(ee)) && r->Err_0 == (
            EngineError::User { error: le })),
            (old(self).toks@.len() == 3 && (old(self).toks@[0].1 matches Tok::StartExpression)
                && leaf_node(old(self).toks@[1].1) is Some && tag_of(old(self).toks@[2].1)
                == TokTag::EndOfFile) ==> ((r matches Ok(m)) && (
            r->Ok_0 matches Mod::Expression { body } && *body == leaf_expr(old(self).toks@[1]))),
        decreases self.depth, self.toks@.len(), 99int,
    {
        let ghost p0 = *self;
        if self.toks.len() == 0 {
            return Err(self.take_end_error());
        }
        let t = self.bump();
        match t.1 {
            Tok::StartModule => {
                let ghost mid = *self;
                proof {
                    if p0.toks@.len() == 2 && tag_of(p0.toks@[1].1) == TokTag::EndOfFile {
                        assert(mid.toks@[0] == p0.toks@[1]);
                        assert(mid.toks@.len() == 1);
                    }
                }
                let body = self.parse_statements()?;
                proof {
                    if body@.len() == 0 {
                        assert forall|k: int| 1 <= k < p0.toks@.len() implies !content_tok(
                            (#[trigger] p0.toks@[k]).1,
                        ) by {
                            assert(mid.toks@[k - 1] == p0.toks@[k]);
                        }
                    }
                }
                Ok(Mod::Module { body })
            },
            Tok::StartInteractive => {
                let body = self.parse_statements()?;
                Ok(Mod::Interactive { body })
            },
            Tok::StartExpression => {
                let ghost mid0 = *self;
                proof {
                    if p0.toks@.len() == 3 && leaf_node(p0.toks@[1].1) is Some && tag_of(
                        p0.toks@[2].1,
                    ) == TokTag::EndOfFile {
                        assert(mid0.toks@[0] == p0.toks@[1]);
                        assert(mid0.toks@[1] == p0.toks@[2]);
                        assert(leaf_then_end(mid0));
                    }
                }
                let e = self.parse_testlist()?;
                let ghost pmid = *self;
                loop
                    invariant
                        steps(p0, *self),
                        steps(pmid, *self),
                        p0.inv() ==> expr_between(p0, *self, e),
                        leaf_then_end(mid0) ==> self.toks@ == pmid.toks@,
                    decreases self.toks@.len(),
                {
                    if self.peek() != TokTag::Newline {
                        break;
                    }
                    let _nl = self.bump();
                }
                proof {
                    if leaf_then_end(mid0) {
                        assert(pmid.toks@ == mid0.toks@.subrange(1, 2));
                        assert(pmid.toks@[0] == mid0.toks@[1]);
                        assert(self.toks@[0] == mid0.toks@[1]);
                    }
                }
                let _eof = self.expect(TokTag::EndOfFile, "EOF")?;
                if self.toks.len() > 0 {
                    let t2 = self.bump();
                    return Err(EngineError::ExtraToken { token: t2 });
                }
                Ok(Mod::Expression { body: Box::new(e) })
            },
            _other => Err(EngineError::InvalidToken { location: t.0 }),
        }
    }
}

/// The end position of a block: its last statement's end.
fn end_of_suite(body: &Vec<Stmt>) -> (r: Location)
    ensures
        body@.len() > 0 ==> (body@.last().end_location matches Some(x) ==> r == x),
{
    if body.len() == 0 {
        Location { row: 0, column: 0 }
    } else {
        match body[body.len() - 1].end_location {
            Some(x) => x,
            Option::None => body[body.len() - 1].location,
        }
    }
}

/// A token that carries program content, as opposed to pure line
/// structure: anything but a newline, a comment or the end-of-file marker.
pub open spec fn content_tok(t: Tok) -> bool {
    !(t matches Tok::Newline) && !(t matches Tok::Comment) && !(t matches Tok::EndOfFile)
}

/// The expression node a single literal or name token denotes, where it
/// denotes one on its own: exact digits for numbers, exact content for
/// plain strings.
pub open spec fn leaf_node(t: Tok) -> Option<ExprKind> {
    match t {
        Tok::Int { value } => Some(
            ExprKind::Constant { value: Constant::Int(value), kind: Option::None },
        ),
        Tok::Float { value } => Some(
            ExprKind::Constant { value: Constant::Float(value), kind: Option::None },
        ),
        Tok::Str { value, is_fstring } => if !is_fstring {
            Some(ExprKind::Constant { value: Constant::Str(value), kind: Option::None })
        } else {
            Option::None
        },
        Tok::Name { name } => Some(ExprKind::Name { id: name }),
        Tok::True => Some(
            ExprKind::Constant { value: Constant::Bool(true), kind: Option::None },
        ),
        Tok::False => Some(
            ExprKind::Constant { value: Constant::Bool(false), kind: Option::None },
        ),
        Tok::NoneKw => Some(
            ExprKind::Constant { value: Constant::NoneLit, kind: Option::None },
        ),
        _ => Option::None,
    }
}

/// The expression a lone leaf token parses to: its node, spanning the
/// token.
pub open spec fn leaf_expr(t: Spanned) -> Expr {
    Expr {
        location: t.0,
        end_location: Some(t.2),
        custom: NoCustom,
        node: leaf_node(t.1)->Some_0,
    }
}

/// The stream holds exactly one leaf token and then the end of input: the
/// descent must hand back that token's own node, untouched by any
/// operator rule.
pub(crate) open spec fn leaf_then_end(pre: Parser) -> bool {
    pre.toks@.len() == 2 && leaf_node(pre.toks@[0].1) is Some && tag_of(pre.toks@[1].1)
        == TokTag::EndOfFile
}

/// The variant of the root that each entry mode produces.
pub open spec fn mode_shape(mode: Mode, m: Mod) -> bool {
    match mode {
        Mode::Module => m is Module,
        Mode::Interactive => m is Interactive,
        Mode::Expression => m is Expression,
    }
}

/// How many formatted-string embeddings a single parse may stack before
/// the scan fails with a nesting error.
const EMBED_DEPTH_LIMIT: u32 = 64;

#[verifier::loop_isolation(false)]
pub(crate) fn parse_tokens_impl(
    lxr: Vec<LexResult>,
    mode: Mode,
    source_path: &str,
    depth: u32,
) -> (r: Result<Mod, ParseError>)
    ensures
        r matches Ok(m) ==> mode_shape(mode, m),
        r matches Ok(m) ==> crate::lexer::results_sorted(lxr@) ==> mod_wf(m),
        r matches Ok(m) ==> ((forall|i: int| 0 <= i < lxr@.len() ==> (#[trigger] lxr@[i]) is Ok)
            && (m matches Mod::Module { body } && body@.len() == 0) ==> forall|i: int|
            0 <= i < lxr@.len() ==> !content_tok((#[trigger] lxr@[i])->Ok_0.1)),
        (lxr@.len() == 1 && (lxr@[0] matches Ok(t) && t.1 matches Tok::EndOfFile) && mode
            == Mode::Module) ==> ((r matches Ok(m)) && (r->Ok_0 matches Mod::Module { body }
            && body@.len() == 0)),
        lxr@[0] matches Err(le) ==> lxr@.len() == 1 ==> mode == Mode::Module ==> ((
        r matches Err(pe)) && r->Err_0.error == ParseErrorType::Lexical(le.error)
            && r->Err_0.location == le.location),
        (lxr@.len() == 2 && (lxr@[0] matches Ok(t0) && leaf_node(t0.1) is Some) && (
        lxr@[1] matches Ok(t1) && t1.1 matches Tok::EndOfFile) && mode == Mode::Expression) ==> ((
        r matches Ok(m)) && (r->Ok_0 matches Mod::Expression { body } && *body == leaf_expr(
            lxr@[0]->Ok_0,
        ))),
        r matches Err(pe) ==> pe.source_path@ == source_path@,
    decreases depth as int + 1, 0int, 0int,
{
    let ghost lx0 = lxr@;
    let marker = (
        Location { row: 0, column: 0 },
        mode.to_marker(),
        Location { row: 0, column: 0 },
    );
    let ghost m0 = marker;
    let mut toks: Vec<Spanned> = Vec::new();
    toks.push(marker);
    let mut pending: Option<LexicalError> = Option::None;
    let mut lxr = lxr;
    proof {
        assert(lxr@ =~= lx0.subrange(0, lx0.len() as int));
    }
    loop
        invariant
            toks@.len() >= 1,
            toks@[0] == m0,
            lxr@.len() <= lx0.len(),
            lxr@ == lx0.subrange(lx0.len() - lxr@.len(), lx0.len() as int),
            crate::lexer::results_sorted(lx0) ==> crate::lexer::results_sorted(lxr@)
                && sorted_spanned(toks@) && (pending is None && lxr@.len() > 0 && lxr@[0] is Ok
                ==> loc_le(toks@.last().2, lxr@[0]->Ok_0.0)),
            (forall|i: int| 0 <= i < lx0.len() ==> (#[trigger] lx0[i]) is Ok) ==> pending is None,
            (lx0.len() == 1 && (lx0[0] matches Ok(t0) && tag_of(t0.1) != TokTag::Comment)) ==> (
            pending is None && (lxr@.len() == 1 ==> toks@ =~= seq![m0]) && (lxr@.len() == 0
                ==> toks@ =~= seq![m0, lx0[0]->Ok_0])),
            (lx0.len() == 1 && lx0[0] is Err) ==> (toks@ =~= seq![m0] && (lxr@.len() == 1
                ==> pending is None) && (lxr@.len() == 0 ==> pending == Some(lx0[0]->Err_0))),
            (lx0.len() == 2 && (lx0[0] matches Ok(t0) && leaf_node(t0.1) is Some) && (
            lx0[1] matches Ok(t1) && t1.1 matches Tok::EndOfFile)) ==> (pending is None && (
            lxr@.len() == 2 ==> toks@ =~= seq![m0]) && (lxr@.len() == 1 ==> toks@ =~= seq![
                m0,
                lx0[0]->Ok_0,
            ]) && (lxr@.len() == 0 ==> toks@ =~= seq![m0, lx0[0]->Ok_0, lx0[1]->Ok_0])),
            (forall|i: int| 0 <= i < lx0.len() ==> (#[trigger] lx0[i]) is Ok) ==> ((forall|k: int|
                1 <= k < toks@.len() ==> !content_tok((#[trigger] toks@[k]).1)) ==> (forall|i: int|
                0 <= i < lx0.len() - lxr@.len() ==> !content_tok((#[trigger] lx0[i])->Ok_0.1))),
        decreases lxr@.len(),
    {
        if lxr.len() == 0 {
            break;
        }
        let ghost before = lxr@;
        let ghost k0: int = lx0.len() - before.len();
        let item = lxr.remove(0);
        proof {
            assert(before == lx0.subrange(k0, lx0.len() as int));
            assert(before.len() > 0);
            assert(lx0.subrange(k0, lx0.len() as int)[0] == lx0[k0]);
            assert(item == before[0]);
            assert(item == lx0[k0]);
            assert forall|i: int| 0 <= i < lxr@.len() implies #[trigger] lxr@[i] == lx0[k0 + 1 + i]
            by {
                assert(lxr@[i] == before[i + 1]);
                assert(before[i + 1] == lx0.subrange(k0, lx0.len() as int)[i + 1]);
            }
            assert(lxr@ =~= lx0.subrange(lx0.len() - lxr@.len(), lx0.len() as int));
        }
        if pending.is_none() {
            match item {
                Ok(t) => {
                    if tag_of_tok(&t.1) == TokTag::Comment {
                        proof {
                            if (forall|ii: int|
                                0 <= ii < lx0.len() ==> (#[trigger] lx0[ii]) is Ok) {
                                assert forall|i: int|
                                    0 <= i < lx0.len() - lxr@.len() && (forall|k: int|
                                        1 <= k < toks@.len() ==> !content_tok(
                                            (#[trigger] toks@[k]).1,
                                        )) implies !content_tok(
                                    (#[trigger] lx0[i])->Ok_0.1,
                                ) by {
                                    if i == k0 {
                                        assert(lx0[i]->Ok_0 == t);
                                        assert(!content_tok(t.1));
                                    }
                                }
                            }
                        }
                    } else {
                        let ghost toks_before = toks@;
                        toks.push(t);
                        proof {
                            if crate::lexer::results_sorted(lx0) {
                                assert(sorted_spanned(toks@));
                            }
                            assert forall|kk: int|
                                0 <= kk < toks_before.len() implies #[trigger] toks@[kk]
                                == toks_before[kk] by {}
                            assert(toks@[toks_before.len() as int] == t);
                            if (forall|ii: int|
                                0 <= ii < lx0.len() ==> (#[trigger] lx0[ii]) is Ok) {
                                assert forall|i: int|
                                    0 <= i < lx0.len() - lxr@.len() && (forall|k: int|
                                        1 <= k < toks@.len() ==> !content_tok(
                                            (#[trigger] toks@[k]).1,
                                        )) implies !content_tok(
                                    (#[trigger] lx0[i])->Ok_0.1,
                                ) by {
                                    assert forall|k: int|
                                        (forall|k2: int|
                                            1 <= k2 < toks@.len() ==> !content_tok(
                                                (#[trigger] toks@[k2]).1,
                                            )) && 1 <= k < toks_before.len() implies !content_tok(
                                        (#[trigger] toks_before[k]).1,
                                    ) by {
                                        assert(toks_before[k] == toks@[k]);
                                    }
                                    if i == k0 {
                                        assert(lx0[i]->Ok_0 == t);
                                        assert(1 <= toks_before.len() < toks@.len());
                                    }
                                }
                            }
                        }
                    }
                },
                Err(e) => {
                    pending = Some(e);
                    proof {
                        if (forall|ii: int| 0 <= ii < lx0.len() ==> (#[trigger] lx0[ii]) is Ok) {
                            assert(lx0[k0] is Ok);
                            assert(false);
                        }
                    }
                },
            }
        } else {
            proof {
                if (forall|ii: int| 0 <= ii < lx0.len() ==> (#[trigger] lx0[ii]) is Ok) {
                    assert(false);
                }
            }
        }
    }
    let ghost toks_g = toks@;
    let mut p = Parser { toks, pending, last: Location { row: 0, column: 0 }, depth };
    proof {
        if crate::lexer::results_sorted(lx0) {
            assert(p.inv());
        }
    }
    match p.parse_top() {
        Ok(m) => {
            proof {
                if (forall|i: int| 0 <= i < lx0.len() ==> (#[trigger] lx0[i]) is Ok) && m is Module
                    && m->Module_body@.len() == 0 {
                    assert(forall|k: int|
                        1 <= k < toks_g.len() ==> !content_tok((#[trigger] toks_g[k]).1));
                }
            }
            Ok(m)
        },
        Err(e) => Err(crate::error::parse_error_from_engine(e, source_path)),
    }
}

#[verifier::loop_isolation(false)]
pub(crate) fn parse_impl(source: &str, mode: Mode, source_path: &str, depth: u32) -> (r: Result<
    Mod,
    ParseError,
>)
    ensures
        r matches Ok(m) ==> mod_wf(m) && mode_shape(mode, m),
        (crate::lexer::blank_chars(source@) && mode == Mode::Module) ==> ((r matches Ok(m)) && (
        r->Ok_0 matches Mod::Module { body } && body@.len() == 0)),
        r matches Err(pe) ==> pe.source_path@ == source_path@,
    decreases depth as int + 1, 1int, 0int,
{
    let lxr = crate::lexer::make_tokenizer(source);
    parse_tokens_impl(lxr, mode, source_path, depth)
}

/// Parses source text under the selected entry mode. On success the root
/// matches the mode and every node of the tree is well formed: where a
/// node has an end position it never precedes the node's start position,
/// and no transient block placeholder remains. A blank module — spaces and
/// line endings only — always parses, to an empty body; a failure carries
/// the given source path.
pub fn parse(source: &str, mode: Mode, source_path: &str) -> (r: Result<Mod, ParseError>)
    ensures
        r matches Ok(m) ==> mod_wf(m) && mode_shape(mode, m),
        (crate::lexer::blank_chars(source@) && mode == Mode::Module) ==> ((r matches Ok(m)) && (
        r->Ok_0 matches Mod::Module { body } && body@.len() == 0)),
        r matches Err(pe) ==> pe.source_path@ == source_path@,
{
    parse_impl(source, mode, source_path, EMBED_DEPTH_LIMIT)
}

/// Parses an already-produced token sequence under the selected entry
/// mode, for callers that hold a stream (as the formatted-string embedding
/// does). The root matches the mode; when the stream's positions are in
/// source order — as every tokenizer-produced stream's are — the whole
/// tree is well formed.
pub fn parse_tokens(lxr: Vec<LexResult>, mode: Mode, source_path: &str) -> (r: Result<
    Mod,
    ParseError,
>)
    ensures
        r matches Ok(m) ==> mode_shape(mode, m),
        r matches Ok(m) ==> crate::lexer::results_sorted(lxr@) ==> mod_wf(m),
        r matches Ok(m) ==> ((forall|i: int| 0 <= i < lxr@.len() ==> (#[trigger] lxr@[i]) is Ok)
            && (m matches Mod::Module { body } && body@.len() == 0) ==> forall|i: int|
            0 <= i < lxr@.len() ==> !content_tok((#[trigger] lxr@[i])->Ok_0.1)),
        (lxr@.len() == 1 && (lxr@[0] matches Ok(t) && t.1 matches Tok::EndOfFile) && mode
            == Mode::Module) ==> ((r matches Ok(m)) && (r->Ok_0 matches Mod::Module { body }
            && body@.len() == 0)),
        lxr@[0] matches Err(le) ==> lxr@.len() == 1 ==> mode == Mode::Module ==> ((
        r matches Err(pe)) && r->Err_0.error == ParseErrorType::Lexical(le.error)
            && r->Err_0.location == le.location),
        (lxr@.len() == 2 && (lxr@[0] matches Ok(t0) && leaf_node(t0.1) is Some) && (
        lxr@[1] matches Ok(t1) && t1.1 matches Tok::EndOfFile) && mode == Mode::Expression) ==> ((
        r matches Ok(m)) && (r->Ok_0 matches Mod::Expression { body } && *body == leaf_expr(
            lxr@[0]->Ok_0,
        ))),
        r matches Err(pe) ==> pe.source_path@ == source_path@,
{
    parse_tokens_impl(lxr, mode, source_path, EMBED_DEPTH_LIMIT)
}

/// Parses a whole program: the statements of its module. A blank source —
/// spaces and line endings only — always parses, to an empty suite.
pub fn parse_program(source: &str, source_path: &str) -> (r: Result<Vec<Stmt>, ParseError>)
    ensures
        r matches Ok(b) ==> suite_wf(b@),
        crate::lexer::blank_chars(source@) ==> ((r matches Ok(b)) && r->Ok_0@.len() == 0),
        r matches Err(pe) ==> pe.source_path@ == source_path@,
{
    match parse(source, Mode::Module, source_path) {
        Ok(m) => match m {
            Mod::Module { body } => Ok(body),
            _ => vstd::pervasive::unreached(),
        },
        Err(e) => Err(e),
    }
}

/// Parses a single expression.
pub fn parse_expression(source: &str, path: &str) -> (r: Result<Expr, ParseError>)
    ensures
        r matches Ok(e) ==> expr_wf(e),
        r matches Err(pe) ==> pe.source_path@ == path@,
{
    match parse(source, Mode::Expression, path) {
        Ok(m) => match m {
            Mod::Expression { body } => Ok(*body),
            _ => vstd::pervasive::unreached(),
        },
        Err(e) => Err(e),
    }
}

} // verus!




