//! The tokenizer: a single-pass scanner turning source text into a sequence
//! of located tokens, tracking indentation, bracket nesting, string
//! literals and line continuation. The sequence stops at the first error.

use vstd::prelude::*;
use crate::error::{LexicalError, LexicalErrorType};
use crate::location::{loc_le, Location};
use crate::strutil::{chars_to_string, str_eq, str_to_chars};
use crate::token::{sorted_spanned, Spanned, Tok};

verus! {

/// One tokenizer item: a located token, or the error that ended the scan.
pub type LexResult = Result<Spanned, LexicalError>;

/// One entry of the indentation stack: how many tabs and how many spaces a
/// line's indentation run holds.
#[derive(Copy, Clone, Debug, PartialEq, Eq, Structural)]
pub struct IndentationLevel {
    pub tabs: usize,
    pub spaces: usize,
}

/// How two indentation runs compare, when they compare at all.
#[derive(Copy, Clone, Debug, PartialEq, Eq, Structural)]
pub enum IndentOrder {
    Less,
    Equal,
    Greater,
}

/// Compares two indentation runs. The order is certain only when tabs and
/// spaces agree in direction; a run with fewer tabs but more spaces (or the
/// reverse) depends on the size of a tab stop, and compares as `None`.
pub open spec fn spec_indent_compare(a: IndentationLevel, b: IndentationLevel) -> Option<
    IndentOrder,
> {
    if a.tabs < b.tabs {
        if a.spaces <= b.spaces {
            Some(IndentOrder::Less)
        } else {
            None
        }
    } else if a.tabs > b.tabs {
        if a.spaces >= b.spaces {
            Some(IndentOrder::Greater)
        } else {
            None
        }
    } else {
        if a.spaces < b.spaces {
            Some(IndentOrder::Less)
        } else if a.spaces == b.spaces {
            Some(IndentOrder::Equal)
        } else {
            Some(IndentOrder::Greater)
        }
    }
}

/// The executable twin of `spec_indent_compare`.
pub fn compare_indent(a: &IndentationLevel, b: &IndentationLevel) -> (r: Option<IndentOrder>)
    ensures
        r == spec_indent_compare(*a, *b),
{
    if a.tabs < b.tabs {
        if a.spaces <= b.spaces {
            Some(IndentOrder::Less)
        } else {
            None
        }
    } else if a.tabs > b.tabs {
        if a.spaces >= b.spaces {
            Some(IndentOrder::Greater)
        } else {
            None
        }
    } else {
        if a.spaces < b.spaces {
            Some(IndentOrder::Less)
        } else if a.spaces == b.spaces {
            Some(IndentOrder::Equal)
        } else {
            Some(IndentOrder::Greater)
        }
    }
}

/// Pops stack entries until one equals `new`, counting one dedent per pop.
/// A pop that runs past a smaller entry without finding an equal one is an
/// indentation error; an entry `new` cannot be compared against is a tab
/// error.
pub open spec fn spec_dedent_steps(stack: Seq<IndentationLevel>, new: IndentationLevel) -> Result<
    (Seq<IndentationLevel>, nat),
    LexicalErrorType,
>
    decreases stack.len(),
{
    if stack.len() == 0 {
        Err(LexicalErrorType::IndentationError)
    } else {
        match spec_indent_compare(new, stack.last()) {
            Option::None => Err(LexicalErrorType::TabError),
            Option::Some(IndentOrder::Equal) => Ok((stack, 0)),
            Option::Some(IndentOrder::Greater) => Err(LexicalErrorType::IndentationError),
            Option::Some(IndentOrder::Less) => match spec_dedent_steps(stack.drop_last(), new) {
                Ok((st, nd)) => Ok((st, (nd + 1) as nat)),
                Err(k) => Err(k),
            },
        }
    }
}

/// One indentation decision at the start of a line: against the stack top,
/// a wider run pushes itself and emits one indent; an equal run does
/// nothing; a narrower run pops to a matching entry, one dedent per pop.
/// The result is the new stack, the indents emitted and the dedents
/// emitted, or the failure.
pub open spec fn spec_indent_step(stack: Seq<IndentationLevel>, new: IndentationLevel) -> Result<
    (Seq<IndentationLevel>, nat, nat),
    LexicalErrorType,
> {
    if stack.len() == 0 {
        Err(LexicalErrorType::IndentationError)
    } else {
        match spec_indent_compare(new, stack.last()) {
            Option::None => Err(LexicalErrorType::TabError),
            Option::Some(IndentOrder::Greater) => Ok((stack.push(new), 1, 0)),
            _ => match spec_dedent_steps(stack, new) {
                Ok((st, nd)) => Ok((st, 0, nd)),
                Err(k) => Err(k),
            },
        }
    }
}

/// The structural tokens an indentation decision emits, all at one
/// position: the indents first, then the dedents.
pub open spec fn marker_toks(ni: nat, nd: nat, loc: Location) -> Seq<Spanned> {
    Seq::new(ni, |i: int| (loc, Tok::Indent, loc)) + Seq::new(nd, |i: int| (loc, Tok::Dedent, loc))
}

/// A character that carries no program content on its own: a space or a
/// line ending. (A tab is deliberately not blank: the tab policy may
/// reject a tab after spaces even on an otherwise empty line.)
pub open spec fn blank_char(c: char) -> bool {
    c == ' ' || c == '\n' || c == '\r'
}

/// Source text of spaces and line endings only.
pub open spec fn blank_chars(cs: Seq<char>) -> bool {
    forall|i: int| 0 <= i < cs.len() ==> blank_char(#[trigger] cs[i])
}

struct Lexer {
    chars: Vec<char>,
    pos: usize,
    row: u32,
    col: u32,
    toks: Vec<Spanned>,
    indents: Vec<IndentationLevel>,
    brackets: Vec<char>,
    at_line_start: bool,
}

impl Lexer {
    spec fn cur(self) -> Location {
        Location { row: self.row, column: self.col }
    }

    spec fn inv(self) -> bool {
        &&& self.pos <= self.chars@.len()
        &&& sorted_spanned(self.toks@)
        &&& self.toks@.len() > 0 ==> loc_le(self.toks@.last().2, self.cur())
        &&& self.indents@.len() >= 1
    }

    fn cur_loc(&self) -> (r: Location)
        ensures
            r == self.cur(),
    {
        Location { row: self.row, column: self.col }
    }

    /// Steps over one character within the current line.
    fn advance(&mut self)
        requires
            old(self).inv(),
            old(self).pos < old(self).chars@.len(),
        ensures
            final(self).inv(),
            final(self).pos == old(self).pos + 1,
            final(self).chars == old(self).chars,
            final(self).toks == old(self).toks,
            final(self).indents == old(self).indents,
            final(self).brackets == old(self).brackets,
            final(self).at_line_start == old(self).at_line_start,
            final(self).row == old(self).row,
            loc_le(old(self).cur(), final(self).cur()),
    {
        let n = self.chars.len();
        self.pos = self.pos + 1;
        if self.col < u32::MAX - 1 {
            self.col = self.col + 1;
        }
    }

    /// Steps over a line break, moving the position to the start of the
    /// next physical line.
    fn advance_line(&mut self)
        requires
            old(self).inv(),
            old(self).pos < old(self).chars@.len(),
        ensures
            final(self).inv(),
            final(self).pos == old(self).pos + 1,
            final(self).chars == old(self).chars,
            final(self).toks == old(self).toks,
            final(self).indents == old(self).indents,
            final(self).brackets == old(self).brackets,
            final(self).at_line_start == old(self).at_line_start,
            loc_le(old(self).cur(), final(self).cur()),
    {
        let n = self.chars.len();
        self.pos = self.pos + 1;
        if self.row < u32::MAX {
            self.row = self.row + 1;
            self.col = 0;
        }
    }

    /// Appends one token; its span must start no earlier than the previous
    /// token ended, and end no later than the current position.
    fn emit(&mut self, start: Location, tok: Tok, end: Location)
        requires
            old(self).inv(),
            loc_le(start, end),
            loc_le(end, old(self).cur()),
            old(self).toks@.len() > 0 ==> loc_le(old(self).toks@.last().2, start),
        ensures
            final(self).inv(),
            final(self).toks@ == old(self).toks@.push((start, tok, end)),
            final(self).chars == old(self).chars,
            final(self).pos == old(self).pos,
            final(self).row == old(self).row,
            final(self).col == old(self).col,
            final(self).indents == old(self).indents,
            final(self).brackets == old(self).brackets,
            final(self).at_line_start == old(self).at_line_start,
    {
        self.toks.push((start, tok, end));
    }
}

fn is_digit_u(u: u32) -> (r: bool) {
    48 <= u && u <= 57
}

fn is_name_start_u(u: u32) -> (r: bool) {
    (65 <= u && u <= 90) || (97 <= u && u <= 122) || u == 95 || u >= 128
}

fn is_name_cont_u(u: u32) -> (r: bool) {
    (65 <= u && u <= 90) || (97 <= u && u <= 122) || u == 95 || u >= 128 || (48 <= u && u <= 57)
}

/// The keyword token for this identifier text, or a `Name` token holding it.
fn keyword_tok(text: String) -> Tok {
    if str_eq(text.as_str(), "and") {
        Tok::And
    } else if str_eq(text.as_str(), "or") {
        Tok::Or
    } else if str_eq(text.as_str(), "not") {
        Tok::Not
    } else if str_eq(text.as_str(), "if") {
        Tok::If
    } else if str_eq(text.as_str(), "elif") {
        Tok::Elif
    } else if str_eq(text.as_str(), "else") {
        Tok::Else
    } else if str_eq(text.as_str(), "while") {
        Tok::While
    } else if str_eq(text.as_str(), "for") {
        Tok::For
    } else if str_eq(text.as_str(), "in") {
        Tok::In
    } else if str_eq(text.as_str(), "is") {
        Tok::Is
    } else if str_eq(text.as_str(), "lambda") {
        Tok::Lambda
    } else if str_eq(text.as_str(), "pass") {
        Tok::Pass
    } else if str_eq(text.as_str(), "break") {
        Tok::Break
    } else if str_eq(text.as_str(), "continue") {
        Tok::Continue
    } else if str_eq(text.as_str(), "return") {
        Tok::Return
    } else if str_eq(text.as_str(), "def") {
        Tok::Def
    } else if str_eq(text.as_str(), "class") {
        Tok::Class
    } else if str_eq(text.as_str(), "extends") {
        Tok::Extends
    } else if str_eq(text.as_str(), "do") {
        Tok::Do
    } else if str_eq(text.as_str(), "async") {
        Tok::Async
    } else if str_eq(text.as_str(), "await") {
        Tok::Await
    } else if str_eq(text.as_str(), "yield") {
        Tok::Yield
    } else if str_eq(text.as_str(), "from") {
        Tok::From
    } else if str_eq(text.as_str(), "True") {
        Tok::True
    } else if str_eq(text.as_str(), "False") {
        Tok::False
    } else if str_eq(text.as_str(), "None") {
        Tok::NoneKw
    } else {
        Tok::Name { name: text }
    }
}

impl Lexer {
    /// Applies one indentation decision, emitting the indent or dedent
    /// markers it calls for, exactly as the specification-level step says.
    #[verifier::loop_isolation(false)]
    fn handle_indentation(&mut self, lvl: IndentationLevel) -> (r: Result<(), LexicalError>)
        requires
            old(self).inv(),
        ensures
            final(self).inv(),
            final(self).chars == old(self).chars,
            final(self).pos == old(self).pos,
            final(self).row == old(self).row,
            final(self).col == old(self).col,
            final(self).brackets == old(self).brackets,
            final(self).at_line_start == old(self).at_line_start,
            match spec_indent_step(old(self).indents@, lvl) {
                Ok(res) => r matches Ok(u) && final(self).indents@ == res.0 && final(self).toks@
                    == old(self).toks@ + marker_toks(res.1, res.2, old(self).cur()),
                Err(k) => r matches Err(e) && e.error == k && e.location == old(self).cur(),
            },
    {
        let loc = self.cur_loc();
        let top = self.indents[self.indents.len() - 1];
        match compare_indent(&lvl, &top) {
            Option::None => Err(
                LexicalError { error: LexicalErrorType::TabError, location: loc },
            ),
            Option::Some(IndentOrder::Greater) => {
                self.indents.push(lvl);
                self.emit(loc, Tok::Indent, loc);
                proof {
                    assert(self.toks@ =~= old(self).toks@ + marker_toks(1, 0, loc));
                }
                Ok(())
            },
            _ => {
                let ghost s0 = *self;
                let mut popped: usize = 0;
                loop
                    invariant
                        self.inv(),
                        self.chars == s0.chars,
                        self.pos == s0.pos,
                        self.row == s0.row,
                        self.col == s0.col,
                        self.brackets == s0.brackets,
                        self.at_line_start == s0.at_line_start,
                        loc == s0.cur(),
                        popped + self.indents@.len() == s0.indents@.len(),
                        self.toks@ =~= s0.toks@ + marker_toks(0, popped as nat, loc),
                        spec_dedent_steps(s0.indents@, lvl) == (match spec_dedent_steps(
                            self.indents@,
                            lvl,
                        ) {
                            Ok(res) => Ok::<_, LexicalErrorType>(
                                (res.0, (res.1 + popped as nat) as nat),
                            ),
                            Err(k) => Err::<(Seq<IndentationLevel>, nat), _>(k),
                        }),
                    decreases self.indents@.len(),
                {
                    let top = self.indents[self.indents.len() - 1];
                    match compare_indent(&lvl, &top) {
                        Option::None => {
                            return Err(
                                LexicalError { error: LexicalErrorType::TabError, location: loc },
                            );
                        },
                        Option::Some(IndentOrder::Equal) => {
                            break;
                        },
                        Option::Some(IndentOrder::Greater) => {
                            return Err(
                                LexicalError {
                                    error: LexicalErrorType::IndentationError,
                                    location: loc,
                                },
                            );
                        },
                        Option::Some(IndentOrder::Less) => {
                            if self.indents.len() == 1 {
                                proof {
                                    assert(spec_dedent_steps(self.indents@.drop_last(), lvl)
                                        == Err::<(Seq<IndentationLevel>, nat), _>(
                                        LexicalErrorType::IndentationError,
                                    ));
                                }
                                return Err(
                                    LexicalError {
                                        error: LexicalErrorType::IndentationError,
                                        location: loc,
                                    },
                                );
                            }
                            let ghost stack_before = self.indents@;
                            self.indents.pop();
                            proof {
                                assert(self.indents@ =~= stack_before.drop_last());
                            }
                            self.emit(loc, Tok::Dedent, loc);
                            popped = popped + 1;
                            proof {
                                assert(self.toks@ =~= s0.toks@ + marker_toks(
                                    0,
                                    popped as nat,
                                    loc,
                                ));
                                assert(spec_dedent_steps(stack_before, lvl) == (
                                match spec_dedent_steps(self.indents@, lvl) {
                                    Ok(res) => Ok::<_, LexicalErrorType>(
                                        (res.0, (res.1 + 1) as nat),
                                    ),
                                    Err(k) => Err::<(Seq<IndentationLevel>, nat), _>(k),
                                }));
                            }
                        },
                    }
                }
                Ok(())
            },
        }
    }

    /// Consumes the comment from `#` to the end of the line, emitting a
    /// `Comment` token.
    #[verifier::loop_isolation(false)]
    fn scan_comment(&mut self)
        requires
            old(self).inv(),
            old(self).pos < old(self).chars@.len(),
        ensures
            final(self).inv(),
            final(self).chars == old(self).chars,
            final(self).pos > old(self).pos,
            final(self).indents == old(self).indents,
            final(self).brackets == old(self).brackets,
            final(self).at_line_start == old(self).at_line_start,
            final(self).row == old(self).row,
    {
        let n = self.chars.len();
        let start = self.cur_loc();
        let ghost s0 = *self;
        self.advance();
        loop
            invariant
                self.inv(),
                self.chars == s0.chars,
                self.toks == s0.toks,
                self.indents == s0.indents,
                self.brackets == s0.brackets,
                self.at_line_start == s0.at_line_start,
                self.row == s0.row,
                self.pos > s0.pos,
                n == self.chars@.len(),
                start == s0.cur(),
                loc_le(start, self.cur()),
            decreases self.chars@.len() - self.pos,
        {
            if self.pos >= n {
                break;
            }
            let c = self.chars[self.pos];
            if c == '\n' {
                break;
            }
            self.advance();
        }
        let end = self.cur_loc();
        self.emit(start, Tok::Comment, end);
    }

    /// Scans an identifier or keyword starting at the current position.
    #[verifier::loop_isolation(false)]
    fn scan_name(&mut self)
        requires
            old(self).inv(),
            old(self).pos < old(self).chars@.len(),
        ensures
            final(self).inv(),
            final(self).chars == old(self).chars,
            final(self).pos > old(self).pos,
            final(self).indents == old(self).indents,
            final(self).brackets == old(self).brackets,
            final(self).at_line_start == old(self).at_line_start,
            final(self).row == old(self).row,
    {
        let n = self.chars.len();
        let start = self.cur_loc();
        let ghost s0 = *self;
        let mut buf: Vec<char> = Vec::new();
        buf.push(self.chars[self.pos]);
        self.advance();
        loop
            invariant
                self.inv(),
                self.chars == s0.chars,
                self.toks == s0.toks,
                self.indents == s0.indents,
                self.brackets == s0.brackets,
                self.at_line_start == s0.at_line_start,
                self.row == s0.row,
                self.pos > s0.pos,
                n == self.chars@.len(),
                start == s0.cur(),
                loc_le(start, self.cur()),
            decreases self.chars@.len() - self.pos,
        {
            if self.pos >= n {
                break;
            }
            let c = self.chars[self.pos];
            if is_name_cont_u(c as u32) {
                buf.push(c);
                self.advance();
            } else {
                break;
            }
        }
        let text = chars_to_string(&buf);
        let tok = keyword_tok(text);
        let end = self.cur_loc();
        self.emit(start, tok, end);
    }

    /// Scans an integer or floating literal, keeping its exact digits.
    #[verifier::loop_isolation(false)]
    fn scan_number(&mut self)
        requires
            old(self).inv(),
            old(self).pos < old(self).chars@.len(),
        ensures
            final(self).inv(),
            final(self).chars == old(self).chars,
            final(self).pos > old(self).pos,
            final(self).indents == old(self).indents,
            final(self).brackets == old(self).brackets,
            final(self).at_line_start == old(self).at_line_start,
            final(self).row == old(self).row,
    {
        let n = self.chars.len();
        let start = self.cur_loc();
        let ghost s0 = *self;
        let mut buf: Vec<char> = Vec::new();
        let mut is_float = false;
        buf.push(self.chars[self.pos]);
        self.advance();
        loop
            invariant
                self.inv(),
                self.chars == s0.chars,
                self.toks == s0.toks,
                self.indents == s0.indents,
                self.brackets == s0.brackets,
                self.at_line_start == s0.at_line_start,
                self.row == s0.row,
                self.pos > s0.pos,
                n == self.chars@.len(),
                start == s0.cur(),
                loc_le(start, self.cur()),
            decreases self.chars@.len() - self.pos,
        {
            if self.pos >= n {
                break;
            }
            let c = self.chars[self.pos];
            if is_digit_u(c as u32) {
                buf.push(c);
                self.advance();
            } else if c == '.' && !is_float && self.pos + 1 < n && is_digit_u(
                self.chars[self.pos + 1] as u32,
            ) {
                is_float = true;
                buf.push(c);
                self.advance();
            } else {
                break;
            }
        }
        let value = chars_to_string(&buf);
        let tok = if is_float {
            Tok::Float { value }
        } else {
            Tok::Int { value }
        };
        let end = self.cur_loc();
        self.emit(start, tok, end);
    }

    /// Scans a string literal (single- or triple-quoted), processing the
    /// common escape sequences; `start` is where the literal's first
    /// character (a quote or an `f` prefix) stood.
    #[verifier::loop_isolation(false)]
    fn scan_string(&mut self, is_fstring: bool, start: Location) -> (r: Result<(), LexicalError>)
        requires
            old(self).inv(),
            old(self).pos < old(self).chars@.len(),
            loc_le(start, old(self).cur()),
            old(self).toks@.len() > 0 ==> loc_le(old(self).toks@.last().2, start),
        ensures
            final(self).inv(),
            final(self).chars == old(self).chars,
            final(self).pos > old(self).pos,
            final(self).indents == old(self).indents,
            final(self).brackets == old(self).brackets,
            final(self).at_line_start == old(self).at_line_start,
    {
        let n = self.chars.len();
        let ghost s0 = *self;
        let quote = self.chars[self.pos];
        self.advance();
        let mut triple = false;
        if self.pos < n && self.chars[self.pos] == quote {
            if self.pos + 1 < n && self.chars[self.pos + 1] == quote {
                triple = true;
                self.advance();
                self.advance();
            } else {
                self.advance();
                let end = self.cur_loc();
                self.emit(start, Tok::Str { value: String::new(), is_fstring }, end);
                return Ok(());
            }
        }
        let mut buf: Vec<char> = Vec::new();
        loop
            invariant
                self.inv(),
                self.chars == s0.chars,
                self.toks == s0.toks,
                self.indents == s0.indents,
                self.brackets == s0.brackets,
                self.at_line_start == s0.at_line_start,
                self.pos > s0.pos,
                n == self.chars@.len(),
                loc_le(start, self.cur()),
                self.toks@.len() > 0 ==> loc_le(self.toks@.last().2, start),
            decreases self.chars@.len() - self.pos,
        {
            if self.pos >= n {
                return Err(
                    LexicalError { error: LexicalErrorType::Eof, location: self.cur_loc() },
                );
            }
            let c = self.chars[self.pos];
            if c == quote {
                if !triple {
                    self.advance();
                    break;
                }
                if n - self.pos > 2 && self.chars[self.pos + 1] == quote && self.chars[self.pos
                    + 2] == quote {
                    self.advance();
                    self.advance();
                    self.advance();
                    break;
                }
                buf.push(c);
                self.advance();
            } else if c == '\\' {
                self.advance();
                if self.pos >= n {
                    return Err(
                        LexicalError { error: LexicalErrorType::Eof, location: self.cur_loc() },
                    );
                }
                let e = self.chars[self.pos];
                if e == 'n' {
                    buf.push('\n');
                    self.advance();
                } else if e == 't' {
                    buf.push('\t');
                    self.advance();
                } else if e == 'r' {
                    buf.push('\r');
                    self.advance();
                } else if e == '\\' || e == '\'' || e == '"' {
                    buf.push(e);
                    self.advance();
                } else if e == '\n' {
                    self.advance_line();
                } else {
                    buf.push('\\');
                    buf.push(e);
                    self.advance();
                }
            } else if c == '\n' {
                if triple {
                    buf.push('\n');
                    self.advance_line();
                } else {
                    return Err(
                        LexicalError {
                            error: LexicalErrorType::StringError,
                            location: self.cur_loc(),
                        },
                    );
                }
            } else {
                buf.push(c);
                self.advance();
            }
        }
        let value = chars_to_string(&buf);
        let end = self.cur_loc();
        self.emit(start, Tok::Str { value, is_fstring }, end);
        Ok(())
    }

    /// Scans one operator or delimiter, tracking bracket nesting.
    fn scan_operator(&mut self) -> (r: Result<(), LexicalError>)
        requires
            old(self).inv(),
            old(self).pos < old(self).chars@.len(),
        ensures
            final(self).inv(),
            final(self).chars == old(self).chars,
            final(self).pos > old(self).pos,
            final(self).indents == old(self).indents,
            final(self).at_line_start == old(self).at_line_start,
            final(self).row == old(self).row,
    {
        let n = self.chars.len();
        let start = self.cur_loc();
        let c = self.chars[self.pos];
        self.advance();
        let next: Option<char> = if self.pos < n {
            Some(self.chars[self.pos])
        } else {
            Option::None
        };
        let tok: Tok = if c == '(' {
            self.brackets.push('(');
            Tok::Lpar
        } else if c == '[' {
            self.brackets.push('[');
            Tok::Lsqb
        } else if c == '{' {
            self.brackets.push('{');
            Tok::Lbrace
        } else if c == ')' || c == ']' || c == '}' {
            if self.brackets.len() == 0 {
                return Err(
                    LexicalError { error: LexicalErrorType::NestingError, location: start },
                );
            }
            let open = self.brackets[self.brackets.len() - 1];
            self.brackets.pop();
            if c == ')' && open == '(' {
                Tok::Rpar
            } else if c == ']' && open == '[' {
                Tok::Rsqb
            } else if c == '}' && open == '{' {
                Tok::Rbrace
            } else {
                return Err(
                    LexicalError { error: LexicalErrorType::NestingError, location: start },
                );
            }
        } else if c == ':' {
            if next == Some('=') {
                self.advance();
                Tok::ColonEqual
            } else {
                Tok::Colon
            }
        } else if c == '=' {
            if next == Some('=') {
                self.advance();
                Tok::EqEqual
            } else {
                Tok::Equal
            }
        } else if c == '!' {
            if next == Some('=') {
                self.advance();
                Tok::NotEqual
            } else {
                return Err(
                    LexicalError {
                        error: LexicalErrorType::UnrecognizedToken { tok: '!' },
                        location: start,
                    },
                );
            }
        } else if c == '<' {
            if next == Some('=') {
                self.advance();
                Tok::LessEqual
            } else if next == Some('<') {
                self.advance();
                Tok::LeftShift
            } else {
                Tok::Less
            }
        } else if c == '>' {
            if next == Some('=') {
                self.advance();
                Tok::GreaterEqual
            } else if next == Some('>') {
                self.advance();
                Tok::RightShift
            } else {
                Tok::Greater
            }
        } else if c == '+' {
            Tok::Plus
        } else if c == '-' {
            if next == Some('>') {
                self.advance();
                Tok::Arrow
            } else {
                Tok::Minus
            }
        } else if c == '*' {
            if next == Some('*') {
                self.advance();
                Tok::DoubleStar
            } else {
                Tok::Star
            }
        } else if c == '/' {
            if next == Some('/') {
                self.advance();
                Tok::DoubleSlash
            } else {
                Tok::Slash
            }
        } else if c == '%' {
            Tok::Percent
        } else if c == '|' {
            Tok::Vbar
        } else if c == '&' {
            Tok::Amper
        } else if c == '^' {
            Tok::Circumflex
        } else if c == '~' {
            Tok::Tilde
        } else if c == ',' {
            Tok::Comma
        } else if c == ';' {
            Tok::Semi
        } else if c == '.' {
            Tok::Dot
        } else {
            return Err(
                LexicalError {
                    error: LexicalErrorType::UnrecognizedToken { tok: c },
                    location: start,
                },
            );
        };
        let end = self.cur_loc();
        self.emit(start, tok, end);
        Ok(())
    }

    /// Scans one item past the current position: whitespace, a newline, a
    /// comment, a line continuation, or one token.
    fn scan_token(&mut self) -> (r: Result<(), LexicalError>)
        requires
            old(self).inv(),
            old(self).pos < old(self).chars@.len(),
        ensures
            final(self).inv(),
            final(self).chars == old(self).chars,
            final(self).pos > old(self).pos,
            final(self).indents == old(self).indents,
    {
        let n = self.chars.len();
        let c = self.chars[self.pos];
        let start = self.cur_loc();
        if c == ' ' || c == '\t' || c == '\r' {
            self.advance();
            return Ok(());
        }
        if c == '\n' {
            self.advance_line();
            if self.brackets.len() == 0 {
                let end = self.cur_loc();
                self.emit(start, Tok::Newline, end);
                self.at_line_start = true;
            }
            return Ok(());
        }
        if c == '#' {
            self.scan_comment();
            return Ok(());
        }
        if c == '\\' {
            self.advance();
            if self.pos >= n {
                return Err(
                    LexicalError {
                        error: LexicalErrorType::LineContinuationError,
                        location: self.cur_loc(),
                    },
                );
            }
            let c2 = self.chars[self.pos];
            if c2 == '\n' {
                self.advance_line();
                return Ok(());
            }
            if c2 == '\r' {
                self.advance();
                if self.pos < n && self.chars[self.pos] == '\n' {
                    self.advance_line();
                    return Ok(());
                }
                return Err(
                    LexicalError {
                        error: LexicalErrorType::LineContinuationError,
                        location: self.cur_loc(),
                    },
                );
            }
            return Err(
                LexicalError {
                    error: LexicalErrorType::LineContinuationError,
                    location: self.cur_loc(),
                },
            );
        }
        let u = c as u32;
        if is_digit_u(u) {
            self.scan_number();
            return Ok(());
        }
        if is_name_start_u(u) {
            if (c == 'f' || c == 'F') && self.pos + 1 < n {
                let q = self.chars[self.pos + 1];
                if q == '\'' || q == '"' {
                    self.advance();
                    return self.scan_string(true, start);
                }
            }
            self.scan_name();
            return Ok(());
        }
        if c == '\'' || c == '"' {
            return self.scan_string(false, start);
        }
        self.scan_operator()
    }

    /// Scans a line's leading whitespace; on a blank or comment-only line,
    /// steps past it; on a line with content, applies the indentation
    /// decision and leaves the position at the first content character.
    #[verifier::loop_isolation(false)]
    fn handle_line_start(&mut self) -> (r: Result<(), LexicalError>)
        requires
            old(self).inv(),
            old(self).pos < old(self).chars@.len(),
            old(self).at_line_start,
        ensures
            final(self).inv(),
            final(self).chars == old(self).chars,
            final(self).pos >= old(self).pos,
            r matches Ok(u) ==> final(self).pos > old(self).pos || !final(self).at_line_start,
            r matches Err(e) ==> (e.error matches LexicalErrorType::TabsAfterSpaces || (exists|
                lvl: IndentationLevel,
            | #[trigger] spec_indent_step(old(self).indents@, lvl) == Err::<
                (Seq<IndentationLevel>, nat, nat),
                _,
            >(e.error))),
            blank_chars(old(self).chars@) ==> ((r matches Ok(u)) && final(self).toks == old(
                self,
            ).toks && final(self).at_line_start == old(self).at_line_start && final(self).brackets
                == old(self).brackets && final(self).indents == old(self).indents),
    {
        let n = self.chars.len();
        let ghost s0 = *self;
        let mut tabs: usize = 0;
        let mut spaces: usize = 0;
        loop
            invariant
                self.inv(),
                self.chars == s0.chars,
                self.toks == s0.toks,
                self.indents == s0.indents,
                self.brackets == s0.brackets,
                self.at_line_start == s0.at_line_start,
                self.pos >= s0.pos,
                n == self.chars@.len(),
                tabs + spaces <= self.pos,
            decreases self.chars@.len() - self.pos,
        {
            if self.pos >= n {
                break;
            }
            let c = self.chars[self.pos];
            if c == ' ' {
                spaces = spaces + 1;
                self.advance();
            } else if c == '\t' {
                if spaces > 0 {
                    return Err(
                        LexicalError {
                            error: LexicalErrorType::TabsAfterSpaces,
                            location: self.cur_loc(),
                        },
                    );
                }
                tabs = tabs + 1;
                self.advance();
            } else {
                break;
            }
        }
        if self.pos >= n {
            return Ok(());
        }
        let c = self.chars[self.pos];
        if c == '\n' {
            self.advance_line();
            return Ok(());
        }
        if c == '\r' {
            self.advance();
            return Ok(());
        }
        if c == '#' {
            self.scan_comment();
            return Ok(());
        }
        let lvl = IndentationLevel { tabs, spaces };
        match self.handle_indentation(lvl) {
            Ok(u) => {},
            Err(e) => {
                proof {
                    assert(spec_indent_step(s0.indents@, lvl) == Err::<
                        (Seq<IndentationLevel>, nat, nat),
                        _,
                    >(e.error));
                }
                return Err(e);
            },
        }
        self.at_line_start = false;
        Ok(())
    }

    /// Runs the whole scan: lines, tokens, and the closing newline,
    /// dedents and end-of-file marker.
    #[verifier::loop_isolation(false)]
    fn run(&mut self) -> (r: Result<(), LexicalError>)
        requires
            old(self).inv(),
        ensures
            final(self).inv(),
            r matches Ok(u) ==> final(self).toks@.len() > 0 && (
            final(self).toks@.last().1 matches Tok::EndOfFile),
            (blank_chars(old(self).chars@) && old(self).toks@.len() == 0 && old(self).at_line_start
                && old(self).brackets@.len() == 0 && old(self).indents@.len() == 1) ==> (
            r matches Ok(u) && final(self).toks@.len() == 1 && (
            final(self).toks@[0].1 matches Tok::EndOfFile)),
    {
        let n = self.chars.len();
        let ghost s0 = *self;
        loop
            invariant
                self.inv(),
                n == self.chars@.len(),
                self.chars == s0.chars,
                (blank_chars(s0.chars@) && s0.toks@.len() == 0 && s0.at_line_start
                    && s0.brackets@.len() == 0 && s0.indents@.len() == 1) ==> (self.toks@.len()
                    == 0 && self.at_line_start && self.brackets@.len() == 0 && self.indents@.len()
                    == 1),
            decreases
                self.chars@.len() - self.pos,
                (if self.at_line_start {
                    1int
                } else {
                    0int
                }),
        {
            if self.pos >= n {
                break;
            }
            if self.at_line_start && self.brackets.len() == 0 {
                self.handle_line_start()?;
            } else {
                self.scan_token()?;
            }
        }
        let cur = self.cur_loc();
        if self.brackets.len() > 0 {
            return Err(LexicalError { error: LexicalErrorType::Eof, location: cur });
        }
        if !self.at_line_start {
            self.emit(cur, Tok::Newline, cur);
            self.at_line_start = true;
        }
        let ghost pre_dedent = *self;
        loop
            invariant
                self.inv(),
                cur == self.cur(),
                pre_dedent.indents@.len() <= 1 ==> self.toks == pre_dedent.toks && self.indents
                    == pre_dedent.indents,
            decreases self.indents@.len(),
        {
            if self.indents.len() <= 1 {
                break;
            }
            self.indents.pop();
            self.emit(cur, Tok::Dedent, cur);
        }
        self.emit(cur, Tok::EndOfFile, cur);
        Ok(())
    }
}

/// Scans the whole source: the tokens produced before the first error, in
/// source order, and the error that stopped the scan, if one did.
pub fn tokenize_core(source: &str) -> (r: (Vec<Spanned>, Option<LexicalError>))
    ensures
        sorted_spanned(r.0@),
        r.1 is None ==> r.0@.len() > 0 && (r.0@.last().1 matches Tok::EndOfFile),
        blank_chars(source@) ==> r.1 is None && r.0@.len() == 1 && (
        r.0@[0].1 matches Tok::EndOfFile),
{
    let chars = str_to_chars(source);
    let mut indents: Vec<IndentationLevel> = Vec::new();
    indents.push(IndentationLevel { tabs: 0, spaces: 0 });
    let mut lx = Lexer {
        chars,
        pos: 0,
        row: 1,
        col: 0,
        toks: Vec::new(),
        indents,
        brackets: Vec::new(),
        at_line_start: true,
    };
    let outcome = lx.run();
    let Lexer { toks, .. } = lx;
    match outcome {
        Ok(u) => (toks, Option::None),
        Err(e) => (toks, Some(e)),
    }
}

/// The items are in source order: every token's span is ordered and no
/// token starts before the previous one ended; errors take no position in
/// the order.
pub open spec fn results_sorted(rs: Seq<LexResult>) -> bool {
    (forall|i: int|
        0 <= i < rs.len() && rs[i] is Ok ==> loc_le((#[trigger] rs[i])->Ok_0.0, rs[i]->Ok_0.2))
        && (forall|i: int, j: int|
        0 <= i && i + 1 == j && j < rs.len() && rs[i] is Ok && rs[j] is Ok ==> loc_le(
            (#[trigger] rs[i])->Ok_0.2,
            (#[trigger] rs[j])->Ok_0.0,
        ))
}

/// Tokenizes source text into the sequence the parser consumes: located
/// tokens in source order, ended by the first lexical error if one
/// occurred.
#[verifier::loop_isolation(false)]
pub fn make_tokenizer(source: &str) -> (r: Vec<LexResult>)
    ensures
        results_sorted(r@),
        forall|i: int| 0 <= i < r@.len() - 1 ==> r@[i] is Ok,
        r@.len() > 0,
        r@.last() matches Ok(t) ==> t.1 matches Tok::EndOfFile,
        blank_chars(source@) ==> r@.len() == 1 && (r@[0] matches Ok(t) && t.1 matches
        Tok::EndOfFile),
{
    let (toks, err) = tokenize_core(source);
    let ghost all = toks@;
    let mut toks = toks;
    let mut out: Vec<LexResult> = Vec::new();
    loop
        invariant
            sorted_spanned(toks@),
            results_sorted(out@),
            forall|i: int| 0 <= i < out@.len() ==> out@[i] is Ok,
            out@.len() > 0 && toks@.len() > 0 ==> loc_le(out@.last()->Ok_0.2, toks@[0].0),
            out@.len() + toks@.len() == all.len(),
            toks@ == all.subrange(out@.len() as int, all.len() as int),
            forall|i: int| 0 <= i < out@.len() ==> #[trigger] out@[i] == Ok::<
                Spanned,
                LexicalError,
            >(all[i]),
        decreases toks@.len(),
    {
        if toks.len() == 0 {
            break;
        }
        let ghost before = toks@;
        let ghost k0: int = out@.len() as int;
        let t = toks.remove(0);
        proof {
            assert forall|i: int| 0 <= i < toks@.len() implies #[trigger] toks@[i] == before[i + 1]
            by {}
            assert(t == all[k0]);
            assert forall|i: int| 0 <= i < toks@.len() implies #[trigger] toks@[i] == all[k0 + 1
                + i] by {
                assert(toks@[i] == before[i + 1]);
                assert(before[i + 1] == all.subrange(k0, all.len() as int)[i + 1]);
            }
            assert(toks@ =~= all.subrange(k0 + 1, all.len() as int));
        }
        out.push(Ok(t));
    }
    match err {
        Some(e) => {
            out.push(Err(e));
        },
        Option::None => {},
    }
    out
}

proof fn lemma_dedent_no_match(stack: Seq<IndentationLevel>, new: IndentationLevel)
    requires
        forall|i: int| 0 <= i < stack.len() ==> (#[trigger] stack[i]).tabs == 0,
        new.tabs == 0,
        forall|i: int| 0 <= i < stack.len() ==> (#[trigger] stack[i]).spaces != new.spaces,
    ensures
        spec_dedent_steps(stack, new) == Err::<(Seq<IndentationLevel>, nat), _>(
            LexicalErrorType::IndentationError,
        ),
    decreases stack.len(),
{
    if stack.len() > 0 {
        if new.spaces < stack.last().spaces {
            lemma_dedent_no_match(stack.drop_last(), new);
        }
    }
}

/// Indentation round trip: from the base level, a line indented to any
/// positive width pushes exactly one level and emits exactly one indent; a
/// following line back at width zero pops exactly that level and emits
/// exactly one dedent, restoring the base stack.
pub proof fn lemma_indentation_round_trip(n: usize)
    requires
        n > 0,
    ensures
        ({
            let base = seq![IndentationLevel { tabs: 0, spaces: 0 }];
            let lvl = IndentationLevel { tabs: 0, spaces: n };
            spec_indent_step(base, lvl) == Ok::<_, LexicalErrorType>((base.push(lvl), 1nat, 0nat))
                && spec_indent_step(base.push(lvl), IndentationLevel { tabs: 0, spaces: 0 })
                == Ok::<_, LexicalErrorType>((base, 0nat, 1nat))
        }),
{
    let base = seq![IndentationLevel { tabs: 0, spaces: 0 }];
    let lvl = IndentationLevel { tabs: 0, spaces: n };
    let zero = IndentationLevel { tabs: 0, spaces: 0 };
    assert(spec_indent_compare(lvl, base.last()) == Some(IndentOrder::Greater));
    assert(base.push(lvl).last() == lvl);
    assert(base.push(lvl).drop_last() =~= base);
    assert(spec_dedent_steps(base, zero) == Ok::<_, LexicalErrorType>((base, 0nat)));
    assert(spec_dedent_steps(base.push(lvl), zero) == Ok::<_, LexicalErrorType>((base, 1nat)));
}

/// A dedent that lands on no stacked width is always an indentation
/// error, whatever depth it unwinds from.
pub proof fn lemma_inconsistent_dedent_fails(stack: Seq<IndentationLevel>, new: IndentationLevel)
    requires
        stack.len() >= 1,
        forall|i: int| 0 <= i < stack.len() ==> (#[trigger] stack[i]).tabs == 0,
        new.tabs == 0,
        new.spaces < stack.last().spaces,
        forall|i: int| 0 <= i < stack.len() ==> (#[trigger] stack[i]).spaces != new.spaces,
    ensures
        spec_indent_step(stack, new) == Err::<(Seq<IndentationLevel>, nat, nat), _>(
            LexicalErrorType::IndentationError,
        ),
{
    lemma_dedent_no_match(stack, new);
}

/// A line whose indentation run disagrees with the enclosing level in
/// direction (fewer tabs but more spaces, or the reverse) has no certain
/// width: the decision is a tab error, never a silent acceptance, and the
/// error taxonomy classifies it as a tab failure.
pub proof fn lemma_tab_space_mix_fails(stack: Seq<IndentationLevel>, new: IndentationLevel)
    requires
        stack.len() >= 1,
        (new.tabs < stack.last().tabs && new.spaces > stack.last().spaces) || (new.tabs
            > stack.last().tabs && new.spaces < stack.last().spaces),
    ensures
        spec_indent_step(stack, new) == Err::<(Seq<IndentationLevel>, nat, nat), _>(
            LexicalErrorType::TabError,
        ),
        crate::error::spec_is_tab_error(
            crate::error::ParseErrorType::Lexical(LexicalErrorType::TabError),
        ),
{
}

} // verus!
