//! Formatted-string scanning: splits a formatted literal into literal runs
//! and `{`…`}` replacement fields, tracking nested delimiters, conversion
//! flags and format specs, and re-enters the tokenizer and parser for each
//! field's expression under an explicit depth budget.

use vstd::prelude::*;
use crate::ast::{expr_wf, rightmost_path_ok, Constant, ConversionFlag, Expr, ExprKind, Mod, NoCustom};
use crate::error::{FStringError, FStringErrorType};
use crate::location::{loc_le, Location};
use crate::mode::Mode;
use crate::strutil::chars_to_string;

verus! {

/// Parses the contents of a formatted-string literal into a `JoinedStr`
/// whose parts are literal constants and `FormattedValue` fields. The
/// resulting node spans the whole literal; each field's expression is
/// parsed by re-entering the parser with one depth unit fewer.
#[verifier::loop_isolation(false)]
#[verifier::rlimit(60)]
pub(crate) fn parse_fstring_value(chars: &Vec<char>, loc: Location, end: Location, depth: u32) -> (r:
    Result<Expr, FStringError>)
    requires
        loc_le(loc, end),
    ensures
        r matches Ok(e) ==> expr_wf(e) && e.location == loc && e.end_location == Some(end)
            && rightmost_path_ok(e),
        chars@ == seq!['{'] ==> ((r matches Err(fe)) && (
        r->Err_0.error matches FStringErrorType::UnclosedLbrace)),
        chars@ == seq!['}'] ==> ((r matches Err(fe)) && (
        r->Err_0.error matches FStringErrorType::SingleRbrace)),
    decreases depth, 2int, 0int,
{
    let n = chars.len();
    let mut i: usize = 0;
    let mut parts: Vec<Expr> = Vec::new();
    let mut lit: Vec<char> = Vec::new();
    loop
        invariant
            i <= n,
            n == chars@.len(),
            forall|k: int| 0 <= k < parts@.len() ==> expr_wf(#[trigger] parts@[k]),
            chars@ == seq!['{'] ==> i == 0,
            chars@ == seq!['}'] ==> i == 0,
        decreases n - i,
    {
        if i >= n {
            break;
        }
        let c = chars[i];
        if c == '{' {
            if i + 1 < n && chars[i + 1] == '{' {
                lit.push('{');
                i = i + 2;
                continue;
            }
            // flush the literal run collected so far
            if lit.len() > 0 {
                let text = chars_to_string(&lit);
                parts.push(
                    Expr {
                        location: loc,
                        end_location: Some(end),
                        custom: NoCustom,
                        node: ExprKind::Constant {
                            value: Constant::Str(text),
                            kind: Option::None,
                        },
                    },
                );
                proof {
                    assert forall|k: int| 0 <= k < parts@.len() implies expr_wf(
                        #[trigger] parts@[k],
                    ) by {}
                }
                lit = Vec::new();
            }
            i = i + 1;
            let ghost i_field = i;
            // scan the expression part, tracking nested delimiters
            let mut buf: Vec<char> = Vec::new();
            let mut delims: Vec<char> = Vec::new();
            let mut braces: usize = 0;
            let mut conversion = ConversionFlag::NoConversion;
            let mut format_spec: Option<Box<Expr>> = Option::None;
            let mut closed = false;
            loop
                invariant
                    i_field <= i,
                    i <= n,
                    n == chars@.len(),
                    forall|k: int| 0 <= k < parts@.len() ==> expr_wf(#[trigger] parts@[k]),
                    format_spec matches Some(sp) ==> expr_wf(*sp),
                decreases n - i,
            {
                if i >= n {
                    return Err(
                        FStringError { error: FStringErrorType::UnclosedLbrace, location: loc },
                    );
                }
                let c2 = chars[i];
                if c2 == '\\' {
                    return Err(
                        FStringError {
                            error: FStringErrorType::ExpressionCannotInclude('\\'),
                            location: loc,
                        },
                    );
                } else if c2 == '(' || c2 == '[' {
                    delims.push(c2);
                    buf.push(c2);
                    i = i + 1;
                } else if c2 == '{' {
                    if braces >= 2 {
                        return Err(
                            FStringError {
                                error: FStringErrorType::ExpressionNestedTooDeeply,
                                location: loc,
                            },
                        );
                    }
                    braces = braces + 1;
                    delims.push(c2);
                    buf.push(c2);
                    i = i + 1;
                } else if c2 == ')' || c2 == ']' || c2 == '}' {
                    if delims.len() == 0 {
                        if c2 == '}' {
                            i = i + 1;
                            closed = true;
                            break;
                        }
                        return Err(
                            FStringError {
                                error: FStringErrorType::Unmatched(c2),
                                location: loc,
                            },
                        );
                    }
                    let open = delims[delims.len() - 1];
                    delims.pop();
                    let matches_open = (c2 == ')' && open == '(') || (c2 == ']' && open == '[')
                        || (c2 == '}' && open == '{');
                    if !matches_open {
                        return Err(
                            FStringError {
                                error: FStringErrorType::MismatchedDelimiter(open, c2),
                                location: loc,
                            },
                        );
                    }
                    if c2 == '}' {
                        braces = if braces > 0 {
                            braces - 1
                        } else {
                            0
                        };
                    }
                    buf.push(c2);
                    i = i + 1;
                } else if c2 == '!' && delims.len() == 0 {
                    if i + 1 < n && chars[i + 1] == '=' {
                        buf.push('!');
                        buf.push('=');
                        i = i + 2;
                    } else {
                        // a conversion flag: one letter, then `}` or `:`
                        if i + 1 >= n {
                            return Err(
                                FStringError {
                                    error: FStringErrorType::UnclosedLbrace,
                                    location: loc,
                                },
                            );
                        }
                        let f = chars[i + 1];
                        let flag = if f == 's' {
                            ConversionFlag::Str
                        } else if f == 'a' {
                            ConversionFlag::Ascii
                        } else if f == 'r' {
                            ConversionFlag::Repr
                        } else {
                            return Err(
                                FStringError {
                                    error: FStringErrorType::InvalidConversionFlag,
                                    location: loc,
                                },
                            );
                        };
                        if i + 2 >= n || (chars[i + 2] != '}' && chars[i + 2] != ':') {
                            return Err(
                                FStringError {
                                    error: FStringErrorType::ExpectedRbrace,
                                    location: loc,
                                },
                            );
                        }
                        conversion = flag;
                        i = i + 2;
                    }
                } else if c2 == ':' && delims.len() == 0 {
                    // the format spec runs to the closing brace
                    i = i + 1;
                    let ghost i_spec = i;
                    let mut spec: Vec<char> = Vec::new();
                    let mut spec_braces: usize = 0;
                    loop
                        invariant
                            i_spec <= i,
                            i <= n,
                            n == chars@.len(),
                            spec_braces <= i,
                        decreases n - i,
                    {
                        if i >= n {
                            return Err(
                                FStringError {
                                    error: FStringErrorType::UnclosedLbrace,
                                    location: loc,
                                },
                            );
                        }
                        let c3 = chars[i];
                        if c3 == '{' {
                            spec_braces = spec_braces + 1;
                            spec.push(c3);
                            i = i + 1;
                        } else if c3 == '}' {
                            if spec_braces == 0 {
                                break;
                            }
                            spec_braces = spec_braces - 1;
                            spec.push(c3);
                            i = i + 1;
                        } else {
                            spec.push(c3);
                            i = i + 1;
                        }
                    }
                    let spec_text = chars_to_string(&spec);
                    format_spec = Some(
                        Box::new(
                            Expr {
                                location: loc,
                                end_location: Some(end),
                                custom: NoCustom,
                                node: ExprKind::Constant {
                                    value: Constant::Str(spec_text),
                                    kind: Option::None,
                                },
                            },
                        ),
                    );
                } else {
                    buf.push(c2);
                    i = i + 1;
                }
            }
            if !closed {
                return Err(
                    FStringError { error: FStringErrorType::UnclosedLbrace, location: loc },
                );
            }
            if buf.len() == 0 {
                return Err(
                    FStringError { error: FStringErrorType::EmptyExpression, location: loc },
                );
            }
            if depth == 0 {
                return Err(
                    FStringError {
                        error: FStringErrorType::ExpressionNestedTooDeeply,
                        location: loc,
                    },
                );
            }
            let text = chars_to_string(&buf);
            let parsed = crate::parser::parse_impl(
                text.as_str(),
                Mode::Expression,
                "<fstring>",
                depth - 1,
            );
            let value = match parsed {
                Ok(m) => match m {
                    Mod::Expression { body } => body,
                    _ => {
                        return Err(
                            FStringError {
                                error: FStringErrorType::EmptyExpression,
                                location: loc,
                            },
                        );
                    },
                },
                Err(pe) => {
                    return Err(
                        FStringError {
                            error: FStringErrorType::InvalidExpression(Box::new(pe.error)),
                            location: loc,
                        },
                    );
                },
            };
            parts.push(
                Expr {
                    location: loc,
                    end_location: Some(end),
                    custom: NoCustom,
                    node: ExprKind::FormattedValue { value, conversion, format_spec },
                },
            );
            proof {
                assert forall|k: int| 0 <= k < parts@.len() implies expr_wf(
                    #[trigger] parts@[k],
                ) by {}
            }
        } else if c == '}' {
            if i + 1 < n && chars[i + 1] == '}' {
                lit.push('}');
                i = i + 2;
            } else {
                return Err(
                    FStringError { error: FStringErrorType::SingleRbrace, location: loc },
                );
            }
        } else {
            lit.push(c);
            i = i + 1;
        }
    }
    if lit.len() > 0 {
        let text = chars_to_string(&lit);
        parts.push(
            Expr {
                location: loc,
                end_location: Some(end),
                custom: NoCustom,
                node: ExprKind::Constant { value: Constant::Str(text), kind: Option::None },
            },
        );
    }
    proof {
        assert forall|k: int| 0 <= k < parts@.len() implies expr_wf(#[trigger] parts@[k]) by {}
    }
    Ok(
        Expr {
            location: loc,
            end_location: Some(end),
            custom: NoCustom,
            node: ExprKind::JoinedStr { values: parts },
        },
    )
}

} // verus!
