use emerald_parser::ast::{
    modify_leftmost_of_multi_expr, modify_rightmost_expr, modify_rightmost_expr_of_statement,
    Constant, ConversionFlag, Expr, ExprKind, NoCustom, Operator, StmtKind,
};
use emerald_parser::error::{
    parse_error_from_engine, BaseError, EngineError, FStringErrorType, LexicalError,
    LexicalErrorType, ParseErrorType,
};
use emerald_parser::lexer::make_tokenizer;
use emerald_parser::location::Location;
use emerald_parser::mode::Mode;
use emerald_parser::parser::{parse, parse_expression, parse_program, parse_tokens};
use emerald_parser::token::Tok;
use emerald_parser::do_block::StatementsOrDoBlock;

fn name_expr(id: &str, row: u32, col: u32) -> Expr {
    Expr {
        location: Location { row, column: col },
        end_location: Some(Location { row, column: col + 1 }),
        custom: NoCustom,
        node: ExprKind::Name { id: id.to_string() },
    }
}

#[test]
fn conversion_flag_accepts_the_four_codes() {
    assert_eq!(ConversionFlag::try_from(0), Ok(ConversionFlag::NoConversion));
    assert_eq!(ConversionFlag::try_from(115), Ok(ConversionFlag::Str));
    assert_eq!(ConversionFlag::try_from(97), Ok(ConversionFlag::Ascii));
    assert_eq!(ConversionFlag::try_from(114), Ok(ConversionFlag::Repr));
}

#[test]
fn conversion_flag_rejects_everything_else() {
    assert_eq!(ConversionFlag::try_from(1), Err(1));
    assert_eq!(ConversionFlag::try_from(98), Err(98));
    assert_eq!(ConversionFlag::try_from(256), Err(256));
    assert_eq!(ConversionFlag::try_from(usize::MAX), Err(usize::MAX));
}

#[test]
fn module_body_nonempty_for_nontrivial_source() {
    let body = parse_program("x = 1", "<test>").unwrap();
    assert_eq!(body.len(), 1);
    let body = parse_program("  \n\n", "<test>").unwrap();
    assert_eq!(body.len(), 0);
}

#[test]
fn parse_returns_the_mode_matching_root() {
    assert!(matches!(
        parse("x", Mode::Module, "<test>").unwrap(),
        emerald_parser::ast::Mod::Module { .. }
    ));
    assert!(matches!(
        parse("x", Mode::Interactive, "<test>").unwrap(),
        emerald_parser::ast::Mod::Interactive { .. }
    ));
    assert!(matches!(
        parse("x", Mode::Expression, "<test>").unwrap(),
        emerald_parser::ast::Mod::Expression { .. }
    ));
}

#[test]
fn expression_locations_are_ordered() {
    let e = parse_expression("1 + 2", "<embedded>").unwrap();
    assert_eq!(e.location, Location { row: 1, column: 0 });
    assert_eq!(e.end_location, Some(Location { row: 1, column: 5 }));
    match &e.node {
        ExprKind::BinOp { left, op, right } => {
            assert_eq!(*op, Operator::Add);
            assert_eq!(left.location, Location { row: 1, column: 0 });
            assert_eq!(left.end_location, Some(Location { row: 1, column: 1 }));
            assert_eq!(right.location, Location { row: 1, column: 4 });
            assert_eq!(right.end_location, Some(Location { row: 1, column: 5 }));
        }
        other => panic!("expected a binary operation, got {:?}", other),
    }
}

#[test]
fn indentation_round_trip_emits_one_indent_and_one_dedent() {
    let toks = make_tokenizer("if x:\n    y\nz");
    let mut indents = 0;
    let mut dedents = 0;
    for item in &toks {
        match item {
            Ok((_, Tok::Indent, _)) => indents += 1,
            Ok((_, Tok::Dedent, _)) => dedents += 1,
            _ => {}
        }
    }
    assert_eq!(indents, 1);
    assert_eq!(dedents, 1);
}

#[test]
fn inconsistent_dedent_is_an_indentation_error() {
    let err = parse_program("if x:\n    y\n  z", "<test>").unwrap_err();
    assert!(err.error.is_indentation_error());
    assert!(matches!(
        err.error,
        ParseErrorType::Lexical(LexicalErrorType::IndentationError)
    ));
}

#[test]
fn tab_space_mix_is_a_tab_error() {
    // the first block line indents with a tab, the next with spaces only
    let err = parse_program("if x:\n\ty\n        z", "<test>").unwrap_err();
    assert!(err.error.is_tab_error());
}

#[test]
fn tabs_after_spaces_are_rejected() {
    let err = parse_program("if x:\n \ty", "<test>").unwrap_err();
    assert!(matches!(
        err.error,
        ParseErrorType::Lexical(LexicalErrorType::TabsAfterSpaces)
    ));
    assert!(err.error.is_tab_error());
}

#[test]
fn single_expected_token_is_reported() {
    let err = parse_program("if x\n", "<test>").unwrap_err();
    match err.error {
        ParseErrorType::UnrecognizedToken(_, expected) => {
            assert_eq!(expected.as_deref(), Some(":"))
        }
        other => panic!("expected an unrecognized-token failure, got {:?}", other),
    }
}

#[test]
fn several_expected_tokens_are_not_reported() {
    let engine_err = EngineError::UnrecognizedToken {
        token: (
            Location { row: 1, column: 4 },
            Tok::Newline,
            Location { row: 2, column: 0 },
        ),
        expected: vec!["a".to_string(), "b".to_string()],
    };
    let err = parse_error_from_engine(engine_err, "<test>");
    assert!(matches!(err.error, ParseErrorType::UnrecognizedToken(Tok::Newline, None)));
    // the location points one column right of the offending token
    assert_eq!(err.location, Location { row: 1, column: 5 });
    assert_eq!(err.source_path, "<test>");
}

#[test]
fn one_expected_token_narrows() {
    let engine_err = EngineError::UnrecognizedToken {
        token: (
            Location { row: 3, column: 7 },
            Tok::Indent,
            Location { row: 3, column: 7 },
        ),
        expected: vec!["Indent".to_string()],
    };
    let err = parse_error_from_engine(engine_err, "x.em");
    match &err.error {
        ParseErrorType::UnrecognizedToken(Tok::Indent, Some(name)) => assert_eq!(name, "Indent"),
        other => panic!("expected the single alternative to be kept, got {:?}", other),
    }
    assert!(err.error.is_indentation_error());
}

#[test]
fn indentation_error_classification() {
    let on_indent = ParseErrorType::UnrecognizedToken(Tok::Indent, None);
    assert!(on_indent.is_indentation_error());
    let extra = ParseErrorType::ExtraToken(Tok::Newline);
    assert!(!extra.is_indentation_error());
    let eof = ParseErrorType::Eof;
    assert!(!eof.is_indentation_error());
    let missing_block = parse_program("if x:\nz", "<test>").unwrap_err();
    assert!(missing_block.error.is_indentation_error());
}

#[test]
fn fstring_round_trip() {
    let e = parse_expression("f\"hello {name!r}\"", "<test>").unwrap();
    match &e.node {
        ExprKind::JoinedStr { values } => {
            assert_eq!(values.len(), 2);
            assert!(matches!(
                &values[0].node,
                ExprKind::Constant { value: Constant::Str(s), .. } if s == "hello "
            ));
            match &values[1].node {
                ExprKind::FormattedValue { value, conversion, format_spec } => {
                    assert!(matches!(&value.node, ExprKind::Name { id } if id == "name"));
                    assert_eq!(*conversion, ConversionFlag::Repr);
                    assert!(format_spec.is_none());
                }
                other => panic!("expected a formatted value, got {:?}", other),
            }
        }
        other => panic!("expected a joined string, got {:?}", other),
    }
}

#[test]
fn malformed_fstrings_fail_precisely() {
    let err = parse_expression("f\"{\"", "<test>").unwrap_err();
    assert!(matches!(
        err.error,
        ParseErrorType::Lexical(LexicalErrorType::FStringError(FStringErrorType::UnclosedLbrace))
    ));
    let err = parse_expression("f\"}\"", "<test>").unwrap_err();
    assert!(matches!(
        err.error,
        ParseErrorType::Lexical(LexicalErrorType::FStringError(FStringErrorType::SingleRbrace))
    ));
    let err = parse_expression("f\"{}\"", "<test>").unwrap_err();
    assert!(matches!(
        err.error,
        ParseErrorType::Lexical(LexicalErrorType::FStringError(FStringErrorType::EmptyExpression))
    ));
    let err = parse_expression("f\"{x!z}\"", "<test>").unwrap_err();
    assert!(matches!(
        err.error,
        ParseErrorType::Lexical(LexicalErrorType::FStringError(
            FStringErrorType::InvalidConversionFlag
        ))
    ));
    let err = parse_expression("f\"{(x]}\"", "<test>").unwrap_err();
    assert!(matches!(
        err.error,
        ParseErrorType::Lexical(LexicalErrorType::FStringError(
            FStringErrorType::MismatchedDelimiter('(', ']')
        ))
    ));
}

#[test]
fn fstring_format_spec_is_kept() {
    let e = parse_expression("f\"{x:>5}\"", "<test>").unwrap();
    match &e.node {
        ExprKind::JoinedStr { values } => match &values[0].node {
            ExprKind::FormattedValue { conversion, format_spec, .. } => {
                assert_eq!(*conversion, ConversionFlag::NoConversion);
                match format_spec.as_deref() {
                    Some(Expr { node: ExprKind::Constant { value: Constant::Str(s), .. }, .. }) => {
                        assert_eq!(s, ">5")
                    }
                    other => panic!("expected a literal format spec, got {:?}", other),
                }
            }
            other => panic!("expected a formatted value, got {:?}", other),
        },
        other => panic!("expected a joined string, got {:?}", other),
    }
}

#[test]
fn rightmost_relocation_picks_the_right_operand() {
    // 1 + f(): the attachment point is the call, not the sum
    let mut e = parse_expression("1 + f()", "<test>").unwrap();
    let replaced = modify_rightmost_expr(&mut e, |target: Expr| {
        assert!(matches!(&target.node, ExprKind::Call { .. }));
        (name_expr("swapped", 9, 0), true)
    });
    assert!(replaced);
    match &e.node {
        ExprKind::BinOp { right, .. } => {
            assert!(matches!(&right.node, ExprKind::Name { id } if id == "swapped"))
        }
        other => panic!("expected the sum to survive, got {:?}", other),
    }
}

#[test]
fn leftmost_relocation_descends_into_the_callee_chain() {
    let mut e = parse_expression("a.b(c)", "<test>").unwrap();
    let replaced = modify_leftmost_of_multi_expr(&mut e, |target: Expr| {
        assert!(matches!(&target.node, ExprKind::Name { id } if id == "a"));
        (name_expr("swapped", 9, 0), true)
    });
    assert!(replaced);
    match &e.node {
        ExprKind::Call { func, .. } => match &func.node {
            ExprKind::Attribute { value, .. } => {
                assert!(matches!(&value.node, ExprKind::Name { id } if id == "swapped"))
            }
            other => panic!("expected the attribute access to survive, got {:?}", other),
        },
        other => panic!("expected the call to survive, got {:?}", other),
    }
}

#[test]
fn statement_relocation_skips_statements_without_a_value() {
    let mut node = StmtKind::Pass;
    let touched = modify_rightmost_expr_of_statement(&mut node, |target: Expr| (target, true));
    assert!(!touched);
    assert!(matches!(node, StmtKind::Pass));
}

#[test]
fn base_error_lifts_lexical_failures() {
    let lexical: BaseError<LexicalErrorType> = BaseError {
        error: LexicalErrorType::TabError,
        location: Location { row: 2, column: 3 },
        source_path: "m.em".to_string(),
    };
    let parse_err: BaseError<ParseErrorType> = lexical.into();
    assert_eq!(parse_err.location, Location { row: 2, column: 3 });
    assert_eq!(parse_err.source_path, "m.em");
    let inner = parse_err.error();
    assert!(matches!(inner, ParseErrorType::Lexical(LexicalErrorType::TabError)));
    assert!(inner.is_tab_error());

    let again: BaseError<ParseErrorType> = BaseError::from(BaseError {
        error: LexicalErrorType::Eof,
        location: Location { row: 1, column: 0 },
        source_path: "m.em".to_string(),
    });
    assert!(matches!(again.error, ParseErrorType::Lexical(LexicalErrorType::Eof)));
}

#[test]
fn error_messages_match_the_documented_wording() {
    assert_eq!(
        LexicalErrorType::IndentationError.message(),
        "unindent does not match any outer indentation level"
    );
    assert_eq!(
        LexicalErrorType::TabsAfterSpaces.message(),
        "Tabs not allowed as part of indentation after spaces"
    );
    assert_eq!(
        LexicalErrorType::UnrecognizedToken { tok: '?' }.message(),
        "Got unexpected token ?"
    );
    assert_eq!(
        FStringErrorType::MismatchedDelimiter('(', ']').message(),
        "closing parenthesis ']' does not match opening parenthesis '('"
    );
    assert_eq!(ParseErrorType::Eof.message(), "Got unexpected EOF");
    assert_eq!(
        ParseErrorType::UnrecognizedToken(Tok::Indent, None).message(),
        "unexpected indent"
    );
    assert_eq!(
        ParseErrorType::UnrecognizedToken(Tok::Newline, Some("Indent".to_string())).message(),
        "expected an indented block"
    );
    assert_eq!(
        ParseErrorType::UnrecognizedToken(Tok::Semi, None).message(),
        "invalid syntax. Got unexpected token ;"
    );
}

#[test]
fn parse_tokens_accepts_a_prepared_stream() {
    let lxr = make_tokenizer("x = 1");
    let m = parse_tokens(lxr, Mode::Module, "<test>").unwrap();
    match m {
        emerald_parser::ast::Mod::Module { body } => {
            assert_eq!(body.len(), 1);
            assert!(matches!(&body[0].node, StmtKind::Assign { .. }));
        }
        other => panic!("expected a module, got {:?}", other),
    }
}

#[test]
fn comments_are_produced_but_not_parsed() {
    let toks = make_tokenizer("x = 1  # trailing note");
    assert!(toks.iter().any(|t| matches!(t, Ok((_, Tok::Comment, _)))));
    let body = parse_program("x = 1  # trailing note", "<test>").unwrap();
    assert_eq!(body.len(), 1);
}

#[test]
fn unterminated_input_reports_eof() {
    let err = parse_program("f(1, 2", "<test>").unwrap_err();
    assert!(matches!(err.error, ParseErrorType::Lexical(LexicalErrorType::Eof)));
    let err = parse_program("'unterminated", "<test>").unwrap_err();
    assert!(matches!(err.error, ParseErrorType::Lexical(LexicalErrorType::Eof)));
}

#[test]
fn line_continuation_joins_lines() {
    let body = parse_program("x = 1 + \\\n    2", "<test>").unwrap();
    assert_eq!(body.len(), 1);
    let err = parse_program("x = 1 \\ 2", "<test>").unwrap_err();
    assert!(matches!(
        err.error,
        ParseErrorType::Lexical(LexicalErrorType::LineContinuationError)
    ));
}

#[test]
fn duplicate_and_misplaced_arguments_are_rejected() {
    let err = parse_program("f(a=1, a=2)", "<test>").unwrap_err();
    assert!(matches!(
        err.error,
        ParseErrorType::Lexical(LexicalErrorType::DuplicateKeywordArgumentError)
    ));
    let err = parse_program("f(a=1, 2)", "<test>").unwrap_err();
    assert!(matches!(
        err.error,
        ParseErrorType::Lexical(LexicalErrorType::PositionalArgumentError)
    ));
    let err = parse_program("def f(a=1, b): pass", "<test>").unwrap_err();
    assert!(matches!(
        err.error,
        ParseErrorType::Lexical(LexicalErrorType::DefaultArgumentError)
    ));
}

#[test]
fn operator_precedence_and_associativity() {
    // `|` binds looser than `&`
    let e = parse_expression("1 | 2 & 3", "<test>").unwrap();
    match &e.node {
        ExprKind::BinOp { op, right, .. } => {
            assert_eq!(*op, Operator::BitOr);
            assert!(matches!(&right.node, ExprKind::BinOp { op: Operator::BitAnd, .. }));
        }
        other => panic!("expected a bitwise or, got {:?}", other),
    }
    // exponentiation associates to the right
    let e = parse_expression("2 ** 3 ** 2", "<test>").unwrap();
    match &e.node {
        ExprKind::BinOp { op, left, right } => {
            assert_eq!(*op, Operator::Pow);
            assert!(matches!(&left.node, ExprKind::Constant { .. }));
            assert!(matches!(&right.node, ExprKind::BinOp { op: Operator::Pow, .. }));
        }
        other => panic!("expected a power, got {:?}", other),
    }
    // shifts bind looser than addition
    let e = parse_expression("1 << 2 + 3", "<test>").unwrap();
    match &e.node {
        ExprKind::BinOp { op, right, .. } => {
            assert_eq!(*op, Operator::LShift);
            assert!(matches!(&right.node, ExprKind::BinOp { op: Operator::Add, .. }));
        }
        other => panic!("expected a shift, got {:?}", other),
    }
}

#[test]
fn display_string_includes_path_and_position() {
    let err: BaseError<ParseErrorType> = BaseError {
        error: ParseErrorType::Eof,
        location: Location { row: 3, column: 14 },
        source_path: "m.em".to_string(),
    };
    assert_eq!(err.display_string(), "Got unexpected EOF at m.em:3:14");
    let err: BaseError<LexicalErrorType> = BaseError {
        error: LexicalErrorType::TabError,
        location: Location { row: 120, column: 0 },
        source_path: "deep/nested.em".to_string(),
    };
    assert_eq!(
        err.display_string(),
        "inconsistent use of tabs and spaces in indentation at deep/nested.em:120:0"
    );
}

#[test]
fn statement_tail_intermediate_holds_either_form() {
    let body = parse_program("pass", "<test>").unwrap();
    let tail = StatementsOrDoBlock::Statements(body);
    assert!(matches!(tail, StatementsOrDoBlock::Statements(ref b) if b.len() == 1));
    let block = parse_expression("x", "<test>").unwrap();
    let tail = StatementsOrDoBlock::DoBlock(block);
    assert!(matches!(tail, StatementsOrDoBlock::DoBlock(_)));
}

#[test]
fn async_do_blocks_carry_the_async_mode() {
    let source = "some_fun() async do:\n  pass\n";
    let body = parse_program(source, "<test>").unwrap();
    match &body[0].node {
        StmtKind::Expr { value } => match &value.node {
            ExprKind::Call { args, .. } => {
                assert!(matches!(
                    &args[0].node,
                    ExprKind::DoBlock { mode: emerald_parser::ast::DoMode::Async, .. }
                ));
            }
            other => panic!("expected a call, got {:?}", other),
        },
        other => panic!("expected an expression statement, got {:?}", other),
    }
}

#[test]
fn do_block_on_a_non_call_is_a_syntax_error() {
    let err = parse_program("x = 5 do:\n  pass\n", "<test>").unwrap_err();
    assert!(matches!(err.error, ParseErrorType::UnrecognizedToken(Tok::Do, None)));
}

#[test]
fn unknown_characters_are_lexical_errors() {
    let err = parse_program("x = ?", "<test>").unwrap_err();
    assert!(matches!(
        err.error,
        ParseErrorType::Lexical(LexicalErrorType::UnrecognizedToken { tok: '?' })
    ));
}

#[test]
fn trivial_streams_parse_to_empty_modules() {
    let loc = Location { row: 1, column: 0 };
    let stream = vec![Ok((loc, Tok::EndOfFile, loc))];
    match parse_tokens(stream, Mode::Module, "<test>").unwrap() {
        emerald_parser::ast::Mod::Module { body } => assert_eq!(body.len(), 0),
        other => panic!("expected a module, got {:?}", other),
    }
}

#[test]
fn lexical_failure_streams_pass_the_error_through() {
    let le = LexicalError {
        error: LexicalErrorType::TabError,
        location: Location { row: 2, column: 0 },
    };
    let err = parse_tokens(vec![Err(le)], Mode::Module, "s.em").unwrap_err();
    assert!(matches!(err.error, ParseErrorType::Lexical(LexicalErrorType::TabError)));
    assert_eq!(err.location, Location { row: 2, column: 0 });
    assert_eq!(err.source_path, "s.em");
}

#[test]
fn blank_sources_always_parse_to_empty_modules() {
    assert_eq!(parse_program("", "<test>").unwrap().len(), 0);
    assert_eq!(parse_program("   \n \r\n\n", "<test>").unwrap().len(), 0);
    let toks = make_tokenizer("  \n");
    assert_eq!(toks.len(), 1);
    assert!(matches!(&toks[0], Ok((_, Tok::EndOfFile, _))));
}

#[test]
fn leaf_token_streams_parse_to_their_exact_node() {
    let a = Location { row: 1, column: 0 };
    let b = Location { row: 1, column: 7 };
    let stream = vec![
        Ok((a, Tok::Int { value: "1234567890123456789012345".to_string() }, b)),
        Ok((b, Tok::EndOfFile, b)),
    ];
    match parse_tokens(stream, Mode::Expression, "<test>").unwrap() {
        emerald_parser::ast::Mod::Expression { body } => {
            assert_eq!(body.location, a);
            assert_eq!(body.end_location, Some(b));
            match body.node {
                ExprKind::Constant { value: Constant::Int(v), kind } => {
                    assert_eq!(v, "1234567890123456789012345");
                    assert!(kind.is_none());
                }
                other => panic!("expected the exact integer constant, got {:?}", other),
            }
        }
        other => panic!("expected an expression root, got {:?}", other),
    }
}

#[test]
fn long_integer_literals_keep_every_digit() {
    let e = parse_expression("123456789012345678901234567890123456789", "<test>").unwrap();
    assert!(matches!(
        e.node,
        ExprKind::Constant { value: Constant::Int(ref v), .. }
            if v == "123456789012345678901234567890123456789"
    ));
}
