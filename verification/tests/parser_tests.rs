use emerald_parser::ast::{Constant, DoMode, ExprKind, StmtKind};
use emerald_parser::parser::{parse_expression, parse_program};

#[test]
fn test_parse_empty() {
    let parse_ast = parse_program("", "<test>").unwrap();
    assert_eq!(parse_ast.len(), 0);
}

#[test]
fn test_parse_string() {
    let source = String::from("'Hello world'");
    let parse_ast = parse_program(&source, "<test>").unwrap();
    assert_eq!(parse_ast.len(), 1);
    match &parse_ast[0].node {
        StmtKind::Expr { value } => match &value.node {
            ExprKind::Constant { value: Constant::Str(s), .. } => assert_eq!(s, "Hello world"),
            other => panic!("expected a string constant, got {:?}", other),
        },
        other => panic!("expected an expression statement, got {:?}", other),
    }
}

#[test]
fn test_parse_f_string() {
    let source = String::from("f'Hello world'");
    let parse_ast = parse_program(&source, "<test>").unwrap();
    assert_eq!(parse_ast.len(), 1);
    match &parse_ast[0].node {
        StmtKind::Expr { value } => match &value.node {
            ExprKind::JoinedStr { values } => {
                assert_eq!(values.len(), 1);
                match &values[0].node {
                    ExprKind::Constant { value: Constant::Str(s), .. } => {
                        assert_eq!(s, "Hello world")
                    }
                    other => panic!("expected a literal part, got {:?}", other),
                }
            }
            other => panic!("expected a joined string, got {:?}", other),
        },
        other => panic!("expected an expression statement, got {:?}", other),
    }
}

#[test]
fn test_parse_print_hello() {
    let source = String::from("print('Hello world')");
    let parse_ast = parse_program(&source, "<test>").unwrap();
    assert_eq!(parse_ast.len(), 1);
    match &parse_ast[0].node {
        StmtKind::Expr { value } => match &value.node {
            ExprKind::Call { func, args, keywords } => {
                assert!(matches!(&func.node, ExprKind::Name { id } if id == "print"));
                assert_eq!(args.len(), 1);
                assert_eq!(keywords.len(), 0);
            }
            other => panic!("expected a call, got {:?}", other),
        },
        other => panic!("expected an expression statement, got {:?}", other),
    }
}

#[test]
fn test_parse_print_2() {
    let source = String::from("print('Hello world', 2)");
    let parse_ast = parse_program(&source, "<test>").unwrap();
    match &parse_ast[0].node {
        StmtKind::Expr { value } => match &value.node {
            ExprKind::Call { args, .. } => {
                assert_eq!(args.len(), 2);
                assert!(
                    matches!(&args[1].node, ExprKind::Constant { value: Constant::Int(v), .. } if v == "2")
                );
            }
            other => panic!("expected a call, got {:?}", other),
        },
        other => panic!("expected an expression statement, got {:?}", other),
    }
}

#[test]
fn test_parse_kwargs() {
    let source = String::from("my_func('positional', keyword=2)");
    let parse_ast = parse_program(&source, "<test>").unwrap();
    match &parse_ast[0].node {
        StmtKind::Expr { value } => match &value.node {
            ExprKind::Call { args, keywords, .. } => {
                assert_eq!(args.len(), 1);
                assert_eq!(keywords.len(), 1);
                assert_eq!(keywords[0].arg.as_deref(), Some("keyword"));
            }
            other => panic!("expected a call, got {:?}", other),
        },
        other => panic!("expected an expression statement, got {:?}", other),
    }
}

#[test]
fn test_parse_if_elif_else() {
    let source = String::from("if 1: 10\nelif 2: 20\nelse: 30");
    let parse_ast = parse_program(&source, "<test>").unwrap();
    assert_eq!(parse_ast.len(), 1);
    match &parse_ast[0].node {
        StmtKind::If { body, orelse, .. } => {
            assert_eq!(body.len(), 1);
            assert_eq!(orelse.len(), 1);
            match &orelse[0].node {
                StmtKind::If { body: elif_body, orelse: else_body, .. } => {
                    assert_eq!(elif_body.len(), 1);
                    assert_eq!(else_body.len(), 1);
                }
                other => panic!("expected an elif branch, got {:?}", other),
            }
        }
        other => panic!("expected an if statement, got {:?}", other),
    }
}

#[test]
fn test_parse_lambda() {
    let source = "lambda x, y: x * y";
    let parse_ast = parse_program(source, "<test>").unwrap();
    match &parse_ast[0].node {
        StmtKind::Expr { value } => match &value.node {
            ExprKind::Lambda { args, body } => {
                assert_eq!(args.args.len(), 2);
                assert_eq!(args.defaults.len(), 0);
                assert!(matches!(&body.node, ExprKind::BinOp { .. }));
            }
            other => panic!("expected a lambda, got {:?}", other),
        },
        other => panic!("expected an expression statement, got {:?}", other),
    }
}

#[test]
fn test_parse_tuples() {
    let source = "a, b = 4, 5";
    let parse_ast = parse_program(source, "<test>").unwrap();
    match &parse_ast[0].node {
        StmtKind::Assign { targets, value } => {
            assert_eq!(targets.len(), 1);
            match &targets[0].node {
                ExprKind::Tuple { elts } => assert_eq!(elts.len(), 2),
                other => panic!("expected a tuple target, got {:?}", other),
            }
            match &value.node {
                ExprKind::Tuple { elts } => assert_eq!(elts.len(), 2),
                other => panic!("expected a tuple value, got {:?}", other),
            }
        }
        other => panic!("expected an assignment, got {:?}", other),
    }
}

#[test]
fn test_parse_class() {
    let source = "\
class Foo extends A:
 def initialize():
  pass
 def method_with_default(self, arg='default'):
  pass";
    let parse_ast = parse_program(source, "<test>").unwrap();
    assert_eq!(parse_ast.len(), 1);
    match &parse_ast[0].node {
        StmtKind::ClassDef { name, bases, body } => {
            assert_eq!(name, "Foo");
            assert_eq!(bases.len(), 1);
            assert!(matches!(&bases[0].node, ExprKind::Name { id } if id == "A"));
            assert_eq!(body.len(), 2);
            match &body[1].node {
                StmtKind::FunctionDef { name, args, .. } => {
                    assert_eq!(name, "method_with_default");
                    assert_eq!(args.args.len(), 2);
                    assert_eq!(args.defaults.len(), 1);
                }
                other => panic!("expected a method, got {:?}", other),
            }
        }
        other => panic!("expected a class definition, got {:?}", other),
    }
}

#[test]
fn test_do_blocks() {
    let source = "\
some_fun() do:
  print('Hello world')
print('ok')";
    let parse_ast = parse_program(source, "<test>").unwrap();
    assert_eq!(parse_ast.len(), 2);
    match &parse_ast[0].node {
        StmtKind::Expr { value } => match &value.node {
            ExprKind::Call { args, .. } => {
                assert_eq!(args.len(), 1);
                match &args[0].node {
                    ExprKind::DoBlock { body, mode } => {
                        assert_eq!(body.len(), 1);
                        assert!(matches!(mode, DoMode::Sync));
                    }
                    other => panic!("expected a do-block argument, got {:?}", other),
                }
            }
            other => panic!("expected a call, got {:?}", other),
        },
        other => panic!("expected an expression statement, got {:?}", other),
    }
}

#[test]
fn test_do_blocks_inside_assignment() {
    let source = "\
a = some_fun() do:
  print('Hello world')
print('ok')";
    let parse_ast = parse_program(source, "<test>").unwrap();
    assert_eq!(parse_ast.len(), 2);
    match &parse_ast[0].node {
        StmtKind::Assign { value, .. } => match &value.node {
            ExprKind::Call { args, .. } => {
                assert_eq!(args.len(), 1);
                assert!(matches!(&args[0].node, ExprKind::DoBlock { .. }));
            }
            other => panic!("expected the block on the call, got {:?}", other),
        },
        other => panic!("expected an assignment, got {:?}", other),
    }
}

#[test]
fn test_parse_dict_comprehension() {
    let source = String::from("{x1: x2 for y in z}");
    let parse_ast = parse_expression(&source, "<test>").unwrap();
    match &parse_ast.node {
        ExprKind::DictComp { key, value, generators } => {
            assert!(matches!(&key.node, ExprKind::Name { id } if id == "x1"));
            assert!(matches!(&value.node, ExprKind::Name { id } if id == "x2"));
            assert_eq!(generators.len(), 1);
        }
        other => panic!("expected a dict comprehension, got {:?}", other),
    }
}

#[test]
fn test_parse_list_comprehension() {
    let source = String::from("[x for y in z]");
    let parse_ast = parse_expression(&source, "<test>").unwrap();
    match &parse_ast.node {
        ExprKind::ListComp { elt, generators } => {
            assert!(matches!(&elt.node, ExprKind::Name { id } if id == "x"));
            assert_eq!(generators.len(), 1);
        }
        other => panic!("expected a list comprehension, got {:?}", other),
    }
}

#[test]
fn test_parse_double_list_comprehension() {
    let source = String::from("[x for y, y2 in z for a in b if a < 5 if a > 10]");
    let parse_ast = parse_expression(&source, "<test>").unwrap();
    match &parse_ast.node {
        ExprKind::ListComp { generators, .. } => {
            assert_eq!(generators.len(), 2);
            assert!(matches!(&generators[0].target.node, ExprKind::Tuple { elts } if elts.len() == 2));
            assert_eq!(generators[0].ifs.len(), 0);
            assert_eq!(generators[1].ifs.len(), 2);
        }
        other => panic!("expected a list comprehension, got {:?}", other),
    }
}

#[test]
fn test_parse_generator_comprehension() {
    let source = String::from("(x for y in z)");
    let parse_ast = parse_expression(&source, "<test>").unwrap();
    match &parse_ast.node {
        ExprKind::GeneratorExp { elt, generators } => {
            assert!(matches!(&elt.node, ExprKind::Name { id } if id == "x"));
            assert_eq!(generators.len(), 1);
        }
        other => panic!("expected a generator expression, got {:?}", other),
    }
}

#[test]
fn test_parse_named_expression_generator_comprehension() {
    let source = String::from("(x := y + 1 for y in z)");
    let parse_ast = parse_expression(&source, "<test>").unwrap();
    match &parse_ast.node {
        ExprKind::GeneratorExp { elt, .. } => match &elt.node {
            ExprKind::NamedExpr { target, value } => {
                assert!(matches!(&target.node, ExprKind::Name { id } if id == "x"));
                assert!(matches!(&value.node, ExprKind::BinOp { .. }));
            }
            other => panic!("expected a named expression, got {:?}", other),
        },
        other => panic!("expected a generator expression, got {:?}", other),
    }
}

#[test]
fn test_parse_if_else_generator_comprehension() {
    let source = String::from("(x if y else y for y in z)");
    let parse_ast = parse_expression(&source, "<test>").unwrap();
    match &parse_ast.node {
        ExprKind::GeneratorExp { elt, .. } => {
            assert!(matches!(&elt.node, ExprKind::IfExp { .. }));
        }
        other => panic!("expected a generator expression, got {:?}", other),
    }
}
