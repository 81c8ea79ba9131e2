//! The AST data model: modules, statements, expressions, constants, and the
//! conversion-flag enumeration for formatted strings, plus the
//! block-relocation utilities that move a trailing block onto the correct
//! sub-expression.

use vstd::prelude::*;
use crate::location::{loc_le, Location};

verus! {

/// Transforms an interpolated value prior to formatting it, selected in a
/// formatted string by `!s`, `!a` or `!r` after the expression.
#[derive(Copy, Clone, Debug, PartialEq, Eq, Structural)]
pub enum ConversionFlag {
    /// No conversion.
    NoConversion,
    /// Converts by calling `str(<value>)`.
    Str,
    /// Converts by calling `ascii(<value>)`.
    Ascii,
    /// Converts by calling `repr(<value>)`.
    Repr,
}

/// What `ConversionFlag::try_from` returns: each flag is encoded as the ASCII
/// code of its letter (`s`, `a`, `r`), and no conversion as `0`; everything
/// else is handed back as the error payload.
pub open spec fn spec_conversion_flag_from(b: usize) -> Result<ConversionFlag, usize> {
    if b == 0 {
        Ok(ConversionFlag::NoConversion)
    } else if b == 115 {
        Ok(ConversionFlag::Str)
    } else if b == 97 {
        Ok(ConversionFlag::Ascii)
    } else if b == 114 {
        Ok(ConversionFlag::Repr)
    } else {
        Err(b)
    }
}

impl ConversionFlag {
    /// Decodes a flag from its small-integer encoding: `0` (none) or the
    /// ASCII code of `s`, `a` or `r`; any other value fails and is handed
    /// back unchanged.
    pub fn try_from(b: usize) -> (r: Result<ConversionFlag, usize>)
        ensures
            r == spec_conversion_flag_from(b),
    {
        if b == 0 {
            Ok(ConversionFlag::NoConversion)
        } else if b == 115 {
            Ok(ConversionFlag::Str)
        } else if b == 97 {
            Ok(ConversionFlag::Ascii)
        } else if b == 114 {
            Ok(ConversionFlag::Repr)
        } else {
            Err(b)
        }
    }
}

/// Whether a trailing block runs synchronously or asynchronously.
#[derive(Copy, Clone, Debug, PartialEq, Eq, Structural)]
pub enum DoMode {
    Async,
    Sync,
}

/// A literal value carried by a `Constant` expression. Integer and floating
/// literals keep their exact source digits, so no precision is lost.
#[derive(Clone, Debug, PartialEq)]
pub enum Constant {
    NoneLit,
    Bool(bool),
    Str(String),
    Int(String),
    Float(String),
    Ellipsis,
}

/// A boolean connective in a `BoolOp` chain.
#[derive(Copy, Clone, Debug, PartialEq, Eq, Structural)]
pub enum BoolOpKind {
    And,
    Or,
}

/// A binary operator.
#[derive(Copy, Clone, Debug, PartialEq, Eq, Structural)]
pub enum Operator {
    Add,
    Sub,
    Mult,
    Div,
    FloorDiv,
    Mod,
    Pow,
    LShift,
    RShift,
    BitOr,
    BitXor,
    BitAnd,
}

/// A unary operator.
#[derive(Copy, Clone, Debug, PartialEq, Eq, Structural)]
pub enum UnaryOpKind {
    Not,
    UAdd,
    USub,
    Invert,
}

/// A comparison operator in a (possibly chained) `Compare`.
#[derive(Copy, Clone, Debug, PartialEq, Eq, Structural)]
pub enum CmpOp {
    Eq,
    NotEq,
    Lt,
    LtE,
    Gt,
    GtE,
    Is,
    IsNot,
    In,
    NotIn,
}

/// The default, empty value of a node's annotation slot. Later compiler
/// passes may put their own data there; the parser never inspects it.
#[derive(Copy, Clone, Debug, PartialEq, Eq, Structural)]
pub struct NoCustom;

/// An expression node: a start position, an optional end position (absent
/// for synthetic nodes), a caller-owned annotation slot the parser never
/// inspects, and the kind.
#[derive(Debug, PartialEq)]
pub struct Expr {
    pub location: Location,
    pub end_location: Option<Location>,
    pub custom: NoCustom,
    pub node: ExprKind,
}

/// One `for`/`in`/`if` clause of a comprehension.
#[derive(Debug, PartialEq)]
pub struct Comprehension {
    pub target: Expr,
    pub iter: Expr,
    pub ifs: Vec<Expr>,
}

/// A keyword argument of a call; `arg` is `None` for a `**spread`.
#[derive(Debug, PartialEq)]
pub struct Keyword {
    pub arg: Option<String>,
    pub value: Expr,
}

/// One formal parameter of a function or lambda.
#[derive(Clone, Debug, PartialEq)]
pub struct Arg {
    pub location: Location,
    pub end_location: Option<Location>,
    pub arg: String,
}

/// The formal parameters of a function or lambda; the last `defaults.len()`
/// parameters carry the default values, in order.
#[derive(Debug, PartialEq)]
pub struct Arguments {
    pub args: Vec<Arg>,
    pub defaults: Vec<Expr>,
}

/// The closed set of expression kinds.
#[derive(Debug, PartialEq)]
pub enum ExprKind {
    BoolOp { op: BoolOpKind, values: Vec<Expr> },
    NamedExpr { target: Box<Expr>, value: Box<Expr> },
    BinOp { left: Box<Expr>, op: Operator, right: Box<Expr> },
    UnaryOp { op: UnaryOpKind, operand: Box<Expr> },
    Lambda { args: Box<Arguments>, body: Box<Expr> },
    IfExp { test: Box<Expr>, body: Box<Expr>, orelse: Box<Expr> },
    Dict { keys: Vec<Expr>, values: Vec<Expr> },
    SetLit { elts: Vec<Expr> },
    ListComp { elt: Box<Expr>, generators: Vec<Comprehension> },
    SetComp { elt: Box<Expr>, generators: Vec<Comprehension> },
    DictComp { key: Box<Expr>, value: Box<Expr>, generators: Vec<Comprehension> },
    GeneratorExp { elt: Box<Expr>, generators: Vec<Comprehension> },
    Await { value: Box<Expr> },
    Yield { value: Option<Box<Expr>> },
    YieldFrom { value: Box<Expr> },
    Compare { left: Box<Expr>, ops: Vec<CmpOp>, comparators: Vec<Expr> },
    Call { func: Box<Expr>, args: Vec<Expr>, keywords: Vec<Keyword> },
    FormattedValue { value: Box<Expr>, conversion: ConversionFlag, format_spec: Option<Box<Expr>> },
    JoinedStr { values: Vec<Expr> },
    Constant { value: Constant, kind: Option<String> },
    Attribute { value: Box<Expr>, attr: String },
    Subscript { value: Box<Expr>, slice: Box<Expr> },
    Starred { value: Box<Expr> },
    Name { id: String },
    List { elts: Vec<Expr> },
    Tuple { elts: Vec<Expr> },
    Slice { lower: Option<Box<Expr>>, upper: Option<Box<Expr>>, step: Option<Box<Expr>> },
    /// A trailing block attached by the `do:` extension, relocated onto the
    /// correct operand right after its statement is reduced.
    DoBlock { body: Vec<Stmt>, mode: DoMode },
    /// A transient placeholder marking where a still-unparsed trailing block
    /// will go; a placeholder never survives into a well-formed tree, so
    /// relocation eliminates it before a tree is returned.
    EndOfBlockMarker,
}

/// A statement node, shaped like `Expr`.
#[derive(Debug, PartialEq)]
pub struct Stmt {
    pub location: Location,
    pub end_location: Option<Location>,
    pub custom: NoCustom,
    pub node: StmtKind,
}

/// An ordered block of statements.
pub type Suite = Vec<Stmt>;

/// The closed set of statement kinds.
#[derive(Debug, PartialEq)]
pub enum StmtKind {
    Expr { value: Box<Expr> },
    Assign { targets: Vec<Expr>, value: Box<Expr> },
    Return { value: Option<Box<Expr>> },
    Pass,
    Break,
    Continue,
    If { test: Box<Expr>, body: Vec<Stmt>, orelse: Vec<Stmt> },
    While { test: Box<Expr>, body: Vec<Stmt>, orelse: Vec<Stmt> },
    For { target: Box<Expr>, iter: Box<Expr>, body: Vec<Stmt> },
    FunctionDef { name: String, args: Box<Arguments>, body: Vec<Stmt> },
    ClassDef { name: String, bases: Vec<Expr>, body: Vec<Stmt> },
}

/// The root of a parse: one variant per entry mode.
#[derive(Debug, PartialEq)]
pub enum Mod {
    Module { body: Vec<Stmt> },
    Interactive { body: Vec<Stmt> },
    Expression { body: Box<Expr> },
}

/// A node's end position, where present, never precedes its start position.
pub open spec fn span_ok(location: Location, end_location: Option<Location>) -> bool {
    end_location matches Some(e) ==> loc_le(location, e)
}

/// Well-formedness of a finished expression tree: every node's span is
/// ordered, every operator chain holds at least one operand, and no
/// transient block placeholder remains anywhere in the tree.
pub open spec fn expr_wf(e: Expr) -> bool
    decreases e,
{
    &&& span_ok(e.location, e.end_location)
    &&& match e.node {
        ExprKind::BoolOp { op, values } => values.len() >= 1 && (forall|i: int|
            0 <= i < values.len() ==> expr_wf(#[trigger] values[i])),
        ExprKind::NamedExpr { target, value } => expr_wf(*target) && expr_wf(*value),
        ExprKind::BinOp { left, op, right } => expr_wf(*left) && expr_wf(*right),
        ExprKind::UnaryOp { op, operand } => expr_wf(*operand),
        ExprKind::Lambda { args, body } => arguments_wf(*args) && expr_wf(*body),
        ExprKind::IfExp { test, body, orelse } => expr_wf(*test) && expr_wf(*body) && expr_wf(
            *orelse,
        ),
        ExprKind::Dict { keys, values } => keys.len() == values.len() && (forall|i: int|
            0 <= i < keys.len() ==> expr_wf(#[trigger] keys[i])) && (forall|i: int|
            0 <= i < values.len() ==> expr_wf(#[trigger] values[i])),
        ExprKind::SetLit { elts } => forall|i: int| 0 <= i < elts.len() ==> expr_wf(
            #[trigger] elts[i],
        ),
        ExprKind::ListComp { elt, generators } => expr_wf(*elt) && (forall|i: int|
            0 <= i < generators.len() ==> comprehension_wf(#[trigger] generators[i])),
        ExprKind::SetComp { elt, generators } => expr_wf(*elt) && (forall|i: int|
            0 <= i < generators.len() ==> comprehension_wf(#[trigger] generators[i])),
        ExprKind::DictComp { key, value, generators } => expr_wf(*key) && expr_wf(*value) && (
        forall|i: int| 0 <= i < generators.len() ==> comprehension_wf(#[trigger] generators[i])),
        ExprKind::GeneratorExp { elt, generators } => expr_wf(*elt) && (forall|i: int|
            0 <= i < generators.len() ==> comprehension_wf(#[trigger] generators[i])),
        ExprKind::Await { value } => expr_wf(*value),
        ExprKind::Yield { value } => value matches Some(v) ==> expr_wf(*v),
        ExprKind::YieldFrom { value } => expr_wf(*value),
        ExprKind::Compare { left, ops, comparators } => expr_wf(*left) && ops.len()
            == comparators.len() && comparators.len() >= 1 && (forall|i: int|
            0 <= i < comparators.len() ==> expr_wf(#[trigger] comparators[i])),
        ExprKind::Call { func, args, keywords } => expr_wf(*func) && (forall|i: int|
            0 <= i < args.len() ==> expr_wf(#[trigger] args[i])) && (forall|i: int|
            0 <= i < keywords.len() ==> expr_wf(#[trigger] keywords[i].value)),
        ExprKind::FormattedValue { value, conversion, format_spec } => expr_wf(*value) && (
        format_spec matches Some(s) ==> expr_wf(*s)),
        ExprKind::JoinedStr { values } => forall|i: int| 0 <= i < values.len() ==> expr_wf(
            #[trigger] values[i],
        ),
        ExprKind::Constant { value, kind } => true,
        ExprKind::Attribute { value, attr } => expr_wf(*value),
        ExprKind::Subscript { value, slice } => expr_wf(*value) && expr_wf(*slice),
        ExprKind::Starred { value } => expr_wf(*value),
        ExprKind::Name { id } => true,
        ExprKind::List { elts } => forall|i: int| 0 <= i < elts.len() ==> expr_wf(
            #[trigger] elts[i],
        ),
        ExprKind::Tuple { elts } => forall|i: int| 0 <= i < elts.len() ==> expr_wf(
            #[trigger] elts[i],
        ),
        ExprKind::Slice { lower, upper, step } => (lower matches Some(v) ==> expr_wf(*v)) && (
        upper matches Some(v) ==> expr_wf(*v)) && (step matches Some(v) ==> expr_wf(*v)),
        ExprKind::DoBlock { body, mode } => forall|i: int| 0 <= i < body.len() ==> stmt_wf(
            #[trigger] body[i],
        ),
        ExprKind::EndOfBlockMarker => false,
    }
}

/// Well-formedness of one comprehension clause.
pub open spec fn comprehension_wf(c: Comprehension) -> bool
    decreases c,
{
    expr_wf(c.target) && expr_wf(c.iter) && (forall|i: int|
        0 <= i < c.ifs.len() ==> expr_wf(#[trigger] c.ifs[i]))
}

/// Well-formedness of a parameter list: spans ordered, and never more
/// defaults than parameters.
pub open spec fn arguments_wf(a: Arguments) -> bool
    decreases a,
{
    a.defaults.len() <= a.args.len() && (forall|i: int|
        0 <= i < a.args.len() ==> span_ok(
            (#[trigger] a.args[i]).location,
            a.args[i].end_location,
        )) && (forall|i: int| 0 <= i < a.defaults.len() ==> expr_wf(#[trigger] a.defaults[i]))
}

/// Well-formedness of a statement tree.
pub open spec fn stmt_wf(s: Stmt) -> bool
    decreases s,
{
    span_ok(s.location, s.end_location) && stmt_kind_wf(s.node)
}

/// Well-formedness of a statement kind's contents.
pub open spec fn stmt_kind_wf(k: StmtKind) -> bool
    decreases k,
{
    match k {
        StmtKind::Expr { value } => expr_wf(*value),
        StmtKind::Assign { targets, value } => expr_wf(*value) && (forall|i: int|
            0 <= i < targets.len() ==> expr_wf(#[trigger] targets[i])),
        StmtKind::Return { value } => value matches Some(v) ==> expr_wf(*v),
        StmtKind::Pass => true,
        StmtKind::Break => true,
        StmtKind::Continue => true,
        StmtKind::If { test, body, orelse } => expr_wf(*test) && suite_wf(body@) && suite_wf(orelse@),
        StmtKind::While { test, body, orelse } => expr_wf(*test) && suite_wf(body@) && suite_wf(orelse@),
        StmtKind::For { target, iter, body } => expr_wf(*target) && expr_wf(*iter) && suite_wf(body@),
        StmtKind::FunctionDef { name, args, body } => arguments_wf(*args) && suite_wf(body@),
        StmtKind::ClassDef { name, bases, body } => (forall|i: int|
            0 <= i < bases.len() ==> expr_wf(#[trigger] bases[i])) && suite_wf(body@),
    }
}

/// Well-formedness of a statement block.
pub open spec fn suite_wf(body: Seq<Stmt>) -> bool
    decreases body,
{
    forall|i: int| 0 <= i < body.len() ==> stmt_wf(#[trigger] body[i])
}

/// Well-formedness of a parse root.
pub open spec fn mod_wf(m: Mod) -> bool {
    match m {
        Mod::Module { body } => suite_wf(body@),
        Mod::Interactive { body } => suite_wf(body@),
        Mod::Expression { body } => expr_wf(*body),
    }
}

/// The sub-expression a trailing block lands on under the rightmost-operand
/// rule: descend into a binary operator's right operand, a boolean chain's
/// last operand, and a unary operator's operand; every other kind is itself
/// the attachment point.
pub open spec fn rightmost_sub(e: Expr) -> Expr
    decreases e,
{
    match e.node {
        ExprKind::BinOp { left, op, right } => rightmost_sub(*right),
        ExprKind::BoolOp { op, values } => if values.len() >= 1 {
            rightmost_sub(values[values.len() - 1])
        } else {
            e
        },
        ExprKind::UnaryOp { op, operand } => rightmost_sub(*operand),
        _ => e,
    }
}

/// `b` is `a` with the attachment point of the rightmost-operand rule
/// replaced by `t`: both trees agree everywhere else, including every
/// node's positions.
pub open spec fn is_rightmost_replaced(a: Expr, b: Expr, t: Expr) -> bool
    decreases a,
{
    match a.node {
        ExprKind::BinOp { left, op, right } => b.location == a.location && b.end_location
            == a.end_location && (b.node matches ExprKind::BinOp { left: bl, op: bop, right: br }
            && bl == left && bop == op && is_rightmost_replaced(*right, *br, t)),
        ExprKind::BoolOp { op, values } => b.location == a.location && b.end_location
            == a.end_location && values.len() >= 1 && (b.node matches ExprKind::BoolOp {
            op: bop,
            values: bvalues,
        } && bop == op && bvalues.len() == values.len() && (forall|i: int|
            0 <= i < values.len() - 1 ==> bvalues[i] == values[i]) && is_rightmost_replaced(
            values[values.len() - 1],
            bvalues[values.len() - 1],
            t,
        )),
        ExprKind::UnaryOp { op, operand } => b.location == a.location && b.end_location
            == a.end_location && (b.node matches ExprKind::UnaryOp { op: bop, operand: bo } && bop
            == op && is_rightmost_replaced(*operand, *bo, t)),
        _ => b == t,
    }
}

/// The sub-expression a trailing block lands on under the leftmost-operand
/// rule, used where the opposite association is wanted: descend into a
/// boolean chain's last operand, a binary operator's or comparison's left
/// operand, a call's callee, and the object of an attribute access or
/// subscript; every other kind is itself the attachment point.
pub open spec fn leftmost_sub(e: Expr) -> Expr
    decreases e,
{
    match e.node {
        ExprKind::BoolOp { op, values } => if values.len() >= 1 {
            leftmost_sub(values[values.len() - 1])
        } else {
            e
        },
        ExprKind::BinOp { left, op, right } => leftmost_sub(*left),
        ExprKind::Compare { left, ops, comparators } => leftmost_sub(*left),
        ExprKind::Call { func, args, keywords } => leftmost_sub(*func),
        ExprKind::Attribute { value, attr } => leftmost_sub(*value),
        ExprKind::Subscript { value, slice } => leftmost_sub(*value),
        _ => e,
    }
}

/// `b` is `a` with the attachment point of the leftmost-operand rule
/// replaced by `t`: both trees agree everywhere else, including every
/// node's positions.
pub open spec fn is_leftmost_replaced(a: Expr, b: Expr, t: Expr) -> bool
    decreases a,
{
    match a.node {
        ExprKind::BoolOp { op, values } => b.location == a.location && b.end_location
            == a.end_location && values.len() >= 1 && (b.node matches ExprKind::BoolOp {
            op: bop,
            values: bvalues,
        } && bop == op && bvalues.len() == values.len() && (forall|i: int|
            0 <= i < values.len() - 1 ==> bvalues[i] == values[i]) && is_leftmost_replaced(
            values[values.len() - 1],
            bvalues[values.len() - 1],
            t,
        )),
        ExprKind::BinOp { left, op, right } => b.location == a.location && b.end_location
            == a.end_location && (b.node matches ExprKind::BinOp { left: bl, op: bop, right: br }
            && bop == op && br == right && is_leftmost_replaced(*left, *bl, t)),
        ExprKind::Compare { left, ops, comparators } => b.location == a.location && b.end_location
            == a.end_location && (b.node matches ExprKind::Compare {
            left: bl,
            ops: bops,
            comparators: bc,
        } && bops == ops && bc == comparators && is_leftmost_replaced(*left, *bl, t)),
        ExprKind::Call { func, args, keywords } => b.location == a.location && b.end_location
            == a.end_location && (b.node matches ExprKind::Call {
            func: bf,
            args: ba,
            keywords: bk,
        } && ba == args && bk == keywords && is_leftmost_replaced(*func, *bf, t)),
        ExprKind::Attribute { value, attr } => b.location == a.location && b.end_location
            == a.end_location && (b.node matches ExprKind::Attribute { value: bv, attr: battr }
            && battr == attr && is_leftmost_replaced(*value, *bv, t)),
        ExprKind::Subscript { value, slice } => b.location == a.location && b.end_location
            == a.end_location && (b.node matches ExprKind::Subscript { value: bv, slice: bs } && bs
            == slice && is_leftmost_replaced(*value, *bv, t)),
        _ => b == t,
    }
}

/// The part of well-formedness the rightmost-operand descent itself needs:
/// every boolean chain on the descended path holds at least one operand.
pub open spec fn rightmost_path_ok(e: Expr) -> bool
    decreases e,
{
    match e.node {
        ExprKind::BinOp { left, op, right } => rightmost_path_ok(*right),
        ExprKind::BoolOp { op, values } => values.len() >= 1 && rightmost_path_ok(
            values[values.len() - 1],
        ),
        ExprKind::UnaryOp { op, operand } => rightmost_path_ok(*operand),
        _ => true,
    }
}

/// The part of well-formedness the leftmost-operand descent itself needs.
pub open spec fn leftmost_path_ok(e: Expr) -> bool
    decreases e,
{
    match e.node {
        ExprKind::BoolOp { op, values } => values.len() >= 1 && leftmost_path_ok(
            values[values.len() - 1],
        ),
        ExprKind::BinOp { left, op, right } => leftmost_path_ok(*left),
        ExprKind::Compare { left, ops, comparators } => leftmost_path_ok(*left),
        ExprKind::Call { func, args, keywords } => leftmost_path_ok(*func),
        ExprKind::Attribute { value, attr } => leftmost_path_ok(*value),
        ExprKind::Subscript { value, slice } => leftmost_path_ok(*value),
        _ => true,
    }
}

/// The attachment point of the rightmost-operand rule is always a base
/// case: never a binary, boolean or unary operator node.
pub proof fn lemma_rightmost_sub_base(e: Expr)
    requires
        rightmost_path_ok(e),
    ensures
        !(rightmost_sub(e).node matches ExprKind::BinOp { .. }),
        !(rightmost_sub(e).node matches ExprKind::BoolOp { .. }),
        !(rightmost_sub(e).node matches ExprKind::UnaryOp { .. }),
        rightmost_path_ok(rightmost_sub(e)),
    decreases e,
{
    match e.node {
        ExprKind::BinOp { left, op, right } => lemma_rightmost_sub_base(*right),
        ExprKind::BoolOp { op, values } => lemma_rightmost_sub_base(values[values.len() - 1]),
        ExprKind::UnaryOp { op, operand } => lemma_rightmost_sub_base(*operand),
        _ => {},
    }
}

/// The rightmost-operand attachment point of a well-formed expression is
/// well-formed.
pub proof fn lemma_rightmost_sub_wf(e: Expr)
    requires
        expr_wf(e),
    ensures
        expr_wf(rightmost_sub(e)),
        rightmost_path_ok(e),
    decreases e,
{
    match e.node {
        ExprKind::BinOp { left, op, right } => lemma_rightmost_sub_wf(*right),
        ExprKind::BoolOp { op, values } => lemma_rightmost_sub_wf(values[values.len() - 1]),
        ExprKind::UnaryOp { op, operand } => lemma_rightmost_sub_wf(*operand),
        _ => {},
    }
}

/// The leftmost-operand attachment point of a well-formed expression is
/// well-formed.
pub proof fn lemma_leftmost_sub_wf(e: Expr)
    requires
        expr_wf(e),
    ensures
        expr_wf(leftmost_sub(e)),
        leftmost_path_ok(e),
    decreases e,
{
    match e.node {
        ExprKind::BoolOp { op, values } => lemma_leftmost_sub_wf(values[values.len() - 1]),
        ExprKind::BinOp { left, op, right } => lemma_leftmost_sub_wf(*left),
        ExprKind::Compare { left, ops, comparators } => lemma_leftmost_sub_wf(*left),
        ExprKind::Call { func, args, keywords } => lemma_leftmost_sub_wf(*func),
        ExprKind::Attribute { value, attr } => lemma_leftmost_sub_wf(*value),
        ExprKind::Subscript { value, slice } => lemma_leftmost_sub_wf(*value),
        _ => {},
    }
}

/// Splicing a well-formed replacement into the rightmost attachment point
/// of a well-formed expression keeps the whole tree well-formed: every
/// node's span, and so the location-monotonicity invariant, survives block
/// relocation.
pub proof fn lemma_rightmost_replaced_wf(a: Expr, b: Expr, t: Expr)
    requires
        expr_wf(a),
        expr_wf(t),
        is_rightmost_replaced(a, b, t),
    ensures
        expr_wf(b),
    decreases a,
{
    match a.node {
        ExprKind::BinOp { left, op, right } => {
            lemma_rightmost_replaced_wf(*right, *b.node->BinOp_right, t);
        },
        ExprKind::BoolOp { op, values } => {
            let bvalues = b.node->BoolOp_values;
            lemma_rightmost_replaced_wf(
                values[values.len() - 1],
                bvalues[values.len() - 1],
                t,
            );
            assert forall|i: int| 0 <= i < bvalues.len() implies expr_wf(#[trigger] bvalues[i]) by {
                if i < values.len() - 1 {
                    assert(bvalues[i] == values[i]);
                }
            }
        },
        ExprKind::UnaryOp { op, operand } => {
            lemma_rightmost_replaced_wf(*operand, *b.node->UnaryOp_operand, t);
        },
        _ => {},
    }
}

/// The rightmost descent path stays usable after a splice whose
/// replacement keeps its own path usable.
pub proof fn lemma_rightmost_replaced_path_ok(a: Expr, b: Expr, t: Expr)
    requires
        rightmost_path_ok(a),
        rightmost_path_ok(t),
        is_rightmost_replaced(a, b, t),
    ensures
        rightmost_path_ok(b),
    decreases a,
{
    match a.node {
        ExprKind::BinOp { left, op, right } => {
            lemma_rightmost_replaced_path_ok(*right, *b.node->BinOp_right, t);
        },
        ExprKind::BoolOp { op, values } => {
            let bvalues = b.node->BoolOp_values;
            lemma_rightmost_replaced_path_ok(
                values[values.len() - 1],
                bvalues[values.len() - 1],
                t,
            );
        },
        ExprKind::UnaryOp { op, operand } => {
            lemma_rightmost_replaced_path_ok(*operand, *b.node->UnaryOp_operand, t);
        },
        _ => {},
    }
}

/// Splicing a well-formed replacement into the leftmost attachment point
/// of a well-formed expression keeps the whole tree well-formed.
pub proof fn lemma_leftmost_replaced_wf(a: Expr, b: Expr, t: Expr)
    requires
        expr_wf(a),
        expr_wf(t),
        is_leftmost_replaced(a, b, t),
    ensures
        expr_wf(b),
    decreases a,
{
    match a.node {
        ExprKind::BoolOp { op, values } => {
            let bvalues = b.node->BoolOp_values;
            lemma_leftmost_replaced_wf(
                values[values.len() - 1],
                bvalues[values.len() - 1],
                t,
            );
            assert forall|i: int| 0 <= i < bvalues.len() implies expr_wf(#[trigger] bvalues[i]) by {
                if i < values.len() - 1 {
                    assert(bvalues[i] == values[i]);
                }
            }
        },
        ExprKind::BinOp { left, op, right } => {
            lemma_leftmost_replaced_wf(*left, *b.node->BinOp_left, t);
        },
        ExprKind::Compare { left, ops, comparators } => {
            lemma_leftmost_replaced_wf(*left, *b.node->Compare_left, t);
        },
        ExprKind::Call { func, args, keywords } => {
            lemma_leftmost_replaced_wf(*func, *b.node->Call_func, t);
        },
        ExprKind::Attribute { value, attr } => {
            lemma_leftmost_replaced_wf(*value, *b.node->Attribute_value, t);
        },
        ExprKind::Subscript { value, slice } => {
            lemma_leftmost_replaced_wf(*value, *b.node->Subscript_value, t);
        },
        _ => {},
    }
}

/// Where a statement has an attachment point, splicing a well-formed
/// replacement there keeps the statement well-formed.
pub proof fn lemma_stmt_rightmost_replaced_wf(a: StmtKind, b: StmtKind, t: Expr)
    requires
        stmt_kind_wf(a),
        expr_wf(t),
        is_stmt_rightmost_replaced(a, b, t),
    ensures
        stmt_kind_wf(b),
{
    match a {
        StmtKind::Expr { value } => {
            lemma_rightmost_replaced_wf(*value, *b->Expr_value, t);
        },
        StmtKind::Return { value } => {
            lemma_rightmost_replaced_wf(*value->Some_0, *b->Return_value->Some_0, t);
        },
        StmtKind::Assign { targets, value } => {
            lemma_rightmost_replaced_wf(*value, *b->Assign_value, t);
        },
        _ => {},
    }
}

/// Where a statement can carry a trailing block, its boolean chains along
/// the descent are non-empty.
pub open spec fn stmt_rightmost_path_ok(k: StmtKind) -> bool {
    match k {
        StmtKind::Expr { value } => rightmost_path_ok(*value),
        StmtKind::Return { value } => value matches Some(v) ==> rightmost_path_ok(*v),
        StmtKind::Assign { targets, value } => rightmost_path_ok(*value),
        _ => true,
    }
}

fn apply_rightmost<F: FnOnce(Expr) -> (Expr, bool)>(e: Expr, f: F) -> (res: (Expr, bool))
    requires
        rightmost_path_ok(e),
        call_requires(f, (rightmost_sub(e),)),
    ensures
        exists|p: (Expr, bool)|
            #[trigger] call_ensures(f, (rightmost_sub(e),), p) && is_rightmost_replaced(
                e,
                res.0,
                p.0,
            ) && res.1 == p.1,
    decreases e,
{
    match e.node {
        ExprKind::BinOp { left, op, right } => {
            let (r2, b) = apply_rightmost(*right, f);
            (
                Expr {
                    location: e.location,
                    end_location: e.end_location,
                    custom: NoCustom,
                    node: ExprKind::BinOp { left, op, right: Box::new(r2) },
                },
                b,
            )
        },
        ExprKind::BoolOp { op, values } => {
            let mut values = values;
            let last = values.pop().unwrap();
            let (r2, b) = apply_rightmost(last, f);
            values.push(r2);
            (
                Expr {
                    location: e.location,
                    end_location: e.end_location,
                    custom: NoCustom,
                    node: ExprKind::BoolOp { op, values },
                },
                b,
            )
        },
        ExprKind::UnaryOp { op, operand } => {
            let (r2, b) = apply_rightmost(*operand, f);
            (
                Expr {
                    location: e.location,
                    end_location: e.end_location,
                    custom: NoCustom,
                    node: ExprKind::UnaryOp { op, operand: Box::new(r2) },
                },
                b,
            )
        },
        node => {
            let whole = Expr {
                location: e.location,
                end_location: e.end_location,
                custom: NoCustom,
                node,
            };
            proof {
                assert(whole == e);
            }
            f(whole)
        },
    }
}

/// Applies `f` once, to the sub-expression the rightmost-operand rule picks,
/// splicing `f`'s replacement into that position; returns what `f` reported.
pub fn modify_rightmost_expr<F: FnOnce(Expr) -> (Expr, bool)>(expr: &mut Expr, f: F) -> (r: bool)
    requires
        rightmost_path_ok(*old(expr)),
        call_requires(f, (rightmost_sub(*old(expr)),)),
    ensures
        exists|p: (Expr, bool)|
            #[trigger] call_ensures(f, (rightmost_sub(*old(expr)),), p) && is_rightmost_replaced(
                *old(expr),
                *final(expr),
                p.0,
            ) && r == p.1,
{
    let mut tmp = Expr {
        location: Location { row: 0, column: 0 },
        end_location: None,
        custom: NoCustom,
        node: ExprKind::EndOfBlockMarker,
    };
    core::mem::swap(expr, &mut tmp);
    let (e2, b) = apply_rightmost(tmp, f);
    *expr = e2;
    b
}

/// Where a statement can carry a trailing block: the value position of an
/// expression statement, a `return` with a value, or an assignment's
/// right-hand side, narrowed further by the rightmost-operand rule. Every
/// other statement kind has no attachment point.
pub open spec fn stmt_rightmost_target(k: StmtKind) -> Option<Expr> {
    match k {
        StmtKind::Expr { value } => Some(rightmost_sub(*value)),
        StmtKind::Return { value } => match value {
            Some(v) => Some(rightmost_sub(*v)),
            None => None,
        },
        StmtKind::Assign { targets, value } => Some(rightmost_sub(*value)),
        _ => None,
    }
}

/// `b` is `a` with its rightmost-expression attachment point replaced by
/// `t`, everything else unchanged.
pub open spec fn is_stmt_rightmost_replaced(a: StmtKind, b: StmtKind, t: Expr) -> bool {
    match a {
        StmtKind::Expr { value } => b matches StmtKind::Expr { value: bv }
            && is_rightmost_replaced(*value, *bv, t),
        StmtKind::Return { value } => value matches Some(v) && (b matches StmtKind::Return {
            value: bv,
        } && bv matches Some(bve) && is_rightmost_replaced(*v, *bve, t)),
        StmtKind::Assign { targets, value } => b matches StmtKind::Assign {
            targets: bt,
            value: bv,
        } && bt == targets && is_rightmost_replaced(*value, *bv, t),
        _ => false,
    }
}

/// Applies `f` once, to the rightmost expression of a statement that has
/// one (an expression statement's value, a `return`'s value, an
/// assignment's right-hand side); statements of any other kind are left
/// unchanged and report `false`.
pub fn modify_rightmost_expr_of_statement<F: FnOnce(Expr) -> (Expr, bool)>(
    statement: &mut StmtKind,
    f: F,
) -> (r: bool)
    requires
        stmt_rightmost_path_ok(*old(statement)),
        stmt_rightmost_target(*old(statement)) matches Some(t) ==> call_requires(f, (t,)),
    ensures
        match stmt_rightmost_target(*old(statement)) {
            Some(t) => exists|p: (Expr, bool)|
                #[trigger] call_ensures(f, (t,), p) && is_stmt_rightmost_replaced(
                    *old(statement),
                    *final(statement),
                    p.0,
                ) && r == p.1,
            None => r == false && *final(statement) == *old(statement),
        },
{
    let mut tmp = StmtKind::Pass;
    core::mem::swap(statement, &mut tmp);
    match tmp {
        StmtKind::Expr { value } => {
            let (e2, b) = apply_rightmost(*value, f);
            *statement = StmtKind::Expr { value: Box::new(e2) };
            b
        },
        StmtKind::Return { value } => {
            match value {
                Some(v) => {
                    let (e2, b) = apply_rightmost(*v, f);
                    *statement = StmtKind::Return { value: Some(Box::new(e2)) };
                    b
                },
                None => {
                    *statement = StmtKind::Return { value: None };
                    false
                },
            }
        },
        StmtKind::Assign { targets, value } => {
            let (e2, b) = apply_rightmost(*value, f);
            *statement = StmtKind::Assign { targets, value: Box::new(e2) };
            b
        },
        other => {
            *statement = other;
            false
        },
    }
}

fn apply_leftmost<F: FnOnce(Expr) -> (Expr, bool)>(e: Expr, f: F) -> (res: (Expr, bool))
    requires
        leftmost_path_ok(e),
        call_requires(f, (leftmost_sub(e),)),
    ensures
        exists|p: (Expr, bool)|
            #[trigger] call_ensures(f, (leftmost_sub(e),), p) && is_leftmost_replaced(
                e,
                res.0,
                p.0,
            ) && res.1 == p.1,
    decreases e,
{
    match e.node {
        ExprKind::BoolOp { op, values } => {
            let mut values = values;
            let last = values.pop().unwrap();
            let (r2, b) = apply_leftmost(last, f);
            values.push(r2);
            (
                Expr {
                    location: e.location,
                    end_location: e.end_location,
                    custom: NoCustom,
                    node: ExprKind::BoolOp { op, values },
                },
                b,
            )
        },
        ExprKind::BinOp { left, op, right } => {
            let (l2, b) = apply_leftmost(*left, f);
            (
                Expr {
                    location: e.location,
                    end_location: e.end_location,
                    custom: NoCustom,
                    node: ExprKind::BinOp { left: Box::new(l2), op, right },
                },
                b,
            )
        },
        ExprKind::Compare { left, ops, comparators } => {
            let (l2, b) = apply_leftmost(*left, f);
            (
                Expr {
                    location: e.location,
                    end_location: e.end_location,
                    custom: NoCustom,
                    node: ExprKind::Compare { left: Box::new(l2), ops, comparators },
                },
                b,
            )
        },
        ExprKind::Call { func, args, keywords } => {
            let (l2, b) = apply_leftmost(*func, f);
            (
                Expr {
                    location: e.location,
                    end_location: e.end_location,
                    custom: NoCustom,
                    node: ExprKind::Call { func: Box::new(l2), args, keywords },
                },
                b,
            )
        },
        ExprKind::Attribute { value, attr } => {
            let (l2, b) = apply_leftmost(*value, f);
            (
                Expr {
                    location: e.location,
                    end_location: e.end_location,
                    custom: NoCustom,
                    node: ExprKind::Attribute { value: Box::new(l2), attr },
                },
                b,
            )
        },
        ExprKind::Subscript { value, slice } => {
            let (l2, b) = apply_leftmost(*value, f);
            (
                Expr {
                    location: e.location,
                    end_location: e.end_location,
                    custom: NoCustom,
                    node: ExprKind::Subscript { value: Box::new(l2), slice },
                },
                b,
            )
        },
        node => {
            let whole = Expr {
                location: e.location,
                end_location: e.end_location,
                custom: NoCustom,
                node,
            };
            proof {
                assert(whole == e);
            }
            f(whole)
        },
    }
}

/// Applies `f` once, to the leftmost sub-expression of a multi-expression
/// (one with an expression on its left side, such as the `a` of
/// `a + b + c`), splicing `f`'s replacement into that position; returns
/// what `f` reported.
pub fn modify_leftmost_of_multi_expr<F: FnOnce(Expr) -> (Expr, bool)>(expr: &mut Expr, f: F) -> (r:
    bool)
    requires
        leftmost_path_ok(*old(expr)),
        call_requires(f, (leftmost_sub(*old(expr)),)),
    ensures
        exists|p: (Expr, bool)|
            #[trigger] call_ensures(f, (leftmost_sub(*old(expr)),), p) && is_leftmost_replaced(
                *old(expr),
                *final(expr),
                p.0,
            ) && r == p.1,
{
    let mut tmp = Expr {
        location: Location { row: 0, column: 0 },
        end_location: None,
        custom: NoCustom,
        node: ExprKind::EndOfBlockMarker,
    };
    core::mem::swap(expr, &mut tmp);
    let (e2, b) = apply_leftmost(tmp, f);
    *expr = e2;
    b
}

/// The attachment point of a well-formed statement, where there is one, is
/// well-formed.
pub proof fn lemma_stmt_target_wf(k: StmtKind)
    requires
        stmt_kind_wf(k),
    ensures
        stmt_rightmost_target(k) matches Some(t) ==> expr_wf(t),
        stmt_rightmost_path_ok(k),
{
    match k {
        StmtKind::Expr { value } => lemma_rightmost_sub_wf(*value),
        StmtKind::Return { value } => {
            if value is Some {
                lemma_rightmost_sub_wf(*value->Some_0);
            }
        },
        StmtKind::Assign { targets, value } => lemma_rightmost_sub_wf(*value),
        _ => {},
    }
}

/// A statement's descent path stays usable after a splice whose
/// replacement keeps its own path usable.
pub proof fn lemma_stmt_rightmost_replaced_path_ok(a: StmtKind, b: StmtKind, t: Expr)
    requires
        stmt_rightmost_path_ok(a),
        rightmost_path_ok(t),
        is_stmt_rightmost_replaced(a, b, t),
    ensures
        stmt_rightmost_path_ok(b),
{
    match a {
        StmtKind::Expr { value } => {
            lemma_rightmost_replaced_path_ok(*value, *b->Expr_value, t);
        },
        StmtKind::Return { value } => {
            lemma_rightmost_replaced_path_ok(*value->Some_0, *b->Return_value->Some_0, t);
        },
        StmtKind::Assign { targets, value } => {
            lemma_rightmost_replaced_path_ok(*value, *b->Assign_value, t);
        },
        _ => {},
    }
}

/// Where a statement has an attachment point, the point sits at the end of
/// a usable descent path and is itself a base case.
pub proof fn lemma_stmt_target_path_ok(k: StmtKind)
    requires
        stmt_rightmost_path_ok(k),
    ensures
        stmt_rightmost_target(k) matches Some(t) ==> rightmost_path_ok(t) && !(t.node matches
        ExprKind::BinOp { .. }) && !(t.node matches ExprKind::BoolOp { .. }) && !(t.node matches
        ExprKind::UnaryOp { .. }),
{
    match k {
        StmtKind::Expr { value } => lemma_rightmost_sub_base(*value),
        StmtKind::Return { value } => {
            if value is Some {
                lemma_rightmost_sub_base(*value->Some_0);
            }
        },
        StmtKind::Assign { targets, value } => lemma_rightmost_sub_base(*value),
        _ => {},
    }
}

} // verus!
