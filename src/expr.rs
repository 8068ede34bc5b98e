//! Scalar expressions and their wire form.

use vstd::prelude::*;

use crate::error::{EncodeError, ExprKind};
use crate::literal::{literal_of, literal_to_proto, scalar_error, LiteralNode, ScalarValue};
use crate::schema::DataType;

verus! {

/// A binary operator.
#[derive(Debug, Clone, Copy, PartialEq, Eq, Structural)]
pub enum Operator {
    Eq,
    NotEq,
    Lt,
    LtEq,
    Gt,
    GtEq,
    Plus,
    Minus,
    Multiply,
    Divide,
    Modulus,
    And,
    Or,
    Like,
    NotLike,
}

/// An aggregate function.
#[derive(Debug, Clone, Copy, PartialEq, Eq, Structural)]
pub enum AggregateFunction {
    Count,
    Sum,
    Min,
    Max,
    Avg,
}

/// A scalar expression, evaluated per row or per group.
#[derive(Debug, PartialEq, Eq)]
pub enum Expr {
    Alias(Box<Expr>, String),
    Column(String),
    ScalarVariable(Vec<String>),
    Literal(ScalarValue),
    BinaryExpr { left: Box<Expr>, op: Operator, right: Box<Expr> },
    Not(Box<Expr>),
    IsNotNull(Box<Expr>),
    IsNull(Box<Expr>),
    Cast { expr: Box<Expr>, data_type: DataType },
    Sort { expr: Box<Expr>, asc: bool, nulls_first: bool },
    /// A call of a scalar function or of a user-defined function, by name.
    Function { name: String, args: Vec<Expr> },
    AggregateFunction { fun: AggregateFunction, args: Vec<Expr>, distinct: bool },
    Wildcard,
    /// An expression of another kind with no wire form (a `CASE`, a `BETWEEN`,
    /// ...), known by its kind only.
    Other { kind: ExprKind },
}

/// The wire form of an expression.
///
/// Operators and aggregate functions travel as stable numeric identifiers (see
/// `operator_id` and `aggregate_function_id`); identifiers that a reader does not
/// know are reserved for later versions and decode to `None`.
#[derive(Debug, PartialEq, Eq)]
pub enum ExprNode {
    Column { name: String },
    Alias { expr: Box<ExprNode>, alias: String },
    Literal(LiteralNode),
    BinaryExpr { l: Box<ExprNode>, r: Box<ExprNode>, op: u32 },
    AggregateExpr { aggr_function: i32, expr: Box<ExprNode> },
}

/// The wire identifier of an operator.
pub open spec fn op_id(op: Operator) -> u32 {
    match op {
        Operator::Eq => 0,
        Operator::NotEq => 1,
        Operator::Lt => 2,
        Operator::LtEq => 3,
        Operator::Gt => 4,
        Operator::GtEq => 5,
        Operator::Plus => 6,
        Operator::Minus => 7,
        Operator::Multiply => 8,
        Operator::Divide => 9,
        Operator::Modulus => 10,
        Operator::And => 11,
        Operator::Or => 12,
        Operator::Like => 13,
        Operator::NotLike => 14,
    }
}

/// The number of operator identifiers in use; all others are reserved.
pub const OPERATOR_COUNT: u32 = 15;

/// The operator with a wire identifier, if any.
pub open spec fn op_of_id(id: u32) -> Option<Operator> {
    if id == 0 { Some(Operator::Eq) }
    else if id == 1 { Some(Operator::NotEq) }
    else if id == 2 { Some(Operator::Lt) }
    else if id == 3 { Some(Operator::LtEq) }
    else if id == 4 { Some(Operator::Gt) }
    else if id == 5 { Some(Operator::GtEq) }
    else if id == 6 { Some(Operator::Plus) }
    else if id == 7 { Some(Operator::Minus) }
    else if id == 8 { Some(Operator::Multiply) }
    else if id == 9 { Some(Operator::Divide) }
    else if id == 10 { Some(Operator::Modulus) }
    else if id == 11 { Some(Operator::And) }
    else if id == 12 { Some(Operator::Or) }
    else if id == 13 { Some(Operator::Like) }
    else if id == 14 { Some(Operator::NotLike) }
    else { None }
}

/// The wire identifier of an aggregate function.
pub open spec fn aggr_id(f: AggregateFunction) -> i32 {
    match f {
        AggregateFunction::Min => 0,
        AggregateFunction::Max => 1,
        AggregateFunction::Sum => 2,
        AggregateFunction::Avg => 3,
        AggregateFunction::Count => 4,
    }
}

/// The aggregate function with a wire identifier, if any.
pub open spec fn aggr_of_id(id: i32) -> Option<AggregateFunction> {
    if id == 0 { Some(AggregateFunction::Min) }
    else if id == 1 { Some(AggregateFunction::Max) }
    else if id == 2 { Some(AggregateFunction::Sum) }
    else if id == 3 { Some(AggregateFunction::Avg) }
    else if id == 4 { Some(AggregateFunction::Count) }
    else { None }
}

/// Returns the wire identifier of an operator.
pub fn operator_id(op: Operator) -> (r: u32)
    ensures
        r == op_id(op),
        r < OPERATOR_COUNT,
{
    match op {
        Operator::Eq => 0,
        Operator::NotEq => 1,
        Operator::Lt => 2,
        Operator::LtEq => 3,
        Operator::Gt => 4,
        Operator::GtEq => 5,
        Operator::Plus => 6,
        Operator::Minus => 7,
        Operator::Multiply => 8,
        Operator::Divide => 9,
        Operator::Modulus => 10,
        Operator::And => 11,
        Operator::Or => 12,
        Operator::Like => 13,
        Operator::NotLike => 14,
    }
}

/// Returns the operator with a wire identifier; `None` for a reserved identifier.
pub fn operator_from_id(id: u32) -> (r: Option<Operator>)
    ensures
        r == op_of_id(id),
        r is Some <==> id < OPERATOR_COUNT,
{
    if id == 0 { Some(Operator::Eq) }
    else if id == 1 { Some(Operator::NotEq) }
    else if id == 2 { Some(Operator::Lt) }
    else if id == 3 { Some(Operator::LtEq) }
    else if id == 4 { Some(Operator::Gt) }
    else if id == 5 { Some(Operator::GtEq) }
    else if id == 6 { Some(Operator::Plus) }
    else if id == 7 { Some(Operator::Minus) }
    else if id == 8 { Some(Operator::Multiply) }
    else if id == 9 { Some(Operator::Divide) }
    else if id == 10 { Some(Operator::Modulus) }
    else if id == 11 { Some(Operator::And) }
    else if id == 12 { Some(Operator::Or) }
    else if id == 13 { Some(Operator::Like) }
    else if id == 14 { Some(Operator::NotLike) }
    else { None }
}

/// Returns the wire identifier of an aggregate function.
pub fn aggregate_function_id(f: AggregateFunction) -> (r: i32)
    ensures
        r == aggr_id(f),
        0 <= r < 5,
{
    match f {
        AggregateFunction::Min => 0,
        AggregateFunction::Max => 1,
        AggregateFunction::Sum => 2,
        AggregateFunction::Avg => 3,
        AggregateFunction::Count => 4,
    }
}

/// Returns the aggregate function with a wire identifier; `None` for any other.
pub fn aggregate_function_from_id(id: i32) -> (r: Option<AggregateFunction>)
    ensures
        r == aggr_of_id(id),
        r is Some <==> 0 <= id < 5,
{
    if id == 0 { Some(AggregateFunction::Min) }
    else if id == 1 { Some(AggregateFunction::Max) }
    else if id == 2 { Some(AggregateFunction::Sum) }
    else if id == 3 { Some(AggregateFunction::Avg) }
    else if id == 4 { Some(AggregateFunction::Count) }
    else { None }
}

/// Operator identifiers are a bijection between the operators and the
/// identifiers below `OPERATOR_COUNT`.
pub proof fn lemma_operator_id_bijective(op: Operator, id: u32)
    ensures
        op_of_id(op_id(op)) == Some(op),
        op_of_id(id) is Some <==> id < OPERATOR_COUNT,
        op_of_id(id) matches Some(o) ==> op_id(o) == id,
{
}

/// The aggregate-function mapping is a bijection between exactly Min, Max, Sum,
/// Avg and Count and the identifiers 0 to 4; every other identifier fails.
pub proof fn lemma_aggregate_id_bijective(f: AggregateFunction, id: i32)
    ensures
        aggr_of_id(aggr_id(f)) == Some(f),
        aggr_of_id(id) is Some <==> 0 <= id < 5,
        aggr_of_id(id) matches Some(g) ==> aggr_id(g) == id,
{
}

/// The kind of an expression with no wire form, if it is one.
pub open spec fn unsupported_expr_kind(e: Expr) -> Option<ExprKind> {
    match e {
        Expr::ScalarVariable(_) => Some(ExprKind::ScalarVariable),
        Expr::Not(_) => Some(ExprKind::Not),
        Expr::IsNotNull(_) => Some(ExprKind::IsNotNull),
        Expr::IsNull(_) => Some(ExprKind::IsNull),
        Expr::Cast { .. } => Some(ExprKind::Cast),
        Expr::Sort { .. } => Some(ExprKind::Sort),
        Expr::Function { .. } => Some(ExprKind::Function),
        Expr::Wildcard => Some(ExprKind::Wildcard),
        Expr::Other { kind } => Some(kind),
        _ => None,
    }
}

/// The error that encoding `e` meets first, left to right and outside in;
/// `None` where `e` encodes.
pub open spec fn expr_error(e: Expr) -> Option<EncodeError>
    decreases e,
{
    match e {
        Expr::Column(_) => None,
        Expr::Alias(inner, _) => expr_error(*inner),
        Expr::Literal(v) => scalar_error(v),
        Expr::BinaryExpr { left, op, right } => match expr_error(*left) {
            Some(x) => Some(x),
            None => expr_error(*right),
        },
        Expr::AggregateFunction { fun, args, distinct } => if args@.len() != 1 {
            Some(EncodeError::AggregateArity(args@.len() as usize))
        } else {
            expr_error(args@[0])
        },
        _ => Some(EncodeError::UnsupportedExpr(unsupported_expr_kind(e)->0)),
    }
}

/// `n` is the wire form of `e`: the same tree, with each column name, alias,
/// literal, operator and aggregate function carried over, and an aggregate
/// call's one argument encoded in place. An aggregate's `distinct` flag has no
/// wire field and is not carried.
pub open spec fn expr_encodes_to(e: Expr, n: ExprNode) -> bool
    decreases e,
{
    match e {
        Expr::Column(name) => n == ExprNode::Column { name },
        Expr::Alias(inner, alias) => match n {
            ExprNode::Alias { expr, alias: a } => a == alias && expr_encodes_to(*inner, *expr),
            _ => false,
        },
        Expr::Literal(v) => literal_of(v) matches Some(lit) && n == ExprNode::Literal(lit),
        Expr::BinaryExpr { left, op, right } => match n {
            ExprNode::BinaryExpr { l, r, op: id } => {
                &&& id == op_id(op)
                &&& expr_encodes_to(*left, *l)
                &&& expr_encodes_to(*right, *r)
            },
            _ => false,
        },
        Expr::AggregateFunction { fun, args, distinct } => match n {
            ExprNode::AggregateExpr { aggr_function, expr } => {
                &&& args@.len() == 1
                &&& aggr_function == aggr_id(fun)
                &&& expr_encodes_to(args@[0], *expr)
            },
            _ => false,
        },
        _ => false,
    }
}

/// Encodes an expression tree. Fails with the first error met, left to right
/// and outside in; nothing is returned of a tree that fails.
///
/// Recursion goes as deep as the tree; callers that accept trees from
/// untrusted sources should bound their depth.
pub fn expr_to_proto(e: &Expr) -> (r: Result<ExprNode, EncodeError>)
    ensures
        match expr_error(*e) {
            None => r matches Ok(n) && expr_encodes_to(*e, n),
            Some(x) => r == Err::<ExprNode, EncodeError>(x),
        },
    decreases e,
{
    match e {
        Expr::Column(name) => Ok(ExprNode::Column { name: name.clone() }),
        Expr::Alias(inner, alias) => {
            let expr = expr_to_proto(inner)?;
            Ok(ExprNode::Alias { expr: Box::new(expr), alias: alias.clone() })
        },
        Expr::Literal(v) => {
            let lit = literal_to_proto(v)?;
            Ok(ExprNode::Literal(lit))
        },
        Expr::BinaryExpr { left, op, right } => {
            let l = expr_to_proto(left)?;
            let r = expr_to_proto(right)?;
            Ok(ExprNode::BinaryExpr { l: Box::new(l), r: Box::new(r), op: operator_id(*op) })
        },
        Expr::AggregateFunction { fun, args, distinct } => {
            if args.len() != 1 {
                return Err(EncodeError::AggregateArity(args.len()));
            }
            let aggr_function = aggregate_function_id(*fun);
            let expr = expr_to_proto(&args[0])?;
            Ok(ExprNode::AggregateExpr { aggr_function, expr: Box::new(expr) })
        },
        Expr::ScalarVariable(_) => Err(EncodeError::UnsupportedExpr(ExprKind::ScalarVariable)),
        Expr::Not(_) => Err(EncodeError::UnsupportedExpr(ExprKind::Not)),
        Expr::IsNotNull(_) => Err(EncodeError::UnsupportedExpr(ExprKind::IsNotNull)),
        Expr::IsNull(_) => Err(EncodeError::UnsupportedExpr(ExprKind::IsNull)),
        Expr::Cast { .. } => Err(EncodeError::UnsupportedExpr(ExprKind::Cast)),
        Expr::Sort { .. } => Err(EncodeError::UnsupportedExpr(ExprKind::Sort)),
        Expr::Function { .. } => Err(EncodeError::UnsupportedExpr(ExprKind::Function)),
        Expr::Wildcard => Err(EncodeError::UnsupportedExpr(ExprKind::Wildcard)),
        Expr::Other { kind } => Err(EncodeError::UnsupportedExpr(*kind)),
    }
}

/// An expression of a kind with no wire form fails with an error naming that kind.
pub proof fn lemma_unsupported_expr_fails(e: Expr)
    requires
        unsupported_expr_kind(e) is Some,
    ensures
        expr_error(e) == Some(EncodeError::UnsupportedExpr(unsupported_expr_kind(e)->0)),
{
}

} // verus!
