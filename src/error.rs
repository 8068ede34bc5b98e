//! The error taxonomy of the encoder.

use vstd::prelude::*;

use crate::schema::{data_type_name, DataType};

verus! {

/// A plan node kind that has no wire form.
#[derive(Debug, Clone, Copy, PartialEq, Eq, Structural)]
pub enum PlanKind {
    Sort,
    Join,
    Repartition,
    Union,
    EmptyRelation,
    Limit,
    CreateExternalTable,
    Explain,
    Extension,
}

/// An expression kind that has no wire form.
#[derive(Debug, Clone, Copy, PartialEq, Eq, Structural)]
pub enum ExprKind {
    ScalarVariable,
    Not,
    IsNotNull,
    IsNull,
    Negative,
    Between,
    Case,
    Cast,
    TryCast,
    Sort,
    Function,
    InList,
    Wildcard,
}

/// Why a plan, expression, schema or literal could not be encoded.
#[derive(Debug, Clone, PartialEq, Eq)]
pub enum EncodeError {
    /// A plan node of a kind that the wire model does not have.
    UnsupportedPlan(PlanKind),
    /// An expression of a kind that the wire model does not have.
    UnsupportedExpr(ExprKind),
    /// A literal whose type has no wire literal; carries that type.
    UnsupportedScalar(DataType),
    /// A scan over a table source of an unknown storage format; carries its name.
    UnsupportedTableSource(String),
    /// A column type with no wire type tag.
    UnsupportedType(DataType),
    /// A NULL literal of the given type: the wire literal always carries a value.
    NullLiteral(DataType),
    /// An aggregate call with the given number of arguments, other than one.
    AggregateArity(usize),
    /// A scan projection index that names no column of the source's schema.
    ProjectionIndex(usize),
}

/// The name of a plan node kind.
pub open spec fn plan_kind_name(k: PlanKind) -> Seq<char> {
    match k {
        PlanKind::Sort => "Sort"@,
        PlanKind::Join => "Join"@,
        PlanKind::Repartition => "Repartition"@,
        PlanKind::Union => "Union"@,
        PlanKind::EmptyRelation => "EmptyRelation"@,
        PlanKind::Limit => "Limit"@,
        PlanKind::CreateExternalTable => "CreateExternalTable"@,
        PlanKind::Explain => "Explain"@,
        PlanKind::Extension => "Extension"@,
    }
}

impl PlanKind {
    /// The name of a plan node kind.
    pub fn name(&self) -> (r: &'static str)
        ensures
            r@ == plan_kind_name(*self),
    {
        match self {
            PlanKind::Sort => "Sort",
            PlanKind::Join => "Join",
            PlanKind::Repartition => "Repartition",
            PlanKind::Union => "Union",
            PlanKind::EmptyRelation => "EmptyRelation",
            PlanKind::Limit => "Limit",
            PlanKind::CreateExternalTable => "CreateExternalTable",
            PlanKind::Explain => "Explain",
            PlanKind::Extension => "Extension",
        }
    }
}

/// The name of an expression kind.
pub open spec fn expr_kind_name(k: ExprKind) -> Seq<char> {
    match k {
        ExprKind::ScalarVariable => "ScalarVariable"@,
        ExprKind::Not => "Not"@,
        ExprKind::IsNotNull => "IsNotNull"@,
        ExprKind::IsNull => "IsNull"@,
        ExprKind::Negative => "Negative"@,
        ExprKind::Between => "Between"@,
        ExprKind::Case => "Case"@,
        ExprKind::Cast => "Cast"@,
        ExprKind::TryCast => "TryCast"@,
        ExprKind::Sort => "Sort"@,
        ExprKind::Function => "Function"@,
        ExprKind::InList => "InList"@,
        ExprKind::Wildcard => "Wildcard"@,
    }
}

impl ExprKind {
    /// The name of an expression kind.
    pub fn name(&self) -> (r: &'static str)
        ensures
            r@ == expr_kind_name(*self),
    {
        match self {
            ExprKind::ScalarVariable => "ScalarVariable",
            ExprKind::Not => "Not",
            ExprKind::IsNotNull => "IsNotNull",
            ExprKind::IsNull => "IsNull",
            ExprKind::Negative => "Negative",
            ExprKind::Between => "Between",
            ExprKind::Case => "Case",
            ExprKind::Cast => "Cast",
            ExprKind::TryCast => "TryCast",
            ExprKind::Sort => "Sort",
            ExprKind::Function => "Function",
            ExprKind::InList => "InList",
            ExprKind::Wildcard => "Wildcard",
        }
    }
}

/// The text of an error.
pub open spec fn error_text(e: EncodeError) -> Seq<char> {
    match e {
        EncodeError::UnsupportedPlan(k) => "unsupported plan node: "@ + plan_kind_name(k),
        EncodeError::UnsupportedExpr(k) => "unsupported expression: "@ + expr_kind_name(k),
        EncodeError::UnsupportedScalar(t) => "unsupported literal type: "@ + data_type_name(t),
        EncodeError::UnsupportedTableSource(s) => "unsupported table source: "@ + s@,
        EncodeError::UnsupportedType(t) => "unsupported column type: "@ + data_type_name(t),
        EncodeError::NullLiteral(t) => "cannot encode NULL literal of type "@ + data_type_name(t)
            + " without null-representation support"@,
        EncodeError::AggregateArity(_) => "aggregate call must have exactly one argument"@,
        EncodeError::ProjectionIndex(_) => "scan projection index names no column of the source schema"@,
    }
}

impl EncodeError {
    /// A human-readable description of the error, naming the construct that
    /// could not be encoded.
    pub fn message(&self) -> (r: String)
        ensures
            r@ == error_text(*self),
    {
        match self {
            EncodeError::UnsupportedPlan(k) => {
                let mut r = String::from_str("unsupported plan node: ");
                r.append(k.name());
                r
            },
            EncodeError::UnsupportedExpr(k) => {
                let mut r = String::from_str("unsupported expression: ");
                r.append(k.name());
                r
            },
            EncodeError::UnsupportedScalar(t) => {
                let mut r = String::from_str("unsupported literal type: ");
                r.append(t.name());
                r
            },
            EncodeError::UnsupportedTableSource(s) => {
                let mut r = String::from_str("unsupported table source: ");
                r.append(s.as_str());
                r
            },
            EncodeError::UnsupportedType(t) => {
                let mut r = String::from_str("unsupported column type: ");
                r.append(t.name());
                r
            },
            EncodeError::NullLiteral(t) => {
                let mut r = String::from_str("cannot encode NULL literal of type ");
                r.append(t.name());
                r.append(" without null-representation support");
                r
            },
            EncodeError::AggregateArity(_) => String::from_str("aggregate call must have exactly one argument"),
            EncodeError::ProjectionIndex(_) => String::from_str(
                "scan projection index names no column of the source schema",
            ),
        }
    }
}

} // verus!
