//! Encoding of relational query plans, expressions, schemas and literals into a
//! language-neutral wire model.
//!
//! The in-memory model (`LogicalPlan`, `Expr`, `ScalarValue`, `Schema`) is what a
//! planner hands over; the wire model (`PlanNode`, `ExprNode`, `LiteralNode`,
//! `WireSchema`) is what travels between processes. Every wire message with
//! alternatives is a Rust enum, so a message with two payloads set cannot exist.
//!
//! Encoding is total and fails closed: every input gives either the whole wire
//! tree or one `EncodeError`, and the contracts say which.


pub mod error;
pub mod expr;
pub mod literal;
pub mod plan;
pub mod schema;

pub use error::{EncodeError, ExprKind, PlanKind};
pub use expr::{expr_to_proto, AggregateFunction, Expr, ExprNode, Operator};
pub use literal::{
    literal_from_flat, literal_from_proto, literal_to_flat, literal_to_proto, FlatLiteral, IntWidth, LiteralNode, ScalarValue,
};
pub use plan::{
    plan_from_flat, plan_to_flat, plan_to_proto, FileFormat, FlatAggregate, FlatPlanNode, LogicalPlan, PlanNode, ScanNode,
    TableSource,
};
pub use schema::{schema_to_proto, to_proto_arrow_type, ArrowType, DataType, Field, Schema, WireField, WireSchema};
