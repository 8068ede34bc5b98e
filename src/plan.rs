//! Relational plan trees and their wire form.

use vstd::prelude::*;

use crate::error::{EncodeError, PlanKind};
use crate::expr::{expr_encodes_to, expr_error, expr_to_proto, Expr, ExprNode};
use crate::schema::{fields_error, schema_encodes_to, schema_to_proto, Field, Schema, WireSchema};

verus! {

/// Where a scan reads its rows from: one of the known storage formats, or a
/// source of another kind, known by name only.
#[derive(Debug, PartialEq, Eq)]
pub enum TableSource {
    /// A columnar file.
    Parquet { path: String, schema: Schema },
    /// A delimited-text file, whose first row may be a header.
    Csv { path: String, has_header: bool, schema: Schema },
    /// A source of a kind with no wire form.
    Other { name: String, schema: Schema },
}

/// A relational plan node; each node but a leaf owns its one input.
#[derive(Debug, PartialEq, Eq)]
pub enum LogicalPlan {
    TableScan {
        table_name: String,
        source: TableSource,
        /// Indices into the source's schema of the columns read; `None` reads all.
        projection: Option<Vec<usize>>,
        projected_schema: Schema,
    },
    Projection { expr: Vec<Expr>, input: Box<LogicalPlan>, schema: Schema },
    Filter { predicate: Expr, input: Box<LogicalPlan> },
    Aggregate { input: Box<LogicalPlan>, group_expr: Vec<Expr>, aggr_expr: Vec<Expr>, schema: Schema },
    Sort { expr: Vec<Expr>, input: Box<LogicalPlan> },
    Limit { n: usize, input: Box<LogicalPlan> },
    EmptyRelation { schema: Schema },
    /// A node of another kind with no wire form (a join, a union, ...), known
    /// by its kind only.
    Other { kind: PlanKind },
}

/// The storage format of a scanned file on the wire.
#[derive(Debug, Clone, Copy, PartialEq, Eq, Structural)]
pub enum FileFormat {
    Parquet,
    Csv,
}

/// The wire form of a scan.
#[derive(Debug, PartialEq, Eq)]
pub struct ScanNode {
    pub path: String,
    /// Names of the columns read, in order; `None` reads all columns.
    pub projection: Option<Vec<String>>,
    pub schema: WireSchema,
    /// Always false for formats without header rows.
    pub has_header: bool,
    pub file_format: FileFormat,
}

/// The wire form of a plan node. Each variant but `Scan` holds the wire form
/// of its input, so a node carries exactly one payload.
#[derive(Debug, PartialEq, Eq)]
pub enum PlanNode {
    Scan(ScanNode),
    Projection { input: Box<PlanNode>, expr: Vec<ExprNode> },
    Selection { input: Box<PlanNode>, expr: ExprNode },
    Aggregate { input: Box<PlanNode>, group_expr: Vec<ExprNode>, aggr_expr: Vec<ExprNode> },
}

impl FileFormat {
    /// The format's name on the wire.
    pub fn name(&self) -> (r: &'static str)
        ensures
            *self == FileFormat::Parquet ==> r@ == "parquet"@,
            *self == FileFormat::Csv ==> r@ == "csv"@,
    {
        match self {
            FileFormat::Parquet => "parquet",
            FileFormat::Csv => "csv",
        }
    }
}

/// The schema of a table source.
pub open spec fn source_schema(s: TableSource) -> Schema {
    match s {
        TableSource::Parquet { schema, .. } => schema,
        TableSource::Csv { schema, .. } => schema,
        TableSource::Other { schema, .. } => schema,
    }
}

/// The error of the first projection index, in order, that names no column.
pub open spec fn projection_error(fields: Seq<Field>, idx: Seq<usize>) -> Option<EncodeError>
    decreases idx.len(),
{
    if idx.len() == 0 {
        None
    } else {
        match projection_error(fields, idx.drop_last()) {
            Some(e) => Some(e),
            None => if idx.last() < fields.len() {
                None
            } else {
                Some(EncodeError::ProjectionIndex(idx.last()))
            },
        }
    }
}

/// `names` are the names of the columns at `idx`, in the order of `idx`.
pub open spec fn names_at(fields: Seq<Field>, idx: Seq<usize>, names: Seq<String>) -> bool {
    &&& names.len() == idx.len()
    &&& forall|i: int|
        0 <= i < idx.len() ==> idx[i] < fields.len() && #[trigger] names[i] == fields[idx[i] as int].name
}

/// The error that encoding a scan meets first: a bad projection index, then a
/// column type with no tag, then a source of an unknown kind.
pub open spec fn scan_error(source: TableSource, projection: Option<Vec<usize>>) -> Option<EncodeError> {
    let fields = source_schema(source).fields@;
    let pe = match projection {
        Some(idx) => projection_error(fields, idx@),
        None => None,
    };
    if pe is Some {
        pe
    } else if fields_error(fields) is Some {
        fields_error(fields)
    } else {
        match source {
            TableSource::Other { name, .. } => Some(EncodeError::UnsupportedTableSource(name)),
            _ => None,
        }
    }
}

/// `n` is the wire form of a scan of `source` with `projection`.
pub open spec fn scan_encodes_to(source: TableSource, projection: Option<Vec<usize>>, n: ScanNode) -> bool {
    &&& schema_encodes_to(source_schema(source), n.schema)
    &&& match projection {
        None => n.projection is None,
        Some(idx) => n.projection matches Some(names) && names_at(source_schema(source).fields@, idx@, names@),
    }
    &&& match source {
        TableSource::Parquet { path, .. } => {
            &&& n.path == path
            &&& !n.has_header
            &&& n.file_format == FileFormat::Parquet
        },
        TableSource::Csv { path, has_header, .. } => {
            &&& n.path == path
            &&& n.has_header == has_header
            &&& n.file_format == FileFormat::Csv
        },
        TableSource::Other { .. } => false,
    }
}

/// The error of the first expression, in order, that does not encode.
pub open spec fn exprs_error(es: Seq<Expr>) -> Option<EncodeError>
    decreases es.len(),
{
    if es.len() == 0 {
        None
    } else {
        match exprs_error(es.drop_last()) {
            Some(e) => Some(e),
            None => expr_error(es.last()),
        }
    }
}

/// `ns` are the wire forms of `es`, one for one and in order.
pub open spec fn exprs_encode_to(es: Seq<Expr>, ns: Seq<ExprNode>) -> bool {
    &&& ns.len() == es.len()
    &&& forall|i: int| 0 <= i < es.len() ==> #[trigger] expr_encodes_to(es[i], ns[i])
}

/// An error in a prefix of the indices is the error of all of them.
proof fn lemma_projection_error_prefix(fields: Seq<Field>, idx: Seq<usize>, n: int)
    requires
        0 <= n <= idx.len(),
        projection_error(fields, idx.take(n)) is Some,
    ensures
        projection_error(fields, idx) == projection_error(fields, idx.take(n)),
    decreases idx.len() - n,
{
    if n < idx.len() {
        assert(idx.take(n + 1).drop_last() == idx.take(n));
        lemma_projection_error_prefix(fields, idx, n + 1);
    } else {
        assert(idx.take(n) == idx);
    }
}

/// An error in a prefix of the expressions is the error of all of them.
proof fn lemma_exprs_error_prefix(es: Seq<Expr>, n: int)
    requires
        0 <= n <= es.len(),
        exprs_error(es.take(n)) is Some,
    ensures
        exprs_error(es) == exprs_error(es.take(n)),
    decreases es.len() - n,
{
    if n < es.len() {
        assert(es.take(n + 1).drop_last() == es.take(n));
        lemma_exprs_error_prefix(es, n + 1);
    } else {
        assert(es.take(n) == es);
    }
}

/// Translates a projection by column index into a projection by column name,
/// through `schema`. Fails on the first index that names no column.
pub fn projection_names(schema: &Schema, indices: &Vec<usize>) -> (r: Result<Vec<String>, EncodeError>)
    ensures
        match projection_error(schema.fields@, indices@) {
            None => r matches Ok(names) && names_at(schema.fields@, indices@, names@),
            Some(e) => r == Err::<Vec<String>, EncodeError>(e),
        },
{
    let mut names: Vec<String> = Vec::new();
    let mut i: usize = 0;
    while i < indices.len()
        invariant
            i <= indices@.len(),
            projection_error(schema.fields@, indices@.take(i as int)) is None,
            names@.len() == i,
            forall|j: int| 0 <= j < i ==> #[trigger] indices@[j] < schema.fields@.len(),
            forall|j: int|
                0 <= j < i ==> #[trigger] names@[j] == schema.fields@[indices@[j] as int].name,
        decreases indices@.len() - i,
    {
        assert(indices@.take(i + 1).drop_last() == indices@.take(i as int));
        let k = indices[i];
        if k >= schema.fields.len() {
            proof { lemma_projection_error_prefix(schema.fields@, indices@, i as int + 1); }
            return Err(EncodeError::ProjectionIndex(k));
        }
        let name = schema.fields[k].name.clone();
        names.push(name);
        i = i + 1;
    }
    assert(indices@.take(i as int) == indices@);
    Ok(names)
}

/// Encodes a list of expressions one for one, in order. Fails with the error
/// of the first expression that does not encode.
pub fn exprs_to_proto(es: &Vec<Expr>) -> (r: Result<Vec<ExprNode>, EncodeError>)
    ensures
        match exprs_error(es@) {
            None => r matches Ok(ns) && exprs_encode_to(es@, ns@),
            Some(e) => r == Err::<Vec<ExprNode>, EncodeError>(e),
        },
{
    let mut ns: Vec<ExprNode> = Vec::new();
    let mut i: usize = 0;
    while i < es.len()
        invariant
            i <= es@.len(),
            exprs_error(es@.take(i as int)) is None,
            ns@.len() == i,
            forall|j: int| 0 <= j < i ==> #[trigger] expr_encodes_to(es@[j], ns@[j]),
        decreases es@.len() - i,
    {
        assert(es@.take(i + 1).drop_last() == es@.take(i as int));
        match expr_to_proto(&es[i]) {
            Ok(n) => {
                ns.push(n);
            },
            Err(e) => {
                proof { lemma_exprs_error_prefix(es@, i as int + 1); }
                return Err(e);
            },
        }
        i = i + 1;
    }
    assert(es@.take(i as int) == es@);
    Ok(ns)
}

/// Encodes a scan: the source's path, the projection as column names, the
/// source's schema, the header flag and the storage format. Fails on a bad
/// projection index, then on a column type with no tag, then on a source of an
/// unknown kind.
pub fn scan_to_proto(source: &TableSource, projection: &Option<Vec<usize>>) -> (r: Result<ScanNode, EncodeError>)
    ensures
        match scan_error(*source, *projection) {
            None => r matches Ok(n) && scan_encodes_to(*source, *projection, n),
            Some(e) => r == Err::<ScanNode, EncodeError>(e),
        },
{
    let schema = match source {
        TableSource::Parquet { schema, .. } => schema,
        TableSource::Csv { schema, .. } => schema,
        TableSource::Other { schema, .. } => schema,
    };
    let names = match projection {
        Some(idx) => Some(projection_names(schema, idx)?),
        None => None,
    };
    let wire_schema = schema_to_proto(schema)?;
    match source {
        TableSource::Parquet { path, .. } => Ok(ScanNode {
            path: path.clone(),
            projection: names,
            schema: wire_schema,
            has_header: false,
            file_format: FileFormat::Parquet,
        }),
        TableSource::Csv { path, has_header, .. } => Ok(ScanNode {
            path: path.clone(),
            projection: names,
            schema: wire_schema,
            has_header: *has_header,
            file_format: FileFormat::Csv,
        }),
        TableSource::Other { name, .. } => Err(EncodeError::UnsupportedTableSource(name.clone())),
    }
}

/// The kind of a plan node with no wire form, if it is one.
pub open spec fn unsupported_plan_kind(p: LogicalPlan) -> Option<PlanKind> {
    match p {
        LogicalPlan::Sort { .. } => Some(PlanKind::Sort),
        LogicalPlan::Limit { .. } => Some(PlanKind::Limit),
        LogicalPlan::EmptyRelation { .. } => Some(PlanKind::EmptyRelation),
        LogicalPlan::Other { kind } => Some(kind),
        _ => None,
    }
}

/// The error that encoding `p` meets first: a node's input before the node's
/// own expressions, and those in order; `None` where `p` encodes.
pub open spec fn plan_error(p: LogicalPlan) -> Option<EncodeError>
    decreases p,
{
    match p {
        LogicalPlan::TableScan { source, projection, .. } => scan_error(source, projection),
        LogicalPlan::Projection { expr, input, .. } => match plan_error(*input) {
            Some(e) => Some(e),
            None => exprs_error(expr@),
        },
        LogicalPlan::Filter { predicate, input } => match plan_error(*input) {
            Some(e) => Some(e),
            None => expr_error(predicate),
        },
        LogicalPlan::Aggregate { input, group_expr, aggr_expr, .. } => match plan_error(*input) {
            Some(e) => Some(e),
            None => match exprs_error(group_expr@) {
                Some(e) => Some(e),
                None => exprs_error(aggr_expr@),
            },
        },
        _ => Some(EncodeError::UnsupportedPlan(unsupported_plan_kind(p)->0)),
    }
}

/// `n` is the wire form of `p`: the same chain of nodes, each carrying the wire
/// forms of its node's expressions, in order.
pub open spec fn plan_encodes_to(p: LogicalPlan, n: PlanNode) -> bool
    decreases p,
{
    match p {
        LogicalPlan::TableScan { source, projection, .. } => match n {
            PlanNode::Scan(scan) => scan_encodes_to(source, projection, scan),
            _ => false,
        },
        LogicalPlan::Projection { expr, input, .. } => match n {
            PlanNode::Projection { input: i, expr: ns } => {
                &&& plan_encodes_to(*input, *i)
                &&& exprs_encode_to(expr@, ns@)
            },
            _ => false,
        },
        LogicalPlan::Filter { predicate, input } => match n {
            PlanNode::Selection { input: i, expr } => {
                &&& plan_encodes_to(*input, *i)
                &&& expr_encodes_to(predicate, expr)
            },
            _ => false,
        },
        LogicalPlan::Aggregate { input, group_expr, aggr_expr, .. } => match n {
            PlanNode::Aggregate { input: i, group_expr: gs, aggr_expr: as_ } => {
                &&& plan_encodes_to(*input, *i)
                &&& exprs_encode_to(group_expr@, gs@)
                &&& exprs_encode_to(aggr_expr@, as_@)
            },
            _ => false,
        },
        _ => false,
    }
}

/// Encodes a plan tree. Fails with the first error met, inputs first; nothing
/// is returned of a tree that fails.
///
/// Recursion goes as deep as the tree; callers that accept trees from
/// untrusted sources should bound their depth.
pub fn plan_to_proto(p: &LogicalPlan) -> (r: Result<PlanNode, EncodeError>)
    ensures
        match plan_error(*p) {
            None => r matches Ok(n) && plan_encodes_to(*p, n),
            Some(e) => r == Err::<PlanNode, EncodeError>(e),
        },
    decreases p,
{
    match p {
        LogicalPlan::TableScan { source, projection, .. } => {
            let scan = scan_to_proto(source, projection)?;
            Ok(PlanNode::Scan(scan))
        },
        LogicalPlan::Projection { expr, input, .. } => {
            let input = plan_to_proto(input)?;
            let expr = exprs_to_proto(expr)?;
            Ok(PlanNode::Projection { input: Box::new(input), expr })
        },
        LogicalPlan::Filter { predicate, input } => {
            let input = plan_to_proto(input)?;
            let expr = expr_to_proto(predicate)?;
            Ok(PlanNode::Selection { input: Box::new(input), expr })
        },
        LogicalPlan::Aggregate { input, group_expr, aggr_expr, .. } => {
            let input = plan_to_proto(input)?;
            let group_expr = exprs_to_proto(group_expr)?;
            let aggr_expr = exprs_to_proto(aggr_expr)?;
            Ok(PlanNode::Aggregate { input: Box::new(input), group_expr, aggr_expr })
        },
        LogicalPlan::Sort { .. } => Err(EncodeError::UnsupportedPlan(PlanKind::Sort)),
        LogicalPlan::Limit { .. } => Err(EncodeError::UnsupportedPlan(PlanKind::Limit)),
        LogicalPlan::EmptyRelation { .. } => Err(EncodeError::UnsupportedPlan(PlanKind::EmptyRelation)),
        LogicalPlan::Other { kind } => Err(EncodeError::UnsupportedPlan(*kind)),
    }
}

/// The input of a plan node, if it has one.
pub open spec fn plan_input(p: LogicalPlan) -> Option<LogicalPlan> {
    match p {
        LogicalPlan::Projection { input, .. } => Some(*input),
        LogicalPlan::Filter { input, .. } => Some(*input),
        LogicalPlan::Aggregate { input, .. } => Some(*input),
        LogicalPlan::Sort { input, .. } => Some(*input),
        LogicalPlan::Limit { input, .. } => Some(*input),
        _ => None,
    }
}

/// The input of a wire plan node, if it has one.
pub open spec fn node_input(n: PlanNode) -> Option<PlanNode> {
    match n {
        PlanNode::Scan(_) => None,
        PlanNode::Projection { input, .. } => Some(*input),
        PlanNode::Selection { input, .. } => Some(*input),
        PlanNode::Aggregate { input, .. } => Some(*input),
    }
}

/// The number of nodes in a plan tree.
pub open spec fn plan_size(p: LogicalPlan) -> nat
    decreases p,
{
    match p {
        LogicalPlan::Projection { input, .. } => 1 + plan_size(*input),
        LogicalPlan::Filter { input, .. } => 1 + plan_size(*input),
        LogicalPlan::Aggregate { input, .. } => 1 + plan_size(*input),
        LogicalPlan::Sort { input, .. } => 1 + plan_size(*input),
        LogicalPlan::Limit { input, .. } => 1 + plan_size(*input),
        _ => 1,
    }
}

/// The number of nodes in a wire plan tree.
pub open spec fn node_size(n: PlanNode) -> nat
    decreases n,
{
    match n {
        PlanNode::Scan(_) => 1,
        PlanNode::Projection { input, .. } => 1 + node_size(*input),
        PlanNode::Selection { input, .. } => 1 + node_size(*input),
        PlanNode::Aggregate { input, .. } => 1 + node_size(*input),
    }
}

/// The wire tree has the shape of the plan tree it encodes: as many nodes, a
/// node has an input exactly where the plan node has one, and that input is
/// the wire form of the plan node's input.
pub proof fn lemma_plan_shape(p: LogicalPlan, n: PlanNode)
    requires
        plan_encodes_to(p, n),
    ensures
        plan_size(p) == node_size(n),
        plan_input(p) is Some <==> node_input(n) is Some,
        plan_input(p) is Some ==> plan_encodes_to(plan_input(p)->0, node_input(n)->0),
    decreases p,
{
    match p {
        LogicalPlan::Projection { input, .. } => {
            lemma_plan_shape(*input, node_input(n)->0);
        },
        LogicalPlan::Filter { input, .. } => {
            lemma_plan_shape(*input, node_input(n)->0);
        },
        LogicalPlan::Aggregate { input, .. } => {
            lemma_plan_shape(*input, node_input(n)->0);
        },
        _ => {},
    }
}

/// A projection encodes to a projection whose expressions are the wire forms
/// of the projected expressions, in the same order.
pub proof fn lemma_projection_order(expr: Vec<Expr>, input: Box<LogicalPlan>, schema: Schema, n: PlanNode)
    requires
        plan_encodes_to(LogicalPlan::Projection { expr, input, schema }, n),
    ensures
        n matches PlanNode::Projection { expr: ns, .. } && ns@.len() == expr@.len() && forall|i: int|
            0 <= i < expr@.len() ==> #[trigger] expr_encodes_to(expr@[i], ns@[i]),
{
}

/// An aggregate encodes its grouping expressions and its aggregate expressions
/// as two separate lists, each one for one and in its own order.
pub proof fn lemma_aggregate_lists(
    input: Box<LogicalPlan>,
    group_expr: Vec<Expr>,
    aggr_expr: Vec<Expr>,
    schema: Schema,
    n: PlanNode,
)
    requires
        plan_encodes_to(LogicalPlan::Aggregate { input, group_expr, aggr_expr, schema }, n),
    ensures
        n matches PlanNode::Aggregate { group_expr: gs, aggr_expr: as_, .. } && gs@.len() == group_expr@.len()
            && as_@.len() == aggr_expr@.len() && (forall|i: int|
            0 <= i < group_expr@.len() ==> #[trigger] expr_encodes_to(group_expr@[i], gs@[i])) && (forall|i: int|
            0 <= i < aggr_expr@.len() ==> #[trigger] expr_encodes_to(aggr_expr@[i], as_@[i])),
{
}

/// A plan node of a kind with no wire form fails with an error naming that
/// kind, whatever its input.
pub proof fn lemma_unsupported_plan_fails(p: LogicalPlan)
    requires
        unsupported_plan_kind(p) is Some,
    ensures
        plan_error(p) == Some(EncodeError::UnsupportedPlan(unsupported_plan_kind(p)->0)),
{
}

/// The two expression lists of an aggregate in the flat plan layout.
#[derive(Debug, PartialEq, Eq)]
pub struct FlatAggregate {
    pub group_expr: Vec<ExprNode>,
    pub aggr_expr: Vec<ExprNode>,
}

/// The flat layout of a plan node in the wire message: an optional input and
/// one optional field per payload. A well-formed message sets exactly one
/// payload, and an input exactly where that payload is not a scan.
#[derive(Debug, PartialEq, Eq)]
pub struct FlatPlanNode {
    pub input: Option<Box<FlatPlanNode>>,
    pub scan: Option<ScanNode>,
    pub projection: Option<Vec<ExprNode>>,
    pub selection: Option<ExprNode>,
    pub aggregate: Option<FlatAggregate>,
}

/// How many payload fields a flat plan node sets.
pub open spec fn payload_count(f: FlatPlanNode) -> nat {
    (if f.scan is Some { 1nat } else { 0nat }) + (if f.projection is Some { 1nat } else { 0nat }) + (
    if f.selection is Some { 1nat } else { 0nat }) + (if f.aggregate is Some { 1nat } else { 0nat })
}

/// The plan node that a flat plan node holds; `None` where some node in it
/// sets no payload or more than one, or has an input where it must not or
/// lacks one where it must.
pub open spec fn plan_of_flat(f: FlatPlanNode) -> Option<PlanNode>
    decreases f,
{
    if payload_count(f) != 1 {
        None
    } else if f.scan is Some {
        if f.input is None {
            Some(PlanNode::Scan(f.scan->0))
        } else {
            None
        }
    } else {
        match f.input {
            None => None,
            Some(i) => match plan_of_flat(*i) {
                None => None,
                Some(input) => if f.projection is Some {
                    Some(PlanNode::Projection { input: Box::new(input), expr: f.projection->0 })
                } else if f.selection is Some {
                    Some(PlanNode::Selection { input: Box::new(input), expr: f.selection->0 })
                } else {
                    Some(
                        PlanNode::Aggregate {
                            input: Box::new(input),
                            group_expr: f.aggregate->0.group_expr,
                            aggr_expr: f.aggregate->0.aggr_expr,
                        },
                    )
                },
            },
        }
    }
}

/// Lays a plan node out flat, its input recursively.
pub fn plan_to_flat(n: PlanNode) -> (r: FlatPlanNode)
    ensures
        plan_of_flat(r) == Some(n),
    decreases n,
{
    match n {
        PlanNode::Scan(scan) => FlatPlanNode {
            input: None,
            scan: Some(scan),
            projection: None,
            selection: None,
            aggregate: None,
        },
        PlanNode::Projection { input, expr } => FlatPlanNode {
            input: Some(Box::new(plan_to_flat(*input))),
            scan: None,
            projection: Some(expr),
            selection: None,
            aggregate: None,
        },
        PlanNode::Selection { input, expr } => FlatPlanNode {
            input: Some(Box::new(plan_to_flat(*input))),
            scan: None,
            projection: None,
            selection: Some(expr),
            aggregate: None,
        },
        PlanNode::Aggregate { input, group_expr, aggr_expr } => FlatPlanNode {
            input: Some(Box::new(plan_to_flat(*input))),
            scan: None,
            projection: None,
            selection: None,
            aggregate: Some(FlatAggregate { group_expr, aggr_expr }),
        },
    }
}

/// Reads a plan node from its flat layout; `None` where any node in it is
/// malformed (no payload, two payloads, or a wrong input).
pub fn plan_from_flat(f: FlatPlanNode) -> (r: Option<PlanNode>)
    ensures
        r == plan_of_flat(f),
    decreases f,
{
    let FlatPlanNode { input, scan, projection, selection, aggregate } = f;
    let count: u32 = present(scan.is_some()) + present(projection.is_some()) + present(selection.is_some())
        + present(aggregate.is_some());
    if count != 1 {
        return None;
    }
    match scan {
        Some(scan) => {
            if input.is_none() {
                Some(PlanNode::Scan(scan))
            } else {
                None
            }
        },
        None => {
            let input = match input {
                None => {
                    return None;
                },
                Some(i) => match plan_from_flat(*i) {
                    None => {
                        return None;
                    },
                    Some(n) => n,
                },
            };
            match projection {
                Some(expr) => Some(PlanNode::Projection { input: Box::new(input), expr }),
                None => match selection {
                    Some(expr) => Some(PlanNode::Selection { input: Box::new(input), expr }),
                    None => match aggregate {
                        Some(a) => Some(
                            PlanNode::Aggregate {
                                input: Box::new(input),
                                group_expr: a.group_expr,
                                aggr_expr: a.aggr_expr,
                            },
                        ),
                        None => None,
                    },
                },
            }
        },
    }
}

/// One for a present field, zero for an absent one.
fn present(b: bool) -> (r: u32)
    ensures
        r <= 1,
        r == (if b { 1nat } else { 0nat }),
{
    if b { 1 } else { 0 }
}

/// A flat plan node that reads back sets exactly one payload, and an input
/// exactly where that payload is not a scan.
pub proof fn lemma_flat_plan_well_formed(n: PlanNode, f: FlatPlanNode)
    requires
        plan_of_flat(f) == Some(n),
    ensures
        payload_count(f) == 1,
        f.input is Some <==> !(n is Scan),
{
}

} // verus!
