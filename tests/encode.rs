use ballista_proto::expr::{aggregate_function_from_id, aggregate_function_id, operator_from_id, operator_id};
use ballista_proto::plan::{exprs_to_proto, projection_names, scan_to_proto};
use ballista_proto::schema::{field_to_proto, from_proto_arrow_type};
use ballista_proto::{
    expr_to_proto, literal_from_proto, literal_to_proto, plan_to_proto, schema_to_proto, to_proto_arrow_type,
    AggregateFunction, ArrowType, DataType, EncodeError, Expr, ExprKind, ExprNode, FileFormat, IntWidth,
    LiteralNode, LogicalPlan, Operator, PlanKind, PlanNode, ScalarValue, Schema, TableSource,
};
use ballista_proto::{literal_from_flat, literal_to_flat, plan_from_flat, plan_to_flat, Field, FlatPlanNode};

fn field(name: &str, data_type: DataType, nullable: bool) -> Field {
    Field { name: name.to_string(), data_type, nullable }
}

fn people_schema() -> Schema {
    Schema {
        fields: vec![
            field("a", DataType::Int32, false),
            field("b", DataType::Utf8, true),
            field("c", DataType::Float64, true),
            field("age", DataType::Int32, false),
            field("city", DataType::Utf8, false),
            field("amount", DataType::Int64, true),
        ],
    }
}

fn csv_scan(projection: Option<Vec<usize>>) -> LogicalPlan {
    LogicalPlan::TableScan {
        table_name: "people".to_string(),
        source: TableSource::Csv { path: "data.csv".to_string(), has_header: true, schema: people_schema() },
        projection,
        projected_schema: people_schema(),
    }
}

fn col(name: &str) -> Expr {
    Expr::Column(name.to_string())
}

fn col_node(name: &str) -> ExprNode {
    ExprNode::Column { name: name.to_string() }
}

fn node_count(n: &PlanNode) -> usize {
    match n {
        PlanNode::Scan(_) => 1,
        PlanNode::Projection { input, .. } => 1 + node_count(input),
        PlanNode::Selection { input, .. } => 1 + node_count(input),
        PlanNode::Aggregate { input, .. } => 1 + node_count(input),
    }
}

fn round_trip(v: ScalarValue) {
    let lit = literal_to_proto(&v).expect("literal encodes");
    assert_eq!(literal_from_proto(&lit), Some(v));
}

#[test]
fn csv_scan_without_projection() {
    let node = plan_to_proto(&csv_scan(None)).unwrap();
    match node {
        PlanNode::Scan(scan) => {
            assert_eq!(scan.path, "data.csv");
            assert_eq!(scan.projection, None);
            assert!(scan.has_header);
            assert_eq!(scan.file_format, FileFormat::Csv);
            assert_eq!(scan.file_format.name(), "csv");
            assert_eq!(scan.schema.columns.len(), 6);
            assert_eq!(scan.schema.columns[3].name, "age");
            assert_eq!(scan.schema.columns[3].arrow_type, ArrowType::Int32);
        },
        other => panic!("expected a scan, got {:?}", other),
    }
}

#[test]
fn parquet_scan_has_no_header() {
    let plan = LogicalPlan::TableScan {
        table_name: "t".to_string(),
        source: TableSource::Parquet { path: "/data/t.parquet".to_string(), schema: people_schema() },
        projection: None,
        projected_schema: people_schema(),
    };
    match plan_to_proto(&plan).unwrap() {
        PlanNode::Scan(scan) => {
            assert_eq!(scan.path, "/data/t.parquet");
            assert!(!scan.has_header);
            assert_eq!(scan.file_format, FileFormat::Parquet);
            assert_eq!(scan.file_format.name(), "parquet");
        },
        other => panic!("expected a scan, got {:?}", other),
    }
}

#[test]
fn filter_over_scan() {
    let plan = LogicalPlan::Filter {
        predicate: Expr::BinaryExpr {
            left: Box::new(col("age")),
            op: Operator::Gt,
            right: Box::new(Expr::Literal(ScalarValue::Int32(Some(30)))),
        },
        input: Box::new(csv_scan(None)),
    };
    let expected_scan = plan_to_proto(&csv_scan(None)).unwrap();
    match plan_to_proto(&plan).unwrap() {
        PlanNode::Selection { input, expr } => {
            assert_eq!(
                expr,
                ExprNode::BinaryExpr {
                    l: Box::new(col_node("age")),
                    r: Box::new(ExprNode::Literal(LiteralNode::Int { width: IntWidth::W32, value: 30 })),
                    op: operator_id(Operator::Gt),
                }
            );
            assert_eq!(*input, expected_scan);
        },
        other => panic!("expected a selection, got {:?}", other),
    }
}

#[test]
fn aggregate_sum_by_city() {
    let plan = LogicalPlan::Aggregate {
        input: Box::new(csv_scan(None)),
        group_expr: vec![col("city")],
        aggr_expr: vec![Expr::AggregateFunction {
            fun: AggregateFunction::Sum,
            args: vec![col("amount")],
            distinct: false,
        }],
        schema: people_schema(),
    };
    match plan_to_proto(&plan).unwrap() {
        PlanNode::Aggregate { input, group_expr, aggr_expr } => {
            assert_eq!(group_expr, vec![col_node("city")]);
            assert_eq!(
                aggr_expr,
                vec![ExprNode::AggregateExpr {
                    aggr_function: aggregate_function_id(AggregateFunction::Sum),
                    expr: Box::new(col_node("amount")),
                }]
            );
            assert!(matches!(*input, PlanNode::Scan(_)));
        },
        other => panic!("expected an aggregate, got {:?}", other),
    }
}

#[test]
fn sort_node_is_unsupported() {
    let plan = LogicalPlan::Sort { expr: vec![col("age")], input: Box::new(csv_scan(None)) };
    assert_eq!(plan_to_proto(&plan), Err(EncodeError::UnsupportedPlan(PlanKind::Sort)));
}

#[test]
fn other_unsupported_plan_kinds() {
    let limit = LogicalPlan::Limit { n: 10, input: Box::new(csv_scan(None)) };
    assert_eq!(plan_to_proto(&limit), Err(EncodeError::UnsupportedPlan(PlanKind::Limit)));
    let empty = LogicalPlan::EmptyRelation { schema: people_schema() };
    assert_eq!(plan_to_proto(&empty), Err(EncodeError::UnsupportedPlan(PlanKind::EmptyRelation)));
    let join = LogicalPlan::Other { kind: PlanKind::Join };
    assert_eq!(plan_to_proto(&join), Err(EncodeError::UnsupportedPlan(PlanKind::Join)));
    let nested = LogicalPlan::Filter {
        predicate: col("age"),
        input: Box::new(LogicalPlan::Limit { n: 1, input: Box::new(csv_scan(None)) }),
    };
    assert_eq!(plan_to_proto(&nested), Err(EncodeError::UnsupportedPlan(PlanKind::Limit)));
}

#[test]
fn null_int64_literal_is_an_error() {
    let e = Expr::Literal(ScalarValue::Int64(None));
    assert_eq!(expr_to_proto(&e), Err(EncodeError::NullLiteral(DataType::Int64)));
}

#[test]
fn null_literals_of_every_type_fail() {
    let cases = vec![
        (ScalarValue::Int8(None), DataType::Int8),
        (ScalarValue::Int16(None), DataType::Int16),
        (ScalarValue::Int32(None), DataType::Int32),
        (ScalarValue::Int64(None), DataType::Int64),
        (ScalarValue::UInt8(None), DataType::UInt8),
        (ScalarValue::UInt16(None), DataType::UInt16),
        (ScalarValue::UInt32(None), DataType::UInt32),
        (ScalarValue::UInt64(None), DataType::UInt64),
        (ScalarValue::Float32(None), DataType::Float32),
        (ScalarValue::Float64(None), DataType::Float64),
        (ScalarValue::Utf8(None), DataType::Utf8),
    ];
    for (v, t) in cases {
        assert_eq!(literal_to_proto(&v), Err(EncodeError::NullLiteral(t)));
    }
}

#[test]
fn integer_literals_round_trip_at_the_bounds() {
    round_trip(ScalarValue::Int8(Some(i8::MIN)));
    round_trip(ScalarValue::Int8(Some(i8::MAX)));
    round_trip(ScalarValue::Int16(Some(i16::MIN)));
    round_trip(ScalarValue::Int16(Some(i16::MAX)));
    round_trip(ScalarValue::Int32(Some(i32::MIN)));
    round_trip(ScalarValue::Int32(Some(i32::MAX)));
    round_trip(ScalarValue::Int64(Some(i64::MIN)));
    round_trip(ScalarValue::Int64(Some(i64::MAX)));
    round_trip(ScalarValue::Int32(Some(-1)));
    round_trip(ScalarValue::UInt8(Some(0)));
    round_trip(ScalarValue::UInt8(Some(u8::MAX)));
    round_trip(ScalarValue::UInt16(Some(u16::MAX)));
    round_trip(ScalarValue::UInt32(Some(u32::MAX)));
    round_trip(ScalarValue::UInt64(Some(u64::MAX)));
}

#[test]
fn float_and_string_literals_round_trip() {
    round_trip(ScalarValue::Float32(Some(0.0f32.to_bits())));
    round_trip(ScalarValue::Float32(Some((-0.0f32).to_bits())));
    round_trip(ScalarValue::Float32(Some(1.5f32.to_bits())));
    round_trip(ScalarValue::Float64(Some((-0.0f64).to_bits())));
    round_trip(ScalarValue::Float64(Some(0.1f64.to_bits())));
    round_trip(ScalarValue::Float64(Some(f64::MAX.to_bits())));
    round_trip(ScalarValue::Utf8(Some("héllo".to_string())));
    round_trip(ScalarValue::Utf8(Some(String::new())));
    let neg_zero = literal_to_proto(&ScalarValue::Float64(Some((-0.0f64).to_bits()))).unwrap();
    match literal_from_proto(&neg_zero) {
        Some(ScalarValue::Float64(Some(bits))) => assert!(f64::from_bits(bits).is_sign_negative()),
        other => panic!("unexpected {:?}", other),
    }
}

#[test]
fn integer_literals_are_widened_with_their_width() {
    assert_eq!(
        literal_to_proto(&ScalarValue::Int8(Some(-128))),
        Ok(LiteralNode::Int { width: IntWidth::W8, value: -128 })
    );
    assert_eq!(
        literal_to_proto(&ScalarValue::UInt16(Some(65535))),
        Ok(LiteralNode::UInt { width: IntWidth::W16, value: 65535 })
    );
    assert_eq!(
        literal_to_proto(&ScalarValue::Utf8(Some("x".to_string()))),
        Ok(LiteralNode::Utf8 { value: "x".to_string() })
    );
}

#[test]
fn out_of_range_wire_integers_do_not_decode() {
    assert_eq!(literal_from_proto(&LiteralNode::Int { width: IntWidth::W8, value: 128 }), None);
    assert_eq!(literal_from_proto(&LiteralNode::Int { width: IntWidth::W16, value: -32769 }), None);
    assert_eq!(literal_from_proto(&LiteralNode::Int { width: IntWidth::W32, value: 1 << 31 }), None);
    assert_eq!(literal_from_proto(&LiteralNode::UInt { width: IntWidth::W8, value: 256 }), None);
    assert_eq!(literal_from_proto(&LiteralNode::UInt { width: IntWidth::W32, value: 1 << 32 }), None);
}

#[test]
fn unsupported_literal_types_fail() {
    assert_eq!(
        literal_to_proto(&ScalarValue::Boolean(Some(true))),
        Err(EncodeError::UnsupportedScalar(DataType::Boolean))
    );
    assert_eq!(
        literal_to_proto(&ScalarValue::LargeUtf8(Some("x".to_string()))),
        Err(EncodeError::UnsupportedScalar(DataType::LargeUtf8))
    );
    assert_eq!(
        literal_to_proto(&ScalarValue::List(DataType::Int32)),
        Err(EncodeError::UnsupportedScalar(DataType::List))
    );
    assert_eq!(
        literal_to_proto(&ScalarValue::Date32(Some(18000))),
        Err(EncodeError::UnsupportedScalar(DataType::Date32))
    );
    assert_eq!(
        literal_to_proto(&ScalarValue::Binary(None)),
        Err(EncodeError::UnsupportedScalar(DataType::Binary))
    );
}

#[test]
fn plan_shape_is_preserved() {
    let plan = LogicalPlan::Projection {
        expr: vec![col("a")],
        input: Box::new(LogicalPlan::Filter {
            predicate: col("a"),
            input: Box::new(LogicalPlan::Aggregate {
                input: Box::new(csv_scan(Some(vec![0]))),
                group_expr: vec![col("a")],
                aggr_expr: vec![],
                schema: people_schema(),
            }),
        }),
        schema: people_schema(),
    };
    let node = plan_to_proto(&plan).unwrap();
    assert_eq!(node_count(&node), 4);
    match node {
        PlanNode::Projection { input, .. } => match *input {
            PlanNode::Selection { input, .. } => match *input {
                PlanNode::Aggregate { input, .. } => assert!(matches!(*input, PlanNode::Scan(_))),
                other => panic!("expected an aggregate, got {:?}", other),
            },
            other => panic!("expected a selection, got {:?}", other),
        },
        other => panic!("expected a projection, got {:?}", other),
    }
}

#[test]
fn projection_order_is_preserved() {
    let plan = LogicalPlan::Projection {
        expr: vec![col("b"), col("a"), col("c")],
        input: Box::new(csv_scan(None)),
        schema: people_schema(),
    };
    match plan_to_proto(&plan).unwrap() {
        PlanNode::Projection { expr, .. } => {
            assert_eq!(expr, vec![col_node("b"), col_node("a"), col_node("c")]);
        },
        other => panic!("expected a projection, got {:?}", other),
    }
}

#[test]
fn scan_projection_indices_become_names() {
    match plan_to_proto(&csv_scan(Some(vec![4, 0, 3]))).unwrap() {
        PlanNode::Scan(scan) => {
            assert_eq!(scan.projection, Some(vec!["city".to_string(), "a".to_string(), "age".to_string()]));
        },
        other => panic!("expected a scan, got {:?}", other),
    }
    assert_eq!(projection_names(&people_schema(), &vec![]), Ok(vec![]));
}

#[test]
fn scan_projection_index_out_of_range_fails() {
    assert_eq!(plan_to_proto(&csv_scan(Some(vec![1, 6, 9]))), Err(EncodeError::ProjectionIndex(6)));
}

#[test]
fn aggregate_keeps_group_and_aggregate_lists_apart() {
    let plan = LogicalPlan::Aggregate {
        input: Box::new(csv_scan(None)),
        group_expr: vec![col("city"), col("age")],
        aggr_expr: vec![Expr::AggregateFunction {
            fun: AggregateFunction::Max,
            args: vec![col("amount")],
            distinct: false,
        }],
        schema: people_schema(),
    };
    match plan_to_proto(&plan).unwrap() {
        PlanNode::Aggregate { group_expr, aggr_expr, .. } => {
            assert_eq!(group_expr, vec![col_node("city"), col_node("age")]);
            assert_eq!(aggr_expr.len(), 1);
        },
        other => panic!("expected an aggregate, got {:?}", other),
    }
}

#[test]
fn aggregate_function_ids_are_a_bijection() {
    let all = [
        AggregateFunction::Min,
        AggregateFunction::Max,
        AggregateFunction::Sum,
        AggregateFunction::Avg,
        AggregateFunction::Count,
    ];
    for (i, f) in all.iter().enumerate() {
        assert_eq!(aggregate_function_id(*f), i as i32);
        assert_eq!(aggregate_function_from_id(i as i32), Some(*f));
    }
    assert_eq!(aggregate_function_from_id(5), None);
    assert_eq!(aggregate_function_from_id(-1), None);
}

#[test]
fn operator_ids_round_trip() {
    let all = [
        Operator::Eq,
        Operator::NotEq,
        Operator::Lt,
        Operator::LtEq,
        Operator::Gt,
        Operator::GtEq,
        Operator::Plus,
        Operator::Minus,
        Operator::Multiply,
        Operator::Divide,
        Operator::Modulus,
        Operator::And,
        Operator::Or,
        Operator::Like,
        Operator::NotLike,
    ];
    for op in all.iter() {
        assert_eq!(operator_from_id(operator_id(*op)), Some(*op));
    }
    assert_eq!(operator_id(Operator::Gt), 4);
    assert_eq!(operator_from_id(15), None);
}

#[test]
fn aggregate_arity_is_checked() {
    let none = Expr::AggregateFunction { fun: AggregateFunction::Count, args: vec![], distinct: false };
    assert_eq!(expr_to_proto(&none), Err(EncodeError::AggregateArity(0)));
    let two = Expr::AggregateFunction { fun: AggregateFunction::Sum, args: vec![col("a"), col("b")], distinct: false };
    assert_eq!(expr_to_proto(&two), Err(EncodeError::AggregateArity(2)));
}

#[test]
fn unsupported_expressions_fail() {
    let cases = vec![
        (Expr::Not(Box::new(col("a"))), ExprKind::Not),
        (Expr::IsNull(Box::new(col("a"))), ExprKind::IsNull),
        (Expr::IsNotNull(Box::new(col("a"))), ExprKind::IsNotNull),
        (Expr::Cast { expr: Box::new(col("a")), data_type: DataType::Int64 }, ExprKind::Cast),
        (Expr::Sort { expr: Box::new(col("a")), asc: true, nulls_first: false }, ExprKind::Sort),
        (Expr::Function { name: "sqrt".to_string(), args: vec![col("a")] }, ExprKind::Function),
        (Expr::Wildcard, ExprKind::Wildcard),
        (Expr::Other { kind: ExprKind::Case }, ExprKind::Case),
        (Expr::ScalarVariable(vec!["@v".to_string()]), ExprKind::ScalarVariable),
    ];
    for (e, k) in cases {
        assert_eq!(expr_to_proto(&e), Err(EncodeError::UnsupportedExpr(k)));
    }
    let deep = Expr::Alias(
        Box::new(Expr::BinaryExpr { left: Box::new(col("a")), op: Operator::Plus, right: Box::new(Expr::Wildcard) }),
        "x".to_string(),
    );
    assert_eq!(expr_to_proto(&deep), Err(EncodeError::UnsupportedExpr(ExprKind::Wildcard)));
}

#[test]
fn first_error_left_to_right_wins() {
    let e = Expr::BinaryExpr {
        left: Box::new(Expr::Literal(ScalarValue::Int8(None))),
        op: Operator::And,
        right: Box::new(Expr::Not(Box::new(col("a")))),
    };
    assert_eq!(expr_to_proto(&e), Err(EncodeError::NullLiteral(DataType::Int8)));
    let es = vec![col("a"), Expr::Wildcard, Expr::Literal(ScalarValue::Boolean(None))];
    assert_eq!(exprs_to_proto(&es), Err(EncodeError::UnsupportedExpr(ExprKind::Wildcard)));
}

#[test]
fn alias_wraps_its_expression() {
    let e = Expr::Alias(Box::new(col("amount")), "total".to_string());
    assert_eq!(
        expr_to_proto(&e),
        Ok(ExprNode::Alias { expr: Box::new(col_node("amount")), alias: "total".to_string() })
    );
}

#[test]
fn unknown_table_source_fails() {
    let plan = LogicalPlan::TableScan {
        table_name: "m".to_string(),
        source: TableSource::Other { name: "MemTable".to_string(), schema: people_schema() },
        projection: None,
        projected_schema: people_schema(),
    };
    assert_eq!(plan_to_proto(&plan), Err(EncodeError::UnsupportedTableSource("MemTable".to_string())));
}

#[test]
fn unsupported_column_type_fails() {
    assert_eq!(to_proto_arrow_type(&DataType::Boolean), Err(EncodeError::UnsupportedType(DataType::Boolean)));
    assert_eq!(to_proto_arrow_type(&DataType::Date32), Err(EncodeError::UnsupportedType(DataType::Date32)));
    let schema = Schema {
        fields: vec![
            field("x", DataType::Int8, false),
            field("y", DataType::Timestamp, true),
            field("z", DataType::List, true),
        ],
    };
    assert_eq!(schema_to_proto(&schema), Err(EncodeError::UnsupportedType(DataType::Timestamp)));
    let source = TableSource::Csv { path: "x.csv".to_string(), has_header: false, schema };
    assert_eq!(scan_to_proto(&source, &None), Err(EncodeError::UnsupportedType(DataType::Timestamp)));
}

#[test]
fn type_tags_map_both_ways() {
    let supported = [
        (DataType::Int8, ArrowType::Int8),
        (DataType::Int16, ArrowType::Int16),
        (DataType::Int32, ArrowType::Int32),
        (DataType::Int64, ArrowType::Int64),
        (DataType::UInt8, ArrowType::Uint8),
        (DataType::UInt16, ArrowType::Uint16),
        (DataType::UInt32, ArrowType::Uint32),
        (DataType::UInt64, ArrowType::Uint64),
        (DataType::Float32, ArrowType::Float),
        (DataType::Float64, ArrowType::Double),
        (DataType::Utf8, ArrowType::Utf8),
    ];
    for (d, t) in supported.iter() {
        assert_eq!(to_proto_arrow_type(d), Ok(*t));
        assert_eq!(from_proto_arrow_type(t), *d);
    }
}

#[test]
fn schema_keeps_order_names_and_nullability() {
    let w = schema_to_proto(&people_schema()).unwrap();
    let names: Vec<&str> = w.columns.iter().map(|c| c.name.as_str()).collect();
    assert_eq!(names, vec!["a", "b", "c", "age", "city", "amount"]);
    assert!(!w.columns[0].nullable);
    assert!(w.columns[1].nullable);
    assert_eq!(w.columns[2].arrow_type, ArrowType::Double);
    assert!(w.columns.iter().all(|c| c.children.is_empty()));
    let f = field_to_proto(&field("n", DataType::UInt64, true)).unwrap();
    assert_eq!(f.arrow_type, ArrowType::Uint64);
    assert_eq!(schema_to_proto(&Schema { fields: vec![] }).unwrap().columns.len(), 0);
}

#[test]
fn error_messages_name_the_construct() {
    assert_eq!(EncodeError::UnsupportedPlan(PlanKind::Sort).message(), "unsupported plan node: Sort");
    assert_eq!(EncodeError::UnsupportedExpr(ExprKind::Case).message(), "unsupported expression: Case");
    assert_eq!(
        EncodeError::NullLiteral(DataType::Int64).message(),
        "cannot encode NULL literal of type Int64 without null-representation support"
    );
    assert_eq!(
        EncodeError::UnsupportedTableSource("MemTable".to_string()).message(),
        "unsupported table source: MemTable"
    );
    assert_eq!(EncodeError::UnsupportedType(DataType::Date32).message(), "unsupported column type: Date32");
    assert_eq!(EncodeError::UnsupportedScalar(DataType::Boolean).message(), "unsupported literal type: Boolean");
    assert!(EncodeError::AggregateArity(2).message().contains("exactly one argument"));
    assert!(EncodeError::ProjectionIndex(9).message().contains("projection index"));
    let sort = LogicalPlan::Sort { expr: vec![], input: Box::new(csv_scan(None)) };
    assert!(plan_to_proto(&sort).unwrap_err().message().contains("unsupported plan node"));
    let null = expr_to_proto(&Expr::Literal(ScalarValue::Int64(None))).unwrap_err();
    assert!(null.message().contains("NULL"));
}

#[test]
fn flat_layout_round_trips_and_sets_one_flag() {
    let values = vec![
        ScalarValue::Int8(Some(i8::MIN)),
        ScalarValue::Int16(Some(i16::MAX)),
        ScalarValue::Int32(Some(-7)),
        ScalarValue::Int64(Some(i64::MIN)),
        ScalarValue::UInt8(Some(u8::MAX)),
        ScalarValue::UInt16(Some(7)),
        ScalarValue::UInt32(Some(u32::MAX)),
        ScalarValue::UInt64(Some(u64::MAX)),
        ScalarValue::Float32(Some((-0.0f32).to_bits())),
        ScalarValue::Float64(Some(2.75f64.to_bits())),
        ScalarValue::Utf8(Some("abc".to_string())),
    ];
    for v in values {
        let lit = literal_to_proto(&v).unwrap();
        let flat = literal_to_flat(&lit);
        let back = literal_from_flat(&flat).expect("one flag set");
        assert_eq!(back, lit);
        assert_eq!(literal_from_proto(&back), Some(v));
    }
    let flat = literal_to_flat(&LiteralNode::Int { width: IntWidth::W32, value: 30 });
    assert!(flat.has_literal_i32);
    assert!(!flat.has_literal_i64 && !flat.has_literal_string && !flat.has_literal_u32);
    assert_eq!(flat.literal_int, 30);
}

#[test]
fn flat_layout_with_no_flag_or_two_flags_is_rejected() {
    let mut flat = literal_to_flat(&LiteralNode::Utf8 { value: "x".to_string() });
    flat.has_literal_i8 = true;
    assert_eq!(literal_from_flat(&flat), None);
    flat.has_literal_i8 = false;
    flat.has_literal_string = false;
    assert_eq!(literal_from_flat(&flat), None);
}

fn sample_plan() -> LogicalPlan {
    LogicalPlan::Projection {
        expr: vec![col("city")],
        input: Box::new(LogicalPlan::Aggregate {
            input: Box::new(LogicalPlan::Filter { predicate: col("age"), input: Box::new(csv_scan(Some(vec![3, 4]))) }),
            group_expr: vec![col("city")],
            aggr_expr: vec![],
            schema: people_schema(),
        }),
        schema: people_schema(),
    }
}

#[test]
fn flat_plan_layout_round_trips() {
    let node = plan_to_proto(&sample_plan()).unwrap();
    let flat = plan_to_flat(node);
    assert!(flat.projection.is_some());
    assert!(flat.scan.is_none() && flat.selection.is_none() && flat.aggregate.is_none());
    let inner = flat.input.as_ref().unwrap();
    assert!(inner.aggregate.is_some() && inner.projection.is_none());
    assert_eq!(plan_from_flat(flat), Some(plan_to_proto(&sample_plan()).unwrap()));
}

#[test]
fn flat_plan_layout_rejects_malformed_nodes() {
    let scan = match plan_to_proto(&csv_scan(None)).unwrap() {
        PlanNode::Scan(s) => s,
        other => panic!("expected a scan, got {:?}", other),
    };
    let two_payloads =
        FlatPlanNode { input: None, scan: Some(scan), projection: Some(vec![]), selection: None, aggregate: None };
    assert_eq!(plan_from_flat(two_payloads), None);
    let none = FlatPlanNode { input: None, scan: None, projection: None, selection: None, aggregate: None };
    assert_eq!(plan_from_flat(none), None);
    let missing_input =
        FlatPlanNode { input: None, scan: None, projection: None, selection: Some(col_node("a")), aggregate: None };
    assert_eq!(plan_from_flat(missing_input), None);
}
