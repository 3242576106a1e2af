use forma::ast::{
    BinaryOperator, DataType, DateTimeField, Expr, Fetch, Function, Ident, Join, JoinConstraint,
    JoinOperator, ListAgg, ListAggOnOverflow, ObjectName, Offset, OffsetRows, OrderByExpr, Query,
    QuoteStyle, Select, SelectItem, SetExpr, SetOperator, Statement, TableAlias, TableFactor,
    TableWithJoins, Top, UnaryOperator, Value, WindowFrame, WindowFrameBound, WindowFrameUnits,
    WindowSpec,
};
use forma::error::FormaError;
use forma::{format_statement, prettify_statement};

fn c_ident(name: &str) -> Ident {
    Ident { value: name.to_string(), quote: QuoteStyle::Plain }
}

fn c_id(name: &str) -> Expr {
    Expr::Identifier(c_ident(name))
}

fn c_num(n: &str) -> Expr {
    Expr::Value(Value::Number(n.to_string()))
}

fn c_table(name: &str) -> TableWithJoins {
    TableWithJoins {
        relation: TableFactor::Table {
            name: ObjectName(vec![c_ident(name)]),
            alias: None,
            args: vec![],
            with_hints: vec![],
        },
        joins: vec![],
    }
}

fn c_select(
    projection: Vec<SelectItem>,
    from: Vec<TableWithJoins>,
    selection: Option<Expr>,
) -> SetExpr {
    SetExpr::Select(Box::new(Select {
        distinct: false,
        top: None,
        projection,
        from,
        selection,
        group_by: vec![],
        having: None,
    }))
}

fn c_statement(body: SetExpr) -> Statement {
    Statement::Query(Box::new(Query {
        ctes: vec![],
        body,
        order_by: vec![],
        limit: None,
        offset: None,
        fetch: None,
    }))
}

fn c_where(selection: Expr) -> Statement {
    c_statement(c_select(vec![SelectItem::Wildcard], vec![c_table("t")], Some(selection)))
}

#[test]
fn trailing_clauses_render_in_fixed_order() {
    let statement = Statement::Query(Box::new(Query {
        ctes: vec![],
        body: c_select(vec![SelectItem::UnnamedExpr(c_id("a"))], vec![c_table("t")], None),
        order_by: vec![OrderByExpr { expr: c_id("a"), asc: Some(false), nulls_first: Some(true) }],
        limit: Some(c_num("10")),
        offset: Some(Offset { value: c_num("5"), rows: OffsetRows::Rows }),
        fetch: Some(Fetch { with_ties: false, percent: false, quantity: Some(c_num("3")) }),
    }));
    assert_eq!(
        prettify_statement(&statement, 100),
        "select a from t order by a desc nulls first limit 10 offset 5 rows fetch first 3 rows only"
    );
}

#[test]
fn left_join_renders_keywords_and_constraint() {
    let statement = c_statement(c_select(
        vec![SelectItem::Wildcard],
        vec![TableWithJoins {
            relation: TableFactor::Table {
                name: ObjectName(vec![c_ident("a")]),
                alias: None,
                args: vec![],
                with_hints: vec![],
            },
            joins: vec![Join {
                relation: TableFactor::Table {
                    name: ObjectName(vec![c_ident("b")]),
                    alias: None,
                    args: vec![],
                    with_hints: vec![],
                },
                join_operator: JoinOperator::LeftOuter(JoinConstraint::On(Expr::BinaryOp {
                    left: Box::new(c_id("x")),
                    op: BinaryOperator::Eq,
                    right: Box::new(c_id("y")),
                })),
            }],
        }],
        None,
    ));
    assert_eq!(
        prettify_statement(&statement, 100),
        "select * from a left join b on x = y"
    );
}

#[test]
fn set_operations_always_break_around_the_operator() {
    let statement = c_statement(SetExpr::SetOperation {
        op: SetOperator::Union,
        all: true,
        left: Box::new(c_select(vec![SelectItem::UnnamedExpr(c_id("a"))], vec![], None)),
        right: Box::new(c_select(vec![SelectItem::UnnamedExpr(c_id("b"))], vec![], None)),
    });
    assert_eq!(prettify_statement(&statement, 10000), "select a\nunion all\nselect b");
}

#[test]
fn values_rows_are_parenthesized() {
    let statement = c_statement(SetExpr::Values(vec![vec![c_num("1"), c_num("2")]]));
    assert_eq!(prettify_statement(&statement, 100), "values (1, 2)");
}

#[test]
fn between_renders_inline() {
    let statement = c_where(Expr::Between {
        expr: Box::new(c_id("a")),
        negated: false,
        low: Box::new(c_num("1")),
        high: Box::new(c_num("5")),
    });
    assert_eq!(prettify_statement(&statement, 100), "select * from t where a between 1 and 5");
    let negated = c_where(Expr::Between {
        expr: Box::new(c_id("a")),
        negated: true,
        low: Box::new(c_num("1")),
        high: Box::new(c_num("5")),
    });
    assert_eq!(
        prettify_statement(&negated, 100),
        "select * from t where a not between 1 and 5"
    );
}

#[test]
fn unary_and_null_tests_render_as_words() {
    let not_stmt = c_where(Expr::UnaryOp {
        op: UnaryOperator::Not,
        expr: Box::new(c_id("a")),
    });
    assert_eq!(prettify_statement(&not_stmt, 100), "select * from t where not a");
    let null_stmt = c_where(Expr::IsNotNull(Box::new(c_id("a"))));
    assert_eq!(prettify_statement(&null_stmt, 100), "select * from t where a is not null");
}

#[test]
fn membership_against_a_subquery_parenthesizes_it() {
    let sub = Query {
        ctes: vec![],
        body: c_select(vec![SelectItem::UnnamedExpr(c_id("id"))], vec![c_table("u")], None),
        order_by: vec![],
        limit: None,
        offset: None,
        fetch: None,
    };
    let statement = c_where(Expr::InSubquery {
        expr: Box::new(c_id("id")),
        subquery: Box::new(sub),
        negated: true,
    });
    assert_eq!(
        prettify_statement(&statement, 100),
        "select * from t where id not in (select id from u)"
    );
}

#[test]
fn exists_renders_a_parenthesized_subquery() {
    let sub = Query {
        ctes: vec![],
        body: c_select(vec![SelectItem::UnnamedExpr(c_num("1"))], vec![], None),
        order_by: vec![],
        limit: None,
        offset: None,
        fetch: None,
    };
    let statement = c_where(Expr::Exists(Box::new(sub)));
    assert_eq!(
        prettify_statement(&statement, 100),
        "select * from t where exists (select 1)"
    );
}

#[test]
fn window_clause_renders_partition_order_and_frame() {
    let call = Expr::Function(Function {
        name: ObjectName(vec![c_ident("RANK")]),
        args: vec![],
        over: Some(WindowSpec {
            partition_by: vec![c_id("a")],
            order_by: vec![OrderByExpr { expr: c_id("b"), asc: None, nulls_first: None }],
            window_frame: Some(WindowFrame {
                units: WindowFrameUnits::Rows,
                start_bound: WindowFrameBound::Preceding(None),
                end_bound: Some(WindowFrameBound::CurrentRow),
            }),
        }),
        distinct: false,
    });
    let statement = c_statement(c_select(
        vec![SelectItem::UnnamedExpr(call)],
        vec![c_table("t")],
        None,
    ));
    assert_eq!(
        prettify_statement(&statement, 120),
        "select rank() over(partition by a order by b rows between unbounded preceding and current row) from t"
    );
}

#[test]
fn listagg_renders_overflow_and_group_ordering() {
    let agg = Expr::ListAgg(ListAgg {
        distinct: true,
        expr: Box::new(c_id("x")),
        separator: Some(Box::new(Expr::Value(Value::SingleQuotedString(", ".to_string())))),
        on_overflow: Some(ListAggOnOverflow::Truncate { filler: None, with_count: true }),
        within_group: vec![OrderByExpr { expr: c_id("y"), asc: None, nulls_first: None }],
    });
    let statement = c_statement(c_select(
        vec![SelectItem::UnnamedExpr(agg)],
        vec![c_table("t")],
        None,
    ));
    assert_eq!(
        prettify_statement(&statement, 200),
        "select listagg(distinct x, ', ' on overflow truncate with count) within group (order by y) from t"
    );
}

#[test]
fn literal_and_identifier_forms_render_exactly() {
    let statement = c_statement(c_select(
        vec![
            SelectItem::UnnamedExpr(Expr::TypedString {
                data_type: DataType::Date,
                value: "2020-01-01".to_string(),
            }),
            SelectItem::UnnamedExpr(Expr::Extract {
                field: DateTimeField::Year,
                expr: Box::new(c_id("d")),
            }),
            SelectItem::UnnamedExpr(Expr::Collate {
                expr: Box::new(c_id("a")),
                collation: ObjectName(vec![c_ident("de")]),
            }),
            SelectItem::UnnamedExpr(Expr::Nested(Box::new(c_id("a")))),
            SelectItem::UnnamedExpr(Expr::CompoundIdentifier(vec![c_ident("t"), c_ident("a")])),
            SelectItem::UnnamedExpr(Expr::Identifier(Ident {
                value: "My Col".to_string(),
                quote: QuoteStyle::Double,
            })),
        ],
        vec![c_table("t")],
        None,
    ));
    assert_eq!(
        prettify_statement(&statement, 200),
        "select date '2020-01-01', extract(year from d), a collate de, (a), t.a, \"My Col\" from t"
    );
}

#[test]
fn qualified_wildcard_item_keeps_its_star() {
    let statement = c_statement(c_select(
        vec![SelectItem::QualifiedWildcard(ObjectName(vec![c_ident("t")]))],
        vec![c_table("t")],
        None,
    ));
    assert_eq!(prettify_statement(&statement, 100), "select t.* from t");
}

#[test]
fn distinct_and_top_render_after_select() {
    let statement = c_statement(SetExpr::Select(Box::new(Select {
        distinct: true,
        top: Some(Top { with_ties: false, percent: false, quantity: Some(c_num("10")) }),
        projection: vec![SelectItem::UnnamedExpr(c_id("a"))],
        from: vec![c_table("t")],
        selection: None,
        group_by: vec![],
        having: None,
    })));
    assert_eq!(prettify_statement(&statement, 100), "select distinct top (10) a from t");
}

#[test]
fn derived_table_renders_with_alias() {
    let sub = Query {
        ctes: vec![],
        body: c_select(vec![SelectItem::UnnamedExpr(c_num("1"))], vec![], None),
        order_by: vec![],
        limit: None,
        offset: None,
        fetch: None,
    };
    let statement = c_statement(c_select(
        vec![SelectItem::Wildcard],
        vec![TableWithJoins {
            relation: TableFactor::Derived {
                lateral: false,
                subquery: Box::new(sub),
                alias: Some(TableAlias { name: c_ident("x"), columns: vec![] }),
            },
            joins: vec![],
        }],
        None,
    ));
    assert_eq!(prettify_statement(&statement, 100), "select * from (select 1) as x");
}

#[test]
fn group_by_and_having_render_after_where() {
    let statement = c_statement(SetExpr::Select(Box::new(Select {
        distinct: false,
        top: None,
        projection: vec![SelectItem::UnnamedExpr(c_id("a"))],
        from: vec![c_table("t")],
        selection: None,
        group_by: vec![c_id("a")],
        having: Some(Expr::BinaryOp {
            left: Box::new(c_id("n")),
            op: BinaryOperator::Gt,
            right: Box::new(c_num("1")),
        }),
    })));
    assert_eq!(
        prettify_statement(&statement, 100),
        "select a from t group by a having n > 1"
    );
}

#[test]
fn check_mode_accepts_already_formatted_input() {
    let statement = c_statement(c_select(vec![SelectItem::Wildcard], vec![c_table("t")], None));
    let ok = format_statement("select * from t;\n", &statement, true, 100);
    assert_eq!(ok.unwrap(), "select * from t;\n");
    let changed = format_statement("SELECT * FROM t", &statement, true, 100);
    assert!(matches!(changed, Err(FormaError::WouldFormat)));
}

#[test]
fn join_wordings_cover_natural_and_using() {
    let statement = c_statement(c_select(
        vec![SelectItem::Wildcard],
        vec![TableWithJoins {
            relation: TableFactor::Table {
                name: ObjectName(vec![c_ident("a")]),
                alias: None,
                args: vec![],
                with_hints: vec![],
            },
            joins: vec![
                Join {
                    relation: TableFactor::Table {
                        name: ObjectName(vec![c_ident("b")]),
                        alias: None,
                        args: vec![],
                        with_hints: vec![],
                    },
                    join_operator: JoinOperator::Inner(JoinConstraint::Natural),
                },
                Join {
                    relation: TableFactor::Table {
                        name: ObjectName(vec![c_ident("c")]),
                        alias: None,
                        args: vec![],
                        with_hints: vec![],
                    },
                    join_operator: JoinOperator::Inner(JoinConstraint::Using(vec![c_ident("x")])),
                },
            ],
        }],
        None,
    ));
    assert_eq!(
        prettify_statement(&statement, 200),
        "select * from a natural join b join c using (x)"
    );
}

#[test]
fn offset_keyword_variants_render() {
    let statement = Statement::Query(Box::new(Query {
        ctes: vec![],
        body: c_select(vec![SelectItem::UnnamedExpr(c_id("a"))], vec![c_table("t")], None),
        order_by: vec![],
        limit: None,
        offset: Some(Offset { value: c_num("5"), rows: OffsetRows::Row }),
        fetch: Some(Fetch { with_ties: true, percent: true, quantity: Some(c_num("50")) }),
    }));
    assert_eq!(
        prettify_statement(&statement, 200),
        "select a from t offset 5 row fetch first 50 percent rows with ties"
    );
}

#[test]
fn literal_kinds_render_their_prefixes() {
    let statement = c_statement(c_select(
        vec![
            SelectItem::UnnamedExpr(Expr::Value(Value::HexStringLiteral("1f".to_string()))),
            SelectItem::UnnamedExpr(Expr::Value(Value::NationalStringLiteral("abc".to_string()))),
            SelectItem::UnnamedExpr(Expr::Value(Value::Boolean(true))),
            SelectItem::UnnamedExpr(Expr::Value(Value::Null)),
        ],
        vec![c_table("t")],
        None,
    ));
    assert_eq!(
        prettify_statement(&statement, 200),
        "select X'1f', N'abc', true, null from t"
    );
}

#[test]
fn inline_operators_stay_on_the_line() {
    let statement = c_statement(c_select(
        vec![
            SelectItem::UnnamedExpr(Expr::BinaryOp {
                left: Box::new(c_id("a")),
                op: BinaryOperator::StringConcat,
                right: Box::new(c_id("b")),
            }),
            SelectItem::UnnamedExpr(Expr::BinaryOp {
                left: Box::new(c_id("a")),
                op: BinaryOperator::Modulus,
                right: Box::new(c_num("2")),
            }),
        ],
        vec![c_table("t")],
        None,
    ));
    assert_eq!(prettify_statement(&statement, 200), "select a || b, a % 2 from t");
}

#[test]
fn cast_covers_custom_and_decimal_types() {
    let statement = c_statement(c_select(
        vec![
            SelectItem::UnnamedExpr(Expr::Cast {
                expr: Box::new(c_id("a")),
                data_type: DataType::Custom(ObjectName(vec![c_ident("GeoPoint")])),
            }),
            SelectItem::UnnamedExpr(Expr::Cast {
                expr: Box::new(c_id("b")),
                data_type: DataType::Decimal(Some(10), Some(2)),
            }),
        ],
        vec![c_table("t")],
        None,
    ));
    assert_eq!(
        prettify_statement(&statement, 200),
        "select cast(a as GeoPoint), cast(b as numeric(10,2)) from t"
    );
}
