use forma::ast::{
    BinaryOperator, Cte, DataType, Expr, Ident, ObjectName, Query, QuoteStyle, Select,
    SelectItem, SetExpr, Statement, TableAlias, TableFactor, TableWithJoins, Value,
};
use forma::error::FormaError;
use forma::{format_statement, formatter, prettify_statement, render_statement};

fn ident(name: &str) -> Ident {
    Ident { value: name.to_string(), quote: QuoteStyle::Plain }
}

fn id_expr(name: &str) -> Expr {
    Expr::Identifier(ident(name))
}

fn num(n: &str) -> Expr {
    Expr::Value(Value::Number(n.to_string()))
}

fn table(name: &str) -> TableWithJoins {
    TableWithJoins {
        relation: TableFactor::Table {
            name: ObjectName(vec![ident(name)]),
            alias: None,
            args: vec![],
            with_hints: vec![],
        },
        joins: vec![],
    }
}

fn bare_select(
    projection: Vec<SelectItem>,
    from: Vec<TableWithJoins>,
    selection: Option<Expr>,
) -> SetExpr {
    SetExpr::Select(Box::new(Select {
        distinct: false,
        top: None,
        projection,
        from,
        selection,
        group_by: vec![],
        having: None,
    }))
}

fn bare_query(body: SetExpr) -> Query {
    Query { ctes: vec![], body, order_by: vec![], limit: None, offset: None, fetch: None }
}

fn select_star_from_t1() -> Statement {
    Statement::Query(Box::new(bare_query(bare_select(
        vec![SelectItem::Wildcard],
        vec![table("t1")],
        None,
    ))))
}

#[test]
fn test_formatter() {
    let statements = vec![select_star_from_t1()];
    let output = formatter("SELECT * FROM t1", &statements, false, 100).unwrap();
    assert_eq!(output, "select * from t1;\n");
}

#[test]
fn test_render_statement() {
    let statement = Statement::Query(Box::new(bare_query(bare_select(
        vec![SelectItem::UnnamedExpr(num("42"))],
        vec![],
        None,
    ))));
    assert_eq!(render_statement(&statement, 100).unwrap(), "select 42".to_owned());
}

#[test]
fn test_format_statement() {
    let statement = Statement::Query(Box::new(bare_query(bare_select(
        vec![SelectItem::UnnamedExpr(num("42"))],
        vec![],
        None,
    ))));
    assert_eq!(
        format_statement("SELECT 42;", &statement, false, 100).unwrap(),
        "select 42;\n".to_owned()
    );
}

#[test]
fn test_format() {
    let sql_string = "select id from users where created_at > {{date}};".to_owned();
    let statement = Statement::Query(Box::new(bare_query(bare_select(
        vec![SelectItem::UnnamedExpr(id_expr("id"))],
        vec![table("users")],
        Some(Expr::BinaryOp {
            left: Box::new(id_expr("created_at")),
            op: BinaryOperator::Gt,
            right: Box::new(id_expr("{{date}}")),
        }),
    ))));
    assert_eq!(
        forma::format::format(&vec![statement], &sql_string, false, 100).unwrap(),
        vec!["select id from users where created_at > {{date}};\n".to_owned()]
    );
}

#[test]
fn test_format_check() {
    let sql_string = "select * from t1";
    let result = forma::format::format(&vec![select_star_from_t1()], sql_string, true, 100);
    assert_eq!(result.is_err(), true);
}

#[test]
fn wide_statement_stays_on_one_line() {
    let statement = select_star_from_t1();
    assert_eq!(prettify_statement(&statement, 100), "select * from t1");
}

#[test]
fn narrow_statement_breaks_clause_per_line() {
    // SELECT a, b FROM t WHERE a > 1 AND b < 2, at width 20.
    let selection = Expr::BinaryOp {
        left: Box::new(Expr::BinaryOp {
            left: Box::new(id_expr("a")),
            op: BinaryOperator::Gt,
            right: Box::new(num("1")),
        }),
        op: BinaryOperator::And,
        right: Box::new(Expr::BinaryOp {
            left: Box::new(id_expr("b")),
            op: BinaryOperator::Lt,
            right: Box::new(num("2")),
        }),
    };
    let statement = Statement::Query(Box::new(bare_query(bare_select(
        vec![
            SelectItem::UnnamedExpr(id_expr("a")),
            SelectItem::UnnamedExpr(id_expr("b")),
        ],
        vec![table("t")],
        Some(selection),
    ))));
    assert_eq!(
        prettify_statement(&statement, 20),
        "select\n  a,\n  b\nfrom\n  t\nwhere\n  a > 1\n  and b < 2"
    );
}

#[test]
fn in_list_stays_inline_when_it_fits() {
    // SELECT id FROM users WHERE id IN (1, 2, 3), at width 100.
    let statement = Statement::Query(Box::new(bare_query(bare_select(
        vec![SelectItem::UnnamedExpr(id_expr("id"))],
        vec![table("users")],
        Some(Expr::InList {
            expr: Box::new(id_expr("id")),
            list: vec![num("1"), num("2"), num("3")],
            negated: false,
        }),
    ))));
    assert_eq!(
        prettify_statement(&statement, 100),
        "select id from users where id in (1, 2, 3)"
    );
}

#[test]
fn cte_block_is_followed_by_a_blank_line() {
    // WITH c AS (SELECT 1) SELECT * FROM c, at width 100.
    let cte_query = bare_query(bare_select(vec![SelectItem::UnnamedExpr(num("1"))], vec![], None));
    let statement = Statement::Query(Box::new(Query {
        ctes: vec![Cte {
            alias: TableAlias { name: ident("c"), columns: vec![] },
            query: cte_query,
        }],
        body: bare_select(vec![SelectItem::Wildcard], vec![table("c")], None),
        order_by: vec![],
        limit: None,
        offset: None,
        fetch: None,
    }));
    assert_eq!(
        prettify_statement(&statement, 100),
        "with c as (select 1)\n\nselect * from c"
    );
}

#[test]
fn case_arms_break_even_when_very_wide() {
    // SELECT CASE WHEN a THEN 1 ELSE 2 END FROM t, at width 200.
    let case_expr = Expr::Case {
        operand: None,
        conditions: vec![id_expr("a")],
        results: vec![num("1")],
        else_result: Some(Box::new(num("2"))),
    };
    let statement = Statement::Query(Box::new(bare_query(bare_select(
        vec![SelectItem::UnnamedExpr(case_expr)],
        vec![table("t")],
        None,
    ))));
    let out = prettify_statement(&statement, 200);
    assert_eq!(
        out,
        "select\n  case\n    when a then 1\n    else 2\n  end\nfrom\n  t"
    );
}

#[test]
fn boolean_operator_breaks_even_when_very_wide() {
    // WHERE x AND y keeps `and` at the start of a line at width 10000.
    let statement = Statement::Query(Box::new(bare_query(bare_select(
        vec![SelectItem::Wildcard],
        vec![table("t")],
        Some(Expr::BinaryOp {
            left: Box::new(id_expr("x")),
            op: BinaryOperator::And,
            right: Box::new(id_expr("y")),
        }),
    ))));
    let out = prettify_statement(&statement, 10000);
    assert!(out.contains("\n  and y"));
    let and_line = out.lines().find(|l| l.contains("and")).unwrap();
    assert_eq!(and_line.trim_start(), "and y");
}

#[test]
fn rendering_is_deterministic() {
    let s1 = select_star_from_t1();
    let s2 = select_star_from_t1();
    assert_eq!(prettify_statement(&s1, 7), prettify_statement(&s2, 7));
    assert_eq!(prettify_statement(&s1, 100), prettify_statement(&s1, 100));
}

#[test]
fn every_line_fits_the_width_when_breaks_suffice() {
    let selection = Expr::BinaryOp {
        left: Box::new(Expr::BinaryOp {
            left: Box::new(id_expr("a")),
            op: BinaryOperator::Gt,
            right: Box::new(num("1")),
        }),
        op: BinaryOperator::And,
        right: Box::new(Expr::BinaryOp {
            left: Box::new(id_expr("b")),
            op: BinaryOperator::Lt,
            right: Box::new(num("2")),
        }),
    };
    let statement = Statement::Query(Box::new(bare_query(bare_select(
        vec![
            SelectItem::UnnamedExpr(id_expr("a")),
            SelectItem::UnnamedExpr(id_expr("b")),
        ],
        vec![table("t")],
        Some(selection),
    ))));
    let out = prettify_statement(&statement, 20);
    for l in out.lines() {
        assert!(l.chars().count() <= 20);
    }
}

#[test]
fn unsupported_statement_is_an_explicit_error() {
    let result = render_statement(&Statement::Unsupported, 100);
    assert!(matches!(result, Err(FormaError::UnsupportedStatement)));
    assert!(FormaError::UnsupportedStatement.message().len() > 0);
}

#[test]
fn function_names_are_lower_cased() {
    // SELECT COUNT(id) FROM t exercises the case folding of call names.
    let call = Expr::Function(forma::ast::Function {
        name: ObjectName(vec![ident("COUNT")]),
        args: vec![id_expr("id")],
        over: None,
        distinct: false,
    });
    let statement = Statement::Query(Box::new(bare_query(bare_select(
        vec![SelectItem::UnnamedExpr(call)],
        vec![table("t")],
        None,
    ))));
    assert_eq!(prettify_statement(&statement, 100), "select count(id) from t");
}

#[test]
fn cast_renders_type_name_and_length() {
    // CAST(a AS CHAR(10)) exercises the decimal rendering of counts.
    let cast = Expr::Cast {
        expr: Box::new(id_expr("a")),
        data_type: DataType::Char(Some(10)),
    };
    let statement = Statement::Query(Box::new(bare_query(bare_select(
        vec![SelectItem::UnnamedExpr(cast)],
        vec![table("t")],
        None,
    ))));
    assert_eq!(prettify_statement(&statement, 100), "select cast(a as char(10)) from t");
}

#[test]
fn multiple_statements_concatenate_in_order() {
    let s1 = Statement::Query(Box::new(bare_query(bare_select(
        vec![SelectItem::UnnamedExpr(num("1"))],
        vec![],
        None,
    ))));
    let s2 = Statement::Query(Box::new(bare_query(bare_select(
        vec![SelectItem::UnnamedExpr(num("2"))],
        vec![],
        None,
    ))));
    let out = formatter("", &vec![s1, s2], false, 100).unwrap();
    assert_eq!(out, "select 1;\nselect 2;\n");
}

#[test]
fn an_unsupported_statement_fails_the_whole_input() {
    let ok = select_star_from_t1();
    let result = formatter("", &vec![ok, Statement::Unsupported], false, 100);
    assert!(matches!(result, Err(FormaError::UnsupportedStatement)));
}
