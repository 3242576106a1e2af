// Formatting is idempotent: re-parsing already-formatted output and
// re-rendering it at the same width reproduces it exactly. The external
// parser supplies the round trip; a small conversion maps its tree onto
// the library's grammar.
use sqlparser::ast as sqlast;
use sqlparser::parser::Parser;

use forma::ast::{
    BinaryOperator, Cte, Expr, Ident, ObjectName, Query, QuoteStyle, Select, SelectItem, SetExpr,
    Statement, TableAlias, TableFactor, TableWithJoins, Value,
};
use forma::prettify_statement;
use forma::TemplatedDialect;

#[derive(Debug)]
struct RtDialect;

impl sqlparser::dialect::Dialect for RtDialect {
    fn is_identifier_start(&self, ch: char) -> bool {
        TemplatedDialect {}.is_identifier_start(ch)
    }

    fn is_identifier_part(&self, ch: char) -> bool {
        TemplatedDialect {}.is_identifier_part(ch)
    }
}

fn rt_ident(i: &sqlast::Ident) -> Ident {
    assert!(i.quote_style.is_none());
    Ident { value: i.value.clone(), quote: QuoteStyle::Plain }
}

fn rt_object_name(n: &sqlast::ObjectName) -> ObjectName {
    ObjectName(
        n.0.iter()
            .map(|p| match p {
                sqlast::ObjectNamePart::Identifier(i) => rt_ident(i),
                _ => panic!("unsupported name part"),
            })
            .collect(),
    )
}

fn rt_expr(e: &sqlast::Expr) -> Expr {
    match e {
        sqlast::Expr::Identifier(i) => Expr::Identifier(rt_ident(i)),
        sqlast::Expr::CompoundIdentifier(ids) => Expr::CompoundIdentifier(
            ids.iter().map(rt_ident).collect(),
        ),
        sqlast::Expr::BinaryOp { left, op, right } => {
            let op = match op {
                sqlast::BinaryOperator::Gt => BinaryOperator::Gt,
                sqlast::BinaryOperator::Lt => BinaryOperator::Lt,
                sqlast::BinaryOperator::Eq => BinaryOperator::Eq,
                sqlast::BinaryOperator::And => BinaryOperator::And,
                sqlast::BinaryOperator::Or => BinaryOperator::Or,
                _ => panic!("unsupported operator"),
            };
            Expr::BinaryOp {
                left: Box::new(rt_expr(left)),
                op,
                right: Box::new(rt_expr(right)),
            }
        },
        sqlast::Expr::InList { expr, list, negated } => Expr::InList {
            expr: Box::new(rt_expr(expr)),
            list: list.iter().map(rt_expr).collect(),
            negated: *negated,
        },
        sqlast::Expr::Value(v) => match &v.value {
            sqlast::Value::Number(n, _) => Expr::Value(Value::Number(n.clone())),
            _ => panic!("unsupported value"),
        },
        _ => panic!("unsupported expression"),
    }
}

fn rt_relation(tf: &sqlast::TableFactor) -> TableFactor {
    match tf {
        sqlast::TableFactor::Table { name, alias, .. } => {
            assert!(alias.is_none());
            TableFactor::Table {
                name: rt_object_name(name),
                alias: None,
                args: vec![],
                with_hints: vec![],
            }
        },
        _ => panic!("unsupported relation"),
    }
}

fn rt_select(s: &sqlast::Select) -> Select {
    assert!(s.distinct.is_none());
    assert!(s.top.is_none());
    let projection = s
        .projection
        .iter()
        .map(|it| match it {
            sqlast::SelectItem::UnnamedExpr(e) => SelectItem::UnnamedExpr(rt_expr(e)),
            sqlast::SelectItem::Wildcard(_) => SelectItem::Wildcard,
            _ => panic!("unsupported projection item"),
        })
        .collect();
    let from = s
        .from
        .iter()
        .map(|twj| {
            assert!(twj.joins.is_empty());
            TableWithJoins { relation: rt_relation(&twj.relation), joins: vec![] }
        })
        .collect();
    Select {
        distinct: false,
        top: None,
        projection,
        from,
        selection: s.selection.as_ref().map(rt_expr),
        group_by: vec![],
        having: s.having.as_ref().map(rt_expr),
    }
}

fn rt_query(q: &sqlast::Query) -> Query {
    assert!(q.order_by.is_none());
    assert!(q.limit_clause.is_none());
    assert!(q.fetch.is_none());
    let ctes = match &q.with {
        None => vec![],
        Some(w) => w
            .cte_tables
            .iter()
            .map(|c| Cte {
                alias: TableAlias { name: rt_ident(&c.alias.name), columns: vec![] },
                query: rt_query(&c.query),
            })
            .collect(),
    };
    let body = match &*q.body {
        sqlast::SetExpr::Select(s) => SetExpr::Select(Box::new(rt_select(s))),
        _ => panic!("unsupported query body"),
    };
    Query { ctes, body, order_by: vec![], limit: None, offset: None, fetch: None }
}

fn rt_parse(sql: &str) -> Statement {
    let parsed = Parser::parse_sql(&RtDialect, sql).unwrap();
    assert_eq!(parsed.len(), 1);
    match &parsed[0] {
        sqlast::Statement::Query(q) => Statement::Query(Box::new(rt_query(q))),
        _ => panic!("unsupported statement"),
    }
}

fn rt_round_trip(formatted: &str, width: usize) {
    let statement = rt_parse(formatted);
    assert_eq!(prettify_statement(&statement, width), formatted);
}

#[test]
fn reformatting_formatted_output_is_identity_when_flat() {
    rt_round_trip("select * from t1", 100);
    rt_round_trip("select id from users where id in (1, 2, 3)", 100);
}

#[test]
fn reformatting_formatted_output_is_identity_when_broken() {
    rt_round_trip("select\n  a,\n  b\nfrom\n  t\nwhere\n  a > 1\n  and b < 2", 20);
}

#[test]
fn reformatting_formatted_output_is_identity_with_ctes() {
    rt_round_trip("with c as (select 1)\n\nselect * from c", 100);
}
