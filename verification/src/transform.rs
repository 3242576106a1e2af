//! The AST-to-document transformers: a pure recursive map from the SQL
//! grammar onto layout documents. Keywords are canonicalized to lower
//! case; identifiers retain their source casing except for function
//! names and built-in type names, which are lower-cased.
use vstd::prelude::*;

use crate::ast::{
    BinaryOperator, Cte, DataType, DateTimeField, Expr, Fetch, Function, Ident, Join,
    JoinConstraint, JoinOperator, ListAgg, ListAggOnOverflow, ObjectName, Offset, OffsetRows,
    OrderByExpr, Query, QuoteStyle, Select, SelectItem, SetExpr, SetOperator, Statement, Top,
    TableAlias, TableFactor, TableWithJoins, UnaryOperator, Value, WindowFrame, WindowFrameBound,
    WindowFrameUnits, WindowSpec,
};
use crate::ast::{
    ctes_size, expr_size, exprs_size, fetch_size, join_constraint_size, join_operator_size,
    join_size, joins_size, listagg_overflow_size, offset_size, opt_box_expr_size, opt_expr_size,
    order_by_seq_size, order_by_size, query_size, rows_size, select_item_size, select_items_size,
    select_size, set_expr_size, table_factor_size, table_with_joins_seq_size,
    table_with_joins_size, top_size, window_size,
};
use crate::chars::{digits_text, lower_text, to_lowercase, u64_string};
use crate::layout::{add_sat, break_text, spec_render};
use crate::doc::{
    cat, group, hard_line, intersperse, interweave_comma, line, nest, nil, owned_text,
    parenthenized, text,
    docs_views, v_cat, v_group, v_intersperse, v_interweave_comma, v_nest, v_parenthenized,
    zero_line, Doc, DocV, SepKind,
};

verus! {

/// The characters of an identifier as rendered: its value inside its
/// original quoting.
pub open spec fn v_ident_text(i: Ident) -> Seq<char> {
    match i.quote {
        QuoteStyle::Plain => i.value@,
        QuoteStyle::Double => "\""@ + i.value@ + "\""@,
        QuoteStyle::Single => "'"@ + i.value@ + "'"@,
        QuoteStyle::Backtick => "`"@ + i.value@ + "`"@,
        QuoteStyle::Bracket => "["@ + i.value@ + "]"@,
    }
}

fn ident_string(i: &Ident) -> (r: String)
    ensures
        r@ == v_ident_text(*i),
{
    let (open_q, close_q) = match i.quote {
        QuoteStyle::Plain => ("", ""),
        QuoteStyle::Double => ("\"", "\""),
        QuoteStyle::Single => ("'", "'"),
        QuoteStyle::Backtick => ("`", "`"),
        QuoteStyle::Bracket => ("[", "]"),
    };
    let mut out = open_q.to_owned();
    out.append(i.value.as_str());
    out.append(close_q);
    proof {
        if i.quote is Plain {
            reveal_strlit("");
            assert(""@ =~= Seq::<char>::empty());
            assert(out@ =~= i.value@);
        }
    }
    out
}

/// Returns a document for the given identifier; its source casing is kept.
pub fn ident_doc(i: &Ident) -> (d: Doc)
    ensures
        d@ == DocV::Text(v_ident_text(*i)),
{
    owned_text(ident_string(i))
}

/// The characters of a possibly qualified name: its identifiers joined
/// with dots.
pub open spec fn v_object_name_text(ids: Seq<Ident>) -> Seq<char>
    decreases ids.len(),
{
    if ids.len() == 0 {
        Seq::empty()
    } else if ids.len() == 1 {
        v_ident_text(ids[0])
    } else {
        v_object_name_text(ids.drop_last()) + "."@ + v_ident_text(ids.last())
    }
}

fn object_name_string(ids: &Vec<Ident>) -> (r: String)
    ensures
        r@ == v_object_name_text(ids@),
{
    let mut out = String::new();
    let n = ids.len();
    let mut i: usize = 0;
    proof {
        assert(out@ =~= v_object_name_text(ids@.take(0)));
    }
    while i < n
        invariant
            i <= n,
            n == ids@.len(),
            out@ == v_object_name_text(ids@.take(i as int)),
        decreases n - i,
    {
        if i > 0 {
            out.append(".");
        }
        let part = ident_string(&ids[i]);
        out.append(part.as_str());
        i = i + 1;
        proof {
            assert(ids@.take(i as int).drop_last() =~= ids@.take(i - 1));
            assert(ids@.take(i as int).last() == ids@[i - 1]);
            if i == 1 {
                assert(out@ =~= v_object_name_text(ids@.take(1)));
            } else {
                assert(out@ =~= v_object_name_text(ids@.take(i - 1)) + "."@ + v_ident_text(
                    ids@[i - 1],
                ));
            }
        }
    }
    proof {
        assert(ids@.take(n as int) =~= ids@);
    }
    out
}

} // verus!

verus! {

/// The characters of a literal value. String contents are emitted as the
/// parser produced them, inside their quoting.
pub open spec fn v_value_text(v: Value) -> Seq<char> {
    match v {
        Value::Number(n) => n@,
        Value::SingleQuotedString(s) => "'"@ + s@ + "'"@,
        Value::NationalStringLiteral(s) => "N'"@ + s@ + "'"@,
        Value::HexStringLiteral(s) => "X'"@ + s@ + "'"@,
        Value::Boolean(b) => if b {
            "true"@
        } else {
            "false"@
        },
        Value::Null => "null"@,
    }
}

fn value_string(v: &Value) -> (r: String)
    ensures
        r@ == v_value_text(*v),
{
    match v {
        Value::Number(n) => n.clone(),
        Value::SingleQuotedString(s) => {
            let mut out = "'".to_owned();
            out.append(s.as_str());
            out.append("'");
            out
        },
        Value::NationalStringLiteral(s) => {
            let mut out = "N'".to_owned();
            out.append(s.as_str());
            out.append("'");
            out
        },
        Value::HexStringLiteral(s) => {
            let mut out = "X'".to_owned();
            out.append(s.as_str());
            out.append("'");
            out
        },
        Value::Boolean(b) => if *b {
            "true".to_owned()
        } else {
            "false".to_owned()
        },
        Value::Null => "null".to_owned(),
    }
}

/// The characters of a data type name, lower-cased; a custom type name is
/// an identifier and keeps its casing.
pub open spec fn v_data_type_text(dt: DataType) -> Seq<char> {
    match dt {
        DataType::Char(n) => match n {
            Some(k) => "char("@ + digits_text(k as int) + ")"@,
            None => "char"@,
        },
        DataType::Varchar(n) => match n {
            Some(k) => "character varying("@ + digits_text(k as int) + ")"@,
            None => "character varying"@,
        },
        DataType::Text => "text"@,
        DataType::Boolean => "boolean"@,
        DataType::SmallInt => "smallint"@,
        DataType::Int => "int"@,
        DataType::BigInt => "bigint"@,
        DataType::Float(n) => match n {
            Some(k) => "float("@ + digits_text(k as int) + ")"@,
            None => "float"@,
        },
        DataType::Real => "real"@,
        DataType::Double => "double"@,
        DataType::Decimal(p, s) => match (p, s) {
            (Some(pp), Some(ss)) => "numeric("@ + digits_text(pp as int) + ","@ + digits_text(
                ss as int,
            ) + ")"@,
            (Some(pp), None) => "numeric("@ + digits_text(pp as int) + ")"@,
            _ => "numeric"@,
        },
        DataType::Date => "date"@,
        DataType::Time => "time"@,
        DataType::Timestamp => "timestamp"@,
        DataType::Interval => "interval"@,
        DataType::Uuid => "uuid"@,
        DataType::Bytea => "bytea"@,
        DataType::Custom(name) => v_object_name_text(name.0@),
    }
}

fn data_type_string(dt: &DataType) -> (r: String)
    ensures
        r@ == v_data_type_text(*dt),
{
    match dt {
        DataType::Char(n) => match n {
            Some(k) => {
                let mut out = "char(".to_owned();
                let ks = u64_string(*k);
                out.append(ks.as_str());
                out.append(")");
                out
            },
            None => "char".to_owned(),
        },
        DataType::Varchar(n) => match n {
            Some(k) => {
                let mut out = "character varying(".to_owned();
                let ks = u64_string(*k);
                out.append(ks.as_str());
                out.append(")");
                out
            },
            None => "character varying".to_owned(),
        },
        DataType::Text => "text".to_owned(),
        DataType::Boolean => "boolean".to_owned(),
        DataType::SmallInt => "smallint".to_owned(),
        DataType::Int => "int".to_owned(),
        DataType::BigInt => "bigint".to_owned(),
        DataType::Float(n) => match n {
            Some(k) => {
                let mut out = "float(".to_owned();
                let ks = u64_string(*k);
                out.append(ks.as_str());
                out.append(")");
                out
            },
            None => "float".to_owned(),
        },
        DataType::Real => "real".to_owned(),
        DataType::Double => "double".to_owned(),
        DataType::Decimal(p, s) => match (p, s) {
            (Some(pp), Some(ss)) => {
                let mut out = "numeric(".to_owned();
                let ps = u64_string(*pp);
                out.append(ps.as_str());
                out.append(",");
                let ssx = u64_string(*ss);
                out.append(ssx.as_str());
                out.append(")");
                out
            },
            (Some(pp), None) => {
                let mut out = "numeric(".to_owned();
                let ps = u64_string(*pp);
                out.append(ps.as_str());
                out.append(")");
                out
            },
            _ => "numeric".to_owned(),
        },
        DataType::Date => "date".to_owned(),
        DataType::Time => "time".to_owned(),
        DataType::Timestamp => "timestamp".to_owned(),
        DataType::Interval => "interval".to_owned(),
        DataType::Uuid => "uuid".to_owned(),
        DataType::Bytea => "bytea".to_owned(),
        DataType::Custom(name) => object_name_string(&name.0),
    }
}

/// The lower-cased keyword of an extract field.
pub open spec fn v_field_text(f: DateTimeField) -> Seq<char> {
    match f {
        DateTimeField::Year => "year"@,
        DateTimeField::Month => "month"@,
        DateTimeField::Day => "day"@,
        DateTimeField::Hour => "hour"@,
        DateTimeField::Minute => "minute"@,
        DateTimeField::Second => "second"@,
    }
}

fn field_str(f: &DateTimeField) -> (r: &'static str)
    ensures
        r@ == v_field_text(*f),
{
    match f {
        DateTimeField::Year => "year",
        DateTimeField::Month => "month",
        DateTimeField::Day => "day",
        DateTimeField::Hour => "hour",
        DateTimeField::Minute => "minute",
        DateTimeField::Second => "second",
    }
}

/// The lower-cased keyword of a binary operator.
pub open spec fn v_binop_text(op: BinaryOperator) -> Seq<char> {
    match op {
        BinaryOperator::Plus => "+"@,
        BinaryOperator::Minus => "-"@,
        BinaryOperator::Multiply => "*"@,
        BinaryOperator::Divide => "/"@,
        BinaryOperator::Modulus => "%"@,
        BinaryOperator::StringConcat => "||"@,
        BinaryOperator::Gt => ">"@,
        BinaryOperator::Lt => "<"@,
        BinaryOperator::GtEq => ">="@,
        BinaryOperator::LtEq => "<="@,
        BinaryOperator::Eq => "="@,
        BinaryOperator::NotEq => "<>"@,
        BinaryOperator::And => "and"@,
        BinaryOperator::Or => "or"@,
        BinaryOperator::Like => "like"@,
        BinaryOperator::NotLike => "not like"@,
        BinaryOperator::BitwiseOr => "|"@,
        BinaryOperator::BitwiseAnd => "&"@,
        BinaryOperator::BitwiseXor => "^"@,
    }
}

fn binop_str(op: &BinaryOperator) -> (r: &'static str)
    ensures
        r@ == v_binop_text(*op),
{
    match op {
        BinaryOperator::Plus => "+",
        BinaryOperator::Minus => "-",
        BinaryOperator::Multiply => "*",
        BinaryOperator::Divide => "/",
        BinaryOperator::Modulus => "%",
        BinaryOperator::StringConcat => "||",
        BinaryOperator::Gt => ">",
        BinaryOperator::Lt => "<",
        BinaryOperator::GtEq => ">=",
        BinaryOperator::LtEq => "<=",
        BinaryOperator::Eq => "=",
        BinaryOperator::NotEq => "<>",
        BinaryOperator::And => "and",
        BinaryOperator::Or => "or",
        BinaryOperator::Like => "like",
        BinaryOperator::NotLike => "not like",
        BinaryOperator::BitwiseOr => "|",
        BinaryOperator::BitwiseAnd => "&",
        BinaryOperator::BitwiseXor => "^",
    }
}

/// Whether the operator starts a new line: true exactly for `and` and
/// `or`, whose chains are kept vertically scannable.
pub fn is_newline_op(op: &BinaryOperator) -> (r: bool)
    ensures
        r == (op is And || op is Or),
{
    match op {
        BinaryOperator::And => true,
        BinaryOperator::Or => true,
        _ => false,
    }
}

/// The characters of a table alias: its name and, if present, its column
/// list.
pub open spec fn v_table_alias_text(a: TableAlias) -> Seq<char>
    decreases a,
{
    if a.columns@.len() == 0 {
        v_ident_text(a.name)
    } else {
        v_ident_text(a.name) + " ("@ + v_ident_list_text(a.columns@) + ")"@
    }
}

/// Identifiers joined with a comma and a space.
pub open spec fn v_ident_list_text(ids: Seq<Ident>) -> Seq<char>
    decreases ids.len(),
{
    if ids.len() == 0 {
        Seq::empty()
    } else if ids.len() == 1 {
        v_ident_text(ids[0])
    } else {
        v_ident_list_text(ids.drop_last()) + ", "@ + v_ident_text(ids.last())
    }
}

fn ident_list_string(ids: &Vec<Ident>) -> (r: String)
    ensures
        r@ == v_ident_list_text(ids@),
{
    let mut out = String::new();
    let n = ids.len();
    let mut i: usize = 0;
    proof {
        assert(out@ =~= v_ident_list_text(ids@.take(0)));
    }
    while i < n
        invariant
            i <= n,
            n == ids@.len(),
            out@ == v_ident_list_text(ids@.take(i as int)),
        decreases n - i,
    {
        if i > 0 {
            out.append(", ");
        }
        let part = ident_string(&ids[i]);
        out.append(part.as_str());
        i = i + 1;
        proof {
            assert(ids@.take(i as int).drop_last() =~= ids@.take(i - 1));
            assert(ids@.take(i as int).last() == ids@[i - 1]);
            if i == 1 {
                assert(out@ =~= v_ident_list_text(ids@.take(1)));
            } else {
                assert(out@ =~= v_ident_list_text(ids@.take(i - 1)) + ", "@ + v_ident_text(
                    ids@[i - 1],
                ));
            }
        }
    }
    proof {
        assert(ids@.take(n as int) =~= ids@);
    }
    out
}

fn table_alias_string(a: &TableAlias) -> (r: String)
    ensures
        r@ == v_table_alias_text(*a),
{
    let mut out = ident_string(&a.name);
    if a.columns.len() > 0 {
        out.append(" (");
        let cols = ident_list_string(&a.columns);
        out.append(cols.as_str());
        out.append(")");
    }
    out
}

/// The characters of a window frame bound, lower-cased.
pub open spec fn v_frame_bound_text(b: WindowFrameBound) -> Seq<char> {
    match b {
        WindowFrameBound::CurrentRow => "current row"@,
        WindowFrameBound::Preceding(n) => match n {
            Some(k) => digits_text(k as int) + " preceding"@,
            None => "unbounded preceding"@,
        },
        WindowFrameBound::Following(n) => match n {
            Some(k) => digits_text(k as int) + " following"@,
            None => "unbounded following"@,
        },
    }
}

fn frame_bound_string(b: &WindowFrameBound) -> (r: String)
    ensures
        r@ == v_frame_bound_text(*b),
{
    match b {
        WindowFrameBound::CurrentRow => "current row".to_owned(),
        WindowFrameBound::Preceding(n) => match n {
            Some(k) => {
                let mut out = u64_string(*k);
                out.append(" preceding");
                out
            },
            None => "unbounded preceding".to_owned(),
        },
        WindowFrameBound::Following(n) => match n {
            Some(k) => {
                let mut out = u64_string(*k);
                out.append(" following");
                out
            },
            None => "unbounded following".to_owned(),
        },
    }
}

/// The lower-cased keyword of window frame units.
pub open spec fn v_frame_units_text(u: WindowFrameUnits) -> Seq<char> {
    match u {
        WindowFrameUnits::Rows => "rows"@,
        WindowFrameUnits::Range => "range"@,
        WindowFrameUnits::Groups => "groups"@,
    }
}

fn frame_units_str(u: &WindowFrameUnits) -> (r: &'static str)
    ensures
        r@ == v_frame_units_text(*u),
{
    match u {
        WindowFrameUnits::Rows => "rows",
        WindowFrameUnits::Range => "range",
        WindowFrameUnits::Groups => "groups",
    }
}

/// The lower-cased keyword of a set operation.
pub open spec fn v_set_op_text(op: SetOperator) -> Seq<char> {
    match op {
        SetOperator::Union => "union"@,
        SetOperator::Except => "except"@,
        SetOperator::Intersect => "intersect"@,
    }
}

fn set_op_str(op: &SetOperator) -> (r: &'static str)
    ensures
        r@ == v_set_op_text(*op),
{
    match op {
        SetOperator::Union => "union",
        SetOperator::Except => "except",
        SetOperator::Intersect => "intersect",
    }
}

} // verus!

verus! {

fn str2(a: &str, b: &str) -> (r: String)
    ensures
        r@ == a@ + b@,
{
    let mut s = a.to_owned();
    s.append(b);
    s
}

fn str3(a: &str, b: &str, c: &str) -> (r: String)
    ensures
        r@ == a@ + b@ + c@,
{
    let mut s = a.to_owned();
    s.append(b);
    s.append(c);
    s
}

fn str4(a: &str, b: &str, c: &str, d: &str) -> (r: String)
    ensures
        r@ == a@ + b@ + c@ + d@,
{
    let mut s = a.to_owned();
    s.append(b);
    s.append(c);
    s.append(d);
    s
}

/// The lower-cased text of a unary operator; `not` carries its own
/// trailing space so the operand follows it as a separate word.
pub open spec fn v_unop_text(op: UnaryOperator) -> Seq<char> {
    match op {
        UnaryOperator::Plus => "+"@,
        UnaryOperator::Minus => "-"@,
        UnaryOperator::Not => "not "@,
    }
}

fn unop_str(op: &UnaryOperator) -> (r: &'static str)
    ensures
        r@ == v_unop_text(*op),
{
    match op {
        UnaryOperator::Plus => "+",
        UnaryOperator::Minus => "-",
        UnaryOperator::Not => "not ",
    }
}

/// The document of a scalar expression.
pub open spec fn v_expr_doc(e: Expr) -> DocV
    decreases expr_size(e), 0int, 0int,
{
    match e {
        Expr::Identifier(i) => DocV::Text(v_ident_text(i)),
        Expr::Wildcard => DocV::Text("*"@),
        Expr::QualifiedWildcard(ids) => DocV::Text(v_object_name_text(ids@) + ".*"@),
        Expr::CompoundIdentifier(ids) => DocV::Text(v_object_name_text(ids@)),
        Expr::IsNull(a) => v_cat(v_expr_doc(*a), DocV::Text(" is null"@)),
        Expr::IsNotNull(a) => v_cat(v_expr_doc(*a), DocV::Text(" is not null"@)),
        Expr::InList { expr, list, negated } => v_cat(
            v_resolve_negation(*expr, negated),
            v_parenthenized(v_interweave_comma(v_exprs_docs(list@))),
        ),
        Expr::InSubquery { expr, subquery, negated } => v_cat(
            v_resolve_negation(*expr, negated),
            v_parenthenized(v_query_doc(*subquery)),
        ),
        Expr::Between { expr, negated, low, high } => v_cat(
            v_expr_doc(*expr),
            v_cat(
                DocV::Text(if negated { " not between "@ } else { " between "@ }),
                v_cat(v_expr_doc(*low), v_cat(DocV::Text(" and "@), v_expr_doc(*high))),
            ),
        ),
        Expr::BinaryOp { left, op, right } => if op is And || op is Or {
            v_cat(
                v_expr_doc(*left),
                v_cat(
                    DocV::HardLine,
                    v_cat(DocV::Text(v_binop_text(op) + " "@), v_expr_doc(*right)),
                ),
            )
        } else {
            v_cat(
                v_expr_doc(*left),
                v_cat(DocV::Text(" "@ + v_binop_text(op) + " "@), v_expr_doc(*right)),
            )
        },
        Expr::UnaryOp { op, expr } => v_cat(DocV::Text(v_unop_text(op)), v_expr_doc(*expr)),
        Expr::Cast { expr, data_type } => v_cat(
            DocV::Text("cast("@),
            v_cat(v_expr_doc(*expr), DocV::Text(" as "@ + v_data_type_text(data_type) + ")"@)),
        ),
        Expr::Extract { field, expr } => v_cat(
            DocV::Text("extract("@ + v_field_text(field) + " from "@),
            v_cat(v_expr_doc(*expr), DocV::Text(")"@)),
        ),
        Expr::Collate { expr, collation } => v_cat(
            v_expr_doc(*expr),
            DocV::Text(" collate "@ + v_object_name_text(collation.0@)),
        ),
        Expr::Nested(a) => v_cat(
            v_cat(
                v_nest(
                    2,
                    v_cat(
                        v_cat(DocV::Text("("@), v_group(DocV::ZeroLine)),
                        v_group(v_expr_doc(*a)),
                    ),
                ),
                v_group(DocV::ZeroLine),
            ),
            DocV::Text(")"@),
        ),
        Expr::Value(v) => DocV::Text(v_value_text(v)),
        Expr::TypedString { data_type, value } => DocV::Text(
            v_data_type_text(data_type) + " '"@ + value@ + "'"@,
        ),
        Expr::Function(f) => v_function_doc(f),
        Expr::Case { operand, conditions, results, else_result } => v_case_doc(
            operand,
            conditions@,
            results@,
            else_result,
        ),
        Expr::Exists(q) => v_cat(
            DocV::Text("exists"@),
            v_cat(v_group(DocV::Line), v_parenthenized(v_query_doc(*q))),
        ),
        Expr::Subquery(q) => v_cat(v_group(DocV::ZeroLine), v_parenthenized(v_query_doc(*q))),
        Expr::ListAgg(la) => v_listagg_doc(la),
    }
}

/// The documents of a sequence of expressions, in order.
pub open spec fn v_exprs_docs(s: Seq<Expr>) -> Seq<DocV>
    decreases exprs_size(s), 0int, 0int,
{
    if s.len() == 0 {
        Seq::empty()
    } else {
        v_exprs_docs(s.drop_last()).push(v_expr_doc(s.last()))
    }
}

/// The document of a possibly negated membership head: the expression,
/// `in` or `not in`, and a soft break before the parenthesized right side.
pub open spec fn v_resolve_negation(e: Expr, negated: bool) -> DocV
    decreases expr_size(e), 1int, 0int,
{
    v_cat(
        v_expr_doc(e),
        v_cat(
            DocV::Text(if negated { " not in"@ } else { " in"@ }),
            v_group(DocV::Line),
        ),
    )
}

/// The document of a function call.
pub open spec fn v_function_doc(f: Function) -> DocV
    decreases exprs_size(f.args@) + window_size(f.over), 1int, 0int,
{
    v_cat(
        DocV::Text(lower_text(v_object_name_text(f.name.0@))),
        v_cat(
            v_parenthenized(
                v_cat(
                    if f.distinct {
                        DocV::Text("distinct "@)
                    } else {
                        DocV::Nil
                    },
                    v_interweave_comma(v_exprs_docs(f.args@)),
                ),
            ),
            v_window_doc(f.over),
        ),
    )
}

/// The document of an `over (...)` window clause, or nothing.
pub open spec fn v_window_doc(w: Option<WindowSpec>) -> DocV
    decreases window_size(w), 0int, 0int,
{
    match w {
        None => DocV::Nil,
        Some(ws) => v_cat(
            DocV::Text(" over"@),
            v_parenthenized(
                v_cat(
                    if ws.partition_by@.len() == 0 {
                        DocV::Nil
                    } else {
                        v_cat(
                            DocV::Text("partition by "@),
                            v_cat(
                                v_interweave_comma(v_exprs_docs(ws.partition_by@)),
                                DocV::Text(" "@),
                            ),
                        )
                    },
                    v_cat(
                        if ws.order_by@.len() == 0 {
                            DocV::Nil
                        } else {
                            v_cat(
                                DocV::Text("order by "@),
                                v_interweave_comma(v_order_by_docs(ws.order_by@)),
                            )
                        },
                        v_frame_doc(ws.window_frame),
                    ),
                ),
            ),
        ),
    }
}

/// The characters of a window frame clause, lower-cased.
pub open spec fn v_frame_text(fr: WindowFrame) -> Seq<char> {
    v_frame_units_text(fr.units) + " between "@ + v_frame_bound_text(fr.start_bound) + match fr
        .end_bound {
        Some(b) => " and "@ + v_frame_bound_text(b),
        None => Seq::empty(),
    }
}

/// The document of a window frame, or nothing: a soft break and the
/// frame text.
pub open spec fn v_frame_doc(f: Option<WindowFrame>) -> DocV {
    match f {
        None => DocV::Nil,
        Some(fr) => v_cat(DocV::Line, DocV::Text(v_frame_text(fr))),
    }
}

/// The document of one `order by` element: the expression, then `asc` or
/// `desc`, then `nulls first` or `nulls last`, each after a soft break.
pub open spec fn v_order_by_doc(o: OrderByExpr) -> DocV
    decreases order_by_size(o), 0int, 0int,
{
    v_cat(
        v_cat(
            v_expr_doc(o.expr),
            match o.asc {
                Some(a) => v_cat(DocV::Line, DocV::Text(if a { "asc"@ } else { "desc"@ })),
                None => DocV::Nil,
            },
        ),
        match o.nulls_first {
            Some(nf) => v_cat(
                DocV::Line,
                DocV::Text(if nf { "nulls first"@ } else { "nulls last"@ }),
            ),
            None => DocV::Nil,
        },
    )
}

/// The documents of a sequence of `order by` elements, in order.
pub open spec fn v_order_by_docs(s: Seq<OrderByExpr>) -> Seq<DocV>
    decreases order_by_seq_size(s), 0int, 0int,
{
    if s.len() == 0 {
        Seq::empty()
    } else {
        v_order_by_docs(s.drop_last()).push(v_order_by_doc(s.last()))
    }
}

/// The document of one `when ... then ...` pair.
pub open spec fn v_when_doc(c: Expr, r: Expr) -> DocV
    decreases expr_size(c) + expr_size(r), 1int, 0int,
{
    v_cat(
        DocV::Text("when "@),
        v_cat(v_expr_doc(c), v_cat(DocV::Text(" then "@), v_expr_doc(r))),
    )
}

/// The documents of the first `i` `when`/`then` pairs.
pub open spec fn v_when_docs(cs: Seq<Expr>, rs: Seq<Expr>, i: int) -> Seq<DocV>
    decreases exprs_size(cs) + exprs_size(rs), 0int, i,
    via v_when_docs_decreases
{
    if i <= 0 || i > cs.len() || i > rs.len() {
        Seq::empty()
    } else {
        v_when_docs(cs, rs, i - 1).push(v_when_doc(cs[i - 1], rs[i - 1]))
    }
}

#[via_fn]
proof fn v_when_docs_decreases(cs: Seq<Expr>, rs: Seq<Expr>, i: int) {
    if !(i <= 0 || i > cs.len() || i > rs.len()) {
        crate::ast::lemma_exprs_size_elem(cs, i - 1);
        crate::ast::lemma_exprs_size_elem(rs, i - 1);
    }
}

/// The document of a `case` expression. The `when`/`then` pairs and the
/// `else` arm always stand on their own lines, indented two columns;
/// `end` returns to the enclosing indentation.
pub open spec fn v_case_doc(
    operand: Option<Box<Expr>>,
    cs: Seq<Expr>,
    rs: Seq<Expr>,
    els: Option<Box<Expr>>,
) -> DocV
    decreases opt_box_expr_size(operand) + exprs_size(cs) + exprs_size(rs) + opt_box_expr_size(
        els,
    ), 1int, 0int,
{
    let pairs = if cs.len() <= rs.len() {
        cs.len() as int
    } else {
        rs.len() as int
    };
    v_cat(
        DocV::Text("case"@),
        v_cat(
            match operand {
                Some(o) => v_cat(DocV::Text(" "@), v_expr_doc(*o)),
                None => DocV::Nil,
            },
            v_cat(
                v_nest(
                    2,
                    v_cat(
                        DocV::HardLine,
                        v_cat(
                            v_intersperse(
                                SepKind::HardBreak,
                                v_when_docs(cs, rs, pairs),
                            ),
                            match els {
                                Some(o) => v_cat(
                                    DocV::HardLine,
                                    v_cat(DocV::Text("else "@), v_expr_doc(*o)),
                                ),
                                None => DocV::Nil,
                            },
                        ),
                    ),
                ),
                v_cat(DocV::HardLine, DocV::Text("end"@)),
            ),
        ),
    )
}

/// The document of a `listagg(...)` call.
pub open spec fn v_listagg_doc(la: ListAgg) -> DocV
    decreases expr_size(*la.expr) + opt_box_expr_size(la.separator) + listagg_overflow_size(
        la.on_overflow,
    ) + order_by_seq_size(la.within_group@), 1int, 0int,
{
    v_cat(
        DocV::Text("listagg"@),
        v_cat(
            v_parenthenized(
                v_cat(
                    if la.distinct {
                        DocV::Text("distinct "@)
                    } else {
                        DocV::Nil
                    },
                    v_cat(
                        v_expr_doc(*la.expr),
                        v_cat(
                            match la.separator {
                                Some(s) => v_cat(DocV::Text(", "@), v_expr_doc(*s)),
                                None => DocV::Nil,
                            },
                            v_overflow_doc(la.on_overflow),
                        ),
                    ),
                ),
            ),
            if la.within_group@.len() == 0 {
                DocV::Nil
            } else {
                v_cat(
                    DocV::Line,
                    v_cat(
                        DocV::Text("within group (order by "@),
                        v_cat(
                            v_interweave_comma(v_order_by_docs(la.within_group@)),
                            DocV::Text(")"@),
                        ),
                    ),
                )
            },
        ),
    )
}

/// The document of a listagg overflow clause, or nothing.
pub open spec fn v_overflow_doc(o: Option<ListAggOnOverflow>) -> DocV
    decreases listagg_overflow_size(o), 0int, 0int,
{
    match o {
        None => DocV::Nil,
        Some(ListAggOnOverflow::Error) => DocV::Text(" on overflow error"@),
        Some(ListAggOnOverflow::Truncate { filler, with_count }) => v_cat(
            DocV::Text(" on overflow truncate"@),
            v_cat(
                match filler {
                    Some(f) => v_cat(DocV::Text(" "@), v_expr_doc(*f)),
                    None => DocV::Nil,
                },
                DocV::Text(
                    if with_count {
                        " with count"@
                    } else {
                        " without count"@
                    },
                ),
            ),
        ),
    }
}

} // verus!

verus! {

/// The document of a full query: optional CTE block, body, then the
/// trailing clauses, grouped as a unit. The blank line after the CTE block
/// and the breaks around set operators are unconditional.
pub open spec fn v_query_doc(q: Query) -> DocV
    decreases query_size(q), 0int, 0int,
{
    v_group(
        v_cat(
            v_cat(
                v_cat(
                    v_cat(
                        v_cat(
                            if q.ctes@.len() == 0 {
                                DocV::Nil
                            } else {
                                v_cat(
                                    v_nest(
                                        2,
                                        v_cat(
                                            DocV::Text("with "@),
                                            v_interweave_comma(v_cte_docs(q.ctes@)),
                                        ),
                                    ),
                                    v_cat(DocV::HardLine, DocV::HardLine),
                                )
                            },
                            v_body_doc(q.body),
                        ),
                        if q.order_by@.len() == 0 {
                            DocV::Nil
                        } else {
                            v_cat(
                                DocV::Line,
                                v_cat(
                                    v_cat(DocV::Text("order by"@), v_nest(2, DocV::Line)),
                                    v_group(
                                        v_nest(
                                            2,
                                            v_interweave_comma(v_order_by_docs(q.order_by@)),
                                        ),
                                    ),
                                ),
                            )
                        },
                    ),
                    match q.limit {
                        Some(l) => v_cat(
                            DocV::Line,
                            v_cat(
                                v_cat(DocV::Text("limit"@), v_nest(2, DocV::Line)),
                                v_expr_doc(l),
                            ),
                        ),
                        None => DocV::Nil,
                    },
                ),
                match q.offset {
                    Some(o) => v_cat(DocV::Line, v_offset_doc(o)),
                    None => DocV::Nil,
                },
            ),
            match q.fetch {
                Some(f) => v_cat(DocV::Line, v_fetch_doc(f)),
                None => DocV::Nil,
            },
        ),
    )
}

/// The document of one CTE: its alias, `as`, a soft break and the
/// parenthesized query.
pub open spec fn v_cte_doc(c: Cte) -> DocV
    decreases query_size(c.query), 1int, 0int,
{
    v_cat(
        DocV::Text(v_table_alias_text(c.alias) + " as"@),
        v_cat(v_group(DocV::Line), v_parenthenized(v_query_doc(c.query))),
    )
}

/// The documents of a sequence of CTEs, in order.
pub open spec fn v_cte_docs(s: Seq<Cte>) -> Seq<DocV>
    decreases ctes_size(s), 2int, 0int,
{
    if s.len() == 0 {
        Seq::empty()
    } else {
        v_cte_docs(s.drop_last()).push(v_cte_doc(s.last()))
    }
}

/// The document of an `offset` clause.
pub open spec fn v_offset_doc(o: Offset) -> DocV
    decreases expr_size(o.value), 1int, 0int,
{
    v_cat(
        v_cat(DocV::Text("offset "@), v_expr_doc(o.value)),
        DocV::Text(
            match o.rows {
                OffsetRows::Omitted => ""@,
                OffsetRows::Row => " row"@,
                OffsetRows::Rows => " rows"@,
            },
        ),
    )
}

/// The document of a `fetch` clause.
pub open spec fn v_fetch_doc(f: Fetch) -> DocV
    decreases opt_expr_size(f.quantity), 1int, 0int,
{
    let extension = if f.with_ties {
        "with ties"@
    } else {
        "only"@
    };
    match f.quantity {
        Some(q) => v_cat(
            v_cat(DocV::Text("fetch first "@), v_expr_doc(q)),
            DocV::Text(
                (if f.percent {
                    " percent"@
                } else {
                    Seq::<char>::empty()
                }) + " rows "@ + extension,
            ),
        ),
        None => DocV::Text("fetch first rows "@ + extension),
    }
}

/// The document of a query body.
pub open spec fn v_body_doc(se: SetExpr) -> DocV
    decreases set_expr_size(se), 0int, 0int,
{
    match se {
        SetExpr::Select(s) => v_group(v_select_doc(*s)),
        SetExpr::Query(q) => v_parenthenized(v_query_doc(*q)),
        SetExpr::SetOperation { op, all, left, right } => v_cat(
            v_body_doc(*left),
            v_cat(
                v_cat(
                    DocV::HardLine,
                    DocV::Text(
                        v_set_op_text(op) + if all {
                            " all"@
                        } else {
                            Seq::<char>::empty()
                        },
                    ),
                ),
                v_cat(DocV::HardLine, v_body_doc(*right)),
            ),
        ),
        SetExpr::Values(rows) => v_cat(
            DocV::Text("values "@),
            v_intersperse(SepKind::Adjacent, v_rows_docs(rows@)),
        ),
    }
}

/// The documents of the rows of a VALUES list: each row a parenthesized,
/// comma-interleaved list.
pub open spec fn v_rows_docs(s: Seq<Vec<Expr>>) -> Seq<DocV>
    decreases rows_size(s), 0int, 0int,
{
    if s.len() == 0 {
        Seq::empty()
    } else {
        v_rows_docs(s.drop_last()).push(
            v_parenthenized(v_interweave_comma(v_exprs_docs(s.last()@))),
        )
    }
}

/// The document of a SELECT core: the fixed clause order, each clause
/// introduced by a soft break and nested two columns.
pub open spec fn v_select_doc(s: Select) -> DocV
    decreases select_size(s), 1int, 0int,
{
    v_cat(
        v_cat(
            v_cat(
                v_cat(
                    v_cat(
                        v_cat(
                            if s.distinct {
                                DocV::Text("select distinct"@)
                            } else {
                                DocV::Text("select"@)
                            },
                            v_top_doc(s.top),
                        ),
                        v_cat(
                            v_nest(2, DocV::Line),
                            v_group(
                                v_nest(
                                    2,
                                    v_interweave_comma(v_select_items_docs(s.projection@)),
                                ),
                            ),
                        ),
                    ),
                    if s.from@.len() == 0 {
                        DocV::Nil
                    } else {
                        v_cat(
                            DocV::Line,
                            v_cat(
                                DocV::Text("from"@),
                                v_cat(
                                    v_nest(2, DocV::Line),
                                    v_group(
                                        v_nest(
                                            2,
                                            v_interweave_comma(v_twjs_docs(s.from@)),
                                        ),
                                    ),
                                ),
                            ),
                        )
                    },
                ),
                match s.selection {
                    Some(e) => v_cat(
                        DocV::Line,
                        v_cat(
                            DocV::Text("where"@),
                            v_cat(
                                v_nest(2, DocV::Line),
                                v_group(v_nest(2, v_expr_doc(e))),
                            ),
                        ),
                    ),
                    None => DocV::Nil,
                },
            ),
            if s.group_by@.len() == 0 {
                DocV::Nil
            } else {
                v_cat(
                    DocV::Line,
                    v_cat(
                        v_cat(DocV::Text("group by"@), v_nest(2, DocV::Line)),
                        v_group(v_nest(2, v_interweave_comma(v_exprs_docs(s.group_by@)))),
                    ),
                )
            },
        ),
        match s.having {
            Some(e) => v_cat(
                DocV::Line,
                v_cat(
                    v_cat(DocV::Text("having"@), v_nest(2, DocV::Line)),
                    v_group(v_nest(2, v_expr_doc(e))),
                ),
            ),
            None => DocV::Nil,
        },
    )
}

/// The document of a `top` clause, or nothing.
pub open spec fn v_top_doc(t: Option<Top>) -> DocV
    decreases top_size(t), 1int, 0int,
{
    match t {
        None => DocV::Nil,
        Some(top) => {
            let extension = if top.with_ties {
                " with ties"@
            } else {
                Seq::<char>::empty()
            };
            match top.quantity {
                Some(q) => v_cat(
                    v_cat(DocV::Text(" top ("@), v_expr_doc(q)),
                    DocV::Text(
                        (if top.percent {
                            " percent"@
                        } else {
                            Seq::<char>::empty()
                        }) + extension + ")"@,
                    ),
                ),
                None => DocV::Text(" top"@ + extension),
            }
        },
    }
}

/// The document of one projection element.
pub open spec fn v_select_item_doc(it: SelectItem) -> DocV
    decreases select_item_size(it), 0int, 0int,
{
    match it {
        SelectItem::UnnamedExpr(e) => v_expr_doc(e),
        SelectItem::ExprWithAlias { expr, alias } => v_cat(
            v_expr_doc(expr),
            DocV::Text(" as "@ + v_ident_text(alias)),
        ),
        SelectItem::QualifiedWildcard(name) => DocV::Text(v_object_name_text(name.0@) + ".*"@),
        SelectItem::Wildcard => DocV::Text("*"@),
    }
}

/// The documents of a projection list, in order.
pub open spec fn v_select_items_docs(s: Seq<SelectItem>) -> Seq<DocV>
    decreases select_items_size(s), 0int, 0int,
{
    if s.len() == 0 {
        Seq::empty()
    } else {
        v_select_items_docs(s.drop_last()).push(v_select_item_doc(s.last()))
    }
}

/// The document of one FROM item: the base relation, then its joins, each
/// on a soft break.
pub open spec fn v_twj_doc(t: TableWithJoins) -> DocV
    decreases table_with_joins_size(t), 1int, 0int,
{
    v_cat(
        v_relation_doc(t.relation),
        if t.joins@.len() == 0 {
            DocV::Nil
        } else {
            v_cat(DocV::Line, v_intersperse(SepKind::SoftLine, v_joins_docs(t.joins@)))
        },
    )
}

/// The documents of a FROM list, in order.
pub open spec fn v_twjs_docs(s: Seq<TableWithJoins>) -> Seq<DocV>
    decreases table_with_joins_seq_size(s), 0int, 0int,
{
    if s.len() == 0 {
        Seq::empty()
    } else {
        v_twjs_docs(s.drop_last()).push(v_twj_doc(s.last()))
    }
}

/// The document of a relation in a FROM clause.
pub open spec fn v_relation_doc(tf: TableFactor) -> DocV
    decreases table_factor_size(tf), 0int, 0int,
{
    match tf {
        TableFactor::Table { name, alias, args, with_hints } => v_cat(
            v_cat(
                v_cat(
                    DocV::Text(v_object_name_text(name.0@)),
                    if args@.len() == 0 {
                        DocV::Nil
                    } else {
                        v_parenthenized(v_interweave_comma(v_exprs_docs(args@)))
                    },
                ),
                match alias {
                    Some(a) => DocV::Text(" as "@ + v_table_alias_text(a)),
                    None => DocV::Nil,
                },
            ),
            if with_hints@.len() == 0 {
                DocV::Nil
            } else {
                v_cat(
                    DocV::Text(" with "@),
                    v_parenthenized(v_interweave_comma(v_exprs_docs(with_hints@))),
                )
            },
        ),
        TableFactor::Derived { lateral, subquery, alias } => v_cat(
            v_cat(
                DocV::Text(
                    if lateral {
                        "lateral "@
                    } else {
                        Seq::<char>::empty()
                    },
                ),
                v_parenthenized(v_query_doc(*subquery)),
            ),
            match alias {
                Some(a) => DocV::Text(" as "@ + v_table_alias_text(a)),
                None => DocV::Nil,
            },
        ),
        TableFactor::NestedJoin(twj) => v_cat(
            v_relation_doc(twj.relation),
            v_intersperse(SepKind::Adjacent, v_joins_docs(twj.joins@)),
        ),
    }
}

/// The documents of a join chain, in order.
pub open spec fn v_joins_docs(s: Seq<Join>) -> Seq<DocV>
    decreases joins_size(s), 0int, 0int,
{
    if s.len() == 0 {
        Seq::empty()
    } else {
        v_joins_docs(s.drop_last()).push(v_join_doc(s.last()))
    }
}

/// The document of one join: optional `natural`, the join keywords, the
/// relation and the constraint.
pub open spec fn v_join_doc(j: Join) -> DocV
    decreases join_size(j), 0int, 0int,
{
    match j.join_operator {
        JoinOperator::Inner(c) => v_cat(
            v_join_prefix_doc(c),
            v_cat(
                DocV::Text("join "@),
                v_cat(v_relation_doc(j.relation), v_join_suffix_doc(c)),
            ),
        ),
        JoinOperator::LeftOuter(c) => v_cat(
            v_join_prefix_doc(c),
            v_cat(
                DocV::Text("left join "@),
                v_cat(v_relation_doc(j.relation), v_join_suffix_doc(c)),
            ),
        ),
        JoinOperator::RightOuter(c) => v_cat(
            v_join_prefix_doc(c),
            v_cat(
                DocV::Text("right join "@),
                v_cat(v_relation_doc(j.relation), v_join_suffix_doc(c)),
            ),
        ),
        JoinOperator::FullOuter(c) => v_cat(
            v_join_prefix_doc(c),
            v_cat(
                DocV::Text("full join "@),
                v_cat(v_relation_doc(j.relation), v_join_suffix_doc(c)),
            ),
        ),
        JoinOperator::CrossJoin => v_cat(
            DocV::Text("cross join "@),
            v_relation_doc(j.relation),
        ),
        JoinOperator::CrossApply => v_cat(
            DocV::Text("cross apply "@),
            v_relation_doc(j.relation),
        ),
        JoinOperator::OuterApply => v_cat(
            DocV::Text("outer apply "@),
            v_relation_doc(j.relation),
        ),
    }
}

/// `natural ` before a natural join, nothing otherwise.
pub open spec fn v_join_prefix_doc(c: JoinConstraint) -> DocV {
    match c {
        JoinConstraint::Natural => DocV::Text("natural "@),
        _ => DocV::Nil,
    }
}

/// The constraint after a join: `on` with its expression or `using` with
/// its column list, each its own group after a soft break.
pub open spec fn v_join_suffix_doc(c: JoinConstraint) -> DocV
    decreases join_constraint_size(c), 0int, 0int,
{
    match c {
        JoinConstraint::On(e) => v_group(
            v_cat(DocV::Line, v_cat(DocV::Text("on "@), v_expr_doc(e))),
        ),
        JoinConstraint::Using(ids) => v_group(
            v_cat(
                DocV::Line,
                v_cat(
                    DocV::Text("using "@),
                    v_parenthenized(DocV::Text(v_ident_list_text(ids@))),
                ),
            ),
        ),
        JoinConstraint::Natural => DocV::Nil,
    }
}

/// The document of a statement in the supported grammar.
pub open spec fn v_statement_doc(st: Statement) -> DocV
    recommends
        st is Query,
{
    match st {
        Statement::Query(q) => v_query_doc(*q),
        Statement::Unsupported => DocV::Nil,
    }
}

} // verus!

verus! {

/// Returns a document from the given expression.
pub fn expr_doc(e: &Expr) -> (d: Doc)
    ensures
        d@ == v_expr_doc(*e),
    decreases expr_size(*e), 0int, 0int,
{
    match e {
        Expr::Identifier(i) => ident_doc(i),
        Expr::Wildcard => text("*"),
        Expr::QualifiedWildcard(ids) => {
            let n = object_name_string(ids);
            owned_text(str2(n.as_str(), ".*"))
        },
        Expr::CompoundIdentifier(ids) => owned_text(object_name_string(ids)),
        Expr::IsNull(a) => cat(expr_doc(&**a), text(" is null")),
        Expr::IsNotNull(a) => cat(expr_doc(&**a), text(" is not null")),
        Expr::InList { expr, list, negated } => cat(
            resolve_negation(&**expr, *negated),
            parenthenized(interweave_comma(exprs_docs(list))),
        ),
        Expr::InSubquery { expr, subquery, negated } => cat(
            resolve_negation(&**expr, *negated),
            parenthenized(query_doc(&**subquery)),
        ),
        Expr::Between { expr, negated, low, high } => cat(
            expr_doc(&**expr),
            cat(
                text(if *negated { " not between " } else { " between " }),
                cat(expr_doc(&**low), cat(text(" and "), expr_doc(&**high))),
            ),
        ),
        Expr::BinaryOp { left, op, right } => if is_newline_op(op) {
            cat(
                expr_doc(&**left),
                cat(hard_line(), cat(owned_text(str2(binop_str(op), " ")), expr_doc(&**right))),
            )
        } else {
            cat(
                expr_doc(&**left),
                cat(owned_text(str3(" ", binop_str(op), " ")), expr_doc(&**right)),
            )
        },
        Expr::UnaryOp { op, expr } => cat(text(unop_str(op)), expr_doc(&**expr)),
        Expr::Cast { expr, data_type } => {
            let dt = data_type_string(data_type);
            cat(text("cast("), cat(expr_doc(&**expr), owned_text(str3(" as ", dt.as_str(), ")"))))
        },
        Expr::Extract { field, expr } => cat(
            owned_text(str3("extract(", field_str(field), " from ")),
            cat(expr_doc(&**expr), text(")")),
        ),
        Expr::Collate { expr, collation } => {
            let n = object_name_string(&collation.0);
            cat(expr_doc(&**expr), owned_text(str2(" collate ", n.as_str())))
        },
        Expr::Nested(a) => cat(
            cat(
                nest(2, cat(cat(text("("), group(zero_line())), group(expr_doc(&**a)))),
                group(zero_line()),
            ),
            text(")"),
        ),
        Expr::Value(v) => owned_text(value_string(v)),
        Expr::TypedString { data_type, value } => {
            let dt = data_type_string(data_type);
            owned_text(str4(dt.as_str(), " '", value.as_str(), "'"))
        },
        Expr::Function(f) => function_doc(f),
        Expr::Case { operand, conditions, results, else_result } => case_doc(
            operand,
            conditions,
            results,
            else_result,
        ),
        Expr::Exists(q) => cat(
            text("exists"),
            cat(group(line()), parenthenized(query_doc(&**q))),
        ),
        Expr::Subquery(q) => cat(group(zero_line()), parenthenized(query_doc(&**q))),
        Expr::ListAgg(la) => listagg_doc(la),
    }
}

/// Returns documents for the given expressions, in order.
fn exprs_docs(es: &Vec<Expr>) -> (ds: Vec<Doc>)
    ensures
        docs_views(ds@) == v_exprs_docs(es@),
    decreases exprs_size(es@), 0int, 0int,
{
    let mut ds: Vec<Doc> = Vec::new();
    let n = es.len();
    let mut i: usize = 0;
    proof {
        assert(docs_views(ds@) =~= v_exprs_docs(es@.take(0)));
    }
    while i < n
        invariant
            i <= n,
            n == es@.len(),
            docs_views(ds@) == v_exprs_docs(es@.take(i as int)),
        decreases n - i,
    {
        proof {
            crate::ast::lemma_exprs_size_elem(es@, i as int);
        }
        let d = expr_doc(&es[i]);
        ds.push(d);
        i = i + 1;
        proof {
            assert(es@.take(i as int).drop_last() =~= es@.take(i - 1));
            assert(es@.take(i as int).last() == es@[i - 1]);
            assert(docs_views(ds@) =~= v_exprs_docs(es@.take(i - 1)).push(v_expr_doc(es@[i - 1])));
        }
    }
    proof {
        assert(es@.take(n as int) =~= es@);
    }
    ds
}

/// Resolves a possibly negated membership head to a document.
pub fn resolve_negation(e: &Expr, negated: bool) -> (d: Doc)
    ensures
        d@ == v_resolve_negation(*e, negated),
    decreases expr_size(*e), 1int, 0int,
{
    cat(
        expr_doc(e),
        cat(text(if negated { " not in" } else { " in" }), group(line())),
    )
}

fn function_doc(f: &Function) -> (d: Doc)
    ensures
        d@ == v_function_doc(*f),
    decreases exprs_size(f.args@) + window_size(f.over), 1int, 0int,
{
    let n = object_name_string(&f.name.0);
    let dist = if f.distinct {
        text("distinct ")
    } else {
        nil()
    };
    cat(
        owned_text(to_lowercase(n.as_str())),
        cat(
            parenthenized(cat(dist, interweave_comma(exprs_docs(&f.args)))),
            window_doc(&f.over),
        ),
    )
}

fn window_doc(w: &Option<WindowSpec>) -> (d: Doc)
    ensures
        d@ == v_window_doc(*w),
    decreases window_size(*w), 0int, 0int,
{
    match w {
        None => nil(),
        Some(ws) => {
            let pb = if ws.partition_by.len() == 0 {
                nil()
            } else {
                cat(
                    text("partition by "),
                    cat(interweave_comma(exprs_docs(&ws.partition_by)), text(" ")),
                )
            };
            let ob = if ws.order_by.len() == 0 {
                nil()
            } else {
                cat(text("order by "), interweave_comma(order_by_docs(&ws.order_by)))
            };
            cat(text(" over"), parenthenized(cat(pb, cat(ob, frame_doc(&ws.window_frame)))))
        },
    }
}

fn frame_string(fr: &WindowFrame) -> (r: String)
    ensures
        r@ == v_frame_text(*fr),
{
    let mut out = frame_units_str(&fr.units).to_owned();
    out.append(" between ");
    let sb = frame_bound_string(&fr.start_bound);
    out.append(sb.as_str());
    match &fr.end_bound {
        Some(b) => {
            out.append(" and ");
            let eb = frame_bound_string(b);
            out.append(eb.as_str());
        },
        None => {
            proof {
                assert(out@ =~= v_frame_text(*fr));
            }
        },
    }
    out
}

fn frame_doc(f: &Option<WindowFrame>) -> (d: Doc)
    ensures
        d@ == v_frame_doc(*f),
{
    match f {
        None => nil(),
        Some(fr) => cat(line(), owned_text(frame_string(fr))),
    }
}

/// Returns a document for one `order by` element.
pub fn order_by_doc(o: &OrderByExpr) -> (d: Doc)
    ensures
        d@ == v_order_by_doc(*o),
    decreases order_by_size(*o), 0int, 0int,
{
    let asc_part = match &o.asc {
        Some(a) => cat(line(), text(if *a { "asc" } else { "desc" })),
        None => nil(),
    };
    let nulls_part = match &o.nulls_first {
        Some(nf) => cat(line(), text(if *nf { "nulls first" } else { "nulls last" })),
        None => nil(),
    };
    cat(cat(expr_doc(&o.expr), asc_part), nulls_part)
}

fn order_by_docs(os: &Vec<OrderByExpr>) -> (ds: Vec<Doc>)
    ensures
        docs_views(ds@) == v_order_by_docs(os@),
    decreases order_by_seq_size(os@), 0int, 0int,
{
    let mut ds: Vec<Doc> = Vec::new();
    let n = os.len();
    let mut i: usize = 0;
    proof {
        assert(docs_views(ds@) =~= v_order_by_docs(os@.take(0)));
    }
    while i < n
        invariant
            i <= n,
            n == os@.len(),
            docs_views(ds@) == v_order_by_docs(os@.take(i as int)),
        decreases n - i,
    {
        proof {
            crate::ast::lemma_order_by_seq_size_elem(os@, i as int);
        }
        let d = order_by_doc(&os[i]);
        ds.push(d);
        i = i + 1;
        proof {
            assert(os@.take(i as int).drop_last() =~= os@.take(i - 1));
            assert(os@.take(i as int).last() == os@[i - 1]);
            assert(docs_views(ds@) =~= v_order_by_docs(os@.take(i - 1)).push(
                v_order_by_doc(os@[i - 1]),
            ));
        }
    }
    proof {
        assert(os@.take(n as int) =~= os@);
    }
    ds
}

fn when_docs(cs: &Vec<Expr>, rs: &Vec<Expr>, k: usize) -> (ds: Vec<Doc>)
    requires
        k <= cs@.len(),
        k <= rs@.len(),
    ensures
        docs_views(ds@) == v_when_docs(cs@, rs@, k as int),
    decreases exprs_size(cs@) + exprs_size(rs@), 0int, k as int,
{
    let mut ds: Vec<Doc> = Vec::new();
    let mut i: usize = 0;
    proof {
        assert(docs_views(ds@) =~= v_when_docs(cs@, rs@, 0));
    }
    while i < k
        invariant
            i <= k,
            k <= cs@.len(),
            k <= rs@.len(),
            docs_views(ds@) == v_when_docs(cs@, rs@, i as int),
        decreases k - i,
    {
        proof {
            crate::ast::lemma_exprs_size_elem(cs@, i as int);
            crate::ast::lemma_exprs_size_elem(rs@, i as int);
        }
        let d = cat(
            text("when "),
            cat(expr_doc(&cs[i]), cat(text(" then "), expr_doc(&rs[i]))),
        );
        ds.push(d);
        i = i + 1;
        proof {
            assert(d@ == v_when_doc(cs@[i - 1], rs@[i - 1]));
            assert(docs_views(ds@) =~= v_when_docs(cs@, rs@, i - 1).push(
                v_when_doc(cs@[i - 1], rs@[i - 1]),
            ));
        }
    }
    ds
}

fn case_doc(
    operand: &Option<Box<Expr>>,
    cs: &Vec<Expr>,
    rs: &Vec<Expr>,
    els: &Option<Box<Expr>>,
) -> (d: Doc)
    ensures
        d@ == v_case_doc(*operand, cs@, rs@, *els),
    decreases opt_box_expr_size(*operand) + exprs_size(cs@) + exprs_size(rs@) + opt_box_expr_size(
        *els,
    ), 1int, 0int,
{
    let pairs_n = if cs.len() <= rs.len() {
        cs.len()
    } else {
        rs.len()
    };
    let whens = when_docs(cs, rs, pairs_n);
    let op_part = match operand {
        Some(o) => cat(text(" "), expr_doc(&**o)),
        None => nil(),
    };
    let els_part = match els {
        Some(o) => cat(hard_line(), cat(text("else "), expr_doc(&**o))),
        None => nil(),
    };
    cat(
        text("case"),
        cat(
            op_part,
            cat(
                nest(
                    2,
                    cat(hard_line(), cat(intersperse(SepKind::HardBreak, whens), els_part)),
                ),
                cat(hard_line(), text("end")),
            ),
        ),
    )
}

fn listagg_doc(la: &ListAgg) -> (d: Doc)
    ensures
        d@ == v_listagg_doc(*la),
    decreases expr_size(*la.expr) + opt_box_expr_size(la.separator) + listagg_overflow_size(
        la.on_overflow,
    ) + order_by_seq_size(la.within_group@), 1int, 0int,
{
    let dist = if la.distinct {
        text("distinct ")
    } else {
        nil()
    };
    let sep_part = match &la.separator {
        Some(s) => cat(text(", "), expr_doc(&**s)),
        None => nil(),
    };
    let wg = if la.within_group.len() == 0 {
        nil()
    } else {
        cat(
            line(),
            cat(
                text("within group (order by "),
                cat(interweave_comma(order_by_docs(&la.within_group)), text(")")),
            ),
        )
    };
    cat(
        text("listagg"),
        cat(
            parenthenized(
                cat(dist, cat(expr_doc(&la.expr), cat(sep_part, overflow_doc(&la.on_overflow)))),
            ),
            wg,
        ),
    )
}

fn overflow_doc(o: &Option<ListAggOnOverflow>) -> (d: Doc)
    ensures
        d@ == v_overflow_doc(*o),
    decreases listagg_overflow_size(*o), 0int, 0int,
{
    match o {
        None => nil(),
        Some(ListAggOnOverflow::Error) => text(" on overflow error"),
        Some(ListAggOnOverflow::Truncate { filler, with_count }) => {
            let filler_part = match filler {
                Some(f) => cat(text(" "), expr_doc(&**f)),
                None => nil(),
            };
            cat(
                text(" on overflow truncate"),
                cat(filler_part, text(if *with_count { " with count" } else { " without count" })),
            )
        },
    }
}

} // verus!

verus! {

/// Transforms the given query into a document.
pub fn query_doc(q: &Query) -> (d: Doc)
    ensures
        d@ == v_query_doc(*q),
    decreases query_size(*q), 0int, 0int,
{
    let cte_part = if q.ctes.len() == 0 {
        nil()
    } else {
        cat(
            nest(2, cat(text("with "), interweave_comma(cte_docs(&q.ctes)))),
            cat(hard_line(), hard_line()),
        )
    };
    let ob_part = if q.order_by.len() == 0 {
        nil()
    } else {
        cat(
            line(),
            cat(
                cat(text("order by"), nest(2, line())),
                group(nest(2, interweave_comma(order_by_docs(&q.order_by)))),
            ),
        )
    };
    let limit_part = match &q.limit {
        Some(l) => cat(line(), cat(cat(text("limit"), nest(2, line())), expr_doc(l))),
        None => nil(),
    };
    let offset_part = match &q.offset {
        Some(o) => cat(line(), offset_doc(o)),
        None => nil(),
    };
    let fetch_part = match &q.fetch {
        Some(f) => cat(line(), fetch_doc(f)),
        None => nil(),
    };
    group(
        cat(
            cat(
                cat(cat(cat(cte_part, body_doc(&q.body)), ob_part), limit_part),
                offset_part,
            ),
            fetch_part,
        ),
    )
}

fn cte_doc(c: &Cte) -> (d: Doc)
    ensures
        d@ == v_cte_doc(*c),
    decreases query_size(c.query), 1int, 0int,
{
    let a = table_alias_string(&c.alias);
    cat(
        owned_text(str2(a.as_str(), " as")),
        cat(group(line()), parenthenized(query_doc(&c.query))),
    )
}

fn cte_docs(cs: &Vec<Cte>) -> (ds: Vec<Doc>)
    ensures
        docs_views(ds@) == v_cte_docs(cs@),
    decreases ctes_size(cs@), 2int, 0int,
{
    let mut ds: Vec<Doc> = Vec::new();
    let n = cs.len();
    let mut i: usize = 0;
    proof {
        assert(docs_views(ds@) =~= v_cte_docs(cs@.take(0)));
    }
    while i < n
        invariant
            i <= n,
            n == cs@.len(),
            docs_views(ds@) == v_cte_docs(cs@.take(i as int)),
        decreases n - i,
    {
        proof {
            crate::ast::lemma_ctes_size_elem(cs@, i as int);
        }
        let d = cte_doc(&cs[i]);
        ds.push(d);
        i = i + 1;
        proof {
            assert(cs@.take(i as int).drop_last() =~= cs@.take(i - 1));
            assert(cs@.take(i as int).last() == cs@[i - 1]);
            assert(docs_views(ds@) =~= v_cte_docs(cs@.take(i - 1)).push(v_cte_doc(cs@[i - 1])));
        }
    }
    proof {
        assert(cs@.take(n as int) =~= cs@);
    }
    ds
}

fn offset_doc(o: &Offset) -> (d: Doc)
    ensures
        d@ == v_offset_doc(*o),
    decreases expr_size(o.value), 1int, 0int,
{
    cat(
        cat(text("offset "), expr_doc(&o.value)),
        text(
            match o.rows {
                OffsetRows::Omitted => "",
                OffsetRows::Row => " row",
                OffsetRows::Rows => " rows",
            },
        ),
    )
}

fn fetch_doc(f: &Fetch) -> (d: Doc)
    ensures
        d@ == v_fetch_doc(*f),
    decreases opt_expr_size(f.quantity), 1int, 0int,
{
    let extension = if f.with_ties {
        "with ties"
    } else {
        "only"
    };
    match &f.quantity {
        Some(q) => {
            let tail = if f.percent {
                str3(" percent", " rows ", extension)
            } else {
                str2(" rows ", extension)
            };
            proof {
                if !f.percent {
                    assert((Seq::<char>::empty() + " rows "@) + extension@ =~= " rows "@
                        + extension@);
                }
            }
            cat(cat(text("fetch first "), expr_doc(q)), owned_text(tail))
        },
        None => owned_text(str2("fetch first rows ", extension)),
    }
}

/// Transforms the given query body into a document.
pub fn body_doc(se: &SetExpr) -> (d: Doc)
    ensures
        d@ == v_body_doc(*se),
    decreases set_expr_size(*se), 0int, 0int,
{
    match se {
        SetExpr::Select(s) => group(select_doc(&**s)),
        SetExpr::Query(q) => parenthenized(query_doc(&**q)),
        SetExpr::SetOperation { op, all, left, right } => {
            let kw = if *all {
                str2(set_op_str(op), " all")
            } else {
                set_op_str(op).to_owned()
            };
            proof {
                if !*all {
                    assert(v_set_op_text(*op) + Seq::<char>::empty() =~= v_set_op_text(*op));
                }
            }
            cat(
                body_doc(&**left),
                cat(cat(hard_line(), owned_text(kw)), cat(hard_line(), body_doc(&**right))),
            )
        },
        SetExpr::Values(rows) => cat(
            text("values "),
            intersperse(SepKind::Adjacent, rows_docs(rows)),
        ),
    }
}

fn rows_docs(rows: &Vec<Vec<Expr>>) -> (ds: Vec<Doc>)
    ensures
        docs_views(ds@) == v_rows_docs(rows@),
    decreases rows_size(rows@), 0int, 0int,
{
    let mut ds: Vec<Doc> = Vec::new();
    let n = rows.len();
    let mut i: usize = 0;
    proof {
        assert(docs_views(ds@) =~= v_rows_docs(rows@.take(0)));
    }
    while i < n
        invariant
            i <= n,
            n == rows@.len(),
            docs_views(ds@) == v_rows_docs(rows@.take(i as int)),
        decreases n - i,
    {
        proof {
            crate::ast::lemma_rows_size_elem(rows@, i as int);
        }
        let d = parenthenized(interweave_comma(exprs_docs(&rows[i])));
        ds.push(d);
        i = i + 1;
        proof {
            assert(rows@.take(i as int).drop_last() =~= rows@.take(i - 1));
            assert(rows@.take(i as int).last() == rows@[i - 1]);
            assert(docs_views(ds@) =~= v_rows_docs(rows@.take(i - 1)).push(
                v_parenthenized(v_interweave_comma(v_exprs_docs(rows@[i - 1]@))),
            ));
        }
    }
    proof {
        assert(rows@.take(n as int) =~= rows@);
    }
    ds
}

fn select_doc(s: &Select) -> (d: Doc)
    ensures
        d@ == v_select_doc(*s),
    decreases select_size(*s), 1int, 0int,
{
    let head = if s.distinct {
        text("select distinct")
    } else {
        text("select")
    };
    let projection = cat(
        nest(2, line()),
        group(nest(2, interweave_comma(select_items_docs(&s.projection)))),
    );
    let from_part = if s.from.len() == 0 {
        nil()
    } else {
        cat(
            line(),
            cat(
                text("from"),
                cat(nest(2, line()), group(nest(2, interweave_comma(twjs_docs(&s.from))))),
            ),
        )
    };
    let where_part = match &s.selection {
        Some(e) => cat(
            line(),
            cat(text("where"), cat(nest(2, line()), group(nest(2, expr_doc(e))))),
        ),
        None => nil(),
    };
    let gb_part = if s.group_by.len() == 0 {
        nil()
    } else {
        cat(
            line(),
            cat(
                cat(text("group by"), nest(2, line())),
                group(nest(2, interweave_comma(exprs_docs(&s.group_by)))),
            ),
        )
    };
    let having_part = match &s.having {
        Some(e) => cat(
            line(),
            cat(cat(text("having"), nest(2, line())), group(nest(2, expr_doc(e)))),
        ),
        None => nil(),
    };
    cat(
        cat(
            cat(
                cat(cat(cat(head, top_doc(&s.top)), projection), from_part),
                where_part,
            ),
            gb_part,
        ),
        having_part,
    )
}

fn top_doc(t: &Option<Top>) -> (d: Doc)
    ensures
        d@ == v_top_doc(*t),
    decreases top_size(*t), 1int, 0int,
{
    match t {
        None => nil(),
        Some(top) => {
            let extension = if top.with_ties {
                " with ties"
            } else {
                ""
            };
            proof {
                reveal_strlit("");
                assert(""@ =~= Seq::<char>::empty());
            }
            match &top.quantity {
                Some(q) => {
                    let tail = if top.percent {
                        str3(" percent", extension, ")")
                    } else {
                        str2(extension, ")")
                    };
                    proof {
                        if !top.percent {
                            assert((Seq::<char>::empty() + extension@) + ")"@ =~= extension@
                                + ")"@);
                        }
                    }
                    cat(cat(text(" top ("), expr_doc(q)), owned_text(tail))
                },
                None => owned_text(str2(" top", extension)),
            }
        },
    }
}

fn select_item_doc(it: &SelectItem) -> (d: Doc)
    ensures
        d@ == v_select_item_doc(*it),
    decreases select_item_size(*it), 0int, 0int,
{
    match it {
        SelectItem::UnnamedExpr(e) => expr_doc(e),
        SelectItem::ExprWithAlias { expr, alias } => {
            let a = ident_string(alias);
            cat(expr_doc(expr), owned_text(str2(" as ", a.as_str())))
        },
        SelectItem::QualifiedWildcard(name) => {
            let n = object_name_string(&name.0);
            owned_text(str2(n.as_str(), ".*"))
        },
        SelectItem::Wildcard => text("*"),
    }
}

fn select_items_docs(its: &Vec<SelectItem>) -> (ds: Vec<Doc>)
    ensures
        docs_views(ds@) == v_select_items_docs(its@),
    decreases select_items_size(its@), 0int, 0int,
{
    let mut ds: Vec<Doc> = Vec::new();
    let n = its.len();
    let mut i: usize = 0;
    proof {
        assert(docs_views(ds@) =~= v_select_items_docs(its@.take(0)));
    }
    while i < n
        invariant
            i <= n,
            n == its@.len(),
            docs_views(ds@) == v_select_items_docs(its@.take(i as int)),
        decreases n - i,
    {
        proof {
            crate::ast::lemma_select_items_size_elem(its@, i as int);
        }
        let d = select_item_doc(&its[i]);
        ds.push(d);
        i = i + 1;
        proof {
            assert(its@.take(i as int).drop_last() =~= its@.take(i - 1));
            assert(its@.take(i as int).last() == its@[i - 1]);
            assert(docs_views(ds@) =~= v_select_items_docs(its@.take(i - 1)).push(
                v_select_item_doc(its@[i - 1]),
            ));
        }
    }
    proof {
        assert(its@.take(n as int) =~= its@);
    }
    ds
}

fn twj_doc(t: &TableWithJoins) -> (d: Doc)
    ensures
        d@ == v_twj_doc(*t),
    decreases table_with_joins_size(*t), 1int, 0int,
{
    let joins_part = if t.joins.len() == 0 {
        nil()
    } else {
        cat(line(), intersperse(SepKind::SoftLine, joins_docs(&t.joins)))
    };
    cat(relation_doc(&t.relation), joins_part)
}

fn twjs_docs(ts: &Vec<TableWithJoins>) -> (ds: Vec<Doc>)
    ensures
        docs_views(ds@) == v_twjs_docs(ts@),
    decreases table_with_joins_seq_size(ts@), 0int, 0int,
{
    let mut ds: Vec<Doc> = Vec::new();
    let n = ts.len();
    let mut i: usize = 0;
    proof {
        assert(docs_views(ds@) =~= v_twjs_docs(ts@.take(0)));
    }
    while i < n
        invariant
            i <= n,
            n == ts@.len(),
            docs_views(ds@) == v_twjs_docs(ts@.take(i as int)),
        decreases n - i,
    {
        proof {
            crate::ast::lemma_table_with_joins_seq_size_elem(ts@, i as int);
        }
        let d = twj_doc(&ts[i]);
        ds.push(d);
        i = i + 1;
        proof {
            assert(ts@.take(i as int).drop_last() =~= ts@.take(i - 1));
            assert(ts@.take(i as int).last() == ts@[i - 1]);
            assert(docs_views(ds@) =~= v_twjs_docs(ts@.take(i - 1)).push(v_twj_doc(ts@[i - 1])));
        }
    }
    proof {
        assert(ts@.take(n as int) =~= ts@);
    }
    ds
}

fn relation_doc(tf: &TableFactor) -> (d: Doc)
    ensures
        d@ == v_relation_doc(*tf),
    decreases table_factor_size(*tf), 0int, 0int,
{
    match tf {
        TableFactor::Table { name, alias, args, with_hints } => {
            let args_part = if args.len() == 0 {
                nil()
            } else {
                parenthenized(interweave_comma(exprs_docs(args)))
            };
            let alias_part = match alias {
                Some(a) => {
                    let at = table_alias_string(a);
                    owned_text(str2(" as ", at.as_str()))
                },
                None => nil(),
            };
            let hints_part = if with_hints.len() == 0 {
                nil()
            } else {
                cat(text(" with "), parenthenized(interweave_comma(exprs_docs(with_hints))))
            };
            cat(
                cat(
                    cat(owned_text(object_name_string(&name.0)), args_part),
                    alias_part,
                ),
                hints_part,
            )
        },
        TableFactor::Derived { lateral, subquery, alias } => {
            let alias_part = match alias {
                Some(a) => {
                    let at = table_alias_string(a);
                    owned_text(str2(" as ", at.as_str()))
                },
                None => nil(),
            };
            let head = if *lateral {
                text("lateral ")
            } else {
                text("")
            };
            proof {
                if !*lateral {
                    reveal_strlit("");
                    assert(""@ =~= Seq::<char>::empty());
                }
            }
            cat(cat(head, parenthenized(query_doc(&**subquery))), alias_part)
        },
        TableFactor::NestedJoin(twj) => cat(
            relation_doc(&twj.relation),
            intersperse(SepKind::Adjacent, joins_docs(&twj.joins)),
        ),
    }
}

fn joins_docs(js: &Vec<Join>) -> (ds: Vec<Doc>)
    ensures
        docs_views(ds@) == v_joins_docs(js@),
    decreases joins_size(js@), 0int, 0int,
{
    let mut ds: Vec<Doc> = Vec::new();
    let n = js.len();
    let mut i: usize = 0;
    proof {
        assert(docs_views(ds@) =~= v_joins_docs(js@.take(0)));
    }
    while i < n
        invariant
            i <= n,
            n == js@.len(),
            docs_views(ds@) == v_joins_docs(js@.take(i as int)),
        decreases n - i,
    {
        proof {
            crate::ast::lemma_joins_size_elem(js@, i as int);
        }
        let d = join_doc(&js[i]);
        ds.push(d);
        i = i + 1;
        proof {
            assert(js@.take(i as int).drop_last() =~= js@.take(i - 1));
            assert(js@.take(i as int).last() == js@[i - 1]);
            assert(docs_views(ds@) =~= v_joins_docs(js@.take(i - 1)).push(v_join_doc(js@[i - 1])));
        }
    }
    proof {
        assert(js@.take(n as int) =~= js@);
    }
    ds
}

fn join_doc(j: &Join) -> (d: Doc)
    ensures
        d@ == v_join_doc(*j),
    decreases join_size(*j), 0int, 0int,
{
    match &j.join_operator {
        JoinOperator::Inner(c) => cat(
            join_prefix_doc(c),
            cat(text("join "), cat(relation_doc(&j.relation), join_suffix_doc(c))),
        ),
        JoinOperator::LeftOuter(c) => cat(
            join_prefix_doc(c),
            cat(text("left join "), cat(relation_doc(&j.relation), join_suffix_doc(c))),
        ),
        JoinOperator::RightOuter(c) => cat(
            join_prefix_doc(c),
            cat(text("right join "), cat(relation_doc(&j.relation), join_suffix_doc(c))),
        ),
        JoinOperator::FullOuter(c) => cat(
            join_prefix_doc(c),
            cat(text("full join "), cat(relation_doc(&j.relation), join_suffix_doc(c))),
        ),
        JoinOperator::CrossJoin => cat(text("cross join "), relation_doc(&j.relation)),
        JoinOperator::CrossApply => cat(text("cross apply "), relation_doc(&j.relation)),
        JoinOperator::OuterApply => cat(text("outer apply "), relation_doc(&j.relation)),
    }
}

fn join_prefix_doc(c: &JoinConstraint) -> (d: Doc)
    ensures
        d@ == v_join_prefix_doc(*c),
{
    match c {
        JoinConstraint::Natural => text("natural "),
        _ => nil(),
    }
}

fn join_suffix_doc(c: &JoinConstraint) -> (d: Doc)
    ensures
        d@ == v_join_suffix_doc(*c),
    decreases join_constraint_size(*c), 0int, 0int,
{
    match c {
        JoinConstraint::On(e) => group(cat(line(), cat(text("on "), expr_doc(e)))),
        JoinConstraint::Using(ids) => {
            let l = ident_list_string(ids);
            group(cat(line(), cat(text("using "), parenthenized(owned_text(l)))))
        },
        JoinConstraint::Natural => nil(),
    }
}

} // verus!

verus! {

/// Forced breaks: an `and`/`or` chain always places the operator at the
/// start of a new line. At every width, in every mode and under every
/// continuation, the rendered text of such an expression is the left
/// operand's text, then a newline and the active indentation, then the
/// lower-cased operator keyword and a space, then the rest -- so the
/// operator keyword opens its line no matter how wide the line may be.
pub proof fn lemma_forced_break_binop(
    col: usize,
    w: usize,
    rest: Seq<crate::layout::ItemV>,
    ind: usize,
    flat: bool,
    op: BinaryOperator,
    l: Expr,
    r: Expr,
) -> (pre: Seq<char>)
    requires
        op is And || op is Or,
    ensures
        spec_render(
            col,
            w,
            rest.push(
                (
                    ind,
                    flat,
                    v_expr_doc(Expr::BinaryOp { left: Box::new(l), op, right: Box::new(r) }),
                ),
            ),
        ) == pre + break_text(ind) + (v_binop_text(op) + " "@) + spec_render(
            add_sat(ind as int, (v_binop_text(op) + " "@).len() as int),
            w,
            rest.push((ind, flat, v_expr_doc(r))),
        ),
{
    let kw_sp = v_binop_text(op) + " "@;
    let e = Expr::BinaryOp { left: Box::new(l), op, right: Box::new(r) };
    let tail = v_cat(DocV::Text(kw_sp), v_expr_doc(r));
    let mid = v_cat(DocV::HardLine, tail);
    let and_doc = v_expr_doc(e);
    assert(and_doc == v_cat(v_expr_doc(l), mid));
    let s0 = rest.push((ind, flat, and_doc));
    assert(s0.drop_last() =~= rest);
    assert(spec_render(col, w, s0) == spec_render(
        col,
        w,
        rest.push((ind, flat, mid)).push((ind, flat, v_expr_doc(l))),
    ));
    assert(rest.push((ind, flat, mid)).push((ind, flat, v_expr_doc(l))) =~= rest.push(
        (ind, flat, mid),
    ) + seq![(ind, flat, v_expr_doc(l))]);
    let pre = crate::layout::lemma_render_before_hard_break_independent(
        col,
        w,
        rest,
        rest,
        ind,
        flat,
        tail,
        seq![(ind, flat, v_expr_doc(l))],
    );
    let s1 = rest.push((ind, flat, tail));
    assert(s1.drop_last() =~= rest);
    assert(spec_render(ind, w, s1) == spec_render(
        ind,
        w,
        rest.push((ind, flat, v_expr_doc(r))).push((ind, flat, DocV::Text(kw_sp))),
    ));
    let s2 = rest.push((ind, flat, v_expr_doc(r))).push((ind, flat, DocV::Text(kw_sp)));
    assert(s2.drop_last() =~= rest.push((ind, flat, v_expr_doc(r))));
    assert(spec_render(ind, w, s2) == kw_sp + spec_render(
        add_sat(ind as int, kw_sp.len() as int),
        w,
        rest.push((ind, flat, v_expr_doc(r))),
    ));
    assert(pre + break_text(ind) + spec_render(ind, w, s1) =~= pre + break_text(ind) + kw_sp
        + spec_render(
        add_sat(ind as int, kw_sp.len() as int),
        w,
        rest.push((ind, flat, v_expr_doc(r))),
    ));
    pre
}

} // verus!
