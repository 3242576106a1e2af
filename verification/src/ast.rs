//! The statement grammar the formatter understands: the SELECT-family
//! query shapes and the scalar-expression tree, held as plain values.
//!
//! The external parser's output is converted into these types before
//! rendering; a construct outside this grammar is rejected at that
//! boundary rather than approximated.
use vstd::prelude::*;

verus! {

/// How an identifier was quoted in the source.
pub enum QuoteStyle {
    Plain,
    Double,
    Single,
    Backtick,
    Bracket,
}

/// An identifier with its quoting. The value retains its source casing.
pub struct Ident {
    pub value: String,
    pub quote: QuoteStyle,
}

/// A possibly qualified name: one or more identifiers joined by dots.
pub struct ObjectName(pub Vec<Ident>);

/// A literal value. The string content is held as the parser produced it.
pub enum Value {
    Number(String),
    SingleQuotedString(String),
    NationalStringLiteral(String),
    HexStringLiteral(String),
    Boolean(bool),
    Null,
}

/// A SQL data type, as used by `cast` and typed string literals.
pub enum DataType {
    Char(Option<u64>),
    Varchar(Option<u64>),
    Text,
    Boolean,
    SmallInt,
    Int,
    BigInt,
    Float(Option<u64>),
    Real,
    Double,
    Decimal(Option<u64>, Option<u64>),
    Date,
    Time,
    Timestamp,
    Interval,
    Uuid,
    Bytea,
    Custom(ObjectName),
}

/// The field extracted by `extract(field from expr)`.
pub enum DateTimeField {
    Year,
    Month,
    Day,
    Hour,
    Minute,
    Second,
}

/// A binary operator. `And` and `Or` force a line break before the
/// operator keyword; every other operator stays inline.
pub enum BinaryOperator {
    Plus,
    Minus,
    Multiply,
    Divide,
    Modulus,
    StringConcat,
    Gt,
    Lt,
    GtEq,
    LtEq,
    Eq,
    NotEq,
    And,
    Or,
    Like,
    NotLike,
    BitwiseOr,
    BitwiseAnd,
    BitwiseXor,
}

/// A unary operator.
pub enum UnaryOperator {
    Plus,
    Minus,
    Not,
}

/// A scalar expression.
pub enum Expr {
    Identifier(Ident),
    Wildcard,
    QualifiedWildcard(Vec<Ident>),
    CompoundIdentifier(Vec<Ident>),
    IsNull(Box<Expr>),
    IsNotNull(Box<Expr>),
    InList { expr: Box<Expr>, list: Vec<Expr>, negated: bool },
    InSubquery { expr: Box<Expr>, subquery: Box<Query>, negated: bool },
    Between { expr: Box<Expr>, negated: bool, low: Box<Expr>, high: Box<Expr> },
    BinaryOp { left: Box<Expr>, op: BinaryOperator, right: Box<Expr> },
    UnaryOp { op: UnaryOperator, expr: Box<Expr> },
    Cast { expr: Box<Expr>, data_type: DataType },
    Extract { field: DateTimeField, expr: Box<Expr> },
    Collate { expr: Box<Expr>, collation: ObjectName },
    Nested(Box<Expr>),
    Value(Value),
    TypedString { data_type: DataType, value: String },
    Function(Function),
    Case {
        operand: Option<Box<Expr>>,
        conditions: Vec<Expr>,
        results: Vec<Expr>,
        else_result: Option<Box<Expr>>,
    },
    Exists(Box<Query>),
    Subquery(Box<Query>),
    ListAgg(ListAgg),
}

/// A function call, with optional `distinct` and an optional window.
pub struct Function {
    pub name: ObjectName,
    pub args: Vec<Expr>,
    pub over: Option<WindowSpec>,
    pub distinct: bool,
}

/// An `over (...)` window specification.
pub struct WindowSpec {
    pub partition_by: Vec<Expr>,
    pub order_by: Vec<OrderByExpr>,
    pub window_frame: Option<WindowFrame>,
}

/// A window frame clause.
pub struct WindowFrame {
    pub units: WindowFrameUnits,
    pub start_bound: WindowFrameBound,
    pub end_bound: Option<WindowFrameBound>,
}

pub enum WindowFrameUnits {
    Rows,
    Range,
    Groups,
}

/// A window frame bound; `Preceding(None)` and `Following(None)` are the
/// unbounded forms.
pub enum WindowFrameBound {
    CurrentRow,
    Preceding(Option<u64>),
    Following(Option<u64>),
}

/// `listagg(...)` with its overflow handling and ordering.
pub struct ListAgg {
    pub distinct: bool,
    pub expr: Box<Expr>,
    pub separator: Option<Box<Expr>>,
    pub on_overflow: Option<ListAggOnOverflow>,
    pub within_group: Vec<OrderByExpr>,
}

pub enum ListAggOnOverflow {
    Error,
    Truncate { filler: Option<Box<Expr>>, with_count: bool },
}

/// One element of an `order by` list.
pub struct OrderByExpr {
    pub expr: Expr,
    pub asc: Option<bool>,
    pub nulls_first: Option<bool>,
}

/// A statement. Only the query family is in the supported grammar; the
/// conversion boundary maps everything else to `Unsupported`, which the
/// render driver rejects with an explicit error.
pub enum Statement {
    Query(Box<Query>),
    Unsupported,
}

/// A full query: common table expressions, a body, and the trailing
/// `order by` / `limit` / `offset` / `fetch` clauses, in that fixed order.
pub struct Query {
    pub ctes: Vec<Cte>,
    pub body: SetExpr,
    pub order_by: Vec<OrderByExpr>,
    pub limit: Option<Expr>,
    pub offset: Option<Offset>,
    pub fetch: Option<Fetch>,
}

/// A common table expression: `alias as (query)`.
pub struct Cte {
    pub alias: TableAlias,
    pub query: Query,
}

/// A query body: a SELECT, a parenthesized sub-query, a set operation or a
/// VALUES list.
pub enum SetExpr {
    Select(Box<Select>),
    Query(Box<Query>),
    SetOperation { op: SetOperator, all: bool, left: Box<SetExpr>, right: Box<SetExpr> },
    Values(Vec<Vec<Expr>>),
}

pub enum SetOperator {
    Union,
    Except,
    Intersect,
}

/// The core of a SELECT.
pub struct Select {
    pub distinct: bool,
    pub top: Option<Top>,
    pub projection: Vec<SelectItem>,
    pub from: Vec<TableWithJoins>,
    pub selection: Option<Expr>,
    pub group_by: Vec<Expr>,
    pub having: Option<Expr>,
}

/// One element of a projection list.
pub enum SelectItem {
    UnnamedExpr(Expr),
    ExprWithAlias { expr: Expr, alias: Ident },
    QualifiedWildcard(ObjectName),
    Wildcard,
}

/// A FROM item: a base relation and its chain of joins.
pub struct TableWithJoins {
    pub relation: TableFactor,
    pub joins: Vec<Join>,
}

/// A relation in a FROM clause.
pub enum TableFactor {
    Table {
        name: ObjectName,
        alias: Option<TableAlias>,
        args: Vec<Expr>,
        with_hints: Vec<Expr>,
    },
    Derived { lateral: bool, subquery: Box<Query>, alias: Option<TableAlias> },
    NestedJoin(Box<TableWithJoins>),
}

/// A table alias, with optional column aliases.
pub struct TableAlias {
    pub name: Ident,
    pub columns: Vec<Ident>,
}

/// One join of a join chain.
pub struct Join {
    pub relation: TableFactor,
    pub join_operator: JoinOperator,
}

pub enum JoinOperator {
    Inner(JoinConstraint),
    LeftOuter(JoinConstraint),
    RightOuter(JoinConstraint),
    FullOuter(JoinConstraint),
    CrossJoin,
    CrossApply,
    OuterApply,
}

pub enum JoinConstraint {
    On(Expr),
    Using(Vec<Ident>),
    Natural,
}

/// `top` on a SELECT.
pub struct Top {
    pub with_ties: bool,
    pub percent: bool,
    pub quantity: Option<Expr>,
}

/// An `offset` clause; `rows` records which keyword, if any, followed the
/// count.
pub struct Offset {
    pub value: Expr,
    pub rows: OffsetRows,
}

/// The keyword after an offset count: none, `row` or `rows`.
pub enum OffsetRows {
    Omitted,
    Row,
    Rows,
}

/// A `fetch first ... rows` clause.
pub struct Fetch {
    pub with_ties: bool,
    pub percent: bool,
    pub quantity: Option<Expr>,
}

/// Structural size of an expression; the termination measure for the
/// transformers.
pub open spec fn expr_size(e: Expr) -> nat
    decreases e,
{
    match e {
        Expr::Identifier(_) => 1,
        Expr::Wildcard => 1,
        Expr::QualifiedWildcard(_) => 1,
        Expr::CompoundIdentifier(_) => 1,
        Expr::IsNull(a) => 1 + expr_size(*a),
        Expr::IsNotNull(a) => 1 + expr_size(*a),
        Expr::InList { expr, list, .. } => 1 + expr_size(*expr) + exprs_size(list@),
        Expr::InSubquery { expr, subquery, .. } => 1 + expr_size(*expr) + query_size(*subquery),
        Expr::Between { expr, low, high, .. } => 1 + expr_size(*expr) + expr_size(*low)
            + expr_size(*high),
        Expr::BinaryOp { left, right, .. } => 1 + expr_size(*left) + expr_size(*right),
        Expr::UnaryOp { expr, .. } => 1 + expr_size(*expr),
        Expr::Cast { expr, .. } => 1 + expr_size(*expr),
        Expr::Extract { expr, .. } => 1 + expr_size(*expr),
        Expr::Collate { expr, .. } => 1 + expr_size(*expr),
        Expr::Nested(a) => 1 + expr_size(*a),
        Expr::Value(_) => 1,
        Expr::TypedString { .. } => 1,
        Expr::Function(f) => 1 + exprs_size(f.args@) + window_size(f.over),
        Expr::Case { operand, conditions, results, else_result } => 1 + opt_box_expr_size(operand)
            + exprs_size(conditions@) + exprs_size(results@) + opt_box_expr_size(else_result),
        Expr::Exists(q) => 1 + query_size(*q),
        Expr::Subquery(q) => 1 + query_size(*q),
        Expr::ListAgg(la) => 1 + expr_size(*la.expr) + opt_box_expr_size(la.separator)
            + listagg_overflow_size(la.on_overflow) + order_by_seq_size(la.within_group@),
    }
}

pub open spec fn opt_box_expr_size(e: Option<Box<Expr>>) -> nat
    decreases e,
{
    match e {
        Some(a) => 1 + expr_size(*a),
        None => 0,
    }
}

pub open spec fn opt_expr_size(e: Option<Expr>) -> nat
    decreases e,
{
    match e {
        Some(a) => 1 + expr_size(a),
        None => 0,
    }
}

pub open spec fn exprs_size(s: Seq<Expr>) -> nat
    decreases s,
{
    if s.len() == 0 {
        0
    } else {
        1 + exprs_size(s.drop_last()) + expr_size(s.last())
    }
}

pub open spec fn rows_size(s: Seq<Vec<Expr>>) -> nat
    decreases s,
{
    if s.len() == 0 {
        0
    } else {
        1 + rows_size(s.drop_last()) + exprs_size(s.last()@)
    }
}

pub open spec fn window_size(w: Option<WindowSpec>) -> nat
    decreases w,
{
    match w {
        Some(ws) => 1 + exprs_size(ws.partition_by@) + order_by_seq_size(ws.order_by@),
        None => 0,
    }
}

pub open spec fn listagg_overflow_size(o: Option<ListAggOnOverflow>) -> nat
    decreases o,
{
    match o {
        Some(ListAggOnOverflow::Truncate { filler, .. }) => 1 + opt_box_expr_size(filler),
        Some(ListAggOnOverflow::Error) => 1,
        None => 0,
    }
}

pub open spec fn order_by_size(o: OrderByExpr) -> nat
    decreases o,
{
    1 + expr_size(o.expr)
}

pub open spec fn order_by_seq_size(s: Seq<OrderByExpr>) -> nat
    decreases s,
{
    if s.len() == 0 {
        0
    } else {
        1 + order_by_seq_size(s.drop_last()) + order_by_size(s.last())
    }
}

pub open spec fn query_size(q: Query) -> nat
    decreases q,
{
    1 + ctes_size(q.ctes@) + set_expr_size(q.body) + order_by_seq_size(q.order_by@)
        + opt_expr_size(q.limit) + offset_size(q.offset) + fetch_size(q.fetch)
}

pub open spec fn offset_size(o: Option<Offset>) -> nat
    decreases o,
{
    match o {
        Some(off) => 1 + expr_size(off.value),
        None => 0,
    }
}

pub open spec fn fetch_size(f: Option<Fetch>) -> nat
    decreases f,
{
    match f {
        Some(fe) => 1 + opt_expr_size(fe.quantity),
        None => 0,
    }
}

pub open spec fn ctes_size(s: Seq<Cte>) -> nat
    decreases s,
{
    if s.len() == 0 {
        0
    } else {
        1 + ctes_size(s.drop_last()) + query_size(s.last().query)
    }
}

pub open spec fn set_expr_size(se: SetExpr) -> nat
    decreases se,
{
    match se {
        SetExpr::Select(s) => 1 + select_size(*s),
        SetExpr::Query(q) => 1 + query_size(*q),
        SetExpr::SetOperation { left, right, .. } => 1 + set_expr_size(*left) + set_expr_size(
            *right,
        ),
        SetExpr::Values(rows) => 1 + rows_size(rows@),
    }
}

pub open spec fn select_size(s: Select) -> nat
    decreases s,
{
    1 + top_size(s.top) + select_items_size(s.projection@) + table_with_joins_seq_size(s.from@)
        + opt_expr_size(s.selection) + exprs_size(s.group_by@) + opt_expr_size(s.having)
}

pub open spec fn top_size(t: Option<Top>) -> nat
    decreases t,
{
    match t {
        Some(top) => 1 + opt_expr_size(top.quantity),
        None => 0,
    }
}

pub open spec fn select_item_size(it: SelectItem) -> nat
    decreases it,
{
    match it {
        SelectItem::UnnamedExpr(e) => 1 + expr_size(e),
        SelectItem::ExprWithAlias { expr, .. } => 1 + expr_size(expr),
        SelectItem::QualifiedWildcard(_) => 1,
        SelectItem::Wildcard => 1,
    }
}

pub open spec fn select_items_size(s: Seq<SelectItem>) -> nat
    decreases s,
{
    if s.len() == 0 {
        0
    } else {
        1 + select_items_size(s.drop_last()) + select_item_size(s.last())
    }
}

pub open spec fn table_factor_size(tf: TableFactor) -> nat
    decreases tf,
{
    match tf {
        TableFactor::Table { args, with_hints, .. } => 1 + exprs_size(args@) + exprs_size(
            with_hints@,
        ),
        TableFactor::Derived { subquery, .. } => 1 + query_size(*subquery),
        TableFactor::NestedJoin(twj) => 1 + table_with_joins_size(*twj),
    }
}

pub open spec fn join_size(j: Join) -> nat
    decreases j,
{
    1 + table_factor_size(j.relation) + join_operator_size(j.join_operator)
}

pub open spec fn join_operator_size(op: JoinOperator) -> nat
    decreases op,
{
    match op {
        JoinOperator::Inner(c) => 1 + join_constraint_size(c),
        JoinOperator::LeftOuter(c) => 1 + join_constraint_size(c),
        JoinOperator::RightOuter(c) => 1 + join_constraint_size(c),
        JoinOperator::FullOuter(c) => 1 + join_constraint_size(c),
        JoinOperator::CrossJoin => 1,
        JoinOperator::CrossApply => 1,
        JoinOperator::OuterApply => 1,
    }
}

pub open spec fn join_constraint_size(c: JoinConstraint) -> nat
    decreases c,
{
    match c {
        JoinConstraint::On(e) => 1 + expr_size(e),
        JoinConstraint::Using(_) => 1,
        JoinConstraint::Natural => 1,
    }
}

pub open spec fn joins_size(s: Seq<Join>) -> nat
    decreases s,
{
    if s.len() == 0 {
        0
    } else {
        1 + joins_size(s.drop_last()) + join_size(s.last())
    }
}

pub open spec fn table_with_joins_size(t: TableWithJoins) -> nat
    decreases t,
{
    1 + table_factor_size(t.relation) + joins_size(t.joins@)
}

pub open spec fn table_with_joins_seq_size(s: Seq<TableWithJoins>) -> nat
    decreases s,
{
    if s.len() == 0 {
        0
    } else {
        1 + table_with_joins_seq_size(s.drop_last()) + table_with_joins_size(s.last())
    }
}


pub proof fn lemma_exprs_size_elem(s: Seq<Expr>, i: int)
    requires
        0 <= i < s.len(),
    ensures
        expr_size(s[i]) < exprs_size(s),
    decreases s.len(),
{
    if i < s.len() - 1 {
        lemma_exprs_size_elem(s.drop_last(), i);
    }
}

pub proof fn lemma_rows_size_elem(s: Seq<Vec<Expr>>, i: int)
    requires
        0 <= i < s.len(),
    ensures
        exprs_size(s[i]@) < rows_size(s),
    decreases s.len(),
{
    if i < s.len() - 1 {
        lemma_rows_size_elem(s.drop_last(), i);
    }
}

pub proof fn lemma_order_by_seq_size_elem(s: Seq<OrderByExpr>, i: int)
    requires
        0 <= i < s.len(),
    ensures
        order_by_size(s[i]) < order_by_seq_size(s),
    decreases s.len(),
{
    if i < s.len() - 1 {
        lemma_order_by_seq_size_elem(s.drop_last(), i);
    }
}

pub proof fn lemma_ctes_size_elem(s: Seq<Cte>, i: int)
    requires
        0 <= i < s.len(),
    ensures
        query_size(s[i].query) < ctes_size(s),
    decreases s.len(),
{
    if i < s.len() - 1 {
        lemma_ctes_size_elem(s.drop_last(), i);
    }
}

pub proof fn lemma_select_items_size_elem(s: Seq<SelectItem>, i: int)
    requires
        0 <= i < s.len(),
    ensures
        select_item_size(s[i]) < select_items_size(s),
    decreases s.len(),
{
    if i < s.len() - 1 {
        lemma_select_items_size_elem(s.drop_last(), i);
    }
}

pub proof fn lemma_joins_size_elem(s: Seq<Join>, i: int)
    requires
        0 <= i < s.len(),
    ensures
        join_size(s[i]) < joins_size(s),
    decreases s.len(),
{
    if i < s.len() - 1 {
        lemma_joins_size_elem(s.drop_last(), i);
    }
}

pub proof fn lemma_table_with_joins_seq_size_elem(s: Seq<TableWithJoins>, i: int)
    requires
        0 <= i < s.len(),
    ensures
        table_with_joins_size(s[i]) < table_with_joins_seq_size(s),
    decreases s.len(),
{
    if i < s.len() - 1 {
        lemma_table_with_joins_seq_size_elem(s.drop_last(), i);
    }
}

} // verus!
