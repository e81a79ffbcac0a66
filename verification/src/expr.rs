//! The expression nodes of a statement tree and their rendering. Each node
//! appends its tokens and registers its parameter values in depth-first
//! left-to-right order; `expr_tokens` and `expr_params` are the spec-level
//! statement of exactly what a node emits.

use vstd::prelude::*;

use crate::bind::{array_output, array_param, format_utc_millis, owned_output, owned_param,
    string_value, text_value, utc_rfc3339_millis};
use crate::select::{select_params, select_tokens, Select};
use crate::token::{field_text, field_token, lit_token, placeholder, placeholder_token, quoted,
    quoted_token};
use crate::{views, Buildable};
use rusqlite::types::{ToSqlOutput, Value};
use rusqlite::vtab::array::Array;

verus! {

broadcast use crate::token::lemma_views_push;

/// A call of a fixed function name on argument expressions.
pub struct CallExpr {
    pub func: &'static str,
    pub args: Vec<Expr>,
}

/// A parenthesized chain of operands joined by one fixed infix operator.
pub struct ChainBinOpExpr {
    pub op: &'static str,
    pub clauses: Vec<Expr>,
}

/// A parenthesized application of a fixed infix operator to two operands.
pub struct BinOpExpr {
    pub op: &'static str,
    pub l: Expr,
    pub r: Expr,
}

/// One bound value: a scalar, or a whole array consumed by a virtual table.
pub enum ParamExpr {
    V(Value),
    A(Array),
}

/// A parenthesized comma list of expressions.
pub struct TupleExpr {
    pub values: Vec<Expr>,
}

/// A fixed, pre-validated text fragment inserted verbatim.
pub struct LiteralExpr(pub &'static str);

/// The null constant.
pub struct NullExpr {}

/// A quoted-qualified column reference.
pub struct FieldExpr {
    pub table: &'static str,
    pub name: &'static str,
}

/// An embedded select statement, rendered parenthesized.
pub struct SubselExpr {
    pub s: Select,
}

/// The closed set of expression nodes.
pub enum Expr {
    Call(CallExpr),
    Chain(ChainBinOpExpr),
    BinOp(Box<BinOpExpr>),
    Param(ParamExpr),
    Tuple(TupleExpr),
    Literal(LiteralExpr),
    Null(NullExpr),
    Field(FieldExpr),
    Subsel(Box<SubselExpr>),
}

/// The value a parameter node registers.
pub open spec fn param_value(p: ParamExpr) -> ToSqlOutput<'static> {
    match p {
        ParamExpr::V(v) => owned_param(v),
        ParamExpr::A(a) => array_param(a),
    }
}

/// The parameter values an expression registers, in traversal order.
pub open spec fn expr_params(e: Expr) -> Seq<ToSqlOutput<'static>>
    decreases e,
{
    match e {
        Expr::Call(c) => exprs_params(c.args@),
        Expr::Chain(c) => exprs_params(c.clauses@),
        Expr::BinOp(b) => expr_params(b.l) + expr_params(b.r),
        Expr::Param(p) => seq![param_value(p)],
        Expr::Tuple(t) => exprs_params(t.values@),
        Expr::Literal(_) => Seq::empty(),
        Expr::Null(_) => Seq::empty(),
        Expr::Field(_) => Seq::empty(),
        Expr::Subsel(s) => select_params(s.s),
    }
}

pub open spec fn exprs_params(es: Seq<Expr>) -> Seq<ToSqlOutput<'static>>
    decreases es,
{
    if es.len() == 0 {
        Seq::empty()
    } else {
        expr_params(es[0]) + exprs_params(es.drop_first())
    }
}

/// The parameter values of an optional expression.
pub open spec fn opt_expr_params(o: Option<Expr>) -> Seq<ToSqlOutput<'static>>
    decreases o,
{
    match o {
        Option::None => Seq::empty(),
        Option::Some(e) => expr_params(e),
    }
}

/// The tokens of an optional expression: nothing when it is absent.
pub open spec fn opt_expr_tokens(o: Option<Expr>, base: nat) -> Seq<Seq<char>>
    decreases o,
{
    match o {
        Option::None => Seq::empty(),
        Option::Some(e) => expr_tokens(e, base),
    }
}

/// The tokens an expression emits when `base` parameters are already
/// registered before it in the statement.
pub open spec fn expr_tokens(e: Expr, base: nat) -> Seq<Seq<char>>
    decreases e,
{
    match e {
        Expr::Call(c) => seq![c.func@, "("@] + exprs_tokens(c.args@, base, ","@) + seq![")"@],
        Expr::Chain(c) => seq!["("@] + exprs_tokens(c.clauses@, base, c.op@) + seq![")"@],
        Expr::BinOp(b) => seq!["("@] + expr_tokens(b.l, base) + seq![b.op@] + expr_tokens(
            b.r,
            base + expr_params(b.l).len(),
        ) + seq![")"@],
        Expr::Param(_) => seq![placeholder(base + 1)],
        Expr::Tuple(t) => seq!["("@] + exprs_tokens(t.values@, base, ","@) + seq![")"@],
        Expr::Literal(l) => seq![l.0@],
        Expr::Null(_) => seq!["null"@],
        Expr::Field(f) => seq![field_text(f.table@, f.name@)],
        Expr::Subsel(s) => seq!["("@] + select_tokens(s.s, base) + seq![")"@],
    }
}

/// The tokens of a list of expressions with `sep` between adjacent elements.
pub open spec fn exprs_tokens(es: Seq<Expr>, base: nat, sep: Seq<char>) -> Seq<Seq<char>>
    decreases es,
{
    if es.len() == 0 {
        Seq::empty()
    } else if es.len() == 1 {
        expr_tokens(es[0], base)
    } else {
        expr_tokens(es[0], base) + seq![sep] + exprs_tokens(
            es.drop_first(),
            base + expr_params(es[0]).len(),
            sep,
        )
    }
}

/// Builds every expression of `es` from index `i` on, with the fixed token
/// `sep` between adjacent ones.
pub(crate) fn build_exprs(
    es: &Vec<Expr>,
    i: usize,
    sep: &'static str,
    params: &mut Vec<ToSqlOutput<'static>>,
    out: &mut Vec<String>,
)
    requires
        i <= es.len(),
    ensures
        final(params)@ == old(params)@ + exprs_params(es@.skip(i as int)),
        views(final(out)@) == views(old(out)@) + exprs_tokens(
            es@.skip(i as int),
            old(params)@.len() as nat,
            sep@,
        ),
    decreases es@.subrange(i as int, es@.len() as int),
{
    if i < es.len() {
        let e = &es[i];
        proof {
            assert(es@.subrange(i as int, es@.len() as int)[0] == es@[i as int]);
        }
        e.build(params, out);
        if i + 1 < es.len() {
            out.push(lit_token(sep));
            proof {
                assert(es@.subrange(i as int + 1, es@.len() as int) =~= es@.subrange(
                    i as int,
                    es@.len() as int,
                ).subrange(1, es@.len() - i));
            }
            build_exprs(es, i + 1, sep, params, out);
        }
        proof {
            assert(es@.skip(i as int).drop_first() =~= es@.skip(i as int + 1));
            assert(es@.skip(i as int)[0] == es@[i as int]);
            assert(final(params)@ =~= old(params)@ + exprs_params(es@.skip(i as int)));
            assert(views(final(out)@) =~= views(old(out)@) + exprs_tokens(
                es@.skip(i as int),
                old(params)@.len() as nat,
                sep@,
            ));
        }
    } else {
        proof {
            assert(es@.skip(i as int) =~= Seq::<Expr>::empty());
            assert(final(params)@ =~= old(params)@ + exprs_params(es@.skip(i as int)));
            assert(views(final(out)@) =~= views(old(out)@) + exprs_tokens(
                es@.skip(i as int),
                old(params)@.len() as nat,
                sep@,
            ));
        }
    }
}


/// The parameter values of a (column, expression) list: each expression's
/// values in order.
pub open spec fn setlist_params(vs: Seq<(&'static str, Expr)>) -> Seq<ToSqlOutput<'static>>
    decreases vs,
{
    if vs.len() == 0 {
        Seq::empty()
    } else {
        expr_params(vs[0].1) + setlist_params(vs.drop_first())
    }
}

/// The comma list of the quoted column names of a (column, expression) list.
pub open spec fn collist_tokens(vs: Seq<(&'static str, Expr)>) -> Seq<Seq<char>>
    decreases vs,
{
    if vs.len() == 0 {
        Seq::empty()
    } else if vs.len() == 1 {
        seq![quoted(vs[0].0@)]
    } else {
        seq![quoted(vs[0].0@), ","@] + collist_tokens(vs.drop_first())
    }
}

/// The comma list of the value expressions of a (column, expression) list.
pub open spec fn vallist_tokens(vs: Seq<(&'static str, Expr)>, base: nat) -> Seq<Seq<char>>
    decreases vs,
{
    if vs.len() == 0 {
        Seq::empty()
    } else if vs.len() == 1 {
        expr_tokens(vs[0].1, base)
    } else {
        expr_tokens(vs[0].1, base) + seq![","@] + vallist_tokens(
            vs.drop_first(),
            base + expr_params(vs[0].1).len(),
        )
    }
}

/// The comma list of `"column" = expression` assignments.
pub open spec fn setlist_tokens(vs: Seq<(&'static str, Expr)>, base: nat) -> Seq<Seq<char>>
    decreases vs,
{
    if vs.len() == 0 {
        Seq::empty()
    } else if vs.len() == 1 {
        seq![quoted(vs[0].0@), "="@] + expr_tokens(vs[0].1, base)
    } else {
        seq![quoted(vs[0].0@), "="@] + expr_tokens(vs[0].1, base) + seq![","@] + setlist_tokens(
            vs.drop_first(),
            base + expr_params(vs[0].1).len(),
        )
    }
}

/// Emits the quoted column names of `vs` from index `i` on, comma-separated.
pub(crate) fn build_collist(vs: &Vec<(&'static str, Expr)>, i: usize, out: &mut Vec<String>)
    requires
        i <= vs.len(),
    ensures
        views(final(out)@) == views(old(out)@) + collist_tokens(vs@.skip(i as int)),
    decreases vs.len() - i,
{
    if i < vs.len() {
        out.push(quoted_token(vs[i].0));
        if i + 1 < vs.len() {
            out.push(lit_token(","));
            build_collist(vs, i + 1, out);
        }
        proof {
            assert(vs@.skip(i as int).drop_first() =~= vs@.skip(i as int + 1));
            assert(vs@.skip(i as int)[0] == vs@[i as int]);
            assert(views(final(out)@) =~= views(old(out)@) + collist_tokens(vs@.skip(i as int)));
        }
    } else {
        proof {
            assert(vs@.skip(i as int) =~= Seq::<(&'static str, Expr)>::empty());
            assert(views(final(out)@) =~= views(old(out)@) + collist_tokens(vs@.skip(i as int)));
        }
    }
}

/// Builds the value expressions of `vs` from index `i` on, comma-separated.
pub(crate) fn build_vallist(
    vs: &Vec<(&'static str, Expr)>,
    i: usize,
    params: &mut Vec<ToSqlOutput<'static>>,
    out: &mut Vec<String>,
)
    requires
        i <= vs.len(),
    ensures
        final(params)@ == old(params)@ + setlist_params(vs@.skip(i as int)),
        views(final(out)@) == views(old(out)@) + vallist_tokens(
            vs@.skip(i as int),
            old(params)@.len() as nat,
        ),
    decreases vs.len() - i,
{
    if i < vs.len() {
        let p = &vs[i];
        p.1.build(params, out);
        if i + 1 < vs.len() {
            out.push(lit_token(","));
            build_vallist(vs, i + 1, params, out);
        }
        proof {
            assert(vs@.skip(i as int).drop_first() =~= vs@.skip(i as int + 1));
            assert(vs@.skip(i as int)[0] == vs@[i as int]);
            assert(final(params)@ =~= old(params)@ + setlist_params(vs@.skip(i as int)));
            assert(views(final(out)@) =~= views(old(out)@) + vallist_tokens(
                vs@.skip(i as int),
                old(params)@.len() as nat,
            ));
        }
    } else {
        proof {
            assert(vs@.skip(i as int) =~= Seq::<(&'static str, Expr)>::empty());
            assert(final(params)@ =~= old(params)@ + setlist_params(vs@.skip(i as int)));
            assert(views(final(out)@) =~= views(old(out)@) + vallist_tokens(
                vs@.skip(i as int),
                old(params)@.len() as nat,
            ));
        }
    }
}

/// Builds the `"column" = expression` assignments of `vs` from index `i` on,
/// comma-separated.
pub(crate) fn build_setlist(
    vs: &Vec<(&'static str, Expr)>,
    i: usize,
    params: &mut Vec<ToSqlOutput<'static>>,
    out: &mut Vec<String>,
)
    requires
        i <= vs.len(),
    ensures
        final(params)@ == old(params)@ + setlist_params(vs@.skip(i as int)),
        views(final(out)@) == views(old(out)@) + setlist_tokens(
            vs@.skip(i as int),
            old(params)@.len() as nat,
        ),
    decreases vs.len() - i,
{
    if i < vs.len() {
        let p = &vs[i];
        out.push(quoted_token(p.0));
        out.push(lit_token("="));
        p.1.build(params, out);
        if i + 1 < vs.len() {
            out.push(lit_token(","));
            build_setlist(vs, i + 1, params, out);
        }
        proof {
            assert(vs@.skip(i as int).drop_first() =~= vs@.skip(i as int + 1));
            assert(vs@.skip(i as int)[0] == vs@[i as int]);
            assert(final(params)@ =~= old(params)@ + setlist_params(vs@.skip(i as int)));
            assert(views(final(out)@) =~= views(old(out)@) + setlist_tokens(
                vs@.skip(i as int),
                old(params)@.len() as nat,
            ));
        }
    } else {
        proof {
            assert(vs@.skip(i as int) =~= Seq::<(&'static str, Expr)>::empty());
            assert(final(params)@ =~= old(params)@ + setlist_params(vs@.skip(i as int)));
            assert(views(final(out)@) =~= views(old(out)@) + setlist_tokens(
                vs@.skip(i as int),
                old(params)@.len() as nat,
            ));
        }
    }
}

impl Buildable for CallExpr {
    open spec fn toks(&self, base: nat) -> Seq<Seq<char>> {
        expr_tokens(Expr::Call(*self), base)
    }

    open spec fn prms(&self) -> Seq<ToSqlOutput<'static>> {
        expr_params(Expr::Call(*self))
    }

    fn build(&self, params: &mut Vec<ToSqlOutput<'static>>, out: &mut Vec<String>)
        decreases *self,
    {
        out.push(lit_token(self.func));
        out.push(lit_token("("));
        proof {
            assert(self.args@.subrange(0, self.args@.len() as int) =~= self.args@);
        }
        build_exprs(&self.args, 0, ",", params, out);
        out.push(lit_token(")"));
        proof {
            assert(self.args@.skip(0) =~= self.args@);
            assert(final(params)@ =~= old(params)@ + self.prms());
            assert(views(final(out)@) =~= views(old(out)@) + self.toks(old(params)@.len() as nat));
        }
    }
}

impl Buildable for ChainBinOpExpr {
    open spec fn toks(&self, base: nat) -> Seq<Seq<char>> {
        expr_tokens(Expr::Chain(*self), base)
    }

    open spec fn prms(&self) -> Seq<ToSqlOutput<'static>> {
        expr_params(Expr::Chain(*self))
    }

    fn build(&self, params: &mut Vec<ToSqlOutput<'static>>, out: &mut Vec<String>)
        decreases *self,
    {
        out.push(lit_token("("));
        proof {
            assert(self.clauses@.subrange(0, self.clauses@.len() as int) =~= self.clauses@);
        }
        build_exprs(&self.clauses, 0, self.op, params, out);
        out.push(lit_token(")"));
        proof {
            assert(self.clauses@.skip(0) =~= self.clauses@);
            assert(final(params)@ =~= old(params)@ + self.prms());
            assert(views(final(out)@) =~= views(old(out)@) + self.toks(old(params)@.len() as nat));
        }
    }
}

impl Buildable for BinOpExpr {
    open spec fn toks(&self, base: nat) -> Seq<Seq<char>> {
        seq!["("@] + expr_tokens(self.l, base) + seq![self.op@] + expr_tokens(
            self.r,
            base + expr_params(self.l).len(),
        ) + seq![")"@]
    }

    open spec fn prms(&self) -> Seq<ToSqlOutput<'static>> {
        expr_params(self.l) + expr_params(self.r)
    }

    fn build(&self, params: &mut Vec<ToSqlOutput<'static>>, out: &mut Vec<String>)
        decreases *self,
    {
        out.push(lit_token("("));
        self.l.build(params, out);
        out.push(lit_token(self.op));
        self.r.build(params, out);
        out.push(lit_token(")"));
        proof {
            assert(final(params)@ =~= old(params)@ + self.prms());
            assert(views(final(out)@) =~= views(old(out)@) + self.toks(old(params)@.len() as nat));
        }
    }
}

impl ParamExpr {
    /// A scalar parameter holding the canonical UTC ISO-8601 text, at
    /// millisecond precision, of the given count of milliseconds since the
    /// UNIX epoch; `None` when the count lies outside the representable
    /// calendar range.
    pub fn from_date(millis: i64) -> (r: Option<ParamExpr>)
        ensures
            r matches Some(p) ==> p == ParamExpr::V(text_value(utc_rfc3339_millis(millis as int))),
    {
        match format_utc_millis(millis) {
            Some(s) => Some(ParamExpr::V(string_value(s))),
            None => None,
        }
    }
}

impl Buildable for ParamExpr {
    open spec fn toks(&self, base: nat) -> Seq<Seq<char>> {
        seq![placeholder(base + 1)]
    }

    open spec fn prms(&self) -> Seq<ToSqlOutput<'static>> {
        seq![param_value(*self)]
    }

    fn build(&self, params: &mut Vec<ToSqlOutput<'static>>, out: &mut Vec<String>) {
        let v = match self {
            ParamExpr::V(x) => owned_output(x),
            ParamExpr::A(x) => array_output(x),
        };
        params.push(v);
        let t = placeholder_token(params.len());
        out.push(t);
        proof {
            assert(final(params)@ =~= old(params)@ + self.prms());
            assert(views(final(out)@) =~= views(old(out)@) + self.toks(old(params)@.len() as nat));
        }
    }
}

impl Buildable for TupleExpr {
    open spec fn toks(&self, base: nat) -> Seq<Seq<char>> {
        expr_tokens(Expr::Tuple(*self), base)
    }

    open spec fn prms(&self) -> Seq<ToSqlOutput<'static>> {
        expr_params(Expr::Tuple(*self))
    }

    fn build(&self, params: &mut Vec<ToSqlOutput<'static>>, out: &mut Vec<String>)
        decreases *self,
    {
        out.push(lit_token("("));
        proof {
            assert(self.values@.subrange(0, self.values@.len() as int) =~= self.values@);
        }
        build_exprs(&self.values, 0, ",", params, out);
        out.push(lit_token(")"));
        proof {
            assert(self.values@.skip(0) =~= self.values@);
            assert(final(params)@ =~= old(params)@ + self.prms());
            assert(views(final(out)@) =~= views(old(out)@) + self.toks(old(params)@.len() as nat));
        }
    }
}

impl Buildable for LiteralExpr {
    open spec fn toks(&self, base: nat) -> Seq<Seq<char>> {
        seq![self.0@]
    }

    open spec fn prms(&self) -> Seq<ToSqlOutput<'static>> {
        Seq::empty()
    }

    fn build(&self, params: &mut Vec<ToSqlOutput<'static>>, out: &mut Vec<String>) {
        out.push(lit_token(self.0));
        proof {
            assert(final(params)@ =~= old(params)@ + self.prms());
            assert(views(final(out)@) =~= views(old(out)@) + self.toks(old(params)@.len() as nat));
        }
    }
}

impl Buildable for NullExpr {
    open spec fn toks(&self, base: nat) -> Seq<Seq<char>> {
        seq!["null"@]
    }

    open spec fn prms(&self) -> Seq<ToSqlOutput<'static>> {
        Seq::empty()
    }

    fn build(&self, params: &mut Vec<ToSqlOutput<'static>>, out: &mut Vec<String>) {
        out.push(lit_token("null"));
        proof {
            assert(final(params)@ =~= old(params)@ + self.prms());
            assert(views(final(out)@) =~= views(old(out)@) + self.toks(old(params)@.len() as nat));
        }
    }
}

impl Buildable for FieldExpr {
    open spec fn toks(&self, base: nat) -> Seq<Seq<char>> {
        seq![field_text(self.table@, self.name@)]
    }

    open spec fn prms(&self) -> Seq<ToSqlOutput<'static>> {
        Seq::empty()
    }

    fn build(&self, params: &mut Vec<ToSqlOutput<'static>>, out: &mut Vec<String>) {
        out.push(field_token(self.table, self.name));
        proof {
            assert(final(params)@ =~= old(params)@ + self.prms());
            assert(views(final(out)@) =~= views(old(out)@) + self.toks(old(params)@.len() as nat));
        }
    }
}

impl Buildable for SubselExpr {
    open spec fn toks(&self, base: nat) -> Seq<Seq<char>> {
        seq!["("@] + select_tokens(self.s, base) + seq![")"@]
    }

    open spec fn prms(&self) -> Seq<ToSqlOutput<'static>> {
        select_params(self.s)
    }

    fn build(&self, params: &mut Vec<ToSqlOutput<'static>>, out: &mut Vec<String>)
        decreases *self,
    {
        out.push(lit_token("("));
        self.s.build(params, out);
        out.push(lit_token(")"));
        proof {
            assert(final(params)@ =~= old(params)@ + self.prms());
            assert(views(final(out)@) =~= views(old(out)@) + self.toks(old(params)@.len() as nat));
        }
    }
}

impl Buildable for Expr {
    open spec fn toks(&self, base: nat) -> Seq<Seq<char>> {
        expr_tokens(*self, base)
    }

    open spec fn prms(&self) -> Seq<ToSqlOutput<'static>> {
        expr_params(*self)
    }

    fn build(&self, params: &mut Vec<ToSqlOutput<'static>>, out: &mut Vec<String>)
        decreases *self,
    {
        match self {
            Expr::Call(c) => c.build(params, out),
            Expr::Chain(c) => c.build(params, out),
            Expr::BinOp(b) => {
                let inner: &BinOpExpr = b;
                inner.build(params, out)
            },
            Expr::Param(p) => p.build(params, out),
            Expr::Tuple(t) => t.build(params, out),
            Expr::Literal(l) => l.build(params, out),
            Expr::Null(n) => n.build(params, out),
            Expr::Field(f) => f.build(params, out),
            Expr::Subsel(s) => {
                let inner: &SubselExpr = s;
                inner.build(params, out)
            },
        }
    }
}

/// The capability shared by every expression node: it can stand as an `Expr`.
pub trait Expr_: Sized {
    /// Whether `e` is exactly this node, wrapped as an `Expr`.
    spec fn wraps(self, e: Expr) -> bool;

    fn into_expr(self) -> (e: Expr)
        ensures
            self.wraps(e),
    ;
}

impl Expr_ for CallExpr {
    open spec fn wraps(self, e: Expr) -> bool {
        e matches Expr::Call(x) && x == self
    }

    fn into_expr(self) -> (e: Expr) {
        Expr::Call(self)
    }
}

impl Expr_ for ChainBinOpExpr {
    open spec fn wraps(self, e: Expr) -> bool {
        e matches Expr::Chain(x) && x == self
    }

    fn into_expr(self) -> (e: Expr) {
        Expr::Chain(self)
    }
}

impl Expr_ for BinOpExpr {
    open spec fn wraps(self, e: Expr) -> bool {
        e matches Expr::BinOp(x) && x == self
    }

    fn into_expr(self) -> (e: Expr) {
        Expr::BinOp(Box::new(self))
    }
}

impl Expr_ for ParamExpr {
    open spec fn wraps(self, e: Expr) -> bool {
        e matches Expr::Param(x) && x == self
    }

    fn into_expr(self) -> (e: Expr) {
        Expr::Param(self)
    }
}

impl Expr_ for TupleExpr {
    open spec fn wraps(self, e: Expr) -> bool {
        e matches Expr::Tuple(x) && x == self
    }

    fn into_expr(self) -> (e: Expr) {
        Expr::Tuple(self)
    }
}

impl Expr_ for LiteralExpr {
    open spec fn wraps(self, e: Expr) -> bool {
        e matches Expr::Literal(x) && x == self
    }

    fn into_expr(self) -> (e: Expr) {
        Expr::Literal(self)
    }
}

impl Expr_ for NullExpr {
    open spec fn wraps(self, e: Expr) -> bool {
        e matches Expr::Null(x) && x == self
    }

    fn into_expr(self) -> (e: Expr) {
        Expr::Null(self)
    }
}

impl Expr_ for FieldExpr {
    open spec fn wraps(self, e: Expr) -> bool {
        e matches Expr::Field(x) && x == self
    }

    fn into_expr(self) -> (e: Expr) {
        Expr::Field(self)
    }
}

impl Expr_ for SubselExpr {
    open spec fn wraps(self, e: Expr) -> bool {
        e matches Expr::Subsel(x) && x == self
    }

    fn into_expr(self) -> (e: Expr) {
        Expr::Subsel(Box::new(self))
    }
}

impl Expr {
    /// Wraps any expression node into an `Expr`.
    pub fn new<T: Expr_>(v: T) -> (e: Expr)
        ensures
            v.wraps(e),
    {
        v.into_expr()
    }
}

} // verus!
