//! Table sources and joins. A source is a real named table or a virtual
//! table backed by one array parameter; a join is an aliased source plus an
//! "on" expression and always renders as a left join.

use vstd::prelude::*;

use crate::expr::{expr_params, expr_tokens, param_value, Expr, ParamExpr};
use crate::select::{select_params, select_tokens, Select};
use crate::token::{lit_token, placeholder, quoted, quoted_token};
use crate::{views, Buildable};
use rusqlite::types::ToSqlOutput;

verus! {

broadcast use crate::token::lemma_views_push;

/// A real named table, or a virtual single-column table whose rows are the
/// elements of one bound array parameter.
pub enum Table {
    Real(&'static str),
    Virtual(ParamExpr),
}

/// What a named join source wraps: a subquery or a table.
pub enum JoinSource {
    Subsel(Select),
    Table(Table),
}

/// A join source together with its alias.
pub struct NamedJoinSource {
    pub source: JoinSource,
    pub alias: &'static str,
}

/// An aliased source joined on an expression; always a left join.
pub struct Join {
    pub source: Box<NamedJoinSource>,
    pub on: Expr,
}

pub open spec fn table_params(t: Table) -> Seq<ToSqlOutput<'static>> {
    match t {
        Table::Real(_) => Seq::empty(),
        Table::Virtual(p) => seq![param_value(p)],
    }
}

pub open spec fn table_tokens(t: Table, base: nat) -> Seq<Seq<char>> {
    match t {
        Table::Real(n) => seq![n@],
        Table::Virtual(_) => seq!["rarray("@, placeholder(base + 1), ")"@],
    }
}

pub open spec fn njs_params(n: NamedJoinSource) -> Seq<ToSqlOutput<'static>>
    decreases n,
{
    match n.source {
        JoinSource::Subsel(s) => select_params(s),
        JoinSource::Table(t) => table_params(t),
    }
}

pub open spec fn njs_tokens(n: NamedJoinSource, base: nat) -> Seq<Seq<char>>
    decreases n,
{
    (match n.source {
        JoinSource::Subsel(s) => seq!["("@] + select_tokens(s, base) + seq![")"@],
        JoinSource::Table(t) => table_tokens(t, base),
    }) + seq!["as"@, quoted(n.alias@)]
}

pub open spec fn join_params(j: Join) -> Seq<ToSqlOutput<'static>>
    decreases j,
{
    njs_params(*j.source) + expr_params(j.on)
}

pub open spec fn join_tokens(j: Join, base: nat) -> Seq<Seq<char>>
    decreases j,
{
    seq!["left"@, "join"@] + njs_tokens(*j.source, base) + seq!["on"@] + expr_tokens(
        j.on,
        base + njs_params(*j.source).len(),
    )
}

pub open spec fn joins_params(js: Seq<Join>) -> Seq<ToSqlOutput<'static>>
    decreases js,
{
    if js.len() == 0 {
        Seq::empty()
    } else {
        join_params(js[0]) + joins_params(js.drop_first())
    }
}

pub open spec fn joins_tokens(js: Seq<Join>, base: nat) -> Seq<Seq<char>>
    decreases js,
{
    if js.len() == 0 {
        Seq::empty()
    } else {
        join_tokens(js[0], base) + joins_tokens(js.drop_first(), base + join_params(js[0]).len())
    }
}

impl Buildable for Table {
    open spec fn toks(&self, base: nat) -> Seq<Seq<char>> {
        table_tokens(*self, base)
    }

    open spec fn prms(&self) -> Seq<ToSqlOutput<'static>> {
        table_params(*self)
    }

    fn build(&self, params: &mut Vec<ToSqlOutput<'static>>, out: &mut Vec<String>) {
        match self {
            Table::Real(n) => {
                out.push(lit_token(n));
            },
            Table::Virtual(t) => {
                out.push(lit_token("rarray("));
                t.build(params, out);
                out.push(lit_token(")"));
            },
        }
        proof {
            assert(final(params)@ =~= old(params)@ + self.prms());
            assert(views(final(out)@) =~= views(old(out)@) + self.toks(old(params)@.len() as nat));
        }
    }
}

impl Buildable for NamedJoinSource {
    open spec fn toks(&self, base: nat) -> Seq<Seq<char>> {
        njs_tokens(*self, base)
    }

    open spec fn prms(&self) -> Seq<ToSqlOutput<'static>> {
        njs_params(*self)
    }

    fn build(&self, params: &mut Vec<ToSqlOutput<'static>>, out: &mut Vec<String>)
        decreases *self,
    {
        match &self.source {
            JoinSource::Subsel(s) => {
                out.push(lit_token("("));
                s.build(params, out);
                out.push(lit_token(")"));
            },
            JoinSource::Table(t) => {
                t.build(params, out);
            },
        }
        out.push(lit_token("as"));
        out.push(quoted_token(self.alias));
        proof {
            assert(final(params)@ =~= old(params)@ + self.prms());
            assert(views(final(out)@) =~= views(old(out)@) + self.toks(old(params)@.len() as nat));
        }
    }
}

impl Buildable for Join {
    open spec fn toks(&self, base: nat) -> Seq<Seq<char>> {
        join_tokens(*self, base)
    }

    open spec fn prms(&self) -> Seq<ToSqlOutput<'static>> {
        join_params(*self)
    }

    fn build(&self, params: &mut Vec<ToSqlOutput<'static>>, out: &mut Vec<String>)
        decreases *self,
    {
        out.push(lit_token("left"));
        out.push(lit_token("join"));
        let src: &NamedJoinSource = &self.source;
        src.build(params, out);
        out.push(lit_token("on"));
        self.on.build(params, out);
        proof {
            assert(final(params)@ =~= old(params)@ + self.prms());
            assert(views(final(out)@) =~= views(old(out)@) + self.toks(old(params)@.len() as nat));
        }
    }
}

/// Builds every join of `js` from index `i` on, in declaration order.
pub(crate) fn build_joins(
    js: &Vec<Join>,
    i: usize,
    params: &mut Vec<ToSqlOutput<'static>>,
    out: &mut Vec<String>,
)
    requires
        i <= js.len(),
    ensures
        final(params)@ == old(params)@ + joins_params(js@.skip(i as int)),
        views(final(out)@) == views(old(out)@) + joins_tokens(
            js@.skip(i as int),
            old(params)@.len() as nat,
        ),
    decreases js@.subrange(i as int, js@.len() as int),
{
    if i < js.len() {
        let j = &js[i];
        proof {
            assert(js@.subrange(i as int, js@.len() as int)[0] == js@[i as int]);
        }
        j.build(params, out);
        proof {
            assert(js@.subrange(i as int + 1, js@.len() as int) =~= js@.subrange(
                i as int,
                js@.len() as int,
            ).subrange(1, js@.len() - i));
        }
        build_joins(js, i + 1, params, out);
        proof {
            assert(js@.skip(i as int).drop_first() =~= js@.skip(i as int + 1));
            assert(js@.skip(i as int)[0] == js@[i as int]);
            assert(final(params)@ =~= old(params)@ + joins_params(js@.skip(i as int)));
            assert(views(final(out)@) =~= views(old(out)@) + joins_tokens(
                js@.skip(i as int),
                old(params)@.len() as nat,
            ));
        }
    } else {
        proof {
            assert(js@.skip(i as int) =~= Seq::<Join>::empty());
            assert(final(params)@ =~= old(params)@ + joins_params(js@.skip(i as int)));
            assert(views(final(out)@) =~= views(old(out)@) + joins_tokens(
                js@.skip(i as int),
                old(params)@.len() as nat,
            ));
        }
    }
}


/// The parameter values of a list of named sources, in order.
pub open spec fn njss_params(ns: Seq<NamedJoinSource>) -> Seq<ToSqlOutput<'static>>
    decreases ns,
{
    if ns.len() == 0 {
        Seq::empty()
    } else {
        njs_params(ns[0]) + njss_params(ns.drop_first())
    }
}

/// The tokens of a list of named sources, one after the other.
pub open spec fn njss_tokens(ns: Seq<NamedJoinSource>, base: nat) -> Seq<Seq<char>>
    decreases ns,
{
    if ns.len() == 0 {
        Seq::empty()
    } else {
        njs_tokens(ns[0], base) + njss_tokens(ns.drop_first(), base + njs_params(ns[0]).len())
    }
}

/// Builds every named source of `ns` from index `i` on.
pub(crate) fn build_njss(
    ns: &Vec<NamedJoinSource>,
    i: usize,
    params: &mut Vec<ToSqlOutput<'static>>,
    out: &mut Vec<String>,
)
    requires
        i <= ns.len(),
    ensures
        final(params)@ == old(params)@ + njss_params(ns@.skip(i as int)),
        views(final(out)@) == views(old(out)@) + njss_tokens(
            ns@.skip(i as int),
            old(params)@.len() as nat,
        ),
    decreases ns.len() - i,
{
    if i < ns.len() {
        let n = &ns[i];
        n.build(params, out);
        build_njss(ns, i + 1, params, out);
        proof {
            assert(ns@.skip(i as int).drop_first() =~= ns@.skip(i as int + 1));
            assert(ns@.skip(i as int)[0] == ns@[i as int]);
            assert(final(params)@ =~= old(params)@ + njss_params(ns@.skip(i as int)));
            assert(views(final(out)@) =~= views(old(out)@) + njss_tokens(
                ns@.skip(i as int),
                old(params)@.len() as nat,
            ));
        }
    } else {
        proof {
            assert(ns@.skip(i as int) =~= Seq::<NamedJoinSource>::empty());
            assert(final(params)@ =~= old(params)@ + njss_params(ns@.skip(i as int)));
            assert(views(final(out)@) =~= views(old(out)@) + njss_tokens(
                ns@.skip(i as int),
                old(params)@.len() as nat,
            ));
        }
    }
}

} // verus!
