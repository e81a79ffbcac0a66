//! Statement-wide laws of the build protocol. The central one: across a
//! whole statement the placeholder tokens are exactly `$base+1 ..= $base+N`,
//! in textual order, where `N` is the number of registered parameters — so
//! placeholder numbers are dense, strictly increasing, and index-aligned
//! with the parameter list. This holds for every tree whose fixed text
//! fragments (function names, operators, literals, raw table names) do not
//! themselves begin with the placeholder sigil.

use vstd::prelude::*;

use crate::delete::{delete_params, delete_tokens, Delete};
use crate::expr::{collist_tokens, expr_params, expr_tokens, exprs_params, exprs_tokens,
    opt_expr_params, opt_expr_tokens, setlist_params, setlist_tokens, vallist_tokens, Expr};
use crate::insert::{conflict_params, conflict_tokens, insert_params, insert_tokens, Conflict,
    Insert};
use crate::join::{join_params, join_tokens, joins_params, joins_tokens, njs_params, njs_tokens,
    njss_params, njss_tokens, Join, JoinSource, NamedJoinSource, Table};
use crate::select::{pairs_params, pairs_tokens, select_params, select_tokens, Order, Select};
use crate::token::{dec_digits, digit_char, placeholder, quoted};
use crate::update::{update_params, update_tokens, Update};
use crate::Buildable;
use rusqlite::types::ToSqlOutput;

verus! {

broadcast use vstd::seq_lib::group_seq_lib_default;

/// A token that stands where a bound value goes: it begins with `$`.
pub open spec fn is_placeholder_token(t: Seq<char>) -> bool {
    t.len() > 0 && t[0] == '$'
}

/// A fixed text fragment that cannot be mistaken for a placeholder.
pub open spec fn ok_fragment(t: Seq<char>) -> bool {
    !is_placeholder_token(t)
}

/// The placeholder tokens of a token list, in textual order.
pub open spec fn placeholders_of(ts: Seq<Seq<char>>) -> Seq<Seq<char>> {
    ts.filter(|t: Seq<char>| is_placeholder_token(t))
}

/// The tokens `$base+1`, `$base+2`, ..., `$base+k`, in that order.
pub open spec fn placeholder_run(base: nat, k: nat) -> Seq<Seq<char>>
    decreases k,
{
    if k == 0 {
        Seq::empty()
    } else {
        seq![placeholder(base + 1)] + placeholder_run(base + 1, (k - 1) as nat)
    }
}

/// Every fixed fragment of the tree stays clear of the placeholder sigil.
pub open spec fn wf_exprs(es: Seq<Expr>) -> bool
    decreases es,
{
    es.len() == 0 || (wf_expr(es[0]) && wf_exprs(es.drop_first()))
}

pub open spec fn wf_expr(e: Expr) -> bool
    decreases e,
{
    match e {
        Expr::Call(c) => ok_fragment(c.func@) && wf_exprs(c.args@),
        Expr::Chain(c) => ok_fragment(c.op@) && wf_exprs(c.clauses@),
        Expr::BinOp(b) => ok_fragment(b.op@) && wf_expr(b.l) && wf_expr(b.r),
        Expr::Param(_) => true,
        Expr::Tuple(t) => wf_exprs(t.values@),
        Expr::Literal(l) => ok_fragment(l.0@),
        Expr::Null(_) => true,
        Expr::Field(_) => true,
        Expr::Subsel(s) => wf_select(s.s),
    }
}

pub open spec fn wf_opt_expr(o: Option<Expr>) -> bool
    decreases o,
{
    match o {
        Option::None => true,
        Option::Some(e) => wf_expr(e),
    }
}

pub open spec fn wf_pairs(ps: Seq<(Expr, Order)>) -> bool
    decreases ps,
{
    ps.len() == 0 || (wf_expr(ps[0].0) && wf_pairs(ps.drop_first()))
}

pub open spec fn wf_setlist(vs: Seq<(&'static str, Expr)>) -> bool
    decreases vs,
{
    vs.len() == 0 || (wf_expr(vs[0].1) && wf_setlist(vs.drop_first()))
}

pub open spec fn wf_table(t: Table) -> bool {
    match t {
        Table::Real(n) => ok_fragment(n@),
        Table::Virtual(_) => true,
    }
}

pub open spec fn wf_njs(n: NamedJoinSource) -> bool
    decreases n,
{
    match n.source {
        JoinSource::Subsel(s) => wf_select(s),
        JoinSource::Table(t) => wf_table(t),
    }
}

pub open spec fn wf_njss(ns: Seq<NamedJoinSource>) -> bool
    decreases ns,
{
    ns.len() == 0 || (wf_njs(ns[0]) && wf_njss(ns.drop_first()))
}

pub open spec fn wf_join(j: Join) -> bool
    decreases j,
{
    wf_njs(*j.source) && wf_expr(j.on)
}

pub open spec fn wf_joins(js: Seq<Join>) -> bool
    decreases js,
{
    js.len() == 0 || (wf_join(js[0]) && wf_joins(js.drop_first()))
}

pub open spec fn wf_select(s: Select) -> bool
    decreases s,
{
    wf_exprs(s.output@) && wf_joins(s.join@) && wf_opt_expr(s.filter) && wf_exprs(s.group@)
        && wf_pairs(s.order@)
}

pub open spec fn wf_conflict(c: Option<Conflict>) -> bool
    decreases c,
{
    match c {
        Option::Some(Conflict::Update(u)) => wf_setlist(u.set@),
        _ => true,
    }
}

pub open spec fn wf_insert(ins: Insert) -> bool
    decreases ins,
{
    wf_setlist(ins.values@) && wf_conflict(ins.conflict) && wf_opt_expr(ins.returning)
}

pub open spec fn wf_update(u: Update) -> bool
    decreases u,
{
    wf_setlist(u.set@) && wf_njss(u.from@) && wf_expr(u.filter)
}

pub open spec fn wf_delete(d: Delete) -> bool
    decreases d,
{
    wf_opt_expr(d.filter)
}

/// Two runs of consecutive placeholders concatenate into one.
proof fn lemma_run_concat(base: nat, k1: nat, k2: nat)
    ensures
        placeholder_run(base, k1) + placeholder_run(base + k1, k2) == placeholder_run(
            base,
            k1 + k2,
        ),
    decreases k1,
{
    if k1 == 0 {
        assert(placeholder_run(base, k1) + placeholder_run(base + k1, k2) =~= placeholder_run(
            base,
            k1 + k2,
        ));
    } else {
        lemma_run_concat(base + 1, (k1 - 1) as nat, k2);
        assert(placeholder_run(base, k1) + placeholder_run(base + k1, k2) =~= placeholder_run(
            base,
            k1 + k2,
        ));
    }
}

/// Filtering a single token keeps it exactly when it is a placeholder.
proof fn lemma_ph_single(t: Seq<char>)
    ensures
        placeholders_of(seq![t]) == if is_placeholder_token(t) {
            seq![t]
        } else {
            Seq::<Seq<char>>::empty()
        },
{
    reveal_with_fuel(Seq::<_>::filter, 2);
    assert(seq![t].drop_last() =~= Seq::<Seq<char>>::empty());
    if is_placeholder_token(t) {
        assert(placeholders_of(seq![t]) =~= seq![t]);
    } else {
        assert(placeholders_of(seq![t]) =~= Seq::<Seq<char>>::empty());
    }
}

/// A list of fixed fragments contributes no placeholder.
proof fn lemma_ph_none(ts: Seq<Seq<char>>)
    requires
        forall|i: int| 0 <= i < ts.len() ==> ok_fragment(#[trigger] ts[i]),
    ensures
        placeholders_of(ts) == Seq::<Seq<char>>::empty(),
    decreases ts.len(),
{
    reveal_with_fuel(Seq::<_>::filter, 1);
    if ts.len() == 0 {
        assert(placeholders_of(ts) =~= Seq::<Seq<char>>::empty());
    } else {
        lemma_ph_none(ts.drop_last());
        assert(!is_placeholder_token(ts.last()));
        assert(placeholders_of(ts) =~= Seq::<Seq<char>>::empty());
    }
}

/// A decimal number token is non-empty and never begins with `$`.
proof fn lemma_dec_digits_shape(n: nat)
    ensures
        dec_digits(n).len() > 0,
        dec_digits(n)[0] != '$',
    decreases n,
{
    if n < 10 {
        assert(digit_char(n) != '$');
    } else {
        lemma_dec_digits_shape(n / 10);
    }
}

/// A placeholder token is one.
proof fn lemma_placeholder_is_placeholder(n: nat)
    ensures
        is_placeholder_token(placeholder(n)),
{
    assert(placeholder(n)[0] == '$');
}

#[verifier::rlimit(100)]
proof fn lemma_expr_ph(e: Expr, base: nat)
    requires
        wf_expr(e),
    ensures
        placeholders_of(expr_tokens(e, base)) == placeholder_run(base, expr_params(e).len()),
    decreases e,
{
    match e {
        Expr::Call(c) => {
            reveal_strlit("(");
    reveal_strlit(")");
    reveal_strlit(",");
            lemma_exprs_ph(c.args@, base, ","@);
            lemma_ph_none(seq![c.func@, "("@]);
            lemma_ph_none(seq![")"@]);
            assert(placeholders_of(expr_tokens(e, base)) =~= placeholder_run(
                base,
                expr_params(e).len(),
            ));
        },
        Expr::Chain(c) => {
            reveal_strlit("(");
    reveal_strlit(")");
            lemma_exprs_ph(c.clauses@, base, c.op@);
            lemma_ph_none(seq!["("@]);
            lemma_ph_none(seq![")"@]);
            assert(placeholders_of(expr_tokens(e, base)) =~= placeholder_run(
                base,
                expr_params(e).len(),
            ));
        },
        Expr::BinOp(b) => {
            reveal_strlit("(");
    reveal_strlit(")");
            lemma_expr_ph(b.l, base);
            lemma_expr_ph(b.r, base + expr_params(b.l).len());
            lemma_ph_none(seq!["("@]);
            lemma_ph_none(seq![b.op@]);
            lemma_ph_none(seq![")"@]);
            lemma_run_concat(base, expr_params(b.l).len(), expr_params(b.r).len());
            assert(placeholders_of(expr_tokens(e, base)) =~= placeholder_run(
                base,
                expr_params(e).len(),
            ));
        },
        Expr::Param(_) => {
            lemma_placeholder_is_placeholder(base + 1);
            lemma_ph_single(placeholder(base + 1));
            assert(placeholder_run(base + 1, 0) == Seq::<Seq<char>>::empty());
            assert(placeholders_of(expr_tokens(e, base)) =~= placeholder_run(
                base,
                expr_params(e).len(),
            ));
        },
        Expr::Tuple(t) => {
            reveal_strlit("(");
    reveal_strlit(")");
    reveal_strlit(",");
            lemma_exprs_ph(t.values@, base, ","@);
            lemma_ph_none(seq!["("@]);
            lemma_ph_none(seq![")"@]);
            assert(placeholders_of(expr_tokens(e, base)) =~= placeholder_run(
                base,
                expr_params(e).len(),
            ));
        },
        Expr::Literal(l) => {
            lemma_ph_none(seq![l.0@]);
            assert(placeholders_of(expr_tokens(e, base)) =~= placeholder_run(
                base,
                expr_params(e).len(),
            ));
        },
        Expr::Null(_) => {
            reveal_strlit("null");
            lemma_ph_none(seq!["null"@]);
            assert(placeholders_of(expr_tokens(e, base)) =~= placeholder_run(
                base,
                expr_params(e).len(),
            ));
        },
        Expr::Field(f) => {
            assert(crate::token::field_text(f.table@, f.name@)[0] == '"');
            lemma_ph_none(seq![crate::token::field_text(f.table@, f.name@)]);
            assert(placeholders_of(expr_tokens(e, base)) =~= placeholder_run(
                base,
                expr_params(e).len(),
            ));
        },
        Expr::Subsel(s) => {
            reveal_strlit("(");
    reveal_strlit(")");
            lemma_select_ph(s.s, base);
            lemma_ph_none(seq!["("@]);
            lemma_ph_none(seq![")"@]);
            assert(placeholders_of(expr_tokens(e, base)) =~= placeholder_run(
                base,
                expr_params(e).len(),
            ));
        },
    }
}

#[verifier::rlimit(100)]
proof fn lemma_exprs_ph(es: Seq<Expr>, base: nat, sep: Seq<char>)
    requires
        wf_exprs(es),
        ok_fragment(sep),
    ensures
        placeholders_of(exprs_tokens(es, base, sep)) == placeholder_run(
            base,
            exprs_params(es).len(),
        ),
    decreases es,
{
    if es.len() == 0 {
        lemma_ph_none(exprs_tokens(es, base, sep));
        assert(placeholders_of(exprs_tokens(es, base, sep)) =~= placeholder_run(
            base,
            exprs_params(es).len(),
        ));
    } else if es.len() == 1 {
        lemma_expr_ph(es[0], base);
        assert(exprs_params(es.drop_first()).len() == 0);
        assert(placeholders_of(exprs_tokens(es, base, sep)) =~= placeholder_run(
            base,
            exprs_params(es).len(),
        ));
    } else {
        lemma_expr_ph(es[0], base);
        lemma_exprs_ph(es.drop_first(), base + expr_params(es[0]).len(), sep);
        lemma_ph_none(seq![sep]);
        lemma_run_concat(base, expr_params(es[0]).len(), exprs_params(es.drop_first()).len());
        assert(placeholders_of(exprs_tokens(es, base, sep)) =~= placeholder_run(
            base,
            exprs_params(es).len(),
        ));
    }
}

#[verifier::rlimit(100)]
proof fn lemma_opt_expr_ph(o: Option<Expr>, base: nat)
    requires
        wf_opt_expr(o),
    ensures
        placeholders_of(opt_expr_tokens(o, base)) == placeholder_run(
            base,
            opt_expr_params(o).len(),
        ),
    decreases o,
{
    match o {
        Option::None => {
            lemma_ph_none(opt_expr_tokens(o, base));
            assert(placeholders_of(opt_expr_tokens(o, base)) =~= placeholder_run(
                base,
                opt_expr_params(o).len(),
            ));
        },
        Option::Some(e) => {
            lemma_expr_ph(e, base);
        },
    }
}

#[verifier::rlimit(100)]
proof fn lemma_pairs_ph(ps: Seq<(Expr, Order)>, base: nat)
    requires
        wf_pairs(ps),
    ensures
        placeholders_of(pairs_tokens(ps, base)) == placeholder_run(base, pairs_params(ps).len()),
    decreases ps,
{
    reveal_strlit("asc");
    reveal_strlit("desc");
    reveal_strlit(",");
    if ps.len() == 0 {
        lemma_ph_none(pairs_tokens(ps, base));
        assert(placeholders_of(pairs_tokens(ps, base)) =~= placeholder_run(
            base,
            pairs_params(ps).len(),
        ));
    } else if ps.len() == 1 {
        lemma_expr_ph(ps[0].0, base);
        lemma_ph_none(seq![crate::select::order_text(ps[0].1)]);
        assert(pairs_params(ps.drop_first()).len() == 0);
        assert(placeholders_of(pairs_tokens(ps, base)) =~= placeholder_run(
            base,
            pairs_params(ps).len(),
        ));
    } else {
        lemma_expr_ph(ps[0].0, base);
        lemma_pairs_ph(ps.drop_first(), base + expr_params(ps[0].0).len());
        lemma_ph_none(seq![crate::select::order_text(ps[0].1), ","@]);
        lemma_run_concat(base, expr_params(ps[0].0).len(), pairs_params(ps.drop_first()).len());
        assert(placeholders_of(pairs_tokens(ps, base)) =~= placeholder_run(
            base,
            pairs_params(ps).len(),
        ));
    }
}

#[verifier::rlimit(100)]
proof fn lemma_collist_ph(vs: Seq<(&'static str, Expr)>)
    ensures
        placeholders_of(collist_tokens(vs)) == Seq::<Seq<char>>::empty(),
    decreases vs,
{
    reveal_strlit(",");
    if vs.len() == 0 {
        lemma_ph_none(collist_tokens(vs));
    } else if vs.len() == 1 {
        lemma_ph_none(seq![quoted(vs[0].0@)]);
        assert(placeholders_of(collist_tokens(vs)) =~= Seq::<Seq<char>>::empty());
    } else {
        lemma_collist_ph(vs.drop_first());
        lemma_ph_none(seq![quoted(vs[0].0@), ","@]);
        assert(placeholders_of(collist_tokens(vs)) =~= Seq::<Seq<char>>::empty());
    }
}

#[verifier::rlimit(100)]
proof fn lemma_vallist_ph(vs: Seq<(&'static str, Expr)>, base: nat)
    requires
        wf_setlist(vs),
    ensures
        placeholders_of(vallist_tokens(vs, base)) == placeholder_run(
            base,
            setlist_params(vs).len(),
        ),
    decreases vs,
{
    reveal_strlit(",");
    if vs.len() == 0 {
        lemma_ph_none(vallist_tokens(vs, base));
        assert(placeholders_of(vallist_tokens(vs, base)) =~= placeholder_run(
            base,
            setlist_params(vs).len(),
        ));
    } else if vs.len() == 1 {
        lemma_expr_ph(vs[0].1, base);
        assert(setlist_params(vs.drop_first()).len() == 0);
        assert(placeholders_of(vallist_tokens(vs, base)) =~= placeholder_run(
            base,
            setlist_params(vs).len(),
        ));
    } else {
        lemma_expr_ph(vs[0].1, base);
        lemma_vallist_ph(vs.drop_first(), base + expr_params(vs[0].1).len());
        lemma_ph_none(seq![","@]);
        lemma_run_concat(base, expr_params(vs[0].1).len(), setlist_params(vs.drop_first()).len());
        assert(placeholders_of(vallist_tokens(vs, base)) =~= placeholder_run(
            base,
            setlist_params(vs).len(),
        ));
    }
}

#[verifier::rlimit(100)]
proof fn lemma_setlist_ph(vs: Seq<(&'static str, Expr)>, base: nat)
    requires
        wf_setlist(vs),
    ensures
        placeholders_of(setlist_tokens(vs, base)) == placeholder_run(
            base,
            setlist_params(vs).len(),
        ),
    decreases vs,
{
    reveal_strlit(",");
    reveal_strlit("=");
    if vs.len() == 0 {
        lemma_ph_none(setlist_tokens(vs, base));
        assert(placeholders_of(setlist_tokens(vs, base)) =~= placeholder_run(
            base,
            setlist_params(vs).len(),
        ));
    } else if vs.len() == 1 {
        lemma_expr_ph(vs[0].1, base);
        lemma_ph_none(seq![quoted(vs[0].0@), "="@]);
        assert(setlist_params(vs.drop_first()).len() == 0);
        assert(placeholders_of(setlist_tokens(vs, base)) =~= placeholder_run(
            base,
            setlist_params(vs).len(),
        ));
    } else {
        lemma_expr_ph(vs[0].1, base);
        lemma_setlist_ph(vs.drop_first(), base + expr_params(vs[0].1).len());
        lemma_ph_none(seq![quoted(vs[0].0@), "="@]);
        lemma_ph_none(seq![","@]);
        lemma_run_concat(base, expr_params(vs[0].1).len(), setlist_params(vs.drop_first()).len());
        assert(placeholders_of(setlist_tokens(vs, base)) =~= placeholder_run(
            base,
            setlist_params(vs).len(),
        ));
    }
}

#[verifier::rlimit(100)]
proof fn lemma_table_ph(t: Table, base: nat)
    requires
        wf_table(t),
    ensures
        placeholders_of(crate::join::table_tokens(t, base)) == placeholder_run(
            base,
            crate::join::table_params(t).len(),
        ),
{
    match t {
        Table::Real(n) => {
            lemma_ph_none(seq![n@]);
            assert(placeholders_of(crate::join::table_tokens(t, base)) =~= placeholder_run(
                base,
                crate::join::table_params(t).len(),
            ));
        },
        Table::Virtual(_) => {
            reveal_strlit("rarray(");
    reveal_strlit(")");
            lemma_placeholder_is_placeholder(base + 1);
            lemma_ph_none(seq!["rarray("@]);
            lemma_ph_single(placeholder(base + 1));
            lemma_ph_none(seq![")"@]);
            let ts = seq!["rarray("@] + seq![placeholder(base + 1)] + seq![")"@];
            assert(crate::join::table_tokens(t, base) =~= ts);
            assert(placeholder_run(base + 1, 0) =~= Seq::<Seq<char>>::empty());
            assert(placeholders_of(ts) =~= placeholder_run(base, 1));
            assert(placeholders_of(crate::join::table_tokens(t, base)) =~= placeholder_run(
                base,
                crate::join::table_params(t).len(),
            ));
        },
    }
}

#[verifier::rlimit(100)]
proof fn lemma_njs_ph(n: NamedJoinSource, base: nat)
    requires
        wf_njs(n),
    ensures
        placeholders_of(njs_tokens(n, base)) == placeholder_run(base, njs_params(n).len()),
    decreases n,
{
    reveal_strlit("(");
    reveal_strlit(")");
    reveal_strlit("as");
    lemma_ph_none(seq!["as"@, quoted(n.alias@)]);
    match n.source {
        JoinSource::Subsel(s) => {
            lemma_select_ph(s, base);
            lemma_ph_none(seq!["("@]);
            lemma_ph_none(seq![")"@]);
            assert(placeholders_of(njs_tokens(n, base)) =~= placeholder_run(
                base,
                njs_params(n).len(),
            ));
        },
        JoinSource::Table(t) => {
            lemma_table_ph(t, base);
            assert(placeholders_of(njs_tokens(n, base)) =~= placeholder_run(
                base,
                njs_params(n).len(),
            ));
        },
    }
}

#[verifier::rlimit(100)]
proof fn lemma_join_ph(j: Join, base: nat)
    requires
        wf_join(j),
    ensures
        placeholders_of(join_tokens(j, base)) == placeholder_run(base, join_params(j).len()),
    decreases j,
{
    reveal_strlit("left");
    reveal_strlit("join");
    reveal_strlit("on");
    lemma_njs_ph(*j.source, base);
    lemma_expr_ph(j.on, base + njs_params(*j.source).len());
    lemma_ph_none(seq!["left"@, "join"@]);
    lemma_ph_none(seq!["on"@]);
    lemma_run_concat(base, njs_params(*j.source).len(), expr_params(j.on).len());
    assert(placeholders_of(join_tokens(j, base)) =~= placeholder_run(base, join_params(j).len()));
}

#[verifier::rlimit(100)]
proof fn lemma_joins_ph(js: Seq<Join>, base: nat)
    requires
        wf_joins(js),
    ensures
        placeholders_of(joins_tokens(js, base)) == placeholder_run(base, joins_params(js).len()),
    decreases js,
{
    if js.len() == 0 {
        lemma_ph_none(joins_tokens(js, base));
        assert(placeholders_of(joins_tokens(js, base)) =~= placeholder_run(
            base,
            joins_params(js).len(),
        ));
    } else {
        lemma_join_ph(js[0], base);
        lemma_joins_ph(js.drop_first(), base + join_params(js[0]).len());
        lemma_run_concat(base, join_params(js[0]).len(), joins_params(js.drop_first()).len());
        assert(placeholders_of(joins_tokens(js, base)) =~= placeholder_run(
            base,
            joins_params(js).len(),
        ));
    }
}

#[verifier::rlimit(100)]
proof fn lemma_njss_ph(ns: Seq<NamedJoinSource>, base: nat)
    requires
        wf_njss(ns),
    ensures
        placeholders_of(njss_tokens(ns, base)) == placeholder_run(base, njss_params(ns).len()),
    decreases ns,
{
    if ns.len() == 0 {
        lemma_ph_none(njss_tokens(ns, base));
        assert(placeholders_of(njss_tokens(ns, base)) =~= placeholder_run(
            base,
            njss_params(ns).len(),
        ));
    } else {
        lemma_njs_ph(ns[0], base);
        lemma_njss_ph(ns.drop_first(), base + njs_params(ns[0]).len());
        lemma_run_concat(base, njs_params(ns[0]).len(), njss_params(ns.drop_first()).len());
        assert(placeholders_of(njss_tokens(ns, base)) =~= placeholder_run(
            base,
            njss_params(ns).len(),
        ));
    }
}

#[verifier::rlimit(100)]
proof fn lemma_conflict_ph(c: Option<Conflict>, base: nat)
    requires
        wf_conflict(c),
    ensures
        placeholders_of(conflict_tokens(c, base)) == placeholder_run(
            base,
            conflict_params(c).len(),
        ),
    decreases c,
{
    reveal_strlit("on");
    reveal_strlit("conflict");
    reveal_strlit("do");
    reveal_strlit("update");
    reveal_strlit("set");
    reveal_strlit("nothing");
    match c {
        Option::Some(Conflict::Update(u)) => {
            lemma_setlist_ph(u.set@, base);
            lemma_ph_none(seq!["on"@, "conflict"@, "do"@, "update"@, "set"@]);
            assert(placeholders_of(conflict_tokens(c, base)) =~= placeholder_run(
                base,
                conflict_params(c).len(),
            ));
        },
        Option::Some(Conflict::Ignore) => {
            lemma_ph_none(conflict_tokens(c, base));
            assert(placeholders_of(conflict_tokens(c, base)) =~= placeholder_run(
                base,
                conflict_params(c).len(),
            ));
        },
        Option::None => {
            lemma_ph_none(conflict_tokens(c, base));
            assert(placeholders_of(conflict_tokens(c, base)) =~= placeholder_run(
                base,
                conflict_params(c).len(),
            ));
        },
    }
}

/// One folding step of placeholder bookkeeping across a concatenation.
proof fn lemma_ph_step(a: Seq<Seq<char>>, b: Seq<Seq<char>>, base: nat, k1: nat, k2: nat)
    requires
        placeholders_of(a) == placeholder_run(base, k1),
        placeholders_of(b) == placeholder_run(base + k1, k2),
    ensures
        placeholders_of(a + b) == placeholder_run(base, k1 + k2),
{
    lemma_run_concat(base, k1, k2);
}

/// Reassociation of token-list concatenation.
proof fn lemma_add_assoc(a: Seq<Seq<char>>, b: Seq<Seq<char>>, c: Seq<Seq<char>>)
    ensures
        (a + b) + c == a + (b + c),
{
    assert((a + b) + c =~= a + (b + c));
}

/// Folds the fixed head of a select (everything up to and including the
/// filter) into one placeholder run.
#[verifier::rlimit(100)]
proof fn lemma_select_head_ph(s: Select, base: nat)
    requires
        placeholders_of(exprs_tokens(s.output@, base, ","@)) == placeholder_run(
            base,
            exprs_params(s.output@).len(),
        ),
        placeholders_of(joins_tokens(s.join@, base + exprs_params(s.output@).len()))
            == placeholder_run(
            base + exprs_params(s.output@).len(),
            joins_params(s.join@).len(),
        ),
        placeholders_of(
            opt_expr_tokens(
                s.filter,
                base + exprs_params(s.output@).len() + joins_params(s.join@).len(),
            ),
        ) == placeholder_run(
            base + exprs_params(s.output@).len() + joins_params(s.join@).len(),
            opt_expr_params(s.filter).len(),
        ),
    ensures
        placeholders_of(
            seq!["select"@] + exprs_tokens(s.output@, base, ","@) + seq![
                "from"@,
                quoted(s.table@),
            ] + joins_tokens(s.join@, base + exprs_params(s.output@).len()) + seq!["where"@]
                + opt_expr_tokens(
                s.filter,
                base + exprs_params(s.output@).len() + joins_params(s.join@).len(),
            ),
        ) == placeholder_run(
            base,
            exprs_params(s.output@).len() + joins_params(s.join@).len() + opt_expr_params(
                s.filter,
            ).len(),
        ),
{
    reveal_strlit("select");
    reveal_strlit("from");
    reveal_strlit("where");
    let n1 = exprs_params(s.output@).len();
    let n2 = joins_params(s.join@).len();
    let n3 = opt_expr_params(s.filter).len();
    let s1 = seq!["select"@];
    let s2 = exprs_tokens(s.output@, base, ","@);
    let s3 = seq!["from"@, quoted(s.table@)];
    let s4 = joins_tokens(s.join@, base + n1);
    let s5 = seq!["where"@];
    let s6 = opt_expr_tokens(s.filter, base + n1 + n2);
    lemma_ph_none(s1);
    lemma_ph_none(s3);
    lemma_ph_none(s5);
    lemma_ph_step(s1, s2, base, 0, n1);
    lemma_ph_step(s1 + s2, s3, base, n1, 0);
    lemma_ph_step(s1 + s2 + s3, s4, base, n1, n2);
    lemma_ph_step(s1 + s2 + s3 + s4, s5, base, n1 + n2, 0);
    lemma_ph_step(s1 + s2 + s3 + s4 + s5, s6, base, n1 + n2, n3);
}

/// Placeholder density for a select: when every fixed fragment of the tree
/// stays clear of the placeholder sigil, the placeholder tokens of the
/// statement are exactly `$base+1 ..= $base+N` in textual order, with `N`
/// the number of parameters the statement registers.
#[verifier::rlimit(100)]
pub proof fn lemma_select_ph(s: Select, base: nat)
    requires
        wf_select(s),
    ensures
        placeholders_of(select_tokens(s, base)) == placeholder_run(
            base,
            select_params(s).len(),
        ),
    decreases s,
{
    reveal_strlit("group by");
    reveal_strlit("order by");
    reveal_strlit("limit");
    reveal_strlit(",");
    let n1 = exprs_params(s.output@).len();
    let n2 = joins_params(s.join@).len();
    let n3 = opt_expr_params(s.filter).len();
    let n4 = exprs_params(s.group@).len();
    let n5 = pairs_params(s.order@).len();
    lemma_exprs_ph(s.output@, base, ","@);
    lemma_joins_ph(s.join@, base + n1);
    lemma_opt_expr_ph(s.filter, base + n1 + n2);
    lemma_select_head_ph(s, base);
    let h = seq!["select"@] + exprs_tokens(s.output@, base, ","@) + seq![
        "from"@,
        quoted(s.table@),
    ] + joins_tokens(s.join@, base + n1) + seq!["where"@] + opt_expr_tokens(
        s.filter,
        base + n1 + n2,
    );
    let s7 = if s.group@.len() > 0 {
        seq!["group by"@] + exprs_tokens(s.group@, base + n1 + n2 + n3, ","@)
    } else {
        Seq::<Seq<char>>::empty()
    };
    let s8 = if s.order@.len() > 0 {
        seq!["order by"@] + pairs_tokens(s.order@, base + n1 + n2 + n3 + n4)
    } else {
        Seq::<Seq<char>>::empty()
    };
    let s9 = match s.limit {
        Option::Some(l) => seq!["limit"@, dec_digits(l as nat)],
        Option::None => Seq::<Seq<char>>::empty(),
    };
    if s.group@.len() > 0 {
        lemma_exprs_ph(s.group@, base + n1 + n2 + n3, ","@);
        lemma_ph_none(seq!["group by"@]);
        lemma_ph_step(
            seq!["group by"@],
            exprs_tokens(s.group@, base + n1 + n2 + n3, ","@),
            base + n1 + n2 + n3,
            0,
            n4,
        );
    } else {
        lemma_ph_none(s7);
    }
    assert(placeholders_of(s7) == placeholder_run(base + n1 + n2 + n3, n4));
    if s.order@.len() > 0 {
        lemma_pairs_ph(s.order@, base + n1 + n2 + n3 + n4);
        lemma_ph_none(seq!["order by"@]);
        lemma_ph_step(
            seq!["order by"@],
            pairs_tokens(s.order@, base + n1 + n2 + n3 + n4),
            base + n1 + n2 + n3 + n4,
            0,
            n5,
        );
    } else {
        lemma_ph_none(s8);
    }
    assert(placeholders_of(s8) == placeholder_run(base + n1 + n2 + n3 + n4, n5));
    lemma_dec_digits_shape(if s.limit is Some {
        s.limit->0 as nat
    } else {
        0
    });
    lemma_ph_none(s9);
    lemma_ph_step(s7, s8, base + n1 + n2 + n3, n4, n5);
    lemma_ph_step(s7 + s8, s9, base + n1 + n2 + n3, n4 + n5, 0);
    lemma_ph_step(h, s7 + s8 + s9, base, n1 + n2 + n3, n4 + n5);
    lemma_add_assoc(h, s7, s8);
    lemma_add_assoc(h, s7 + s8, s9);
    crate::select::lemma_select_tokens_flat(s, base);
    assert(select_tokens(s, base) == h + (s7 + s8 + s9));
    assert(select_params(s).len() == n1 + n2 + n3 + n4 + n5);
}

/// Folds the fixed head of an insert (through the closing parenthesis of
/// the value list) into one placeholder run.
#[verifier::rlimit(100)]
proof fn lemma_insert_head_ph(ins: Insert, base: nat)
    requires
        placeholders_of(collist_tokens(ins.values@)) == Seq::<Seq<char>>::empty(),
        placeholders_of(vallist_tokens(ins.values@, base)) == placeholder_run(
            base,
            setlist_params(ins.values@).len(),
        ),
    ensures
        placeholders_of(
            seq!["insert"@, "into"@, quoted(ins.table@), "("@] + collist_tokens(ins.values@)
                + seq![")"@, "values"@, "("@] + vallist_tokens(ins.values@, base) + seq![")"@],
        ) == placeholder_run(base, setlist_params(ins.values@).len()),
{
    reveal_strlit("insert");
    reveal_strlit("into");
    reveal_strlit("(");
    reveal_strlit(")");
    reveal_strlit("values");
    let n1 = setlist_params(ins.values@).len();
    let i1 = seq!["insert"@, "into"@, quoted(ins.table@), "("@];
    let i2 = collist_tokens(ins.values@);
    let i3 = seq![")"@, "values"@, "("@];
    let i4 = vallist_tokens(ins.values@, base);
    let i5 = seq![")"@];
    lemma_ph_none(i1);
    lemma_ph_none(i3);
    lemma_ph_none(i5);
    lemma_ph_step(i1, i2, base, 0, 0);
    lemma_ph_step(i1 + i2, i3, base, 0, 0);
    lemma_ph_step(i1 + i2 + i3, i4, base, 0, n1);
    lemma_ph_step(i1 + i2 + i3 + i4, i5, base, n1, 0);
}

/// Placeholder density for an insert (see `lemma_select_ph`).
#[verifier::rlimit(100)]
pub proof fn lemma_insert_ph(ins: Insert, base: nat)
    requires
        wf_insert(ins),
    ensures
        placeholders_of(insert_tokens(ins, base)) == placeholder_run(
            base,
            insert_params(ins).len(),
        ),
    decreases ins,
{
    reveal_strlit("returning");
    let n1 = setlist_params(ins.values@).len();
    let n2 = conflict_params(ins.conflict).len();
    let n3 = opt_expr_params(ins.returning).len();
    lemma_collist_ph(ins.values@);
    lemma_vallist_ph(ins.values@, base);
    lemma_insert_head_ph(ins, base);
    let h = seq!["insert"@, "into"@, quoted(ins.table@), "("@] + collist_tokens(ins.values@)
        + seq![")"@, "values"@, "("@] + vallist_tokens(ins.values@, base) + seq![")"@];
    let i6 = conflict_tokens(ins.conflict, base + n1);
    let i7 = match ins.returning {
        Option::Some(r) => seq!["returning"@] + expr_tokens(r, base + n1 + n2),
        Option::None => Seq::<Seq<char>>::empty(),
    };
    lemma_conflict_ph(ins.conflict, base + n1);
    if ins.returning is Some {
        lemma_expr_ph(ins.returning->0, base + n1 + n2);
        lemma_ph_none(seq!["returning"@]);
        lemma_ph_step(
            seq!["returning"@],
            expr_tokens(ins.returning->0, base + n1 + n2),
            base + n1 + n2,
            0,
            n3,
        );
    } else {
        lemma_ph_none(i7);
    }
    assert(placeholders_of(i7) == placeholder_run(base + n1 + n2, n3));
    lemma_ph_step(h, i6, base, n1, n2);
    lemma_ph_step(h + i6, i7, base, n1 + n2, n3);
    crate::insert::lemma_insert_tokens_flat(ins, base);
    assert(insert_tokens(ins, base) == h + i6 + i7);
    assert(insert_params(ins).len() == n1 + n2 + n3);
}

/// Placeholder density for an update (see `lemma_select_ph`).
#[verifier::rlimit(100)]
pub proof fn lemma_update_ph(u: Update, base: nat)
    requires
        wf_update(u),
    ensures
        placeholders_of(update_tokens(u, base)) == placeholder_run(
            base,
            update_params(u).len(),
        ),
    decreases u,
{
    reveal_strlit("update");
    reveal_strlit("set");
    reveal_strlit("from");
    reveal_strlit("where");
    let n1 = setlist_params(u.set@).len();
    let n2 = njss_params(u.from@).len();
    let n3 = expr_params(u.filter).len();
    let u1 = seq!["update"@, quoted(u.table@), "set"@];
    let u2 = setlist_tokens(u.set@, base);
    let u3 = if u.from@.len() > 0 {
        seq!["from"@] + njss_tokens(u.from@, base + n1)
    } else {
        Seq::<Seq<char>>::empty()
    };
    let u4 = seq!["where"@];
    let u5 = expr_tokens(u.filter, base + n1 + n2);
    lemma_setlist_ph(u.set@, base);
    lemma_expr_ph(u.filter, base + n1 + n2);
    lemma_ph_none(u1);
    lemma_ph_none(u4);
    if u.from@.len() > 0 {
        lemma_njss_ph(u.from@, base + n1);
        lemma_ph_none(seq!["from"@]);
        lemma_ph_step(seq!["from"@], njss_tokens(u.from@, base + n1), base + n1, 0, n2);
    } else {
        lemma_ph_none(u3);
    }
    assert(placeholders_of(u3) == placeholder_run(base + n1, n2));
    lemma_ph_step(u1, u2, base, 0, n1);
    lemma_ph_step(u1 + u2, u3, base, n1, n2);
    lemma_ph_step(u1 + u2 + u3, u4, base, n1 + n2, 0);
    lemma_ph_step(u1 + u2 + u3 + u4, u5, base, n1 + n2, n3);
    assert(update_tokens(u, base) == u1 + u2 + u3 + u4 + u5);
    assert(update_params(u).len() == n1 + n2 + n3);
}

/// Placeholder density for a delete (see `lemma_select_ph`).
#[verifier::rlimit(100)]
pub proof fn lemma_delete_ph(d: Delete, base: nat)
    requires
        wf_delete(d),
    ensures
        placeholders_of(delete_tokens(d, base)) == placeholder_run(
            base,
            delete_params(d).len(),
        ),
    decreases d,
{
    reveal_strlit("delete");
    reveal_strlit("from");
    reveal_strlit("where");
    let d1 = seq!["delete"@, "from"@, quoted(d.table@), "where"@];
    let d2 = opt_expr_tokens(d.filter, base);
    lemma_opt_expr_ph(d.filter, base);
    lemma_ph_none(d1);
    lemma_ph_step(d1, d2, base, 0, opt_expr_params(d.filter).len());
    assert(delete_tokens(d, base) == d1 + d2);
}

/// Building is deterministic: what a node emits is a function of the tree
/// and of the number of parameters already registered, so two compilations
/// of the same statement agree token for token and value for value.
pub proof fn lemma_build_deterministic<T: Buildable>(
    x: &T,
    base: nat,
    t1: Seq<Seq<char>>,
    p1: Seq<ToSqlOutput<'static>>,
    t2: Seq<Seq<char>>,
    p2: Seq<ToSqlOutput<'static>>,
)
    requires
        t1 == x.toks(base),
        p1 == x.prms(),
        t2 == x.toks(base),
        p2 == x.prms(),
    ensures
        t1 == t2,
        p1 == p2,
{
}

/// A join always renders as the two tokens `left` `join`, then its aliased
/// source, then `on`, then its condition.
pub proof fn lemma_join_fixed_form(j: Join, base: nat)
    ensures
        join_tokens(j, base) == seq!["left"@, "join"@] + njs_tokens(*j.source, base)
            + seq!["on"@] + expr_tokens(j.on, base + njs_params(*j.source).len()),
        join_tokens(j, base)[0] == "left"@,
        join_tokens(j, base)[1] == "join"@,
{
    assert(join_tokens(j, base)[0] == "left"@);
    assert(join_tokens(j, base)[1] == "join"@);
}

} // verus!
