//! The quoting law: a column reference anywhere in a statement tree reaches
//! the output as one token of the fixed shape `"table"."column"` — the table
//! and the column name each wrapped in exactly one pair of double quotes,
//! joined by a dot, and otherwise unchanged.

use vstd::prelude::*;

use crate::expr::{collist_tokens, expr_params, expr_tokens, exprs_params, exprs_tokens,
    opt_expr_params, opt_expr_tokens, setlist_params, setlist_tokens, vallist_tokens, Expr};
use crate::insert::conflict_params;
use crate::join::{join_params, join_tokens, joins_params, joins_tokens, njs_params, njs_tokens,
    njss_params, njss_tokens, Join, JoinSource, NamedJoinSource};
use crate::update::{update_tokens, Update};
use crate::delete::{delete_tokens, Delete};
use crate::insert::{conflict_tokens, insert_tokens, Conflict, Insert};
use crate::select::{pairs_tokens, select_tokens, Order, Select};
use crate::token::{dec_digits, field_text, quoted};

verus! {

/// Whether the tree holds a column reference to table `t`, column `n`.
pub open spec fn expr_has_field(e: Expr, t: Seq<char>, n: Seq<char>) -> bool
    decreases e,
{
    match e {
        Expr::Call(c) => exprs_have_field(c.args@, t, n),
        Expr::Chain(c) => exprs_have_field(c.clauses@, t, n),
        Expr::BinOp(b) => expr_has_field(b.l, t, n) || expr_has_field(b.r, t, n),
        Expr::Param(_) => false,
        Expr::Tuple(x) => exprs_have_field(x.values@, t, n),
        Expr::Literal(_) => false,
        Expr::Null(_) => false,
        Expr::Field(f) => f.table@ == t && f.name@ == n,
        Expr::Subsel(s) => select_has_field(s.s, t, n),
    }
}

pub open spec fn exprs_have_field(es: Seq<Expr>, t: Seq<char>, n: Seq<char>) -> bool
    decreases es,
{
    es.len() > 0 && (expr_has_field(es[0], t, n) || exprs_have_field(es.drop_first(), t, n))
}

pub open spec fn opt_expr_has_field(o: Option<Expr>, t: Seq<char>, n: Seq<char>) -> bool
    decreases o,
{
    match o {
        Option::None => false,
        Option::Some(e) => expr_has_field(e, t, n),
    }
}

pub open spec fn pairs_have_field(ps: Seq<(Expr, Order)>, t: Seq<char>, n: Seq<char>) -> bool
    decreases ps,
{
    ps.len() > 0 && (expr_has_field(ps[0].0, t, n) || pairs_have_field(ps.drop_first(), t, n))
}

pub open spec fn njs_has_field(s: NamedJoinSource, t: Seq<char>, n: Seq<char>) -> bool
    decreases s,
{
    match s.source {
        JoinSource::Subsel(sub) => select_has_field(sub, t, n),
        JoinSource::Table(_) => false,
    }
}

pub open spec fn join_has_field(j: Join, t: Seq<char>, n: Seq<char>) -> bool
    decreases j,
{
    njs_has_field(*j.source, t, n) || expr_has_field(j.on, t, n)
}

pub open spec fn joins_have_field(js: Seq<Join>, t: Seq<char>, n: Seq<char>) -> bool
    decreases js,
{
    js.len() > 0 && (join_has_field(js[0], t, n) || joins_have_field(js.drop_first(), t, n))
}

pub open spec fn select_has_field(s: Select, t: Seq<char>, n: Seq<char>) -> bool
    decreases s,
{
    exprs_have_field(s.output@, t, n) || joins_have_field(s.join@, t, n) || opt_expr_has_field(
        s.filter,
        t,
        n,
    ) || exprs_have_field(s.group@, t, n) || pairs_have_field(s.order@, t, n)
}

/// A token of the left list is a token of the concatenation.
proof fn lemma_contains_left(a: Seq<Seq<char>>, b: Seq<Seq<char>>, x: Seq<char>)
    requires
        a.contains(x),
    ensures
        (a + b).contains(x),
{
    let i = choose|i: int| 0 <= i < a.len() && a[i] == x;
    assert((a + b)[i] == x);
}

/// A token of the right list is a token of the concatenation.
proof fn lemma_contains_right(a: Seq<Seq<char>>, b: Seq<Seq<char>>, x: Seq<char>)
    requires
        b.contains(x),
    ensures
        (a + b).contains(x),
{
    let i = choose|i: int| 0 <= i < b.len() && b[i] == x;
    assert((a + b)[a.len() + i] == x);
}

#[verifier::rlimit(100)]
#[verifier::spinoff_prover]
proof fn lemma_expr_field(e: Expr, t: Seq<char>, n: Seq<char>, base: nat)
    requires
        expr_has_field(e, t, n),
    ensures
        expr_tokens(e, base).contains(field_text(t, n)),
    decreases e,
{
    let x = field_text(t, n);
    match e {
        Expr::Call(c) => {
            lemma_exprs_field(c.args@, t, n, base, ","@);
            lemma_contains_right(seq![c.func@, "("@], exprs_tokens(c.args@, base, ","@), x);
            lemma_contains_left(
                seq![c.func@, "("@] + exprs_tokens(c.args@, base, ","@),
                seq![")"@],
                x,
            );
        },
        Expr::Chain(c) => {
            lemma_exprs_field(c.clauses@, t, n, base, c.op@);
            lemma_contains_right(seq!["("@], exprs_tokens(c.clauses@, base, c.op@), x);
            lemma_contains_left(seq!["("@] + exprs_tokens(c.clauses@, base, c.op@), seq![")"@], x);
        },
        Expr::BinOp(b) => {
            let tl = expr_tokens(b.l, base);
            let tr = expr_tokens(b.r, base + expr_params(b.l).len());
            if expr_has_field(b.l, t, n) {
                lemma_expr_field(b.l, t, n, base);
                lemma_contains_right(seq!["("@], tl, x);
                lemma_contains_left(seq!["("@] + tl, seq![b.op@], x);
                lemma_contains_left(seq!["("@] + tl + seq![b.op@], tr, x);
            } else {
                lemma_expr_field(b.r, t, n, base + expr_params(b.l).len());
                lemma_contains_right(seq!["("@] + tl + seq![b.op@], tr, x);
            }
            lemma_contains_left(seq!["("@] + tl + seq![b.op@] + tr, seq![")"@], x);
        },
        Expr::Param(_) => {},
        Expr::Tuple(c) => {
            lemma_exprs_field(c.values@, t, n, base, ","@);
            lemma_contains_right(seq!["("@], exprs_tokens(c.values@, base, ","@), x);
            lemma_contains_left(seq!["("@] + exprs_tokens(c.values@, base, ","@), seq![")"@], x);
        },
        Expr::Literal(_) => {},
        Expr::Null(_) => {},
        Expr::Field(f) => {
            assert(expr_tokens(e, base)[0] == x);
        },
        Expr::Subsel(s) => {
            lemma_select_field(s.s, t, n, base);
            lemma_contains_right(seq!["("@], select_tokens(s.s, base), x);
            lemma_contains_left(seq!["("@] + select_tokens(s.s, base), seq![")"@], x);
        },
    }
}

#[verifier::rlimit(100)]
#[verifier::spinoff_prover]
proof fn lemma_exprs_field(es: Seq<Expr>, t: Seq<char>, n: Seq<char>, base: nat, sep: Seq<char>)
    requires
        exprs_have_field(es, t, n),
    ensures
        exprs_tokens(es, base, sep).contains(field_text(t, n)),
    decreases es,
{
    let x = field_text(t, n);
    if es.len() == 1 {
        reveal_with_fuel(exprs_have_field, 2);
        lemma_expr_field(es[0], t, n, base);
    } else {
        let t0 = expr_tokens(es[0], base);
        let rest = exprs_tokens(es.drop_first(), base + expr_params(es[0]).len(), sep);
        if expr_has_field(es[0], t, n) {
            lemma_expr_field(es[0], t, n, base);
            lemma_contains_left(t0, seq![sep], x);
            lemma_contains_left(t0 + seq![sep], rest, x);
        } else {
            lemma_exprs_field(es.drop_first(), t, n, base + expr_params(es[0]).len(), sep);
            lemma_contains_right(t0 + seq![sep], rest, x);
        }
    }
}

#[verifier::rlimit(100)]
#[verifier::spinoff_prover]
proof fn lemma_pairs_field(ps: Seq<(Expr, Order)>, t: Seq<char>, n: Seq<char>, base: nat)
    requires
        pairs_have_field(ps, t, n),
    ensures
        pairs_tokens(ps, base).contains(field_text(t, n)),
    decreases ps,
{
    let x = field_text(t, n);
    if ps.len() == 1 {
        reveal_with_fuel(pairs_have_field, 2);
        lemma_expr_field(ps[0].0, t, n, base);
        lemma_contains_left(
            expr_tokens(ps[0].0, base),
            seq![crate::select::order_text(ps[0].1)],
            x,
        );
    } else {
        let t0 = expr_tokens(ps[0].0, base);
        let rest = pairs_tokens(ps.drop_first(), base + expr_params(ps[0].0).len());
        if expr_has_field(ps[0].0, t, n) {
            lemma_expr_field(ps[0].0, t, n, base);
            lemma_contains_left(t0, seq![crate::select::order_text(ps[0].1), ","@], x);
            lemma_contains_left(t0 + seq![crate::select::order_text(ps[0].1), ","@], rest, x);
        } else {
            lemma_pairs_field(ps.drop_first(), t, n, base + expr_params(ps[0].0).len());
            lemma_contains_right(t0 + seq![crate::select::order_text(ps[0].1), ","@], rest, x);
        }
    }
}

#[verifier::rlimit(100)]
#[verifier::spinoff_prover]
proof fn lemma_njs_field(s: NamedJoinSource, t: Seq<char>, n: Seq<char>, base: nat)
    requires
        njs_has_field(s, t, n),
    ensures
        njs_tokens(s, base).contains(field_text(t, n)),
    decreases s,
{
    let x = field_text(t, n);
    match s.source {
        JoinSource::Subsel(sub) => {
            lemma_select_field(sub, t, n, base);
            lemma_contains_right(seq!["("@], select_tokens(sub, base), x);
            lemma_contains_left(seq!["("@] + select_tokens(sub, base), seq![")"@], x);
            lemma_contains_left(
                seq!["("@] + select_tokens(sub, base) + seq![")"@],
                seq!["as"@, quoted(s.alias@)],
                x,
            );
        },
        JoinSource::Table(_) => {},
    }
}

#[verifier::rlimit(100)]
#[verifier::spinoff_prover]
proof fn lemma_join_field(j: Join, t: Seq<char>, n: Seq<char>, base: nat)
    requires
        join_has_field(j, t, n),
    ensures
        join_tokens(j, base).contains(field_text(t, n)),
    decreases j,
{
    let x = field_text(t, n);
    let ts = njs_tokens(*j.source, base);
    let te = expr_tokens(j.on, base + njs_params(*j.source).len());
    if njs_has_field(*j.source, t, n) {
        lemma_njs_field(*j.source, t, n, base);
        lemma_contains_right(seq!["left"@, "join"@], ts, x);
        lemma_contains_left(seq!["left"@, "join"@] + ts, seq!["on"@], x);
        lemma_contains_left(seq!["left"@, "join"@] + ts + seq!["on"@], te, x);
    } else {
        lemma_expr_field(j.on, t, n, base + njs_params(*j.source).len());
        lemma_contains_right(seq!["left"@, "join"@] + ts + seq!["on"@], te, x);
    }
}

#[verifier::rlimit(100)]
#[verifier::spinoff_prover]
proof fn lemma_joins_field(js: Seq<Join>, t: Seq<char>, n: Seq<char>, base: nat)
    requires
        joins_have_field(js, t, n),
    ensures
        joins_tokens(js, base).contains(field_text(t, n)),
    decreases js,
{
    let x = field_text(t, n);
    let t0 = join_tokens(js[0], base);
    let rest = joins_tokens(js.drop_first(), base + join_params(js[0]).len());
    if join_has_field(js[0], t, n) {
        lemma_join_field(js[0], t, n, base);
        lemma_contains_left(t0, rest, x);
    } else {
        lemma_joins_field(js.drop_first(), t, n, base + join_params(js[0]).len());
        lemma_contains_right(t0, rest, x);
    }
}

/// The quoting law for a select statement: wherever a column reference to
/// table `t`, column `n` stands in the tree, the emitted tokens contain the
/// single token `"t"."n"` — each identifier wrapped in exactly one pair of
/// double quotes, unchanged otherwise.
#[verifier::rlimit(100)]
#[verifier::spinoff_prover]
pub proof fn lemma_select_field(s: Select, t: Seq<char>, n: Seq<char>, base: nat)
    requires
        select_has_field(s, t, n),
    ensures
        select_tokens(s, base).contains(field_text(t, n)),
    decreases s,
{
    let x = field_text(t, n);
    let n1 = exprs_params(s.output@).len();
    let n2 = joins_params(s.join@).len();
    let n3 = opt_expr_params(s.filter).len();
    let n4 = exprs_params(s.group@).len();
    crate::select::lemma_select_tokens_flat(s, base);
    let s1 = seq!["select"@];
    let s2 = exprs_tokens(s.output@, base, ","@);
    let s3 = seq!["from"@, quoted(s.table@)];
    let s4 = joins_tokens(s.join@, base + n1);
    let s5 = seq!["where"@];
    let s6 = opt_expr_tokens(s.filter, base + n1 + n2);
    let s7 = if s.group@.len() > 0 {
        seq!["group by"@] + exprs_tokens(s.group@, base + n1 + n2 + n3, ","@)
    } else {
        Seq::<Seq<char>>::empty()
    };
    let s8 = if s.order@.len() > 0 {
        seq!["order by"@] + pairs_tokens(s.order@, base + n1 + n2 + n3 + n4)
    } else {
        Seq::<Seq<char>>::empty()
    };
    let s9 = match s.limit {
        Option::Some(l) => seq!["limit"@, dec_digits(l as nat)],
        Option::None => Seq::<Seq<char>>::empty(),
    };
    if exprs_have_field(s.output@, t, n) {
        lemma_exprs_field(s.output@, t, n, base, ","@);
        lemma_contains_right(s1, s2, x);
        lemma_contains_left(s1 + s2, s3, x);
        lemma_contains_left(s1 + s2 + s3, s4, x);
        lemma_contains_left(s1 + s2 + s3 + s4, s5, x);
        lemma_contains_left(s1 + s2 + s3 + s4 + s5, s6, x);
    } else if joins_have_field(s.join@, t, n) {
        lemma_joins_field(s.join@, t, n, base + n1);
        lemma_contains_right(s1 + s2 + s3, s4, x);
        lemma_contains_left(s1 + s2 + s3 + s4, s5, x);
        lemma_contains_left(s1 + s2 + s3 + s4 + s5, s6, x);
    } else if opt_expr_has_field(s.filter, t, n) {
        lemma_expr_field(s.filter->0, t, n, base + n1 + n2);
        lemma_contains_right(s1 + s2 + s3 + s4 + s5, s6, x);
    } else if exprs_have_field(s.group@, t, n) {
        lemma_exprs_field(s.group@, t, n, base + n1 + n2 + n3, ","@);
        lemma_contains_right(
            seq!["group by"@],
            exprs_tokens(s.group@, base + n1 + n2 + n3, ","@),
            x,
        );
    } else {
        lemma_pairs_field(s.order@, t, n, base + n1 + n2 + n3 + n4);
        lemma_contains_right(
            seq!["order by"@],
            pairs_tokens(s.order@, base + n1 + n2 + n3 + n4),
            x,
        );
    }
    if exprs_have_field(s.output@, t, n) || joins_have_field(s.join@, t, n)
        || opt_expr_has_field(s.filter, t, n) {
        lemma_contains_left(s1 + s2 + s3 + s4 + s5 + s6, s7, x);
        lemma_contains_left(s1 + s2 + s3 + s4 + s5 + s6 + s7, s8, x);
    } else if exprs_have_field(s.group@, t, n) {
        lemma_contains_right(s1 + s2 + s3 + s4 + s5 + s6, s7, x);
        lemma_contains_left(s1 + s2 + s3 + s4 + s5 + s6 + s7, s8, x);
    } else {
        lemma_contains_right(s1 + s2 + s3 + s4 + s5 + s6 + s7, s8, x);
    }
    lemma_contains_left(s1 + s2 + s3 + s4 + s5 + s6 + s7 + s8, s9, x);
    assert(select_tokens(s, base) == s1 + s2 + s3 + s4 + s5 + s6 + s7 + s8 + s9);
}


pub open spec fn setlist_has_field(vs: Seq<(&'static str, Expr)>, t: Seq<char>, n: Seq<char>) -> bool
    decreases vs,
{
    vs.len() > 0 && (expr_has_field(vs[0].1, t, n) || setlist_has_field(vs.drop_first(), t, n))
}

pub open spec fn njss_have_field(ns: Seq<NamedJoinSource>, t: Seq<char>, n: Seq<char>) -> bool
    decreases ns,
{
    ns.len() > 0 && (njs_has_field(ns[0], t, n) || njss_have_field(ns.drop_first(), t, n))
}

pub open spec fn conflict_has_field(c: Option<Conflict>, t: Seq<char>, n: Seq<char>) -> bool
    decreases c,
{
    match c {
        Option::Some(Conflict::Update(u)) => setlist_has_field(u.set@, t, n),
        _ => false,
    }
}

pub open spec fn insert_has_field(ins: Insert, t: Seq<char>, n: Seq<char>) -> bool
    decreases ins,
{
    setlist_has_field(ins.values@, t, n) || conflict_has_field(ins.conflict, t, n)
        || opt_expr_has_field(ins.returning, t, n)
}

pub open spec fn update_has_field(u: Update, t: Seq<char>, n: Seq<char>) -> bool
    decreases u,
{
    setlist_has_field(u.set@, t, n) || njss_have_field(u.from@, t, n) || expr_has_field(
        u.filter,
        t,
        n,
    )
}

pub open spec fn delete_has_field(d: Delete, t: Seq<char>, n: Seq<char>) -> bool
    decreases d,
{
    opt_expr_has_field(d.filter, t, n)
}

#[verifier::rlimit(100)]
#[verifier::spinoff_prover]
proof fn lemma_setlist_field(vs: Seq<(&'static str, Expr)>, t: Seq<char>, n: Seq<char>, base: nat)
    requires
        setlist_has_field(vs, t, n),
    ensures
        setlist_tokens(vs, base).contains(field_text(t, n)),
    decreases vs,
{
    let x = field_text(t, n);
    if vs.len() == 1 {
        reveal_with_fuel(setlist_has_field, 2);
        lemma_expr_field(vs[0].1, t, n, base);
        lemma_contains_right(seq![quoted(vs[0].0@), "="@], expr_tokens(vs[0].1, base), x);
    } else {
        let t0 = expr_tokens(vs[0].1, base);
        let rest = setlist_tokens(vs.drop_first(), base + expr_params(vs[0].1).len());
        if expr_has_field(vs[0].1, t, n) {
            lemma_expr_field(vs[0].1, t, n, base);
            lemma_contains_right(seq![quoted(vs[0].0@), "="@], t0, x);
            lemma_contains_left(seq![quoted(vs[0].0@), "="@] + t0, seq![","@], x);
            lemma_contains_left(seq![quoted(vs[0].0@), "="@] + t0 + seq![","@], rest, x);
        } else {
            lemma_setlist_field(vs.drop_first(), t, n, base + expr_params(vs[0].1).len());
            lemma_contains_right(seq![quoted(vs[0].0@), "="@] + t0 + seq![","@], rest, x);
        }
    }
}

#[verifier::rlimit(100)]
#[verifier::spinoff_prover]
proof fn lemma_vallist_field(vs: Seq<(&'static str, Expr)>, t: Seq<char>, n: Seq<char>, base: nat)
    requires
        setlist_has_field(vs, t, n),
    ensures
        vallist_tokens(vs, base).contains(field_text(t, n)),
    decreases vs,
{
    let x = field_text(t, n);
    if vs.len() == 1 {
        reveal_with_fuel(setlist_has_field, 2);
        lemma_expr_field(vs[0].1, t, n, base);
    } else {
        let t0 = expr_tokens(vs[0].1, base);
        let rest = vallist_tokens(vs.drop_first(), base + expr_params(vs[0].1).len());
        if expr_has_field(vs[0].1, t, n) {
            lemma_expr_field(vs[0].1, t, n, base);
            lemma_contains_left(t0, seq![","@], x);
            lemma_contains_left(t0 + seq![","@], rest, x);
        } else {
            lemma_vallist_field(vs.drop_first(), t, n, base + expr_params(vs[0].1).len());
            lemma_contains_right(t0 + seq![","@], rest, x);
        }
    }
}

#[verifier::rlimit(100)]
#[verifier::spinoff_prover]
proof fn lemma_njss_field(ns: Seq<NamedJoinSource>, t: Seq<char>, n: Seq<char>, base: nat)
    requires
        njss_have_field(ns, t, n),
    ensures
        njss_tokens(ns, base).contains(field_text(t, n)),
    decreases ns,
{
    let x = field_text(t, n);
    let t0 = njs_tokens(ns[0], base);
    let rest = njss_tokens(ns.drop_first(), base + njs_params(ns[0]).len());
    if njs_has_field(ns[0], t, n) {
        lemma_njs_field(ns[0], t, n, base);
        lemma_contains_left(t0, rest, x);
    } else {
        lemma_njss_field(ns.drop_first(), t, n, base + njs_params(ns[0]).len());
        lemma_contains_right(t0, rest, x);
    }
}

#[verifier::rlimit(100)]
#[verifier::spinoff_prover]
proof fn lemma_conflict_field(c: Option<Conflict>, t: Seq<char>, n: Seq<char>, base: nat)
    requires
        conflict_has_field(c, t, n),
    ensures
        conflict_tokens(c, base).contains(field_text(t, n)),
    decreases c,
{
    let x = field_text(t, n);
    match c {
        Option::Some(Conflict::Update(u)) => {
            lemma_setlist_field(u.set@, t, n, base);
            lemma_contains_right(
                seq!["on"@, "conflict"@, "do"@, "update"@, "set"@],
                setlist_tokens(u.set@, base),
                x,
            );
        },
        _ => {},
    }
}

/// The quoting law for an insert statement (see `lemma_select_field`).
#[verifier::rlimit(100)]
#[verifier::spinoff_prover]
pub proof fn lemma_insert_field(ins: Insert, t: Seq<char>, n: Seq<char>, base: nat)
    requires
        insert_has_field(ins, t, n),
    ensures
        insert_tokens(ins, base).contains(field_text(t, n)),
    decreases ins,
{
    let x = field_text(t, n);
    let n1 = setlist_params(ins.values@).len();
    let n2 = conflict_params(ins.conflict).len();
    crate::insert::lemma_insert_tokens_flat(ins, base);
    let i1 = seq!["insert"@, "into"@, quoted(ins.table@), "("@];
    let i2 = collist_tokens(ins.values@);
    let i3 = seq![")"@, "values"@, "("@];
    let i4 = vallist_tokens(ins.values@, base);
    let i5 = seq![")"@];
    let i6 = conflict_tokens(ins.conflict, base + n1);
    let i7 = match ins.returning {
        Option::Some(r) => seq!["returning"@] + expr_tokens(r, base + n1 + n2),
        Option::None => Seq::<Seq<char>>::empty(),
    };
    if setlist_has_field(ins.values@, t, n) {
        lemma_vallist_field(ins.values@, t, n, base);
        lemma_contains_right(i1 + i2 + i3, i4, x);
        lemma_contains_left(i1 + i2 + i3 + i4, i5, x);
        lemma_contains_left(i1 + i2 + i3 + i4 + i5, i6, x);
    } else if conflict_has_field(ins.conflict, t, n) {
        lemma_conflict_field(ins.conflict, t, n, base + n1);
        lemma_contains_right(i1 + i2 + i3 + i4 + i5, i6, x);
    } else {
        lemma_expr_field(ins.returning->0, t, n, base + n1 + n2);
        lemma_contains_right(seq!["returning"@], expr_tokens(ins.returning->0, base + n1 + n2), x);
        lemma_contains_right(i1 + i2 + i3 + i4 + i5 + i6, i7, x);
    }
    if setlist_has_field(ins.values@, t, n) || conflict_has_field(ins.conflict, t, n) {
        lemma_contains_left(i1 + i2 + i3 + i4 + i5 + i6, i7, x);
    }
    assert(insert_tokens(ins, base) == i1 + i2 + i3 + i4 + i5 + i6 + i7);
}

/// The quoting law for an update statement (see `lemma_select_field`).
#[verifier::rlimit(100)]
#[verifier::spinoff_prover]
pub proof fn lemma_update_field(u: Update, t: Seq<char>, n: Seq<char>, base: nat)
    requires
        update_has_field(u, t, n),
    ensures
        update_tokens(u, base).contains(field_text(t, n)),
    decreases u,
{
    let x = field_text(t, n);
    let n1 = setlist_params(u.set@).len();
    let n2 = njss_params(u.from@).len();
    let u1 = seq!["update"@, quoted(u.table@), "set"@];
    let u2 = setlist_tokens(u.set@, base);
    let u3 = if u.from@.len() > 0 {
        seq!["from"@] + njss_tokens(u.from@, base + n1)
    } else {
        Seq::<Seq<char>>::empty()
    };
    let u4 = seq!["where"@];
    let u5 = expr_tokens(u.filter, base + n1 + n2);
    if setlist_has_field(u.set@, t, n) {
        lemma_setlist_field(u.set@, t, n, base);
        lemma_contains_right(u1, u2, x);
        lemma_contains_left(u1 + u2, u3, x);
        lemma_contains_left(u1 + u2 + u3, u4, x);
        lemma_contains_left(u1 + u2 + u3 + u4, u5, x);
    } else if njss_have_field(u.from@, t, n) {
        lemma_njss_field(u.from@, t, n, base + n1);
        lemma_contains_right(seq!["from"@], njss_tokens(u.from@, base + n1), x);
        lemma_contains_right(u1 + u2, u3, x);
        lemma_contains_left(u1 + u2 + u3, u4, x);
        lemma_contains_left(u1 + u2 + u3 + u4, u5, x);
    } else {
        lemma_expr_field(u.filter, t, n, base + n1 + n2);
        lemma_contains_right(u1 + u2 + u3 + u4, u5, x);
    }
    assert(update_tokens(u, base) == u1 + u2 + u3 + u4 + u5);
}

/// The quoting law for a delete statement (see `lemma_select_field`).
#[verifier::rlimit(100)]
#[verifier::spinoff_prover]
pub proof fn lemma_delete_field(d: Delete, t: Seq<char>, n: Seq<char>, base: nat)
    requires
        delete_has_field(d, t, n),
    ensures
        delete_tokens(d, base).contains(field_text(t, n)),
    decreases d,
{
    let x = field_text(t, n);
    lemma_expr_field(d.filter->0, t, n, base);
    lemma_contains_right(
        seq!["delete"@, "from"@, quoted(d.table@), "where"@],
        opt_expr_tokens(d.filter, base),
        x,
    );
    assert(delete_tokens(d, base) == seq!["delete"@, "from"@, quoted(d.table@), "where"@]
        + opt_expr_tokens(d.filter, base));
}

} // verus!
