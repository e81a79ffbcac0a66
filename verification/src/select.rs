//! The select statement: output expressions, joins, optional filter,
//! grouping, ordering and limit, rendered in that fixed clause order.

use vstd::prelude::*;

use crate::expr::{build_exprs, expr_params, expr_tokens, exprs_params, exprs_tokens,
    opt_expr_params, opt_expr_tokens, Expr};
use crate::join::{build_joins, joins_params, joins_tokens, Join};
use crate::token::{dec_digits, lit_token, quoted, quoted_token, space_join, usize_token};
use crate::{views, Buildable};
use rusqlite::types::ToSqlOutput;

verus! {

broadcast use crate::token::lemma_views_push;

/// The direction modifier of one order-by entry.
#[derive(Copy, Clone)]
pub enum Order {
    Asc,
    Desc,
}

/// A select statement.
pub struct Select {
    pub table: &'static str,
    pub output: Vec<Expr>,
    pub join: Vec<Join>,
    pub filter: Option<Expr>,
    pub group: Vec<Expr>,
    pub order: Vec<(Expr, Order)>,
    pub limit: Option<usize>,
}

pub open spec fn order_text(o: Order) -> Seq<char> {
    match o {
        Order::Asc => "asc"@,
        Order::Desc => "desc"@,
    }
}

pub open spec fn pairs_params(ps: Seq<(Expr, Order)>) -> Seq<ToSqlOutput<'static>>
    decreases ps,
{
    if ps.len() == 0 {
        Seq::empty()
    } else {
        expr_params(ps[0].0) + pairs_params(ps.drop_first())
    }
}

pub open spec fn pairs_tokens(ps: Seq<(Expr, Order)>, base: nat) -> Seq<Seq<char>>
    decreases ps,
{
    if ps.len() == 0 {
        Seq::empty()
    } else if ps.len() == 1 {
        expr_tokens(ps[0].0, base) + seq![order_text(ps[0].1)]
    } else {
        expr_tokens(ps[0].0, base) + seq![order_text(ps[0].1), ","@] + pairs_tokens(
            ps.drop_first(),
            base + expr_params(ps[0].0).len(),
        )
    }
}

/// The parameter values a select registers: output expressions, then joins,
/// then the filter, then group and order expressions.
pub open spec fn select_params(s: Select) -> Seq<ToSqlOutput<'static>>
    decreases s,
{
    exprs_params(s.output@) + joins_params(s.join@) + opt_expr_params(s.filter) + exprs_params(
        s.group@,
    ) + pairs_params(s.order@)
}

/// The tokens of a select statement, in its fixed clause order.
pub open spec fn select_tokens(s: Select, base: nat) -> Seq<Seq<char>>
    decreases s,
{
    let p1 = base + exprs_params(s.output@).len();
    let p2 = p1 + joins_params(s.join@).len();
    let p3 = p2 + opt_expr_params(s.filter).len();
    let p4 = p3 + exprs_params(s.group@).len();
    seq!["select"@] + exprs_tokens(s.output@, base, ","@) + seq!["from"@, quoted(s.table@)]
        + joins_tokens(s.join@, p1) + seq!["where"@] + opt_expr_tokens(s.filter, p2) + (
    if s.group@.len() > 0 {
        seq!["group by"@] + exprs_tokens(s.group@, p3, ","@)
    } else {
        Seq::empty()
    }) + (if s.order@.len() > 0 {
        seq!["order by"@] + pairs_tokens(s.order@, p4)
    } else {
        Seq::empty()
    }) + (match s.limit {
        Option::Some(l) => seq!["limit"@, dec_digits(l as nat)],
        Option::None => Seq::empty(),
    })
}

impl Buildable for Order {
    open spec fn toks(&self, base: nat) -> Seq<Seq<char>> {
        seq![order_text(*self)]
    }

    open spec fn prms(&self) -> Seq<ToSqlOutput<'static>> {
        Seq::empty()
    }

    fn build(&self, params: &mut Vec<ToSqlOutput<'static>>, out: &mut Vec<String>) {
        match self {
            Order::Asc => out.push(lit_token("asc")),
            Order::Desc => out.push(lit_token("desc")),
        }
        proof {
            assert(final(params)@ =~= old(params)@ + self.prms());
            assert(views(final(out)@) =~= views(old(out)@) + self.toks(old(params)@.len() as nat));
        }
    }
}

/// Builds every (expression, direction) pair of `ps` from index `i` on, with
/// a comma between adjacent pairs.
pub(crate) fn build_pairs(
    ps: &Vec<(Expr, Order)>,
    i: usize,
    params: &mut Vec<ToSqlOutput<'static>>,
    out: &mut Vec<String>,
)
    requires
        i <= ps.len(),
    ensures
        final(params)@ == old(params)@ + pairs_params(ps@.skip(i as int)),
        views(final(out)@) == views(old(out)@) + pairs_tokens(
            ps@.skip(i as int),
            old(params)@.len() as nat,
        ),
    decreases ps@.subrange(i as int, ps@.len() as int),
{
    if i < ps.len() {
        let p = &ps[i];
        proof {
            assert(ps@.subrange(i as int, ps@.len() as int)[0] == ps@[i as int]);
        }
        p.0.build(params, out);
        p.1.build(params, out);
        if i + 1 < ps.len() {
            out.push(lit_token(","));
            proof {
                assert(ps@.subrange(i as int + 1, ps@.len() as int) =~= ps@.subrange(
                    i as int,
                    ps@.len() as int,
                ).subrange(1, ps@.len() - i));
            }
            build_pairs(ps, i + 1, params, out);
        }
        proof {
            assert(ps@.skip(i as int).drop_first() =~= ps@.skip(i as int + 1));
            assert(ps@.skip(i as int)[0] == ps@[i as int]);
            assert(final(params)@ =~= old(params)@ + pairs_params(ps@.skip(i as int)));
            assert(views(final(out)@) =~= views(old(out)@) + pairs_tokens(
                ps@.skip(i as int),
                old(params)@.len() as nat,
            ));
        }
    } else {
        proof {
            assert(ps@.skip(i as int) =~= Seq::<(Expr, Order)>::empty());
            assert(final(params)@ =~= old(params)@ + pairs_params(ps@.skip(i as int)));
            assert(views(final(out)@) =~= views(old(out)@) + pairs_tokens(
                ps@.skip(i as int),
                old(params)@.len() as nat,
            ));
        }
    }
}


/// The clause-by-clause decomposition of `select_tokens`.
pub(crate) proof fn lemma_select_tokens_flat(s: Select, base: nat)
    ensures
        select_tokens(s, base) == seq!["select"@] + exprs_tokens(s.output@, base, ","@) + seq![
            "from"@,
            quoted(s.table@),
        ] + joins_tokens(s.join@, base + exprs_params(s.output@).len()) + seq!["where"@]
            + opt_expr_tokens(
            s.filter,
            base + exprs_params(s.output@).len() + joins_params(s.join@).len(),
        ) + (if s.group@.len() > 0 {
            seq!["group by"@] + exprs_tokens(
                s.group@,
                base + exprs_params(s.output@).len() + joins_params(s.join@).len()
                    + opt_expr_params(s.filter).len(),
                ","@,
            )
        } else {
            Seq::<Seq<char>>::empty()
        }) + (if s.order@.len() > 0 {
            seq!["order by"@] + pairs_tokens(
                s.order@,
                base + exprs_params(s.output@).len() + joins_params(s.join@).len()
                    + opt_expr_params(s.filter).len() + exprs_params(s.group@).len(),
            )
        } else {
            Seq::<Seq<char>>::empty()
        }) + (match s.limit {
            Option::Some(l) => seq!["limit"@, dec_digits(l as nat)],
            Option::None => Seq::<Seq<char>>::empty(),
        }),
{
    assert(select_tokens(s, base) =~= seq!["select"@] + exprs_tokens(s.output@, base, ","@) + seq![
        "from"@,
        quoted(s.table@),
    ] + joins_tokens(s.join@, base + exprs_params(s.output@).len()) + seq!["where"@]
        + opt_expr_tokens(
        s.filter,
        base + exprs_params(s.output@).len() + joins_params(s.join@).len(),
    ) + (if s.group@.len() > 0 {
        seq!["group by"@] + exprs_tokens(
            s.group@,
            base + exprs_params(s.output@).len() + joins_params(s.join@).len()
                + opt_expr_params(s.filter).len(),
            ","@,
        )
    } else {
        Seq::<Seq<char>>::empty()
    }) + (if s.order@.len() > 0 {
        seq!["order by"@] + pairs_tokens(
            s.order@,
            base + exprs_params(s.output@).len() + joins_params(s.join@).len()
                + opt_expr_params(s.filter).len() + exprs_params(s.group@).len(),
        )
    } else {
        Seq::<Seq<char>>::empty()
    }) + (match s.limit {
        Option::Some(l) => seq!["limit"@, dec_digits(l as nat)],
        Option::None => Seq::<Seq<char>>::empty(),
    }));
}

impl Buildable for Select {
    open spec fn toks(&self, base: nat) -> Seq<Seq<char>> {
        select_tokens(*self, base)
    }

    open spec fn prms(&self) -> Seq<ToSqlOutput<'static>> {
        select_params(*self)
    }

    #[verifier::rlimit(100)]
    #[verifier::spinoff_prover]
    fn build(&self, params: &mut Vec<ToSqlOutput<'static>>, out: &mut Vec<String>)
        decreases *self,
    {
        let ghost o0 = views(out@);
        let ghost q0 = params@;
        let ghost b0 = params@.len() as nat;
        let ghost p1 = b0 + exprs_params(self.output@).len();
        let ghost p2 = p1 + joins_params(self.join@).len();
        let ghost p3 = p2 + opt_expr_params(self.filter).len();
        let ghost p4 = p3 + exprs_params(self.group@).len();

        out.push(lit_token("select"));
        proof {
            assert(self.output@.subrange(0, self.output@.len() as int) =~= self.output@);
        }
        build_exprs(&self.output, 0, ",", params, out);
        out.push(lit_token("from"));
        out.push(quoted_token(self.table));
        let ghost acc1 = o0 + seq!["select"@] + exprs_tokens(self.output@, b0, ","@) + seq![
            "from"@,
            quoted(self.table@),
        ];
        proof {
            assert(self.output@.skip(0) =~= self.output@);
            assert(views(out@) =~= acc1);
            assert(params@.len() == p1);
            assert(self.join@.subrange(0, self.join@.len() as int) =~= self.join@);
        }
        build_joins(&self.join, 0, params, out);
        out.push(lit_token("where"));
        let ghost acc2 = acc1 + joins_tokens(self.join@, p1) + seq!["where"@];
        proof {
            assert(self.join@.skip(0) =~= self.join@);
            assert(views(out@) =~= acc2);
            assert(params@.len() == p2);
        }
        if let Some(filter) = &self.filter {
            filter.build(params, out);
        }
        let ghost acc3 = acc2 + opt_expr_tokens(self.filter, p2);
        proof {
            assert(views(out@) =~= acc3);
            assert(params@.len() == p3);
        }
        if self.group.len() > 0 {
            out.push(lit_token("group by"));
            proof {
                assert(self.group@.subrange(0, self.group@.len() as int) =~= self.group@);
            }
            build_exprs(&self.group, 0, ",", params, out);
        }
        let ghost acc4 = acc3 + (if self.group@.len() > 0 {
            seq!["group by"@] + exprs_tokens(self.group@, p3, ","@)
        } else {
            Seq::<Seq<char>>::empty()
        });
        proof {
            assert(self.group@.skip(0) =~= self.group@);
            assert(views(out@) =~= acc4);
            assert(params@.len() == p4);
        }
        if self.order.len() > 0 {
            out.push(lit_token("order by"));
            proof {
                assert(self.order@.subrange(0, self.order@.len() as int) =~= self.order@);
            }
            build_pairs(&self.order, 0, params, out);
        }
        let ghost acc5 = acc4 + (if self.order@.len() > 0 {
            seq!["order by"@] + pairs_tokens(self.order@, p4)
        } else {
            Seq::<Seq<char>>::empty()
        });
        proof {
            assert(self.order@.skip(0) =~= self.order@);
            assert(views(out@) =~= acc5);
        }
        if let Some(l) = self.limit {
            out.push(lit_token("limit"));
            out.push(usize_token(l));
        }
        let ghost acc6 = acc5 + (match self.limit {
            Option::Some(l) => seq!["limit"@, dec_digits(l as nat)],
            Option::None => Seq::<Seq<char>>::empty(),
        });
        proof {
            assert(views(out@) =~= acc6);
            lemma_select_tokens_flat(*self, b0);
            assert(acc6 =~= o0 + select_tokens(*self, b0));
            assert(params@ =~= q0 + select_params(*self));
        }
    }
}

impl Select {
    /// Compiles the statement: the returned text is the statement's tokens
    /// joined by single spaces, and the statement's parameter values are
    /// appended to `params` in placeholder order.
    pub fn build_str(&self, params: &mut Vec<ToSqlOutput<'static>>) -> (r: String)
        ensures
            final(params)@ == old(params)@ + select_params(*self),
            r@ == space_join(select_tokens(*self, old(params)@.len() as nat)),
    {
        let mut out: Vec<String> = Vec::new();
        self.build(params, &mut out);
        proof {
            assert(views(out@) =~= select_tokens(*self, old(params)@.len() as nat));
        }
        crate::token::join_space(&out)
    }
}

} // verus!
