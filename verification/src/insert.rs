//! The insert statement: table, ordered (column, value) pairs, an optional
//! conflict policy (update a set-list, or do nothing) and an optional
//! returning expression.

use vstd::prelude::*;

use crate::expr::{build_collist, build_setlist, build_vallist, collist_tokens, expr_tokens,
    opt_expr_params, setlist_params, setlist_tokens, vallist_tokens, Expr};
use crate::token::{lit_token, quoted, quoted_token, space_join};
use crate::{views, Buildable};
use rusqlite::types::ToSqlOutput;

verus! {

broadcast use crate::token::lemma_views_push;

/// The set-list applied when an insert hits a conflict.
pub struct Upsert {
    pub set: Vec<(&'static str, Expr)>,
}

/// What an insert does on a uniqueness conflict.
pub enum Conflict {
    Update(Upsert),
    Ignore,
}

/// An insert statement.
pub struct Insert {
    pub table: &'static str,
    pub values: Vec<(&'static str, Expr)>,
    pub conflict: Option<Conflict>,
    pub returning: Option<Expr>,
}

pub open spec fn conflict_params(c: Option<Conflict>) -> Seq<ToSqlOutput<'static>>
    decreases c,
{
    match c {
        Option::Some(Conflict::Update(u)) => setlist_params(u.set@),
        Option::Some(Conflict::Ignore) => Seq::empty(),
        Option::None => Seq::empty(),
    }
}

pub open spec fn conflict_tokens(c: Option<Conflict>, base: nat) -> Seq<Seq<char>>
    decreases c,
{
    match c {
        Option::Some(Conflict::Update(u)) => seq!["on"@, "conflict"@, "do"@, "update"@, "set"@]
            + setlist_tokens(u.set@, base),
        Option::Some(Conflict::Ignore) => seq!["on"@, "conflict"@, "do"@, "nothing"@],
        Option::None => Seq::empty(),
    }
}

/// The parameter values an insert registers: the value expressions, then the
/// conflict set-list, then the returning expression.
pub open spec fn insert_params(ins: Insert) -> Seq<ToSqlOutput<'static>>
    decreases ins,
{
    setlist_params(ins.values@) + conflict_params(ins.conflict) + opt_expr_params(ins.returning)
}

/// The tokens of an insert statement, in its fixed clause order.
pub open spec fn insert_tokens(ins: Insert, base: nat) -> Seq<Seq<char>>
    decreases ins,
{
    let p1 = base + setlist_params(ins.values@).len();
    let p2 = p1 + conflict_params(ins.conflict).len();
    seq!["insert"@, "into"@, quoted(ins.table@), "("@] + collist_tokens(ins.values@) + seq![
        ")"@,
        "values"@,
        "("@,
    ] + vallist_tokens(ins.values@, base) + seq![")"@] + conflict_tokens(ins.conflict, p1)
        + (match ins.returning {
        Option::Some(r) => seq!["returning"@] + expr_tokens(r, p2),
        Option::None => Seq::empty(),
    })
}

/// The clause-by-clause decomposition of `insert_tokens`.
pub(crate) proof fn lemma_insert_tokens_flat(ins: Insert, base: nat)
    ensures
        insert_tokens(ins, base) == seq!["insert"@, "into"@, quoted(ins.table@), "("@]
            + collist_tokens(ins.values@) + seq![")"@, "values"@, "("@] + vallist_tokens(
            ins.values@,
            base,
        ) + seq![")"@] + conflict_tokens(ins.conflict, base + setlist_params(ins.values@).len()) + (
        match ins.returning {
            Option::Some(r) => seq!["returning"@] + expr_tokens(
                r,
                base + setlist_params(ins.values@).len() + conflict_params(ins.conflict).len(),
            ),
            Option::None => Seq::<Seq<char>>::empty(),
        }),
{
    assert(insert_tokens(ins, base) =~= seq!["insert"@, "into"@, quoted(ins.table@), "("@]
        + collist_tokens(ins.values@) + seq![")"@, "values"@, "("@] + vallist_tokens(
        ins.values@,
        base,
    ) + seq![")"@] + conflict_tokens(ins.conflict, base + setlist_params(ins.values@).len()) + (
    match ins.returning {
        Option::Some(r) => seq!["returning"@] + expr_tokens(
            r,
            base + setlist_params(ins.values@).len() + conflict_params(ins.conflict).len(),
        ),
        Option::None => Seq::<Seq<char>>::empty(),
    }));
}

impl Buildable for Insert {
    open spec fn toks(&self, base: nat) -> Seq<Seq<char>> {
        insert_tokens(*self, base)
    }

    open spec fn prms(&self) -> Seq<ToSqlOutput<'static>> {
        insert_params(*self)
    }

    #[verifier::rlimit(100)]
    #[verifier::spinoff_prover]
    fn build(&self, params: &mut Vec<ToSqlOutput<'static>>, out: &mut Vec<String>) {
        let ghost o0 = views(out@);
        let ghost q0 = params@;
        let ghost b0 = params@.len() as nat;
        let ghost p1 = b0 + setlist_params(self.values@).len();
        let ghost p2 = p1 + conflict_params(self.conflict).len();

        out.push(lit_token("insert"));
        out.push(lit_token("into"));
        out.push(quoted_token(self.table));
        out.push(lit_token("("));
        build_collist(&self.values, 0, out);
        out.push(lit_token(")"));
        out.push(lit_token("values"));
        out.push(lit_token("("));
        build_vallist(&self.values, 0, params, out);
        out.push(lit_token(")"));
        let ghost acc1 = o0 + seq!["insert"@, "into"@, quoted(self.table@), "("@]
            + collist_tokens(self.values@) + seq![")"@, "values"@, "("@] + vallist_tokens(
            self.values@,
            b0,
        ) + seq![")"@];
        proof {
            assert(self.values@.skip(0) =~= self.values@);
            assert(views(out@) =~= acc1);
            assert(params@.len() == p1);
        }
        if let Some(method) = &self.conflict {
            match method {
                Conflict::Update(upsert) => {
                    out.push(lit_token("on"));
                    out.push(lit_token("conflict"));
                    out.push(lit_token("do"));
                    out.push(lit_token("update"));
                    out.push(lit_token("set"));
                    build_setlist(&upsert.set, 0, params, out);
                    proof {
                        assert(upsert.set@.skip(0) =~= upsert.set@);
                    }
                },
                Conflict::Ignore => {
                    out.push(lit_token("on"));
                    out.push(lit_token("conflict"));
                    out.push(lit_token("do"));
                    out.push(lit_token("nothing"));
                },
            }
        }
        let ghost acc2 = acc1 + conflict_tokens(self.conflict, p1);
        proof {
            assert(views(out@) =~= acc2);
            assert(params@.len() == p2);
        }
        if let Some(returning) = &self.returning {
            out.push(lit_token("returning"));
            returning.build(params, out);
        }
        let ghost acc3 = acc2 + (if self.returning is Some {
            seq!["returning"@] + expr_tokens(self.returning->0, p2)
        } else {
            Seq::<Seq<char>>::empty()
        });
        proof {
            assert(views(out@) =~= acc3);
            lemma_insert_tokens_flat(*self, b0);
            assert(acc3 =~= o0 + insert_tokens(*self, b0));
            assert(params@ =~= q0 + insert_params(*self));
        }
    }
}

impl Insert {
    /// Compiles the statement: the returned text is the statement's tokens
    /// joined by single spaces, and the statement's parameter values are
    /// appended to `params` in placeholder order.
    pub fn build_str(&self, params: &mut Vec<ToSqlOutput<'static>>) -> (r: String)
        ensures
            final(params)@ == old(params)@ + insert_params(*self),
            r@ == space_join(insert_tokens(*self, old(params)@.len() as nat)),
    {
        let mut out: Vec<String> = Vec::new();
        self.build(params, &mut out);
        proof {
            assert(views(out@) =~= insert_tokens(*self, old(params)@.len() as nat));
        }
        crate::token::join_space(&out)
    }
}

} // verus!
