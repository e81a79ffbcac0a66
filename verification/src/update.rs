//! The update statement: table, ordered set assignments, optional additional
//! named sources, and a mandatory filter.

use vstd::prelude::*;

use crate::expr::{build_setlist, expr_params, expr_tokens, setlist_params, setlist_tokens, Expr};
use crate::join::{build_njss, njss_params, njss_tokens, NamedJoinSource};
use crate::token::{lit_token, quoted, quoted_token, space_join};
use crate::{views, Buildable};
use rusqlite::types::ToSqlOutput;

verus! {

broadcast use crate::token::lemma_views_push;

/// An update statement. The filter is mandatory: an update never renders
/// without a `where` clause.
pub struct Update {
    pub table: &'static str,
    pub set: Vec<(&'static str, Expr)>,
    pub from: Vec<NamedJoinSource>,
    pub filter: Expr,
}

/// The parameter values an update registers: the set assignments, then the
/// extra sources, then the filter.
pub open spec fn update_params(u: Update) -> Seq<ToSqlOutput<'static>>
    decreases u,
{
    setlist_params(u.set@) + njss_params(u.from@) + expr_params(u.filter)
}

/// The tokens of an update statement, in its fixed clause order.
pub open spec fn update_tokens(u: Update, base: nat) -> Seq<Seq<char>>
    decreases u,
{
    let p1 = base + setlist_params(u.set@).len();
    let p2 = p1 + njss_params(u.from@).len();
    seq!["update"@, quoted(u.table@), "set"@] + setlist_tokens(u.set@, base) + (
    if u.from@.len() > 0 {
        seq!["from"@] + njss_tokens(u.from@, p1)
    } else {
        Seq::empty()
    }) + seq!["where"@] + expr_tokens(u.filter, p2)
}

impl Buildable for Update {
    open spec fn toks(&self, base: nat) -> Seq<Seq<char>> {
        update_tokens(*self, base)
    }

    open spec fn prms(&self) -> Seq<ToSqlOutput<'static>> {
        update_params(*self)
    }

    #[verifier::rlimit(100)]
    #[verifier::spinoff_prover]
    fn build(&self, params: &mut Vec<ToSqlOutput<'static>>, out: &mut Vec<String>) {
        let ghost o0 = views(out@);
        let ghost q0 = params@;
        let ghost b0 = params@.len() as nat;
        let ghost p1 = b0 + setlist_params(self.set@).len();
        let ghost p2 = p1 + njss_params(self.from@).len();

        out.push(lit_token("update"));
        out.push(quoted_token(self.table));
        out.push(lit_token("set"));
        build_setlist(&self.set, 0, params, out);
        let ghost acc1 = o0 + seq!["update"@, quoted(self.table@), "set"@] + setlist_tokens(
            self.set@,
            b0,
        );
        proof {
            assert(self.set@.skip(0) =~= self.set@);
            assert(views(out@) =~= acc1);
            assert(params@.len() == p1);
        }
        if self.from.len() > 0 {
            out.push(lit_token("from"));
            build_njss(&self.from, 0, params, out);
            proof {
                assert(self.from@.skip(0) =~= self.from@);
            }
        }
        let ghost acc2 = acc1 + (if self.from@.len() > 0 {
            seq!["from"@] + njss_tokens(self.from@, p1)
        } else {
            Seq::<Seq<char>>::empty()
        });
        proof {
            assert(views(out@) =~= acc2);
            assert(params@.len() == p2);
        }
        out.push(lit_token("where"));
        self.filter.build(params, out);
        let ghost acc3 = acc2 + seq!["where"@] + expr_tokens(self.filter, p2);
        proof {
            assert(views(out@) =~= acc3);
            assert(acc3 =~= o0 + update_tokens(*self, b0));
            assert(params@ =~= q0 + update_params(*self));
        }
    }
}

impl Update {
    /// Compiles the statement: the returned text is the statement's tokens
    /// joined by single spaces, and the statement's parameter values are
    /// appended to `params` in placeholder order.
    pub fn build_str(&self, params: &mut Vec<ToSqlOutput<'static>>) -> (r: String)
        ensures
            final(params)@ == old(params)@ + update_params(*self),
            r@ == space_join(update_tokens(*self, old(params)@.len() as nat)),
    {
        let mut out: Vec<String> = Vec::new();
        self.build(params, &mut out);
        proof {
            assert(views(out@) =~= update_tokens(*self, old(params)@.len() as nat));
        }
        crate::token::join_space(&out)
    }
}

} // verus!
