//! The delete statement: a table and an optional filter. Like a select, a
//! delete without a filter still emits the `where` keyword with nothing
//! after it.

use vstd::prelude::*;

use crate::expr::{opt_expr_params, opt_expr_tokens, Expr};
use crate::token::{lit_token, quoted, quoted_token, space_join};
use crate::{views, Buildable};
use rusqlite::types::ToSqlOutput;

verus! {

broadcast use crate::token::lemma_views_push;

/// A delete statement.
pub struct Delete {
    pub table: &'static str,
    pub filter: Option<Expr>,
}

/// The parameter values a delete registers: those of its filter.
pub open spec fn delete_params(d: Delete) -> Seq<ToSqlOutput<'static>>
    decreases d,
{
    opt_expr_params(d.filter)
}

/// The tokens of a delete statement.
pub open spec fn delete_tokens(d: Delete, base: nat) -> Seq<Seq<char>>
    decreases d,
{
    seq!["delete"@, "from"@, quoted(d.table@), "where"@] + opt_expr_tokens(d.filter, base)
}

impl Buildable for Delete {
    open spec fn toks(&self, base: nat) -> Seq<Seq<char>> {
        delete_tokens(*self, base)
    }

    open spec fn prms(&self) -> Seq<ToSqlOutput<'static>> {
        delete_params(*self)
    }

    fn build(&self, params: &mut Vec<ToSqlOutput<'static>>, out: &mut Vec<String>) {
        out.push(lit_token("delete"));
        out.push(lit_token("from"));
        out.push(quoted_token(self.table));
        out.push(lit_token("where"));
        if let Some(filter) = &self.filter {
            filter.build(params, out);
        }
        proof {
            assert(final(params)@ =~= old(params)@ + self.prms());
            assert(views(final(out)@) =~= views(old(out)@) + self.toks(old(params)@.len() as nat));
        }
    }
}

impl Delete {
    /// Compiles the statement: the returned text is the statement's tokens
    /// joined by single spaces, and the statement's parameter values are
    /// appended to `params` in placeholder order.
    pub fn build_str(&self, params: &mut Vec<ToSqlOutput<'static>>) -> (r: String)
        ensures
            final(params)@ == old(params)@ + delete_params(*self),
            r@ == space_join(delete_tokens(*self, old(params)@.len() as nat)),
    {
        let mut out: Vec<String> = Vec::new();
        self.build(params, &mut out);
        proof {
            assert(views(out@) =~= delete_tokens(*self, old(params)@.len() as nat));
        }
        crate::token::join_space(&out)
    }
}

} // verus!
