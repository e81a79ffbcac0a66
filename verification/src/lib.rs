//! A query-construction library: statements are assembled as immutable trees
//! of expression nodes and compiled, by one depth-first traversal, into a
//! parameterized query text plus an ordered list of bound parameter values.
//! Identifiers are fixed strings chosen by the caller; every dynamic value
//! reaches the output only through a parameter node, as a `$N` placeholder
//! whose number equals the value's 1-based position in the parameter list.

use vstd::prelude::*;

pub mod bind;
pub mod delete;
pub mod expr;
pub mod insert;
pub mod join;
pub mod laws;
pub mod quoting;
pub mod select;
pub mod token;
pub mod update;

verus! {

/// The character sequences of a list of tokens.
pub open spec fn views(ts: Seq<String>) -> Seq<Seq<char>> {
    ts.map_values(|t: String| t@)
}

/// The build protocol, shared by every node of a statement tree: append this
/// node's tokens to `out` and register the parameter values it owns in
/// `params`, in depth-first left-to-right order. `toks` and `prms` say
/// exactly which tokens and values those are; placeholder numbering starts
/// from the number of parameters already registered.
pub trait Buildable {
    /// The tokens this node emits when `base` parameters are already registered.
    spec fn toks(&self, base: nat) -> Seq<Seq<char>>;

    /// The parameter values this node registers.
    spec fn prms(&self) -> Seq<rusqlite::types::ToSqlOutput<'static>>;

    fn build(
        &self,
        params: &mut Vec<rusqlite::types::ToSqlOutput<'static>>,
        out: &mut Vec<String>,
    )
        ensures
            final(params)@ == old(params)@ + self.prms(),
            views(final(out)@) == views(old(out)@) + self.toks(old(params)@.len() as nat),
    ;
}

} // verus!
