//! Tokens of the emitted text. A statement renders as a list of tokens that
//! is finally joined by single spaces; this module gives the spec-level shape
//! of each kind of token (quoted identifiers, decimal numbers, `$N`
//! placeholders) and the verified builders for them.

use vstd::prelude::*;

use vstd::string::StringExecFns;

verus! {

/// An identifier wrapped in exactly one pair of double quotes.
pub open spec fn quoted(s: Seq<char>) -> Seq<char> {
    seq!['"'] + s + seq!['"']
}

/// A qualified column reference: quoted table, a dot, quoted column.
pub open spec fn field_text(table: Seq<char>, name: Seq<char>) -> Seq<char> {
    quoted(table) + seq!['.'] + quoted(name)
}

pub open spec fn digit_char(d: nat) -> char {
    if d == 0 {
        '0'
    } else if d == 1 {
        '1'
    } else if d == 2 {
        '2'
    } else if d == 3 {
        '3'
    } else if d == 4 {
        '4'
    } else if d == 5 {
        '5'
    } else if d == 6 {
        '6'
    } else if d == 7 {
        '7'
    } else if d == 8 {
        '8'
    } else {
        '9'
    }
}

/// The decimal rendering of `n`, most significant digit first, no sign and no
/// leading zero (except for `n == 0` itself).
pub open spec fn dec_digits(n: nat) -> Seq<char>
    decreases n,
{
    if n < 10 {
        seq![digit_char(n)]
    } else {
        dec_digits(n / 10) + seq![digit_char(n % 10)]
    }
}

/// The positional placeholder token `$n`.
pub open spec fn placeholder(n: nat) -> Seq<char> {
    seq!['$'] + dec_digits(n)
}

/// The token list joined by a single space between adjacent tokens.
pub open spec fn space_join(ts: Seq<Seq<char>>) -> Seq<char>
    decreases ts.len(),
{
    if ts.len() == 0 {
        Seq::empty()
    } else if ts.len() == 1 {
        ts[0]
    } else {
        ts[0] + seq![' '] + space_join(ts.drop_first())
    }
}

/// Pushing a token onto a token list appends its characters to the view.
pub broadcast proof fn lemma_views_push(ts: Seq<String>, t: String)
    ensures
        #[trigger] crate::views(ts.push(t)) == crate::views(ts).push(t@),
{
    assert(crate::views(ts.push(t)) =~= crate::views(ts).push(t@));
}

pub(crate) fn lit_token(s: &str) -> (t: String)
    ensures
        t@ == s@,
{
    s.to_owned()
}

pub(crate) fn quoted_token(s: &str) -> (t: String)
    ensures
        t@ == quoted(s@),
{
    let mut t = String::from_str("\"");
    t.append(s);
    t.append("\"");
    proof {
        reveal_strlit("\"");
        assert(t@ =~= quoted(s@));
    }
    t
}

pub(crate) fn field_token(table: &str, name: &str) -> (t: String)
    ensures
        t@ == field_text(table@, name@),
{
    let mut t = quoted_token(table);
    t.append(".");
    let q = quoted_token(name);
    t.append(q.as_str());
    proof {
        reveal_strlit(".");
        assert(t@ =~= field_text(table@, name@));
    }
    t
}

fn digit_token(d: usize) -> (t: &'static str)
    requires
        d < 10,
    ensures
        t@ == seq![digit_char(d as nat)],
{
    proof {
        reveal_strlit("0");
        reveal_strlit("1");
        reveal_strlit("2");
        reveal_strlit("3");
        reveal_strlit("4");
        reveal_strlit("5");
        reveal_strlit("6");
        reveal_strlit("7");
        reveal_strlit("8");
        reveal_strlit("9");
        assert("0"@ =~= seq!['0']);
        assert("1"@ =~= seq!['1']);
        assert("2"@ =~= seq!['2']);
        assert("3"@ =~= seq!['3']);
        assert("4"@ =~= seq!['4']);
        assert("5"@ =~= seq!['5']);
        assert("6"@ =~= seq!['6']);
        assert("7"@ =~= seq!['7']);
        assert("8"@ =~= seq!['8']);
        assert("9"@ =~= seq!['9']);
    }
    if d == 0 {
        "0"
    } else if d == 1 {
        "1"
    } else if d == 2 {
        "2"
    } else if d == 3 {
        "3"
    } else if d == 4 {
        "4"
    } else if d == 5 {
        "5"
    } else if d == 6 {
        "6"
    } else if d == 7 {
        "7"
    } else if d == 8 {
        "8"
    } else {
        "9"
    }
}

pub(crate) fn usize_token(n: usize) -> (t: String)
    ensures
        t@ == dec_digits(n as nat),
    decreases n,
{
    if n < 10 {
        digit_token(n).to_owned()
    } else {
        let mut t = usize_token(n / 10);
        t.append(digit_token(n % 10));
        proof {
            assert(t@ =~= dec_digits(n as nat));
        }
        t
    }
}

pub(crate) fn placeholder_token(n: usize) -> (t: String)
    ensures
        t@ == placeholder(n as nat),
{
    let mut t = String::from_str("$");
    let d = usize_token(n);
    t.append(d.as_str());
    proof {
        reveal_strlit("$");
        assert(t@ =~= placeholder(n as nat));
    }
    t
}

fn join_from(ts: &Vec<String>, i: usize) -> (r: String)
    requires
        i <= ts.len(),
    ensures
        r@ == space_join(crate::views(ts@).skip(i as int)),
    decreases ts.len() - i,
{
    let n = ts.len();
    if i == n {
        proof {
            assert(crate::views(ts@).skip(i as int) =~= Seq::<Seq<char>>::empty());
        }
        String::new()
    } else if i == n - 1 {
        proof {
            assert(crate::views(ts@).skip(i as int) =~= seq![ts@[i as int]@]);
        }
        ts[i].clone()
    } else {
        let mut r = ts[i].clone();
        r.append(" ");
        let rest = join_from(ts, i + 1);
        r.append(rest.as_str());
        proof {
            reveal_strlit(" ");
            let vs = crate::views(ts@).skip(i as int);
            assert(vs[0] == ts@[i as int]@);
            assert(vs.drop_first() =~= crate::views(ts@).skip(i as int + 1));
            assert(r@ =~= space_join(vs));
        }
        r
    }
}

/// The final query text: the tokens joined by a single space character.
pub(crate) fn join_space(ts: &Vec<String>) -> (r: String)
    ensures
        r@ == space_join(crate::views(ts@)),
{
    let r = join_from(ts, 0);
    proof {
        assert(crate::views(ts@).skip(0) =~= crate::views(ts@));
    }
    r
}

} // verus!
