//! Recognizing configuration predicates: paths such as `a::b`, attribute
//! items such as `cfg(unix)` or `feature = "x"`, and attributes `#[...]`.

use vstd::prelude::*;
use crate::token::{Cursor, Delimiter, TokenTree, is_punct, is_ident, is_group, punct_is, ident_is};

verus! {

/// Number of tokens of the `::seg` repetitions at the front of `s`.
pub open spec fn path_tail_len(s: Seq<TokenTree>) -> nat
    decreases s.len(),
{
    if s.len() >= 3 && is_punct(s[0], ':') && is_punct(s[1], ':') && s[2] is Ident {
        3 + path_tail_len(s.skip(3))
    } else {
        0
    }
}

/// Number of tokens of the path `a::b::c` or `::a::b` at the front of `s`,
/// if one is there.
pub open spec fn path_len(s: Seq<TokenTree>) -> Option<nat> {
    if path_tail_len(s) > 0 {
        Some(path_tail_len(s))
    } else if s.len() > 0 && s[0] is Ident {
        Some(1 + path_tail_len(s.skip(1)))
    } else {
        None
    }
}

/// Whether `s` is an attribute item: a path, alone, followed by one
/// delimited group, or followed by `=` and a value.
pub open spec fn is_attr_item(s: Seq<TokenTree>) -> bool {
    match path_len(s) {
        None => false,
        Some(k) => k == s.len() || (k + 1 == s.len() && s[k as int] is Group) || (k + 1 < s.len()
            && is_punct(s[k as int], '=')),
    }
}

/// Whether `t` is the bracketed part `[...]` of an attribute.
pub open spec fn is_attr_group(t: TokenTree) -> bool {
    is_group(t, Delimiter::Bracket) && is_attr_item(t->Group_1@)
}

/// Number of tokens of the attribute `#[...]` or `#![...]` at the front of `s`, if one is there.
pub open spec fn attr_len(s: Seq<TokenTree>) -> Option<nat> {
    if s.len() >= 2 && is_punct(s[0], '#') && is_attr_group(s[1]) {
        Some(2)
    } else if s.len() >= 3 && is_punct(s[0], '#') && is_punct(s[1], '!') && is_attr_group(s[2]) {
        Some(3)
    } else {
        None
    }
}

/// Number of tokens of the `cfg_match!` arm pattern at the front of `s`: `_`,
/// or a path alone (`unix`), followed by one delimited group (`cfg(unix)`),
/// or followed by `=` and a literal (`feature = "x"`).
pub open spec fn pattern_len(s: Seq<TokenTree>) -> Option<nat> {
    if s.len() > 0 && is_ident(s[0], "_"@) {
        Some(1)
    } else {
        match path_len(s) {
            None => None,
            Some(k) => if k < s.len() && s[k as int] is Group {
                Some(k + 1)
            } else if k + 1 < s.len() && is_punct(s[k as int], '=') && s[(k + 1) as int] is Literal {
                Some(k + 2)
            } else {
                Some(k)
            },
        }
    }
}

/// Reads the path at the front of `c`.
pub fn skip_path(c: &mut Cursor) -> (r: bool)
    ensures
        r == path_len(old(c).rest()) is Some,
        r ==> path_len(old(c).rest())->0 <= old(c).rest().len(),
        r ==> final(c).rest() == old(c).rest().skip(path_len(old(c).rest())->0 as int),
{
    let ghost s = old(c).rest();
    let ghost mut k: int = 0;
    let lead = c.len() >= 3 && punct_is(c.peek(0), ':') && punct_is(c.peek(1), ':') && matches!(c.peek(2), TokenTree::Ident(_));
    if !lead {
        if c.len() == 0 || !(matches!(c.peek(0), TokenTree::Ident(_))) {
            return false;
        }
        c.next();
        proof {
            k = 1;
        }
    }
    assert(s.skip(0) =~= s);
    while c.len() >= 3 && punct_is(c.peek(0), ':') && punct_is(c.peek(1), ':') && matches!(c.peek(2), TokenTree::Ident(_))
        invariant
            0 <= k <= s.len(),
            lead || k >= 1,
            c.rest() == s.skip(k),
            path_len(s) == Some((k + path_tail_len(s.skip(k))) as nat),
        decreases c.rest().len(),
    {
        assert(s.skip(k).skip(3) =~= s.skip(k + 3));
        c.next();
        c.next();
        c.next();
        proof {
            k = k + 3;
        }
        assert(c.rest() =~= s.skip(k));
    }
    assert(path_tail_len(s.skip(k)) == 0);
    assert(k > 0);
    true
}

/// Whether `tokens` is an attribute item.
pub fn attr_item_ok(tokens: Vec<TokenTree>) -> (r: bool)
    ensures
        r == is_attr_item(tokens@),
{
    let ghost s = tokens@;
    let mut c = Cursor::new(tokens);
    if !skip_path(&mut c) {
        return false;
    }
    let n = c.len();
    let ghost k = path_len(s)->0 as int;
    assert(n > 0 ==> c.rest()[0] == s[k]);
    n == 0 || (n == 1 && matches!(c.peek(0), TokenTree::Group(..))) || (n >= 2 && punct_is(c.peek(0), '='))
}

/// Reads the attribute `#[...]` or `#![...]` at the front of `c`.
pub fn skip_attr(c: &mut Cursor) -> (r: bool)
    ensures
        r == attr_len(old(c).rest()) is Some,
        r ==> final(c).rest() == old(c).rest().skip(attr_len(old(c).rest())->0 as int),
{
    let ghost s = old(c).rest();
    if c.len() < 2 || !punct_is(c.peek(0), '#') {
        return false;
    }
    c.next();
    assert(c.rest() =~= s.skip(1));
    if punct_is(c.peek(0), '!') {
        c.next();
        assert(c.rest() =~= s.skip(2));
    }
    let ghost at = c.rest();
    if c.len() == 0 || !(matches!(c.peek(0), TokenTree::Group(..))) {
        return false;
    }
    match c.next() {
        TokenTree::Group(Delimiter::Bracket, inner) => {
            let ok = attr_item_ok(inner);
            assert(ok ==> c.rest() =~= s.skip(attr_len(s)->0 as int));
            ok
        },
        _ => false,
    }
}

/// Reads the `cfg_match!` arm pattern at the front of `c`.
pub fn skip_pattern(c: &mut Cursor) -> (r: bool)
    ensures
        r == pattern_len(old(c).rest()) is Some,
        r ==> pattern_len(old(c).rest())->0 <= old(c).rest().len(),
        r ==> final(c).rest() == old(c).rest().skip(pattern_len(old(c).rest())->0 as int),
{
    let ghost s = old(c).rest();
    if c.len() > 0 && ident_is(c.peek(0), "_") {
        c.next();
        proof {
            reveal_strlit("_");
        }
        return true;
    }
    if !skip_path(c) {
        return false;
    }
    let ghost k = path_len(s)->0 as int;
    assert(c.rest().len() > 0 ==> c.rest()[0] == s[k]);
    assert(c.rest().len() > 1 ==> c.rest()[1] == s[k + 1]);
    if c.len() > 0 && matches!(c.peek(0), TokenTree::Group(..)) {
        c.next();
        assert(c.rest() =~= s.skip(k + 1));
    } else if c.len() >= 2 && punct_is(c.peek(0), '=') && matches!(c.peek(1), TokenTree::Literal(_)) {
        c.next();
        c.next();
        assert(c.rest() =~= s.skip(k + 2));
    }
    true
}

} // verus!
