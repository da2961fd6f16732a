//! The grammar of `cfg_match!`: arms `pattern => { items }`, each optionally
//! followed by a comma, where a pattern is `_` or a configuration predicate
//! such as `cfg(unix)`.
//!
//! Patterns are read but never evaluated: the items of every arm are
//! collected, in arm order.

use vstd::prelude::*;
use crate::attr::{pattern_len, skip_pattern};
use crate::error::MacroError;
use crate::items::{Item, Items, after_ok, append_items, block_items, items_view, read_block, result_view};
use crate::token::{Cursor, Delimiter, TokenTree, is_group, is_punct, group_is, punct_is};

verus! {

/// The items of the arms at the front of `ts`.
pub open spec fn cfg_match_arms(ts: Seq<TokenTree>) -> Result<Items, MacroError>
    decreases ts.len(),
{
    if ts.len() == 0 {
        Ok(Seq::empty())
    } else {
        match pattern_len(ts) {
            None => Err(MacroError::BadAttrItem),
            Some(p) => {
                let j = p as int;
                if !(j + 1 < ts.len() && is_punct(ts[j], '=') && is_punct(ts[j + 1], '>')) {
                    Err(MacroError::ExpectedFatArrow)
                } else if !(j + 2 < ts.len() && is_group(ts[j + 2], Delimiter::Brace)) {
                    Err(MacroError::ExpectedOpenBrace)
                } else {
                    match block_items(ts[j + 2]) {
                        None => Err(MacroError::ExpectedItem),
                        Some(items) => {
                            let k = if j + 3 < ts.len() && is_punct(ts[j + 3], ',') {
                                j + 4
                            } else {
                                j + 3
                            };
                            after_ok(items, cfg_match_arms(ts.skip(k)))
                        },
                    }
                }
            },
        }
    }
}

/// The items of all arms of a `cfg_match!` whose body is `ts`.
pub open spec fn cfg_match_items(ts: Seq<TokenTree>) -> Result<Items, MacroError> {
    if ts.len() > 0 && is_group(ts[0], Delimiter::Brace) {
        Err(MacroError::ExpressionPosition)
    } else {
        cfg_match_arms(ts)
    }
}

/// Parses the body of a `cfg_match!` into the items of all its arms.
pub fn parse_cfg_match(tokens: Vec<TokenTree>) -> (r: Result<Vec<Item>, MacroError>)
    ensures
        result_view(r) == cfg_match_items(tokens@),
{
    let ghost ts = tokens@;
    let mut c = Cursor::new(tokens);
    if c.len() > 0 && group_is(c.peek(0), Delimiter::Brace) {
        return Err(MacroError::ExpressionPosition);
    }
    let mut out: Vec<Item> = Vec::new();
    while c.len() > 0
        invariant
            ts == tokens@,
            cfg_match_items(ts) == after_ok(items_view(out@), cfg_match_arms(c.rest())),
        decreases c.rest().len(),
    {
        let ghost s = c.rest();
        let ghost done = items_view(out@);
        if !skip_pattern(&mut c) {
            return Err(MacroError::BadAttrItem);
        }
        let ghost j = pattern_len(s)->0 as int;
        assert(c.rest().len() > 0 ==> c.rest()[0] == s[j]);
        assert(c.rest().len() > 1 ==> c.rest()[1] == s[j + 1]);
        if !(c.len() >= 2 && punct_is(c.peek(0), '=') && punct_is(c.peek(1), '>')) {
            return Err(MacroError::ExpectedFatArrow);
        }
        c.next();
        c.next();
        assert(c.rest() =~= s.skip(j + 2));
        if c.len() == 0 || !group_is(c.peek(0), Delimiter::Brace) {
            return Err(MacroError::ExpectedOpenBrace);
        }
        let items = match read_block(&mut c) {
            Some(v) => v,
            None => return Err(MacroError::ExpectedItem),
        };
        assert(c.rest() =~= s.skip(j + 3));
        let ghost got = items_view(items@);
        append_items(&mut out, items);
        if c.len() > 0 && punct_is(c.peek(0), ',') {
            c.next();
            assert(c.rest() =~= s.skip(j + 4));
        }
        proof {
            match cfg_match_arms(c.rest()) {
                Ok(rest) => assert(done + (got + rest) =~= done + got + rest),
                Err(_) => {},
            }
        }
    }
    assert(items_view(out@) + Seq::<Seq<TokenTree>>::empty() =~= items_view(out@));
    Ok(out)
}

} // verus!
