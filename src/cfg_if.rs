//! The grammar of `cfg_if!`:
//! `if #[cfg(..)] { items } else if #[cfg(..)] { items } ... else { items }`.
//!
//! Conditions are read but never evaluated: the items of every branch are
//! collected, in branch order.

use vstd::prelude::*;
use crate::attr::{attr_len, skip_attr};
use crate::error::MacroError;
use crate::items::{Item, Items, after_ok, append_items, block_items, items_view, read_block, result_view};
use crate::token::{Cursor, Delimiter, TokenTree, is_group, is_ident, group_is, ident_is};

verus! {

/// The items of the branches at the front of `ts`; `conditional` tells whether
/// the first of them is an `if` branch (else it is the final `else` block).
pub open spec fn cfg_if_branches(ts: Seq<TokenTree>, conditional: bool) -> Result<Items, MacroError>
    decreases ts.len(),
{
    if conditional && !(ts.len() > 0 && is_ident(ts[0], "if"@)) {
        Err(MacroError::ExpectedIf)
    } else if conditional && attr_len(ts.skip(1)) is None {
        Err(MacroError::BadAttribute)
    } else {
        let b: int = if conditional { 1 + attr_len(ts.skip(1))->0 as int } else { 0 };
        if !(b < ts.len() && is_group(ts[b], Delimiter::Brace)) {
            Err(MacroError::ExpectedOpenBrace)
        } else {
            match block_items(ts[b]) {
                None => Err(MacroError::ExpectedItem),
                Some(items) => if b + 1 == ts.len() {
                    Ok(items)
                } else if !conditional {
                    Err(MacroError::TrailingTokens)
                } else if !is_ident(ts[b + 1], "else"@) {
                    Err(MacroError::ExpectedElse)
                } else {
                    let rest = ts.skip(b + 2);
                    after_ok(items, cfg_if_branches(rest, rest.len() > 0 && is_ident(rest[0], "if"@)))
                },
            }
        }
    }
}

/// The items of all branches of a `cfg_if!` whose body is `ts`.
pub open spec fn cfg_if_items(ts: Seq<TokenTree>) -> Result<Items, MacroError> {
    cfg_if_branches(ts, true)
}

/// Parses the body of a `cfg_if!` into the items of all its branches.
pub fn parse_cfg_if(tokens: Vec<TokenTree>) -> (r: Result<Vec<Item>, MacroError>)
    ensures
        result_view(r) == cfg_if_items(tokens@),
{
    let ghost ts = tokens@;
    let mut c = Cursor::new(tokens);
    let mut out: Vec<Item> = Vec::new();
    let mut conditional = true;
    loop
        invariant
            ts == tokens@,
            cfg_if_items(ts) == after_ok(items_view(out@), cfg_if_branches(c.rest(), conditional)),
        decreases c.rest().len(),
    {
        let ghost s = c.rest();
        let ghost done = items_view(out@);
        proof {
            reveal_strlit("if");
            reveal_strlit("else");
        }
        if conditional {
            if c.len() == 0 || !ident_is(c.peek(0), "if") {
                return Err(MacroError::ExpectedIf);
            }
            c.next();
            assert(c.rest() =~= s.skip(1));
            if !skip_attr(&mut c) {
                return Err(MacroError::BadAttribute);
            }
            assert(c.rest() =~= s.skip(1 + attr_len(s.skip(1))->0 as int));
        }
        let ghost b: int = if conditional { 1 + attr_len(s.skip(1))->0 as int } else { 0 };
        assert(c.rest() =~= s.skip(b));
        if c.len() == 0 || !group_is(c.peek(0), Delimiter::Brace) {
            return Err(MacroError::ExpectedOpenBrace);
        }
        let items = match read_block(&mut c) {
            Some(v) => v,
            None => return Err(MacroError::ExpectedItem),
        };
        let ghost got = items_view(items@);
        append_items(&mut out, items);
        if c.len() == 0 {
            assert(done + got + Seq::<Seq<TokenTree>>::empty() =~= done + got);
            return Ok(out);
        }
        if !conditional {
            return Err(MacroError::TrailingTokens);
        }
        assert(c.rest()[0] == s[b + 1]);
        if !ident_is(c.peek(0), "else") {
            return Err(MacroError::ExpectedElse);
        }
        c.next();
        assert(c.rest() =~= s.skip(b + 2));
        conditional = c.len() > 0 && ident_is(c.peek(0), "if");
        proof {
            match cfg_if_branches(c.rest(), conditional) {
                Ok(rest) => assert(done + (got + rest) =~= done + got + rest),
                Err(_) => {},
            }
        }
    }
}

} // verus!
