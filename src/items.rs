//! Splitting the body of a braced block into item declarations.
//!
//! The body is read item by item, each as long as the item grammar of
//! `decl` says; a body with anything that is not an item does not split.

use vstd::prelude::*;
use crate::error::MacroError;
use crate::decl::{item_len, item_len_of};
use crate::token::{Cursor, Delimiter, TokenTree, is_group};

verus! {

/// One declaration (module, function, type, ...) found in a block, as its tokens.
#[derive(Debug, PartialEq, Eq)]
pub struct Item {
    pub tokens: Vec<TokenTree>,
}

pub type Items = Seq<Seq<TokenTree>>;

pub open spec fn items_view(v: Seq<Item>) -> Items {
    v.map_values(|it: Item| it.tokens@)
}

pub open spec fn opt_items_view(r: Option<Vec<Item>>) -> Option<Items> {
    match r {
        Some(v) => Some(items_view(v@)),
        None => None,
    }
}

pub open spec fn result_view(r: Result<Vec<Item>, MacroError>) -> Result<Items, MacroError> {
    match r {
        Ok(v) => Ok(items_view(v@)),
        Err(e) => Err(e),
    }
}

/// `done` followed by the items of `rest`, or the error of `rest`.
pub open spec fn after_ok(done: Items, rest: Result<Items, MacroError>) -> Result<Items, MacroError> {
    match rest {
        Ok(s) => Ok(done + s),
        Err(e) => Err(e),
    }
}

/// The items of a `{...}` block.
pub open spec fn block_items(t: TokenTree) -> Option<Items> {
    split_items(t->Group_1@)
}

/// `done` followed by the items of `rest`, if `rest` splits.
pub open spec fn after(done: Items, rest: Option<Items>) -> Option<Items> {
    match rest {
        Some(s) => Some(done + s),
        None => None,
    }
}

/// The items that make up the block body `ts`, each as long as `item_len`
/// says, or `None` where it is not a sequence of items.
pub open spec fn split_items(ts: Seq<TokenTree>) -> Option<Items>
    decreases ts.len(),
{
    if ts.len() == 0 {
        Some(Seq::empty())
    } else {
        match item_len(ts) {
            Some(k) => if 0 < k <= ts.len() {
                after(seq![ts.take(k as int)], split_items(ts.skip(k as int)))
            } else {
                None
            },
            None => None,
        }
    }
}

/// Splits a block body into its items.
pub fn parse_items(tokens: Vec<TokenTree>) -> (r: Option<Vec<Item>>)
    ensures
        opt_items_view(r) == split_items(tokens@),
{
    let ghost ts = tokens@;
    let mut c = Cursor::new(tokens);
    let mut out: Vec<Item> = Vec::new();
    while c.len() > 0
        invariant
            ts == tokens@,
            split_items(ts) == after(items_view(out@), split_items(c.rest())),
        decreases c.rest().len(),
    {
        let ghost s = c.rest();
        let ghost done = items_view(out@);
        let k = match item_len_of(&c) {
            Some(k) => k,
            None => return None,
        };
        if k == 0 || k > c.len() {
            return None;
        }
        let mut cur: Vec<TokenTree> = Vec::new();
        let mut i: usize = 0;
        while i < k
            invariant
                i <= k <= s.len(),
                cur@ == s.take(i as int),
                c.rest() == s.skip(i as int),
            decreases k - i,
        {
            let t = c.next();
            cur.push(t);
            assert(cur@ =~= s.take(i + 1));
            assert(c.rest() =~= s.skip(i + 1));
            i = i + 1;
        }
        out.push(Item { tokens: cur });
        proof {
            let x = s.take(k as int);
            assert(items_view(out@) =~= done + seq![x]);
            match split_items(s.skip(k as int)) {
                Some(rest) => assert(done + seq![x] + rest =~= done + (seq![x] + rest)),
                None => {},
            }
        }
    }
    assert(items_view(out@) + Seq::<Seq<TokenTree>>::empty() =~= items_view(out@));
    Some(out)
}

} // verus!

verus! {

/// Appends `more` to `out`.
pub fn append_items(out: &mut Vec<Item>, more: Vec<Item>)
    ensures
        items_view(final(out)@) == items_view(old(out)@) + items_view(more@),
{
    let mut more = more;
    let ghost m = more@;
    out.append(&mut more);
    assert(items_view(final(out)@) =~= items_view(old(out)@) + items_view(m));
}

/// Reads the `{...}` block at the front of `c` and splits it into items.
pub fn read_block(c: &mut Cursor) -> (r: Option<Vec<Item>>)
    requires
        old(c).rest().len() > 0,
        is_group(old(c).rest()[0], Delimiter::Brace),
    ensures
        opt_items_view(r) == block_items(old(c).rest()[0]),
        final(c).rest() == old(c).rest().drop_first(),
{
    match c.next() {
        TokenTree::Group(_, inner) => parse_items(inner),
        _ => None,
    }
}

} // verus!
