//! The extent of one item declaration at the front of a token sequence.
//!
//! An item is a run of outer attributes `#[..]`, an optional visibility
//! `pub` or `pub(..)`, then one of:
//! - `use`, `static`, `type`, `const NAME`, `extern crate`: up to the first `;`;
//! - `fn`, `struct`, `enum`, `union`, `trait`, `impl`, `mod`, after optional
//!   modifiers (`const`, `async`, `unsafe`, `safe`, `default`, `auto`,
//!   `extern "abi"`): up to the first `;`, or the first `{..}` that stands
//!   inside no `<..>` (so not the `{ N }` of `Foo<{ N }>`), whatever `=`
//!   stands in generics or bounds before it;
//! - `extern "abi" {..}` (a foreign block), up to its block;
//! - a macro call `path! ..` (also `::path! ..` and `macro_rules! name ..`) whose group is
//!   `{..}`, or `(..)` / `[..]` followed by `;`.
//! Groups are single token trees, so a `;` or `{..}` inside one never ends
//! the item.

use vstd::prelude::*;
use crate::attr::{path_len, path_tail_len};
use crate::token::{Cursor, Delimiter, TokenTree, is_punct, is_ident, is_group, punct_is, ident_is, group_is};

verus! {

/// Number of tokens of the outer attributes `#[..]` at the front of `s`.
pub open spec fn attrs_len(s: Seq<TokenTree>) -> nat
    decreases s.len(),
{
    if s.len() >= 2 && is_punct(s[0], '#') && is_group(s[1], Delimiter::Bracket) {
        2 + attrs_len(s.skip(2))
    } else {
        0
    }
}

/// Number of tokens of the visibility at the front of `s`.
pub open spec fn vis_len(s: Seq<TokenTree>) -> nat {
    if s.len() > 0 && is_ident(s[0], "pub"@) {
        if s.len() > 1 && is_group(s[1], Delimiter::Parenthesis) {
            2
        } else {
            1
        }
    } else {
        0
    }
}

pub open spec fn is_modifier(t: TokenTree) -> bool {
    is_ident(t, "const"@) || is_ident(t, "async"@) || is_ident(t, "unsafe"@) || is_ident(t, "safe"@)
        || is_ident(t, "default"@) || is_ident(t, "auto"@) || is_ident(t, "extern"@)
}

/// Number of tokens of the modifiers at the front of `s`; an ABI string
/// counts with the `extern` before it.
pub open spec fn modifiers_len(s: Seq<TokenTree>) -> nat
    decreases s.len(),
{
    if s.len() > 1 && is_ident(s[0], "extern"@) && s[1] is Literal {
        2 + modifiers_len(s.skip(2))
    } else if s.len() > 0 && is_modifier(s[0]) {
        1 + modifiers_len(s.skip(1))
    } else {
        0
    }
}

/// The keywords of items that end at their body or at `;`.
pub open spec fn is_body_keyword(t: TokenTree) -> bool {
    is_ident(t, "fn"@) || is_ident(t, "struct"@) || is_ident(t, "enum"@) || is_ident(t, "union"@)
        || is_ident(t, "trait"@) || is_ident(t, "impl"@) || is_ident(t, "mod"@)
}

/// The keywords of items that end at `;`.
pub open spec fn is_semi_keyword(t: TokenTree) -> bool {
    is_ident(t, "use"@) || is_ident(t, "static"@) || is_ident(t, "type"@)
}

/// The depth of `<..>` nesting after `t`, from `depth` before it; a `>`
/// right after `-` is part of `->` and closes nothing.
pub open spec fn next_depth(t: TokenTree, depth: nat, after_dash: bool) -> nat {
    if is_punct(t, '<') {
        depth + 1
    } else if is_punct(t, '>') && !after_dash && depth > 0 {
        (depth - 1) as nat
    } else {
        depth
    }
}

/// Whether `t` ends a run that `end_len` measures, at `<..>` depth `depth`.
pub open spec fn is_end(t: TokenTree, at_body: bool, depth: nat) -> bool {
    is_punct(t, ';') || (at_body && depth == 0 && is_group(t, Delimiter::Brace))
}

/// Number of tokens up to and including the first token of `s` that ends the
/// run, where `depth` and `after_dash` describe the tokens before `s`.
pub open spec fn end_scan(s: Seq<TokenTree>, at_body: bool, depth: nat, after_dash: bool) -> Option<nat>
    decreases s.len(),
{
    if s.len() == 0 {
        None
    } else if is_end(s[0], at_body, depth) {
        Some(1)
    } else {
        match end_scan(s.skip(1), at_body, next_depth(s[0], depth, after_dash), is_punct(s[0], '-')) {
            Some(k) => Some(k + 1),
            None => None,
        }
    }
}

/// Number of tokens up to and including the first `;` of `s` (or, where
/// `at_body`, the first `;` or the first `{..}` that no open `<` encloses, as
/// the `{ N }` of `Foo<{ N }>`), if there is one.
pub open spec fn end_len(s: Seq<TokenTree>, at_body: bool) -> Option<nat> {
    end_scan(s, at_body, 0, false)
}

/// Number of tokens of the macro call at the front of `s`, if one is there.
pub open spec fn macro_len(s: Seq<TokenTree>) -> Option<nat> {
    match path_len(s) {
        None => None,
        Some(p) => {
            let k = p as int;
            if !(k < s.len() && is_punct(s[k], '!')) {
                None
            } else {
                let g = if k + 1 < s.len() && s[k + 1] is Ident { k + 2 } else { k + 1 };
                if !(g < s.len() && s[g] is Group) {
                    None
                } else if is_group(s[g], Delimiter::Brace) {
                    Some((g + 1) as nat)
                } else if g + 1 < s.len() && is_punct(s[g + 1], ';') {
                    Some((g + 2) as nat)
                } else {
                    None
                }
            }
        },
    }
}

/// Number of tokens of the declaration at the front of `s`, which follows
/// the attributes and visibility of an item.
pub open spec fn decl_len(s: Seq<TokenTree>) -> Option<nat> {
    let m = modifiers_len(s) as int;
    if m < s.len() && is_body_keyword(s[m]) {
        end_len(s, true)
    } else if 0 < m < s.len() && is_group(s[m], Delimiter::Brace) && (is_ident(s[m - 1], "extern"@)
        || s[m - 1] is Literal) {
        Some((m + 1) as nat)
    } else if 0 < m < s.len() && is_ident(s[m - 1], "extern"@) && is_ident(s[m], "crate"@) {
        end_len(s, false)
    } else if m == 1 && is_ident(s[0], "const"@) {
        end_len(s, false)
    } else if m == 0 && s.len() > 0 && is_semi_keyword(s[0]) {
        end_len(s, false)
    } else if m == 0 {
        macro_len(s)
    } else {
        None
    }
}

/// Number of tokens of the item at the front of `s`, if one is there.
pub open spec fn item_len(s: Seq<TokenTree>) -> Option<nat> {
    let h = attrs_len(s) + vis_len(s.skip(attrs_len(s) as int));
    match decl_len(s.skip(h as int)) {
        Some(k) => Some(h + k),
        None => None,
    }
}

pub open spec fn opt_nat(r: Option<usize>) -> Option<nat> {
    match r {
        Some(k) => Some(k as nat),
        None => None,
    }
}

fn attrs_end(c: &Cursor, from: usize) -> (j: usize)
    requires
        from <= c.rest().len(),
    ensures
        from <= j <= c.rest().len(),
        attrs_len(c.rest().skip(from as int)) == j - from,
{
    let ghost s = c.rest();
    let n = c.len();
    let mut j = from;
    while n - j >= 2 && punct_is(c.peek(j), '#') && group_is(c.peek(j + 1), Delimiter::Bracket)
        invariant
            from <= j <= n,
            n == s.len(),
            s == c.rest(),
            attrs_len(s.skip(from as int)) == (j - from) + attrs_len(s.skip(j as int)),
        decreases n - j,
    {
        assert(s.skip(j as int).skip(2) =~= s.skip(j + 2));
        j = j + 2;
    }
    j
}

fn vis_end(c: &Cursor, from: usize) -> (j: usize)
    requires
        from <= c.rest().len(),
    ensures
        from <= j <= c.rest().len(),
        vis_len(c.rest().skip(from as int)) == j - from,
{
    let n = c.len();
    if from < n && ident_is(c.peek(from), "pub") {
        if n - from > 1 && group_is(c.peek(from + 1), Delimiter::Parenthesis) {
            from + 2
        } else {
            from + 1
        }
    } else {
        from
    }
}

fn is_modifier_exec(t: &TokenTree) -> (r: bool)
    ensures
        r == is_modifier(*t),
{
    ident_is(t, "const") || ident_is(t, "async") || ident_is(t, "unsafe") || ident_is(t, "safe")
        || ident_is(t, "default") || ident_is(t, "auto") || ident_is(t, "extern")
}

fn modifiers_end(c: &Cursor, from: usize) -> (j: usize)
    requires
        from <= c.rest().len(),
    ensures
        from <= j <= c.rest().len(),
        modifiers_len(c.rest().skip(from as int)) == j - from,
{
    let ghost s = c.rest();
    let n = c.len();
    let mut j = from;
    loop
        invariant
            from <= j <= n,
            n == s.len(),
            s == c.rest(),
            modifiers_len(s.skip(from as int)) == (j - from) + modifiers_len(s.skip(j as int)),
        decreases n - j,
    {
        if n - j > 1 && ident_is(c.peek(j), "extern") && matches!(c.peek(j + 1), TokenTree::Literal(_)) {
            assert(s.skip(j as int).skip(2) =~= s.skip(j + 2));
            j = j + 2;
        } else if j < n && is_modifier_exec(c.peek(j)) {
            assert(s.skip(j as int).skip(1) =~= s.skip(j + 1));
            j = j + 1;
        } else {
            return j;
        }
    }
}

fn end_from(c: &Cursor, from: usize, at_body: bool) -> (r: Option<usize>)
    requires
        from <= c.rest().len(),
    ensures
        r matches Some(k) ==> k <= c.rest().len() - from,
        opt_nat(r) == end_len(c.rest().skip(from as int), at_body),
{
    let ghost s = c.rest();
    let n = c.len();
    let mut j = from;
    let mut depth: usize = 0;
    let mut after_dash = false;
    while j < n
        invariant
            from <= j <= n,
            n == s.len(),
            s == c.rest(),
            depth <= j - from,
            end_len(s.skip(from as int), at_body) == match end_scan(s.skip(j as int), at_body, depth as nat, after_dash) {
                Some(k) => Some(k + (j - from) as nat),
                None => None,
            },
        decreases n - j,
    {
        assert(s.skip(j as int).skip(1) =~= s.skip(j + 1));
        let t = c.peek(j);
        if punct_is(t, ';') || (at_body && depth == 0 && group_is(t, Delimiter::Brace)) {
            return Some(j - from + 1);
        }
        if punct_is(t, '<') {
            depth = depth + 1;
        } else if punct_is(t, '>') && !after_dash && depth > 0 {
            depth = depth - 1;
        }
        after_dash = punct_is(t, '-');
        j = j + 1;
    }
    None
}

fn macro_from(c: &Cursor, from: usize) -> (r: Option<usize>)
    requires
        from <= c.rest().len(),
    ensures
        r matches Some(k) ==> k <= c.rest().len() - from,
        opt_nat(r) == macro_len(c.rest().skip(from as int)),
{
    let ghost s = c.rest();
    let ghost r = s.skip(from as int);
    let n = c.len();
    let lead = n - from >= 3 && punct_is(c.peek(from), ':') && punct_is(c.peek(from + 1), ':')
        && matches!(c.peek(from + 2), TokenTree::Ident(_));
    if !lead && !(from < n && matches!(c.peek(from), TokenTree::Ident(_))) {
        return None;
    }
    let mut j = if lead { from } else { from + 1 };
    assert(r.skip(1) =~= s.skip(from + 1));
    assert(s.skip(from as int) =~= r);
    while n - j >= 3 && punct_is(c.peek(j), ':') && punct_is(c.peek(j + 1), ':') && matches!(c.peek(j + 2), TokenTree::Ident(_))
        invariant
            from <= j <= n,
            lead || from < j,
            n == s.len(),
            s == c.rest(),
            r == s.skip(from as int),
            lead ==> path_tail_len(r) == (j - from) + path_tail_len(s.skip(j as int)),
            !lead ==> path_tail_len(s.skip(from + 1)) == (j - from - 1) + path_tail_len(s.skip(j as int)),
        decreases n - j,
    {
        assert(s.skip(j as int).skip(3) =~= s.skip(j + 3));
        j = j + 3;
    }
    assert(path_len(r) == Some((j - from) as nat));
    if !(j < n && punct_is(c.peek(j), '!')) {
        return None;
    }
    let g = if n - j > 1 && matches!(c.peek(j + 1), TokenTree::Ident(_)) { j + 2 } else { j + 1 };
    if !(g < n && matches!(c.peek(g), TokenTree::Group(..))) {
        return None;
    }
    if group_is(c.peek(g), Delimiter::Brace) {
        Some(g - from + 1)
    } else if n - g > 1 && punct_is(c.peek(g + 1), ';') {
        Some(g - from + 2)
    } else {
        None
    }
}

fn is_body_keyword_exec(t: &TokenTree) -> (r: bool)
    ensures
        r == is_body_keyword(*t),
{
    ident_is(t, "fn") || ident_is(t, "struct") || ident_is(t, "enum") || ident_is(t, "union")
        || ident_is(t, "trait") || ident_is(t, "impl") || ident_is(t, "mod")
}

fn decl_from(c: &Cursor, from: usize) -> (r: Option<usize>)
    requires
        from <= c.rest().len(),
    ensures
        r matches Some(k) ==> k <= c.rest().len() - from,
        opt_nat(r) == decl_len(c.rest().skip(from as int)),
{
    let ghost s = c.rest();
    let ghost r = s.skip(from as int);
    let n = c.len();
    let j = modifiers_end(c, from);
    let m = j - from;
    if j < n && is_body_keyword_exec(c.peek(j)) {
        return end_from(c, from, true);
    }
    if 0 < m && j < n && group_is(c.peek(j), Delimiter::Brace) && (ident_is(c.peek(j - 1), "extern")
        || matches!(c.peek(j - 1), TokenTree::Literal(_))) {
        return Some(m + 1);
    }
    if 0 < m && j < n && ident_is(c.peek(j - 1), "extern") && ident_is(c.peek(j), "crate") {
        return end_from(c, from, false);
    }
    if m == 1 && ident_is(c.peek(from), "const") {
        return end_from(c, from, false);
    }
    if m == 0 && from < n && (ident_is(c.peek(from), "use") || ident_is(c.peek(from), "static")
        || ident_is(c.peek(from), "type")) {
        return end_from(c, from, false);
    }
    if m == 0 {
        macro_from(c, from)
    } else {
        None
    }
}

/// Number of tokens of the item at the front of `c`, if one is there.
pub fn item_len_of(c: &Cursor) -> (r: Option<usize>)
    ensures
        opt_nat(r) == item_len(c.rest()),
{
    let ghost s = c.rest();
    let _n = c.len();
    let a = attrs_end(c, 0);
    assert(s.skip(0) =~= s);
    let h = vis_end(c, a);
    let r = decl_from(c, h);
    assert(s.skip(h as int) =~= s.skip((attrs_len(s) + vis_len(s.skip(attrs_len(s) as int))) as int));
    match r {
        Some(k) => Some(h + k),
        None => None,
    }
}

} // verus!
