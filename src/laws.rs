//! Properties of the visitors over all inputs.

use vstd::prelude::*;
use crate::attr::{attr_len, path_len, path_tail_len, pattern_len};
use crate::cfg_match::{cfg_match_arms, cfg_match_items};
use crate::cfg_if::{cfg_if_branches, cfg_if_items};
use crate::decl::{attrs_len, end_len, is_body_keyword, is_semi_keyword, item_len, modifiers_len, vis_len};
use crate::items::{Items, block_items, split_items};
use crate::token::{Delimiter, TokenTree, is_group, is_ident, is_punct};
use crate::visitor::{
    KnownMacro, MacCall, MetaItem, MetaItemLit, Separator, contributed, expand,
    has_name, known_macro_of, normalize, path_override,
};

verus! {

/// A macro whose name is neither `cfg_if` nor `cfg_match` adds no items and
/// raises no error.
pub proof fn lemma_unrecognized_macro_adds_nothing(mac: MacCall)
    requires
        !(mac.path@.len() > 0 && (mac.path@.last()@ == "cfg_if"@ || mac.path@.last()@
            == "cfg_match"@)),
    ensures
        known_macro_of(mac.path@) == KnownMacro::Unrecognized,
        expand(mac) == Ok::<Items, crate::error::MacroError>(Seq::empty()),
        contributed(mac) == Seq::<Seq<TokenTree>>::empty(),
{
}

/// A recognized macro whose body does not match its grammar adds no items.
pub proof fn lemma_malformed_body_adds_nothing(mac: MacCall)
    requires
        expand(mac) is Err,
    ensures
        contributed(mac) == Seq::<Seq<TokenTree>>::empty(),
{
}

/// `seg` is a branch `if #[..] { .. }` whose block holds `items`.
pub open spec fn is_if_branch(seg: Seq<TokenTree>, items: Items) -> bool {
    &&& seg.len() >= 2
    &&& is_ident(seg[0], "if"@)
    &&& attr_len(seg.subrange(1, seg.len() - 1)) == Some((seg.len() - 2) as nat)
    &&& is_group(seg.last(), Delimiter::Brace)
    &&& block_items(seg.last()) == Some(items)
}

/// `seg` is a final block `{ .. }` that holds `items`.
pub open spec fn is_else_block(seg: Seq<TokenTree>, items: Items) -> bool {
    &&& seg.len() == 1
    &&& is_group(seg[0], Delimiter::Brace)
    &&& block_items(seg[0]) == Some(items)
}

/// The branches `segs` with the token `els` between each two of them.
pub open spec fn joined(segs: Seq<Seq<TokenTree>>, els: TokenTree) -> Seq<TokenTree>
    decreases segs.len(),
{
    if segs.len() == 0 {
        Seq::empty()
    } else if segs.len() == 1 {
        segs[0]
    } else {
        segs[0] + seq![els] + joined(segs.drop_first(), els)
    }
}

/// Branch `k` of `segs` holds `items[k]`: each is an `if` branch, but the
/// last, which is a final `else` block where `has_else` says so.
pub open spec fn branches_hold(segs: Seq<Seq<TokenTree>>, items: Seq<Items>, has_else: bool) -> bool {
    &&& segs.len() == items.len()
    &&& forall|k: int|
        0 <= k < segs.len() ==> if has_else && k == segs.len() - 1 {
            is_else_block(#[trigger] segs[k], items[k])
        } else {
            is_if_branch(segs[k], items[k])
        }
}

proof fn lemma_cfg_if_chain(segs: Seq<Seq<TokenTree>>, items: Seq<Items>, has_else: bool, els: TokenTree)
    requires
        segs.len() >= 1,
        branches_hold(segs, items, has_else),
        is_ident(els, "else"@),
    ensures
        cfg_if_branches(joined(segs, els), !(has_else && segs.len() == 1)) == Ok::<Items, crate::error::MacroError>(items.flatten()),
    decreases segs.len(),
{
    let ts = joined(segs, els);
    let seg = segs[0];
    assert(branches_hold(segs, items, has_else) ==> (if has_else && 0 == segs.len() - 1 {
        is_else_block(segs[0], items[0])
    } else {
        is_if_branch(segs[0], items[0])
    }));
    let b = seg.len() - 1;
    if segs.len() == 1 {
        assert(ts == seg);
    } else {
        assert(ts == seg + seq![els] + joined(segs.drop_first(), els));
    }
    assert(ts.subrange(0, seg.len() as int) =~= seg);
    assert(ts[b] == seg[b]);
    if !(has_else && segs.len() == 1) {
        assert(ts.skip(1).subrange(0, seg.len() - 2) =~= seg.subrange(1, seg.len() - 1));
        assert(ts.skip(1)[0] == seg[1]);
        assert(seg.len() >= 3 ==> ts.skip(1)[1] == seg[2]);
        assert(seg.len() >= 4 ==> ts.skip(1)[2] == seg[3]);
        assert(attr_len(ts.skip(1)) == Some((seg.len() - 2) as nat));
    }
    if segs.len() == 1 {
        assert(items.flatten() =~= items[0]) by {
            items.lemma_flatten_one_element();
        }
    } else {
        let rest = ts.skip(b + 2);
        assert(rest =~= joined(segs.drop_first(), els));
        assert(ts[b + 1] == els);
        let tail_segs = segs.drop_first();
        let tail_items = items.drop_first();
        assert(branches_hold(tail_segs, tail_items, has_else)) by {
            assert forall|k: int| 0 <= k < tail_segs.len() implies if has_else && k == tail_segs.len() - 1 {
                is_else_block(#[trigger] tail_segs[k], tail_items[k])
            } else {
                is_if_branch(tail_segs[k], tail_items[k])
            } by {
                assert(tail_segs[k] == segs[k + 1]);
            }
        }
        lemma_cfg_if_chain(tail_segs, tail_items, has_else, els);
        let first_next = tail_segs[0];
        assert(if has_else && tail_segs.len() == 1 {
            is_else_block(tail_segs[0], tail_items[0])
        } else {
            is_if_branch(tail_segs[0], tail_items[0])
        });
        if tail_segs.len() == 1 {
            assert(rest == first_next);
        } else {
            assert(rest == first_next + seq![els] + joined(tail_segs.drop_first(), els));
        }
        assert(rest[0] == first_next[0]);
        assert((rest.len() > 0 && is_ident(rest[0], "if"@)) == !(has_else && tail_segs.len() == 1));
    }
}

/// Every branch of a well-formed `cfg_if!`, whatever its condition, gives its
/// items, and the result is the items of all branches in branch order.
pub proof fn lemma_cfg_if_collects_every_branch(
    segs: Seq<Seq<TokenTree>>,
    items: Seq<Items>,
    has_else: bool,
    els: TokenTree,
)
    requires
        segs.len() >= 1,
        !(has_else && segs.len() == 1),
        branches_hold(segs, items, has_else),
        is_ident(els, "else"@),
    ensures
        cfg_if_items(joined(segs, els)) == Ok::<Items, crate::error::MacroError>(items.flatten()),
{
    lemma_cfg_if_chain(segs, items, has_else, els);
}

/// `seg` is an arm `pattern => { .. }`, with or without a comma after it,
/// whose block holds `items`.
pub open spec fn is_arm(seg: Seq<TokenTree>, items: Items) -> bool {
    &&& pattern_len(seg) is Some
    &&& {
        let p = pattern_len(seg)->0 as int;
        &&& p + 3 <= seg.len() <= p + 4
        &&& (seg.len() == p + 4 ==> is_punct(seg[p + 3], ','))
        &&& is_punct(seg[p], '=')
        &&& is_punct(seg[p + 1], '>')
        &&& is_group(seg[p + 2], Delimiter::Brace)
        &&& block_items(seg[p + 2]) == Some(items)
    }
}

proof fn lemma_path_tail_prefix(s: Seq<TokenTree>, more: Seq<TokenTree>)
    requires
        path_tail_len(s) < s.len(),
        !is_punct(s[path_tail_len(s) as int], ':'),
    ensures
        path_tail_len(s + more) == path_tail_len(s),
    decreases s.len(),
{
    let t = s + more;
    if s.len() >= 3 && is_punct(s[0], ':') && is_punct(s[1], ':') && s[2] is Ident {
        assert(t.skip(3) =~= s.skip(3) + more);
        assert(s.skip(3)[path_tail_len(s.skip(3)) as int] == s[path_tail_len(s) as int]);
        lemma_path_tail_prefix(s.skip(3), more);
    } else {
        assert(t[0] == s[0]);
    }
}

proof fn lemma_pattern_prefix(seg: Seq<TokenTree>, items: Items, more: Seq<TokenTree>)
    requires
        is_arm(seg, items),
    ensures
        pattern_len(seg + more) == pattern_len(seg),
        !((seg + more)[0] is Group),
        !is_punct((seg + more)[0], ','),
{
    let t = seg + more;
    assert(t[0] == seg[0]);
    if !(seg.len() > 0 && is_ident(seg[0], "_"@)) {
        let k = path_len(seg)->0 as int;
        assert(k < seg.len());
        assert(t[k] == seg[k]);
        if k + 1 < seg.len() {
            assert(t[k + 1] == seg[k + 1]);
        }
        assert(seg.len() >= 3 ==> t[1] == seg[1] && t[2] == seg[2]);
        if path_tail_len(seg) > 0 {
            lemma_path_tail_prefix(seg, more);
        } else {
            let s1 = seg.skip(1);
            assert(s1[path_tail_len(s1) as int] == seg[k]);
            assert(t.skip(1) =~= s1 + more);
            lemma_path_tail_prefix(s1, more);
        }
    }
}

proof fn lemma_cfg_match_chain(segs: Seq<Seq<TokenTree>>, items: Seq<Items>)
    requires
        segs.len() == items.len(),
        forall|k: int| 0 <= k < segs.len() ==> is_arm(#[trigger] segs[k], items[k]),
    ensures
        cfg_match_arms(segs.flatten()) == Ok::<Items, crate::error::MacroError>(items.flatten()),
        segs.len() > 0 ==> !(segs.flatten()[0] is Group) && !is_punct(segs.flatten()[0], ','),
    decreases segs.len(),
{
    if segs.len() > 0 {
        let seg = segs[0];
        let more = segs.drop_first().flatten();
        let ts = segs.flatten();
        assert(is_arm(segs[0], items[0]));
        assert(ts == seg + more);
        lemma_pattern_prefix(seg, items[0], more);
        let tail_segs = segs.drop_first();
        let tail_items = items.drop_first();
        assert forall|k: int| 0 <= k < tail_segs.len() implies is_arm(#[trigger] tail_segs[k], tail_items[k]) by {
            assert(tail_segs[k] == segs[k + 1]);
        }
        lemma_cfg_match_chain(tail_segs, tail_items);
        let p = pattern_len(seg)->0 as int;
        assert(ts.subrange(0, seg.len() as int) =~= seg);
        assert(ts[p] == seg[p]);
        assert(ts[p + 1] == seg[p + 1]);
        assert(ts[p + 2] == seg[p + 2]);
        assert(ts.skip(seg.len() as int) =~= more);
        if seg.len() == p + 4 {
            assert(ts[p + 3] == seg[p + 3]);
        } else if more.len() > 0 {
            assert(ts[p + 3] == more[0]);
        }
    }
}

/// Every arm of a well-formed `cfg_match!`, whatever its pattern, gives its
/// items, and the result is the items of all arms in arm order.
pub proof fn lemma_cfg_match_collects_every_arm(segs: Seq<Seq<TokenTree>>, items: Seq<Items>)
    requires
        segs.len() == items.len(),
        forall|k: int| 0 <= k < segs.len() ==> is_arm(#[trigger] segs[k], items[k]),
    ensures
        cfg_match_items(segs.flatten()) == Ok::<Items, crate::error::MacroError>(items.flatten()),
{
    lemma_cfg_match_chain(segs, items);
}


/// Length and first letters of the keywords of the item grammar.
proof fn lemma_keyword_letters()
    ensures
        "pub"@.len() == 3 && "pub"@[0] == 'p' && "pub"@[1] == 'u' && "pub"@[2] == 'b',
        "const"@.len() == 5 && "const"@[0] == 'c' && "const"@[1] == 'o' && "const"@[2] == 'n',
        "async"@.len() == 5 && "async"@[0] == 'a' && "async"@[1] == 's' && "async"@[2] == 'y',
        "unsafe"@.len() == 6 && "unsafe"@[0] == 'u' && "unsafe"@[1] == 'n' && "unsafe"@[2] == 's',
        "safe"@.len() == 4 && "safe"@[0] == 's' && "safe"@[1] == 'a' && "safe"@[2] == 'f',
        "default"@.len() == 7 && "default"@[0] == 'd' && "default"@[1] == 'e' && "default"@[2] == 'f',
        "auto"@.len() == 4 && "auto"@[0] == 'a' && "auto"@[1] == 'u' && "auto"@[2] == 't',
        "extern"@.len() == 6 && "extern"@[0] == 'e' && "extern"@[1] == 'x' && "extern"@[2] == 't',
        "fn"@.len() == 2 && "fn"@[0] == 'f' && "fn"@[1] == 'n',
        "struct"@.len() == 6 && "struct"@[0] == 's' && "struct"@[1] == 't' && "struct"@[2] == 'r',
        "enum"@.len() == 4 && "enum"@[0] == 'e' && "enum"@[1] == 'n' && "enum"@[2] == 'u',
        "union"@.len() == 5 && "union"@[0] == 'u' && "union"@[1] == 'n' && "union"@[2] == 'i',
        "trait"@.len() == 5 && "trait"@[0] == 't' && "trait"@[1] == 'r' && "trait"@[2] == 'a',
        "impl"@.len() == 4 && "impl"@[0] == 'i' && "impl"@[1] == 'm' && "impl"@[2] == 'p',
        "mod"@.len() == 3 && "mod"@[0] == 'm' && "mod"@[1] == 'o' && "mod"@[2] == 'd',
        "use"@.len() == 3 && "use"@[0] == 'u' && "use"@[1] == 's' && "use"@[2] == 'e',
        "static"@.len() == 6 && "static"@[0] == 's' && "static"@[1] == 't' && "static"@[2] == 'a',
        "type"@.len() == 4 && "type"@[0] == 't' && "type"@[1] == 'y' && "type"@[2] == 'p',
{
    reveal_strlit("pub");
    reveal_strlit("const");
    reveal_strlit("async");
    reveal_strlit("unsafe");
    reveal_strlit("safe");
    reveal_strlit("default");
    reveal_strlit("auto");
    reveal_strlit("extern");
    reveal_strlit("fn");
    reveal_strlit("struct");
    reveal_strlit("enum");
    reveal_strlit("union");
    reveal_strlit("trait");
    reveal_strlit("impl");
    reveal_strlit("mod");
    reveal_strlit("use");
    reveal_strlit("static");
    reveal_strlit("type");
}

/// An item that starts with `fn`, `struct`, `enum`, `union`, `trait`, `impl`
/// or `mod` ends at its first `;` or `{..}`, whatever `=` comes before it.
pub proof fn lemma_body_items_end_at_body(s: Seq<TokenTree>)
    requires
        s.len() > 0,
        is_body_keyword(s[0]),
    ensures
        item_len(s) == end_len(s, true),
{
    lemma_keyword_letters();
    assert(attrs_len(s) == 0);
    assert(s.skip(0) =~= s);
    assert(vis_len(s) == 0);
    assert(modifiers_len(s) == 0);
}

/// An item that starts with `use`, `static` or `type` ends at its first
/// `;`, whatever groups `{..}` come before it.
pub proof fn lemma_semi_items_end_at_semicolon(s: Seq<TokenTree>)
    requires
        s.len() > 0,
        is_semi_keyword(s[0]),
    ensures
        item_len(s) == end_len(s, false),
{
    lemma_keyword_letters();
    assert(attrs_len(s) == 0);
    assert(s.skip(0) =~= s);
    assert(vis_len(s) == 0);
    assert(modifiers_len(s) == 0);
}

/// Tokens that start with a literal, or with punctuation other than `#`
/// (attributes) and `:` (a macro path such as `::m!`), are no item.
pub proof fn lemma_no_item_starts_with_literal_or_punct(s: Seq<TokenTree>)
    requires
        s.len() > 0,
        s[0] is Literal || (s[0] is Punct && !is_punct(s[0], '#') && !is_punct(s[0], ':')),
    ensures
        item_len(s) is None,
{
    assert(attrs_len(s) == 0);
    assert(s.skip(0) =~= s);
    assert(vis_len(s) == 0);
    assert(modifiers_len(s) == 0);
}

/// The items of a block that splits are non-empty and, put together, are
/// the block's tokens in order.
pub proof fn lemma_items_cover_block(ts: Seq<TokenTree>)
    requires
        split_items(ts) is Some,
    ensures
        split_items(ts)->0.flatten() == ts,
        forall|i: int| 0 <= i < split_items(ts)->0.len() ==> (#[trigger] split_items(ts)->0[i]).len() > 0,
    decreases ts.len(),
{
    if ts.len() == 0 {
        assert(split_items(ts)->0 =~= Seq::<Seq<TokenTree>>::empty());
    } else {
        let k = item_len(ts)->0 as int;
        let rest = ts.skip(k);
        lemma_items_cover_block(rest);
        let items = split_items(ts)->0;
        let tail = split_items(rest)->0;
        assert(items == seq![ts.take(k)] + tail);
        assert(items.drop_first() =~= tail);
        assert(ts.take(k) + rest =~= ts);
        assert forall|i: int| 0 <= i < items.len() implies (#[trigger] items[i]).len() > 0 by {
            if i > 0 {
                assert(items[i] == tail[i - 1]);
            }
        }
    }
}

/// A name/value attribute adds a path only where its name is `path` and its
/// value a string literal.
pub proof fn lemma_other_attributes_add_nothing(meta: MetaItem, lit: MetaItemLit, sep: Separator)
    requires
        !has_name(meta, "path"@) || !(lit.kind is Str),
    ensures
        path_override(meta, lit, sep) is None,
{
}

/// Where `/` is the native separator, paths are kept as written.
pub proof fn lemma_slash_keeps_paths(s: Seq<char>)
    ensures
        normalize(s, Separator::Slash) == s,
{
    assert(normalize(s, Separator::Slash) =~= s);
}

/// Where `\` is the native separator, no `/` is left in a path, and every
/// other character is kept.
pub proof fn lemma_backslash_rewrites_slashes(s: Seq<char>)
    ensures
        normalize(s, Separator::Backslash).len() == s.len(),
        forall|i: int| 0 <= i < s.len() ==> #[trigger] normalize(s, Separator::Backslash)[i] == if s[i] == '/' { '\\' } else { s[i] },
{
}

} // verus!
