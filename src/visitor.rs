//! The two visitors: one collects the items hidden in recognized
//! conditional-compilation macros, the other the `#[path = "..."]` overrides.

use vstd::prelude::*;
use crate::cfg_if::{cfg_if_items, parse_cfg_if};
use crate::cfg_match::{cfg_match_items, parse_cfg_match};
use crate::error::MacroError;
use crate::items::{Item, Items, result_view, items_view};
use crate::token::TokenTree;

verus! {

/// A macro invocation `a::b::name! { tokens }`.
#[derive(Debug)]
pub struct MacCall {
    /// The segments of the macro's path.
    pub path: Vec<String>,
    /// The tokens between the invocation's delimiters.
    pub tokens: Vec<TokenTree>,
}

/// The macros whose bodies are searched for items.
#[derive(Clone, Copy, Debug, PartialEq, Eq, Structural)]
pub enum KnownMacro {
    CfgIf,
    CfgMatch,
    Unrecognized,
}

/// Which macro a path names, by its last segment.
pub open spec fn known_macro_of(path: Seq<String>) -> KnownMacro {
    if path.len() > 0 && path.last()@ == "cfg_if"@ {
        KnownMacro::CfgIf
    } else if path.len() > 0 && path.last()@ == "cfg_match"@ {
        KnownMacro::CfgMatch
    } else {
        KnownMacro::Unrecognized
    }
}

/// What reading the body of `mac` gives: no items for a macro that is not
/// recognized, else the items of its grammar or why it does not match.
pub open spec fn expand(mac: MacCall) -> Result<Items, MacroError> {
    match known_macro_of(mac.path@) {
        KnownMacro::CfgIf => cfg_if_items(mac.tokens@),
        KnownMacro::CfgMatch => cfg_match_items(mac.tokens@),
        KnownMacro::Unrecognized => Ok(Seq::empty()),
    }
}

/// The items that `mac` adds to what the visitor found.
pub open spec fn contributed(mac: MacCall) -> Items {
    match expand(mac) {
        Ok(items) => items,
        Err(_) => Seq::empty(),
    }
}

/// Looks the macro up by the last segment of its path.
pub fn known_macro(path: &Vec<String>) -> (k: KnownMacro)
    ensures
        k == known_macro_of(path@),
{
    if path.len() == 0 {
        return KnownMacro::Unrecognized;
    }
    let name = &path[path.len() - 1];
    if *name == String::from_str("cfg_if") {
        KnownMacro::CfgIf
    } else if *name == String::from_str("cfg_match") {
        KnownMacro::CfgMatch
    } else {
        KnownMacro::Unrecognized
    }
}

/// An item found in the body of a recognized macro.
#[derive(Debug)]
pub struct ModItem {
    pub item: Item,
}

pub open spec fn mod_items_view(v: Seq<ModItem>) -> Items {
    v.map_values(|m: ModItem| m.item.tokens@)
}

/// Wraps each item, keeping their order.
fn into_mod_items(items: Vec<Item>) -> (r: Vec<ModItem>)
    ensures
        mod_items_view(r@) == items_view(items@),
{
    let ghost orig = items@;
    let mut items = items;
    let mut rev: Vec<ModItem> = Vec::new();
    while items.len() > 0
        invariant
            items@.len() <= orig.len(),
            items@ == orig.take(items@.len() as int),
            rev@.len() == orig.len() - items@.len(),
            forall|i: int| 0 <= i < rev@.len() ==> #[trigger] rev@[i].item == orig[orig.len() - 1 - i],
        decreases items.len(),
    {
        let item = items.pop().unwrap();
        rev.push(ModItem { item });
        assert(items@ =~= orig.take(items@.len() as int));
    }
    let ghost back = rev@;
    let mut out: Vec<ModItem> = Vec::new();
    while rev.len() > 0
        invariant
            rev@.len() <= back.len(),
            back.len() == orig.len(),
            rev@ == back.take(rev@.len() as int),
            out@.len() == back.len() - rev@.len(),
            forall|i: int| 0 <= i < back.len() ==> #[trigger] back[i].item == orig[orig.len() - 1 - i],
            forall|i: int| 0 <= i < out@.len() ==> #[trigger] out@[i].item == orig[i],
        decreases rev.len(),
    {
        let m = rev.pop().unwrap();
        out.push(m);
        assert(rev@ =~= back.take(rev@.len() as int));
    }
    assert(mod_items_view(out@) =~= items_view(orig));
    out
}

/// Collects the items declared inside `cfg_if!` and `cfg_match!` invocations.
pub struct KnownMacroVisitor {
    mods: Vec<ModItem>,
}

impl View for KnownMacroVisitor {
    type V = Items;

    /// The items found so far, in the order in which they were found.
    closed spec fn view(&self) -> Items {
        mod_items_view(self.mods@)
    }
}

impl KnownMacroVisitor {
    pub fn new() -> (v: KnownMacroVisitor)
        ensures
            v@ == Seq::<Seq<TokenTree>>::empty(),
    {
        let v = KnownMacroVisitor { mods: Vec::new() };
        assert(v@ =~= Seq::<Seq<TokenTree>>::empty());
        v
    }

    /// The items found.
    pub fn mods(self) -> (r: Vec<ModItem>)
        ensures
            mod_items_view(r@) == self@,
    {
        self.mods
    }

    /// Adds the items that `mac` holds; a malformed body adds none.
    pub fn visit_mac_call(&mut self, mac: MacCall)
        ensures
            final(self)@ == old(self)@ + contributed(mac),
    {
        let _ = self.visit_mac_inner(mac);
    }

    /// Adds the items that `mac` holds, or tells why its body could not be read.
    pub fn visit_mac_inner(&mut self, mac: MacCall) -> (r: Result<(), MacroError>)
        ensures
            r is Ok <==> expand(mac) is Ok,
            r is Err ==> r->Err_0 == expand(mac)->Err_0,
            final(self)@ == old(self)@ + contributed(mac),
    {
        let ghost m = mac;
        let MacCall { path, tokens } = mac;
        let parsed = match known_macro(&path) {
            KnownMacro::CfgIf => parse_cfg_if(tokens),
            KnownMacro::CfgMatch => parse_cfg_match(tokens),
            KnownMacro::Unrecognized => Ok(Vec::new()),
        };
        proof {
            reveal_strlit("cfg_if");
            reveal_strlit("cfg_match");
        }
        assert(result_view(parsed) == expand(m) || (parsed is Ok && parsed->Ok_0@.len() == 0
            && expand(m) == Ok::<Items, MacroError>(Seq::empty())));
        match parsed {
            Ok(items) => {
                let ghost prev = self@;
                let mut found = into_mod_items(items);
                let ghost f = found@;
                self.mods.append(&mut found);
                assert(self@ =~= prev + mod_items_view(f));
                Ok(())
            },
            Err(e) => {
                assert(self@ =~= old(self)@ + contributed(m));
                Err(e)
            },
        }
    }
}

/// The name of a name/value attribute, as in `#[path = "..."]`.
#[derive(Debug)]
pub struct MetaItem {
    /// The segments of the attribute's path.
    pub path: Vec<String>,
}

/// The kind of a literal.
#[derive(Debug)]
pub enum LitKind {
    /// A string literal, by its contents.
    Str(String),
    ByteStr(Vec<u8>),
    Byte(u8),
    Char(char),
    Int(u128),
    Bool(bool),
}

/// The value of a name/value attribute.
#[derive(Debug)]
pub struct MetaItemLit {
    pub kind: LitKind,
}

/// The native separator of file paths.
#[derive(Clone, Copy, Debug, PartialEq, Eq, Structural)]
pub enum Separator {
    Slash,
    Backslash,
}

/// Whether `m` is the single-segment name `name`.
pub open spec fn has_name(m: MetaItem, name: Seq<char>) -> bool {
    m.path@.len() == 1 && m.path@[0]@ == name
}

/// `s` with every `/` written as `\` where that is the native separator, else `s`.
pub open spec fn normalize(s: Seq<char>, sep: Separator) -> Seq<char> {
    Seq::new(s.len(), |i: int| if sep == Separator::Backslash && s[i] == '/' { '\\' } else { s[i] })
}

/// The path that the attribute `meta = lit` sets, if it sets one.
pub open spec fn path_override(meta: MetaItem, lit: MetaItemLit, sep: Separator) -> Option<Seq<char>> {
    if has_name(meta, "path"@) && lit.kind is Str {
        Some(normalize(lit.kind->Str_0@, sep))
    } else {
        None
    }
}

/// Collects the paths set by `#[path = "..."]` attributes.
pub struct PathVisitor {
    paths: Vec<String>,
    separator: Separator,
}

impl View for PathVisitor {
    type V = Seq<Seq<char>>;

    /// The paths found so far, in the order in which they were found.
    closed spec fn view(&self) -> Seq<Seq<char>> {
        self.paths@.map_values(|p: String| p@)
    }
}

impl Default for PathVisitor {
    /// The visitor for platforms whose separator is `/`: paths are kept as
    /// written. Elsewhere use `PathVisitor::new` with the native separator.
    fn default() -> (v: PathVisitor)
        ensures
            v@ == Seq::<Seq<char>>::empty(),
            v.separator() == Separator::Slash,
    {
        PathVisitor::new(Separator::Slash)
    }
}

/// Whether `meta` is the single-segment name `path`.
fn is_path_key(meta: &MetaItem) -> (r: bool)
    ensures
        r == has_name(*meta, "path"@),
{
    meta.path.len() == 1 && meta.path[0] == String::from_str("path")
}

/// The contents of a string literal, with `/` written as the native separator.
fn lit_to_str(lit: &MetaItemLit, sep: Separator) -> (r: String)
    requires
        lit.kind is Str,
    ensures
        r@ == normalize(lit.kind->Str_0@, sep),
{
    let s = match &lit.kind {
        LitKind::Str(s) => s,
        _ => { return String::new(); },
    };
    if sep == Separator::Slash {
        let r = s.clone();
        assert(r@ =~= normalize(s@, sep));
        return r;
    }
    let ghost want = normalize(s@, sep);
    let n = s.as_str().unicode_len();
    let mut r = String::new();
    let mut seg: usize = 0;
    let mut i: usize = 0;
    proof {
        reveal_strlit("\\");
    }
    while i < n
        invariant
            seg <= i <= n,
            n == s@.len(),
            want == normalize(s@, sep),
            sep == Separator::Backslash,
            r@ == want.take(seg as int),
            forall|j: int| seg <= j < i ==> s@[j] != '/',
            "\\"@ == seq!['\\'],
        decreases n - i,
    {
        let ch = s.as_str().get_char(i);
        if ch == '/' {
            let part = s.as_str().substring_char(seg, i);
            r.append(part);
            r.append("\\");
            assert(r@ =~= want.take(i + 1));
            seg = i + 1;
        }
        i = i + 1;
    }
    let part = s.as_str().substring_char(seg, n);
    r.append(part);
    assert(r@ =~= want);
    r
}

impl PathVisitor {
    /// A visitor that writes paths with `separator` as the native separator.
    pub fn new(separator: Separator) -> (v: PathVisitor)
        ensures
            v@ == Seq::<Seq<char>>::empty(),
            v.separator() == separator,
    {
        let v = PathVisitor { paths: Vec::new(), separator };
        assert(v@ =~= Seq::<Seq<char>>::empty());
        v
    }

    pub closed spec fn separator(&self) -> Separator {
        self.separator
    }

    /// The paths found.
    pub fn paths(self) -> (r: Vec<String>)
        ensures
            r@.map_values(|p: String| p@) == self@,
    {
        self.paths
    }

    /// Records the path that `meta_item = lit` sets, if its name is `path`
    /// and its value a string literal.
    pub fn visit_meta_name_value(&mut self, meta_item: &MetaItem, lit: &MetaItemLit)
        ensures
            final(self).separator() == old(self).separator(),
            final(self)@ == match path_override(*meta_item, *lit, old(self).separator()) {
                Some(p) => old(self)@.push(p),
                None => old(self)@,
            },
    {
        let is_str = match &lit.kind {
            LitKind::Str(_) => true,
            _ => false,
        };
        if is_path_key(meta_item) && is_str {
            let p = lit_to_str(lit, self.separator);
            let ghost prev = self@;
            self.paths.push(p);
            assert(self@ =~= prev.push(p@));
        }
    }
}

} // verus!
