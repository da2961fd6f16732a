use module_visitor::error::MacroError;
use module_visitor::items::{parse_items, Item};
use module_visitor::cfg_if::parse_cfg_if;
use module_visitor::cfg_match::parse_cfg_match;
use module_visitor::token::{Delimiter, TokenTree};
use module_visitor::visitor::{
    known_macro, KnownMacro, KnownMacroVisitor, LitKind, MacCall, MetaItem, MetaItemLit,
    PathVisitor, Separator,
};

fn id(s: &str) -> TokenTree {
    TokenTree::Ident(s.to_string())
}

fn p(c: char) -> TokenTree {
    TokenTree::Punct(c)
}

fn lit(s: &str) -> TokenTree {
    TokenTree::Literal(s.to_string())
}

fn brace(v: Vec<TokenTree>) -> TokenTree {
    TokenTree::Group(Delimiter::Brace, v)
}

fn paren(v: Vec<TokenTree>) -> TokenTree {
    TokenTree::Group(Delimiter::Parenthesis, v)
}

fn bracket(v: Vec<TokenTree>) -> TokenTree {
    TokenTree::Group(Delimiter::Bracket, v)
}

/// `fn name() {}`
fn fn_item(name: &str) -> Vec<TokenTree> {
    vec![id("fn"), id(name), paren(vec![]), brace(vec![])]
}

/// `mod name;`
fn mod_item(name: &str) -> Vec<TokenTree> {
    vec![id("mod"), id(name), p(';')]
}

/// `#[cfg(pred)]`
fn cfg_attr(pred: &str) -> Vec<TokenTree> {
    vec![p('#'), bracket(vec![id("cfg"), paren(vec![id(pred)])])]
}

fn mac(path: &[&str], tokens: Vec<TokenTree>) -> MacCall {
    MacCall { path: path.iter().map(|s| s.to_string()).collect(), tokens }
}

fn collect(calls: Vec<MacCall>) -> Vec<Vec<TokenTree>> {
    let mut v = KnownMacroVisitor::new();
    for c in calls {
        v.visit_mac_call(c);
    }
    v.mods().into_iter().map(|m| m.item.tokens).collect()
}

trait CloneTokens {
    fn clone_tokens(&self) -> Vec<TokenTree>;
}

fn copy_token(t: &TokenTree) -> TokenTree {
    match t {
        TokenTree::Ident(s) => TokenTree::Ident(s.clone()),
        TokenTree::Punct(c) => TokenTree::Punct(*c),
        TokenTree::Literal(s) => TokenTree::Literal(s.clone()),
        TokenTree::Group(d, v) => TokenTree::Group(*d, v.clone_tokens()),
    }
}

impl CloneTokens for Vec<TokenTree> {
    fn clone_tokens(&self) -> Vec<TokenTree> {
        self.iter().map(copy_token).collect()
    }
}

fn cat(parts: Vec<Vec<TokenTree>>) -> Vec<TokenTree> {
    parts.into_iter().flatten().collect()
}

#[test]
fn cfg_if_end_to_end_if_else() {
    // cfg_if! { if #[cfg(a)] { fn f() {} } else { fn g() {} } }
    let body = cat(vec![
        vec![id("if")],
        cfg_attr("a"),
        vec![brace(fn_item("f")), id("else"), brace(fn_item("g"))],
    ]);
    let found = collect(vec![mac(&["cfg_if"], body)]);
    assert_eq!(found, vec![fn_item("f"), fn_item("g")]);
}

#[test]
fn cfg_if_every_branch_in_order() {
    let body = cat(vec![
        vec![id("if")],
        cfg_attr("unix"),
        vec![brace(cat(vec![mod_item("a"), mod_item("b")])), id("else"), id("if")],
        vec![p('#'), bracket(vec![id("cfg"), paren(vec![id("any"), paren(vec![])])])],
        vec![brace(mod_item("c")), id("else"), id("if")],
        cfg_attr("windows"),
        vec![brace(vec![]), id("else"), brace(mod_item("d"))],
    ]);
    let found = collect(vec![mac(&["cfg_if"], body)]);
    assert_eq!(found, vec![mod_item("a"), mod_item("b"), mod_item("c"), mod_item("d")]);
}

#[test]
fn cfg_if_without_else_and_inner_attribute() {
    let body = cat(vec![
        vec![id("if"), p('#'), p('!'), bracket(vec![id("cfg"), paren(vec![id("x")])])],
        vec![brace(mod_item("only"))],
    ]);
    let r = parse_cfg_if(body).unwrap();
    assert_eq!(r, vec![Item { tokens: mod_item("only") }]);
}

#[test]
fn cfg_if_by_qualified_path() {
    let body = cat(vec![vec![id("if")], cfg_attr("a"), vec![brace(mod_item("m"))]]);
    let found = collect(vec![mac(&["cfg_if", "cfg_if"], body)]);
    assert_eq!(found, vec![mod_item("m")]);
}

#[test]
fn cfg_if_errors() {
    // missing `if`
    assert_eq!(parse_cfg_if(vec![brace(mod_item("a"))]), Err(MacroError::ExpectedIf));
    // empty body
    assert_eq!(parse_cfg_if(vec![]), Err(MacroError::ExpectedIf));
    // missing predicate
    assert_eq!(parse_cfg_if(vec![id("if"), brace(mod_item("a"))]), Err(MacroError::BadAttribute));
    // predicate that is not an attribute item
    assert_eq!(
        parse_cfg_if(vec![id("if"), p('#'), bracket(vec![lit("1")]), brace(vec![])]),
        Err(MacroError::BadAttribute)
    );
    // no block
    let t = cat(vec![vec![id("if")], cfg_attr("a")]);
    assert_eq!(parse_cfg_if(t), Err(MacroError::ExpectedOpenBrace));
    let mut t = cat(vec![vec![id("if")], cfg_attr("a")]);
    t.push(paren(vec![]));
    assert_eq!(parse_cfg_if(t), Err(MacroError::ExpectedOpenBrace));
    // a block that is not a sequence of items
    let t = cat(vec![vec![id("if")], cfg_attr("a"), vec![brace(vec![id("mod"), id("a")])]]);
    assert_eq!(parse_cfg_if(t), Err(MacroError::ExpectedItem));
    // something other than `else`
    let t = cat(vec![vec![id("if")], cfg_attr("a"), vec![brace(vec![]), id("elif")]]);
    assert_eq!(parse_cfg_if(t), Err(MacroError::ExpectedElse));
    // tokens after the final else
    let t = cat(vec![
        vec![id("if")],
        cfg_attr("a"),
        vec![brace(vec![]), id("else"), brace(vec![]), id("else"), brace(vec![])],
    ]);
    assert_eq!(parse_cfg_if(t), Err(MacroError::TrailingTokens));
    // dangling else
    let t = cat(vec![vec![id("if")], cfg_attr("a"), vec![brace(vec![]), id("else")]]);
    assert_eq!(parse_cfg_if(t), Err(MacroError::ExpectedOpenBrace));
}

#[test]
fn cfg_match_every_arm_in_order() {
    // cfg_match! { cfg(unix) => { mod a; } std::cfg(windows) => { mod b; fn h() {} }, _ => { mod c; } }
    let body = cat(vec![
        vec![id("cfg"), paren(vec![id("unix")]), p('='), p('>'), brace(mod_item("a"))],
        vec![id("std"), p(':'), p(':'), id("cfg"), paren(vec![id("windows")])],
        vec![p('='), p('>'), brace(cat(vec![mod_item("b"), fn_item("h")])), p(',')],
        vec![id("_"), p('='), p('>'), brace(mod_item("c"))],
    ]);
    let found = collect(vec![mac(&["cfg_match"], body)]);
    assert_eq!(found, vec![mod_item("a"), mod_item("b"), fn_item("h"), mod_item("c")]);
}

#[test]
fn cfg_match_empty_body() {
    assert_eq!(parse_cfg_match(vec![]), Ok(vec![]));
}

#[test]
fn cfg_match_errors() {
    assert_eq!(parse_cfg_match(vec![brace(vec![])]), Err(MacroError::ExpressionPosition));
    assert_eq!(
        parse_cfg_match(vec![lit("1"), p('='), p('>'), brace(vec![])]),
        Err(MacroError::BadAttrItem)
    );
    assert_eq!(
        parse_cfg_match(vec![id("unix"), brace(vec![])]),
        Err(MacroError::ExpectedFatArrow)
    );
    assert_eq!(
        parse_cfg_match(vec![id("unix"), p('='), p('>'), paren(vec![])]),
        Err(MacroError::ExpectedOpenBrace)
    );
    assert_eq!(
        parse_cfg_match(vec![id("_"), p('='), p('>'), brace(vec![p(';')])]),
        Err(MacroError::ExpectedItem)
    );
}

#[test]
fn unrecognized_macro_adds_nothing() {
    let body = cat(vec![vec![id("if")], cfg_attr("a"), vec![brace(mod_item("m"))]]);
    let mut v = KnownMacroVisitor::new();
    assert_eq!(v.visit_mac_inner(mac(&["println"], body)), Ok(()));
    assert_eq!(v.visit_mac_inner(mac(&["cfg_if", "other"], vec![id("junk")])), Ok(()));
    assert_eq!(v.visit_mac_inner(mac(&["Cfg_If"], vec![id("junk")])), Ok(()));
    assert_eq!(v.visit_mac_inner(mac(&[], vec![])), Ok(()));
    assert!(v.mods().is_empty());
}

#[test]
fn malformed_macro_does_not_stop_siblings() {
    let bad = mac(&["cfg_if"], vec![id("if"), brace(mod_item("lost"))]);
    let good = mac(
        &["cfg_match"],
        vec![id("_"), p('='), p('>'), brace(mod_item("kept"))],
    );
    let mut v = KnownMacroVisitor::new();
    assert_eq!(
        v.visit_mac_inner(mac(&["cfg_if"], vec![id("if"), brace(vec![])])),
        Err(MacroError::BadAttribute)
    );
    v.visit_mac_call(bad);
    v.visit_mac_call(good);
    let found: Vec<Vec<TokenTree>> = v.mods().into_iter().map(|m| m.item.tokens).collect();
    assert_eq!(found, vec![mod_item("kept")]);
}

#[test]
fn macro_names_by_last_segment() {
    let path = |v: &[&str]| v.iter().map(|s| s.to_string()).collect::<Vec<String>>();
    assert_eq!(known_macro(&path(&["cfg_if"])), KnownMacro::CfgIf);
    assert_eq!(known_macro(&path(&["core", "cfg_match"])), KnownMacro::CfgMatch);
    assert_eq!(known_macro(&path(&["cfg_if", "x"])), KnownMacro::Unrecognized);
    assert_eq!(known_macro(&path(&[])), KnownMacro::Unrecognized);
}

fn items_of(tokens: Vec<TokenTree>) -> Option<Vec<Vec<TokenTree>>> {
    parse_items(tokens).map(|v| v.into_iter().map(|i| i.tokens).collect())
}

#[test]
fn items_split_on_semicolons_and_blocks() {
    // #[path = "x.rs"] mod x; const K: S = S { a: 1 }; struct T(u8); impl T {}
    let body = cat(vec![
        vec![p('#'), bracket(vec![id("path"), p('='), lit("\"x.rs\"")])],
        mod_item("x"),
        vec![id("const"), id("K"), p(':'), id("S"), p('='), id("S")],
        vec![brace(vec![id("a"), p(':'), lit("1")]), p(';')],
        vec![id("struct"), id("T"), paren(vec![id("u8")]), p(';')],
        vec![id("impl"), id("T"), brace(vec![])],
    ]);
    let items = parse_items(body).unwrap();
    assert_eq!(items.len(), 4);
    assert_eq!(items[0].tokens.len(), 5);
    assert_eq!(items[1].tokens.len(), 8);
    assert_eq!(items[2].tokens.len(), 4);
    assert_eq!(items[3].tokens, vec![id("impl"), id("T"), brace(vec![])]);
}

/// `use a::{b};`
fn use_braced() -> Vec<TokenTree> {
    vec![id("use"), id("a"), p(':'), p(':'), brace(vec![id("b")]), p(';')]
}

#[test]
fn use_with_braces_is_one_item() {
    assert_eq!(items_of(use_braced()), Some(vec![use_braced()]));
    let libc = vec![id("use"), id("libc"), p(':'), p(':'), brace(vec![id("c_int")]), p(';')];
    let body = cat(vec![vec![id("if")], cfg_attr("unix"), vec![brace(cat(vec![
        vec![id("use"), id("libc"), p(':'), p(':'), brace(vec![id("c_int")]), p(';')],
        mod_item("unix"),
    ]))]]);
    let found = collect(vec![mac(&["cfg_if"], body)]);
    assert_eq!(found, vec![libc, mod_item("unix")]);
    let body = vec![id("_"), p('='), p('>'), brace(use_braced())];
    assert_eq!(collect(vec![mac(&["cfg_match"], body)]), vec![use_braced()]);
}

#[test]
fn equals_in_generics_does_not_move_the_end() {
    // fn f() -> impl Iterator<Item = u8> {}
    let f = vec![
        id("fn"), id("f"), paren(vec![]), p('-'), p('>'), id("impl"), id("Iterator"), p('<'),
        id("Item"), p('='), id("u8"), p('>'), brace(vec![]),
    ];
    // struct S<T = u8> {}
    let st = vec![id("struct"), id("S"), p('<'), id("T"), p('='), id("u8"), p('>'), brace(vec![])];
    // trait T<Rhs = Self> {}
    let tr = vec![id("trait"), id("T"), p('<'), id("Rhs"), p('='), id("Self"), p('>'), brace(vec![])];
    let body = cat(vec![f.clone_tokens(), st.clone_tokens(), tr.clone_tokens(), mod_item("m")]);
    assert_eq!(items_of(body), Some(vec![f, st, tr, mod_item("m")]));
}

#[test]
fn modifiers_visibility_and_foreign_items() {
    // pub(crate) unsafe extern "C" fn f() {}
    let f = vec![
        id("pub"), paren(vec![id("crate")]), id("unsafe"), id("extern"), lit("\"C\""),
        id("fn"), id("f"), paren(vec![]), brace(vec![]),
    ];
    // extern crate a;
    let ec = vec![id("extern"), id("crate"), id("a"), p(';')];
    // extern "C" { fn g(); }
    let eb = vec![id("extern"), lit("\"C\""), brace(vec![id("fn"), id("g"), paren(vec![]), p(';')])];
    // pub const fn h() {}
    let cf = vec![id("pub"), id("const"), id("fn"), id("h"), paren(vec![]), brace(vec![])];
    // static X: S = S { a: 1 };
    let stc = vec![id("static"), id("X"), p(':'), id("S"), p('='), id("S"), brace(vec![]), p(';')];
    // type T = u8;
    let ty = vec![id("type"), id("T"), p('='), id("u8"), p(';')];
    // async fn a() {}
    let af = vec![id("async"), id("fn"), id("a"), paren(vec![]), brace(vec![])];
    // unsafe impl Send for S {}
    let ui = vec![id("unsafe"), id("impl"), id("Send"), id("for"), id("S"), brace(vec![])];
    let all = vec![f, ec, eb, cf, stc, ty, af, ui];
    let body = cat(all.iter().map(|v| v.clone_tokens()).collect());
    assert_eq!(items_of(body), Some(all));
}

#[test]
fn macro_calls_are_items() {
    // macro_rules! m { () => {} }
    let mr = vec![id("macro_rules"), p('!'), id("m"), brace(vec![paren(vec![]), p('='), p('>'), brace(vec![])])];
    // m!(x);
    let m1 = vec![id("m"), p('!'), paren(vec![id("x")]), p(';')];
    // a::m![x];
    let m2 = vec![id("a"), p(':'), p(':'), id("m"), p('!'), bracket(vec![id("x")]), p(';')];
    // m! { x }
    let m3 = vec![id("m"), p('!'), brace(vec![id("x")])];
    let all = vec![mr, m1, m2, m3];
    let body = cat(all.iter().map(|v| v.clone_tokens()).collect());
    assert_eq!(items_of(body), Some(all));
    // m!(x) without `;`
    assert_eq!(items_of(vec![id("m"), p('!'), paren(vec![id("x")])]), None);
}

#[test]
fn non_items_are_rejected() {
    assert_eq!(items_of(vec![lit("1"), p(';')]), None);
    assert_eq!(items_of(vec![id("let"), id("x"), p('='), lit("1"), p(';')]), None);
    assert_eq!(items_of(vec![lit("\"C\""), id("fn"), id("f"), paren(vec![]), brace(vec![])]), None);
    assert_eq!(items_of(vec![id("foo"), p(';')]), None);
    assert_eq!(items_of(vec![id("pub"), p(';')]), None);
    // cfg_if! { if #[cfg(a)] { 1; } }
    let body = cat(vec![vec![id("if")], cfg_attr("a"), vec![brace(vec![lit("1"), p(';')])]]);
    let mut v = KnownMacroVisitor::new();
    assert_eq!(v.visit_mac_inner(mac(&["cfg_if"], body)), Err(MacroError::ExpectedItem));
    assert!(v.mods().is_empty());
}

#[test]
fn items_empty_and_malformed() {
    assert_eq!(parse_items(vec![]), Some(vec![]));
    assert_eq!(parse_items(vec![p(';')]), None);
    assert_eq!(parse_items(cat(vec![mod_item("a"), vec![p(';')]])), None);
    assert_eq!(parse_items(vec![id("mod"), id("a")]), None);
}

#[test]
fn error_messages() {
    assert_eq!(MacroError::ExpectedIf.message(), "Expected `if`");
    assert_eq!(MacroError::ExpectedFatArrow.message(), "Expected a fat arrow");
    assert_eq!(MacroError::ExpectedOpenBrace.message(), "Expected an opening brace");
}

fn meta(path: &[&str]) -> MetaItem {
    MetaItem { path: path.iter().map(|s| s.to_string()).collect() }
}

fn str_lit(s: &str) -> MetaItemLit {
    MetaItemLit { kind: LitKind::Str(s.to_string()) }
}

#[test]
fn path_attribute_end_to_end() {
    let mut v = PathVisitor::default();
    v.visit_meta_name_value(&meta(&["path"]), &str_lit("foo/bar.rs"));
    assert_eq!(v.paths(), vec!["foo/bar.rs".to_string()]);
    let mut v = PathVisitor::new(Separator::Backslash);
    v.visit_meta_name_value(&meta(&["path"]), &str_lit("foo/bar.rs"));
    assert_eq!(v.paths(), vec!["foo\\bar.rs".to_string()]);
}

#[test]
fn path_separator_per_platform() {
    let mut v = PathVisitor::new(Separator::Backslash);
    v.visit_meta_name_value(&meta(&["path"]), &str_lit("sub/mod.rs"));
    v.visit_meta_name_value(&meta(&["path"]), &str_lit("/a//b/"));
    v.visit_meta_name_value(&meta(&["path"]), &str_lit("plain.rs"));
    assert_eq!(v.paths(), vec!["sub\\mod.rs", "\\a\\\\b\\", "plain.rs"]);
    let mut v = PathVisitor::new(Separator::Slash);
    v.visit_meta_name_value(&meta(&["path"]), &str_lit("sub/mod.rs"));
    v.visit_meta_name_value(&meta(&["path"]), &str_lit("é/ü.rs"));
    assert_eq!(v.paths(), vec!["sub/mod.rs", "é/ü.rs"]);
}

#[test]
fn other_attributes_ignored() {
    let mut v = PathVisitor::new(Separator::Backslash);
    v.visit_meta_name_value(&meta(&["doc"]), &str_lit("a/b"));
    v.visit_meta_name_value(&meta(&["a", "path"]), &str_lit("a/b"));
    v.visit_meta_name_value(&meta(&["Path"]), &str_lit("a/b"));
    v.visit_meta_name_value(&meta(&["path"]), &MetaItemLit { kind: LitKind::Int(3) });
    v.visit_meta_name_value(&meta(&["path"]), &MetaItemLit { kind: LitKind::Bool(true) });
    v.visit_meta_name_value(&meta(&["path"]), &MetaItemLit { kind: LitKind::ByteStr(b"a/b".to_vec()) });
    v.visit_meta_name_value(&meta(&["path"]), &MetaItemLit { kind: LitKind::Char('/') });
    v.visit_meta_name_value(&meta(&["path"]), &MetaItemLit { kind: LitKind::Byte(b'/') });
    v.visit_meta_name_value(&meta(&["path"]), &str_lit("é/x.rs"));
    assert_eq!(v.paths(), vec!["é\\x.rs".to_string()]);
}

#[test]
fn cfg_match_name_value_predicate() {
    // cfg_match! { feature = "x" => { fn a() {} } target_os = "linux" => { mod b; }, _ => { mod c; } }
    let body = cat(vec![
        vec![id("feature"), p('='), lit("\"x\""), p('='), p('>'), brace(fn_item("a"))],
        vec![id("target_os"), p('='), lit("\"linux\""), p('='), p('>'), brace(mod_item("b")), p(',')],
        vec![id("_"), p('='), p('>'), brace(mod_item("c"))],
    ]);
    let found = collect(vec![mac(&["cfg_match"], body)]);
    assert_eq!(found, vec![fn_item("a"), mod_item("b"), mod_item("c")]);
    // a name/value predicate without `=>`
    assert_eq!(
        parse_cfg_match(vec![id("feature"), p('='), lit("\"x\""), brace(vec![])]),
        Err(MacroError::ExpectedFatArrow)
    );
}

#[test]
fn braced_const_arguments_do_not_end_items() {
    // fn f() -> Foo<{ N }> {}
    let f = vec![
        id("fn"), id("f"), paren(vec![]), p('-'), p('>'), id("Foo"), p('<'), brace(vec![id("N")]),
        p('>'), brace(vec![]),
    ];
    // impl<const N: usize> T for A<{ N }> {}
    let i = vec![
        id("impl"), p('<'), id("const"), id("N"), p(':'), id("usize"), p('>'), id("T"), id("for"),
        id("A"), p('<'), brace(vec![id("N")]), p('>'), brace(vec![]),
    ];
    // fn g() where T: Fn() -> u8 {}
    let g = vec![
        id("fn"), id("g"), paren(vec![]), id("where"), id("T"), p(':'), id("Fn"), paren(vec![]),
        p('-'), p('>'), id("u8"), brace(vec![]),
    ];
    let all = vec![f, i, g];
    let body = cat(all.iter().map(|v| v.clone_tokens()).collect());
    assert_eq!(items_of(body), Some(all));
}

#[test]
fn macro_paths_with_leading_colons() {
    // ::m! {}  ::a::m!(x);
    let m1 = vec![p(':'), p(':'), id("m"), p('!'), brace(vec![])];
    let m2 = vec![p(':'), p(':'), id("a"), p(':'), p(':'), id("m"), p('!'), paren(vec![id("x")]), p(';')];
    let all = vec![m1, m2];
    let body = cat(all.iter().map(|v| v.clone_tokens()).collect());
    assert_eq!(items_of(body), Some(all));
    assert_eq!(items_of(vec![p(':'), id("m"), p('!'), brace(vec![])]), None);
}

#[test]
fn every_error_message() {
    assert_eq!(MacroError::BadAttribute.message(), "Failed to parse attributes");
    assert_eq!(MacroError::ExpectedItem.message(), "Expected item inside block");
    assert_eq!(MacroError::ExpectedElse.message(), "Expected `else`");
    assert_eq!(MacroError::TrailingTokens.message(), "Unexpected tokens after the final `else` block");
    assert_eq!(MacroError::BadAttrItem.message(), "Failed to parse attr item");
    assert_eq!(
        MacroError::ExpressionPosition.message(),
        "Expression position cfg_match! not yet supported"
    );
}
