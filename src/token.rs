//! Token trees: the already tokenized argument of a macro invocation.

use vstd::prelude::*;
use vstd::string::*;

verus! {

/// The delimiter of a group of tokens.
#[derive(Clone, Copy, Debug, PartialEq, Eq, Structural)]
pub enum Delimiter {
    Parenthesis,
    Bracket,
    Brace,
}

/// One token, or a delimited group of tokens.
#[derive(Debug, PartialEq, Eq)]
pub enum TokenTree {
    /// An identifier or keyword (`mod`, `if`, `_`, `foo`).
    Ident(String),
    /// A single punctuation character; `=>` is `=` followed by `>`.
    Punct(char),
    /// A literal as written in the source (`"a.rs"`, `42`).
    Literal(String),
    /// Tokens enclosed in a pair of delimiters.
    Group(Delimiter, Vec<TokenTree>),
}

pub open spec fn is_punct(t: TokenTree, c: char) -> bool {
    t == TokenTree::Punct(c)
}

pub open spec fn is_ident(t: TokenTree, name: Seq<char>) -> bool {
    t is Ident && t->Ident_0@ == name
}

pub open spec fn is_group(t: TokenTree, d: Delimiter) -> bool {
    t is Group && t->Group_0 == d
}

/// Whether `t` is the punctuation character `c`.
pub fn punct_is(t: &TokenTree, c: char) -> (r: bool)
    ensures
        r == is_punct(*t, c),
{
    match t {
        TokenTree::Punct(p) => *p == c,
        _ => false,
    }
}

/// Whether `t` is the identifier `name`.
pub fn ident_is(t: &TokenTree, name: &str) -> (r: bool)
    ensures
        r == is_ident(*t, name@),
{
    match t {
        TokenTree::Ident(s) => {
            let n = String::from_str(name);
            *s == n
        },
        _ => false,
    }
}

/// Whether `t` is a group delimited by `d`.
pub fn group_is(t: &TokenTree, d: Delimiter) -> (r: bool)
    ensures
        r == is_group(*t, d),
{
    match t {
        TokenTree::Group(g, _) => *g == d,
        _ => false,
    }
}

/// A stream of tokens read front to back, each handed out by value.
pub struct Cursor {
    /// The tokens not read yet, the next one last.
    stack: Vec<TokenTree>,
}

impl Cursor {
    /// The tokens not read yet, in order.
    pub closed spec fn rest(&self) -> Seq<TokenTree> {
        self.stack@.reverse()
    }

    pub fn new(tokens: Vec<TokenTree>) -> (c: Cursor)
        ensures
            c.rest() == tokens@,
    {
        let ghost orig = tokens@;
        let mut v = tokens;
        let mut stack: Vec<TokenTree> = Vec::new();
        while v.len() > 0
            invariant
                v@.len() <= orig.len(),
                v@ == orig.subrange(0, v@.len() as int),
                stack@ == orig.subrange(v@.len() as int, orig.len() as int).reverse(),
            decreases v.len(),
        {
            let ghost k = v@.len() as int;
            let ghost old_stack = stack@;
            let t = v.pop().unwrap();
            stack.push(t);
            assert(stack@ =~= old_stack.push(orig[k - 1]));
            assert(orig.subrange(k - 1, orig.len() as int).reverse() =~= old_stack.push(orig[k - 1]));
        }
        let c = Cursor { stack };
        assert(c.rest() =~= orig);
        c
    }

    pub fn len(&self) -> (r: usize)
        ensures
            r == self.rest().len(),
    {
        self.stack.len()
    }

    /// The token `k` places ahead.
    pub fn peek(&self, k: usize) -> (t: &TokenTree)
        requires
            k < self.rest().len(),
        ensures
            *t == self.rest()[k as int],
    {
        &self.stack[self.stack.len() - 1 - k]
    }

    /// Takes the next token.
    pub fn next(&mut self) -> (t: TokenTree)
        requires
            old(self).rest().len() > 0,
        ensures
            t == old(self).rest()[0],
            final(self).rest() == old(self).rest().drop_first(),
    {
        let t = self.stack.pop().unwrap();
        assert(self.rest() =~= old(self).rest().drop_first());
        t
    }
}

} // verus!
