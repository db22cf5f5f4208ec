//! The token model: generated code is a flat sequence of tokens over
//! interned identifiers. Turning the sequence into concrete source text is
//! the caller's job, as is interning names in the first place.

use vstd::prelude::*;

verus! {

/// One token of generated code. Identifiers, lifetimes and type
/// expressions appear as interned handles; `Binding(i)` is the synthesized
/// positional name bound for the `i`-th unnamed field of a pattern.
#[derive(Clone, Copy, PartialEq, Eq, Structural, Debug)]
pub enum Tok {
    Ident(u64),
    Binding(usize),
    Lifetime(u64),
    KwImpl,
    KwFor,
    KwMatch,
    KwSelf,
    KwWhere,
    KwConst,
    LBrace,
    RBrace,
    LParen,
    RParen,
    Lt,
    Gt,
    Comma,
    Colon,
    Plus,
    PathSep,
    FatArrow,
}

/// The concatenation of `items[i..]`, in order.
pub open spec fn s_concat_from(items: Seq<Seq<Tok>>, i: int) -> Seq<Tok>
    decreases items.len() - i,
{
    if 0 <= i < items.len() {
        items[i] + s_concat_from(items, i + 1)
    } else {
        Seq::empty()
    }
}

/// The concatenation of all of `items`, in order.
pub open spec fn s_concat(items: Seq<Seq<Tok>>) -> Seq<Tok> {
    s_concat_from(items, 0)
}

/// Append a copy of every token of `src` to `dst`.
pub fn push_toks(dst: &mut Vec<Tok>, src: &Vec<Tok>)
    ensures
        final(dst)@ == old(dst)@ + src@,
{
    let mut i: usize = 0;
    while i < src.len()
        invariant
            i <= src.len(),
            dst@ == old(dst)@ + src@.take(i as int),
        decreases src.len() - i,
    {
        dst.push(src[i]);
        proof {
            assert(old(dst)@ + src@.take(i + 1 as int) =~= (old(dst)@ + src@.take(
                i as int,
            )).push(src@[i as int]));
        }
        i = i + 1;
    }
    proof {
        assert(src@.take(src@.len() as int) =~= src@);
    }
}

/// A fresh copy of a token vector.
pub fn copy_toks(src: &Vec<Tok>) -> (r: Vec<Tok>)
    ensures
        r@ == src@,
{
    let mut out: Vec<Tok> = Vec::new();
    push_toks(&mut out, src);
    proof {
        assert(Seq::<Tok>::empty() + src@ =~= src@);
    }
    out
}

} // verus!
