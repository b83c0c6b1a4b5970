//! The token model: an ordered sequence of opaque syntax nodes.
//!
//! A token is an identifier (keywords included), a literal, a single
//! punctuation character, or an opening or closing delimiter.  A token
//! run is a `Vec<Tok>`; nesting is expressed by balanced
//! `Open`/`Close` pairs.  Type expressions, default-value expressions,
//! attributes and visibilities are all carried as token runs and never
//! interpreted, only echoed.

use vstd::prelude::*;

verus! {

/// A delimiter kind for grouped tokens.
#[derive(Clone, Copy, PartialEq, Eq, Debug, Structural)]
pub enum Delim {
    Paren,
    Brace,
    Bracket,
}

/// One syntax token.
#[derive(Clone, PartialEq, Eq, Debug)]
pub enum Tok {
    /// An identifier or keyword, by its text.
    Ident(String),
    /// A literal, by its text.
    Lit(String),
    /// A single punctuation character.
    Punct(char),
    /// An opening delimiter.
    Open(Delim),
    /// A closing delimiter.
    Close(Delim),
}

/// The mathematical value of one token: identifier and literal text as
/// character sequences.
pub ghost enum TokV {
    Ident(Seq<char>),
    Lit(Seq<char>),
    Punct(char),
    Open(Delim),
    Close(Delim),
}

impl View for Tok {
    type V = TokV;

    open spec fn view(&self) -> TokV {
        match self {
            Tok::Ident(s) => TokV::Ident(s@),
            Tok::Lit(s) => TokV::Lit(s@),
            Tok::Punct(c) => TokV::Punct(*c),
            Tok::Open(d) => TokV::Open(*d),
            Tok::Close(d) => TokV::Close(*d),
        }
    }
}

impl DeepView for Tok {
    type V = TokV;

    open spec fn deep_view(&self) -> TokV {
        self.view()
    }
}

impl Tok {
    /// Copy a token; the copy equals the original.
    pub fn duplicate(&self) -> (r: Tok)
        ensures
            r == *self,
    {
        match self {
            Tok::Ident(s) => Tok::Ident(s.clone()),
            Tok::Lit(s) => Tok::Lit(s.clone()),
            Tok::Punct(c) => Tok::Punct(*c),
            Tok::Open(d) => Tok::Open(*d),
            Tok::Close(d) => Tok::Close(*d),
        }
    }
}

/// Copy the token run `s[a..b]`.
pub fn copy_range(s: &Vec<Tok>, a: usize, b: usize) -> (r: Vec<Tok>)
    requires
        a <= b <= s@.len(),
    ensures
        r@ == s@.subrange(a as int, b as int),
{
    let mut r: Vec<Tok> = Vec::new();
    let mut i: usize = a;
    while i < b
        invariant
            a <= i <= b <= s@.len(),
            r@ =~= s@.subrange(a as int, i as int),
        decreases b - i,
    {
        r.push(s[i].duplicate());
        assert(r@ =~= s@.subrange(a as int, i + 1 as int));
        i += 1;
    }
    assert(r@ =~= s@.subrange(a as int, b as int));
    r
}

/// Append a copy of the token run `src` to `out`.
pub fn append_copy(out: &mut Vec<Tok>, src: &Vec<Tok>)
    ensures
        final(out)@ == old(out)@ + src@,
{
    let mut i: usize = 0;
    while i < src.len()
        invariant
            i <= src@.len(),
            out@ =~= old(out)@ + src@.subrange(0, i as int),
        decreases src@.len() - i,
    {
        out.push(src[i].duplicate());
        assert(out@ =~= old(out)@ + src@.subrange(0, i + 1 as int));
        i += 1;
    }
    assert(out@ =~= old(out)@ + src@);
}

/// The character of one decimal digit.
pub open spec fn digit_char(d: nat) -> char {
    ((d + 48) as u8) as char
}

/// The decimal text of a number.
pub open spec fn dec_str(n: nat) -> Seq<char>
    decreases n,
{
    if n < 10 {
        seq![digit_char(n)]
    } else {
        dec_str(n / 10).push(digit_char(n % 10))
    }
}

fn digit_str(d: usize) -> (r: &'static str)
    requires
        d < 10,
    ensures
        r@ == dec_str(d as nat),
{
    let r: &'static str = if d == 0 {
        "0"
    } else if d == 1 {
        "1"
    } else if d == 2 {
        "2"
    } else if d == 3 {
        "3"
    } else if d == 4 {
        "4"
    } else if d == 5 {
        "5"
    } else if d == 6 {
        "6"
    } else if d == 7 {
        "7"
    } else if d == 8 {
        "8"
    } else {
        "9"
    };
    proof {
        reveal_strlit("0");
        reveal_strlit("1");
        reveal_strlit("2");
        reveal_strlit("3");
        reveal_strlit("4");
        reveal_strlit("5");
        reveal_strlit("6");
        reveal_strlit("7");
        reveal_strlit("8");
        reveal_strlit("9");
        assert(r@ =~= dec_str(d as nat));
    }
    r
}

/// The decimal text of a position index, as used for positional-field
/// access.
pub fn usize_dec(n: usize) -> (r: String)
    ensures
        r@ == dec_str(n as nat),
    decreases n,
{
    if n < 10 {
        String::from_str(digit_str(n))
    } else {
        let mut s = usize_dec(n / 10);
        s.append(digit_str(n % 10));
        proof {
            assert(s@ =~= dec_str(n as nat));
        }
        s
    }
}

/// Whether a string equals the given text.
pub fn str_is(s: &String, k: &str) -> (r: bool)
    ensures
        r == (s@ == k@),
{
    let ks: String = k.to_owned();
    *s == ks
}

/// Build an identifier token from text.
pub fn t_ident(s: &str) -> (t: Tok)
    ensures
        t@ == TokV::Ident(s@),
{
    Tok::Ident(s.to_owned())
}

/// The mathematical values of a token run.
pub open spec fn toks_dv(s: Seq<Tok>) -> Seq<TokV> {
    s.map(|i: int, t: Tok| t@)
}

pub proof fn lemma_toks_dv_concat(a: Seq<Tok>, b: Seq<Tok>)
    ensures
        toks_dv(a + b) == toks_dv(a) + toks_dv(b),
{
    assert(toks_dv(a + b) =~= toks_dv(a) + toks_dv(b));
}

/// Append one token.
pub fn push_tok(out: &mut Vec<Tok>, t: Tok)
    ensures
        toks_dv(final(out)@) == toks_dv(old(out)@).push(t@),
{
    let ghost tv = t@;
    out.push(t);
    proof {
        assert(toks_dv(out@) =~= toks_dv(old(out)@).push(tv));
    }
}

/// Append an identifier token.
pub fn push_id(out: &mut Vec<Tok>, s: &str)
    ensures
        toks_dv(final(out)@) == toks_dv(old(out)@).push(TokV::Ident(s@)),
{
    push_tok(out, t_ident(s));
}

/// Append a punctuation token.
pub fn push_p(out: &mut Vec<Tok>, c: char)
    ensures
        toks_dv(final(out)@) == toks_dv(old(out)@).push(TokV::Punct(c)),
{
    push_tok(out, Tok::Punct(c));
}

/// Append an opening delimiter.
pub fn push_open(out: &mut Vec<Tok>, d: Delim)
    ensures
        toks_dv(final(out)@) == toks_dv(old(out)@).push(TokV::Open(d)),
{
    push_tok(out, Tok::Open(d));
}

/// Append a closing delimiter.
pub fn push_close(out: &mut Vec<Tok>, d: Delim)
    ensures
        toks_dv(final(out)@) == toks_dv(old(out)@).push(TokV::Close(d)),
{
    push_tok(out, Tok::Close(d));
}

/// The text of a string literal holding the given characters.
pub open spec fn quoted_text(s: Seq<char>) -> Seq<char> {
    seq!['"'] + s + seq!['"']
}

/// Build the text of a string literal (identifier characters only, so
/// no escaping arises).
pub fn quoted(s: &str) -> (r: String)
    ensures
        r@ == quoted_text(s@),
{
    let mut r = String::from_str("\"");
    r.append(s);
    r.append("\"");
    proof {
        reveal_strlit("\"");
        assert(r@ =~= quoted_text(s@));
    }
    r
}

} // verus!
