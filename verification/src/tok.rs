//! Lexical tokens: the tokenization of a cursor's extent, and the
//! bridge into the constant evaluator's token representation.

use vstd::prelude::*;
use cexpr::token::Token as CexprToken;
use crate::cursor::Cursor;
use crate::kinds::TokenKind;
use crate::tu::TokenData;
use crate::tu::TranslationUnit;

verus! {

/// One lexical unit produced by tokenizing the source range a cursor
/// spans: its kind and its spelling.
#[derive(Clone, Debug)]
pub struct Token {
    pub kind: TokenKind,
    pub spelling: String,
}

/// The stored tokens whose offset falls in `[lo, hi)`, in stored
/// order, as `Token` values.
pub open spec fn toks_in_range(toks: Seq<TokenData>, lo: u32, hi: u32) -> Seq<Token>
    decreases toks.len(),
{
    if toks.len() == 0 {
        Seq::empty()
    } else {
        toks_in_range(toks.drop_last(), lo, hi) + (if lo <= toks.last().offset
            && toks.last().offset < hi {
            seq![(Token { kind: toks.last().kind, spelling: toks.last().spelling })]
        } else {
            Seq::empty()
        })
    }
}

/// Appending one stored token extends the in-range selection by that
/// token exactly when its offset falls in the range.
pub proof fn lemma_toks_in_range_push(toks: Seq<TokenData>, t: TokenData, lo: u32, hi: u32)
    ensures
        toks_in_range(toks.push(t), lo, hi) == toks_in_range(toks, lo, hi) + (if lo <= t.offset
            && t.offset < hi {
            seq![(Token { kind: t.kind, spelling: t.spelling })]
        } else {
            Seq::<Token>::empty()
        }),
{
    assert(toks.push(t).drop_last() =~= toks);
    assert(toks.push(t).last() == t);
    if !(lo <= t.offset && t.offset < hi) {
        assert(toks_in_range(toks.push(t), lo, hi) =~= toks_in_range(toks, lo, hi)
            + Seq::<Token>::empty());
    }
}

/// An external view of the constant evaluator's token record.
#[verifier::external_type_specification]
#[verifier::external_body]
pub struct ExCexprToken(CexprToken);

/// The evaluator's record for a token of the given kind and spelling:
/// a name for the conversion's result, which is a function of those
/// two values alone.
pub uninterp spec fn cexpr_token_rep(kind: TokenKind, spelling: Seq<char>) -> CexprToken;

/// Relies on `cexpr::token::Token` being a plain record of a token
/// kind and its raw bytes: the call moves the given kind across, one
/// arm for each of the five kinds, and copies the spelling's UTF-8
/// bytes into the record's byte field, so the result depends on the
/// kind and the spelling's characters alone.
#[verifier::external_body]
fn cexpr_token_of(kind: TokenKind, spelling: &String) -> (r: CexprToken)
    ensures
        r == cexpr_token_rep(kind, spelling@),
{
    CexprToken {
        kind: match kind {
            TokenKind::Punctuation => cexpr::token::Kind::Punctuation,
            TokenKind::Keyword => cexpr::token::Kind::Keyword,
            TokenKind::Identifier => cexpr::token::Kind::Identifier,
            TokenKind::Literal => cexpr::token::Kind::Literal,
            TokenKind::Comment => cexpr::token::Kind::Comment,
        },
        raw: spelling.clone().into_bytes().into_boxed_slice(),
    }
}

impl Token {
    /// The token in the constant evaluator's representation: the same
    /// kind, the spelling as raw bytes.
    pub fn into_cexpr(self) -> (r: CexprToken)
        ensures
            r == cexpr_token_rep(self.kind, self.spelling@),
    {
        cexpr_token_of(self.kind, &self.spelling)
    }
}

impl TranslationUnit {
    /// Tokenizes the source range spanned by the cursor's extent:
    /// `None` while no token buffer is present, else the ordered
    /// tokens whose offsets fall inside the extent, in source order.
    #[verifier::rlimit(100)]
    pub fn tokens(&self, cursor: &Cursor) -> (r: Option<Vec<Token>>)
        requires
            self.wf(),
            self.valid_cursor(*cursor),
        ensures
            (r is Some) == self.has_tokens,
            r is Some ==> r->Some_0@ == toks_in_range(
                self.toks@,
                self.nodes@[cursor.id as int].extent_start,
                self.nodes@[cursor.id as int].extent_end,
            ),
    {
        if !self.has_tokens {
            return None;
        }
        let n = &self.nodes[cursor.id];
        let lo = n.extent_start;
        let hi = n.extent_end;
        let mut r: Vec<Token> = Vec::new();
        let mut j: usize = 0;
        proof {
            assert(self.toks@.subrange(0, 0) =~= Seq::<TokenData>::empty());
        }
        while j < self.toks.len()
            invariant
                j <= self.toks@.len(),
                r@ == toks_in_range(self.toks@.subrange(0, j as int), lo, hi),
            decreases self.toks@.len() - j,
        {
            let ghost pre = self.toks@.subrange(0, j as int);
            let t = &self.toks[j];
            proof {
                assert(self.toks@.subrange(0, j + 1 as int) =~= pre.push(*t));
                lemma_toks_in_range_push(pre, *t, lo, hi);
            }
            if lo <= t.offset && t.offset < hi {
                r.push(Token { kind: t.kind, spelling: t.spelling.clone() });
                proof {
                    assert(r@ =~= toks_in_range(pre, lo, hi) + seq![
                        (Token { kind: t.kind, spelling: t.spelling }),
                    ]);
                }
            } else {
                proof {
                    assert(r@ =~= toks_in_range(pre.push(*t), lo, hi));
                }
            }
            j = j + 1;
        }
        proof {
            assert(self.toks@.subrange(0, self.toks@.len() as int) =~= self.toks@);
        }
        Some(r)
    }

    /// The cursor's tokens handed to the constant evaluator: `None`
    /// while no token buffer is present, else exactly the evaluator's
    /// record of each selected token, in the same order.
    pub fn cexpr_tokens(&self, cursor: &Cursor) -> (r: Option<Vec<CexprToken>>)
        requires
            self.wf(),
            self.valid_cursor(*cursor),
        ensures
            (r is Some) == self.has_tokens,
            r is Some ==> ({
                let sel = toks_in_range(
                    self.toks@,
                    self.nodes@[cursor.id as int].extent_start,
                    self.nodes@[cursor.id as int].extent_end,
                );
                &&& r->Some_0@.len() == sel.len()
                &&& forall|k: int|
                    0 <= k < sel.len() ==> #[trigger] r->Some_0@[k] == cexpr_token_rep(
                        sel[k].kind,
                        sel[k].spelling@,
                    )
            }),
    {
        match self.tokens(cursor) {
            None => None,
            Some(v) => {
                let ghost sel = toks_in_range(
                    self.toks@,
                    self.nodes@[cursor.id as int].extent_start,
                    self.nodes@[cursor.id as int].extent_end,
                );
                let mut out: Vec<CexprToken> = Vec::new();
                let mut j: usize = 0;
                while j < v.len()
                    invariant
                        j <= v@.len(),
                        v@ == sel,
                        out@.len() == j,
                        forall|k: int|
                            0 <= k < j ==> #[trigger] out@[k] == cexpr_token_rep(
                                sel[k].kind,
                                sel[k].spelling@,
                            ),
                    decreases v@.len() - j,
                {
                    let t = &v[j];
                    out.push(cexpr_token_of(t.kind, &t.spelling));
                    j = j + 1;
                }
                Some(out)
            },
        }
    }
}

} // verus!
