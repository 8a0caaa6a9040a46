//! The output unit of every generator, and how outputs are joined.

use crate::text::{join, styled, uppercase_first_letter};
use vstd::prelude::*;

verus! {

/// One generated snippet and the name of the generator that made it.
pub struct TypingPattern {
    pub name: String,
    pub pattern: String,
}

/// The texts of a sequence of outputs.
pub open spec fn texts_of(parts: Seq<TypingPattern>) -> Seq<Seq<char>> {
    Seq::new(parts.len(), |i: int| parts[i].pattern@)
}

/// Joins the texts of `parts` with `delim` between neighbours, capitalising each text first
/// when `camel` is set.
pub fn join_patterns(parts: &Vec<TypingPattern>, delim: &str, camel: bool) -> (r: String)
    ensures
        r@ == join(styled(texts_of(parts@), camel), delim@),
{
    let ghost all = styled(texts_of(parts@), camel);
    let mut out = String::new();
    let mut i: usize = 0;
    while i < parts.len()
        invariant
            i <= parts.len(),
            all == styled(texts_of(parts@), camel),
            out@ == join(all.subrange(0, i as int), delim@),
        decreases parts.len() - i,
    {
        let piece = if camel {
            uppercase_first_letter(parts[i].pattern.as_str())
        } else {
            parts[i].pattern.clone()
        };
        assert(piece@ == all[i as int]);
        let ghost before = out@;
        if i > 0 {
            out.append(delim);
        }
        out.append(piece.as_str());
        proof {
            let next = all.subrange(0, i + 1);
            assert(next.drop_last() =~= all.subrange(0, i as int));
            if i == 0 {
                assert(before == Seq::<char>::empty());
                assert(out@ =~= next[0]);
            }
        }
        i = i + 1;
    }
    assert(all.subrange(0, parts.len() as int) =~= all);
    out
}

} // verus!
