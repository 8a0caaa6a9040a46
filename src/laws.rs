//! What holds of every output of the generators, and of option defaults.

use crate::arena::{produces, PatternNode};
use crate::options::{all_digits, count_or, flag_or, text_or, PatternOptions};
use crate::pattern::texts_of;
use crate::text::{capitalized, join, styled};
use vstd::prelude::*;

verus! {

/// A fixed-text generator outputs its text, on every call.
pub proof fn literal_output_is_fixed(nodes: Seq<PatternNode>, id: int, name: Seq<char>, text: Seq<char>)
    requires
        0 <= id < nodes.len(),
        nodes[id] is Single,
        produces(nodes, id, name, text),
    ensures
        text == nodes[id]->Single_0.pattern@,
{
}

/// A uniform choice outputs one of its candidates and nothing else.
pub proof fn choice_output_is_candidate(nodes: Seq<PatternNode>, id: int, name: Seq<char>, text: Seq<char>)
    requires
        0 <= id < nodes.len(),
        nodes[id] is OneOf,
        produces(nodes, id, name, text),
    ensures
        exists|i: int|
            0 <= i < nodes[id]->OneOf_0.strings@.len() && text == #[trigger] nodes[id]->OneOf_0.strings@[i]@,
{
}

/// A digit string has a length in `[min_length, max_length)` and holds ASCII digits only.
pub proof fn number_output_shape(nodes: Seq<PatternNode>, id: int, name: Seq<char>, text: Seq<char>)
    requires
        0 <= id < nodes.len(),
        nodes[id] is Number,
        produces(nodes, id, name, text),
    ensures
        nodes[id]->Number_0.min_length <= text.len() < nodes[id]->Number_0.max_length,
        all_digits(text),
{
}

/// The outputs of a repetition of a fixed-text child: `k` copies of the text, each
/// capitalised when camel-casing is set, joined by the delimiter.
pub open spec fn copies(lit: Seq<char>, k: nat, camel: bool, delim: Seq<char>) -> Seq<char> {
    join(styled(Seq::new(k, |i: int| lit), camel), delim)
}

proof fn lemma_texts_of_copies(nodes: Seq<PatternNode>, child: int, parts: Seq<crate::pattern::TypingPattern>)
    requires
        0 <= child < nodes.len(),
        nodes[child] is Single,
        forall|i: int|
            0 <= i < parts.len() ==> produces(nodes, child, #[trigger] parts[i].name@, parts[i].pattern@),
    ensures
        texts_of(parts) == Seq::new(parts.len(), |i: int| nodes[child]->Single_0.pattern@),
{
    assert forall|i: int| 0 <= i < parts.len() implies #[trigger] texts_of(parts)[i]
        == nodes[child]->Single_0.pattern@ by {
        assert(produces(nodes, child, parts[i].name@, parts[i].pattern@));
    }
    assert(texts_of(parts) =~= Seq::new(parts.len(), |i: int| nodes[child]->Single_0.pattern@));
}

/// A fixed-count repetition of a fixed-text child outputs the same text on every call:
/// `count` copies of the child's text joined by the delimiter, each capitalised when
/// camel-casing is set.
pub proof fn repeat_of_literal_is_fixed(nodes: Seq<PatternNode>, id: int, name: Seq<char>, text: Seq<char>)
    requires
        0 <= id < nodes.len(),
        nodes[id] is Repeat,
        0 <= nodes[id]->Repeat_0.pattern < nodes.len(),
        nodes[nodes[id]->Repeat_0.pattern as int] is Single,
        produces(nodes, id, name, text),
    ensures
        ({
            let g = nodes[id]->Repeat_0;
            let lit = nodes[g.pattern as int]->Single_0.pattern@;
            text == copies(lit, g.count as nat, g.camel_case_strings, g.delimiter@)
        }),
{
    let g = nodes[id]->Repeat_0;
    let parts = choose|parts: Seq<crate::pattern::TypingPattern>|
        {
            &&& parts.len() == g.count
            &&& forall|i: int|
                0 <= i < parts.len() ==> produces(nodes, g.pattern as int, #[trigger] parts[i].name@, parts[i].pattern@)
            &&& text == join(styled(#[trigger] texts_of(parts), g.camel_case_strings), g.delimiter@)
        };
    lemma_texts_of_copies(nodes, g.pattern as int, parts);
}

/// A random-count repetition of a fixed-text child outputs some number of copies of the
/// child's text in `[min_count, max_count)`, joined by the delimiter, each capitalised when
/// camel-casing is set.
pub proof fn random_repeat_of_literal(nodes: Seq<PatternNode>, id: int, name: Seq<char>, text: Seq<char>)
    requires
        0 <= id < nodes.len(),
        nodes[id] is RandomRepeat,
        0 <= nodes[id]->RandomRepeat_0.pattern < nodes.len(),
        nodes[nodes[id]->RandomRepeat_0.pattern as int] is Single,
        produces(nodes, id, name, text),
    ensures
        ({
            let g = nodes[id]->RandomRepeat_0;
            let lit = nodes[g.pattern as int]->Single_0.pattern@;
            exists|k: nat|
                g.min_count <= k < g.max_count && text == #[trigger] copies(lit, k, g.camel_case_strings, g.delimiter@)
        }),
{
    let g = nodes[id]->RandomRepeat_0;
    let lit = nodes[g.pattern as int]->Single_0.pattern@;
    let parts = choose|parts: Seq<crate::pattern::TypingPattern>|
        {
            &&& g.min_count <= parts.len() < g.max_count
            &&& forall|i: int|
                0 <= i < parts.len() ==> produces(nodes, g.pattern as int, #[trigger] parts[i].name@, parts[i].pattern@)
            &&& text == join(styled(#[trigger] texts_of(parts), g.camel_case_strings), g.delimiter@)
        };
    lemma_texts_of_copies(nodes, g.pattern as int, parts);
    assert(text == copies(lit, parts.len(), g.camel_case_strings, g.delimiter@));
}

/// A weighted choice outputs, name included, an output of one of its children of positive
/// weight.
pub proof fn weighted_output_from_positive_child(nodes: Seq<PatternNode>, id: int, name: Seq<char>, text: Seq<char>)
    requires
        0 <= id < nodes.len(),
        nodes[id] is Weighted,
        produces(nodes, id, name, text),
    ensures
        exists|i: int|
            {
                &&& 0 <= i < nodes[id]->Weighted_0.patterns@.len()
                &&& #[trigger] nodes[id]->Weighted_0.patterns@[i].0 > 0
                &&& produces(nodes, nodes[id]->Weighted_0.patterns@[i].1 as int, name, text)
            },
{
}

/// A sequence whose children all have fixed text outputs their texts joined by its
/// delimiter, on every call.
pub proof fn sequence_of_literals_is_fixed(nodes: Seq<PatternNode>, id: int, name: Seq<char>, text: Seq<char>)
    requires
        0 <= id < nodes.len(),
        nodes[id] is List,
        forall|i: int|
            0 <= i < nodes[id]->List_0.patterns@.len() ==> {
                let c = #[trigger] nodes[id]->List_0.patterns@[i] as int;
                c < nodes.len() && nodes[c] is Single
            },
        produces(nodes, id, name, text),
    ensures
        ({
            let g = nodes[id]->List_0;
            text == join(
                Seq::new(g.patterns@.len(), |i: int| nodes[g.patterns@[i] as int]->Single_0.pattern@),
                g.delimiter@,
            )
        }),
{
    let g = nodes[id]->List_0;
    let parts = choose|parts: Seq<crate::pattern::TypingPattern>|
        {
            &&& parts.len() == g.patterns@.len()
            &&& forall|i: int|
                0 <= i < parts.len() ==> produces(nodes, g.patterns@[i] as int, #[trigger] parts[i].name@, parts[i].pattern@)
            &&& text == join(#[trigger] texts_of(parts), g.delimiter@)
        };
    let want = Seq::new(g.patterns@.len(), |i: int| nodes[g.patterns@[i] as int]->Single_0.pattern@);
    assert forall|i: int| 0 <= i < parts.len() implies #[trigger] texts_of(parts)[i] == want[i] by {
        assert(produces(nodes, g.patterns@[i] as int, parts[i].name@, parts[i].pattern@));
        let c = nodes[id]->List_0.patterns@[i] as int;
        assert(nodes[c] is Single);
    }
    assert(texts_of(parts) =~= want);
}

/// Capitalising keeps an empty text empty and uppercases only the first character of any
/// other.
pub proof fn capitalizing_touches_only_the_first_character(s: Seq<char>)
    ensures
        s.len() == 0 ==> capitalized(s) == s,
        s.len() > 0 ==> capitalized(s).subrange(
            capitalized(s).len() - (s.len() - 1),
            capitalized(s).len() as int,
        ) == s.subrange(1, s.len() as int),
{
    if s.len() > 0 {
        let u = crate::text::upper_of(s[0]);
        let rest = s.subrange(1, s.len() as int);
        assert((u + rest).subrange(u.len() as int, (u + rest).len() as int) =~= rest);
    }
}

/// Options with no entries resolve every count, flag and text to its default.
pub proof fn empty_options_give_defaults(opts: PatternOptions)
    requires
        opts.entries@.len() == 0,
    ensures
        forall|key: Seq<char>, d: u32| #[trigger] count_or(opts, key, d) == d,
        forall|key: Seq<char>, d: bool| #[trigger] flag_or(opts, key, d) == d,
        forall|key: Seq<char>, d: Seq<char>| #[trigger] text_or(opts, key, d) == d,
{
}

} // verus!
