//! Generators that combine the outputs of other generators, which they name by their index
//! in a `GeneratorArena`.

use crate::leaves::PatternConfigError;
use crate::options::{count_or, flag_or, text_or, PatternOptions};
use vstd::prelude::*;

verus! {

/// Every child once, in order, joined by `delimiter`.
pub struct ListOfPatternsGenerator {
    pub name: String,
    pub patterns: Vec<usize>,
    pub delimiter: String,
}

/// One child `count` times, joined by `delimiter`, each output capitalised when
/// `camel_case_strings` is set.
pub struct RepeatPatternGenerator {
    pub name: String,
    pub pattern: usize,
    pub count: u32,
    pub delimiter: String,
    pub camel_case_strings: bool,
}

/// As `RepeatPatternGenerator`, with a count drawn from `[min_count, max_count)` on each call.
pub struct RandomRepeatGenerator {
    pub name: String,
    pub pattern: usize,
    pub min_count: u32,
    pub max_count: u32,
    pub delimiter: String,
    pub camel_case_strings: bool,
}

/// One child, picked with probability proportional to its weight; its output stands for
/// this generator's own.
pub struct WeightedPatternGenerator {
    pub name: String,
    pub patterns: Vec<(u32, usize)>,
    pub total_weight: u32,
}

/// The sum of the weights.
pub open spec fn weight_sum(ws: Seq<(u32, usize)>) -> nat
    decreases ws.len(),
{
    if ws.len() == 0 {
        0
    } else {
        weight_sum(ws.drop_last()) + ws.last().0 as nat
    }
}

/// The sum of the first `k` weights.
pub open spec fn prefix_weight(ws: Seq<(u32, usize)>, k: int) -> nat {
    weight_sum(ws.subrange(0, k))
}

proof fn lemma_prefix_step(ws: Seq<(u32, usize)>, k: int)
    requires
        0 <= k < ws.len(),
    ensures
        prefix_weight(ws, k + 1) == prefix_weight(ws, k) + ws[k].0,
{
    assert(ws.subrange(0, k + 1).drop_last() =~= ws.subrange(0, k));
}

/// The sum of the weights, if it fits in a `u32`.
pub fn total_weight_of(children: &Vec<(u32, usize)>) -> (r: Option<u32>)
    ensures
        match r {
            Some(t) => t == weight_sum(children@),
            None => weight_sum(children@) > u32::MAX,
        },
{
    let mut total: u64 = 0;
    let mut i: usize = 0;
    while i < children.len()
        invariant
            i <= children@.len(),
            total == prefix_weight(children@, i as int),
            total <= u32::MAX,
        decreases children.len() - i,
    {
        proof {
            lemma_prefix_step(children@, i as int);
        }
        total = total + children[i].0 as u64;
        if total > 0xffff_ffffu64 {
            proof {
                lemma_prefix_le_total(children@, i + 1);
            }
            return None;
        }
        i = i + 1;
    }
    assert(children@.subrange(0, children@.len() as int) =~= children@);
    Some(total as u32)
}

proof fn lemma_prefix_le_total(ws: Seq<(u32, usize)>, k: int)
    requires
        0 <= k <= ws.len(),
    ensures
        prefix_weight(ws, k) <= weight_sum(ws),
    decreases ws.len(),
{
    if k < ws.len() {
        lemma_prefix_le_total(ws.drop_last(), k);
        assert(ws.drop_last().subrange(0, k) =~= ws.subrange(0, k));
    } else {
        assert(ws.subrange(0, k) =~= ws);
    }
}

/// The child that a draw in `[0, total)` selects: the first whose running sum of weights
/// exceeds the draw. Children of weight zero are never selected.
pub fn weighted_index(weights: &Vec<(u32, usize)>, draw: u32) -> (r: usize)
    requires
        draw < weight_sum(weights@),
    ensures
        r < weights@.len(),
        prefix_weight(weights@, r as int) <= draw < prefix_weight(weights@, r + 1),
        weights@[r as int].0 > 0,
{
    let mut acc: u64 = 0;
    let mut i: usize = 0;
    while i < weights.len()
        invariant
            i <= weights@.len(),
            acc == prefix_weight(weights@, i as int),
            acc <= draw,
            draw < weight_sum(weights@),
        decreases weights.len() - i,
    {
        proof {
            lemma_prefix_step(weights@, i as int);
        }
        acc = acc + weights[i].0 as u64;
        if (draw as u64) < acc {
            return i;
        }
        i = i + 1;
    }
    assert(weights@.subrange(0, weights@.len() as int) =~= weights@);
    0
}

impl ListOfPatternsGenerator {
    /// Reads `delimiter` (default a single space) from `config`.
    pub fn new(name: &str, children: Vec<usize>, config: PatternOptions) -> (r: ListOfPatternsGenerator)
        ensures
            r.name@ == name@,
            r.patterns@ == children@,
            r.delimiter@ == text_or(config, "delimiter"@, " "@),
    {
        let delimiter = config.resolve_text("delimiter", " ");
        ListOfPatternsGenerator { name: String::from_str(name), patterns: children, delimiter }
    }
}

impl RepeatPatternGenerator {
    /// Reads `count` (default 4), `delimiter` (default a single space) and
    /// `camel_case_strings` (default false) from `config`.
    pub fn new(name: &str, child: usize, config: PatternOptions) -> (r: RepeatPatternGenerator)
        ensures
            r.name@ == name@,
            r.pattern == child,
            r.count == count_or(config, "count"@, 4),
            r.delimiter@ == text_or(config, "delimiter"@, " "@),
            r.camel_case_strings == flag_or(config, "camel_case_strings"@, false),
    {
        let count = config.resolve_count("count", 4);
        let delimiter = config.resolve_text("delimiter", " ");
        let camel_case_strings = config.resolve_flag("camel_case_strings", false);
        RepeatPatternGenerator {
            name: String::from_str(name),
            pattern: child,
            count,
            delimiter,
            camel_case_strings,
        }
    }
}

impl RandomRepeatGenerator {
    /// Reads `min_count` (default 2), `max_count` (default 4), `delimiter` (default a single
    /// space) and `camel_case_strings` (default false) from `config`; the count range must
    /// not be empty.
    pub fn new(name: &str, child: usize, config: PatternOptions) -> (r: Result<RandomRepeatGenerator, PatternConfigError>)
        ensures
            ({
                let lo = count_or(config, "min_count"@, 2);
                let hi = count_or(config, "max_count"@, 4);
                match r {
                    Ok(g) => {
                        &&& lo < hi
                        &&& g.name@ == name@
                        &&& g.pattern == child
                        &&& g.min_count == lo
                        &&& g.max_count == hi
                        &&& g.delimiter@ == text_or(config, "delimiter"@, " "@)
                        &&& g.camel_case_strings == flag_or(config, "camel_case_strings"@, false)
                    },
                    Err(e) => hi <= lo && e == PatternConfigError::EmptyRange,
                }
            }),
    {
        let min_count = config.resolve_count("min_count", 2);
        let max_count = config.resolve_count("max_count", 4);
        if min_count >= max_count {
            return Err(PatternConfigError::EmptyRange);
        }
        let delimiter = config.resolve_text("delimiter", " ");
        let camel_case_strings = config.resolve_flag("camel_case_strings", false);
        Ok(RandomRepeatGenerator {
            name: String::from_str(name),
            pattern: child,
            min_count,
            max_count,
            delimiter,
            camel_case_strings,
        })
    }
}

impl WeightedPatternGenerator {
    /// Sums the weights once; the sum must be positive and fit in a `u32`.
    pub fn new(name: &str, children: Vec<(u32, usize)>) -> (r: Result<WeightedPatternGenerator, PatternConfigError>)
        ensures
            match r {
                Ok(g) => {
                    &&& 0 < weight_sum(children@) <= u32::MAX
                    &&& g.name@ == name@
                    &&& g.patterns@ == children@
                    &&& g.total_weight == weight_sum(children@)
                },
                Err(e) => {
                    &&& (weight_sum(children@) == 0 || weight_sum(children@) > u32::MAX)
                    &&& e == PatternConfigError::InvalidWeights
                },
            },
    {
        match total_weight_of(&children) {
            Some(total_weight) => {
                if total_weight == 0 {
                    Err(PatternConfigError::InvalidWeights)
                } else {
                    Ok(WeightedPatternGenerator { name: String::from_str(name), patterns: children, total_weight })
                }
            },
            None => Err(PatternConfigError::InvalidWeights),
        }
    }
}

} // verus!
