//! Generator nodes held in an arena and addressed by index. A node names its children by
//! smaller indices, so the nodes form an acyclic graph in which a child may be shared.

use crate::composites::{
    weight_sum, weighted_index, ListOfPatternsGenerator, RandomRepeatGenerator,
    RepeatPatternGenerator, WeightedPatternGenerator,
};
use crate::entropy::random_in_range;
use crate::leaves::{
    NumberPatternGenerator, OneOfStringsPatternGenerator, PatternConfigError,
    SingleStringGenerator, TypingPatternGenerator,
};
use crate::pattern::{join_patterns, texts_of, TypingPattern};
use crate::text::{join, styled};
use vstd::prelude::*;

verus! {

/// One generator of any kind.
pub enum PatternNode {
    Single(SingleStringGenerator),
    Number(NumberPatternGenerator),
    OneOf(OneOfStringsPatternGenerator),
    List(ListOfPatternsGenerator),
    Repeat(RepeatPatternGenerator),
    RandomRepeat(RandomRepeatGenerator),
    Weighted(WeightedPatternGenerator),
}

/// Every index in `ids` is below `bound`.
pub open spec fn ids_below(ids: Seq<usize>, bound: int) -> bool {
    forall|i: int| 0 <= i < ids.len() ==> #[trigger] ids[i] < bound
}

/// Every child index of the weighted children is below `bound`.
pub open spec fn weighted_ids_below(ws: Seq<(u32, usize)>, bound: int) -> bool {
    forall|i: int| 0 <= i < ws.len() ==> #[trigger] ws[i].1 < bound
}

/// Why `node` cannot stand at index `len` of an arena, if it cannot.
pub open spec fn node_problem(node: PatternNode, len: int) -> Option<PatternConfigError> {
    match node {
        PatternNode::Single(_) => None,
        PatternNode::Number(g) => if g.min_length < g.max_length {
            None
        } else {
            Some(PatternConfigError::EmptyRange)
        },
        PatternNode::OneOf(g) => if g.strings@.len() > 0 {
            None
        } else {
            Some(PatternConfigError::NoCandidates)
        },
        PatternNode::List(g) => if ids_below(g.patterns@, len) {
            None
        } else {
            Some(PatternConfigError::UnknownChild)
        },
        PatternNode::Repeat(g) => if g.pattern < len {
            None
        } else {
            Some(PatternConfigError::UnknownChild)
        },
        PatternNode::RandomRepeat(g) => if g.min_count >= g.max_count {
            Some(PatternConfigError::EmptyRange)
        } else if g.pattern < len {
            None
        } else {
            Some(PatternConfigError::UnknownChild)
        },
        PatternNode::Weighted(g) => if !(g.total_weight > 0 && g.total_weight == weight_sum(
            g.patterns@,
        )) {
            Some(PatternConfigError::InvalidWeights)
        } else if weighted_ids_below(g.patterns@, len) {
            None
        } else {
            Some(PatternConfigError::UnknownChild)
        },
    }
}

/// Each node is valid where it stands.
pub open spec fn arena_wf(nodes: Seq<PatternNode>) -> bool {
    forall|i: int| 0 <= i < nodes.len() ==> #[trigger] node_problem(nodes[i], i) is None
}

/// `name` and `text` are a possible output of one call of `generate` on node `id`.
pub open spec fn produces(nodes: Seq<PatternNode>, id: int, name: Seq<char>, text: Seq<char>) -> bool
    decreases id,
{
    if 0 <= id < nodes.len() {
        match nodes[id] {
            PatternNode::Single(g) => g.can_produce(name, text),
            PatternNode::Number(g) => g.can_produce(name, text),
            PatternNode::OneOf(g) => g.can_produce(name, text),
            PatternNode::List(g) => {
                &&& name == g.name@
                &&& ids_below(g.patterns@, id)
                &&& exists|parts: Seq<TypingPattern>|
                    {
                        &&& parts.len() == g.patterns@.len()
                        &&& forall|i: int|
                            0 <= i < parts.len() ==> produces(nodes, g.patterns@[i] as int, #[trigger] parts[i].name@, parts[i].pattern@)
                        &&& text == join(#[trigger] texts_of(parts), g.delimiter@)
                    }
            },
            PatternNode::Repeat(g) => {
                &&& name == g.name@
                &&& 0 <= g.pattern < id
                &&& exists|parts: Seq<TypingPattern>|
                    {
                        &&& parts.len() == g.count
                        &&& forall|i: int|
                            0 <= i < parts.len() ==> produces(nodes, g.pattern as int, #[trigger] parts[i].name@, parts[i].pattern@)
                        &&& text == join(styled(#[trigger] texts_of(parts), g.camel_case_strings), g.delimiter@)
                    }
            },
            PatternNode::RandomRepeat(g) => {
                &&& name == g.name@
                &&& 0 <= g.pattern < id
                &&& exists|parts: Seq<TypingPattern>|
                    {
                        &&& g.min_count <= parts.len() < g.max_count
                        &&& forall|i: int|
                            0 <= i < parts.len() ==> produces(nodes, g.pattern as int, #[trigger] parts[i].name@, parts[i].pattern@)
                        &&& text == join(styled(#[trigger] texts_of(parts), g.camel_case_strings), g.delimiter@)
                    }
            },
            PatternNode::Weighted(g) => exists|i: int|
                {
                    &&& 0 <= i < g.patterns@.len()
                    &&& #[trigger] g.patterns@[i].0 > 0
                    &&& 0 <= g.patterns@[i].1 < id
                    &&& produces(nodes, g.patterns@[i].1 as int, name, text)
                },
        }
    } else {
        false
    }
}

/// Every index in `ids` is below `bound`.
fn all_below(ids: &Vec<usize>, bound: usize) -> (r: bool)
    ensures
        r == ids_below(ids@, bound as int),
{
    let mut i: usize = 0;
    while i < ids.len()
        invariant
            i <= ids@.len(),
            forall|j: int| 0 <= j < i ==> #[trigger] ids@[j] < bound,
        decreases ids.len() - i,
    {
        if ids[i] >= bound {
            return false;
        }
        i = i + 1;
    }
    true
}

/// Every child index of the weighted children is below `bound`.
fn all_weighted_below(ws: &Vec<(u32, usize)>, bound: usize) -> (r: bool)
    ensures
        r == weighted_ids_below(ws@, bound as int),
{
    let mut i: usize = 0;
    while i < ws.len()
        invariant
            i <= ws@.len(),
            forall|j: int| 0 <= j < i ==> #[trigger] ws@[j].1 < bound,
        decreases ws.len() - i,
    {
        if ws[i].1 >= bound {
            return false;
        }
        i = i + 1;
    }
    true
}

/// Why `node` cannot stand at index `len` of an arena, if it cannot.
pub fn validate_node(node: &PatternNode, len: usize) -> (r: Option<PatternConfigError>)
    ensures
        r == node_problem(*node, len as int),
{
    match node {
        PatternNode::Single(_) => None,
        PatternNode::Number(g) => if g.min_length < g.max_length {
            None
        } else {
            Some(PatternConfigError::EmptyRange)
        },
        PatternNode::OneOf(g) => if g.strings.len() > 0 {
            None
        } else {
            Some(PatternConfigError::NoCandidates)
        },
        PatternNode::List(g) => if all_below(&g.patterns, len) {
            None
        } else {
            Some(PatternConfigError::UnknownChild)
        },
        PatternNode::Repeat(g) => if g.pattern < len {
            None
        } else {
            Some(PatternConfigError::UnknownChild)
        },
        PatternNode::RandomRepeat(g) => if g.min_count >= g.max_count {
            Some(PatternConfigError::EmptyRange)
        } else if g.pattern < len {
            None
        } else {
            Some(PatternConfigError::UnknownChild)
        },
        PatternNode::Weighted(g) => {
            let consistent = match crate::composites::total_weight_of(&g.patterns) {
                Some(t) => g.total_weight > 0 && t == g.total_weight,
                None => false,
            };
            if !consistent {
                Some(PatternConfigError::InvalidWeights)
            } else if all_weighted_below(&g.patterns, len) {
                None
            } else {
                Some(PatternConfigError::UnknownChild)
            }
        },
    }
}

/// The generators of one pattern graph; a node's children stand before it.
pub struct GeneratorArena {
    nodes: Vec<PatternNode>,
}

impl View for GeneratorArena {
    type V = Seq<PatternNode>;

    closed spec fn view(&self) -> Seq<PatternNode> {
        self.nodes@
    }
}

impl GeneratorArena {
    /// An arena with no generators.
    pub fn new() -> (r: GeneratorArena)
        ensures
            r@ == Seq::<PatternNode>::empty(),
            arena_wf(r@),
    {
        GeneratorArena { nodes: Vec::new() }
    }

    /// The number of generators held.
    pub fn len(&self) -> (r: usize)
        ensures
            r == self@.len(),
    {
        self.nodes.len()
    }

    /// Appends `node` and returns its index, or says why it cannot stand here.
    pub fn add(&mut self, node: PatternNode) -> (r: Result<usize, PatternConfigError>)
        requires
            arena_wf(old(self)@),
        ensures
            arena_wf(final(self)@),
            match node_problem(node, old(self)@.len() as int) {
                None => (r matches Ok(id) && id == old(self)@.len() && final(self)@ == old(self)@.push(node)),
                Some(e) => r == Err::<usize, PatternConfigError>(e) && final(self)@ == old(self)@,
            },
    {
        let len = self.nodes.len();
        match validate_node(&node, len) {
            Some(e) => Err(e),
            None => {
                self.nodes.push(node);
                proof {
                    assert forall|i: int| 0 <= i < self.nodes@.len() implies #[trigger] node_problem(
                        self.nodes@[i],
                        i,
                    ) is None by {
                        if i < len {
                            assert(self.nodes@[i] == old(self).nodes@[i]);
                        }
                    }
                }
                Ok(len)
            },
        }
    }

    /// One output of node `id`, drawn afresh.
    pub fn generate(&self, id: usize) -> (r: TypingPattern)
        requires
            arena_wf(self@),
            id < self@.len(),
        ensures
            produces(self@, id as int, r.name@, r.pattern@),
        decreases id, 1nat,
    {
        proof {
            assert(node_problem(self.nodes@[id as int], id as int) is None);
        }
        match &self.nodes[id] {
            PatternNode::Single(g) => g.generate(),
            PatternNode::Number(g) => g.generate(),
            PatternNode::OneOf(g) => g.generate(),
            PatternNode::List(g) => {
                let parts = self.generate_each(id, &g.patterns);
                let pattern = join_patterns(&parts, g.delimiter.as_str(), false);
                assert(styled(texts_of(parts@), false) == texts_of(parts@));
                let r = TypingPattern { name: g.name.clone(), pattern };
                assert(r.pattern@ == join(texts_of(parts@), g.delimiter@));
                r
            },
            PatternNode::Repeat(g) => {
                let parts = self.generate_times(id, g.pattern, g.count as usize);
                let pattern = join_patterns(&parts, g.delimiter.as_str(), g.camel_case_strings);
                TypingPattern { name: g.name.clone(), pattern }
            },
            PatternNode::RandomRepeat(g) => {
                let count = random_in_range(g.min_count, g.max_count);
                let parts = self.generate_times(id, g.pattern, count as usize);
                let pattern = join_patterns(&parts, g.delimiter.as_str(), g.camel_case_strings);
                TypingPattern { name: g.name.clone(), pattern }
            },
            PatternNode::Weighted(g) => {
                let draw = random_in_range(0, g.total_weight);
                let i = weighted_index(&g.patterns, draw);
                let child = g.patterns[i].1;
                assert(g.patterns@[i as int].1 < id);
                self.generate(child)
            },
        }
    }

    /// One output of each child in order.
    fn generate_each(&self, id: usize, children: &Vec<usize>) -> (r: Vec<TypingPattern>)
        requires
            arena_wf(self@),
            id < self@.len(),
            ids_below(children@, id as int),
        ensures
            r@.len() == children@.len(),
            forall|i: int|
                0 <= i < r@.len() ==> produces(self@, children@[i] as int, #[trigger] r@[i].name@, r@[i].pattern@),
        decreases id, 0nat,
    {
        let mut out: Vec<TypingPattern> = Vec::new();
        let mut i: usize = 0;
        while i < children.len()
            invariant
                arena_wf(self@),
                id < self@.len(),
                ids_below(children@, id as int),
                i <= children@.len(),
                out@.len() == i,
                forall|j: int|
                    0 <= j < i ==> produces(self@, children@[j] as int, #[trigger] out@[j].name@, out@[j].pattern@),
            decreases children.len() - i,
        {
            assert(children@[i as int] < id);
            let p = self.generate(children[i]);
            out.push(p);
            i = i + 1;
        }
        out
    }

    /// `count` independent outputs of node `child`.
    fn generate_times(&self, id: usize, child: usize, count: usize) -> (r: Vec<TypingPattern>)
        requires
            arena_wf(self@),
            child < id < self@.len(),
        ensures
            r@.len() == count,
            forall|i: int| 0 <= i < r@.len() ==> produces(self@, child as int, #[trigger] r@[i].name@, r@[i].pattern@),
        decreases id, 0nat,
    {
        let mut out: Vec<TypingPattern> = Vec::new();
        let mut i: usize = 0;
        while i < count
            invariant
                arena_wf(self@),
                child < id < self@.len(),
                i <= count,
                out@.len() == i,
                forall|j: int| 0 <= j < i ==> produces(self@, child as int, #[trigger] out@[j].name@, out@[j].pattern@),
            decreases count - i,
        {
            let p = self.generate(child);
            out.push(p);
            i = i + 1;
        }
        out
    }
}

} // verus!
