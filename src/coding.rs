//! A fixed wiring of generators for snippets of code: numbers, camel-cased symbols,
//! brackets, array dereferences and method calls.

use crate::arena::{arena_wf, GeneratorArena, PatternNode};
use crate::composites::{ListOfPatternsGenerator, RandomRepeatGenerator};
use crate::leaves::{
    NumberPatternGenerator, OneOfStringsPatternGenerator, PatternConfigError,
    SingleStringGenerator,
};
use crate::options::PatternOptions;
use vstd::prelude::*;

verus! {

/// The coding generators, all held in `arena` and named by their index there.
pub struct CodingGenerators {
    pub arena: GeneratorArena,
    pub open_paren: usize,
    pub close_paren: usize,
    pub open_bracket: usize,
    pub close_bracket: usize,
    pub open_brace: usize,
    pub close_brace: usize,
    pub symbols: usize,
    pub semicolon: usize,
    pub number: usize,
    pub number_list: usize,
    pub array_deref: usize,
}

/// Node `id` always produces `text`, under the name `name`.
pub open spec fn literal_at(nodes: Seq<PatternNode>, id: int, name: Seq<char>, text: Seq<char>) -> bool {
    &&& 0 <= id < nodes.len()
    &&& nodes[id] matches PatternNode::Single(g) && g.name@ == name && g.pattern@ == text
}

/// The words that the coding symbols are made of.
pub open spec fn coding_vocabulary() -> Seq<Seq<char>> {
    seq![
        "previous"@,
        "next"@,
        "symbol"@,
        "factory"@,
        "creator"@,
        "generator"@,
        "abstract"@,
        "class"@,
        "interface"@,
        "function"@,
        "method"@,
        "constructor"@,
        "destructor"@,
        "getter"@,
        "setter"@,
        "property"@,
        "variable"@,
    ]
}

/// Node `id` picks uniformly among the coding vocabulary, under the name `name`.
pub open spec fn vocabulary_choice_at(nodes: Seq<PatternNode>, id: int, name: Seq<char>) -> bool {
    &&& 0 <= id < nodes.len()
    &&& nodes[id] matches PatternNode::OneOf(w)
    &&& w.name@ == name
    &&& w.strings@.len() == coding_vocabulary().len()
    &&& forall|i: int| 0 <= i < coding_vocabulary().len() ==> #[trigger] w.strings@[i]@ == coding_vocabulary()[i]
}

/// Node `id` joins the children `children` with no delimiter.
pub open spec fn concatenation_at(nodes: Seq<PatternNode>, id: int, children: Seq<usize>) -> bool {
    &&& 0 <= id < nodes.len()
    &&& nodes[id] matches PatternNode::List(g)
    &&& g.patterns@ == children
    &&& g.delimiter@ == Seq::<char>::empty()
}

/// Appends `node`, which is valid at the end of `arena`.
fn push_node(arena: &mut GeneratorArena, node: PatternNode) -> (r: usize)
    requires
        arena_wf(old(arena)@),
        crate::arena::node_problem(node, old(arena)@.len() as int) is None,
    ensures
        arena_wf(final(arena)@),
        r == old(arena)@.len(),
        final(arena)@ == old(arena)@.push(node),
{
    match arena.add(node) {
        Ok(id) => id,
        Err(_) => 0,
    }
}

/// Adds a generator of calls: `method_name`, `open_paren`, between `min_arguments` and
/// `max_arguments - 1` outputs of `argument` joined by `argument_delimiter`, and
/// `close_paren`, with nothing between them. The argument repetition is added first, the
/// call right after it; the call's index is returned.
pub fn create_method_call_generator(
    arena: &mut GeneratorArena,
    name: &str,
    method_name: usize,
    open_paren: usize,
    close_paren: usize,
    argument: usize,
    argument_delimiter: String,
    min_arguments: u32,
    max_arguments: u32,
) -> (r: Result<usize, PatternConfigError>)
    requires
        arena_wf(old(arena)@),
    ensures
        arena_wf(final(arena)@),
        ({
            let n = old(arena)@.len();
            let known = method_name < n && open_paren < n && close_paren < n && argument < n;
            match r {
                Ok(id) => {
                    &&& known
                    &&& min_arguments < max_arguments
                    &&& id == n + 1
                    &&& final(arena)@.len() == n + 2
                    &&& final(arena)@.subrange(0, n as int) == old(arena)@
                    &&& (final(arena)@[n as int] matches PatternNode::RandomRepeat(g) && g.name@ == "arguments"@
                        && g.pattern == argument
                        && g.min_count == min_arguments && g.max_count == max_arguments
                        && g.delimiter@ == argument_delimiter@ && !g.camel_case_strings)
                    &&& concatenation_at(final(arena)@, id as int, seq![method_name, open_paren, n as usize, close_paren])
                    &&& (final(arena)@[id as int] matches PatternNode::List(g) && g.name@ == name@)
                },
                Err(e) => {
                    &&& final(arena)@ == old(arena)@
                    &&& e == if min_arguments >= max_arguments {
                        PatternConfigError::EmptyRange
                    } else {
                        PatternConfigError::UnknownChild
                    }
                    &&& !(known && min_arguments < max_arguments)
                },
            }
        }),
{
    let n = arena.len();
    if min_arguments >= max_arguments {
        return Err(PatternConfigError::EmptyRange);
    }
    if !(method_name < n && open_paren < n && close_paren < n && argument < n) {
        return Err(PatternConfigError::UnknownChild);
    }
    let arguments = RandomRepeatGenerator {
        name: String::from_str("arguments"),
        pattern: argument,
        min_count: min_arguments,
        max_count: max_arguments,
        delimiter: argument_delimiter,
        camel_case_strings: false,
    };
    let args_id = push_node(arena, PatternNode::RandomRepeat(arguments));
    let call = ListOfPatternsGenerator::new(
        name,
        vec![method_name, open_paren, args_id, close_paren],
        PatternOptions::new().with("delimiter", ""),
    );
    proof {
        reveal_strlit("");
    }
    let id = push_node(arena, PatternNode::List(call));
    assert(arena@.subrange(0, n as int) =~= old(arena)@);
    assert(arena@[n as int] == PatternNode::RandomRepeat(arguments));
    assert(arena@[id as int] == PatternNode::List(call));
    assert(call.patterns@ =~= seq![method_name, open_paren, args_id, close_paren]);
    assert(call.delimiter@ =~= Seq::<char>::empty());
    Ok(id)
}

/// Builds the coding generators: three-to-four-digit numbers, one or two camel-cased
/// symbols from a fixed vocabulary, single-character brackets, braces and a semicolon, a
/// space-separated list of numbers and array dereferences such as `previousNext[123]`.
pub fn create_coding_generators() -> (r: CodingGenerators)
    ensures
        arena_wf(r.arena@),
        literal_at(r.arena@, r.open_paren as int, "open_paren"@, "("@),
        literal_at(r.arena@, r.close_paren as int, "close_paren"@, ")"@),
        literal_at(r.arena@, r.open_bracket as int, "open_bracket"@, "["@),
        literal_at(r.arena@, r.close_bracket as int, "close_bracket"@, "]"@),
        literal_at(r.arena@, r.open_brace as int, "open_brace"@, "{"@),
        literal_at(r.arena@, r.close_brace as int, "close_brace"@, "}"@),
        literal_at(r.arena@, r.semicolon as int, "semicolon"@, ";"@),
        r.number < r.arena@.len(),
        r.arena@[r.number as int] matches PatternNode::Number(g) && g.name@ == "number"@ && g.min_length == 3
            && g.max_length == 5,
        r.symbols < r.arena@.len(),
        r.arena@[r.symbols as int] matches PatternNode::RandomRepeat(g) && g.name@ == "camel_cased_symbols"@
            && g.min_count == 1 && g.max_count == 3 && g.camel_case_strings && g.delimiter@ == Seq::<char>::empty()
            && vocabulary_choice_at(r.arena@, g.pattern as int, "list_of_symbols"@),
        r.number_list < r.arena@.len(),
        r.arena@[r.number_list as int] matches PatternNode::List(g) && g.name@ == "list_of_numbers"@
            && g.patterns@ == seq![r.number] && g.delimiter@ == " "@,
        concatenation_at(r.arena@, r.array_deref as int, seq![r.symbols, r.open_bracket, r.number, r.close_bracket]),
        r.arena@[r.array_deref as int] matches PatternNode::List(g) && g.name@ == "array_deref"@,
{
    proof {
        reveal_strlit("");
    }
    let mut arena = GeneratorArena::new();
    let number = push_node(
        &mut arena,
        PatternNode::Number(NumberPatternGenerator { name: String::from_str("number"), min_length: 3, max_length: 5 }),
    );
    let list = ListOfPatternsGenerator::new("list_of_numbers", vec![number], PatternOptions::new());
    assert(list.patterns@ =~= seq![number]);
    let number_list = push_node(&mut arena, PatternNode::List(list));
    let vocabulary: Vec<String> = vec![
        String::from_str("previous"),
        String::from_str("next"),
        String::from_str("symbol"),
        String::from_str("factory"),
        String::from_str("creator"),
        String::from_str("generator"),
        String::from_str("abstract"),
        String::from_str("class"),
        String::from_str("interface"),
        String::from_str("function"),
        String::from_str("method"),
        String::from_str("constructor"),
        String::from_str("destructor"),
        String::from_str("getter"),
        String::from_str("setter"),
        String::from_str("property"),
        String::from_str("variable"),
    ];
    let words = push_node(
        &mut arena,
        PatternNode::OneOf(OneOfStringsPatternGenerator { name: String::from_str("list_of_symbols"), strings: vocabulary }),
    );
    let symbols = push_node(
        &mut arena,
        PatternNode::RandomRepeat(
            RandomRepeatGenerator {
                name: String::from_str("camel_cased_symbols"),
                pattern: words,
                min_count: 1,
                max_count: 3,
                delimiter: String::from_str(""),
                camel_case_strings: true,
            },
        ),
    );
    let open_paren = push_node(&mut arena, PatternNode::Single(SingleStringGenerator::new("open_paren", "(")));
    let close_paren = push_node(&mut arena, PatternNode::Single(SingleStringGenerator::new("close_paren", ")")));
    let open_bracket = push_node(&mut arena, PatternNode::Single(SingleStringGenerator::new("open_bracket", "[")));
    let close_bracket = push_node(&mut arena, PatternNode::Single(SingleStringGenerator::new("close_bracket", "]")));
    let deref = ListOfPatternsGenerator::new(
        "array_deref",
        vec![symbols, open_bracket, number, close_bracket],
        PatternOptions::new().with("delimiter", ""),
    );
    assert(deref.patterns@ =~= seq![symbols, open_bracket, number, close_bracket]);
    assert(deref.delimiter@ =~= Seq::<char>::empty());
    let array_deref = push_node(&mut arena, PatternNode::List(deref));
    let open_brace = push_node(&mut arena, PatternNode::Single(SingleStringGenerator::new("open_brace", "{")));
    let close_brace = push_node(&mut arena, PatternNode::Single(SingleStringGenerator::new("close_brace", "}")));
    let semicolon = push_node(&mut arena, PatternNode::Single(SingleStringGenerator::new("semicolon", ";")));
    CodingGenerators {
        arena,
        open_paren,
        close_paren,
        open_bracket,
        close_bracket,
        open_brace,
        close_brace,
        symbols,
        semicolon,
        number,
        number_list,
        array_deref,
    }
}

} // verus!
