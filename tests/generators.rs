use typing_patterns::arena::{GeneratorArena, PatternNode};
use typing_patterns::composites::{
    ListOfPatternsGenerator, RandomRepeatGenerator, RepeatPatternGenerator,
    WeightedPatternGenerator,
};
use typing_patterns::leaves::{
    NumberPatternGenerator, OneOfStringsPatternGenerator, PatternConfigError,
    SingleStringGenerator, TypingPatternGenerator,
};
use typing_patterns::options::PatternOptions;

fn literal(arena: &mut GeneratorArena, name: &str, text: &str) -> usize {
    arena.add(PatternNode::Single(SingleStringGenerator::new(name, text))).unwrap()
}

#[test]
fn literal_generates_its_text_every_call() {
    let g = SingleStringGenerator::new("semicolon", ";");
    for _ in 0..100 {
        let p = g.generate();
        assert_eq!(p.pattern, ";");
        assert_eq!(p.name, "semicolon");
    }
    let mut arena = GeneratorArena::new();
    let id = literal(&mut arena, "word", "hello");
    for _ in 0..100 {
        assert_eq!(arena.generate(id).pattern, "hello");
    }
}

#[test]
fn uniform_choice_visits_every_candidate() {
    let g = OneOfStringsPatternGenerator::new("symbols", vec!["next", "previous", "factory"]).unwrap();
    let mut seen = [0usize; 3];
    for _ in 0..10_000 {
        let p = g.generate();
        assert_eq!(p.name, "symbols");
        match p.pattern.as_str() {
            "next" => seen[0] += 1,
            "previous" => seen[1] += 1,
            "factory" => seen[2] += 1,
            other => panic!("outside the candidate set: {}", other),
        }
    }
    assert!(seen.iter().all(|&n| n > 0));
}

#[test]
fn uniform_choice_rejects_empty_candidates() {
    let r = OneOfStringsPatternGenerator::new("none", vec![]);
    assert!(matches!(r, Err(PatternConfigError::NoCandidates)));
}

#[test]
fn digit_string_three_to_four_digits() {
    let opts = PatternOptions::new().with("min_length", "3").with("max_length", "5");
    let g = NumberPatternGenerator::new("number", opts).unwrap();
    assert_eq!((g.min_length, g.max_length), (3, 5));
    let mut lengths = [false; 2];
    for _ in 0..1000 {
        let p = g.generate();
        let n = p.pattern.chars().count();
        assert!(n == 3 || n == 4, "length {}", n);
        assert!(p.pattern.chars().all(|c| c.is_ascii_digit()));
        lengths[n - 3] = true;
    }
    assert!(lengths[0] && lengths[1]);
}

#[test]
fn digit_string_may_be_empty() {
    let opts = PatternOptions::new().with("min_length", "0").with("max_length", "1");
    let g = NumberPatternGenerator::new("empty", opts).unwrap();
    for _ in 0..20 {
        assert_eq!(g.generate().pattern, "");
    }
}

#[test]
fn digit_string_rejects_empty_range() {
    let opts = PatternOptions::new().with("min_length", "5").with("max_length", "5");
    assert!(matches!(NumberPatternGenerator::new("n", opts), Err(PatternConfigError::EmptyRange)));
    let opts = PatternOptions::new().with("min_length", "9");
    assert!(matches!(NumberPatternGenerator::new("n", opts), Err(PatternConfigError::EmptyRange)));
}

#[test]
fn fixed_repeat_of_x() {
    let mut arena = GeneratorArena::new();
    let x = literal(&mut arena, "x", "x");
    let opts = PatternOptions::new().with("count", "3").with("delimiter", "-");
    let rep = arena.add(PatternNode::Repeat(RepeatPatternGenerator::new("xs", x, opts))).unwrap();
    for _ in 0..50 {
        let p = arena.generate(rep);
        assert_eq!(p.pattern, "x-x-x");
        assert_eq!(p.name, "xs");
    }
}

#[test]
fn fixed_repeat_of_zero_is_empty() {
    let mut arena = GeneratorArena::new();
    let x = literal(&mut arena, "x", "x");
    let opts = PatternOptions::new().with("count", "0");
    let rep = arena.add(PatternNode::Repeat(RepeatPatternGenerator::new("none", x, opts))).unwrap();
    assert_eq!(arena.generate(rep).pattern, "");
}

#[test]
fn random_repeat_of_y() {
    let mut arena = GeneratorArena::new();
    let y = literal(&mut arena, "y", "y");
    let opts = PatternOptions::new()
        .with("min_count", "1")
        .with("max_count", "3")
        .with("delimiter", ",");
    let g = RandomRepeatGenerator::new("ys", y, opts).unwrap();
    let rep = arena.add(PatternNode::RandomRepeat(g)).unwrap();
    let (mut one, mut two) = (0, 0);
    for _ in 0..2000 {
        match arena.generate(rep).pattern.as_str() {
            "y" => one += 1,
            "y,y" => two += 1,
            other => panic!("unexpected {}", other),
        }
    }
    assert!(one > 0 && two > 0);
}

#[test]
fn random_repeat_rejects_empty_range() {
    let opts = PatternOptions::new().with("min_count", "3").with("max_count", "3");
    assert!(matches!(RandomRepeatGenerator::new("r", 0, opts), Err(PatternConfigError::EmptyRange)));
}

#[test]
fn weighted_even_split() {
    let mut arena = GeneratorArena::new();
    let a = literal(&mut arena, "a", "A");
    let b = literal(&mut arena, "b", "B");
    let w = WeightedPatternGenerator::new("ab", vec![(1, a), (1, b)]).unwrap();
    assert_eq!(w.total_weight, 2);
    let id = arena.add(PatternNode::Weighted(w)).unwrap();
    let mut count_a = 0usize;
    let total = 10_000usize;
    for _ in 0..total {
        let p = arena.generate(id);
        match p.pattern.as_str() {
            "A" => {
                assert_eq!(p.name, "a");
                count_a += 1
            }
            "B" => assert_eq!(p.name, "b"),
            other => panic!("unexpected {}", other),
        }
    }
    let share = count_a as f64 / total as f64;
    assert!((0.45..0.55).contains(&share), "share of A: {}", share);
}

#[test]
fn weighted_skips_zero_weight_children() {
    let mut arena = GeneratorArena::new();
    let a = literal(&mut arena, "a", "A");
    let b = literal(&mut arena, "b", "B");
    let w = WeightedPatternGenerator::new("b_only", vec![(0, a), (5, b)]).unwrap();
    let id = arena.add(PatternNode::Weighted(w)).unwrap();
    for _ in 0..200 {
        assert_eq!(arena.generate(id).pattern, "B");
    }
}

#[test]
fn weighted_rejects_bad_weights() {
    assert!(matches!(
        WeightedPatternGenerator::new("zero", vec![(0, 0), (0, 1)]),
        Err(PatternConfigError::InvalidWeights)
    ));
    assert!(matches!(
        WeightedPatternGenerator::new("none", vec![]),
        Err(PatternConfigError::InvalidWeights)
    ));
    assert!(matches!(
        WeightedPatternGenerator::new("huge", vec![(u32::MAX, 0), (1, 1)]),
        Err(PatternConfigError::InvalidWeights)
    ));
    let mut arena = GeneratorArena::new();
    let a = literal(&mut arena, "a", "A");
    let inconsistent = WeightedPatternGenerator {
        name: String::from("w"),
        patterns: vec![(1, a)],
        total_weight: 3,
    };
    assert_eq!(arena.add(PatternNode::Weighted(inconsistent)), Err(PatternConfigError::InvalidWeights));
    assert_eq!(arena.len(), 1);
}

#[test]
fn sequence_of_brackets() {
    let mut arena = GeneratorArena::new();
    let open = literal(&mut arena, "open", "[");
    let close = literal(&mut arena, "close", "]");
    let opts = PatternOptions::new().with("delimiter", "");
    let seq = ListOfPatternsGenerator::new("brackets", vec![open, close], opts);
    let id = arena.add(PatternNode::List(seq)).unwrap();
    let p = arena.generate(id);
    assert_eq!(p.pattern, "[]");
    assert_eq!(p.name, "brackets");
}

#[test]
fn sequence_shares_a_child() {
    let mut arena = GeneratorArena::new();
    let w = literal(&mut arena, "w", "ab");
    let seq = ListOfPatternsGenerator::new("twice", vec![w, w, w], PatternOptions::new());
    let id = arena.add(PatternNode::List(seq)).unwrap();
    assert_eq!(arena.generate(id).pattern, "ab ab ab");
}

#[test]
fn arena_rejects_unknown_child() {
    let mut arena = GeneratorArena::new();
    let seq = ListOfPatternsGenerator::new("dangling", vec![0], PatternOptions::new());
    assert_eq!(arena.add(PatternNode::List(seq)), Err(PatternConfigError::UnknownChild));
    let rep = RepeatPatternGenerator::new("self", 0, PatternOptions::new());
    assert_eq!(arena.add(PatternNode::Repeat(rep)), Err(PatternConfigError::UnknownChild));
    assert_eq!(arena.len(), 0);
    let a = literal(&mut arena, "a", "a");
    assert_eq!(a, 0);
    let bad_range = NumberPatternGenerator { name: String::from("n"), min_length: 2, max_length: 1 };
    assert_eq!(arena.add(PatternNode::Number(bad_range)), Err(PatternConfigError::EmptyRange));
    let empty = OneOfStringsPatternGenerator { name: String::from("o"), strings: vec![] };
    assert_eq!(arena.add(PatternNode::OneOf(empty)), Err(PatternConfigError::NoCandidates));
}

#[test]
fn camel_case_repeat() {
    let mut arena = GeneratorArena::new();
    let foo = literal(&mut arena, "foo", "foo");
    let opts = PatternOptions::new()
        .with("count", "2")
        .with("delimiter", "")
        .with("camel_case_strings", "true");
    let rep = arena.add(PatternNode::Repeat(RepeatPatternGenerator::new("camel", foo, opts))).unwrap();
    assert_eq!(arena.generate(rep).pattern, "FooFoo");

    let empty = literal(&mut arena, "empty", "");
    let opts = PatternOptions::new().with("count", "3").with("camel_case_strings", "true");
    let rep = arena.add(PatternNode::Repeat(RepeatPatternGenerator::new("blank", empty, opts))).unwrap();
    assert_eq!(arena.generate(rep).pattern, "  ");
}

#[test]
fn camel_case_over_choices() {
    let mut arena = GeneratorArena::new();
    let choice = OneOfStringsPatternGenerator::new("w", vec!["foo", "bar"]).unwrap();
    let w = arena.add(PatternNode::OneOf(choice)).unwrap();
    let opts = PatternOptions::new()
        .with("count", "2")
        .with("delimiter", "")
        .with("camel_case_strings", "true");
    let rep = arena.add(PatternNode::Repeat(RepeatPatternGenerator::new("camel", w, opts))).unwrap();
    for _ in 0..50 {
        let p = arena.generate(rep).pattern;
        assert!(["FooFoo", "FooBar", "BarFoo", "BarBar"].contains(&p.as_str()), "{}", p);
    }
}

#[test]
fn empty_options_defaults() {
    let rep = RepeatPatternGenerator::new("r", 0, PatternOptions::new());
    assert_eq!(rep.count, 4);
    assert_eq!(rep.delimiter, " ");
    assert!(!rep.camel_case_strings);
    let rr = RandomRepeatGenerator::new("rr", 0, PatternOptions::new()).unwrap();
    assert_eq!((rr.min_count, rr.max_count), (2, 4));
    assert_eq!(rr.delimiter, " ");
    assert!(!rr.camel_case_strings);
    let list = ListOfPatternsGenerator::new("l", vec![], PatternOptions::new());
    assert_eq!(list.delimiter, " ");
    let num = NumberPatternGenerator::new("n", PatternOptions::new()).unwrap();
    assert_eq!((num.min_length, num.max_length), (4, 8));
}

#[test]
fn unparsable_options_fall_back_to_defaults() {
    let opts = PatternOptions::new()
        .with("count", "many")
        .with("camel_case_strings", "yes");
    let rep = RepeatPatternGenerator::new("r", 0, opts);
    assert_eq!(rep.count, 4);
    assert!(!rep.camel_case_strings);
    let opts = PatternOptions::new().with("min_count", "-1").with("max_count", "x");
    let rr = RandomRepeatGenerator::new("rr", 0, opts).unwrap();
    assert_eq!((rr.min_count, rr.max_count), (2, 4));
}

#[test]
fn boxed_generator_delegates() {
    let boxed = Box::new(SingleStringGenerator::new("foo", "foo"));
    assert_eq!(boxed.generate().pattern, "foo");
    typing_patterns::leaves::test();
}
