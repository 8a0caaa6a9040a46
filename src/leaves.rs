//! The generator capability and the leaf generators, which have no children.

use crate::entropy::{choose_one, random_in_range};
use crate::options::{all_digits, count_or, PatternOptions};
use crate::pattern::TypingPattern;
use crate::text::{digit_char, push_char};
use vstd::prelude::*;

verus! {

/// A configuration that no generator can be built from.
#[derive(Debug, Clone, Copy, PartialEq, Eq, Structural)]
pub enum PatternConfigError {
    /// A half-open range `[min, max)` with nothing in it.
    EmptyRange,
    /// A choice among no candidates.
    NoCandidates,
    /// Weights that sum to zero, overflow a `u32`, or disagree with the stored total.
    InvalidWeights,
    /// A reference to a generator that the arena does not hold.
    UnknownChild,
}

/// Something that produces one snippet per call.
pub trait TypingPatternGenerator {
    /// The configuration is one that generation can proceed from.
    spec fn well_formed(&self) -> bool;

    /// `name` and `text` are a possible output of one call.
    spec fn can_produce(&self, name: Seq<char>, text: Seq<char>) -> bool;

    /// One output, drawn afresh on each call.
    fn generate(&self) -> (r: TypingPattern)
        requires
            self.well_formed(),
        ensures
            self.can_produce(r.name@, r.pattern@),
    ;
}

impl<T: TypingPatternGenerator> TypingPatternGenerator for Box<T> {
    open spec fn well_formed(&self) -> bool {
        (**self).well_formed()
    }

    open spec fn can_produce(&self, name: Seq<char>, text: Seq<char>) -> bool {
        (**self).can_produce(name, text)
    }

    fn generate(&self) -> (r: TypingPattern) {
        (**self).generate()
    }
}

/// Always the same fixed text.
pub struct SingleStringGenerator {
    pub name: String,
    pub pattern: String,
}

impl SingleStringGenerator {
    pub fn new(name: &str, pattern: &str) -> (r: SingleStringGenerator)
        ensures
            r.name@ == name@,
            r.pattern@ == pattern@,
    {
        SingleStringGenerator { name: String::from_str(name), pattern: String::from_str(pattern) }
    }
}

impl TypingPatternGenerator for SingleStringGenerator {
    open spec fn well_formed(&self) -> bool {
        true
    }

    open spec fn can_produce(&self, name: Seq<char>, text: Seq<char>) -> bool {
        name == self.name@ && text == self.pattern@
    }

    fn generate(&self) -> (r: TypingPattern) {
        TypingPattern { name: self.name.clone(), pattern: self.pattern.clone() }
    }
}

/// A string of decimal digits whose length is drawn from `[min_length, max_length)`.
pub struct NumberPatternGenerator {
    pub name: String,
    pub min_length: u32,
    pub max_length: u32,
}

impl NumberPatternGenerator {
    /// Reads `min_length` (default 4) and `max_length` (default 8) from `config`; the range
    /// they span must not be empty.
    pub fn new(name: &str, config: PatternOptions) -> (r: Result<NumberPatternGenerator, PatternConfigError>)
        ensures
            ({
                let lo = count_or(config, "min_length"@, 4);
                let hi = count_or(config, "max_length"@, 8);
                match r {
                    Ok(g) => lo < hi && g.name@ == name@ && g.min_length == lo && g.max_length == hi,
                    Err(e) => hi <= lo && e == PatternConfigError::EmptyRange,
                }
            }),
    {
        let min_length = config.resolve_count("min_length", 4);
        let max_length = config.resolve_count("max_length", 8);
        if min_length < max_length {
            Ok(NumberPatternGenerator { name: String::from_str(name), min_length, max_length })
        } else {
            Err(PatternConfigError::EmptyRange)
        }
    }
}

impl TypingPatternGenerator for NumberPatternGenerator {
    open spec fn well_formed(&self) -> bool {
        self.min_length < self.max_length
    }

    open spec fn can_produce(&self, name: Seq<char>, text: Seq<char>) -> bool {
        &&& name == self.name@
        &&& self.min_length <= text.len() < self.max_length
        &&& all_digits(text)
    }

    fn generate(&self) -> (r: TypingPattern) {
        let length = random_in_range(self.min_length, self.max_length);
        let mut pattern = String::new();
        let mut i: u32 = 0;
        while i < length
            invariant
                i <= length,
                pattern@.len() == i,
                all_digits(pattern@),
            decreases length - i,
        {
            let d = random_in_range(0, 10);
            let c = digit_char(d);
            let ghost before = pattern@;
            push_char(&mut pattern, c);
            assert(pattern@ == before.push(c));
            i = i + 1;
        }
        TypingPattern { name: self.name.clone(), pattern }
    }
}

/// One of a fixed set of candidate strings, each equally likely.
pub struct OneOfStringsPatternGenerator {
    pub name: String,
    pub strings: Vec<String>,
}

impl OneOfStringsPatternGenerator {
    /// The candidate set must not be empty.
    pub fn new(name: &str, strings: Vec<&str>) -> (r: Result<OneOfStringsPatternGenerator, PatternConfigError>)
        ensures
            match r {
                Ok(g) => {
                    &&& strings@.len() > 0
                    &&& g.name@ == name@
                    &&& g.strings@.len() == strings@.len()
                    &&& forall|i: int| 0 <= i < strings@.len() ==> #[trigger] g.strings@[i]@ == strings@[i]@
                },
                Err(e) => strings@.len() == 0 && e == PatternConfigError::NoCandidates,
            },
    {
        if strings.len() == 0 {
            return Err(PatternConfigError::NoCandidates);
        }
        let mut owned: Vec<String> = Vec::new();
        let mut i: usize = 0;
        while i < strings.len()
            invariant
                i <= strings@.len(),
                owned@.len() == i,
                forall|j: int| 0 <= j < i ==> #[trigger] owned@[j]@ == strings@[j]@,
            decreases strings.len() - i,
        {
            owned.push(String::from_str(strings[i]));
            i = i + 1;
        }
        Ok(OneOfStringsPatternGenerator { name: String::from_str(name), strings: owned })
    }
}

impl TypingPatternGenerator for OneOfStringsPatternGenerator {
    open spec fn well_formed(&self) -> bool {
        self.strings@.len() > 0
    }

    open spec fn can_produce(&self, name: Seq<char>, text: Seq<char>) -> bool {
        name == self.name@ && exists|i: int| 0 <= i < self.strings@.len() && text == #[trigger] self.strings@[i]@
    }

    fn generate(&self) -> (r: TypingPattern) {
        let pattern = match choose_one(&self.strings) {
            Some(s) => s.clone(),
            None => String::new(),
        };
        TypingPattern { name: self.name.clone(), pattern }
    }
}

/// Generates once from a boxed fixed-text generator.
pub fn test() {
    let foo = Box::new(SingleStringGenerator::new("foo", "foo"));
    let _ = foo.generate();
}

} // verus!
