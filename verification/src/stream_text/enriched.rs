use super::TextStreamPart;
use serde_json::Value;
use vstd::prelude::*;

verus! {

/// A part of a text stream with the partial output parsed so far, if any.
#[derive(Debug, Clone, PartialEq)]
pub struct EnrichedStreamPart<INPUT = Value, OUTPUT = Value> {
    pub part: TextStreamPart<INPUT, OUTPUT>,
    pub partial_output: Option<OUTPUT>,
}

impl<INPUT, OUTPUT> EnrichedStreamPart<INPUT, OUTPUT> {
    /// A part with no partial output.
    pub fn new(part: TextStreamPart<INPUT, OUTPUT>) -> (e: Self)
        ensures
            e.part == part,
            e.partial_output is None,
    {
        EnrichedStreamPart { part, partial_output: None }
    }

    /// A part with a partial output.
    pub fn with_output(part: TextStreamPart<INPUT, OUTPUT>, partial_output: OUTPUT) -> (e: Self)
        ensures
            e.part == part,
            e.partial_output == Some(partial_output),
    {
        EnrichedStreamPart { part, partial_output: Some(partial_output) }
    }

    /// Sets the partial output.
    pub fn set_partial_output(&mut self, partial_output: OUTPUT)
        ensures
            final(self).part == old(self).part,
            final(self).partial_output == Some(partial_output),
    {
        self.partial_output = Some(partial_output);
    }

    /// The part itself.
    pub fn into_part(self) -> (p: TextStreamPart<INPUT, OUTPUT>)
        ensures
            p == self.part,
    {
        self.part
    }

    pub fn part_ref(&self) -> (p: &TextStreamPart<INPUT, OUTPUT>)
        ensures
            *p == self.part,
    {
        &self.part
    }

    pub fn partial_output_ref(&self) -> (o: Option<&OUTPUT>)
        ensures
            match self.partial_output {
                Some(x) => o == Some(&x),
                None => o is None,
            },
    {
        match &self.partial_output {
            Some(x) => Some(x),
            None => None,
        }
    }
}

} // verus!
