use vstd::prelude::*;

verus! {

/// One labeled span of a command's output text. `start` and `end` are
/// character offsets into the output text, `end` exclusive.
#[derive(Debug)]
pub struct OutputSection {
    pub start: usize,
    pub end: usize,
    pub label: String,
}

/// What the command hands back to the host: the output text together with the
/// labeled sections that describe it.
#[derive(Debug)]
pub struct CommandOutput {
    pub text: String,
    pub sections: Vec<OutputSection>,
}

/// A section lies within a text when its span is an interval of the text's
/// characters.
pub open spec fn section_within(s: OutputSection, text: Seq<char>) -> bool {
    s.start <= s.end && s.end <= text.len()
}

/// A command output is well formed when every section lies within its text.
pub open spec fn output_well_formed(out: CommandOutput) -> bool {
    forall|i: int|
        0 <= i < out.sections@.len() ==> section_within(#[trigger] out.sections@[i], out.text@)
}

} // verus!
