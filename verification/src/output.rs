use vstd::prelude::*;
use vstd::string::StringExecFns;

verus! {

/// Holds the text produced by a story-mode run, for the shell to display.
/// The shell owns any cross-thread sharing around it.
pub struct StoryOutput {
    output: String,
}

impl StoryOutput {
    /// The stored text.
    pub closed spec fn spec_output(&self) -> Seq<char> {
        self.output@
    }

    /// An empty output buffer.
    pub fn new() -> (r: StoryOutput)
        ensures
            r.spec_output() == Seq::<char>::empty(),
    {
        StoryOutput { output: String::new() }
    }

    /// A copy of the stored text.
    pub fn get_output(&self) -> (r: String)
        ensures
            r@ == self.spec_output(),
    {
        self.output.clone()
    }

    /// Replaces the stored text.
    pub fn set_output(&mut self, text: String)
        ensures
            final(self).spec_output() == text@,
    {
        self.output = text;
    }
}

/// Holds the report of a matrix-multiply timing run, for the shell to
/// display. The shell owns any cross-thread sharing around it.
pub struct MatmulOutput {
    output: String,
}

impl MatmulOutput {
    /// The stored text.
    pub closed spec fn spec_output(&self) -> Seq<char> {
        self.output@
    }

    /// An empty output buffer.
    pub fn new() -> (r: MatmulOutput)
        ensures
            r.spec_output() == Seq::<char>::empty(),
    {
        MatmulOutput { output: String::new() }
    }

    /// A copy of the stored text.
    pub fn get_output(&self) -> (r: String)
        ensures
            r@ == self.spec_output(),
    {
        self.output.clone()
    }

    /// Replaces the stored text.
    pub fn set_output(&mut self, text: String)
        ensures
            final(self).spec_output() == text@,
    {
        self.output = text;
    }
}

} // verus!
