use vstd::prelude::*;

verus! {

/// The machine's terminal, held as plain data. The host appends the
/// characters that were typed to `input` and removes from `output` what it
/// has shown; the machine takes characters from the front of `input` and
/// appends to `output`.
pub struct Console {
    /// Characters typed and not yet taken by the machine, oldest first.
    pub input: Vec<u8>,
    /// Characters written by the machine, oldest first.
    pub output: Vec<u8>,
    /// Whether the prompt of an input trap has been written and no
    /// character has answered it yet.
    pub prompted: bool,
}

/// The mathematical content of a [`Console`].
pub struct ConsoleView {
    pub input: Seq<u8>,
    pub output: Seq<u8>,
    pub prompted: bool,
}

impl View for Console {
    type V = ConsoleView;

    open spec fn view(&self) -> ConsoleView {
        ConsoleView { input: self.input@, output: self.output@, prompted: self.prompted }
    }
}

impl ConsoleView {
    /// The console after the machine has written `text`.
    pub open spec fn write(self, text: Seq<u8>) -> ConsoleView {
        ConsoleView { output: self.output + text, ..self }
    }

    /// The console after the machine has taken the oldest typed character.
    pub open spec fn take(self) -> ConsoleView {
        ConsoleView { input: self.input.drop_first(), ..self }
    }
}

impl Console {
    /// A console on which nothing was typed and nothing written.
    pub fn new() -> (console: Console)
        ensures
            console@.input == Seq::<u8>::empty(),
            console@.output == Seq::<u8>::empty(),
            !console@.prompted,
    {
        Console { input: Vec::new(), output: Vec::new(), prompted: false }
    }
}

} // verus!
