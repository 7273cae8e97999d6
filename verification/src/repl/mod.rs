//! The interactive shell, as far as it decides: what one line of input does
//! to the shell and its machine, and what the caller is to show for it.

use vstd::prelude::*;
use crate::assembler::program_parsers::{program, program_bytes, spec_program};
use crate::assembler::ParseError;
use crate::text::{same_text, trim, trimmed};
use crate::vm::{Signal, VM, VmState, step};

verus! {

/// What the caller is to do after a line was taken in.
#[derive(Clone, Copy, Debug, PartialEq, Eq, Structural)]
pub enum Action {
    /// `.quit`: say farewell and leave.
    Quit,
    /// `.history`: list the lines taken in so far.
    ShowHistory,
    /// `.program`: list the bytes of the machine's program.
    ShowProgram,
    /// `.registers`: list the machine's registers.
    ShowRegisters,
    /// The line was assembled, appended to the program, and one instruction was run.
    Executed(Signal),
    /// The line is no program; nothing was appended or run.
    Rejected(ParseError),
}

/// The shell as a mathematical value.
pub struct ReplState {
    pub history: Seq<Seq<char>>,
    pub vm: VmState,
}

/// Core structure of the shell.
pub struct REPL {
    /// The lines taken in so far, oldest first.
    pub command_buffer: Vec<String>,
    /// The machine that the shell runs code on.
    pub vm: VM,
}

/// The texts of a list of strings.
pub open spec fn texts(lines: Seq<String>) -> Seq<Seq<char>> {
    Seq::new(lines.len(), |i: int| lines[i]@)
}

impl View for REPL {
    type V = ReplState;

    open spec fn view(&self) -> ReplState {
        ReplState { history: texts(self.command_buffer@), vm: self.vm@ }
    }
}

/// What a line does, once white space around it is gone: it joins the
/// history; a directive asks the caller to show something; any other line is
/// assembled, and if that succeeds its bytes join the program and the
/// machine takes one step.
pub open spec fn after_command(s: ReplState, command: Seq<char>) -> (ReplState, Action) {
    let history = s.history.push(command);
    if command == ".quit"@ {
        (ReplState { history, vm: s.vm }, Action::Quit)
    } else if command == ".history"@ {
        (ReplState { history, vm: s.vm }, Action::ShowHistory)
    } else if command == ".program"@ {
        (ReplState { history, vm: s.vm }, Action::ShowProgram)
    } else if command == ".registers"@ {
        (ReplState { history, vm: s.vm }, Action::ShowRegisters)
    } else {
        match spec_program(command) {
            Err(e) => (ReplState { history, vm: s.vm }, Action::Rejected(e)),
            Ok((_, instructions)) => {
                let loaded = VmState {
                    program: s.vm.program + program_bytes(instructions),
                    ..s.vm
                };
                (ReplState { history, vm: step(loaded).0 }, Action::Executed(step(loaded).1))
            },
        }
    }
}

impl REPL {
    /// A shell with an empty history and a fresh machine.
    pub fn new() -> (repl: REPL)
        ensures
            repl@ == (ReplState { history: Seq::empty(), vm: VmState::initial() }),
    {
        let repl = REPL { command_buffer: Vec::new(), vm: VM::new() };
        assert(texts(repl.command_buffer@) =~= Seq::empty());
        repl
    }

    /// Takes in one line as it was read: strips the white space around it
    /// and carries it out.
    pub fn handle_line(&mut self, line: &str) -> (action: Action)
        ensures
            (final(self)@, action) == after_command(old(self)@, trimmed(line@)),
    {
        self.execute_command(trim(line))
    }

    /// Carries out one line that has no white space around it.
    pub fn execute_command(&mut self, command: &str) -> (action: Action)
        ensures
            (final(self)@, action) == after_command(old(self)@, command@),
    {
        self.command_buffer.push(command.to_owned());
        assert(texts(self.command_buffer@) =~= old(self)@.history.push(command@));
        if same_text(command, ".quit") {
            Action::Quit
        } else if same_text(command, ".history") {
            Action::ShowHistory
        } else if same_text(command, ".program") {
            Action::ShowProgram
        } else if same_text(command, ".registers") {
            Action::ShowRegisters
        } else {
            match program(command) {
                Err(e) => Action::Rejected(e),
                Ok((_, result)) => {
                    let bytecode = result.to_bytes();
                    self.vm.add_bytes(bytecode);
                    Action::Executed(self.vm.run_once())
                },
            }
        }
    }
}

impl Default for REPL {
    fn default() -> (repl: REPL)
        ensures
            repl@ == (ReplState { history: Seq::empty(), vm: VmState::initial() }),
    {
        REPL::new()
    }
}

} // verus!
