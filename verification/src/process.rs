//! Commands and what they give back, as plain values. Running a command is
//! left to the caller; this module says which command to run and reads what
//! came out of it.

use crate::text::{
    chars_of, clone_strings, copy_str, join, join_strings, push_chars, string_of, strings_view,
    trim, trim_chars,
};
use vstd::prelude::*;

verus! {

/// What a command writes its standard output to.
#[derive(Debug, Clone, Copy, PartialEq, Eq, Structural)]
pub enum Stdio {
    /// What the way of running the command implies.
    Implied,
    /// The standard output of this program.
    Inherit,
    /// A pipe that this program reads.
    Piped,
}

/// A command: a program and its arguments.
#[derive(Debug)]
pub struct Command {
    pub program: String,
    pub args: Vec<String>,
    pub stdout: Stdio,
}

/// A command as a mathematical value.
pub struct CommandView {
    pub program: Seq<char>,
    pub args: Seq<Seq<char>>,
    pub stdout: Stdio,
}

impl View for Command {
    type V = CommandView;

    open spec fn view(&self) -> CommandView {
        CommandView { program: self.program@, args: strings_view(self.args@), stdout: self.stdout }
    }
}

impl Clone for Command {
    fn clone(&self) -> (r: Self)
        ensures
            r@ == self@,
    {
        Command {
            program: self.program.clone(),
            args: clone_strings(&self.args),
            stdout: self.stdout,
        }
    }
}

impl Command {
    /// The command that runs `program` without arguments.
    pub fn new(program: &str) -> (c: Command)
        ensures
            c@ == (CommandView {
                program: program@,
                args: Seq::<Seq<char>>::empty(),
                stdout: Stdio::Implied,
            }),
    {
        let args: Vec<String> = Vec::new();
        assert(strings_view(args@) == Seq::<Seq<char>>::empty());
        Command { program: copy_str(program), args, stdout: Stdio::Implied }
    }

    /// Adds one argument.
    pub fn arg(&mut self, arg: &str)
        ensures
            final(self)@ == (CommandView { args: old(self)@.args.push(arg@), ..old(self)@ }),
    {
        let ghost before = strings_view(self.args@);
        self.args.push(copy_str(arg));
        assert(strings_view(self.args@) == before.push(arg@));
    }

    /// Adds arguments, in order.
    pub fn args(&mut self, args: &Vec<String>)
        ensures
            final(self)@ == (CommandView {
                args: old(self)@.args + strings_view(args@),
                ..old(self)@
            }),
    {
        let mut i: usize = 0;
        assert(strings_view(args@).take(0) == Seq::<Seq<char>>::empty());
        assert(old(self)@.args + Seq::<Seq<char>>::empty() == old(self)@.args);
        while i < args.len()
            invariant
                i <= args.len(),
                self@ == (CommandView {
                    args: old(self)@.args + strings_view(args@).take(i as int),
                    ..old(self)@
                }),
            decreases args.len() - i,
        {
            let ghost before = self@.args;
            self.arg(args[i].as_str());
            proof {
                let all = strings_view(args@);
                assert(all.take(i + 1) == all.take(i as int).push(all[i as int]));
                assert(before.push(all[i as int]) == old(self)@.args + all.take(i + 1));
            }
            i += 1;
        }
        assert(strings_view(args@).take(args.len() as int) == strings_view(args@));
    }

    /// Says where the standard output goes.
    pub fn stdout(&mut self, stdout: Stdio)
        ensures
            final(self)@ == (CommandView { stdout, ..old(self)@ }),
    {
        self.stdout = stdout;
    }

    /// The program.
    pub fn get_program(&self) -> (p: &str)
        ensures
            p@ == self@.program,
    {
        self.program.as_str()
    }

    /// The arguments, in order.
    pub fn get_args(&self) -> (a: &Vec<String>)
        ensures
            strings_view(a@) == self@.args,
    {
        &self.args
    }
}

/// How a command ended: its exit code, if it has one.
#[derive(Debug, Clone, Copy, PartialEq, Eq, Structural)]
pub struct ExitStatus {
    pub code: Option<i32>,
}

impl ExitStatus {
    /// Whether the command ended with success, which is exit code 0.
    pub open spec fn spec_success(&self) -> bool {
        self.code == Some(0i32)
    }

    /// Whether the command ended with success, which is exit code 0.
    #[verifier::when_used_as_spec(spec_success)]
    pub fn success(&self) -> (b: bool)
        ensures
            b == self.spec_success(),
    {
        match self.code {
            Some(c) => c == 0,
            None => false,
        }
    }

    /// The exit code, if there is one.
    pub fn code(&self) -> (c: Option<i32>)
        ensures
            c == self.code,
    {
        self.code
    }
}

/// What a command that has ended gives back.
#[derive(Debug)]
pub struct Output {
    pub status: ExitStatus,
    pub stdout: Vec<u8>,
    pub stderr: Vec<u8>,
}

/// The text whose characters have the code points that the bytes give.
pub open spec fn bytes_text(bytes: Seq<u8>) -> Seq<char> {
    bytes.map_values(|b: u8| b as char)
}

/// The text that bytes stand for, each byte read as the code point of one
/// character.
pub fn text_of_bytes(bytes: &Vec<u8>) -> (s: String)
    ensures
        s@ == bytes_text(bytes@),
{
    let mut out: Vec<char> = Vec::new();
    let mut i: usize = 0;
    while i < bytes.len()
        invariant
            i <= bytes.len(),
            out@ == bytes_text(bytes@).take(i as int),
        decreases bytes.len() - i,
    {
        out.push(bytes[i] as char);
        assert(bytes_text(bytes@).take(i + 1) == bytes_text(bytes@).take(i as int).push(
            bytes_text(bytes@)[i as int],
        ));
        i += 1;
    }
    assert(bytes_text(bytes@).take(bytes.len() as int) == bytes_text(bytes@));
    string_of(&out)
}

/// The two streams of a command as texts.
pub trait OutputExt {
    /// The bytes that the command wrote to its standard error.
    spec fn stderr_bytes(&self) -> Seq<u8>;

    /// The bytes that the command wrote to its standard output.
    spec fn stdout_bytes(&self) -> Seq<u8>;

    /// The standard error, each byte read as one character.
    fn stderr(&self) -> (s: String)
        ensures
            s@ == bytes_text(self.stderr_bytes()),
    ;

    /// The standard output, each byte read as one character.
    fn stdout(&self) -> (s: String)
        ensures
            s@ == bytes_text(self.stdout_bytes()),
    ;
}

impl OutputExt for Output {
    open spec fn stderr_bytes(&self) -> Seq<u8> {
        self.stderr@
    }

    open spec fn stdout_bytes(&self) -> Seq<u8> {
        self.stdout@
    }

    fn stderr(&self) -> (s: String) {
        text_of_bytes(&self.stderr)
    }

    fn stdout(&self) -> (s: String) {
        text_of_bytes(&self.stdout)
    }
}

/// A command that was started and has not been waited for: the number that
/// the system gave the process.
#[derive(Debug, Clone, Copy, PartialEq, Eq, Hash, Structural)]
pub struct Child {
    pub id: u32,
}

impl Child {
    /// The number of the process.
    pub fn id(&self) -> (id: u32)
        ensures
            id == self.id,
    {
        self.id
    }
}

/// What running a command gave: its output where it was waited for, the
/// process where it was started only.
#[derive(Debug)]
pub enum ProcessOutput {
    Output(Output),
    Child(Child),
}

impl ProcessOutput {
    pub fn as_output(&self) -> (r: Option<&Output>)
        ensures
            r is Some <==> *self is Output,
            r is Some ==> *r->0 == self->Output_0,
    {
        if let Self::Output(v) = self {
            Some(v)
        } else {
            None
        }
    }

    pub fn as_child(&self) -> (r: Option<&Child>)
        ensures
            r is Some <==> *self is Child,
            r is Some ==> *r->0 == self->Child_0,
    {
        if let Self::Child(v) = self {
            Some(v)
        } else {
            None
        }
    }

    /// Errors if not [`ProcessOutput::Child`]: the value itself is handed
    /// back.
    pub fn try_into_child(self) -> (r: Result<Child, ProcessOutput>)
        ensures
            self is Child ==> r == Ok::<Child, ProcessOutput>(self->Child_0),
            !(self is Child) ==> r == Err::<Child, ProcessOutput>(self),
    {
        match self {
            Self::Child(v) => Ok(v),
            other => Err(other),
        }
    }

    /// Errors if not [`ProcessOutput::Output`]: the value itself is handed
    /// back.
    pub fn try_into_output(self) -> (r: Result<Output, ProcessOutput>)
        ensures
            self is Output ==> r == Ok::<Output, ProcessOutput>(self->Output_0),
            !(self is Output) ==> r == Err::<Output, ProcessOutput>(self),
    {
        match self {
            Self::Output(v) => Ok(v),
            other => Err(other),
        }
    }
}

/// How a command is run: waited for, or started only.
#[derive(Debug, Clone, Copy, PartialEq, Eq, Structural)]
pub enum Process {
    Output,
    Spawn,
}

/// How a command is shown: the program and the arguments with a space
/// between two of them, without white space at either end.
pub open spec fn command_text(cmd: CommandView) -> Seq<char> {
    trim(cmd.program + seq![' '] + join(cmd.args, ' '))
}

impl Process {
    /// Turns a [`Command`] into a [`String`] for displaying: `git` with the
    /// arguments `not`, `a` and `command` is shown as `git not a command`.
    pub fn display_command(cmd: &Command) -> (s: String)
        ensures
            s@ == command_text(cmd@),
    {
        let mut program = chars_of(cmd.get_program());
        program.push(' ');
        let args = join_strings(cmd.get_args(), ' ');
        push_chars(&mut program, &args);
        assert(program@ == cmd@.program + seq![' '] + join(cmd@.args, ' '));
        string_of(&trim_chars(&program))
    }
}

} // verus!
