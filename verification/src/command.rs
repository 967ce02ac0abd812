//! Plain description of one external program invocation.
//!
//! The menu never inspects what its commands print or whether they succeed;
//! all it decides is *which* programs to run with *which* arguments. A
//! [`CommandSpec`] carries exactly that, and its view is the pair of the
//! program name and the argument list as character sequences, so contracts
//! can pin every invocation down to the letter.

use vstd::prelude::*;

verus! {

/// One external program invocation: the program name and its arguments,
/// in order.
pub struct CommandSpec {
    pub program: String,
    pub args: Vec<String>,
}

/// The mathematical view of one command: the program name and the argument
/// list, each as a sequence of characters.
pub type SpecCommand = (Seq<char>, Seq<Seq<char>>);

/// The mathematical view of a command plan: the commands to run, in order.
pub type SpecPlan = Seq<SpecCommand>;

/// The view of one command.
pub open spec fn cmd_view(c: CommandSpec) -> SpecCommand {
    (c.program@, c.args@.map_values(|a: String| a@))
}

/// The view of a whole plan.
pub open spec fn plan_view(cmds: Seq<CommandSpec>) -> SpecPlan {
    cmds.map_values(|c: CommandSpec| cmd_view(c))
}

/// Builds the command that runs `program` with the given arguments.
pub fn command(program: &str, args: Vec<String>) -> (c: CommandSpec)
    ensures
        c.program@ == program@,
        c.args@ == args@,
{
    CommandSpec { program: program.to_owned(), args }
}

/// An owned copy of one argument.
pub fn arg(s: &str) -> (a: String)
    ensures
        a@ == s@,
{
    s.to_owned()
}

} // verus!
