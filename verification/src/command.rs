//! The command descriptor handed back to the editor.

use vstd::prelude::*;

verus! {

/// What the editor needs to spawn a process: the program, its arguments in
/// order, and the environment variables to set for it.
#[derive(Debug, Clone, PartialEq, Eq)]
pub struct Command {
    pub executable: String,
    pub args: Vec<String>,
    pub env: Vec<(String, String)>,
}

/// The mathematical value of a [`Command`]: its texts as sequences of
/// characters, in the order in which the command holds them.
pub struct CommandView {
    pub executable: Seq<char>,
    pub args: Seq<Seq<char>>,
    pub env: Seq<(Seq<char>, Seq<char>)>,
}

/// The mapping from names to values that a list of `(name, value)` pairs
/// denotes. Where a name occurs more than once, the pair nearest the end
/// decides.
pub open spec fn env_mapping(pairs: Seq<(Seq<char>, Seq<char>)>) -> Map<Seq<char>, Seq<char>>
    decreases pairs.len(),
{
    if pairs.len() == 0 {
        Map::empty()
    } else {
        env_mapping(pairs.drop_last()).insert(pairs.last().0, pairs.last().1)
    }
}

impl CommandView {
    /// The environment as a mapping from variable names to values.
    pub open spec fn env_map(self) -> Map<Seq<char>, Seq<char>> {
        env_mapping(self.env)
    }
}

impl View for Command {
    type V = CommandView;

    open spec fn view(&self) -> CommandView {
        CommandView {
            executable: self.executable@,
            args: Seq::new(self.args@.len(), |i: int| self.args@[i]@),
            env: Seq::new(self.env@.len(), |i: int| (self.env@[i].0@, self.env@[i].1@)),
        }
    }
}

impl Command {
    /// A command is well formed when it names a program and none of its
    /// arguments is the empty string.
    pub open spec fn wf(&self) -> bool {
        &&& self@.executable.len() > 0
        &&& forall|i: int| 0 <= i < self@.args.len() ==> (#[trigger] self@.args[i]).len() > 0
    }
}

} // verus!
