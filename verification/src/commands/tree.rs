//! The shape of a command: its names and description, and under them a
//! tree of argument nodes, each with the consumer that parses it, the
//! executors that may run at it, and its child nodes. Dispatch is closed:
//! every executor the crate knows is one variant.

use vstd::prelude::*;

verus! {

/// The parser assigned to one argument node.
#[derive(Debug, Clone, Copy, PartialEq, Eq, Structural)]
pub enum ArgConsumer {
    /// A list of online players.
    Players,
    /// The rest of the line as a message.
    Msg,
    /// A block position.
    BlockPos,
    /// A rotation.
    Rotation,
}

/// Every executor a command node can name.
#[derive(Debug, Clone, Copy, PartialEq, Eq, Structural)]
pub enum Executor {
    BanNoReason,
    BanReason,
    WorldSpawnNoArgs,
    WorldSpawnDefault,
    WorldSpawnAngle,
}

/// One argument node of a command tree.
#[derive(Debug)]
pub struct Node {
    pub name: String,
    pub consumer: ArgConsumer,
    pub executors: Vec<Executor>,
    pub children: Vec<Node>,
}

/// Opens an argument node with no executors and no children yet.
pub fn argument(name: &str, consumer: ArgConsumer) -> (r: Node)
    ensures
        r.name@ == name@,
        r.consumer == consumer,
        r.executors@ == Seq::<Executor>::empty(),
        r.children@ == Seq::<Node>::empty(),
{
    Node { name: name.to_owned(), consumer, executors: Vec::new(), children: Vec::new() }
}

impl Node {
    /// Names one more executor at this node.
    pub fn execute(self, executor: Executor) -> (r: Node)
        ensures
            r.name == self.name,
            r.consumer == self.consumer,
            r.executors@ == self.executors@.push(executor),
            r.children == self.children,
    {
        let mut executors = self.executors;
        executors.push(executor);
        Node { name: self.name, consumer: self.consumer, executors, children: self.children }
    }

    /// Hangs one more child under this node.
    pub fn with_child(self, child: Node) -> (r: Node)
        ensures
            r.name == self.name,
            r.consumer == self.consumer,
            r.executors == self.executors,
            r.children@ == self.children@.push(child),
    {
        let mut children = self.children;
        children.push(child);
        Node { name: self.name, consumer: self.consumer, executors: self.executors, children }
    }
}

/// One command: its names and description, the executors that run with no
/// arguments, and the argument nodes under it.
#[derive(Debug)]
pub struct CommandTree {
    pub names: Vec<String>,
    pub description: String,
    pub executors: Vec<Executor>,
    pub children: Vec<Node>,
}

impl CommandTree {
    /// Opens a command with its names and description.
    pub fn new(names: Vec<String>, description: &str) -> (r: CommandTree)
        ensures
            r.names == names,
            r.description@ == description@,
            r.executors@ == Seq::<Executor>::empty(),
            r.children@ == Seq::<Node>::empty(),
    {
        CommandTree {
            names,
            description: description.to_owned(),
            executors: Vec::new(),
            children: Vec::new(),
        }
    }

    /// Names one more executor at the command's root.
    pub fn execute(self, executor: Executor) -> (r: CommandTree)
        ensures
            r.names == self.names,
            r.description == self.description,
            r.executors@ == self.executors@.push(executor),
            r.children == self.children,
    {
        let mut executors = self.executors;
        executors.push(executor);
        CommandTree {
            names: self.names,
            description: self.description,
            executors,
            children: self.children,
        }
    }

    /// Hangs one more argument node under the command's root.
    pub fn with_child(self, child: Node) -> (r: CommandTree)
        ensures
            r.names == self.names,
            r.description == self.description,
            r.executors == self.executors,
            r.children@ == self.children@.push(child),
    {
        let mut children = self.children;
        children.push(child);
        CommandTree {
            names: self.names,
            description: self.description,
            executors: self.executors,
            children,
        }
    }
}

/// Why a command invocation was refused before it ran.
#[derive(Debug, Clone)]
pub enum CommandError {
    /// An argument the executor relies on was not consumed under the
    /// name given.
    InvalidConsumption(Option<String>),
    /// The command could not act; the payload is shown to the sender.
    CommandFailed(String),
}

/// The arguments one invocation consumed, by consumer kind: the player
/// names a Players consumer matched, the message a Msg consumer took, the
/// position a BlockPos consumer read, and whether a Rotation was given
/// (its angle is handed through by the caller).
#[derive(Debug, Clone)]
pub struct ConsumedArgs {
    pub players: Option<Vec<String>>,
    pub msg: Option<String>,
    pub block_pos: Option<(i32, i32, i32)>,
    pub rotation: bool,
}

} // verus!
