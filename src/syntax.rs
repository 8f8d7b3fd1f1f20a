//! The events that drive the rules: entering and leaving syntax-tree nodes.

use vstd::prelude::*;

verus! {

/// The node kinds that rules react to; every other kind is `Other`.
#[derive(Clone, Copy, Debug, PartialEq, Eq, Structural)]
pub enum NodeKind {
    ModuleAnsiHeader,
    SequenceDeclaration,
    PropertyDeclaration,
    CheckerDeclaration,
    GenerateBlock,
    GenerateBlockIdentifier,
    HierarchicalInstance,
    InstanceIdentifier,
    BinaryOperator,
    NetTypeWire,
    IntegerVectorTypeReg,
    Other,
}

/// A node of the syntax tree as the rules see it: its kind and the source
/// text that matters for it. For a declaration or an identifier node that is
/// the exact text of its identifier; for a binary operator it is the
/// operator token with all trailing text up to the next token.
#[derive(Clone, Debug)]
pub struct Node {
    pub kind: NodeKind,
    pub text: String,
}

/// One step of a depth-first traversal.
#[derive(Clone, Debug)]
pub enum NodeEvent {
    Enter(Node),
    Leave(Node),
}

impl NodeEvent {
    pub open spec fn node(self) -> Node {
        match self {
            NodeEvent::Enter(n) => n,
            NodeEvent::Leave(n) => n,
        }
    }
}

/// Replays a traversal against a stack of open nodes: entering pushes, leaving
/// pops the same node. `None` when a leave does not close the innermost open
/// node.
pub open spec fn replay(open: Seq<Node>, events: Seq<NodeEvent>) -> Option<Seq<Node>>
    decreases events.len(),
{
    if events.len() == 0 {
        Some(open)
    } else {
        match events[0] {
            NodeEvent::Enter(n) => replay(open.push(n), events.drop_first()),
            NodeEvent::Leave(n) => if open.len() > 0 && open.last() == n {
                replay(open.drop_last(), events.drop_first())
            } else {
                None
            },
        }
    }
}

/// A traversal in which every enter is closed by a matching leave, properly
/// nested.
pub open spec fn balanced(events: Seq<NodeEvent>) -> bool {
    replay(Seq::empty(), events) == Some(Seq::<Node>::empty())
}

/// How many events of `events` enter `n`.
pub open spec fn enter_count(events: Seq<NodeEvent>, n: Node) -> nat
    decreases events.len(),
{
    if events.len() == 0 {
        0
    } else {
        (if events[0] == NodeEvent::Enter(n) { 1nat } else { 0nat }) + enter_count(
            events.drop_first(),
            n,
        )
    }
}

/// How many events of `events` leave `n`.
pub open spec fn leave_count(events: Seq<NodeEvent>, n: Node) -> nat
    decreases events.len(),
{
    if events.len() == 0 {
        0
    } else {
        (if events[0] == NodeEvent::Leave(n) { 1nat } else { 0nat }) + leave_count(
            events.drop_first(),
            n,
        )
    }
}

/// How often `n` stands in the stack `open`.
pub open spec fn occurrences(open: Seq<Node>, n: Node) -> nat
    decreases open.len(),
{
    if open.len() == 0 {
        0
    } else {
        occurrences(open.drop_last(), n) + (if open.last() == n { 1nat } else { 0nat })
    }
}

proof fn lemma_replay_counts(open: Seq<Node>, events: Seq<NodeEvent>, n: Node)
    requires
        replay(open, events) is Some,
    ensures
        enter_count(events, n) + occurrences(open, n) == leave_count(events, n)
            + occurrences(replay(open, events)->Some_0, n),
    decreases events.len(),
{
    if events.len() > 0 {
        match events[0] {
            NodeEvent::Enter(m) => {
                let next = open.push(m);
                assert(next.drop_last() =~= open);
                lemma_replay_counts(next, events.drop_first(), n);
            },
            NodeEvent::Leave(m) => {
                lemma_replay_counts(open.drop_last(), events.drop_first(), n);
            },
        }
    }
}

/// In a balanced traversal each node is entered as often as it is left.
pub proof fn lemma_balanced_enter_leave(events: Seq<NodeEvent>, n: Node)
    requires
        balanced(events),
    ensures
        enter_count(events, n) == leave_count(events, n),
{
    lemma_replay_counts(Seq::empty(), events, n);
}

} // verus!
