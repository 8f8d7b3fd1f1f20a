//! Tracking whether a traversal currently stands inside a container node.

use vstd::prelude::*;
use crate::syntax::{balanced, replay, Node, NodeEvent, NodeKind};

verus! {

/// The depth after one event: entering a container opens one more level,
/// leaving one closes a level. The count saturates at both ends.
pub open spec fn scope_step(container: NodeKind, depth: nat, event: NodeEvent) -> nat {
    match event {
        NodeEvent::Enter(n) => if n.kind == container && depth < u64::MAX {
            depth + 1
        } else {
            depth
        },
        NodeEvent::Leave(n) => if n.kind == container && depth > 0 {
            (depth - 1) as nat
        } else {
            depth
        },
    }
}

/// The depth after a whole sequence of events.
pub open spec fn depth_after(container: NodeKind, depth: nat, events: Seq<NodeEvent>) -> nat
    decreases events.len(),
{
    if events.len() == 0 {
        depth
    } else {
        depth_after(container, scope_step(container, depth, events[0]), events.drop_first())
    }
}

/// How many nodes of kind `kind` stand in the stack `open`.
pub open spec fn kind_count(open: Seq<Node>, kind: NodeKind) -> nat
    decreases open.len(),
{
    if open.len() == 0 {
        0
    } else {
        kind_count(open.drop_last(), kind) + (if open.last().kind == kind { 1nat } else { 0nat })
    }
}

/// Counts how deeply the traversal is nested inside nodes of one kind.
pub struct ScopeTracker {
    pub container: NodeKind,
    pub depth: u64,
}

impl ScopeTracker {
    /// A tracker outside every container.
    pub fn new(container: NodeKind) -> (r: ScopeTracker)
        ensures
            r.container == container,
            r.depth == 0,
    {
        ScopeTracker { container, depth: 0 }
    }

    /// Follows one event.
    pub fn update(&mut self, event: &NodeEvent)
        ensures
            final(self).container == old(self).container,
            final(self).depth as nat == scope_step(old(self).container, old(self).depth as nat, *event),
    {
        match event {
            NodeEvent::Enter(n) => {
                if n.kind == self.container && self.depth < u64::MAX {
                    self.depth = self.depth + 1;
                }
            },
            NodeEvent::Leave(n) => {
                if n.kind == self.container && self.depth > 0 {
                    self.depth = self.depth - 1;
                }
            },
        }
    }

    /// Whether the traversal stands inside at least one container.
    pub fn is_inside(&self) -> (r: bool)
        ensures
            r == (self.depth > 0),
    {
        self.depth > 0
    }
}

proof fn lemma_depth_follows_stack(
    container: NodeKind,
    base: nat,
    open: Seq<Node>,
    events: Seq<NodeEvent>,
)
    requires
        replay(open, events) is Some,
        base + kind_count(open, container) + events.len() <= u64::MAX,
    ensures
        depth_after(container, base + kind_count(open, container), events) == base + kind_count(
            replay(open, events)->Some_0,
            container,
        ),
    decreases events.len(),
{
    if events.len() > 0 {
        let d = base + kind_count(open, container);
        match events[0] {
            NodeEvent::Enter(m) => {
                let next = open.push(m);
                assert(next.drop_last() =~= open);
                assert(scope_step(container, d, events[0]) == base + kind_count(next, container));
                lemma_depth_follows_stack(container, base, next, events.drop_first());
            },
            NodeEvent::Leave(m) => {
                let next = open.drop_last();
                assert(scope_step(container, d, events[0]) == base + kind_count(next, container));
                lemma_depth_follows_stack(container, base, next, events.drop_first());
            },
        }
    }
}

/// A balanced stretch of events, however many containers of the same kind it
/// opens and closes, leaves the depth where it was: closing an inner
/// container never ends the scope of an outer one that is still open.
pub proof fn lemma_balanced_keeps_depth(container: NodeKind, depth: nat, events: Seq<NodeEvent>)
    requires
        balanced(events),
        depth + events.len() <= u64::MAX,
    ensures
        depth_after(container, depth, events) == depth,
{
    lemma_depth_follows_stack(container, depth, Seq::empty(), events);
}

/// Inside an open container, a node reached after any balanced stretch of
/// siblings is still inside.
pub proof fn lemma_inner_leave_keeps_outer_open(
    container: NodeKind,
    depth: nat,
    siblings: Seq<NodeEvent>,
    target: Node,
)
    requires
        depth > 0,
        balanced(siblings),
        depth + siblings.len() + 1 <= u64::MAX,
    ensures
        depth_after(container, depth, siblings.push(NodeEvent::Enter(target))) > 0,
{
    lemma_balanced_keeps_depth(container, depth, siblings);
    lemma_depth_after_append(container, depth, siblings, seq![NodeEvent::Enter(target)]);
    assert(siblings + seq![NodeEvent::Enter(target)] =~= siblings.push(NodeEvent::Enter(target)));
    let rest = seq![NodeEvent::Enter(target)];
    assert(rest.drop_first() =~= Seq::<NodeEvent>::empty());
    assert(depth_after(container, depth, rest) == depth_after(
        container,
        scope_step(container, depth, rest[0]),
        rest.drop_first(),
    ));
}

/// After a whole balanced traversal the tracker is back outside every
/// container.
pub proof fn lemma_traversal_restores_scope(container: NodeKind, events: Seq<NodeEvent>)
    requires
        balanced(events),
        events.len() <= u64::MAX,
    ensures
        depth_after(container, 0, events) == 0,
{
    lemma_balanced_keeps_depth(container, 0, events);
}

/// Running two stretches of events one after the other.
proof fn lemma_depth_after_append(
    container: NodeKind,
    depth: nat,
    first: Seq<NodeEvent>,
    second: Seq<NodeEvent>,
)
    ensures
        depth_after(container, depth, first + second) == depth_after(
            container,
            depth_after(container, depth, first),
            second,
        ),
    decreases first.len(),
{
    if first.len() > 0 {
        assert((first + second).drop_first() =~= first.drop_first() + second);
        assert((first + second)[0] == first[0]);
        lemma_depth_after_append(
            container,
            scope_step(container, depth, first[0]),
            first.drop_first(),
            second,
        );
    } else {
        assert(first + second =~= second);
    }
}

} // verus!
