//! Counted graph nodes with iterative, cascading teardown.
//!
//! A [`Node`] is a payload for a [`Region`]: it carries a value, strong
//! handles to its children, and an optional weak handle to its parent.
//! Strong edges own their target — an ownership cycle of strong edges keeps
//! every record on it alive for as long as the cycle stands, which is the
//! documented leak potential of counted handles.  A parent edge is weak
//! precisely so that the parent/child pair is collectible: child nodes are
//! aware of their parent without keeping it alive.
//!
//! [`release`] drops a strong handle and cascades: destroying a node also
//! drops the handles the node was holding, which may destroy further nodes.
//! The cascade runs on an explicit worklist — a chain of nodes is torn down
//! iteratively, never by nested calls, so a long chain cannot exhaust the
//! stack.  Its contract pins the no-cascade case down exactly: while a
//! record keeps another owner, dropping one handle only lowers that one
//! count and destroys nothing, which is why a retained cycle is never freed.

use crate::region::Region;
use crate::region::StrongHandle;
use crate::region::WeakHandle;
use crate::region::drop_strong_model;
use crate::region::valid_strong;
use crate::region::wf;
use vstd::prelude::*;

verus! {

/// One graph node: a value, owned children, an observed parent.
pub struct Node {
    /// The node's own datum.
    pub value: i64,
    /// Strong edges: this node owns one strong unit of each child's record.
    pub children: Vec<StrongHandle>,
    /// Weak edge: the node observes its parent without owning it.
    pub parent: Option<WeakHandle>,
}

/// Mathematical model of a node: the value and the record indices its edges
/// point at.
pub struct NodeModel {
    /// The node's own datum.
    pub value: int,
    /// The record indices of the owned children, in edge order.
    pub children: Seq<int>,
    /// The record index of the observed parent, if any.
    pub parent: Option<int>,
}

/// The model of an executable node.
pub open spec fn node_model(n: Node) -> NodeModel {
    NodeModel {
        value: n.value as int,
        children: n.children@.map_values(|h: StrongHandle| h.idx()),
        parent: match n.parent {
            Some(w) => Some(w.idx()),
            None => None,
        },
    }
}

impl Node {
    /// A node with no edges yet.
    pub fn leaf(value: i64) -> (n: Node)
        ensures
            n.value == value,
            node_model(n).children == Seq::<int>::empty(),
            node_model(n).parent is None,
    {
        let n = Node { value, children: Vec::new(), parent: None };
        proof {
            assert(node_model(n).children =~= Seq::<int>::empty());
        }
        n
    }
}

/// Hands the parent node one more strong edge: `child` is stored in the
/// parent's child list, so the child's record now has the parent among its
/// owners.  Only the parent's payload changes; every count in the region
/// stays as it was.
pub fn add_child(region: &mut Region<Node>, parent: &StrongHandle, child: StrongHandle)
    requires
        wf(old(region)@),
        valid_strong(old(region)@, parent.idx()),
    ensures
        wf(final(region)@),
        final(region)@.len() == old(region)@.len(),
        forall|i: int|
            0 <= i < old(region)@.len() && i != parent.idx() ==> final(region)@[i] == old(region)@[i],
        final(region)@[parent.idx()].strong == old(region)@[parent.idx()].strong,
        final(region)@[parent.idx()].weak == old(region)@[parent.idx()].weak,
        old(region)@[parent.idx()].payload matches Some(n1) && final(region)@[parent.idx()].payload matches Some(n2) && node_model(n2).value == node_model(n1).value
            && node_model(n2).parent == node_model(n1).parent && node_model(n2).children
            == node_model(n1).children.push(child.idx()),
{
    let ghost c_idx = child.idx();
    let node = region.get_mut(parent);
    node.children.push(child);
    proof {
        assert(node_model(region@[parent.idx()].payload.unwrap()).children =~= node_model(
            old(region)@[parent.idx()].payload.unwrap(),
        ).children.push(c_idx));
    }
}

/// Points a node at its parent through a weak edge.  The node must not have
/// a parent yet; only its payload changes, no count moves.
pub fn set_parent(region: &mut Region<Node>, child: &StrongHandle, parent: WeakHandle)
    requires
        wf(old(region)@),
        valid_strong(old(region)@, child.idx()),
        old(region)@[child.idx()].payload matches Some(n) && node_model(n).parent is None,
    ensures
        wf(final(region)@),
        final(region)@.len() == old(region)@.len(),
        forall|i: int|
            0 <= i < old(region)@.len() && i != child.idx() ==> final(region)@[i] == old(region)@[i],
        final(region)@[child.idx()].strong == old(region)@[child.idx()].strong,
        final(region)@[child.idx()].weak == old(region)@[child.idx()].weak,
        old(region)@[child.idx()].payload matches Some(n1) && final(region)@[child.idx()].payload matches Some(n2) && node_model(n2).value == node_model(n1).value
            && node_model(n2).children == node_model(n1).children && node_model(n2).parent
            == Some(parent.idx()),
{
    let node = region.get_mut(child);
    node.parent = Some(parent);
}

/// Law: a retained cycle is never freed.  Two records own each other — each
/// has its cycle edge plus one external handle, so each strong count is at
/// least two — and the external handles are dropped, one per record.  Both
/// payloads are still alive afterwards: each record keeps the owner its
/// cycle edge provides, and no count has reached zero.  Breaking the cycle
/// takes a weak edge in one direction; see the module documentation.
pub proof fn lemma_retained_cycle_stays_alive<T>(s: Seq<crate::region::RecordModel<T>>, i: int, j: int)
    requires
        wf(s),
        0 <= i < s.len(),
        0 <= j < s.len(),
        i != j,
        s[i].strong >= 2,
        s[j].strong >= 2,
    ensures
        drop_strong_model(drop_strong_model(s, i), j)[i].payload == s[i].payload,
        drop_strong_model(drop_strong_model(s, i), j)[j].payload == s[j].payload,
        drop_strong_model(drop_strong_model(s, i), j)[i].payload is Some,
        drop_strong_model(drop_strong_model(s, i), j)[j].payload is Some,
{
}

enum ReleaseTask {
    Strong(StrongHandle),
    Weak(WeakHandle),
}

/// Moves every edge of a destroyed node onto the worklist, to be dropped in
/// turn.
fn enqueue_edges(worklist: &mut Vec<ReleaseTask>, node: Node) {
    let mut kids = node.children;
    while kids.len() > 0
        decreases kids.len(),
    {
        let c = kids.pop().unwrap();
        worklist.push(ReleaseTask::Strong(c));
    }
    if let Some(w) = node.parent {
        worklist.push(ReleaseTask::Weak(w));
    }
}

/// Drops the strong handle `h` and cascades iteratively: a record whose
/// strong count reaches zero is destroyed at once, and the edges its node
/// held are dropped in turn.
///
/// The contract pins the two ends of the spectrum down exactly.  While the
/// record keeps another owner — a second external handle, or a strong edge
/// of a retained cycle — the drop is the plain one-count decrement and
/// nothing is destroyed.  When `h` was the last owner, the record's payload
/// is destroyed immediately and its strong count is zero from then on.  In
/// every case the cascade only lowers counts, destroys payloads without ever
/// altering a surviving one, and keeps the region well-formed.
pub fn release(region: &mut Region<Node>, h: StrongHandle)
    requires
        wf(old(region)@),
        valid_strong(old(region)@, h.idx()),
    ensures
        wf(final(region)@),
        final(region)@.len() == old(region)@.len(),
        forall|i: int|
            0 <= i < old(region)@.len() ==> (#[trigger] final(region)@[i]).strong <= old(region)@[i].strong && final(region)@[i].weak <= old(region)@[i].weak,
        forall|i: int|
            0 <= i < old(region)@.len() && (#[trigger] final(region)@[i]).payload is Some ==> final(region)@[i].payload == old(region)@[i].payload,
        old(region)@[h.idx()].strong > 1 ==> final(region)@ == drop_strong_model(
            old(region)@,
            h.idx(),
        ),
        old(region)@[h.idx()].strong == 1 ==> final(region)@[h.idx()].strong == 0 && final(region)@[h.idx()].payload is None,
{
    let ghost root = h.idx();
    let ghost s0 = old(region)@;
    let out = region.drop_strong(h);
    let node = match out {
        None => {
            return ;
        },
        Some(node) => node,
    };
    let mut worklist: Vec<ReleaseTask> = Vec::new();
    enqueue_edges(&mut worklist, node);
    // One drop per iteration.  Every queued task stems from a count unit and
    // counts only ever fall, so the budget below exceeds any worklist a
    // process can build up; it makes termination a theorem rather than a
    // bound met in practice.
    let mut fuel: u64 = u64::MAX;
    while worklist.len() > 0 && fuel > 0
        invariant
            wf(region@),
            region@.len() == s0.len(),
            0 <= root < s0.len(),
            region@[root].strong == 0,
            forall|i: int|
                0 <= i < s0.len() ==> (#[trigger] region@[i]).strong <= s0[i].strong
                    && region@[i].weak <= s0[i].weak,
            forall|i: int|
                0 <= i < s0.len() && (#[trigger] region@[i]).payload is Some ==> region@[i].payload
                    == s0[i].payload,
        decreases fuel,
    {
        fuel = fuel - 1;
        let task = worklist.pop().unwrap();
        match task {
            ReleaseTask::Strong(c) => {
                if region.strong_live(&c) {
                    proof {
                        assert(c.idx() != root);
                    }
                    let ghost before = region@;
                    let dropped = region.drop_strong(c);
                    proof {
                        assert(region@[root] == before[root]);
                    }
                    if let Some(n) = dropped {
                        enqueue_edges(&mut worklist, n);
                    }
                }
            },
            ReleaseTask::Weak(w) => {
                if region.weak_live(&w) {
                    let ghost before = region@;
                    region.drop_weak(w);
                    proof {
                        assert(region@[root].strong == before[root].strong);
                    }
                }
            },
        }
    }
}

} // verus!
