//! The pipeline container: the one owner of every graph node's lifetime.
//!
//! The core tracks, for each node the engine holds, who put it there — a
//! source, or a destination/recording branch — under which name, and in
//! which chain position. Teardown removes a whole owner's nodes at once, so
//! a removed source or destination can leave nothing orphaned behind.

use vstd::prelude::*;
use vstd::seq_lib::*;

use crate::config::PlayState;

verus! {

/// Whether a node belongs to a source's subgraph or to a destination
/// branch registered with the mixer.
#[derive(Clone, Copy, Debug, PartialEq, Eq, Structural)]
pub enum OwnerKind {
    Input,
    Output,
}

/// The chain position a node fills inside its owner's subgraph.
///
/// The `Branch*` roles form a destination branch (tee consumption → encode →
/// mux → sink); a source's recording branch uses the same roles under the
/// source's own name.
#[derive(Clone, Copy, Debug, PartialEq, Eq, Structural)]
pub enum Role {
    Source,
    AudioTeeQueue,
    AudioTee,
    AudioConvert,
    AudioResample,
    AudioVolume,
    AudioQueue,
    VideoTeeQueue,
    VideoTee,
    VideoConvert,
    VideoScale,
    VideoRate,
    VideoCapsfilter,
    VideoQueue,
    BranchAudioQueue,
    BranchVideoQueue,
    BranchAudioEncode,
    BranchVideoEncode,
    BranchMux,
    BranchSink,
}

/// One node in the container, identified by its owner and chain position.
pub struct NodeId {
    pub kind: OwnerKind,
    pub owner: String,
    pub role: Role,
}

impl NodeId {
    /// An exact copy.
    pub fn dup(&self) -> (r: NodeId)
        ensures
            r == *self,
    {
        NodeId { kind: self.kind, owner: self.owner.clone(), role: self.role }
    }
}

/// True when `n` belongs to the owner named `name` of kind `kind`.
pub open spec fn node_owned(n: NodeId, kind: OwnerKind, name: Seq<char>) -> bool {
    n.kind == kind && n.owner@ == name
}

/// The predicate that keeps a node out of owner (`kind`, `name`)'s hands.
pub open spec fn not_owned_pred(kind: OwnerKind, name: Seq<char>) -> spec_fn(NodeId) -> bool {
    |n: NodeId| !node_owned(n, kind, name)
}

/// `nodes` with every node of owner (`kind`, `name`) taken out, order kept.
pub open spec fn without_owned(nodes: Seq<NodeId>, kind: OwnerKind, name: Seq<char>) -> Seq<
    NodeId,
> {
    nodes.filter(not_owned_pred(kind, name))
}

/// The container: its nodes and its current playback state.
pub struct Pipeline {
    pub nodes: Vec<NodeId>,
    pub state: PlayState,
}

impl Pipeline {
    /// True when some node of owner (`kind`, `name`) stands in the container.
    pub open spec fn has_owned(self, kind: OwnerKind, name: Seq<char>) -> bool {
        exists|i: int| 0 <= i < self.nodes@.len() && node_owned(self.nodes@[i], kind, name)
    }

    /// An empty container in the `Null` state.
    pub fn empty() -> (r: Pipeline)
        ensures
            r.nodes@ == Seq::<NodeId>::empty(),
            r.state == PlayState::Null,
    {
        Pipeline { nodes: Vec::new(), state: PlayState::Null }
    }

    /// Adds one node at the end.
    pub fn add_node(&mut self, node: NodeId)
        ensures
            final(self).nodes@ == old(self).nodes@.push(node),
            final(self).state == old(self).state,
    {
        self.nodes.push(node);
    }

    /// Requests the given playback state of the container; the engine
    /// propagates it to every linked child on its own.
    pub fn set_state(&mut self, state: PlayState)
        ensures
            final(self).nodes@ == old(self).nodes@,
            final(self).state == state,
    {
        self.state = state;
    }

    /// Removes every node owned by (`kind`, `name`), keeping the rest in
    /// order.
    pub fn remove_owned(&mut self, kind: OwnerKind, name: &String)
        ensures
            final(self).nodes@ == without_owned(old(self).nodes@, kind, name@),
            final(self).state == old(self).state,
    {
        let mut kept: Vec<NodeId> = Vec::new();
        let mut i: usize = 0;
        proof {
            assert(without_owned(self.nodes@.subrange(0, 0), kind, name@)
                =~= Seq::<NodeId>::empty());
        }
        while i < self.nodes.len()
            invariant
                i <= self.nodes@.len(),
                kept@ == without_owned(self.nodes@.subrange(0, i as int), kind, name@),
            decreases self.nodes@.len() - i,
        {
            let ghost prefix = self.nodes@.subrange(0, i as int);
            let node = &self.nodes[i];
            let keep = !(node.kind == kind && node.owner == *name);
            if keep {
                kept.push(node.dup());
            }
            proof {
                let pred = not_owned_pred(kind, name@);
                assert(keep == pred(self.nodes@[i as int]));
                assert(self.nodes@.subrange(0, i + 1) =~= prefix.push(self.nodes@[i as int]));
                lemma_filter_push(prefix, pred, self.nodes@[i as int]);
            }
            i = i + 1;
        }
        proof {
            assert(self.nodes@.subrange(0, self.nodes@.len() as int) =~= self.nodes@);
        }
        self.nodes = kept;
    }
}

/// Filtering keeps a sequence whole when the predicate holds everywhere in
/// it.
pub proof fn lemma_filter_retains_all<A>(s: Seq<A>, pred: spec_fn(A) -> bool)
    requires
        forall|i: int| 0 <= i < s.len() ==> pred(#[trigger] s[i]),
    ensures
        s.filter(pred) == s,
    decreases s.len(),
{
    reveal(Seq::filter);
    if s.len() > 0 {
        lemma_filter_retains_all(s.drop_last(), pred);
        assert(s =~= s.drop_last().push(s.last()));
        assert(s.filter(pred) =~= s);
    } else {
        assert(s.filter(pred) =~= s);
    }
}

/// Filtering a sequence extended by one element keeps the element exactly
/// when the predicate holds of it.
pub proof fn lemma_filter_push<A>(s: Seq<A>, pred: spec_fn(A) -> bool, x: A)
    ensures
        s.push(x).filter(pred) == if pred(x) {
            s.filter(pred).push(x)
        } else {
            s.filter(pred)
        },
{
    reveal(Seq::filter);
    assert(s.push(x).drop_last() =~= s);
    assert(s.push(x).last() == x);
}

} // verus!
