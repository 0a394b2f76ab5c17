//! The scan of the PipeWire registry for the screen-cast node that the
//! desktop portal handed out: each video node seen is noted with a label
//! and a connection target, and the portal's node is then looked up.

use vstd::prelude::*;
use crate::text::owned;

verus! {

/// A node seen in the registry.
#[derive(Debug)]
pub struct NodeInfo {
    pub id: u32,
    /// `node.name`, else `media.class`, else `?`.
    pub label: String,
    /// `object.serial`, else `node.name`, if either is set.
    pub target: Option<String>,
}

/// The first of two optional properties that is set.
pub open spec fn first_set(a: Option<Seq<char>>, b: Option<Seq<char>>) -> Option<Seq<char>> {
    match a {
        Some(x) => Some(x),
        None => b,
    }
}

/// The view of an optional string.
pub open spec fn opt_chars(o: Option<&str>) -> Option<Seq<char>> {
    match o {
        Some(s) => Some(s@),
        None => None,
    }
}

/// The view of an optional owned string.
pub open spec fn opt_string(o: Option<String>) -> Option<Seq<char>> {
    match o {
        Some(s) => Some(s@),
        None => None,
    }
}

/// The nodes seen so far, and the node id the portal gave.
#[derive(Debug)]
pub struct RegistryScan {
    pub portal_node_id: u32,
    pub nodes: Vec<NodeInfo>,
}

/// Some node of `nodes` has id `id`.
pub open spec fn has_node(nodes: Seq<NodeInfo>, id: u32) -> bool {
    exists|i: int| 0 <= i < nodes.len() && nodes[i].id == id
}

/// The target of the first node of `nodes` with id `id`; `None` when there
/// is no such node or it has no target.
pub open spec fn first_target(nodes: Seq<NodeInfo>, id: u32) -> Option<Seq<char>>
    decreases nodes.len(),
{
    if nodes.len() == 0 {
        None
    } else if nodes[0].id == id {
        opt_string(nodes[0].target)
    } else {
        first_target(nodes.drop_first(), id)
    }
}

impl RegistryScan {
    /// A scan that has seen nothing yet, looking for node `portal_node_id`.
    pub fn new(portal_node_id: u32) -> (s: RegistryScan)
        ensures
            s.portal_node_id == portal_node_id,
            s.nodes@.len() == 0,
    {
        RegistryScan { portal_node_id, nodes: Vec::new() }
    }

    /// Notes a video node from its id and the values of its `node.name`,
    /// `media.class` and `object.serial` properties.
    pub fn note_node(&mut self, id: u32, node_name: Option<&str>, media_class: Option<&str>, object_serial: Option<&str>)
        ensures
            final(self).portal_node_id == old(self).portal_node_id,
            final(self).nodes@.len() == old(self).nodes@.len() + 1,
            forall|i: int| 0 <= i < old(self).nodes@.len() ==> #[trigger] final(self).nodes@[i] == old(self).nodes@[i],
            final(self).nodes@.last().id == id,
            final(self).nodes@.last().label@ == match first_set(opt_chars(node_name), opt_chars(media_class)) {
                Some(l) => l,
                None => seq!['?'],
            },
            opt_string(final(self).nodes@.last().target) == first_set(opt_chars(object_serial), opt_chars(node_name)),
    {
        proof { reveal_strlit("?"); }
        let label = match node_name {
            Some(n) => owned(n),
            None => match media_class {
                Some(c) => owned(c),
                None => owned("?"),
            },
        };
        let target = match object_serial {
            Some(s) => Some(owned(s)),
            None => match node_name {
                Some(n) => Some(owned(n)),
                None => None,
            },
        };
        self.nodes.push(NodeInfo { id, label, target });
    }

    /// Whether the portal's node has been seen.
    pub fn matched_portal_id(&self) -> (r: bool)
        ensures
            r == has_node(self.nodes@, self.portal_node_id),
    {
        let mut i: usize = 0;
        while i < self.nodes.len()
            invariant
                i <= self.nodes@.len(),
                forall|k: int| 0 <= k < i ==> self.nodes@[k].id != self.portal_node_id,
            decreases self.nodes@.len() - i,
        {
            if self.nodes[i].id == self.portal_node_id {
                return true;
            }
            i += 1;
        }
        false
    }

    /// The connection target of the portal's node: that of the first node
    /// seen with its id.
    pub fn portal_target(&self) -> (r: Option<String>)
        ensures
            opt_string(r) == first_target(self.nodes@, self.portal_node_id),
    {
        let ghost all = self.nodes@;
        let mut i: usize = 0;
        assert(all.skip(0) =~= all);
        while i < self.nodes.len()
            invariant
                all == self.nodes@,
                i <= all.len(),
                first_target(all.skip(i as int), self.portal_node_id) == first_target(all, self.portal_node_id),
            decreases all.len() - i,
        {
            if self.nodes[i].id == self.portal_node_id {
                assert(all.skip(i as int)[0] == all[i as int]);
                return match &self.nodes[i].target {
                    Some(t) => Some(t.clone()),
                    None => None,
                };
            }
            assert(all.skip(i as int).drop_first() =~= all.skip(i + 1));
            i += 1;
        }
        None
    }
}

/// Once the portal's node is seen, its target is that of the first node
/// with its id; before it is seen there is none.
pub proof fn lemma_target_needs_match(nodes: Seq<NodeInfo>, id: u32)
    ensures
        !has_node(nodes, id) ==> first_target(nodes, id) is None,
    decreases nodes.len(),
{
    if nodes.len() > 0 && nodes[0].id != id {
        lemma_target_needs_match(nodes.drop_first(), id);
        if !has_node(nodes, id) {
            assert(!has_node(nodes.drop_first(), id)) by {
                if has_node(nodes.drop_first(), id) {
                    let k = choose|k: int| 0 <= k < nodes.drop_first().len() && nodes.drop_first()[k].id == id;
                    assert(nodes[k + 1].id == id);
                }
            }
        }
    }
}

/// The portal's target is the target of the first node seen with its id.
pub proof fn lemma_first_node_wins(nodes: Seq<NodeInfo>, id: u32, i: int)
    requires
        0 <= i < nodes.len(),
        nodes[i].id == id,
        forall|j: int| 0 <= j < i ==> nodes[j].id != id,
    ensures
        first_target(nodes, id) == opt_string(nodes[i].target),
    decreases i,
{
    if i > 0 {
        lemma_first_node_wins(nodes.drop_first(), id, i - 1);
    }
}

} // verus!
