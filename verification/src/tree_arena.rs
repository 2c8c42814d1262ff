//! The storage behind the widget tree, as far as a reader of the tree needs
//! it: nodes that own their children, and borrowed handles that find a child
//! by its raw identifier.

use vstd::prelude::*;

use crate::search::{first_index, lemma_first_index};

verus! {

/// One node of the storage: an item, the raw identifier it is stored under,
/// and the nodes below it.
pub struct TreeNode<T> {
    pub id: u64,
    pub item: T,
    pub children: Vec<TreeNode<T>>,
}

/// A borrowed item together with the handle to the nodes below it.
pub struct ArenaRef<'a, T> {
    pub item: &'a T,
    pub children: ArenaRefChildren<'a, T>,
}

/// A borrowed handle to the nodes directly below one place in the storage.
pub struct ArenaRefChildren<'a, T> {
    pub nodes: &'a Vec<TreeNode<T>>,
}

impl<'a, T> Clone for ArenaRefChildren<'a, T> {
    fn clone(&self) -> (copy: Self)
        ensures
            copy == *self,
    {
        ArenaRefChildren { nodes: self.nodes }
    }
}

impl<'a, T> Copy for ArenaRefChildren<'a, T> {

}

/// The property of a node that it is stored under `id`.
pub open spec fn stored_under<T>(id: u64) -> spec_fn(TreeNode<T>) -> bool {
    |node: TreeNode<T>| node.id == id
}

impl<T> TreeNode<T> {
    /// A node without children.
    pub fn new(id: u64, item: T) -> (node: TreeNode<T>)
        ensures
            node.id == id,
            node.item == item,
            node.children@ == Seq::<TreeNode<T>>::empty(),
    {
        TreeNode { id, item, children: Vec::new() }
    }

    /// A borrowed view of the node's item, with the handle to the nodes
    /// below it.
    pub fn arena_ref<'a>(&'a self) -> (view: ArenaRef<'a, T>)
        ensures
            view.item == &self.item,
            view.children.nodes == &self.children,
    {
        ArenaRef { item: &self.item, children: ArenaRefChildren { nodes: &self.children } }
    }

    /// Puts `child` behind the children that `self` already has.
    pub fn push_child(&mut self, child: TreeNode<T>)
        ensures
            final(self).id == old(self).id,
            final(self).item == old(self).item,
            final(self).children@ == old(self).children@.push(child),
    {
        self.children.push(child);
    }
}

impl<'a, T> ArenaRefChildren<'a, T> {
    /// Whether a node directly below is stored under `id`.
    pub open spec fn has_child(self, id: u64) -> bool {
        0 <= first_index(self.nodes@, stored_under(id), 0) < self.nodes@.len()
    }

    /// The first node directly below that is stored under `id`.
    pub open spec fn child(self, id: u64) -> ArenaRef<'a, T> {
        let node = self.nodes@[first_index(self.nodes@, stored_under(id), 0)];
        ArenaRef { item: &node.item, children: ArenaRefChildren { nodes: &node.children } }
    }

    /// What a lookup of `id` gives.
    pub open spec fn spec_into_child(self, id: u64) -> Option<ArenaRef<'a, T>> {
        if self.has_child(id) {
            Some(self.child(id))
        } else {
            None
        }
    }

    /// A handle to `nodes`, taken as the nodes below one place.
    pub fn new(nodes: &'a Vec<TreeNode<T>>) -> (handle: ArenaRefChildren<'a, T>)
        ensures
            handle.nodes == nodes,
    {
        ArenaRefChildren { nodes }
    }

    /// Looks among the nodes directly below for the first one stored under
    /// `id`.
    pub fn into_child(self, id: u64) -> (found: Option<ArenaRef<'a, T>>)
        ensures
            found == self.spec_into_child(id),
            found is Some <==> exists|i: int|
                0 <= i < self.nodes@.len() && (#[trigger] self.nodes@[i]).id == id,
    {
        let nodes = self.nodes;
        let ghost wanted = stored_under::<T>(id);
        proof {
            lemma_first_index(nodes@, wanted, 0);
        }
        let mut i: usize = 0;
        while i < nodes.len()
            invariant
                nodes == self.nodes,
                wanted == stored_under::<T>(id),
                0 <= i <= nodes.len(),
                first_index(nodes@, wanted, 0) == first_index(nodes@, wanted, i as int),
            decreases nodes.len() - i,
        {
            if nodes[i].id == id {
                assert(wanted(nodes@[i as int]));
                return Some(
                    ArenaRef {
                        item: &nodes[i].item,
                        children: ArenaRefChildren { nodes: &nodes[i].children },
                    },
                );
            }
            assert(!wanted(nodes@[i as int]));
            i += 1;
        }
        None
    }
}

} // verus!
