//! PE resource trees.
//!
//! A resource tree is made of directories, which hold further nodes in the
//! order in which the binary lists them, and of data leaves, which hold
//! content. A node is one or the other, never both. The tree is read through
//! a depth-first traversal that is driven by a work list, so that reading a
//! deep tree takes no deep recursion.

use vstd::prelude::*;

verus! {

/// A leaf of the resource tree: the content of one resource.
#[derive(Debug)]
pub struct Data {
    /// The identifier of the node among its siblings.
    pub id: u32,
    /// The distance of the node from the root of its tree.
    pub depth: u32,
    pub code_page: u32,
    pub reserved: u32,
    /// Where the content stands in the binary.
    pub offset: u32,
    pub content: Vec<u8>,
}

/// The header of a directory of the resource tree.
#[derive(Debug, Clone, Copy, PartialEq, Eq, Structural, Default)]
pub struct DirectoryHeader {
    /// The identifier of the node among its siblings.
    pub id: u32,
    pub characteristics: u32,
    pub timedatestamp: u32,
    pub major_version: u16,
    pub minor_version: u16,
    pub numberof_name_entries: u16,
    pub numberof_id_entries: u16,
}

/// An inner node of the resource tree.
///
/// Every child of a directory stands one level below it.
#[derive(Debug)]
pub struct Directory {
    header: DirectoryHeader,
    depth: u32,
    children: Vec<Node>,
}

/// A node of the resource tree. Every node is exactly one of the two.
#[derive(Debug)]
pub enum Node {
    Data(Data),
    Directory(Directory),
}

impl Directory {
    /// Every child stands one level below its directory, and what is below
    /// a child is in turn laid out like this.
    #[verifier::type_invariant]
    pub closed spec fn well_formed(&self) -> bool
        decreases self,
    {
        forall|i: int|
            0 <= i < self.children@.len() ==> {
                &&& (#[trigger] self.children@[i]).depth() == self.depth + 1
                &&& self.children@[i].levels_agree()
            }
    }

    /// The header of the directory, in contracts.
    pub closed spec fn spec_header(&self) -> DirectoryHeader {
        self.header
    }

    /// The depth of the directory, in contracts.
    pub closed spec fn spec_depth(&self) -> u32 {
        self.depth
    }

    /// The children of the directory, in contracts.
    pub closed spec fn spec_children(&self) -> &Vec<Node> {
        &self.children
    }

    /// A directory at `depth` with `children`, in this order. The children
    /// have to stand at the level below `depth`, each of them: a directory
    /// with a child at any other level is not made.
    pub fn new(header: DirectoryHeader, depth: u32, children: Vec<Node>) -> (directory: Option<
        Directory,
    >)
        ensures
            directory is Some <==> forall|i: int|
                0 <= i < children@.len() ==> (#[trigger] children@[i]).depth() == depth + 1,
            directory matches Some(d) ==> d.header() == header && d.depth() == depth
                && d.children() == children && d.well_formed(),
    {
        let mut i: usize = 0;
        while i < children.len()
            invariant
                i <= children.len(),
                forall|j: int|
                    0 <= j < i ==> (#[trigger] children@[j]).depth() == depth + 1
                        && children@[j].levels_agree(),
            decreases children.len() - i,
        {
            if depth == u32::MAX || children[i].depth() != depth + 1 {
                return None;
            }
            if let Node::Directory(child) = &children[i] {
                proof {
                    use_type_invariant(child);
                }
            }
            i += 1;
        }
        Some(Directory { header, depth, children })
    }

    /// The header of the directory.
    #[verifier::when_used_as_spec(spec_header)]
    pub fn header(&self) -> (header: DirectoryHeader)
        ensures
            header == self.header(),
    {
        self.header
    }

    /// The distance of the directory from the root of its tree.
    #[verifier::when_used_as_spec(spec_depth)]
    pub fn depth(&self) -> (depth: u32)
        ensures
            depth == self.depth(),
    {
        self.depth
    }

    /// The nodes that the directory holds, in the order of the binary.
    #[verifier::when_used_as_spec(spec_children)]
    pub fn children(&self) -> (children: &Vec<Node>)
        ensures
            children == self.children(),
            forall|i: int|
                0 <= i < children@.len() ==> (#[trigger] children@[i]).depth() == self.depth() + 1
                    && children@[i].levels_agree(),
    {
        proof {
            use_type_invariant(self);
        }
        &self.children
    }
}

impl Node {
    /// The identifier of the node, in contracts.
    pub open spec fn spec_id(&self) -> u32 {
        match self {
            Node::Data(data) => data.id,
            Node::Directory(directory) => directory.header().id,
        }
    }

    /// The depth of the node, in contracts.
    pub open spec fn spec_depth(&self) -> u32 {
        match self {
            Node::Data(data) => data.depth,
            Node::Directory(directory) => directory.depth(),
        }
    }

    /// Whether the depths below this node agree with its own: every node
    /// below it stands one level below its parent. This holds of every node
    /// that the library hands out.
    pub open spec fn levels_agree(&self) -> bool
        decreases self,
    {
        match self {
            Node::Data(_) => true,
            Node::Directory(directory) => directory.well_formed(),
        }
    }

    /// The nodes directly below this one: those of a directory, and none
    /// for a leaf.
    pub open spec fn successors(&self) -> Seq<Node> {
        match self {
            Node::Data(_) => Seq::empty(),
            Node::Directory(directory) => directory.children()@,
        }
    }

    /// The identifier of the node among its siblings.
    #[verifier::when_used_as_spec(spec_id)]
    pub fn id(&self) -> (id: u32)
        ensures
            id == self.id(),
    {
        match self {
            Node::Data(data) => data.id,
            Node::Directory(directory) => directory.header().id,
        }
    }

    /// The distance of the node from the root of its tree.
    #[verifier::when_used_as_spec(spec_depth)]
    pub fn depth(&self) -> (depth: u32)
        ensures
            depth == self.depth(),
    {
        match self {
            Node::Data(data) => data.depth,
            Node::Directory(directory) => directory.depth(),
        }
    }

    /// Whether the node is a directory. A node that is none is a leaf.
    pub fn is_directory(&self) -> (answer: bool)
        ensures
            answer == (self is Directory),
            answer != (self is Data),
    {
        match self {
            Node::Data(_) => false,
            Node::Directory(_) => true,
        }
    }
}

/// One step of a traversal, as contracts speak of it: a node and the depth
/// at which the traversal met it.
pub ghost struct Step {
    pub depth: nat,
    pub node: Node,
}

/// The depth-first traversal of the tree below `node`, with `node` itself
/// met at `depth`: first the node, then the traversal of each of its
/// children in their order, each met one level deeper.
pub open spec fn preorder(node: Node, depth: nat) -> Seq<Step>
    decreases node, 1nat, 0nat,
{
    seq![Step { depth, node }] + preorder_each(node, 0, depth + 1)
}

/// The traversals of the children of `node` from the one at place `from`
/// onwards, one after the other, each child met at `depth`.
pub open spec fn preorder_each(node: Node, from: nat, depth: nat) -> Seq<Step>
    decreases node, 0nat, node.successors().len() - from,
{
    if from < node.successors().len() {
        preorder(node.successors()[from as int], depth) + preorder_each(node, from + 1, depth)
    } else {
        Seq::empty()
    }
}

/// A traversal meets its own node first, at the depth it was started with.
/// Started at depth 0, as every traversal of a tree is, it meets the root at
/// depth 0.
pub proof fn lemma_preorder_starts_at_node(node: Node, depth: nat)
    ensures
        preorder(node, depth).len() >= 1,
        preorder(node, depth).first() == (Step { depth, node }),
{
}

/// The traversals of the children from place `from` onwards end the
/// traversals of all the children.
proof fn lemma_preorder_each_is_suffix(node: Node, from: nat, depth: nat)
    requires
        from <= node.successors().len(),
    ensures
        preorder_each(node, from, depth).len() <= preorder_each(node, 0, depth).len(),
        preorder_each(node, 0, depth).skip(
            preorder_each(node, 0, depth).len() - preorder_each(node, from, depth).len(),
        ) == preorder_each(node, from, depth),
    decreases from,
{
    let all = preorder_each(node, 0, depth);
    if from > 0 {
        let before = (from - 1) as nat;
        lemma_preorder_each_is_suffix(node, before, depth);
        let longer = preorder_each(node, before, depth);
        let shorter = preorder_each(node, from, depth);
        assert(longer.skip(longer.len() - shorter.len()) =~= shorter);
        assert(all.skip(all.len() - shorter.len()) =~= all.skip(all.len() - longer.len()).skip(
            longer.len() - shorter.len(),
        ));
    } else {
        assert(all.skip(0) =~= all);
    }
}

/// A child is met one level below its parent. The traversal of a node holds,
/// after the node itself, the whole traversal of each of its children, at
/// the depth of the node plus one.
pub proof fn lemma_preorder_child_is_one_deeper(node: Node, place: nat, depth: nat)
    requires
        place < node.successors().len(),
    ensures
        exists|at: int|
            {
                &&& 1 <= at
                &&& at + preorder(node.successors()[place as int], depth + 1).len() <= preorder(
                    node,
                    depth,
                ).len()
                &&& #[trigger] preorder(node, depth).subrange(
                    at,
                    at + preorder(node.successors()[place as int], depth + 1).len(),
                ) == preorder(node.successors()[place as int], depth + 1)
                &&& preorder(node, depth)[at] == (Step {
                    depth: depth + 1,
                    node: node.successors()[place as int],
                })
            },
{
    let all = preorder_each(node, 0, depth + 1);
    let from_place = preorder_each(node, place, depth + 1);
    let below = preorder(node.successors()[place as int], depth + 1);
    lemma_preorder_each_is_suffix(node, place, depth + 1);
    let at = 1 + all.len() - from_place.len();
    assert(from_place.subrange(0, below.len() as int) =~= below);
    assert(preorder(node, depth).subrange(at, at + below.len()) =~= all.skip(
        all.len() - from_place.len(),
    ).subrange(0, below.len() as int));
    assert(preorder(node, depth)[at] == preorder(node, depth).subrange(at, at + below.len())[0]);
}

/// The depth at which a traversal meets a node is the distance of the node
/// from the node where the traversal started: the two nodes stand as many
/// levels apart in the tree as the traversal says. In a traversal from the
/// root of a tree, which stands at depth 0, every node is met at its own
/// depth.
pub proof fn lemma_traversal_depth_is_distance(node: Node, depth: nat)
    requires
        node.levels_agree(),
    ensures
        forall|i: int|
            0 <= i < preorder(node, depth).len() ==> (#[trigger] preorder(node, depth)[i]).depth
                - depth == preorder(node, depth)[i].node.depth() - node.depth(),
    decreases node, 1nat, 0nat,
{
    lemma_children_depth_is_distance(node, 0, depth + 1);
}

/// The same of the children of `node` from place `from` onwards, which
/// stand one level below `node` and are met at `depth`.
proof fn lemma_children_depth_is_distance(node: Node, from: nat, depth: nat)
    requires
        node.levels_agree(),
    ensures
        forall|i: int|
            0 <= i < preorder_each(node, from, depth).len() ==> (#[trigger] preorder_each(
                node,
                from,
                depth,
            )[i]).depth - depth == preorder_each(node, from, depth)[i].node.depth() - (node.depth()
                + 1),
    decreases node, 0nat, node.successors().len() - from,
{
    if from < node.successors().len() {
        let child = node.successors()[from as int];
        lemma_traversal_depth_is_distance(child, depth);
        lemma_children_depth_is_distance(node, from + 1, depth);
    }
}

/// A node as a traversal hands it out: the node, borrowed from the tree,
/// and its depth in the traversal. The node where a traversal starts is at
/// depth 0, whatever its place in a larger tree.
#[derive(Debug, Clone, Copy)]
pub struct Visit<'a> {
    pub depth: u32,
    pub node: &'a Node,
}

impl<'a> View for Visit<'a> {
    type V = Step;

    open spec fn view(&self) -> Step {
        Step { depth: self.depth as nat, node: *self.node }
    }
}

/// What a work list still has to hand out: the traversal of its last entry,
/// then that of the entry before it, and so on down to the first.
pub open spec fn pending_steps<'a>(pending: Seq<Visit<'a>>) -> Seq<Step>
    decreases pending.len(),
{
    if pending.len() == 0 {
        Seq::empty()
    } else {
        preorder(*pending.last().node, pending.last().depth as nat) + pending_steps(
            pending.drop_last(),
        )
    }
}

/// A work list with one more entry hands out that entry's traversal first.
proof fn lemma_pending_steps_push<'a>(pending: Seq<Visit<'a>>, visit: Visit<'a>)
    ensures
        pending_steps(pending.push(visit)) == preorder(*visit.node, visit.depth as nat)
            + pending_steps(pending),
{
    assert(pending.push(visit).drop_last() =~= pending);
}

/// A depth-first traversal in progress.
///
/// The traversal hands out one node at a time and keeps a work list of the
/// subtrees that are still to come, so it descends no deeper on the stack
/// for a deep tree than for a flat one. It borrows the tree and changes
/// nothing in it: a traversal that is started again hands out the same nodes.
#[derive(Debug)]
pub struct Traversal<'a> {
    pending: Vec<Visit<'a>>,
}

impl<'a> Traversal<'a> {
    /// No entry of the work list is deeper in the traversal than its node
    /// is in its tree.
    #[verifier::type_invariant]
    pub closed spec fn well_formed(&self) -> bool {
        forall|i: int|
            0 <= i < self.pending@.len() ==> (#[trigger] self.pending@[i]).depth
                <= self.pending@[i].node.depth()
    }

    /// The steps that the traversal has not handed out yet, next one first.
    pub closed spec fn remaining(&self) -> Seq<Step> {
        pending_steps(self.pending@)
    }

    /// Hands out the next node of the traversal, or `None` when it is over.
    pub fn next(&mut self) -> (visit: Option<Visit<'a>>)
        ensures
            match visit {
                Some(v) => {
                    &&& old(self).remaining().len() > 0
                    &&& v@ == old(self).remaining().first()
                    &&& final(self).remaining() == old(self).remaining().drop_first()
                },
                None => old(self).remaining().len() == 0 && final(self).remaining().len() == 0,
            },
    {
        proof {
            use_type_invariant(&*self);
        }
        let mut pending: Vec<Visit<'a>> = Vec::new();
        core::mem::swap(&mut self.pending, &mut pending);
        let ghost before = pending@;
        let next = pending.pop();
        if let Some(visit) = next {
            let ghost rest = pending_steps(before.drop_last());
            assert(pending@ == before.drop_last());
            if let Node::Directory(directory) = visit.node {
                let children = directory.children();
                let mut i = children.len();
                while i > 0
                    invariant
                        i <= children@.len(),
                        children@ == visit.node.successors(),
                        visit.depth <= directory.depth(),
                        forall|j: int|
                            0 <= j < children@.len() ==> (#[trigger] children@[j]).depth()
                                == directory.depth() + 1,
                        forall|j: int|
                            0 <= j < pending@.len() ==> (#[trigger] pending@[j]).depth
                                <= pending@[j].node.depth(),
                        pending_steps(pending@) == preorder_each(
                            *visit.node,
                            i as nat,
                            visit.depth as nat + 1,
                        ) + rest,
                    decreases i,
                {
                    i -= 1;
                    assert(children@[i as int].depth() == directory.depth() + 1);
                    let child = Visit { depth: visit.depth + 1, node: &children[i] };
                    proof {
                        lemma_pending_steps_push(pending@, child);
                    }
                    pending.push(child);
                }
            }
            assert(old(self).remaining() == seq![visit@] + preorder_each(
                *visit.node,
                0,
                visit.depth as nat + 1,
            ) + rest);
            assert(pending_steps(pending@) =~= old(self).remaining().drop_first());
        }
        self.pending = pending;
        next
    }
}

impl Node {
    /// Starts a traversal of the tree below this node, which is met first,
    /// at depth 0.
    pub fn walk(&self) -> (traversal: Traversal<'_>)
        ensures
            traversal.remaining() == preorder(*self, 0),
            self.levels_agree(),
    {
        if let Node::Directory(directory) = self {
            proof {
                use_type_invariant(directory);
            }
        }
        let mut pending = Vec::new();
        let start = Visit { depth: 0, node: self };
        proof {
            lemma_pending_steps_push(pending@, start);
        }
        pending.push(start);
        Traversal { pending }
    }

    /// The whole traversal of the tree below this node, depth first: the
    /// node itself at depth 0, then each child with all that is below it, a
    /// child always one level deeper than its parent.
    pub fn traverse(&self) -> (visits: Vec<Visit<'_>>)
        ensures
            visits@.map_values(|visit: Visit| visit@) == preorder(*self, 0),
            self.levels_agree(),
    {
        let mut traversal = self.walk();
        let mut visits = Vec::new();
        loop
            invariant
                visits@.map_values(|visit: Visit| visit@) + traversal.remaining() == preorder(
                    *self,
                    0,
                ),
            ensures
                traversal.remaining().len() == 0,
            decreases traversal.remaining().len(),
        {
            match traversal.next() {
                Some(visit) => {
                    visits.push(visit);
                },
                None => {
                    break ;
                },
            }
        }
        visits
    }
}

/// A whole resource tree: its root, which stands at depth 0, with all that
/// is below it.
#[derive(Debug)]
pub struct Tree {
    root: Node,
}

impl Tree {
    /// The root of a tree stands at depth 0.
    #[verifier::type_invariant]
    pub closed spec fn well_formed(&self) -> bool {
        self.root.depth() == 0 && self.root.levels_agree()
    }

    /// The root of the tree, in contracts.
    pub closed spec fn spec_root(&self) -> &Node {
        &self.root
    }

    /// The tree below `root`. Only a node at depth 0 is the root of a tree.
    pub fn new(root: Node) -> (tree: Option<Tree>)
        ensures
            tree is Some <==> root.depth() == 0,
            tree matches Some(t) ==> *t.root() == root,
    {
        if root.depth() != 0 {
            return None;
        }
        if let Node::Directory(directory) = &root {
            proof {
                use_type_invariant(directory);
            }
        }
        Some(Tree { root })
    }

    /// The root of the tree.
    #[verifier::when_used_as_spec(spec_root)]
    pub fn root(&self) -> (root: &Node)
        ensures
            root == self.root(),
            root.depth() == 0,
            root.levels_agree(),
    {
        proof {
            use_type_invariant(self);
        }
        &self.root
    }

    /// The traversal of the whole tree, depth first from the root. Every
    /// node is met at its own depth: the root at 0, a child one level below
    /// its parent.
    pub fn traverse(&self) -> (visits: Vec<Visit<'_>>)
        ensures
            visits@.map_values(|visit: Visit| visit@) == preorder(*self.root(), 0),
            forall|i: int|
                0 <= i < visits@.len() ==> (#[trigger] visits@[i]).depth == visits@[i].node.depth(),
    {
        let visits = self.root().traverse();
        proof {
            lemma_traversal_depth_is_distance(*self.root(), 0);
            let steps = visits@.map_values(|visit: Visit| visit@);
            assert forall|i: int| 0 <= i < visits@.len() implies (#[trigger] visits@[i]).depth
                == visits@[i].node.depth() by {
                assert(steps[i] == visits@[i]@);
            }
        }
        visits
    }
}

} // verus!
