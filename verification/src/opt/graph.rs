//! The program graph: basic blocks of operations joined by control edges, and the
//! registry of slice lengths that is built beside it.

use vstd::prelude::*;
use std::collections::HashMap;
use crate::ir::operation::{Branch, Operation};

verus! {

broadcast use vstd::std_specs::hash::group_hash_axioms;

/// What is known of a slice at compile time.
#[derive(Clone, Copy, Debug, PartialEq, Eq, Structural)]
pub struct Slice {
    /// The number of elements, where the slice was made from a source of fixed length.
    pub const_len: Option<u32>,
}

/// The slices of a program, each found by its id and nesting depth.
pub struct SliceRegistry {
    entries: HashMap<u64, Slice>,
}

impl View for SliceRegistry {
    type V = Map<(u16, u8), Slice>;

    closed spec fn view(&self) -> Map<(u16, u8), Slice> {
        Map::new(
            |k: (u16, u8)| self.entries@.contains_key(Self::key(k.0, k.1)),
            |k: (u16, u8)| self.entries@[Self::key(k.0, k.1)],
        )
    }
}

impl SliceRegistry {
    /// The one number under which the slice `(id, depth)` is filed.
    pub open spec fn key(id: u16, depth: u8) -> u64 {
        (id as u64 * 256 + depth as u64) as u64
    }

    /// A registry without entries.
    pub fn new() -> (r: SliceRegistry)
        ensures
            r@ == Map::<(u16, u8), Slice>::empty(),
    {
        let r = SliceRegistry { entries: HashMap::new() };
        assert(r@ =~= Map::<(u16, u8), Slice>::empty());
        r
    }

    /// Records `slice` under `(id, depth)`, in place of what was recorded there.
    pub fn insert(&mut self, id: u16, depth: u8, slice: Slice)
        ensures
            final(self)@ == old(self)@.insert((id, depth), slice),
    {
        let key: u64 = id as u64 * 256 + depth as u64;
        self.entries.insert(key, slice);
        assert(self@ =~= old(self)@.insert((id, depth), slice));
    }

    /// What is recorded under `(id, depth)`.
    pub fn get(&self, id: u16, depth: u8) -> (r: Option<Slice>)
        ensures
            r == if self@.contains_key((id, depth)) {
                Some(self@[(id, depth)])
            } else {
                None
            },
    {
        let key: u64 = id as u64 * 256 + depth as u64;
        match self.entries.get(&key) {
            Some(slice) => Some(*slice),
            None => None,
        }
    }
}

/// The statically known length of the slice `(id, depth)`, if the registry has one.
pub open spec fn known_length(slices: Map<(u16, u8), Slice>, id: u16, depth: u8) -> Option<u32> {
    if slices.contains_key((id, depth)) {
        slices[(id, depth)].const_len
    } else {
        None
    }
}

/// A basic block: operations in order, and the blocks that control may pass to.
pub struct BasicBlock {
    pub ops: Vec<Operation>,
    pub successors: Vec<usize>,
}

/// A whole program: its blocks in construction order and its slice registry.
pub struct Program {
    pub nodes: Vec<BasicBlock>,
    pub slices: SliceRegistry,
}

/// Whether an operation ends a block by transferring control.
pub open spec fn is_terminator(op: Operation) -> bool {
    op matches Operation::Branch(branch) && !(branch is Select)
}

impl BasicBlock {
    /// A block without operations or successors.
    pub fn new() -> (r: BasicBlock)
        ensures
            r.ops@ == Seq::<Operation>::empty(),
            r.successors@ == Seq::<usize>::empty(),
    {
        BasicBlock { ops: Vec::new(), successors: Vec::new() }
    }

    /// No variable is written by two operations of the block.
    pub open spec fn single_assignment(&self) -> bool {
        forall|i: int, j: int|
            0 <= i < j < self.ops.len() && (#[trigger] self.ops[i].spec_out()) is Some ==> (
            #[trigger] self.ops[j].spec_out()) != self.ops[i].spec_out()
    }

    /// A block from which control may pass to several blocks ends in a control transfer.
    pub open spec fn terminated(&self) -> bool {
        self.successors.len() > 1 ==> self.ops.len() > 0 && is_terminator(
            self.ops[self.ops.len() - 1],
        )
    }
}

impl Program {
    /// A program without blocks or slices.
    pub fn new() -> (r: Program)
        ensures
            r.nodes@ == Seq::<BasicBlock>::empty(),
            r.slices@ == Map::<(u16, u8), Slice>::empty(),
            r.well_formed(),
    {
        Program { nodes: Vec::new(), slices: SliceRegistry::new() }
    }

    /// The operation at position `index` of block `node`.
    pub open spec fn op_at(&self, node: int, index: int) -> Operation {
        self.nodes[node].ops[index]
    }

    /// Whether `(node, index)` is a position of the program.
    pub open spec fn has_position(&self, node: int, index: int) -> bool {
        0 <= node < self.nodes.len() && 0 <= index < self.nodes[node].ops.len()
    }

    /// The operations of every block, block by block.
    pub open spec fn operations(&self) -> Seq<Seq<Operation>> {
        Seq::new(self.nodes@.len(), |n: int| self.nodes[n].ops@)
    }

    /// Whether `other` has the blocks, the edges, the slice registry and, in each block,
    /// the number of operations that this program has.
    pub open spec fn same_shape(&self, other: &Program) -> bool {
        &&& self.nodes.len() == other.nodes.len()
        &&& self.slices@ == other.slices@
        &&& forall|n: int|
            0 <= n < self.nodes.len() ==> {
                &&& (#[trigger] self.nodes[n]).ops.len() == other.nodes[n].ops.len()
                &&& self.nodes[n].successors@ == other.nodes[n].successors@
            }
    }

    /// Every edge leads to a block of the program, every block that branches ends in a
    /// control transfer, and no block writes a variable twice.
    pub open spec fn well_formed(&self) -> bool {
        forall|n: int|
            0 <= n < self.nodes.len() ==> {
                &&& (#[trigger] self.nodes[n]).single_assignment()
                &&& self.nodes[n].terminated()
                &&& forall|e: int|
                    0 <= e < self.nodes[n].successors.len() ==> (
                    #[trigger] self.nodes[n].successors[e]) < self.nodes.len()
            }
    }

    /// The number of blocks.
    pub fn node_count(&self) -> (r: usize)
        ensures
            r == self.nodes.len(),
    {
        self.nodes.len()
    }

    /// Appends a block holding `ops`, with no successor yet, and returns its index.
    pub fn add_node(&mut self, ops: Vec<Operation>) -> (node: usize)
        ensures
            node == old(self).nodes.len(),
            final(self).nodes.len() == old(self).nodes.len() + 1,
            final(self).nodes[node as int].ops@ == ops@,
            final(self).nodes[node as int].successors@ == Seq::<usize>::empty(),
            forall|n: int| 0 <= n < old(self).nodes.len() ==> final(self).nodes[n] == old(self).nodes[n],
            final(self).slices@ == old(self).slices@,
    {
        let node = self.nodes.len();
        self.nodes.push(BasicBlock { ops, successors: Vec::new() });
        node
    }

    /// Adds a control edge from block `from` to block `to`.
    pub fn add_edge(&mut self, from: usize, to: usize)
        requires
            from < old(self).nodes.len(),
            to < old(self).nodes.len(),
        ensures
            final(self).nodes.len() == old(self).nodes.len(),
            final(self).nodes[from as int].ops@ == old(self).nodes[from as int].ops@,
            final(self).nodes[from as int].successors@ == old(self).nodes[from as int].successors@.push(to),
            forall|n: int|
                0 <= n < old(self).nodes.len() && n != from ==> final(self).nodes[n] == old(self).nodes[n],
            final(self).slices@ == old(self).slices@,
    {
        self.nodes[from].successors.push(to);
    }

    /// The operation at position `index` of block `node`, if there is such a position.
    pub fn get_op(&self, node: usize, index: usize) -> (r: Option<Operation>)
        ensures
            r == if self.has_position(node as int, index as int) {
                Some(self.op_at(node as int, index as int))
            } else {
                None
            },
    {
        if node < self.nodes.len() && index < self.nodes[node].ops.len() {
            Some(self.nodes[node].ops[index])
        } else {
            None
        }
    }

    /// Puts `op` at position `index` of block `node`, in place of what stood there.
    pub fn replace_op(&mut self, node: usize, index: usize, op: Operation)
        requires
            old(self).has_position(node as int, index as int),
        ensures
            final(self).same_shape(old(self)),
            final(self).op_at(node as int, index as int) == op,
            forall|n: int, i: int|
                old(self).has_position(n, i) && (n != node || i != index) ==> final(self).op_at(n, i)
                    == old(self).op_at(n, i),
    {
        self.nodes[node].ops[index] = op;
    }
}

/// The optimizer's state: the program that the passes rewrite in place.
pub struct Optimizer {
    pub program: Program,
}

impl Optimizer {
    /// An optimizer over `program`.
    pub fn new(program: Program) -> (r: Optimizer)
        ensures
            r.program == program,
    {
        Optimizer { program }
    }

    /// The indices of the blocks, in construction order.
    pub fn node_ids(&self) -> (ids: Vec<usize>)
        ensures
            ids.len() == self.program.nodes.len(),
            forall|n: int| 0 <= n < ids.len() ==> ids[n] == n,
    {
        let mut ids: Vec<usize> = Vec::new();
        let mut n: usize = 0;
        while n < self.program.nodes.len()
            invariant
                n <= self.program.nodes.len(),
                ids.len() == n,
                forall|k: int| 0 <= k < n ==> ids[k] == k,
            decreases self.program.nodes.len() - n,
        {
            ids.push(n);
            n = n + 1;
        }
        ids
    }
}

/// A count of replacements, handed to each pass of one round. It stops at the largest
/// number it can hold, so it is zero exactly when nothing was counted.
pub struct ChangeCounter {
    count: usize,
}

impl ChangeCounter {
    /// The number counted so far.
    pub closed spec fn value(&self) -> nat {
        self.count as nat
    }

    /// The counter never reads more than the machine's largest number.
    pub proof fn lemma_value_bounded(&self)
        ensures
            self.value() <= usize::MAX,
    {
    }

    /// What the counter holds after `n` more replacements.
    pub open spec fn after(&self, n: nat) -> nat {
        if self.value() + n > usize::MAX {
            usize::MAX as nat
        } else {
            self.value() + n
        }
    }

    /// A counter at zero.
    pub fn new() -> (r: ChangeCounter)
        ensures
            r.value() == 0,
    {
        ChangeCounter { count: 0 }
    }

    /// Counts one replacement.
    pub fn inc(&mut self)
        ensures
            final(self).value() == old(self).after(1),
    {
        if self.count < usize::MAX {
            self.count = self.count + 1;
        }
    }

    /// The number counted so far.
    pub fn get(&self) -> (r: usize)
        ensures
            r == self.value(),
    {
        self.count
    }
}

} // verus!
