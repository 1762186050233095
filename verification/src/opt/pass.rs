//! What a pass is: a rule that rewrites one operation at a time, applied at every
//! position of the program while the replacements are counted.

use vstd::prelude::*;
use crate::ir::operation::Operation;
use crate::opt::graph::{is_terminator, ChangeCounter, Optimizer, Program, Slice, SliceRegistry};

verus! {

/// A local rewrite: it looks at one operation and the slice registry, and either leaves
/// the operation alone or names the operation that takes its place.
pub trait RewriteRule {
    /// The operations that the rule may be shown. A rule that evaluates constants asks
    /// that they be well typed.
    spec fn accepts(&self, op: Operation) -> bool;

    /// The operation that takes the place of `op`, or `None` where the rule leaves it.
    spec fn rewritten(&self, op: Operation, slices: Map<(u16, u8), Slice>) -> Option<Operation>;

    /// Applies the rule to one operation.
    fn rewrite(&self, op: &Operation, slices: &SliceRegistry) -> (r: Option<Operation>)
        requires
            self.accepts(*op),
        ensures
            r == self.rewritten(*op, slices@),
    ;

    /// What holds of every rule: a replacement is a plain assignment to the variable
    /// that the replaced operation wrote, and a plain assignment or a control transfer
    /// is never replaced. So what a rule has rewritten it leaves alone from then on.
    proof fn lemma_rewritten(&self, op: Operation, slices: Map<(u16, u8), Slice>)
        ensures
            op.is_assign() ==> self.accepts(op),
            match self.rewritten(op, slices) {
                Some(new_op) => {
                    &&& new_op.is_assign()
                    &&& new_op.spec_out() == op.spec_out()
                    &&& !op.is_assign()
                    &&& !is_terminator(op)
                },
                None => true,
            },
    ;
}

/// What a rule makes of an operation: its replacement, or the operation itself.
pub open spec fn applied<R: RewriteRule>(
    rule: &R,
    op: Operation,
    slices: Map<(u16, u8), Slice>,
) -> Operation {
    match rule.rewritten(op, slices) {
        Some(new_op) => new_op,
        None => op,
    }
}

/// The number of operations of one block that a rule replaces.
pub open spec fn rewrites_in_block<R: RewriteRule>(
    rule: &R,
    ops: Seq<Operation>,
    slices: Map<(u16, u8), Slice>,
) -> nat
    decreases ops.len(),
{
    if ops.len() == 0 {
        0
    } else {
        rewrites_in_block(rule, ops.drop_last(), slices) + if rule.rewritten(ops.last(), slices) is Some {
            1nat
        } else {
            0nat
        }
    }
}

/// The number of operations of a whole program that a rule replaces.
pub open spec fn rewrites_in<R: RewriteRule>(
    rule: &R,
    blocks: Seq<Seq<Operation>>,
    slices: Map<(u16, u8), Slice>,
) -> nat
    decreases blocks.len(),
{
    if blocks.len() == 0 {
        0
    } else {
        rewrites_in(rule, blocks.drop_last(), slices) + rewrites_in_block(
            rule,
            blocks.last(),
            slices,
        )
    }
}

/// Whether a rule accepts every operation of a program.
pub open spec fn accepts_all<R: RewriteRule>(rule: &R, program: &Program) -> bool {
    forall|n: int, i: int|
        program.has_position(n, i) ==> rule.accepts(#[trigger] program.op_at(n, i))
}

/// Whether `after` is `before` with the rule applied at every position: the same
/// blocks, edges and slices, and at each position what the rule makes of the operation
/// that stood there.
pub open spec fn is_rewrite_of<R: RewriteRule>(rule: &R, after: &Program, before: &Program) -> bool {
    &&& after.same_shape(before)
    &&& forall|n: int, i: int|
        before.has_position(n, i) ==> #[trigger] after.op_at(n, i) == applied(
            rule,
            before.op_at(n, i),
            before.slices@,
        )
}

/// A rule counts no replacement in a block exactly when it leaves every operation of it.
pub proof fn lemma_no_rewrites_in_block<R: RewriteRule>(
    rule: &R,
    ops: Seq<Operation>,
    slices: Map<(u16, u8), Slice>,
)
    ensures
        rewrites_in_block(rule, ops, slices) == 0 <==> forall|i: int|
            0 <= i < ops.len() ==> rule.rewritten(#[trigger] ops[i], slices) is None,
    decreases ops.len(),
{
    if ops.len() > 0 {
        lemma_no_rewrites_in_block(rule, ops.drop_last(), slices);
        if rewrites_in_block(rule, ops, slices) == 0 {
            assert forall|i: int| 0 <= i < ops.len() implies rule.rewritten(
                #[trigger] ops[i],
                slices,
            ) is None by {
                if i < ops.len() - 1 {
                    assert(ops.drop_last()[i] == ops[i]);
                }
            }
        } else if forall|i: int| 0 <= i < ops.len() ==> rule.rewritten(#[trigger] ops[i], slices) is None {
            assert forall|i: int| 0 <= i < ops.drop_last().len() implies rule.rewritten(
                #[trigger] ops.drop_last()[i],
                slices,
            ) is None by {}
        }
    }
}

/// A rule counts no replacement in a program exactly when it leaves every operation.
pub proof fn lemma_no_rewrites<R: RewriteRule>(
    rule: &R,
    blocks: Seq<Seq<Operation>>,
    slices: Map<(u16, u8), Slice>,
)
    ensures
        rewrites_in(rule, blocks, slices) == 0 <==> forall|n: int, i: int|
            0 <= n < blocks.len() && 0 <= i < blocks[n].len() ==> rule.rewritten(
                #[trigger] blocks[n][i],
                slices,
            ) is None,
    decreases blocks.len(),
{
    if blocks.len() > 0 {
        let rest = blocks.drop_last();
        lemma_no_rewrites(rule, rest, slices);
        lemma_no_rewrites_in_block(rule, blocks.last(), slices);
        if rewrites_in(rule, blocks, slices) == 0 {
            assert forall|n: int, i: int|
                0 <= n < blocks.len() && 0 <= i < blocks[n].len() implies rule.rewritten(
                #[trigger] blocks[n][i],
                slices,
            ) is None by {
                if n < blocks.len() - 1 {
                    assert(rule.rewritten(rest[n][i], slices) is None);
                } else {
                }
            }
        } else if forall|n: int, i: int|
            0 <= n < blocks.len() && 0 <= i < blocks[n].len() ==> rule.rewritten(
                #[trigger] blocks[n][i],
                slices,
            ) is None {
            assert forall|n: int, i: int|
                0 <= n < rest.len() && 0 <= i < rest[n].len() implies rule.rewritten(
                #[trigger] rest[n][i],
                slices,
            ) is None by {}
            assert forall|i: int| 0 <= i < blocks.last().len() implies rule.rewritten(
                #[trigger] blocks.last()[i],
                slices,
            ) is None by {}
        }
    }
}

/// The counter's reading after `n` replacements were counted from a reading of `start`.
pub open spec fn saturated(start: nat, n: nat) -> nat {
    if start + n > usize::MAX {
        usize::MAX as nat
    } else {
        start + n
    }
}

/// Applies a rule at every position of the program, in place, and counts the
/// replacements.
pub fn rewrite_program<R: RewriteRule>(rule: &R, program: &mut Program, changes: &mut ChangeCounter)
    requires
        accepts_all(rule, old(program)),
    ensures
        is_rewrite_of(rule, final(program), old(program)),
        final(changes).value() == saturated(
            old(changes).value(),
            rewrites_in(rule, old(program).operations(), old(program).slices@),
        ),
{
    let ghost before = *program;
    let ghost start = changes.value();
    let ghost slices = program.slices@;
    let ghost blocks = program.operations();
    let mut n: usize = 0;
    proof {
        changes.lemma_value_bounded();
    }
    while n < program.nodes.len()
        invariant
            n <= program.nodes.len(),
            program.same_shape(&before),
            slices == before.slices@,
            blocks == before.operations(),
            accepts_all(rule, &before),
            forall|k: int, i: int|
                before.has_position(k, i) && k < n ==> #[trigger] program.op_at(k, i) == applied(
                    rule,
                    before.op_at(k, i),
                    slices,
                ),
            forall|k: int, i: int|
                before.has_position(k, i) && k >= n ==> #[trigger] program.op_at(k, i)
                    == before.op_at(k, i),
            changes.value() == saturated(start, rewrites_in(rule, blocks.take(n as int), slices)),
        decreases program.nodes.len() - n,
    {
        let ghost block = before.nodes[n as int].ops@;
        let ghost counted = rewrites_in(rule, blocks.take(n as int), slices);
        let mut i: usize = 0;
        while i < program.nodes[n].ops.len()
            invariant
                n < program.nodes.len(),
                i <= program.nodes[n as int].ops.len(),
                program.same_shape(&before),
                slices == before.slices@,
                block == before.nodes[n as int].ops@,
                accepts_all(rule, &before),
                forall|k: int, j: int|
                    before.has_position(k, j) && k < n ==> #[trigger] program.op_at(k, j)
                        == applied(rule, before.op_at(k, j), slices),
                forall|k: int, j: int|
                    before.has_position(k, j) && k > n ==> #[trigger] program.op_at(k, j)
                        == before.op_at(k, j),
                forall|j: int|
                    0 <= j < i ==> #[trigger] program.op_at(n as int, j) == applied(
                        rule,
                        before.op_at(n as int, j),
                        slices,
                    ),
                forall|j: int|
                    i <= j < block.len() ==> #[trigger] program.op_at(n as int, j) == before.op_at(
                        n as int,
                        j,
                    ),
                changes.value() == saturated(
                    start,
                    counted + rewrites_in_block(rule, block.take(i as int), slices),
                ),
            decreases program.nodes[n as int].ops.len() - i,
        {
            let op = program.nodes[n].ops[i];
            proof {
                assert(program.op_at(n as int, i as int) == before.op_at(n as int, i as int));
                assert(block.take(i + 1).drop_last() =~= block.take(i as int));
            }
            match rule.rewrite(&op, &program.slices) {
                Some(new_op) => {
                    program.replace_op(n, i, new_op);
                    changes.inc();
                },
                None => {},
            }
            i = i + 1;
        }
        proof {
            assert(block.take(block.len() as int) =~= block);
            assert(blocks.take(n + 1).drop_last() =~= blocks.take(n as int));
        }
        n = n + 1;
    }
    proof {
        assert(blocks.take(blocks.len() as int) =~= blocks);
    }
}

/// A pass of the optimizer: a rule applied to the whole program after it was brought
/// into single-assignment form.
pub trait OptimizerPass: RewriteRule + Sized {
    /// Applies the pass to every block, replacing operations in place and counting each
    /// replacement once. No block, edge or slice is added or removed, and no operation
    /// is inserted, dropped or reordered.
    fn apply_post_ssa(&mut self, opt: &mut Optimizer, changes: &mut ChangeCounter)
        requires
            accepts_all(&*old(self), &old(opt).program),
        ensures
            is_rewrite_of(&*old(self), &final(opt).program, &old(opt).program),
            final(changes).value() == saturated(
                old(changes).value(),
                rewrites_in(
                    &*old(self),
                    old(opt).program.operations(),
                    old(opt).program.slices@,
                ),
            ),
    ;
}

} // verus!
