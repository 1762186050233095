//! The round driver: the passes are run in order, round after round, until a round
//! replaces nothing or the cap on rounds is reached.

use vstd::prelude::*;
use crate::ir::operation::Operation;
use crate::opt::const_eval::{const_folded, is_evaluable, ConstEval};
use crate::opt::graph::{ChangeCounter, Optimizer, Program, Slice};
use crate::opt::pass::{
    accepts_all, applied, is_rewrite_of, lemma_no_rewrites, rewrites_in, saturated,
    OptimizerPass, RewriteRule,
};
use crate::opt::simplify::{simplified, ConstOperandSimplify};

verus! {

/// The cap on rounds that callers use when they have no reason for another.
pub const DEFAULT_MAX_ROUNDS: usize = 16;

/// How a run of the optimizer ended.
#[derive(Clone, Copy, Debug, PartialEq, Eq, Structural)]
pub struct Convergence {
    /// The number of rounds that were run.
    pub rounds: usize,
    /// Whether the last round replaced nothing. When it is unset the cap was reached
    /// first: the program is valid but may not be fully simplified.
    pub converged: bool,
    /// The cap on rounds that the run was given.
    pub max_rounds: usize,
}

/// What one round makes of an operation: algebraic simplification, then constant
/// folding of what simplification left.
pub open spec fn round_op(op: Operation, slices: Map<(u16, u8), Slice>) -> Operation {
    applied(&ConstEval, applied(&ConstOperandSimplify, op, slices), slices)
}

/// Whether no pass would replace the operation.
pub open spec fn is_settled(op: Operation, slices: Map<(u16, u8), Slice>) -> bool {
    simplified(op, slices) is None && const_folded(op) is None
}

/// Whether the program is at a fixpoint: no pass would replace any of its operations.
pub open spec fn is_fixpoint(program: &Program) -> bool {
    forall|n: int, i: int|
        program.has_position(n, i) ==> is_settled(#[trigger] program.op_at(n, i), program.slices@)
}

/// Whether `after` is what one round makes of `before`.
pub open spec fn is_round_of(after: &Program, before: &Program) -> bool {
    &&& after.same_shape(before)
    &&& forall|n: int, i: int|
        before.has_position(n, i) ==> #[trigger] after.op_at(n, i) == round_op(
            before.op_at(n, i),
            before.slices@,
        )
}

/// The operations of a program after algebraic simplification.
pub open spec fn simplified_operations(program: &Program) -> Seq<Seq<Operation>> {
    Seq::new(
        program.nodes@.len(),
        |n: int|
            Seq::new(
                program.nodes[n].ops@.len(),
                |i: int| applied(&ConstOperandSimplify, program.op_at(n, i), program.slices@),
            ),
    )
}

/// The number of operations that one round replaces: those that simplification
/// replaces, and of the others those that constant folding replaces.
pub open spec fn round_rewrites(program: &Program) -> nat {
    rewrites_in(&ConstOperandSimplify, program.operations(), program.slices@) + rewrites_in(
        &ConstEval,
        simplified_operations(program),
        program.slices@,
    )
}

/// One round settles every operation: what a round has made of an operation, no pass
/// replaces, so a second round leaves it as it is.
pub proof fn lemma_round_settles(op: Operation, slices: Map<(u16, u8), Slice>)
    ensures
        is_settled(round_op(op, slices), slices),
        round_op(round_op(op, slices), slices) == round_op(op, slices),
        is_settled(op, slices) <==> round_op(op, slices) == op,
{
    ConstOperandSimplify.lemma_rewritten(op, slices);
    ConstEval.lemma_rewritten(op, slices);
    let first = applied(&ConstOperandSimplify, op, slices);
    ConstOperandSimplify.lemma_rewritten(first, slices);
    ConstEval.lemma_rewritten(first, slices);
    let second = round_op(op, slices);
    ConstOperandSimplify.lemma_rewritten(second, slices);
    ConstEval.lemma_rewritten(second, slices);
}

/// A round counts no replacement exactly when the program is at a fixpoint.
pub proof fn lemma_round_rewrites_zero(program: &Program)
    ensures
        round_rewrites(program) == 0 <==> is_fixpoint(program),
{
    let slices = program.slices@;
    let blocks = program.operations();
    let mid = simplified_operations(program);
    lemma_no_rewrites(&ConstOperandSimplify, blocks, slices);
    lemma_no_rewrites(&ConstEval, mid, slices);
    if round_rewrites(program) == 0 {
        assert forall|n: int, i: int| program.has_position(n, i) implies is_settled(
            #[trigger] program.op_at(n, i),
            slices,
        ) by {
            assert((&ConstOperandSimplify).rewritten(blocks[n][i], slices) is None);
            assert((&ConstEval).rewritten(mid[n][i], slices) is None);
        }
    }
    if is_fixpoint(program) {
        assert forall|n: int, i: int|
            0 <= n < blocks.len() && 0 <= i < blocks[n].len() implies (
        &ConstOperandSimplify).rewritten(#[trigger] blocks[n][i], slices) is None by {
            assert(is_settled(program.op_at(n, i), slices));
        }
        assert forall|n: int, i: int| 0 <= n < mid.len() && 0 <= i < mid[n].len() implies (
        &ConstEval).rewritten(#[trigger] mid[n][i], slices) is None by {}
    }
}

/// The program that a round leaves is at a fixpoint.
pub proof fn lemma_round_reaches_fixpoint(after: &Program, before: &Program)
    requires
        is_round_of(after, before),
    ensures
        is_fixpoint(after),
        is_fixpoint(before) ==> forall|n: int, i: int|
            before.has_position(n, i) ==> #[trigger] after.op_at(n, i) == before.op_at(n, i),
{
    assert forall|n: int, i: int| after.has_position(n, i) implies is_settled(
        #[trigger] after.op_at(n, i),
        after.slices@,
    ) by {
        lemma_round_settles(before.op_at(n, i), before.slices@);
    }
    if is_fixpoint(before) {
        assert forall|n: int, i: int| before.has_position(n, i) implies #[trigger] after.op_at(
            n,
            i,
        ) == before.op_at(n, i) by {
            lemma_round_settles(before.op_at(n, i), before.slices@);
        }
    }
}

/// A rule applied throughout a well-formed program leaves it well formed: every block
/// writes the variables it wrote, and ends as it ended.
pub proof fn lemma_rewrite_keeps_well_formed<R: RewriteRule>(
    rule: &R,
    after: &Program,
    before: &Program,
)
    requires
        is_rewrite_of(rule, after, before),
        before.well_formed(),
    ensures
        after.well_formed(),
        forall|n: int, i: int|
            before.has_position(n, i) ==> (#[trigger] after.op_at(n, i)).spec_out()
                == before.op_at(n, i).spec_out(),
{
    let slices = before.slices@;
    assert forall|n: int, i: int| before.has_position(n, i) implies (#[trigger] after.op_at(
        n,
        i,
    )).spec_out() == before.op_at(n, i).spec_out() && (crate::opt::graph::is_terminator(
        before.op_at(n, i),
    ) ==> after.op_at(n, i) == before.op_at(n, i)) by {
        rule.lemma_rewritten(before.op_at(n, i), slices);
    }
    assert forall|n: int| 0 <= n < after.nodes.len() implies {
        &&& (#[trigger] after.nodes[n]).single_assignment()
        &&& after.nodes[n].terminated()
        &&& forall|e: int|
            0 <= e < after.nodes[n].successors.len() ==> (#[trigger] after.nodes[n].successors[e])
                < after.nodes.len()
    } by {
        let old_block = before.nodes[n];
        let new_block = after.nodes[n];
        assert forall|i: int, j: int|
            0 <= i < j < new_block.ops.len() && (#[trigger] new_block.ops[i].spec_out())
                is Some implies (#[trigger] new_block.ops[j].spec_out())
            != new_block.ops[i].spec_out() by {
            assert(after.op_at(n, i).spec_out() == before.op_at(n, i).spec_out());
            assert(after.op_at(n, j).spec_out() == before.op_at(n, j).spec_out());
        }
        if new_block.successors.len() > 1 {
            let last = old_block.ops.len() - 1;
            assert(after.op_at(n, last) == before.op_at(n, last));
        }
        assert forall|e: int| 0 <= e < new_block.successors.len() implies (
        #[trigger] new_block.successors[e]) < after.nodes.len() by {}
    }
}

impl Optimizer {
    /// Whether every operation of the program can be shown to constant folding: each
    /// is well typed as far as its constant operands go, and none divides an integer by
    /// zero or shifts it out of its width.
    pub fn is_evaluable(&self) -> (r: bool)
        ensures
            r == accepts_all(&ConstEval, &self.program),
    {
        let mut n: usize = 0;
        while n < self.program.nodes.len()
            invariant
                n <= self.program.nodes.len(),
                forall|k: int, i: int|
                    self.program.has_position(k, i) && k < n ==> (&ConstEval).accepts(
                        #[trigger] self.program.op_at(k, i),
                    ),
            decreases self.program.nodes.len() - n,
        {
            let mut i: usize = 0;
            while i < self.program.nodes[n].ops.len()
                invariant
                    n < self.program.nodes.len(),
                    i <= self.program.nodes[n as int].ops.len(),
                    forall|k: int, j: int|
                        self.program.has_position(k, j) && k < n ==> (&ConstEval).accepts(
                            #[trigger] self.program.op_at(k, j),
                        ),
                    forall|j: int|
                        0 <= j < i ==> (&ConstEval).accepts(
                            #[trigger] self.program.op_at(n as int, j),
                        ),
                decreases self.program.nodes[n as int].ops.len() - i,
            {
                let op = self.program.nodes[n].ops[i];
                if !is_evaluable(&op) {
                    assert(!(&ConstEval).accepts(self.program.op_at(n as int, i as int)));
                    return false;
                }
                i = i + 1;
            }
            n = n + 1;
        }
        true
    }

    /// Runs one round: each pass once, in order, over the whole program. The number
    /// that comes back is the number of operations replaced; it is zero exactly when
    /// the program was at a fixpoint.
    pub fn run_round(&mut self) -> (changes: usize)
        requires
            accepts_all(&ConstEval, &old(self).program),
        ensures
            is_round_of(&final(self).program, &old(self).program),
            accepts_all(&ConstEval, &final(self).program),
            is_fixpoint(&final(self).program),
            changes == saturated(0, round_rewrites(&old(self).program)),
            changes == 0 <==> is_fixpoint(&old(self).program),
    {
        let ghost before = self.program;
        let ghost slices = self.program.slices@;
        let mut counter = ChangeCounter::new();
        let mut simplify = ConstOperandSimplify;
        simplify.apply_post_ssa(self, &mut counter);
        let ghost mid = self.program;
        proof {
            assert(mid.operations() =~= simplified_operations(&before)) by {
                assert forall|n: int| 0 <= n < mid.nodes.len() implies mid.operations()[n]
                    =~= simplified_operations(&before)[n] by {
                    assert forall|i: int| 0 <= i < mid.nodes[n].ops.len() implies mid.operations()[n][i]
                        == simplified_operations(&before)[n][i] by {
                        assert(mid.op_at(n, i) == applied(
                            &ConstOperandSimplify,
                            before.op_at(n, i),
                            slices,
                        ));
                    }
                }
            }
            assert forall|n: int, i: int| mid.has_position(n, i) implies (&ConstEval).accepts(
                #[trigger] mid.op_at(n, i),
            ) by {
                (&ConstOperandSimplify).lemma_rewritten(before.op_at(n, i), slices);
                (&ConstEval).lemma_rewritten(mid.op_at(n, i), slices);
            }
        }
        let mut eval = ConstEval;
        eval.apply_post_ssa(self, &mut counter);
        proof {
            let after = self.program;
            assert forall|n: int, i: int| before.has_position(n, i) implies #[trigger] after.op_at(
                n,
                i,
            ) == round_op(before.op_at(n, i), slices) by {}
            assert forall|n: int, i: int| after.has_position(n, i) implies (&ConstEval).accepts(
                #[trigger] after.op_at(n, i),
            ) by {
                (&ConstEval).lemma_rewritten(mid.op_at(n, i), slices);
                (&ConstEval).lemma_rewritten(after.op_at(n, i), slices);
            }
            lemma_round_reaches_fixpoint(&after, &before);
            lemma_round_rewrites_zero(&before);
        }
        counter.get()
    }

    /// Rewrites the program to a fixpoint, running at most `max_rounds` rounds.
    ///
    /// A first round settles every operation, and a second confirms it by replacing
    /// nothing; so with a cap of two or more the run converges, in one round when the
    /// program was at a fixpoint already and in two otherwise. With a cap below that
    /// the run may end unconverged, which is reported and not treated as a failure.
    pub fn optimize(&mut self, max_rounds: usize) -> (report: Convergence)
        requires
            accepts_all(&ConstEval, &old(self).program),
        ensures
            final(self).program.same_shape(&old(self).program),
            accepts_all(&ConstEval, &final(self).program),
            report.max_rounds == max_rounds,
            report.rounds == if max_rounds == 0 {
                0usize
            } else if max_rounds == 1 || is_fixpoint(&old(self).program) {
                1usize
            } else {
                2usize
            },
            report.converged <==> max_rounds >= 2 || (max_rounds == 1 && is_fixpoint(
                &old(self).program,
            )),
            report.converged ==> is_fixpoint(&final(self).program),
            max_rounds >= 1 ==> is_round_of(&final(self).program, &old(self).program),
            max_rounds == 0 ==> forall|n: int, i: int|
                old(self).program.has_position(n, i) ==> #[trigger] final(self).program.op_at(n, i)
                    == old(self).program.op_at(n, i),
    {
        let ghost before = self.program;
        let mut rounds: usize = 0;
        let mut converged = false;
        while rounds < max_rounds && !converged
            invariant
                rounds <= max_rounds,
                rounds <= 2,
                self.program.same_shape(&before),
                accepts_all(&ConstEval, &self.program),
                rounds == 0 ==> !converged && forall|n: int, i: int|
                    before.has_position(n, i) ==> #[trigger] self.program.op_at(n, i)
                        == before.op_at(n, i),
                rounds >= 1 ==> is_round_of(&self.program, &before) && is_fixpoint(&self.program),
                rounds == 1 ==> (converged <==> is_fixpoint(&before)),
                rounds == 2 ==> converged && !is_fixpoint(&before),
            decreases max_rounds - rounds, if converged { 0int } else { 1int },
        {
            let ghost current = self.program;
            let changes = self.run_round();
            proof {
                if rounds == 0 {
                    assert(is_fixpoint(&current) <==> is_fixpoint(&before)) by {
                        assert forall|n: int, i: int| before.has_position(n, i) implies (is_settled(
                            #[trigger] current.op_at(n, i),
                            current.slices@,
                        ) <==> is_settled(before.op_at(n, i), before.slices@)) by {}
                        if is_fixpoint(&current) {
                            assert forall|n: int, i: int|
                                before.has_position(n, i) implies is_settled(
                                #[trigger] before.op_at(n, i),
                                before.slices@,
                            ) by {
                                assert(is_settled(current.op_at(n, i), current.slices@));
                            }
                        }
                        if is_fixpoint(&before) {
                            assert forall|n: int, i: int|
                                current.has_position(n, i) implies is_settled(
                                #[trigger] current.op_at(n, i),
                                current.slices@,
                            ) by {}
                        }
                    }
                    assert forall|n: int, i: int|
                        before.has_position(n, i) implies #[trigger] self.program.op_at(n, i)
                        == round_op(before.op_at(n, i), before.slices@) by {}
                } else {
                    lemma_round_reaches_fixpoint(&self.program, &current);
                    assert forall|n: int, i: int|
                        before.has_position(n, i) implies #[trigger] self.program.op_at(n, i)
                        == round_op(before.op_at(n, i), before.slices@) by {}
                }
            }
            rounds = rounds + 1;
            if changes == 0 {
                converged = true;
            }
        }
        Convergence { rounds, converged, max_rounds }
    }
}

} // verus!
