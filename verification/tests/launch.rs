use cubecl::ir::elem::{Elem, FloatKind};
use cubecl::ir::operation::{BinaryOperator, Operation, Operator};
use cubecl::ir::variable::{Item, Variable};
use cubecl::opt::driver::DEFAULT_MAX_ROUNDS;
use cubecl::opt::graph::{Optimizer, Program};

/// The kernel `output[idx] = input[idx]`, as two operations on arrays of floats.
fn copy_tensor() -> Vec<Operation> {
    let item = Item::new(Elem::Float(FloatKind::F32));
    let index = Variable::Local { id: 0, item: Item::new(Elem::UInt), depth: 0 };
    let input = Variable::LocalArray { id: 1, item, depth: 0, length: 16 };
    let output = Variable::LocalArray { id: 2, item, depth: 0, length: 16 };
    let value = Variable::Local { id: 3, item, depth: 0 };
    vec![
        Operation::Operator(Operator::Index(BinaryOperator { lhs: input, rhs: index, out: value })),
        Operation::Operator(Operator::IndexAssign(BinaryOperator {
            lhs: index,
            rhs: value,
            out: output,
        })),
    ]
}

#[test]
fn launch_unchecked_simple() {
    let mut program = Program::new();
    program.add_node(copy_tensor());
    let mut optimizer = Optimizer::new(program);
    assert!(optimizer.is_evaluable());
    let report = optimizer.optimize(DEFAULT_MAX_ROUNDS);
    assert!(report.converged);
    assert_eq!(optimizer.program.nodes[0].ops, copy_tensor());
}

#[test]
fn launch_unchecked_simple_2() {}
