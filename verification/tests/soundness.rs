use cubecl::ir::constant::ConstantScalarValue;
use cubecl::ir::elem::{Elem, IntKind};
use cubecl::ir::eval::Folded;
use cubecl::ir::operation::{BinaryOperator, Operation, Operator};
use cubecl::ir::variable::{Item, Variable};
use cubecl::opt::const_eval::checked_const_eval;
use cubecl::opt::graph::SliceRegistry;
use cubecl::opt::simplify::simplify;

/// The variable that stands for the operand that is not known.
fn unknown(elem: Elem) -> Variable {
    Variable::Local { id: 1, item: Item::new(elem), depth: 0 }
}

fn constant(value: ConstantScalarValue) -> Variable {
    Variable::ConstantScalar(value)
}

fn number(value: i64, elem: Elem) -> ConstantScalarValue {
    ConstantScalarValue::Int(value, IntKind::I64).cast_to(elem)
}

/// Puts `value` in place of the unknown operand.
fn with_value(operand: Variable, elem: Elem, value: ConstantScalarValue) -> Variable {
    if operand == unknown(elem) {
        constant(value)
    } else {
        operand
    }
}

/// Checks one rule on one value of the unknown operand: what the rewritten operation
/// assigns is what the operation computes.
fn rule_keeps_value(
    make: fn(BinaryOperator) -> Operator,
    lhs: Variable,
    rhs: Variable,
    elem: Elem,
    value: ConstantScalarValue,
) {
    let out = Variable::Local { id: 0, item: Item::new(elem), depth: 0 };
    let operation = Operation::Operator(make(BinaryOperator { lhs, rhs, out }));
    let rewritten = simplify(&operation, &SliceRegistry::new()).expect("a rule applies");
    let assigned = match rewritten {
        Operation::Operator(Operator::Assign(unary)) => {
            assert_eq!(unary.out, out);
            with_value(unary.input, elem, value).as_const().unwrap().cast_to(elem)
        }
        other => panic!("not an assignment: {other:?}"),
    };
    let evaluated = Operation::Operator(make(BinaryOperator {
        lhs: with_value(lhs, elem, value),
        rhs: with_value(rhs, elem, value),
        out,
    }));
    match checked_const_eval(&evaluated) {
        Some(Folded::Value(computed)) => {
            assert_eq!(computed.cast_to(elem), assigned, "{operation:?} on {value:?}")
        }
        // A division of zero by zero has no value to keep.
        None => assert_eq!(value, number(0, elem)),
        other => panic!("not evaluated: {other:?}"),
    }
}

#[test]
fn arithmetic_rules_keep_the_value() {
    let values = [0, 1, -1, 2, 7, -13, 1 << 31, i32::MAX as i64, i32::MIN as i64, i64::MAX, i64::MIN];
    for elem in [Elem::Int(IntKind::I32), Elem::Int(IntKind::I64), Elem::UInt] {
        let x = unknown(elem);
        let zero = constant(number(0, elem));
        let one = constant(number(1, elem));
        for value in values {
            let value = number(value, elem);
            rule_keeps_value(Operator::Mul, zero, x, elem, value);
            rule_keeps_value(Operator::Mul, x, zero, elem, value);
            rule_keeps_value(Operator::Mul, one, x, elem, value);
            rule_keeps_value(Operator::Mul, x, one, elem, value);
            rule_keeps_value(Operator::Add, zero, x, elem, value);
            rule_keeps_value(Operator::Add, x, zero, elem, value);
            rule_keeps_value(Operator::Sub, x, zero, elem, value);
            rule_keeps_value(Operator::Div, zero, x, elem, value);
            rule_keeps_value(Operator::Div, x, one, elem, value);
            rule_keeps_value(Operator::Modulo, x, one, elem, value);
            rule_keeps_value(Operator::Modulo, zero, x, elem, value);
        }
    }
}

#[test]
fn boolean_rules_keep_the_value() {
    let x = unknown(Elem::Bool);
    for constant_operand in [false, true] {
        let known = constant(ConstantScalarValue::Bool(constant_operand));
        for value in [false, true] {
            let value = ConstantScalarValue::Bool(value);
            rule_keeps_value(Operator::Or, known, x, Elem::Bool, value);
            rule_keeps_value(Operator::Or, x, known, Elem::Bool, value);
            rule_keeps_value(Operator::And, known, x, Elem::Bool, value);
            rule_keeps_value(Operator::And, x, known, Elem::Bool, value);
        }
    }
}
