use cubecl::ir::constant::ConstantScalarValue;
use cubecl::ir::elem::{Elem, IntKind};
use cubecl::ir::primitive::{Primitive, SquareType};
use cubecl::reduce::maxabs::{MaxAbs, ReduceRequirements};

#[test]
fn largest_magnitude_is_kept_lane_by_lane() {
    let instruction = MaxAbs::from_config(());
    assert_eq!(instruction.requirements(), ReduceRequirements { coordinates: false });
    let mut accumulator = instruction.null_accumulator(4);
    assert_eq!(accumulator, vec![0, 0, 0, 0]);
    assert_eq!(instruction.null_input(2), vec![0, 0]);
    accumulator = instruction.reduce(&accumulator, &vec![3, -7, 0, -1]);
    assert_eq!(accumulator, vec![3, 7, 0, 1]);
    accumulator = instruction.reduce(&accumulator, &vec![-5, 2, 0, i64::MAX]);
    assert_eq!(accumulator, vec![5, 7, 0, i64::MAX]);
    accumulator = instruction.reduce(&accumulator, &instruction.null_input(4));
    assert_eq!(accumulator, vec![5, 7, 0, i64::MAX]);
    let fused = instruction.fuse_accumulators(&accumulator, &vec![6, 1, -2, 4]);
    assert_eq!(fused, vec![6, 7, 0, i64::MAX]);
    assert_eq!(instruction.merge_line(&vec![6, 7, 0, 5]), 7);
    assert_eq!(instruction.merge_line(&vec![-6, -7]), 0);
    assert_eq!(instruction.merge_line(&vec![]), 0);
    let mut destination = vec![1, 2, 3];
    instruction.assign_accumulator(&mut destination, &fused);
    assert_eq!(destination, fused);
    assert_eq!(instruction.to_output_perpendicular(fused.clone()), fused);
}

#[test]
fn primitives_stand_for_constants() {
    assert_eq!(<i32 as SquareType>::ir_type(), Elem::Int(IntKind::I32));
    assert_eq!(<i64 as SquareType>::ir_type(), Elem::Int(IntKind::I64));
    assert_eq!(<u32 as SquareType>::ir_type(), Elem::UInt);
    assert_eq!(<bool as SquareType>::ir_type(), Elem::Bool);
    assert_eq!(<() as SquareType>::ir_type(), Elem::Unit);
    assert_eq!((-3i32).value(), ConstantScalarValue::Int(-3, IntKind::I32));
    assert_eq!(i64::MIN.value(), ConstantScalarValue::Int(i64::MIN, IntKind::I64));
    assert_eq!(u32::MAX.value(), ConstantScalarValue::UInt(4_294_967_295));
    assert_eq!(true.value(), ConstantScalarValue::Bool(true));
    assert_eq!(().value(), ConstantScalarValue::UInt(0));
    assert_eq!(7i32.value().elem(), <i32 as SquareType>::ir_type());
}
