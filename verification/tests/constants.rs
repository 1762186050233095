use cubecl::ir::constant::ConstantScalarValue;
use cubecl::ir::elem::{signed_of, unsigned_of, Elem, FloatKind, IntKind};
use cubecl::ir::float::{
    float_from_i64, float_from_u64, float_to_i64, float_to_u64, highest_bit_of, is_one_bits,
    is_zero_bits, pow2_u64,
};
use cubecl::ir::variable::{Item, Variable};

const F32: Elem = Elem::Float(FloatKind::F32);
const F64: Elem = Elem::Float(FloatKind::F64);
const I32: Elem = Elem::Int(IntKind::I32);
const I64: Elem = Elem::Int(IntKind::I64);

fn float(value: f64, kind: FloatKind) -> ConstantScalarValue {
    ConstantScalarValue::Float(value.to_bits(), kind)
}

fn interesting_integers() -> Vec<i64> {
    let mut values = vec![0, 1, -1, 2, 3, 7, 64, 255, 4096, 123_456_789, i64::MAX, i64::MIN];
    for shift in 0..63 {
        let power = 1i64 << shift;
        for delta in [-3i64, -2, -1, 0, 1, 2, 3] {
            values.push(power.wrapping_add(delta));
            values.push(power.wrapping_add(delta).wrapping_neg());
            values.push((power | (power >> 1)).wrapping_add(delta));
            values.push((power | (power >> 53)).wrapping_add(delta));
            values.push((power | (power >> 54)).wrapping_add(delta));
        }
    }
    let mut state = 0x9e37_79b9_7f4a_7c15u64;
    for _ in 0..2000 {
        state ^= state << 13;
        state ^= state >> 7;
        state ^= state << 17;
        values.push(state as i64);
        values.push((state >> (state % 64)) as i64);
    }
    values
}

fn interesting_floats() -> Vec<f64> {
    let mut values = vec![
        0.0,
        -0.0,
        0.5,
        -0.5,
        0.999_999,
        1.0,
        -1.0,
        1.5,
        2.5,
        -2.5,
        1e10,
        -1e10,
        9_007_199_254_740_992.0,
        9_223_372_036_854_775_808.0,
        -9_223_372_036_854_775_808.0,
        18_446_744_073_709_551_616.0,
        1e300,
        -1e300,
        f64::MIN_POSITIVE,
        f64::MAX,
        f64::MIN,
        f64::INFINITY,
        f64::NEG_INFINITY,
        f64::NAN,
        f64::EPSILON,
    ];
    for value in interesting_integers() {
        values.push(value as f64);
        values.push(value as f64 + 0.5);
        values.push((value as f64) * 1.000_001);
        values.push(f64::from_bits(value as u64));
    }
    values
}

#[test]
fn integers_become_the_nearest_float() {
    for value in interesting_integers() {
        assert_eq!(float_from_i64(value), (value as f64).to_bits(), "{value}");
        let unsigned = value as u64;
        assert_eq!(float_from_u64(unsigned), (unsigned as f64).to_bits(), "{unsigned}");
    }
}

#[test]
fn floats_become_integers_toward_zero_and_saturate() {
    for value in interesting_floats() {
        assert_eq!(float_to_i64(value.to_bits()), value as i64, "{value}");
        assert_eq!(float_to_u64(value.to_bits()), value as u64, "{value}");
    }
}

#[test]
fn float_conversion_values() {
    assert_eq!(float_from_u64(0), 0);
    assert_eq!(float_from_u64(1), 0x3ff0_0000_0000_0000);
    assert_eq!(float_from_i64(-2), 0xc000_0000_0000_0000);
    // Halfway between two floats: ties go to the even significand.
    assert_eq!(float_from_u64((1 << 53) + 1), ((1u64 << 53) as f64).to_bits());
    assert_eq!(float_from_u64((1 << 53) + 3), (((1u64 << 53) + 4) as f64).to_bits());
    assert_eq!(float_from_u64(u64::MAX), 18_446_744_073_709_551_616f64.to_bits());
    assert_eq!(float_to_i64(f64::NAN.to_bits()), 0);
    assert_eq!(float_to_i64(1e30f64.to_bits()), i64::MAX);
    assert_eq!(float_to_i64((-1e30f64).to_bits()), i64::MIN);
    assert_eq!(float_to_u64((-3.5f64).to_bits()), 0);
    assert_eq!(float_to_u64(3.99f64.to_bits()), 3);
    assert_eq!(float_to_i64((-3.99f64).to_bits()), -3);
}

#[test]
fn zero_and_one_are_recognised() {
    assert!(is_zero_bits(0f64.to_bits()));
    assert!(is_zero_bits((-0f64).to_bits()));
    assert!(!is_zero_bits(f64::MIN_POSITIVE.to_bits()));
    assert!(!is_zero_bits(f64::NAN.to_bits()));
    assert!(is_one_bits(1f64.to_bits()));
    assert!(!is_one_bits((-1f64).to_bits()));
    assert!(!is_one_bits(1.000_000_1f64.to_bits()));
}

#[test]
fn powers_and_highest_bits() {
    assert_eq!(pow2_u64(0), 1);
    assert_eq!(pow2_u64(10), 1024);
    assert_eq!(pow2_u64(63), 1 << 63);
    assert_eq!(highest_bit_of(0), 0);
    assert_eq!(highest_bit_of(1), 0);
    assert_eq!(highest_bit_of(2), 1);
    assert_eq!(highest_bit_of(1023), 9);
    assert_eq!(highest_bit_of(1024), 10);
    assert_eq!(highest_bit_of(u64::MAX), 63);
}

#[test]
fn reinterpreting_between_signs() {
    assert_eq!(signed_of(5), 5);
    assert_eq!(signed_of(u64::MAX), -1);
    assert_eq!(signed_of(1 << 63), i64::MIN);
    assert_eq!(unsigned_of(-1), u64::MAX);
    assert_eq!(unsigned_of(i64::MIN), 1 << 63);
    assert_eq!(unsigned_of(7), 7);
    for value in interesting_integers() {
        assert_eq!(unsigned_of(value), value as u64);
        assert_eq!(signed_of(value as u64), value);
    }
}

#[test]
fn truncation_to_a_kind() {
    assert_eq!(IntKind::I32.truncate(5), 5);
    assert_eq!(IntKind::I32.truncate(-5), -5);
    assert_eq!(IntKind::I32.truncate(i32::MAX as i64 + 1), i32::MIN as i64);
    assert_eq!(IntKind::I32.truncate(i32::MIN as i64 - 1), i32::MAX as i64);
    assert_eq!(IntKind::I32.truncate(1 << 32), 0);
    assert_eq!(IntKind::I64.truncate(i64::MIN), i64::MIN);
    assert_eq!(IntKind::I32.bits(), 32);
    assert_eq!(IntKind::I64.bits(), 64);
    for value in interesting_integers() {
        assert_eq!(IntKind::I32.truncate(value), value as i32 as i64);
        assert_eq!(IntKind::I64.truncate(value), value);
    }
}

#[test]
fn casts_from_integers() {
    let five = ConstantScalarValue::Int(5, IntKind::I64);
    assert_eq!(five.cast_to(I32), ConstantScalarValue::Int(5, IntKind::I32));
    assert_eq!(five.cast_to(Elem::UInt), ConstantScalarValue::UInt(5));
    assert_eq!(five.cast_to(F32), float(5.0, FloatKind::F32));
    assert_eq!(five.cast_to(Elem::Bool), ConstantScalarValue::Bool(false));
    assert_eq!(five.cast_to(Elem::Unit), ConstantScalarValue::UInt(0));
    let one = ConstantScalarValue::Int(1, IntKind::I32);
    assert_eq!(one.cast_to(Elem::Bool), ConstantScalarValue::Bool(true));
    let wide = ConstantScalarValue::Int(0x1_0000_0007, IntKind::I64);
    assert_eq!(wide.cast_to(I32), ConstantScalarValue::Int(7, IntKind::I32));
    let negative = ConstantScalarValue::Int(-1, IntKind::I32);
    assert_eq!(negative.cast_to(Elem::UInt), ConstantScalarValue::UInt(u64::MAX));
    assert_eq!(negative.cast_to(I64), ConstantScalarValue::Int(-1, IntKind::I64));
    assert_eq!(negative.cast_to(F64), float(-1.0, FloatKind::F64));
}

#[test]
fn casts_from_unsigned_integers() {
    let big = ConstantScalarValue::UInt(u64::MAX);
    assert_eq!(big.cast_to(I64), ConstantScalarValue::Int(-1, IntKind::I64));
    assert_eq!(big.cast_to(I32), ConstantScalarValue::Int(-1, IntKind::I32));
    assert_eq!(big.cast_to(Elem::UInt), big);
    assert_eq!(big.cast_to(F64), float(18_446_744_073_709_551_616.0, FloatKind::F64));
    assert_eq!(ConstantScalarValue::UInt(1).cast_to(Elem::Bool), ConstantScalarValue::Bool(true));
    assert_eq!(ConstantScalarValue::UInt(2).cast_to(Elem::Bool), ConstantScalarValue::Bool(false));
    assert_eq!(
        ConstantScalarValue::UInt(0x8000_0001).cast_to(I32),
        ConstantScalarValue::Int(-0x7fff_ffff, IntKind::I32)
    );
}

#[test]
fn casts_from_floats() {
    let value = float(-2.75, FloatKind::F64);
    assert_eq!(value.cast_to(F32), float(-2.75, FloatKind::F32));
    assert_eq!(value.cast_to(I32), ConstantScalarValue::Int(-2, IntKind::I32));
    assert_eq!(value.cast_to(Elem::UInt), ConstantScalarValue::UInt(0));
    assert_eq!(value.cast_to(Elem::Bool), ConstantScalarValue::Bool(false));
    assert_eq!(float(1.0, FloatKind::F32).cast_to(Elem::Bool), ConstantScalarValue::Bool(true));
    assert_eq!(
        float(1e12, FloatKind::F64).cast_to(I32),
        ConstantScalarValue::Int(1_000_000_000_000i64 as i32 as i64, IntKind::I32)
    );
    assert_eq!(
        float(1e30, FloatKind::F64).cast_to(I64),
        ConstantScalarValue::Int(i64::MAX, IntKind::I64)
    );
}

#[test]
fn casts_from_truth_values() {
    let yes = ConstantScalarValue::Bool(true);
    let no = ConstantScalarValue::Bool(false);
    assert_eq!(yes.cast_to(I32), ConstantScalarValue::Int(1, IntKind::I32));
    assert_eq!(no.cast_to(I64), ConstantScalarValue::Int(0, IntKind::I64));
    assert_eq!(yes.cast_to(Elem::UInt), ConstantScalarValue::UInt(1));
    assert_eq!(yes.cast_to(F32), float(1.0, FloatKind::F32));
    assert_eq!(no.cast_to(F32), float(0.0, FloatKind::F32));
    assert_eq!(yes.cast_to(Elem::Bool), yes);
}

#[test]
fn element_types_of_literals_and_variables() {
    assert_eq!(ConstantScalarValue::Int(1, IntKind::I32).elem(), I32);
    assert_eq!(float(1.0, FloatKind::BF16).elem(), Elem::Float(FloatKind::BF16));
    assert_eq!(ConstantScalarValue::UInt(1).elem(), Elem::UInt);
    assert_eq!(ConstantScalarValue::Bool(true).elem(), Elem::Bool);
    let constant = Variable::ConstantScalar(ConstantScalarValue::UInt(3));
    assert_eq!(constant.item(), Item { elem: Elem::UInt, vectorization: 1 });
    assert_eq!(constant.as_const(), Some(ConstantScalarValue::UInt(3)));
    let item = Item::vectorized(F32, 4);
    let shared = Variable::SharedMemory { id: 0, item, length: 8 };
    assert_eq!(shared.item(), Item { elem: F32, vectorization: 4 });
    assert_eq!(shared.as_const(), None);
    assert_eq!(Item::vectorized(F32, 0), Item::new(F32));
    assert!(item.is_compatible(&Item::new(F32)));
    assert!(Item::new(F32).is_compatible(&item));
    assert!(item.is_compatible(&item));
    assert!(!item.is_compatible(&Item::vectorized(F32, 2)));
}

#[test]
fn constants_are_compared_by_number() {
    let constant = |value: ConstantScalarValue| Variable::ConstantScalar(value);
    assert!(constant(ConstantScalarValue::Int(0, IntKind::I32)).is_constant(0));
    assert!(constant(ConstantScalarValue::Int(-4, IntKind::I64)).is_constant(-4));
    assert!(constant(ConstantScalarValue::UInt(1)).is_constant(1));
    assert!(!constant(ConstantScalarValue::UInt(u64::MAX)).is_constant(-1));
    assert!(constant(float(0.0, FloatKind::F32)).is_constant(0));
    assert!(constant(float(-0.0, FloatKind::F32)).is_constant(0));
    assert!(constant(float(1.0, FloatKind::F64)).is_constant(1));
    assert!(constant(float(-3.0, FloatKind::F64)).is_constant(-3));
    assert!(!constant(float(f64::NAN, FloatKind::F64)).is_constant(0));
    assert!(!constant(ConstantScalarValue::Bool(true)).is_constant(1));
    assert!(!constant(ConstantScalarValue::Bool(false)).is_constant(0));
    let local = Variable::Local { id: 0, item: Item::new(I32), depth: 0 };
    assert!(!local.is_constant(0));
    assert!(!local.is_true());
    assert!(!local.is_false());
    assert!(constant(ConstantScalarValue::Bool(true)).is_true());
    assert!(!constant(ConstantScalarValue::Bool(true)).is_false());
    assert!(constant(ConstantScalarValue::Bool(false)).is_false());
    assert!(!constant(ConstantScalarValue::UInt(1)).is_true());
    assert_eq!(Variable::from(true), constant(ConstantScalarValue::Bool(true)));
    assert_eq!(Variable::from(64u32), constant(ConstantScalarValue::UInt(64)));
}
