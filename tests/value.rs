use accelerometer::Value;

const TEST_X: i64 = 15;
const TEST_Y: i64 = 24;
const TEST_Z: i64 = 42;
const FACTOR: i64 = 3;

fn test_value() -> Value {
    Value {
        x: TEST_X,
        y: TEST_Y,
        z: TEST_Z,
    }
}

#[test]
fn add() {
    let uut: Value = Default::default();

    let new_value = uut.add(&test_value());

    assert_eq!(TEST_X, new_value.x);
    assert_eq!(TEST_Y, new_value.y);
    assert_eq!(TEST_Z, new_value.z);
}

#[test]
fn sub() {
    let uut: Value = Default::default();

    let new_value = uut.sub(&test_value());

    assert_eq!(TEST_X * -1, new_value.x);
    assert_eq!(TEST_Y * -1, new_value.y);
    assert_eq!(TEST_Z * -1, new_value.z);
}

#[test]
fn mul() {
    let uut = test_value();

    let new_value = uut.mul(FACTOR);

    assert_eq!(TEST_X * FACTOR, new_value.x);
    assert_eq!(TEST_Y * FACTOR, new_value.y);
    assert_eq!(TEST_Z * FACTOR, new_value.z);
}

#[test]
fn div() {
    let uut = test_value();

    let new_value = uut.div(FACTOR);

    assert_eq!(TEST_X / FACTOR, new_value.x);
    assert_eq!(TEST_Y / FACTOR, new_value.y);
    assert_eq!(TEST_Z / FACTOR, new_value.z);
}

#[test]
fn mut_add() {
    let mut uut: Value = Default::default();

    uut.mut_add(&test_value());

    assert_eq!(TEST_X, uut.x);
    assert_eq!(TEST_Y, uut.y);
    assert_eq!(TEST_Z, uut.z);
}

#[test]
fn mut_sub() {
    let mut uut: Value = Default::default();

    uut.mut_sub(&test_value());

    assert_eq!(TEST_X * -1, uut.x);
    assert_eq!(TEST_Y * -1, uut.y);
    assert_eq!(TEST_Z * -1, uut.z);
}

#[test]
fn mut_mul() {
    let mut uut = test_value();

    uut.mut_mul(FACTOR);

    assert_eq!(TEST_X * FACTOR, uut.x);
    assert_eq!(TEST_Y * FACTOR, uut.y);
    assert_eq!(TEST_Z * FACTOR, uut.z);
}

#[test]
fn mut_div() {
    let mut uut = test_value();

    uut.mut_div(FACTOR);

    assert_eq!(TEST_X / FACTOR, uut.x);
    assert_eq!(TEST_Y / FACTOR, uut.y);
    assert_eq!(TEST_Z / FACTOR, uut.z);
}

#[test]
fn div_rounds_toward_zero() {
    let v = Value { x: -7, y: 7, z: -1 };
    assert_eq!(v.div(2), Value { x: -3, y: 3, z: 0 });
    assert_eq!(v.div(-2), Value { x: 3, y: -3, z: 0 });
}

#[test]
fn add_then_sub_gives_back_the_value() {
    let v = Value { x: -5, y: 1 << 40, z: 0 };
    let w = Value { x: 17, y: -3, z: i64::MAX };
    assert_eq!(v.add(&w).sub(&w), v);
}

#[test]
fn mul_then_div_gives_back_the_value() {
    let v = Value { x: -5, y: 123_456, z: 0 };
    assert_eq!(v.mul(-7).div(-7), v);
    assert_eq!(v.mul(1000).div(1000), v);
}

#[test]
fn average_of_one_is_itself() {
    let v = Value { x: -5, y: 9, z: 12 };
    assert_eq!(Value::average(&vec![v]), v);
}

#[test]
fn average_of_none_is_zero() {
    assert_eq!(Value::average(&Vec::new()), Value { x: 0, y: 0, z: 0 });
}

#[test]
fn average_is_the_mean_rounded_toward_zero() {
    let vals = vec![
        Value { x: 1, y: -1, z: i64::MAX },
        Value { x: 2, y: -2, z: i64::MAX },
        Value { x: 4, y: -4, z: i64::MAX },
    ];
    assert_eq!(Value::average(&vals), Value { x: 2, y: -2, z: i64::MAX });
}
