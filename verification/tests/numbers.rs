use lazy_tensor::definitions::{NumberLike, PACKING_BUFFER_SIZE};
use lazy_tensor::device::{AnyDevice, DeviceInfo, DeviceType, CPU, GPU};

#[test]
fn integers_wrap() {
    assert_eq!(NumberLike::plus(i64::MAX, 1), i64::MIN);
    assert_eq!(NumberLike::minus(i64::MIN, 1), i64::MAX);
    assert_eq!(NumberLike::times(i64::MAX, 2), -2);
    assert_eq!(NumberLike::negated(i64::MIN), i64::MIN);
    assert_eq!(NumberLike::negated(5i64), -5);
    assert_eq!(NumberLike::plus(2i64, 3), 5);
    assert_eq!(NumberLike::minus(2i64, 3), -1);
    assert_eq!(NumberLike::times(4i64, -3), -12);
}

#[test]
fn integer_quotients_truncate_towards_zero() {
    assert_eq!(NumberLike::over(7i64, 2), 3);
    assert_eq!(NumberLike::over(-7i64, 2), -3);
    assert_eq!(NumberLike::over(7i64, -2), -3);
    assert_eq!(NumberLike::over(-7i64, -2), 3);
    assert_eq!(NumberLike::over(i64::MIN, 1), i64::MIN);
    assert_eq!(NumberLike::over(i64::MIN, -1), i64::MIN);
    assert_eq!(NumberLike::over(i64::MIN, 2), i64::MIN / 2);
    assert_eq!(NumberLike::over(i64::MAX, i64::MIN), 0);
}

#[test]
fn integer_division_by_zero_gives_zero() {
    assert_eq!(NumberLike::over(7i64, 0), 0);
    assert_eq!(NumberLike::over(0i64, 0), 0);
}

#[test]
fn packing_buffer_holds_128_elements() {
    assert_eq!(PACKING_BUFFER_SIZE, 128);
}

#[test]
fn device_tags_name_their_device() {
    assert_eq!(CPU::device(), DeviceType::Cpu);
    assert_eq!(GPU::device(), DeviceType::Gpu);
    assert_eq!(AnyDevice::device(), DeviceType::Any);
}
