//! Device tags, carried in the type system. Only the CPU has kernels.
use vstd::prelude::*;

verus! {
/// Where a computation is meant to run.
#[derive(Clone, Copy, Debug, PartialEq, Eq, Structural)]
pub enum DeviceType {
    Cpu,
    Gpu,
    Any,
}

/// A type-level device tag.
pub trait DeviceInfo {
    /// The device this tag stands for.
    spec fn device_spec() -> DeviceType;

    fn device() -> (d: DeviceType)
        ensures
            d == Self::device_spec(),
    ;
}

pub struct GPU;

pub struct CPU;

pub struct AnyDevice;

impl DeviceInfo for CPU {
    open spec fn device_spec() -> DeviceType {
        DeviceType::Cpu
    }

    #[inline]
    fn device() -> (d: DeviceType) {
        DeviceType::Cpu
    }
}

impl DeviceInfo for GPU {
    open spec fn device_spec() -> DeviceType {
        DeviceType::Gpu
    }

    #[inline]
    fn device() -> (d: DeviceType) {
        DeviceType::Gpu
    }
}

impl DeviceInfo for AnyDevice {
    open spec fn device_spec() -> DeviceType {
        DeviceType::Any
    }

    #[inline]
    fn device() -> (d: DeviceType) {
        DeviceType::Any
    }
}

} // verus!
