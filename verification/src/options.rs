use vstd::prelude::*;

verus! {

/// Storage, hazard-tracking and CPU-cache options of a Metal resource.
///
/// The variants carry no numeric value of their own (`as u32` numbers them
/// from zero); the code the Metal runtime expects for each is `bits`.
#[derive(Clone, Copy)]
pub enum ResourceOptions {
    StorageModeManaged,
    StorageModePrivate,
    StorageModeMemoryless,
    HazardTrackingModeUntracked,
    HazardTrackingModeTracked,
    CpuCacheModeWriteCombined,
}

/// Metal's `MTLResourceOptions` bits for each option.
pub open spec fn resource_options_bits(options: ResourceOptions) -> u32 {
    match options {
        ResourceOptions::StorageModeManaged => 0x10,
        ResourceOptions::StorageModePrivate => 0x20,
        ResourceOptions::StorageModeMemoryless => 0x30,
        ResourceOptions::HazardTrackingModeUntracked => 0x100,
        ResourceOptions::HazardTrackingModeTracked => 0x200,
        ResourceOptions::CpuCacheModeWriteCombined => 0x1,
    }
}

impl ResourceOptions {
    /// The `MTLResourceOptions` bits of this option, as a buffer is
    /// allocated with them.
    pub fn bits(&self) -> (b: u32)
        ensures
            b == resource_options_bits(*self),
    {
        match self {
            ResourceOptions::StorageModeManaged => 0x10,
            ResourceOptions::StorageModePrivate => 0x20,
            ResourceOptions::StorageModeMemoryless => 0x30,
            ResourceOptions::HazardTrackingModeUntracked => 0x100,
            ResourceOptions::HazardTrackingModeTracked => 0x200,
            ResourceOptions::CpuCacheModeWriteCombined => 0x1,
        }
    }
}

/// Element type of a Metal Performance Shaders matrix.
///
/// The variant carries no numeric value of its own (`as u32` gives zero);
/// the code Metal Performance Shaders expects is `code`.
#[derive(Clone, Copy)]
pub enum MpsDataType {
    F32,
}

/// Metal Performance Shaders' `MPSDataType` code for each element type:
/// the floating-point flag `0x1000_0000` together with the width in bits.
pub open spec fn mps_data_type_code(data_type: MpsDataType) -> u32 {
    match data_type {
        MpsDataType::F32 => 0x1000_0020,
    }
}

impl MpsDataType {
    /// The `MPSDataType` code of this element type.
    pub fn code(&self) -> (c: u32)
        ensures
            c == mps_data_type_code(*self),
    {
        match self {
            MpsDataType::F32 => 0x1000_0020,
        }
    }
}

} // verus!
