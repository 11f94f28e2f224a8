//! Element types of tensors and their block storage.

use vstd::prelude::*;

verus! {

/// Storage formats a tensor may have.
#[allow(non_camel_case_types)]
#[derive(Clone, Copy, Debug, PartialEq, Eq, Structural)]
pub enum GgmlType {
    F32,
    F16,
    Q4_0,
    Q4_1,
    Q5_0,
    Q5_1,
    Q8_0,
    Q8_1,
    Q2_K,
    Q3_K,
    Q4_K,
    Q5_K,
    Q6_K,
    Q8_K,
    IQ2_XXS,
    IQ2_XS,
    IQ3_XXS,
    IQ1_S,
    IQ4_NL,
    IQ3_S,
    IQ2_S,
    IQ4_XS,
    I8,
    I16,
    I32,
    I64,
    F64,
    IQ1_M,
    BF16,
    MXFP4,
    Unknown,
}

impl GgmlType {
    /// Elements and bytes of one storage block; `None` for an unknown format.
    pub open spec fn layout(self) -> Option<(u64, u64)> {
        match self {
            GgmlType::F32 => Some((1u64, 4u64)),
            GgmlType::F16 => Some((1u64, 2u64)),
            GgmlType::Q4_0 => Some((32u64, 18u64)),
            GgmlType::Q4_1 => Some((32u64, 20u64)),
            GgmlType::Q5_0 => Some((32u64, 22u64)),
            GgmlType::Q5_1 => Some((32u64, 24u64)),
            GgmlType::Q8_0 => Some((32u64, 34u64)),
            GgmlType::Q8_1 => Some((32u64, 36u64)),
            GgmlType::Q2_K => Some((256u64, 84u64)),
            GgmlType::Q3_K => Some((256u64, 110u64)),
            GgmlType::Q4_K => Some((256u64, 144u64)),
            GgmlType::Q5_K => Some((256u64, 176u64)),
            GgmlType::Q6_K => Some((256u64, 210u64)),
            GgmlType::Q8_K => Some((256u64, 292u64)),
            GgmlType::IQ2_XXS => Some((256u64, 66u64)),
            GgmlType::IQ2_XS => Some((256u64, 74u64)),
            GgmlType::IQ3_XXS => Some((256u64, 98u64)),
            GgmlType::IQ1_S => Some((256u64, 50u64)),
            GgmlType::IQ4_NL => Some((32u64, 18u64)),
            GgmlType::IQ3_S => Some((256u64, 110u64)),
            GgmlType::IQ2_S => Some((256u64, 82u64)),
            GgmlType::IQ4_XS => Some((256u64, 136u64)),
            GgmlType::I8 => Some((1u64, 1u64)),
            GgmlType::I16 => Some((1u64, 2u64)),
            GgmlType::I32 => Some((1u64, 4u64)),
            GgmlType::I64 => Some((1u64, 8u64)),
            GgmlType::F64 => Some((1u64, 8u64)),
            GgmlType::IQ1_M => Some((256u64, 56u64)),
            GgmlType::BF16 => Some((1u64, 2u64)),
            GgmlType::MXFP4 => Some((32u64, 17u64)),
            GgmlType::Unknown => None,
        }
    }

    /// Elements and bytes of one storage block.
    pub fn storage_layout(self) -> (r: Option<(u64, u64)>)
        ensures
            r == self.layout(),
    {
        match self {
            GgmlType::F32 => Some((1u64, 4u64)),
            GgmlType::F16 => Some((1u64, 2u64)),
            GgmlType::Q4_0 => Some((32u64, 18u64)),
            GgmlType::Q4_1 => Some((32u64, 20u64)),
            GgmlType::Q5_0 => Some((32u64, 22u64)),
            GgmlType::Q5_1 => Some((32u64, 24u64)),
            GgmlType::Q8_0 => Some((32u64, 34u64)),
            GgmlType::Q8_1 => Some((32u64, 36u64)),
            GgmlType::Q2_K => Some((256u64, 84u64)),
            GgmlType::Q3_K => Some((256u64, 110u64)),
            GgmlType::Q4_K => Some((256u64, 144u64)),
            GgmlType::Q5_K => Some((256u64, 176u64)),
            GgmlType::Q6_K => Some((256u64, 210u64)),
            GgmlType::Q8_K => Some((256u64, 292u64)),
            GgmlType::IQ2_XXS => Some((256u64, 66u64)),
            GgmlType::IQ2_XS => Some((256u64, 74u64)),
            GgmlType::IQ3_XXS => Some((256u64, 98u64)),
            GgmlType::IQ1_S => Some((256u64, 50u64)),
            GgmlType::IQ4_NL => Some((32u64, 18u64)),
            GgmlType::IQ3_S => Some((256u64, 110u64)),
            GgmlType::IQ2_S => Some((256u64, 82u64)),
            GgmlType::IQ4_XS => Some((256u64, 136u64)),
            GgmlType::I8 => Some((1u64, 1u64)),
            GgmlType::I16 => Some((1u64, 2u64)),
            GgmlType::I32 => Some((1u64, 4u64)),
            GgmlType::I64 => Some((1u64, 8u64)),
            GgmlType::F64 => Some((1u64, 8u64)),
            GgmlType::IQ1_M => Some((256u64, 56u64)),
            GgmlType::BF16 => Some((1u64, 2u64)),
            GgmlType::MXFP4 => Some((32u64, 17u64)),
            GgmlType::Unknown => None,
        }
    }
}

} // verus!
