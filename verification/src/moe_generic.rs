//! Grouped mixture-of-experts kernels for every storage format: one kernel per
//! role, built for each format that has a tile decoder.

use vstd::prelude::*;

use crate::context::MetalContext;
use crate::dtype::GgmlType;
use crate::encoder::{KernelEncoder, Launch, MTLSize, Outcome};
use crate::error::{bad_shape, Fault, MetalError};
use crate::moe_grouped;
use crate::moe_grouped::{check_slot_counts, encode_slot_words, MAX_COUNT};
use crate::numeric;
use crate::numeric::{div_ceil, max_size, product};
use crate::tensor::MetalTensor;

verus! {

/// The tiles of one storage format.
#[derive(Clone, Copy, Debug, PartialEq, Eq)]
pub struct MoeGroupedGenericLayout {
    pub dtype: GgmlType,
    /// The format's part of a kernel name.
    pub suffix: &'static str,
    /// Elements of one block.
    pub block_elems: usize,
    /// Bytes of one block.
    pub block_bytes: usize,
}

impl MoeGroupedGenericLayout {
    #[verifier::allow_in_spec]
    pub fn of(
        dtype: GgmlType,
        suffix: &'static str,
        block_elems: usize,
        block_bytes: usize,
    ) -> MoeGroupedGenericLayout
        returns
            (MoeGroupedGenericLayout { dtype, suffix, block_elems, block_bytes }),
    {
        MoeGroupedGenericLayout { dtype, suffix, block_elems, block_bytes }
    }

    /// The layouts of all formats that have kernels.
    pub open spec fn table() -> Seq<MoeGroupedGenericLayout> {
        seq![
            MoeGroupedGenericLayout::of(GgmlType::Q2_K, "q2_K", 256, 84),
            MoeGroupedGenericLayout::of(GgmlType::Q3_K, "q3_K", 256, 110),
            MoeGroupedGenericLayout::of(GgmlType::Q4_K, "q4_K", 256, 144),
            MoeGroupedGenericLayout::of(GgmlType::Q5_K, "q5_K", 256, 176),
            MoeGroupedGenericLayout::of(GgmlType::Q6_K, "q6_K", 256, 210),
            MoeGroupedGenericLayout::of(GgmlType::Q8_0, "q8_0", 32, 34),
            MoeGroupedGenericLayout::of(GgmlType::Q4_0, "q4_0", 32, 18),
            MoeGroupedGenericLayout::of(GgmlType::Q4_1, "q4_1", 32, 20),
            MoeGroupedGenericLayout::of(GgmlType::IQ2_S, "iq2_s", 256, 82),
            MoeGroupedGenericLayout::of(GgmlType::IQ3_XXS, "iq3_xxs", 256, 98),
            MoeGroupedGenericLayout::of(GgmlType::IQ3_S, "iq3_s", 256, 110),
            MoeGroupedGenericLayout::of(GgmlType::IQ4_NL, "iq4_nl", 32, 18),
            MoeGroupedGenericLayout::of(GgmlType::IQ4_XS, "iq4_xs", 256, 136),
            MoeGroupedGenericLayout::of(GgmlType::F32, "f32", 32, 128),
            MoeGroupedGenericLayout::of(GgmlType::F16, "f16", 32, 64),
            MoeGroupedGenericLayout::of(GgmlType::BF16, "bf16", 32, 64),
        ]
    }

    /// The layout of one format.
    pub open spec fn for_dtype(dtype: GgmlType) -> Option<MoeGroupedGenericLayout> {
        match dtype {
            GgmlType::Q2_K => Some(MoeGroupedGenericLayout::of(GgmlType::Q2_K, "q2_K", 256, 84)),
            GgmlType::Q3_K => Some(MoeGroupedGenericLayout::of(GgmlType::Q3_K, "q3_K", 256, 110)),
            GgmlType::Q4_K => Some(MoeGroupedGenericLayout::of(GgmlType::Q4_K, "q4_K", 256, 144)),
            GgmlType::Q5_K => Some(MoeGroupedGenericLayout::of(GgmlType::Q5_K, "q5_K", 256, 176)),
            GgmlType::Q6_K => Some(MoeGroupedGenericLayout::of(GgmlType::Q6_K, "q6_K", 256, 210)),
            GgmlType::Q8_0 => Some(MoeGroupedGenericLayout::of(GgmlType::Q8_0, "q8_0", 32, 34)),
            GgmlType::Q4_0 => Some(MoeGroupedGenericLayout::of(GgmlType::Q4_0, "q4_0", 32, 18)),
            GgmlType::Q4_1 => Some(MoeGroupedGenericLayout::of(GgmlType::Q4_1, "q4_1", 32, 20)),
            GgmlType::IQ2_S => Some(MoeGroupedGenericLayout::of(GgmlType::IQ2_S, "iq2_s", 256, 82)),
            GgmlType::IQ3_XXS => Some(
                MoeGroupedGenericLayout::of(GgmlType::IQ3_XXS, "iq3_xxs", 256, 98),
            ),
            GgmlType::IQ3_S => Some(
                MoeGroupedGenericLayout::of(GgmlType::IQ3_S, "iq3_s", 256, 110),
            ),
            GgmlType::IQ4_NL => Some(
                MoeGroupedGenericLayout::of(GgmlType::IQ4_NL, "iq4_nl", 32, 18),
            ),
            GgmlType::IQ4_XS => Some(
                MoeGroupedGenericLayout::of(GgmlType::IQ4_XS, "iq4_xs", 256, 136),
            ),
            GgmlType::F32 => Some(MoeGroupedGenericLayout::of(GgmlType::F32, "f32", 32, 128)),
            GgmlType::F16 => Some(MoeGroupedGenericLayout::of(GgmlType::F16, "f16", 32, 64)),
            GgmlType::BF16 => Some(MoeGroupedGenericLayout::of(GgmlType::BF16, "bf16", 32, 64)),
            _ => None,
        }
    }

    /// The bytes of a row of `n_in` elements.
    pub open spec fn row_bytes(self, n_in: usize) -> int {
        (n_in / self.block_elems) * self.block_bytes
    }
}

/// The layouts of all formats that have kernels.
pub fn moe_grouped_generic_layouts() -> (r: Vec<MoeGroupedGenericLayout>)
    ensures
        r@ == MoeGroupedGenericLayout::table(),
{
    let layouts: Vec<MoeGroupedGenericLayout> = vec![
            MoeGroupedGenericLayout::of(GgmlType::Q2_K, "q2_K", 256, 84),
            MoeGroupedGenericLayout::of(GgmlType::Q3_K, "q3_K", 256, 110),
            MoeGroupedGenericLayout::of(GgmlType::Q4_K, "q4_K", 256, 144),
            MoeGroupedGenericLayout::of(GgmlType::Q5_K, "q5_K", 256, 176),
            MoeGroupedGenericLayout::of(GgmlType::Q6_K, "q6_K", 256, 210),
            MoeGroupedGenericLayout::of(GgmlType::Q8_0, "q8_0", 32, 34),
            MoeGroupedGenericLayout::of(GgmlType::Q4_0, "q4_0", 32, 18),
            MoeGroupedGenericLayout::of(GgmlType::Q4_1, "q4_1", 32, 20),
            MoeGroupedGenericLayout::of(GgmlType::IQ2_S, "iq2_s", 256, 82),
            MoeGroupedGenericLayout::of(GgmlType::IQ3_XXS, "iq3_xxs", 256, 98),
            MoeGroupedGenericLayout::of(GgmlType::IQ3_S, "iq3_s", 256, 110),
            MoeGroupedGenericLayout::of(GgmlType::IQ4_NL, "iq4_nl", 32, 18),
            MoeGroupedGenericLayout::of(GgmlType::IQ4_XS, "iq4_xs", 256, 136),
            MoeGroupedGenericLayout::of(GgmlType::F32, "f32", 32, 128),
            MoeGroupedGenericLayout::of(GgmlType::F16, "f16", 32, 64),
            MoeGroupedGenericLayout::of(GgmlType::BF16, "bf16", 32, 64),
    ];
    assert(layouts@ =~= MoeGroupedGenericLayout::table());
    layouts
}

/// The suffixes differ from each other.
proof fn lemma_suffix_chars()
    ensures
        forall|d1: GgmlType, d2: GgmlType|
            #![trigger MoeGroupedGenericLayout::for_dtype(d1), MoeGroupedGenericLayout::for_dtype(
                d2,
            )]
            d1 != d2 && MoeGroupedGenericLayout::for_dtype(d1) is Some
                && MoeGroupedGenericLayout::for_dtype(d2) is Some
                ==> MoeGroupedGenericLayout::for_dtype(d1)->0.suffix@
                != MoeGroupedGenericLayout::for_dtype(d2)->0.suffix@,
{
    reveal_strlit("q2_K");
    assert("q2_K"@.len() == 4 && "q2_K"@[0] == 'q' && "q2_K"@[1] == '2' && "q2_K"@[2] == '_'
        && "q2_K"@[3] == 'K');
    reveal_strlit("q3_K");
    assert("q3_K"@.len() == 4 && "q3_K"@[0] == 'q' && "q3_K"@[1] == '3' && "q3_K"@[2] == '_'
        && "q3_K"@[3] == 'K');
    reveal_strlit("q4_K");
    assert("q4_K"@.len() == 4 && "q4_K"@[0] == 'q' && "q4_K"@[1] == '4' && "q4_K"@[2] == '_'
        && "q4_K"@[3] == 'K');
    reveal_strlit("q5_K");
    assert("q5_K"@.len() == 4 && "q5_K"@[0] == 'q' && "q5_K"@[1] == '5' && "q5_K"@[2] == '_'
        && "q5_K"@[3] == 'K');
    reveal_strlit("q6_K");
    assert("q6_K"@.len() == 4 && "q6_K"@[0] == 'q' && "q6_K"@[1] == '6' && "q6_K"@[2] == '_'
        && "q6_K"@[3] == 'K');
    reveal_strlit("q8_0");
    assert("q8_0"@.len() == 4 && "q8_0"@[0] == 'q' && "q8_0"@[1] == '8' && "q8_0"@[2] == '_'
        && "q8_0"@[3] == '0');
    reveal_strlit("q4_0");
    assert("q4_0"@.len() == 4 && "q4_0"@[0] == 'q' && "q4_0"@[1] == '4' && "q4_0"@[2] == '_'
        && "q4_0"@[3] == '0');
    reveal_strlit("q4_1");
    assert("q4_1"@.len() == 4 && "q4_1"@[0] == 'q' && "q4_1"@[1] == '4' && "q4_1"@[2] == '_'
        && "q4_1"@[3] == '1');
    reveal_strlit("iq2_s");
    assert("iq2_s"@.len() == 5 && "iq2_s"@[0] == 'i' && "iq2_s"@[1] == 'q'
        && "iq2_s"@[2] == '2' && "iq2_s"@[3] == '_' && "iq2_s"@[4] == 's');
    reveal_strlit("iq3_xxs");
    assert("iq3_xxs"@.len() == 7 && "iq3_xxs"@[0] == 'i' && "iq3_xxs"@[1] == 'q'
        && "iq3_xxs"@[2] == '3' && "iq3_xxs"@[3] == '_' && "iq3_xxs"@[4] == 'x'
        && "iq3_xxs"@[5] == 'x' && "iq3_xxs"@[6] == 's');
    reveal_strlit("iq3_s");
    assert("iq3_s"@.len() == 5 && "iq3_s"@[0] == 'i' && "iq3_s"@[1] == 'q'
        && "iq3_s"@[2] == '3' && "iq3_s"@[3] == '_' && "iq3_s"@[4] == 's');
    reveal_strlit("iq4_nl");
    assert("iq4_nl"@.len() == 6 && "iq4_nl"@[0] == 'i' && "iq4_nl"@[1] == 'q'
        && "iq4_nl"@[2] == '4' && "iq4_nl"@[3] == '_' && "iq4_nl"@[4] == 'n'
        && "iq4_nl"@[5] == 'l');
    reveal_strlit("iq4_xs");
    assert("iq4_xs"@.len() == 6 && "iq4_xs"@[0] == 'i' && "iq4_xs"@[1] == 'q'
        && "iq4_xs"@[2] == '4' && "iq4_xs"@[3] == '_' && "iq4_xs"@[4] == 'x'
        && "iq4_xs"@[5] == 's');
    reveal_strlit("f32");
    assert("f32"@.len() == 3 && "f32"@[0] == 'f' && "f32"@[1] == '3' && "f32"@[2] == '2');
    reveal_strlit("f16");
    assert("f16"@.len() == 3 && "f16"@[0] == 'f' && "f16"@[1] == '1' && "f16"@[2] == '6');
    reveal_strlit("bf16");
    assert("bf16"@.len() == 4 && "bf16"@[0] == 'b' && "bf16"@[1] == 'f' && "bf16"@[2] == '1'
        && "bf16"@[3] == '6');
}

/// The table lists each format that has kernels once, under a suffix of its own.
pub proof fn law_layouts_are_unique()
    ensures
        forall|i: int|
            0 <= i < MoeGroupedGenericLayout::table().len()
                ==> MoeGroupedGenericLayout::for_dtype(
                (#[trigger] MoeGroupedGenericLayout::table()[i]).dtype,
            ) == Some(MoeGroupedGenericLayout::table()[i]),
        forall|dtype: GgmlType|
            (#[trigger] MoeGroupedGenericLayout::for_dtype(dtype)) is Some
                ==> MoeGroupedGenericLayout::table().contains(
                MoeGroupedGenericLayout::for_dtype(dtype)->0,
            ),
        forall|i: int, j: int|
            0 <= i < j < MoeGroupedGenericLayout::table().len() ==> {
                &&& (#[trigger] MoeGroupedGenericLayout::table()[i]).dtype != (
                #[trigger] MoeGroupedGenericLayout::table()[j]).dtype
                &&& MoeGroupedGenericLayout::table()[i].suffix@
                    != MoeGroupedGenericLayout::table()[j].suffix@
            },
{
    lemma_suffix_chars();
    let table = MoeGroupedGenericLayout::table();
    let place = |dtype: GgmlType|
        match dtype {
            GgmlType::Q2_K => 0int,
            GgmlType::Q3_K => 1int,
            GgmlType::Q4_K => 2int,
            GgmlType::Q5_K => 3int,
            GgmlType::Q6_K => 4int,
            GgmlType::Q8_0 => 5int,
            GgmlType::Q4_0 => 6int,
            GgmlType::Q4_1 => 7int,
            GgmlType::IQ2_S => 8int,
            GgmlType::IQ3_XXS => 9int,
            GgmlType::IQ3_S => 10int,
            GgmlType::IQ4_NL => 11int,
            GgmlType::IQ4_XS => 12int,
            GgmlType::F32 => 13int,
            GgmlType::F16 => 14int,
            GgmlType::BF16 => 15int,
            _ => -1int,
        };
    assert forall|i: int| 0 <= i < table.len() implies place((#[trigger] table[i]).dtype) == i
        && MoeGroupedGenericLayout::for_dtype(table[i].dtype) == Some(table[i]) by {
        assert(i == 0 || i == 1 || i == 2 || i == 3
            || i == 4 || i == 5 || i == 6 || i == 7
            || i == 8 || i == 9 || i == 10 || i == 11
            || i == 12 || i == 13 || i == 14 || i == 15);
    }
    assert forall|i: int, j: int| 0 <= i < j < table.len() implies (
    #[trigger] table[i]).dtype != (#[trigger] table[j]).dtype && table[i].suffix@
        != table[j].suffix@ by {
        assert(place(table[i].dtype) == i);
        assert(place(table[j].dtype) == j);
        assert(MoeGroupedGenericLayout::for_dtype(table[i].dtype) == Some(table[i]));
        assert(MoeGroupedGenericLayout::for_dtype(table[j].dtype) == Some(table[j]));
    }
    assert forall|dtype: GgmlType|
        (#[trigger] MoeGroupedGenericLayout::for_dtype(dtype)) is Some implies table.contains(
        MoeGroupedGenericLayout::for_dtype(dtype)->0,
    ) by {
        let l = MoeGroupedGenericLayout::for_dtype(dtype)->0;
        assert(exists|i: int| 0 <= i < table.len() && table[i] == l) by {
            assert(table[0] == l || table[1] == l || table[2] == l || table[3] == l
                || table[4] == l || table[5] == l || table[6] == l || table[7] == l
                || table[8] == l || table[9] == l || table[10] == l || table[11] == l
                || table[12] == l || table[13] == l || table[14] == l || table[15] == l);
        }
    }
}

/// A layout is that of the format's storage. Dense formats are tiled as blocks of
/// 32 elements.
pub proof fn law_layout_matches_storage(dtype: GgmlType)
    ensures
        MoeGroupedGenericLayout::for_dtype(dtype) matches Some(l) ==> l.dtype == dtype
            && dtype.layout() is Some && {
            let (elems, bytes) = dtype.layout()->0;
            if elems == 1 {
                l.block_elems == 32 && l.block_bytes == 32 * bytes
            } else {
                l.block_elems == elems && l.block_bytes == bytes
            }
        },
{
}

/// What a kernel computes.
#[derive(Clone, Copy, Debug, PartialEq, Eq, Structural)]
pub enum MoeGroupedGenericRole {
    /// Each slot's row through its expert.
    Down,
    /// The same, multiplied into `silu` of what the output holds.
    UpSiluMul,
    /// Gate and up of one format, combined.
    Swiglu,
}

impl MoeGroupedGenericRole {
    /// All roles.
    pub fn all() -> (r: Vec<MoeGroupedGenericRole>)
        ensures
            r@ == seq![
                MoeGroupedGenericRole::Down,
                MoeGroupedGenericRole::UpSiluMul,
                MoeGroupedGenericRole::Swiglu,
            ],
            forall|role: MoeGroupedGenericRole| r@.contains(role),
    {
        let roles: Vec<MoeGroupedGenericRole> = vec![
            MoeGroupedGenericRole::Down,
            MoeGroupedGenericRole::UpSiluMul,
            MoeGroupedGenericRole::Swiglu,
        ];
        assert(roles@ =~= seq![
            MoeGroupedGenericRole::Down,
            MoeGroupedGenericRole::UpSiluMul,
            MoeGroupedGenericRole::Swiglu,
        ]);
        assert forall|role: MoeGroupedGenericRole| roles@.contains(role) by {
            match role {
                MoeGroupedGenericRole::Down => assert(roles@[0] == role),
                MoeGroupedGenericRole::UpSiluMul => assert(roles@[1] == role),
                MoeGroupedGenericRole::Swiglu => assert(roles@[2] == role),
            }
        }
        roles
    }

    /// How the names of the role's kernels begin.
    pub open spec fn name_start(self) -> Seq<char> {
        match self {
            MoeGroupedGenericRole::Down => "kernel_moe_down_"@,
            MoeGroupedGenericRole::UpSiluMul => "kernel_moe_up_silu_mul_"@,
            MoeGroupedGenericRole::Swiglu => "kernel_moe_swiglu_"@,
        }
    }

    fn prefix(self) -> (r: &'static str)
        ensures
            r@ == self.name_start(),
    {
        match self {
            MoeGroupedGenericRole::Down => "kernel_moe_down_",
            MoeGroupedGenericRole::UpSiluMul => "kernel_moe_up_silu_mul_",
            MoeGroupedGenericRole::Swiglu => "kernel_moe_swiglu_",
        }
    }

    /// The name of the role's kernel for a format with this suffix.
    pub open spec fn kernel_name(self, suffix: Seq<char>) -> Seq<char> {
        self.name_start() + suffix + "_f32_grouped_slots_generic"@
    }
}

/// The layout of a format, where it has kernels.
pub fn moe_grouped_generic_layout(dtype: GgmlType) -> (r: Option<MoeGroupedGenericLayout>)
    ensures
        r == MoeGroupedGenericLayout::for_dtype(dtype),
{
    match dtype {
        GgmlType::Q2_K => Some(MoeGroupedGenericLayout::of(GgmlType::Q2_K, "q2_K", 256, 84)),
        GgmlType::Q3_K => Some(MoeGroupedGenericLayout::of(GgmlType::Q3_K, "q3_K", 256, 110)),
        GgmlType::Q4_K => Some(MoeGroupedGenericLayout::of(GgmlType::Q4_K, "q4_K", 256, 144)),
        GgmlType::Q5_K => Some(MoeGroupedGenericLayout::of(GgmlType::Q5_K, "q5_K", 256, 176)),
        GgmlType::Q6_K => Some(MoeGroupedGenericLayout::of(GgmlType::Q6_K, "q6_K", 256, 210)),
        GgmlType::Q8_0 => Some(MoeGroupedGenericLayout::of(GgmlType::Q8_0, "q8_0", 32, 34)),
        GgmlType::Q4_0 => Some(MoeGroupedGenericLayout::of(GgmlType::Q4_0, "q4_0", 32, 18)),
        GgmlType::Q4_1 => Some(MoeGroupedGenericLayout::of(GgmlType::Q4_1, "q4_1", 32, 20)),
        GgmlType::IQ2_S => Some(MoeGroupedGenericLayout::of(GgmlType::IQ2_S, "iq2_s", 256, 82)),
        GgmlType::IQ3_XXS => Some(
            MoeGroupedGenericLayout::of(GgmlType::IQ3_XXS, "iq3_xxs", 256, 98),
        ),
        GgmlType::IQ3_S => Some(MoeGroupedGenericLayout::of(GgmlType::IQ3_S, "iq3_s", 256, 110)),
        GgmlType::IQ4_NL => Some(MoeGroupedGenericLayout::of(GgmlType::IQ4_NL, "iq4_nl", 32, 18)),
        GgmlType::IQ4_XS => Some(MoeGroupedGenericLayout::of(GgmlType::IQ4_XS, "iq4_xs", 256, 136)),
        GgmlType::F32 => Some(MoeGroupedGenericLayout::of(GgmlType::F32, "f32", 32, 128)),
        GgmlType::F16 => Some(MoeGroupedGenericLayout::of(GgmlType::F16, "f16", 32, 64)),
        GgmlType::BF16 => Some(MoeGroupedGenericLayout::of(GgmlType::BF16, "bf16", 32, 64)),
        _ => None,
    }
}

/// Whether a format has a kernel for every role.
pub fn moe_grouped_generic_supported(dtype: GgmlType) -> (r: bool)
    ensures
        r == MoeGroupedGenericLayout::for_dtype(dtype) is Some,
{
    moe_grouped_generic_layout(dtype).is_some()
}

/// The name of the kernel of a role for a format.
pub fn moe_grouped_generic_pipeline_name(
    role: MoeGroupedGenericRole,
    dtype: GgmlType,
) -> (r: Option<String>)
    ensures
        match MoeGroupedGenericLayout::for_dtype(dtype) {
            Some(l) => r is Some && r->0@ == role.kernel_name(l.suffix@),
            None => r is None,
        },
{
    match moe_grouped_generic_layout(dtype) {
        Some(l) => {
            let mut name = role.prefix().to_string();
            name.append(l.suffix);
            name.append("_f32_grouped_slots_generic");
            Some(name)
        },
        None => None,
    }
}

/// Kernels of different roles or formats have different names.
pub proof fn law_kernel_names_differ(
    role1: MoeGroupedGenericRole,
    dtype1: GgmlType,
    role2: MoeGroupedGenericRole,
    dtype2: GgmlType,
)
    requires
        MoeGroupedGenericLayout::for_dtype(dtype1) is Some,
        MoeGroupedGenericLayout::for_dtype(dtype2) is Some,
        role1 != role2 || dtype1 != dtype2,
    ensures
        role1.kernel_name(MoeGroupedGenericLayout::for_dtype(dtype1)->0.suffix@)
            != role2.kernel_name(MoeGroupedGenericLayout::for_dtype(dtype2)->0.suffix@),
{
    reveal_strlit("kernel_moe_down_");
    reveal_strlit("kernel_moe_up_silu_mul_");
    reveal_strlit("kernel_moe_swiglu_");
    lemma_suffix_chars();
    assert("kernel_moe_down_"@[11] == 'd');
    assert("kernel_moe_up_silu_mul_"@[11] == 'u');
    assert("kernel_moe_swiglu_"@[11] == 's');
    let s1 = MoeGroupedGenericLayout::for_dtype(dtype1)->0.suffix@;
    let s2 = MoeGroupedGenericLayout::for_dtype(dtype2)->0.suffix@;
    let n1 = role1.kernel_name(s1);
    let n2 = role2.kernel_name(s2);
    if role1 != role2 {
        assert(n1[11] == role1.name_start()[11]);
        assert(n2[11] == role2.name_start()[11]);
    } else {
        let start = role1.name_start();
        let end = "_f32_grouped_slots_generic"@;
        assert(n1.len() == start.len() + s1.len() + end.len());
        assert(n2.len() == start.len() + s2.len() + end.len());
        if n1 == n2 {
            assert(n1.subrange(start.len() as int, (start.len() + s1.len()) as int) =~= s1);
            assert(n2.subrange(start.len() as int, (start.len() + s2.len()) as int) =~= s2);
        }
    }
}

/// What is wrong with an expert bank for `n_expert` experts of `n_rows` rows.
pub open spec fn generic_bank_fault(
    kernel: Seq<char>,
    weight: MetalTensor,
    n_in: usize,
    n_rows: usize,
    n_expert: usize,
) -> Option<Fault> {
    match MoeGroupedGenericLayout::for_dtype(weight.dtype) {
        None => Some(
            Fault::bad_shape(kernel, "no generic grouped instantiation for {}"@).dtype(
                weight.dtype,
            ),
        ),
        Some(l) => {
            let align = numeric::larger(l.block_elems, 32);
            let need = l.row_bytes(n_in) * n_rows * n_expert;
            if n_in == 0 || n_in % align != 0 {
                Some(
                    Fault::bad_shape(kernel, "n_in={} not a positive multiple of {} for {}"@).num(
                        n_in as int,
                    ).num(align as int).dtype(weight.dtype),
                )
            } else if l.row_bytes(n_in) * n_rows > u64::MAX || need > u64::MAX {
                Some(Fault::bad_shape(kernel, "expert bank byte size overflows"@))
            } else if weight.byte_length()->0 < need {
                Some(
                    Fault::bad_shape(
                        kernel,
                        "{} expert bank has {} bytes, need {} for n_in={} rows={} n_expert={}"@,
                    ).dtype(weight.dtype).num(weight.byte_length()->0 as int).num(need).num(
                        n_in as int,
                    ).num(n_rows as int).num(n_expert as int),
                )
            } else if l.row_bytes(n_in) > u32::MAX {
                Some(
                    Fault::bad_shape(kernel, "row stride {} exceeds u32"@).num(
                        l.row_bytes(n_in),
                    ),
                )
            } else {
                None
            }
        },
    }
}

/// A bank without a fault holds every row of every expert, in whole blocks.
pub proof fn law_accepted_bank_holds_all_rows(
    kernel: Seq<char>,
    weight: MetalTensor,
    n_in: usize,
    n_rows: usize,
    n_expert: usize,
)
    requires
        generic_bank_fault(kernel, weight, n_in, n_rows, n_expert) is None,
    ensures
        ({
            let layout = MoeGroupedGenericLayout::for_dtype(weight.dtype);
            &&& layout is Some
            &&& n_in % layout->0.block_elems == 0
            &&& layout->0.row_bytes(n_in) * n_rows * n_expert <= weight.byte_length()->0
        }),
{
    let l = MoeGroupedGenericLayout::for_dtype(weight.dtype)->0;
    assert(l.block_elems == 32 || l.block_elems == 256);
}

/// The inputs on which every size that the check computes exists.
pub open spec fn generic_bank_defined(
    weight: MetalTensor,
    n_in: usize,
    n_rows: usize,
    n_expert: usize,
) -> bool {
    match MoeGroupedGenericLayout::for_dtype(weight.dtype) {
        None => true,
        Some(l) => n_in > 0 && n_in % l.block_elems == 0 ==> {
            &&& l.row_bytes(n_in) <= usize::MAX
            &&& l.row_bytes(n_in) * n_rows <= u64::MAX && l.row_bytes(n_in) * n_rows * n_expert
                <= u64::MAX ==> weight.byte_length() is Some
        },
    }
}

/// The layout of an expert bank that holds `n_expert` experts of `n_rows` rows.
pub fn generic_layout_for(
    kernel: &'static str,
    weight: &MetalTensor,
    n_in: usize,
    n_rows: usize,
    n_expert: usize,
) -> (r: Result<MoeGroupedGenericLayout, MetalError>)
    requires
        generic_bank_defined(*weight, n_in, n_rows, n_expert),
    ensures
        match generic_bank_fault(kernel@, *weight, n_in, n_rows, n_expert) {
            Some(fault) => r is Err && r->Err_0@ == fault,
            None => r is Ok && Some(r->Ok_0) == MoeGroupedGenericLayout::for_dtype(weight.dtype),
        },
{
    let l = match moe_grouped_generic_layout(weight.dtype) {
        Some(l) => l,
        None => {
            return Err(
                bad_shape(kernel, "no generic grouped instantiation for {}").dtype(weight.dtype),
            );
        },
    };
    let align: usize = max_size(l.block_elems, 32);
    if n_in == 0 || n_in % align != 0 {
        return Err(
            bad_shape(kernel, "n_in={} not a positive multiple of {} for {}").num(n_in).num(
                align,
            ).dtype(weight.dtype),
        );
    }
    let row_bytes: usize = product(n_in / l.block_elems, l.block_bytes);
    let bank_rows: u64 = match (row_bytes as u64).checked_mul(n_rows as u64) {
        Some(n) => n,
        None => {
            return Err(bad_shape(kernel, "expert bank byte size overflows"));
        },
    };
    let need: u64 = match bank_rows.checked_mul(n_expert as u64) {
        Some(n) => n,
        None => {
            return Err(bad_shape(kernel, "expert bank byte size overflows"));
        },
    };
    if weight.n_bytes() < need {
        return Err(
            bad_shape(
                kernel,
                "{} expert bank has {} bytes, need {} for n_in={} rows={} n_expert={}",
            ).dtype(weight.dtype).num_u64(weight.n_bytes()).num_u64(need).num(n_in).num(n_rows).num(
                n_expert,
            ),
        );
    }
    if row_bytes > u32::MAX as usize {
        return Err(bad_shape(kernel, "row stride {} exceeds u32").num(row_bytes));
    }
    Ok(l)
}

/// One product per slot. Slot `s` reads source row `s / b_div`; the number of slots
/// is that of the whole rows in `out`.
pub open spec fn generic_mm(
    ctx: MetalContext,
    role: MoeGroupedGenericRole,
    kernel: &'static str,
    weight: MetalTensor,
    src: MetalTensor,
    counts: MetalTensor,
    ids: MetalTensor,
    out: MetalTensor,
    n_in: usize,
    n_out: usize,
    n_expert: usize,
    n_tokens: usize,
    b_div: usize,
    min_count: u32,
    max_count: u32,
) -> Outcome {
    let l = MoeGroupedGenericLayout::for_dtype(weight.dtype)->0;
    let slot_count = out.count() / n_out;
    let src_rows = numeric::div_up(slot_count, b_div);
    if generic_bank_fault(kernel@, weight, n_in, n_out, n_expert) is Some {
        Outcome::Refused(generic_bank_fault(kernel@, weight, n_in, n_out, n_expert)->0)
    } else if n_out == 0 || b_div == 0 || n_tokens == 0 || n_expert == 0 {
        Outcome::Refused(
            Fault::bad_shape(
                kernel@,
                "degenerate shape n_out={} b_div={} n_tokens={} n_expert={}"@,
            ).num(n_out as int).num(b_div as int).num(n_tokens as int).num(n_expert as int),
        )
    } else if out.count() != slot_count * n_out || src.count() != src_rows * n_in || counts.count()
        != n_expert || ids.count() != n_expert * n_tokens {
        Outcome::Refused(
            Fault::bad_shape(
                kernel@,
                "shape mismatch: src={} counts={} ids={} out={} expected src={} counts={} ids={} out=k*{}"@,
            ).num(src.elements() as int).num(counts.elements() as int).num(
                ids.elements() as int,
            ).num(out.elements() as int).num(src_rows * n_in).num(n_expert as int).num(
                n_expert * n_tokens,
            ).num(n_out as int),
        )
    } else {
        Outcome::launch(
            ctx,
            Launch {
                pipeline: role.kernel_name(l.suffix@),
                words: seq![
                    n_out as u32,
                    n_tokens as u32,
                    n_in as u32,
                    l.row_bytes(n_in) as u32,
                    n_in as u32,
                    min_count,
                    max_count,
                    b_div as u32,
                    slot_count as u32,
                ],
                tensors: seq![
                    weight.place(),
                    src.place(),
                    counts.place(),
                    ids.place(),
                    out.place(),
                ],
                scratch: seq![8192usize],
                threadgroups: MTLSize {
                    width: numeric::div_up(n_tokens, 32),
                    height: numeric::div_up(n_out, 64),
                    depth: n_expert,
                },
                threads: MTLSize { width: 128, height: 1, depth: 1 },
            },
        )
    }
}

/// The inputs on which every size that the checks compute exists.
pub open spec fn generic_mm_defined(
    role: MoeGroupedGenericRole,
    kernel: &'static str,
    weight: MetalTensor,
    src: MetalTensor,
    counts: MetalTensor,
    ids: MetalTensor,
    out: MetalTensor,
    n_in: usize,
    n_out: usize,
    n_expert: usize,
    n_tokens: usize,
    b_div: usize,
) -> bool {
    &&& role != MoeGroupedGenericRole::Swiglu
    &&& src.wf() && counts.wf() && ids.wf() && out.wf()
    &&& generic_bank_defined(weight, n_in, n_out, n_expert)
    &&& generic_bank_fault(kernel@, weight, n_in, n_out, n_expert) is None && n_out > 0 && b_div > 0
        && n_tokens > 0 && n_expert > 0 ==> {
        &&& numeric::div_up(out.count() / n_out, b_div) * n_in <= usize::MAX
        &&& n_expert * n_tokens <= usize::MAX
    }
}

pub fn encode_generic_mm(
    ctx: &MetalContext,
    enc: &mut KernelEncoder,
    role: MoeGroupedGenericRole,
    kernel: &'static str,
    weight: &MetalTensor,
    src: &MetalTensor,
    counts: &MetalTensor,
    ids: &MetalTensor,
    out: &MetalTensor,
    n_in: usize,
    n_out: usize,
    n_expert: usize,
    n_tokens: usize,
    b_div: usize,
    min_count: u32,
    max_count: u32,
) -> (r: Result<(), MetalError>)
    requires
        generic_mm_defined(
            role, kernel,
            *weight, *src, *counts, *ids, *out, n_in, n_out, n_expert, n_tokens, b_div,
        ),
    ensures
        old(enc).did(
            *final(enc),
            r,
            generic_mm(
                *ctx, role, kernel,
                *weight, *src, *counts, *ids, *out, n_in, n_out, n_expert, n_tokens, b_div,
                min_count, max_count,
            ),
        ),
{
    let l = match generic_layout_for(kernel, weight, n_in, n_out, n_expert) {
        Ok(l) => l,
        Err(e) => {
            return Err(e);
        },
    };
    if n_out == 0 || b_div == 0 || n_tokens == 0 || n_expert == 0 {
        return Err(
            bad_shape(
                kernel,
                "degenerate shape n_out={} b_div={} n_tokens={} n_expert={}",
            ).num(n_out).num(b_div).num(n_tokens).num(n_expert),
        );
    }
    let out_count: usize = out.element_count();
    let slot_count: usize = out_count / n_out;
    proof {
        assert(slot_count * n_out <= out_count) by (nonlinear_arith)
            requires
                slot_count == out_count / n_out,
                n_out > 0,
        ;
    }
    let src_rows: usize = div_ceil(slot_count, b_div);
    let expected_out: usize = product(slot_count, n_out);
    let expected_src: usize = product(src_rows, n_in);
    let expected_ids: usize = product(n_expert, n_tokens);
    if out_count != expected_out || src.element_count() != expected_src || counts.element_count()
        != n_expert || ids.element_count() != expected_ids {
        return Err(
            bad_shape(
                kernel,
                "shape mismatch: src={} counts={} ids={} out={} expected src={} counts={} ids={} out=k*{}",
            ).num_u64(src.n_elements()).num_u64(counts.n_elements()).num_u64(
                ids.n_elements(),
            ).num_u64(out.n_elements()).num(expected_src).num(n_expert).num(expected_ids).num(
                n_out,
            ),
        );
    }
    let mut name = role.prefix().to_string();
    name.append(l.suffix);
    name.append("_f32_grouped_slots_generic");
    let stride: u32 = product(n_in / l.block_elems, l.block_bytes) as u32;
    let words: Vec<u32> = vec![
        n_out as u32,
        n_tokens as u32,
        n_in as u32,
        stride,
        n_in as u32,
        min_count,
        max_count,
        b_div as u32,
        slot_count as u32,
    ];
    assert(words@ =~= seq![
        n_out as u32,
        n_tokens as u32,
        n_in as u32,
        l.row_bytes(n_in) as u32,
        n_in as u32,
        min_count,
        max_count,
        b_div as u32,
        slot_count as u32,
    ]);
    let tensors = [weight.binding(), src.binding(), counts.binding(), ids.binding(), out.binding()];
    assert(tensors@ =~= seq![
        weight.place(),
        src.place(),
        counts.place(),
        ids.place(),
        out.place(),
    ]);
    let scratch = [8192usize];
    assert(scratch@ =~= seq![8192usize]);
    enc.launch(
        ctx,
        name.as_str(),
        words,
        &tensors,
        &scratch,
        MTLSize { width: div_ceil(n_tokens, 32), height: div_ceil(n_out, 64), depth: n_expert },
        MTLSize { width: 128, height: 1, depth: 1 },
    )
}

/// Down projection of grouped slots, for the experts with `min_count` to
/// `max_count` slots, through a bank of any supported format.
pub fn encode_moe_down_f32_grouped_slots_generic_range(
    ctx: &MetalContext,
    enc: &mut KernelEncoder,
    weight: &MetalTensor,
    inner: &MetalTensor,
    counts: &MetalTensor,
    ids: &MetalTensor,
    out: &MetalTensor,
    n_in: usize,
    n_out: usize,
    n_expert: usize,
    n_tokens: usize,
    min_count: u32,
    max_count: u32,
) -> (r: Result<(), MetalError>)
    requires
        generic_mm_defined(
            MoeGroupedGenericRole::Down, "moe_down_grouped_slots_generic",
            *weight, *inner, *counts, *ids, *out, n_in, n_out, n_expert, n_tokens, 1,
        ),
    ensures
        old(enc).did(
            *final(enc),
            r,
            generic_mm(
                *ctx, MoeGroupedGenericRole::Down, "moe_down_grouped_slots_generic",
                *weight, *inner, *counts, *ids, *out, n_in, n_out, n_expert, n_tokens, 1,
                min_count, max_count,
            ),
        ),
{
    encode_generic_mm(
        ctx, enc, MoeGroupedGenericRole::Down, "moe_down_grouped_slots_generic",
        weight, inner, counts, ids, out, n_in, n_out, n_expert, n_tokens, 1, min_count,
        max_count,
    )
}

/// Down projection of grouped slots, for every expert, through a bank of any
/// supported format.
pub fn encode_moe_down_f32_grouped_slots_generic(
    ctx: &MetalContext,
    enc: &mut KernelEncoder,
    weight: &MetalTensor,
    inner: &MetalTensor,
    counts: &MetalTensor,
    ids: &MetalTensor,
    out: &MetalTensor,
    n_in: usize,
    n_out: usize,
    n_expert: usize,
    n_tokens: usize,
) -> (r: Result<(), MetalError>)
    requires
        generic_mm_defined(
            MoeGroupedGenericRole::Down, "moe_down_grouped_slots_generic",
            *weight, *inner, *counts, *ids, *out, n_in, n_out, n_expert, n_tokens, 1,
        ),
    ensures
        old(enc).did(
            *final(enc),
            r,
            generic_mm(
                *ctx, MoeGroupedGenericRole::Down, "moe_down_grouped_slots_generic",
                *weight, *inner, *counts, *ids, *out, n_in, n_out, n_expert, n_tokens, 1, 0,
                MAX_COUNT,
            ),
        ),
{
    encode_generic_mm(
        ctx, enc, MoeGroupedGenericRole::Down, "moe_down_grouped_slots_generic",
        weight, inner, counts, ids, out, n_in, n_out, n_expert, n_tokens, 1, 0, MAX_COUNT,
    )
}

/// An output of one row per slot has `n_tokens` source rows, `topk` slots to each.
pub proof fn lemma_slot_rows(count: usize, n_ffn: usize, topk: usize, n_tokens: usize)
    requires
        n_ffn > 0,
        topk > 0,
        count == n_tokens * topk * n_ffn,
    ensures
        count / n_ffn == n_tokens * topk,
        count == (count / n_ffn) * n_ffn,
        numeric::div_up((count / n_ffn) as usize, topk) == n_tokens,
{
    vstd::arithmetic::div_mod::lemma_div_multiples_vanish(n_tokens * topk, n_ffn as int);
    assert((n_tokens * topk) * n_ffn == n_ffn * (n_tokens * topk)) by (nonlinear_arith);
    assert(count / n_ffn == n_tokens * topk);
    vstd::arithmetic::div_mod::lemma_div_multiples_vanish(n_tokens as int, topk as int);
    vstd::arithmetic::div_mod::lemma_mod_multiples_basic(n_tokens as int, topk as int);
    assert(n_tokens * topk == topk * n_tokens) by (nonlinear_arith);
}

/// SwiGLU of grouped slots through banks of any supported formats. Banks of one
/// format take one launch. Banks of different formats take two that depend on each
/// other, so they need an encoder that keeps launches in order.
pub open spec fn generic_swiglu(
    ctx: MetalContext,
    concurrent: bool,
    w_gate: MetalTensor,
    w_up: MetalTensor,
    x_pack: MetalTensor,
    counts: MetalTensor,
    ids: MetalTensor,
    inner: MetalTensor,
    n_hidden: usize,
    n_ffn: usize,
    n_expert: usize,
    topk: usize,
    n_tokens: usize,
    min_count: u32,
    max_count: u32,
) -> Outcome {
    let l = MoeGroupedGenericLayout::for_dtype(w_gate.dtype)->0;
    if topk == 0 || n_ffn == 0 || n_tokens == 0 || n_expert == 0 {
        Outcome::Refused(
            Fault::bad_shape(
                "moe_swiglu_grouped_slots_generic"@,
                "degenerate shape topk={} n_ffn={} n_tokens={} n_expert={}"@,
            ).num(topk as int).num(n_ffn as int).num(n_tokens as int).num(n_expert as int),
        )
    } else if !moe_grouped::slot_counts_match(
        x_pack, counts, ids, inner, n_hidden, n_ffn, n_expert, topk, n_tokens,
    ) {
        Outcome::Refused(
            moe_grouped::slot_count_fault(
                "moe_swiglu_grouped_slots_generic"@,
                "shape mismatch x={} counts={} ids={} inner={} expected x={} counts={} ids={} inner={}"@,
                x_pack, counts, ids, inner, n_hidden, n_ffn, n_expert, topk, n_tokens,
            ),
        )
    } else if w_gate.dtype != w_up.dtype && concurrent {
        Outcome::Refused(
            Fault::bad_shape(
                "moe_swiglu_grouped_slots_generic"@,
                "mixed gate/up dtypes {}/{} need two dependent dispatches; a concurrent encoder cannot order them"@,
            ).dtype(w_gate.dtype).dtype(w_up.dtype),
        )
    } else if w_gate.dtype != w_up.dtype {
        generic_mm(
            ctx, MoeGroupedGenericRole::Down, "moe_swiglu_grouped_slots_generic",
            w_gate, x_pack, counts, ids, inner, n_hidden, n_ffn, n_expert, n_tokens, topk,
            min_count, max_count,
        ).and_next(
            generic_mm(
                ctx, MoeGroupedGenericRole::UpSiluMul, "moe_swiglu_grouped_slots_generic",
                w_up, x_pack, counts, ids, inner, n_hidden, n_ffn, n_expert, n_tokens, topk,
                min_count, max_count,
            ),
        )
    } else if generic_bank_fault(
        "moe_swiglu_grouped_slots_generic"@,
        w_gate,
        n_hidden,
        n_ffn,
        n_expert,
    ) is Some {
        Outcome::Refused(
            generic_bank_fault(
                "moe_swiglu_grouped_slots_generic"@,
                w_gate,
                n_hidden,
                n_ffn,
                n_expert,
            )->0,
        )
    } else if generic_bank_fault(
        "moe_swiglu_grouped_slots_generic"@,
        w_up,
        n_hidden,
        n_ffn,
        n_expert,
    ) is Some {
        Outcome::Refused(
            generic_bank_fault(
                "moe_swiglu_grouped_slots_generic"@,
                w_up,
                n_hidden,
                n_ffn,
                n_expert,
            )->0,
        )
    } else {
        Outcome::launch(
            ctx,
            Launch {
                pipeline: MoeGroupedGenericRole::Swiglu.kernel_name(l.suffix@),
                words: moe_grouped::slot_words(
                    n_hidden,
                    n_ffn,
                    n_expert,
                    topk,
                    n_tokens,
                    l.row_bytes(n_hidden) as u32,
                    min_count,
                    max_count,
                ),
                tensors: seq![
                    w_gate.place(),
                    w_up.place(),
                    x_pack.place(),
                    counts.place(),
                    ids.place(),
                    inner.place(),
                ],
                scratch: seq![16384usize],
                threadgroups: MTLSize {
                    width: numeric::div_up(n_tokens, 16),
                    height: numeric::div_up(n_ffn, 64),
                    depth: n_expert,
                },
                threads: MTLSize { width: 128, height: 1, depth: 1 },
            },
        )
    }
}

/// The inputs on which every size that the checks compute exists.
pub open spec fn generic_swiglu_defined(
    concurrent: bool,
    w_gate: MetalTensor,
    w_up: MetalTensor,
    x_pack: MetalTensor,
    counts: MetalTensor,
    ids: MetalTensor,
    inner: MetalTensor,
    n_hidden: usize,
    n_ffn: usize,
    n_expert: usize,
    topk: usize,
    n_tokens: usize,
) -> bool {
    &&& x_pack.wf() && counts.wf() && ids.wf() && inner.wf()
    &&& topk > 0 && n_ffn > 0 && n_tokens > 0 && n_expert > 0 ==> {
        &&& moe_grouped::slot_sizes_exist(n_hidden, n_ffn, n_expert, topk, n_tokens)
        &&& moe_grouped::slot_counts_match(
            x_pack, counts, ids, inner, n_hidden, n_ffn, n_expert, topk, n_tokens,
        ) && !(w_gate.dtype != w_up.dtype && concurrent) ==> {
            &&& generic_bank_defined(w_gate, n_hidden, n_ffn, n_expert)
            &&& generic_bank_fault(
                "moe_swiglu_grouped_slots_generic"@,
                w_gate,
                n_hidden,
                n_ffn,
                n_expert,
            ) is None
                ==> generic_bank_defined(w_up, n_hidden, n_ffn, n_expert)
        }
    }
}

/// Banks of different formats are never launched on an encoder that may run launches
/// at the same time.
pub proof fn law_mixed_formats_need_order(
    ctx: MetalContext,
    w_gate: MetalTensor,
    w_up: MetalTensor,
    x_pack: MetalTensor,
    counts: MetalTensor,
    ids: MetalTensor,
    inner: MetalTensor,
    n_hidden: usize,
    n_ffn: usize,
    n_expert: usize,
    topk: usize,
    n_tokens: usize,
    min_count: u32,
    max_count: u32,
)
    requires
        w_gate.dtype != w_up.dtype,
    ensures
        generic_swiglu(
            ctx,
            true,
            w_gate,
            w_up,
            x_pack,
            counts,
            ids,
            inner,
            n_hidden,
            n_ffn,
            n_expert,
            topk,
            n_tokens,
            min_count,
            max_count,
        ) is Refused,
{
}

fn encode_generic_swiglu(
    ctx: &MetalContext,
    enc: &mut KernelEncoder,
    w_gate: &MetalTensor,
    w_up: &MetalTensor,
    x_pack: &MetalTensor,
    counts: &MetalTensor,
    ids: &MetalTensor,
    inner: &MetalTensor,
    n_hidden: usize,
    n_ffn: usize,
    n_expert: usize,
    topk: usize,
    n_tokens: usize,
    min_count: u32,
    max_count: u32,
) -> (r: Result<(), MetalError>)
    requires
        generic_swiglu_defined(
            old(enc).concurrent,
            *w_gate, *w_up, *x_pack, *counts, *ids, *inner, n_hidden, n_ffn, n_expert, topk,
            n_tokens,
        ),
    ensures
        old(enc).did(
            *final(enc),
            r,
            generic_swiglu(
                *ctx, old(enc).concurrent,
                *w_gate, *w_up, *x_pack, *counts, *ids, *inner, n_hidden, n_ffn, n_expert, topk,
                n_tokens, min_count, max_count,
            ),
        ),
{
    if topk == 0 || n_ffn == 0 || n_tokens == 0 || n_expert == 0 {
        return Err(
            bad_shape(
                "moe_swiglu_grouped_slots_generic",
                "degenerate shape topk={} n_ffn={} n_tokens={} n_expert={}",
            ).num(topk).num(n_ffn).num(n_tokens).num(n_expert),
        );
    }
    match check_slot_counts(
        "moe_swiglu_grouped_slots_generic",
        "shape mismatch x={} counts={} ids={} inner={} expected x={} counts={} ids={} inner={}",
        x_pack, counts, ids, inner, n_hidden, n_ffn, n_expert, topk, n_tokens,
    ) {
        Ok(()) => {},
        Err(e) => {
            return Err(e);
        },
    }
    if w_gate.dtype != w_up.dtype {
        if enc.is_concurrent() {
            return Err(
                bad_shape(
                    "moe_swiglu_grouped_slots_generic",
                    "mixed gate/up dtypes {}/{} need two dependent dispatches; a concurrent encoder cannot order them",
                ).dtype(w_gate.dtype).dtype(w_up.dtype),
            );
        }
        proof {
            lemma_slot_rows(inner.count(), n_ffn, topk, n_tokens);
        }
        let ghost before = enc@;
        let ghost gate = generic_mm(
            *ctx, MoeGroupedGenericRole::Down, "moe_swiglu_grouped_slots_generic",
            *w_gate, *x_pack, *counts, *ids, *inner, n_hidden, n_ffn, n_expert, n_tokens, topk,
            min_count, max_count,
        );
        let ghost up = generic_mm(
            *ctx, MoeGroupedGenericRole::UpSiluMul, "moe_swiglu_grouped_slots_generic",
            *w_up, *x_pack, *counts, *ids, *inner, n_hidden, n_ffn, n_expert, n_tokens, topk,
            min_count, max_count,
        );
        match encode_generic_mm(
            ctx, enc, MoeGroupedGenericRole::Down, "moe_swiglu_grouped_slots_generic",
            w_gate, x_pack, counts, ids, inner, n_hidden, n_ffn, n_expert, n_tokens, topk,
            min_count, max_count,
        ) {
            Ok(()) => {},
            Err(e) => {
                return Err(e);
            },
        }
        let ghost between = enc@;
        let second = encode_generic_mm(
            ctx, enc, MoeGroupedGenericRole::UpSiluMul, "moe_swiglu_grouped_slots_generic",
            w_up, x_pack, counts, ids, inner, n_hidden, n_ffn, n_expert, n_tokens, topk,
            min_count, max_count,
        );
        proof {
            if up is Recorded {
                assert(enc@ =~= before + (gate->Recorded_0 + up->Recorded_0));
            }
        }
        return second;
    }
    let l = match generic_layout_for(
        "moe_swiglu_grouped_slots_generic",
        w_gate,
        n_hidden,
        n_ffn,
        n_expert,
    ) {
        Ok(l) => l,
        Err(e) => {
            return Err(e);
        },
    };
    match generic_layout_for("moe_swiglu_grouped_slots_generic", w_up, n_hidden, n_ffn, n_expert) {
        Ok(_) => {},
        Err(e) => {
            return Err(e);
        },
    }
    let mut name = MoeGroupedGenericRole::Swiglu.prefix().to_string();
    name.append(l.suffix);
    name.append("_f32_grouped_slots_generic");
    let stride: u32 = product(n_hidden / l.block_elems, l.block_bytes) as u32;
    let words = encode_slot_words(
        n_hidden, n_ffn, n_expert, topk, n_tokens, stride, min_count, max_count,
    );
    let tensors = [
        w_gate.binding(),
        w_up.binding(),
        x_pack.binding(),
        counts.binding(),
        ids.binding(),
        inner.binding(),
    ];
    assert(tensors@ =~= seq![
        w_gate.place(),
        w_up.place(),
        x_pack.place(),
        counts.place(),
        ids.place(),
        inner.place(),
    ]);
    let scratch = [16384usize];
    assert(scratch@ =~= seq![16384usize]);
    enc.launch(
        ctx,
        name.as_str(),
        words,
        &tensors,
        &scratch,
        MTLSize { width: div_ceil(n_tokens, 16), height: div_ceil(n_ffn, 64), depth: n_expert },
        MTLSize { width: 128, height: 1, depth: 1 },
    )
}

/// SwiGLU of grouped slots, for the experts with `min_count` to `max_count` slots,
/// through banks of any supported formats.
pub fn encode_moe_swiglu_f32_grouped_slots_generic_range(
    ctx: &MetalContext,
    enc: &mut KernelEncoder,
    w_gate: &MetalTensor,
    w_up: &MetalTensor,
    x_pack: &MetalTensor,
    counts: &MetalTensor,
    ids: &MetalTensor,
    inner: &MetalTensor,
    n_hidden: usize,
    n_ffn: usize,
    n_expert: usize,
    topk: usize,
    n_tokens: usize,
    min_count: u32,
    max_count: u32,
) -> (r: Result<(), MetalError>)
    requires
        generic_swiglu_defined(
            old(enc).concurrent,
            *w_gate, *w_up, *x_pack, *counts, *ids, *inner, n_hidden, n_ffn, n_expert, topk,
            n_tokens,
        ),
    ensures
        old(enc).did(
            *final(enc),
            r,
            generic_swiglu(
                *ctx, old(enc).concurrent,
                *w_gate, *w_up, *x_pack, *counts, *ids, *inner, n_hidden, n_ffn, n_expert, topk,
                n_tokens, min_count, max_count,
            ),
        ),
{
    encode_generic_swiglu(
        ctx, enc,
        w_gate, w_up, x_pack, counts, ids, inner, n_hidden, n_ffn, n_expert, topk, n_tokens,
        min_count, max_count,
    )
}

/// SwiGLU of grouped slots, for every expert, through banks of any supported
/// formats.
pub fn encode_moe_swiglu_f32_grouped_slots_generic(
    ctx: &MetalContext,
    enc: &mut KernelEncoder,
    w_gate: &MetalTensor,
    w_up: &MetalTensor,
    x_pack: &MetalTensor,
    counts: &MetalTensor,
    ids: &MetalTensor,
    inner: &MetalTensor,
    n_hidden: usize,
    n_ffn: usize,
    n_expert: usize,
    topk: usize,
    n_tokens: usize,
) -> (r: Result<(), MetalError>)
    requires
        generic_swiglu_defined(
            old(enc).concurrent,
            *w_gate, *w_up, *x_pack, *counts, *ids, *inner, n_hidden, n_ffn, n_expert, topk,
            n_tokens,
        ),
    ensures
        old(enc).did(
            *final(enc),
            r,
            generic_swiglu(
                *ctx, old(enc).concurrent,
                *w_gate, *w_up, *x_pack, *counts, *ids, *inner, n_hidden, n_ffn, n_expert, topk,
                n_tokens, 0, MAX_COUNT,
            ),
        ),
{
    encode_generic_swiglu(
        ctx, enc,
        w_gate, w_up, x_pack, counts, ids, inner, n_hidden, n_ffn, n_expert, topk, n_tokens, 0,
        MAX_COUNT,
    )
}

} // verus!
