//! Grouped mixture-of-experts kernels for any expert format.

use qwen_metal::context::{DeviceLimits, KernelSwitches, MetalContext, Pipeline};
use qwen_metal::dtype::GgmlType;
use qwen_metal::encoder::{Command, KernelEncoder, MTLSize};
use qwen_metal::error::MetalError;
use qwen_metal::moe_generic::{
    encode_moe_down_f32_grouped_slots_generic, encode_moe_down_f32_grouped_slots_generic_range,
    encode_moe_swiglu_f32_grouped_slots_generic,
    encode_moe_swiglu_f32_grouped_slots_generic_range, moe_grouped_generic_layout,
    moe_grouped_generic_layouts, moe_grouped_generic_pipeline_name,
    moe_grouped_generic_supported, MoeGroupedGenericRole,
};
use qwen_metal::tensor::MetalTensor;

/// Every `GgmlType` variant (the enum has no iterator).
const ALL_GGML_TYPES: &[GgmlType] = &[
    GgmlType::F32,
    GgmlType::F16,
    GgmlType::Q4_0,
    GgmlType::Q4_1,
    GgmlType::Q5_0,
    GgmlType::Q5_1,
    GgmlType::Q8_0,
    GgmlType::Q8_1,
    GgmlType::Q2_K,
    GgmlType::Q3_K,
    GgmlType::Q4_K,
    GgmlType::Q5_K,
    GgmlType::Q6_K,
    GgmlType::Q8_K,
    GgmlType::IQ2_XXS,
    GgmlType::IQ2_XS,
    GgmlType::IQ3_XXS,
    GgmlType::IQ1_S,
    GgmlType::IQ4_NL,
    GgmlType::IQ3_S,
    GgmlType::IQ2_S,
    GgmlType::IQ4_XS,
    GgmlType::I8,
    GgmlType::I16,
    GgmlType::I32,
    GgmlType::I64,
    GgmlType::F64,
    GgmlType::IQ1_M,
    GgmlType::BF16,
    GgmlType::MXFP4,
    GgmlType::Unknown,
];

/// The formats in which expert banks stay on the device.
const RESIDENT: &[GgmlType] = &[
    GgmlType::Q2_K,
    GgmlType::Q3_K,
    GgmlType::Q4_K,
    GgmlType::Q5_K,
    GgmlType::Q6_K,
    GgmlType::Q8_0,
    GgmlType::Q4_0,
    GgmlType::Q4_1,
    GgmlType::IQ2_S,
    GgmlType::IQ3_XXS,
    GgmlType::IQ3_S,
    GgmlType::IQ4_NL,
    GgmlType::IQ4_XS,
    GgmlType::F32,
    GgmlType::F16,
    GgmlType::BF16,
];

/// Formats that stay on the device without a grouped kernel.
const EXCLUDED: &[(GgmlType, &str)] = &[];

fn context() -> MetalContext {
    let mut pipelines = Vec::new();
    for l in moe_grouped_generic_layouts() {
        for role in MoeGroupedGenericRole::all() {
            pipelines.push(Pipeline {
                name: moe_grouped_generic_pipeline_name(role, l.dtype).unwrap(),
                max_total_threads: 1024,
                static_threadgroup_memory: 0,
            });
        }
    }
    MetalContext::new(
        DeviceLimits {
            max_buffer_length: 1 << 30,
            max_threadgroup_memory: 32 * 1024,
        },
        KernelSwitches {
            l2_pair_hd128_r4: true,
            rmsnorm_gated_hd128_r4: true,
        },
        pipelines,
    )
}

/// Uneven expert loads: expert 0 gets more than 32 slots, expert 3 a small partial
/// tile, expert 4 nothing.
struct Routing {
    n_tokens: usize,
    topk: usize,
    n_expert: usize,
    counts: Vec<i32>,
    ids: Vec<i32>,
}

fn routing() -> Routing {
    let (n_tokens, topk, n_expert) = (45usize, 2usize, 5usize);
    let mut slot_expert = vec![0; n_tokens * topk];
    for t in 0..n_tokens {
        slot_expert[t * topk] = if t % 5 == 0 { 3 } else { 0 };
        slot_expert[t * topk + 1] = 1 + t % 2;
    }
    let mut counts = vec![0i32; n_expert];
    let mut ids = vec![-1i32; n_expert * n_tokens];
    for (slot, &e) in slot_expert.iter().enumerate() {
        let e: usize = e;
        ids[e * n_tokens + counts[e] as usize] = slot as i32;
        counts[e] += 1;
    }
    assert!(counts[0] > 32 && counts[3] < 16 && counts[4] == 0);
    Routing {
        n_tokens,
        topk,
        n_expert,
        counts,
        ids,
    }
}

fn i32_tensor(ctx: &mut MetalContext, v: &[i32]) -> MetalTensor {
    MetalTensor::from_bytes(
        ctx,
        bytemuck::cast_slice(v),
        vec![v.len() as u64],
        GgmlType::F32,
    )
    .expect("i32 tensor")
}

fn bank_tensor(
    ctx: &mut MetalContext,
    dtype: GgmlType,
    n_in: usize,
    n_rows: usize,
    n_expert: usize,
) -> MetalTensor {
    MetalTensor::zeros_dtype(
        ctx,
        vec![n_in as u64, n_rows as u64, n_expert as u64],
        dtype,
    )
    .expect("expert bank tensor")
}

const DOWN_N_IN: usize = 512;
const DOWN_N_OUT: usize = 320;
const GU_N_HIDDEN: usize = 512;
const GU_N_FFN: usize = 192;

/// Launch SwiGLU through banks of these formats and count the dispatches.
fn swiglu_dispatches(ctx: &mut MetalContext, gate: GgmlType, up: GgmlType) -> usize {
    let (n_hidden, n_ffn, n_expert, topk, n_tokens) = (2048usize, 512usize, 2, 1, 3);
    let g = bank_tensor(ctx, gate, n_hidden, n_ffn, n_expert);
    let u = bank_tensor(ctx, up, n_hidden, n_ffn, n_expert);
    let x = MetalTensor::zeros_f32(ctx, vec![(n_tokens * n_hidden) as u64]).unwrap();
    let counts = i32_tensor(ctx, &vec![0; n_expert]);
    let ids = i32_tensor(ctx, &vec![0; n_expert * n_tokens]);
    let inner = MetalTensor::zeros_f32(ctx, vec![(n_tokens * topk * n_ffn) as u64]).unwrap();
    let mut enc = KernelEncoder::begin();
    encode_moe_swiglu_f32_grouped_slots_generic(
        ctx, &mut enc, &g, &u, &x, &counts, &ids, &inner, n_hidden, n_ffn, n_expert, topk,
        n_tokens,
    )
    .unwrap_or_else(|e| panic!("SwiGLU rejects {gate:?}/{up:?}: {e:?}"));
    enc.end()
        .iter()
        .filter(|c| matches!(c, Command::Dispatch { .. }))
        .count()
}

fn down_is_accepted(ctx: &mut MetalContext, dtype: GgmlType) -> bool {
    let (n_in, n_out, n_expert, n_tokens) = (512usize, 2048usize, 2usize, 3usize);
    let w = bank_tensor(ctx, dtype, n_in, n_out, n_expert);
    let inner = MetalTensor::zeros_f32(ctx, vec![(n_tokens * n_in) as u64]).unwrap();
    let counts = i32_tensor(ctx, &vec![0; n_expert]);
    let ids = i32_tensor(ctx, &vec![0; n_expert * n_tokens]);
    let out = MetalTensor::zeros_f32(ctx, vec![(n_tokens * n_out) as u64]).unwrap();
    let mut enc = KernelEncoder::begin();
    encode_moe_down_f32_grouped_slots_generic(
        ctx, &mut enc, &w, &inner, &counts, &ids, &out, n_in, n_out, n_expert, n_tokens,
    )
    .is_ok()
}

#[test]
fn moe_grouped_generic_covers_every_resident_expert_dtype() {
    let mut resident: Vec<GgmlType> = ALL_GGML_TYPES
        .iter()
        .copied()
        .filter(|d| RESIDENT.contains(d))
        .collect();
    // Other expert banks are converted to F32 when they are loaded.
    if !resident.contains(&GgmlType::F32) {
        resident.push(GgmlType::F32);
    }
    let mut ctx = context();
    let mut missing = Vec::new();
    for &dtype in &resident {
        let excluded = EXCLUDED.iter().any(|(d, _)| *d == dtype);
        let supported = moe_grouped_generic_supported(dtype);
        assert!(
            !(excluded && supported),
            "{dtype:?} is EXCLUDED but has a generic instantiation; drop the stale exclusion"
        );
        if excluded {
            continue;
        }
        for role in MoeGroupedGenericRole::all() {
            if moe_grouped_generic_pipeline_name(role, dtype).is_none() {
                missing.push(format!("{role:?}/{dtype:?}"));
            }
        }
        assert_eq!(swiglu_dispatches(&mut ctx, dtype, dtype), 1);
        assert!(
            down_is_accepted(&mut ctx, dtype),
            "dispatcher rejects down dtype {dtype:?}"
        );
    }
    assert!(
        missing.is_empty(),
        "resident expert dtypes without a grouped MoE kernel: {missing:?}"
    );
}

#[test]
fn moe_grouped_generic_layout_matches_ggml_storage() {
    let layouts = moe_grouped_generic_layouts();
    for l in &layouts {
        let (elems, bytes) = l.dtype.storage_layout().expect("storage layout");
        if elems == 1 {
            // Dense types are tiled as 32-element blocks.
            assert_eq!(l.block_elems, 32, "{:?}", l.dtype);
            assert_eq!(l.block_bytes as u64, 32 * bytes, "{:?}", l.dtype);
        } else {
            assert_eq!(l.block_elems as u64, elems, "{:?}", l.dtype);
            assert_eq!(l.block_bytes as u64, bytes, "{:?}", l.dtype);
        }
        assert_eq!(
            layouts
                .iter()
                .filter(|o| o.dtype == l.dtype || o.suffix == l.suffix)
                .count(),
            1,
            "duplicate mapping for {:?}",
            l.dtype
        );
    }
}

#[test]
fn generic_grouped_moe_case_list_covers_mapping() {
    for l in moe_grouped_generic_layouts() {
        assert!(
            RESIDENT.contains(&l.dtype),
            "no resident expert bank of {:?}",
            l.dtype
        );
        assert_eq!(moe_grouped_generic_layout(l.dtype), Some(l));
    }
}

#[test]
fn generic_kernel_names_are_composed() {
    assert_eq!(
        moe_grouped_generic_pipeline_name(MoeGroupedGenericRole::Down, GgmlType::Q4_K).unwrap(),
        "kernel_moe_down_q4_K_f32_grouped_slots_generic"
    );
    assert_eq!(
        moe_grouped_generic_pipeline_name(MoeGroupedGenericRole::UpSiluMul, GgmlType::IQ4_XS)
            .unwrap(),
        "kernel_moe_up_silu_mul_iq4_xs_f32_grouped_slots_generic"
    );
    assert_eq!(
        moe_grouped_generic_pipeline_name(MoeGroupedGenericRole::Swiglu, GgmlType::F32).unwrap(),
        "kernel_moe_swiglu_f32_f32_grouped_slots_generic"
    );
    assert_eq!(
        moe_grouped_generic_pipeline_name(MoeGroupedGenericRole::Down, GgmlType::IQ1_S),
        None
    );
    assert!(!moe_grouped_generic_supported(GgmlType::MXFP4));
}

#[test]
fn generic_grouped_moe_gate_up_mixed_rejects_concurrent_encoder() {
    let mut ctx = context();
    let r = routing();
    let g = bank_tensor(&mut ctx, GgmlType::Q4_K, GU_N_HIDDEN, GU_N_FFN, r.n_expert);
    let u = bank_tensor(&mut ctx, GgmlType::Q8_0, GU_N_HIDDEN, GU_N_FFN, r.n_expert);
    let x_t = MetalTensor::zeros_f32(&mut ctx, vec![(r.n_tokens * GU_N_HIDDEN) as u64]).unwrap();
    let counts_t = i32_tensor(&mut ctx, &r.counts);
    let ids_t = i32_tensor(&mut ctx, &r.ids);
    let out_t =
        MetalTensor::zeros_f32(&mut ctx, vec![(r.n_tokens * r.topk * GU_N_FFN) as u64]).unwrap();
    let mut enc = KernelEncoder::begin_concurrent();
    let result = encode_moe_swiglu_f32_grouped_slots_generic(
        &ctx,
        &mut enc,
        &g,
        &u,
        &x_t,
        &counts_t,
        &ids_t,
        &out_t,
        GU_N_HIDDEN,
        GU_N_FFN,
        r.n_expert,
        r.topk,
        r.n_tokens,
    );
    assert!(
        result.is_err(),
        "mixed-dtype gate/up must refuse a concurrent encoder"
    );
    assert!(enc.end().is_empty());
}

#[test]
fn mixed_formats_take_two_ordered_launches() {
    let mut ctx = context();
    assert_eq!(
        swiglu_dispatches(&mut ctx, GgmlType::Q4_K, GgmlType::Q5_K),
        2
    );
    assert_eq!(
        swiglu_dispatches(&mut ctx, GgmlType::IQ4_XS, GgmlType::Q8_0),
        2
    );
}

#[test]
fn mixed_formats_record_the_gate_before_the_up_kernel() {
    let mut ctx = context();
    let r = routing();
    let g = bank_tensor(&mut ctx, GgmlType::Q4_K, GU_N_HIDDEN, GU_N_FFN, r.n_expert);
    let u = bank_tensor(&mut ctx, GgmlType::Q5_K, GU_N_HIDDEN, GU_N_FFN, r.n_expert);
    let x = MetalTensor::zeros_f32(&mut ctx, vec![(r.n_tokens * GU_N_HIDDEN) as u64]).unwrap();
    let counts = i32_tensor(&mut ctx, &r.counts);
    let ids = i32_tensor(&mut ctx, &r.ids);
    let inner =
        MetalTensor::zeros_f32(&mut ctx, vec![(r.n_tokens * r.topk * GU_N_FFN) as u64]).unwrap();
    let mut enc = KernelEncoder::begin();
    encode_moe_swiglu_f32_grouped_slots_generic(
        &ctx,
        &mut enc,
        &g,
        &u,
        &x,
        &counts,
        &ids,
        &inner,
        GU_N_HIDDEN,
        GU_N_FFN,
        r.n_expert,
        r.topk,
        r.n_tokens,
    )
    .unwrap();
    let names: Vec<String> = enc
        .end()
        .into_iter()
        .filter_map(|c| match c {
            Command::SetPipeline(name) => Some(name),
            _ => None,
        })
        .collect();
    assert_eq!(
        names,
        vec![
            "kernel_moe_down_q4_K_f32_grouped_slots_generic",
            "kernel_moe_up_silu_mul_q5_K_f32_grouped_slots_generic",
        ]
    );
}

#[test]
fn a_missing_up_kernel_leaves_the_gate_recorded() {
    let mut ctx = context();
    ctx.pipelines
        .retain(|p| p.name != "kernel_moe_up_silu_mul_q5_K_f32_grouped_slots_generic");
    let r = routing();
    let g = bank_tensor(&mut ctx, GgmlType::Q4_K, GU_N_HIDDEN, GU_N_FFN, r.n_expert);
    let u = bank_tensor(&mut ctx, GgmlType::Q5_K, GU_N_HIDDEN, GU_N_FFN, r.n_expert);
    let x = MetalTensor::zeros_f32(&mut ctx, vec![(r.n_tokens * GU_N_HIDDEN) as u64]).unwrap();
    let counts = i32_tensor(&mut ctx, &r.counts);
    let ids = i32_tensor(&mut ctx, &r.ids);
    let inner =
        MetalTensor::zeros_f32(&mut ctx, vec![(r.n_tokens * r.topk * GU_N_FFN) as u64]).unwrap();
    let mut enc = KernelEncoder::begin();
    let result = encode_moe_swiglu_f32_grouped_slots_generic(
        &ctx,
        &mut enc,
        &g,
        &u,
        &x,
        &counts,
        &ids,
        &inner,
        GU_N_HIDDEN,
        GU_N_FFN,
        r.n_expert,
        r.topk,
        r.n_tokens,
    );
    match result {
        Err(MetalError::MissingPipeline { name }) => assert_eq!(
            name,
            "kernel_moe_up_silu_mul_q5_K_f32_grouped_slots_generic"
        ),
        _ => panic!("expected a missing pipeline"),
    }
    let dispatched = enc
        .end()
        .iter()
        .filter(|c| matches!(c, Command::Dispatch { .. }))
        .count();
    assert_eq!(dispatched, 1);
}

#[test]
fn generic_grouped_moe_rejects_bad_contracts() {
    let mut ctx = context();
    let r = routing();
    let n_slots = r.n_tokens * r.topk;
    let w = bank_tensor(
        &mut ctx,
        GgmlType::Q4_K,
        DOWN_N_IN,
        DOWN_N_OUT,
        r.n_expert,
    );
    let inner_t = MetalTensor::zeros_f32(&mut ctx, vec![(n_slots * DOWN_N_IN) as u64]).unwrap();
    let counts_t = i32_tensor(&mut ctx, &r.counts);
    let ids_t = i32_tensor(&mut ctx, &r.ids);
    let out_t = MetalTensor::zeros_f32(&mut ctx, vec![(n_slots * DOWN_N_OUT) as u64]).unwrap();
    let unsupported = MetalTensor::zeros_f32(&mut ctx, vec![4]).unwrap();
    let unsupported = MetalTensor {
        dtype: GgmlType::IQ1_S,
        ..unsupported
    };
    let mut enc = KernelEncoder::begin();
    // n_in not a whole number of Q4_K super-blocks.
    assert!(encode_moe_down_f32_grouped_slots_generic(
        &ctx,
        &mut enc,
        &w,
        &inner_t,
        &counts_t,
        &ids_t,
        &out_t,
        DOWN_N_IN - 32,
        DOWN_N_OUT,
        r.n_expert,
        r.n_tokens,
    )
    .is_err());
    // Bank too small for the claimed expert count.
    assert!(encode_moe_down_f32_grouped_slots_generic(
        &ctx,
        &mut enc,
        &w,
        &inner_t,
        &counts_t,
        &ids_t,
        &out_t,
        DOWN_N_IN,
        DOWN_N_OUT,
        r.n_expert + 1,
        r.n_tokens,
    )
    .is_err());
    // No instantiation for this dtype.
    assert!(encode_moe_down_f32_grouped_slots_generic(
        &ctx,
        &mut enc,
        &unsupported,
        &inner_t,
        &counts_t,
        &ids_t,
        &out_t,
        DOWN_N_IN,
        DOWN_N_OUT,
        r.n_expert,
        r.n_tokens,
    )
    .is_err());
    assert!(enc.end().is_empty());
}

#[test]
fn generic_down_records_one_exact_launch() {
    let mut ctx = context();
    let r = routing();
    let n_slots = r.n_tokens * r.topk;
    let w = bank_tensor(
        &mut ctx,
        GgmlType::Q5_K,
        DOWN_N_IN,
        DOWN_N_OUT,
        r.n_expert,
    );
    let inner = MetalTensor::zeros_f32(&mut ctx, vec![(n_slots * DOWN_N_IN) as u64]).unwrap();
    let counts = i32_tensor(&mut ctx, &r.counts);
    let ids = i32_tensor(&mut ctx, &r.ids);
    let out = MetalTensor::zeros_f32(&mut ctx, vec![(n_slots * DOWN_N_OUT) as u64]).unwrap();
    let mut enc = KernelEncoder::begin();
    encode_moe_down_f32_grouped_slots_generic_range(
        &ctx, &mut enc, &w, &inner, &counts, &ids, &out, DOWN_N_IN, DOWN_N_OUT, r.n_expert,
        r.n_tokens, 3, 40,
    )
    .unwrap();
    let commands = enc.end();
    assert_eq!(
        commands[0],
        Command::SetPipeline("kernel_moe_down_q5_K_f32_grouped_slots_generic".to_string())
    );
    assert!(matches!(&commands[1], Command::SetBytes { index: 0, .. }));
    let bindings = [
        w.binding(),
        inner.binding(),
        counts.binding(),
        ids.binding(),
        out.binding(),
    ];
    for (i, binding) in bindings.into_iter().enumerate() {
        assert_eq!(
            commands[2 + i],
            Command::SetTensor {
                index: 1 + i,
                binding
            }
        );
    }
    let Some(Command::Dispatch {
        threadgroups,
        threads,
    }) = commands.last()
    else {
        panic!("no dispatch");
    };
    assert_eq!(threadgroups.depth, r.n_expert);
    assert_eq!(
        *threads,
        MTLSize {
            width: 128,
            height: 1,
            depth: 1
        }
    );
}

#[test]
fn generic_requests_of_all_counts_are_the_full_range() {
    let mut ctx = context();
    let r = routing();
    let n_slots = r.n_tokens * r.topk;
    let counts = i32_tensor(&mut ctx, &r.counts);
    let ids = i32_tensor(&mut ctx, &r.ids);
    for (gate, up) in [
        (GgmlType::Q4_K, GgmlType::Q4_K),
        (GgmlType::Q4_K, GgmlType::Q5_K),
    ] {
        let g = bank_tensor(&mut ctx, gate, GU_N_HIDDEN, GU_N_FFN, r.n_expert);
        let u = bank_tensor(&mut ctx, up, GU_N_HIDDEN, GU_N_FFN, r.n_expert);
        let x = MetalTensor::zeros_f32(&mut ctx, vec![(r.n_tokens * GU_N_HIDDEN) as u64]).unwrap();
        let inner = MetalTensor::zeros_f32(&mut ctx, vec![(n_slots * GU_N_FFN) as u64]).unwrap();
        let mut all = KernelEncoder::begin();
        let mut range = KernelEncoder::begin();
        encode_moe_swiglu_f32_grouped_slots_generic(
            &ctx, &mut all, &g, &u, &x, &counts, &ids, &inner, GU_N_HIDDEN, GU_N_FFN, r.n_expert,
            r.topk, r.n_tokens,
        )
        .unwrap();
        encode_moe_swiglu_f32_grouped_slots_generic_range(
            &ctx, &mut range, &g, &u, &x, &counts, &ids, &inner, GU_N_HIDDEN, GU_N_FFN,
            r.n_expert, r.topk, r.n_tokens, 0, 0x7fff_ffff,
        )
        .unwrap();
        assert_eq!(all.end(), range.end());
    }
    let w = bank_tensor(
        &mut ctx,
        GgmlType::Q5_K,
        DOWN_N_IN,
        DOWN_N_OUT,
        r.n_expert,
    );
    let inner = MetalTensor::zeros_f32(&mut ctx, vec![(n_slots * DOWN_N_IN) as u64]).unwrap();
    let out = MetalTensor::zeros_f32(&mut ctx, vec![(n_slots * DOWN_N_OUT) as u64]).unwrap();
    let mut all = KernelEncoder::begin();
    let mut range = KernelEncoder::begin();
    encode_moe_down_f32_grouped_slots_generic(
        &ctx, &mut all, &w, &inner, &counts, &ids, &out, DOWN_N_IN, DOWN_N_OUT, r.n_expert,
        r.n_tokens,
    )
    .unwrap();
    encode_moe_down_f32_grouped_slots_generic_range(
        &ctx, &mut range, &w, &inner, &counts, &ids, &out, DOWN_N_IN, DOWN_N_OUT, r.n_expert,
        r.n_tokens, 0, 0x7fff_ffff,
    )
    .unwrap();
    assert_eq!(all.end(), range.end());
}
