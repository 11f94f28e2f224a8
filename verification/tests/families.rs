//! Every kernel of each family, by the launch that it records.

use qwen_metal::context::{DeviceLimits, KernelSwitches, MetalContext, Pipeline};
use qwen_metal::dtype::GgmlType;
use qwen_metal::encoder::{Command, KernelEncoder, MTLSize};
use qwen_metal::error::MetalError;
use qwen_metal::float_bits::F32Bits;
use qwen_metal::moe_grouped as grouped;
use qwen_metal::moe_route as route;
use qwen_metal::moe_slots as slots;
use qwen_metal::norm::{
    encode_l2_norm_f32, encode_rms_norm_batched_f32, encode_rms_norm_mul_rows_f32,
    encode_rms_norm_mul_vjp_broadcast_f32, encode_rms_norm_mul_vjp_periodic_f32,
    encode_rmsnorm_gated_vjp_f32, RmsNormVjpRule,
};
use qwen_metal::research::{encode_roofline_stream_f32, encode_touch_bytes_f32};
use qwen_metal::rope::{
    encode_rope_neox_pair_f32, encode_rope_neox_pair_shared_f32,
    encode_rope_neox_pair_sincos_f32,
};
use qwen_metal::tensor::{Binding, MetalTensor};

type Outcome = Result<(), MetalError>;
type T<'a> = &'a MetalTensor;
type Enc<'a> = &'a mut KernelEncoder;

fn size(width: usize, height: usize, depth: usize) -> MTLSize {
    MTLSize {
        width,
        height,
        depth,
    }
}

fn context(name: &str) -> MetalContext {
    MetalContext::new(
        DeviceLimits {
            max_buffer_length: 1 << 30,
            max_threadgroup_memory: 32 * 1024,
        },
        KernelSwitches {
            l2_pair_hd128_r4: true,
            rmsnorm_gated_hd128_r4: true,
        },
        vec![Pipeline {
            name: name.to_string(),
            max_total_threads: 1024,
            static_threadgroup_memory: 0,
        }],
    )
}

fn f32s(ctx: &mut MetalContext, n: usize) -> MetalTensor {
    MetalTensor::zeros_f32(ctx, vec![n as u64]).unwrap()
}

fn i32s(ctx: &mut MetalContext, n: usize) -> MetalTensor {
    MetalTensor::zeros_i32(ctx, vec![n as u64]).unwrap()
}

fn bank(ctx: &mut MetalContext, dtype: GgmlType, n_in: usize, rows: usize, n: usize) -> MetalTensor {
    MetalTensor::zeros_dtype(ctx, vec![n_in as u64, rows as u64, n as u64], dtype).unwrap()
}

/// The commands of one launch.
fn launch(
    name: &str,
    words: &[u32],
    tensors: &[Binding],
    scratch: &[usize],
    threadgroups: MTLSize,
    threads: MTLSize,
) -> Vec<Command> {
    let mut commands = vec![
        Command::SetPipeline(name.to_string()),
        Command::SetBytes {
            index: 0,
            words: words.to_vec(),
        },
    ];
    for (i, binding) in tensors.iter().enumerate() {
        commands.push(Command::SetTensor {
            index: i + 1,
            binding: *binding,
        });
    }
    for (index, length) in scratch.iter().enumerate() {
        commands.push(Command::SetThreadgroupMemory {
            index,
            length: *length,
        });
    }
    commands.push(Command::Dispatch {
        threadgroups,
        threads,
    });
    commands
}

const N_IN: usize = 512;
const N_OUT: usize = 10;
const N_EXPERT: usize = 4;
const TOPK: usize = 3;
const N_TOKENS: usize = 5;

type Swiglu = fn(&MetalContext, Enc, T, T, T, T, T, usize, usize, usize, usize) -> Outcome;

#[test]
fn every_slot_swiglu_records_its_launch() {
    let cases: [(Swiglu, &str, GgmlType, usize, usize, &[usize]); 7] = [
        (
            slots::encode_moe_swiglu_iq3_xxs_f32,
            "kernel_moe_swiglu_iq3_xxs_f32",
            GgmlType::IQ3_XXS,
            2,
            64,
            &[],
        ),
        (
            slots::encode_moe_swiglu_iq3_xxs_f32_fast,
            "kernel_moe_swiglu_iq3_xxs_f32_fast",
            GgmlType::IQ3_XXS,
            8,
            64,
            &[],
        ),
        (
            slots::encode_moe_swiglu_iq3_s_f32,
            "kernel_moe_swiglu_iq3_s_f32",
            GgmlType::IQ3_S,
            2,
            64,
            &[],
        ),
        (
            slots::encode_moe_swiglu_iq3_s_f32_fast,
            "kernel_moe_swiglu_iq3_s_f32_fast",
            GgmlType::IQ3_S,
            8,
            64,
            &[],
        ),
        (
            slots::encode_moe_swiglu_q6_K_f32,
            "kernel_moe_swiglu_q6_K_f32",
            GgmlType::Q6_K,
            4,
            64,
            &[],
        ),
        (
            slots::encode_moe_swiglu_q8_0_f32,
            "kernel_moe_swiglu_q8_0_f32",
            GgmlType::Q8_0,
            2,
            128,
            &[512],
        ),
        (
            slots::encode_moe_swiglu_q4_K_f32,
            "kernel_moe_swiglu_q4_K_f32",
            GgmlType::Q4_K,
            4,
            64,
            &[],
        ),
    ];
    for (encode, name, dtype, rows, threads, scratch) in cases {
        let mut ctx = context(name);
        let gate = bank(&mut ctx, dtype, N_IN, N_OUT, N_EXPERT);
        let up = bank(&mut ctx, dtype, N_IN, N_OUT, N_EXPERT);
        let x = f32s(&mut ctx, N_IN);
        let idx = i32s(&mut ctx, TOPK);
        let inner = f32s(&mut ctx, TOPK * N_OUT);
        let mut enc = KernelEncoder::begin();
        encode(
            &ctx, &mut enc, &gate, &up, &x, &idx, &inner, N_IN, N_OUT, N_EXPERT, TOPK,
        )
        .unwrap();
        assert_eq!(
            enc.end(),
            launch(
                name,
                &[512, 10, 4, 3],
                &[
                    gate.binding(),
                    up.binding(),
                    x.binding(),
                    idx.binding(),
                    inner.binding()
                ],
                scratch,
                size(N_OUT.div_ceil(rows), TOPK, 1),
                size(threads, 1, 1),
            )
        );
    }
}

type Down = fn(&MetalContext, Enc, T, T, T, T, usize, usize, usize, usize) -> Outcome;

#[test]
fn every_slot_down_projection_records_its_launch() {
    let cases: [(Down, &str, GgmlType, usize, usize, &[usize], u32); 7] = [
        (
            slots::encode_moe_down_q4_K_f32,
            "kernel_moe_down_q4_K_f32",
            GgmlType::Q4_K,
            4,
            64,
            &[],
            3,
        ),
        (
            slots::encode_moe_down_q5_K_f32,
            "kernel_moe_down_q5_K_f32",
            GgmlType::Q5_K,
            2,
            64,
            &[],
            3,
        ),
        (
            slots::encode_moe_down_f32_f32,
            "kernel_moe_down_f32_f32",
            GgmlType::F32,
            4,
            128,
            &[],
            3,
        ),
        (
            slots::encode_moe_down_bf16_f32,
            "kernel_moe_down_bf16_f32",
            GgmlType::BF16,
            4,
            128,
            &[],
            3,
        ),
        (
            slots::encode_moe_down_iq4_xs_f32,
            "kernel_moe_down_iq4_xs_f32",
            GgmlType::IQ4_XS,
            4,
            128,
            &[],
            3,
        ),
        (
            slots::encode_moe_down_iq4_xs_f32_fast,
            "kernel_moe_down_iq4_xs_f32_fast",
            GgmlType::IQ4_XS,
            4,
            64,
            &[128],
            3,
        ),
        (
            slots::encode_moe_down_q5_K_f32_grouped_rows,
            "kernel_moe_down_q5_K_f32_grouped_rows",
            GgmlType::Q5_K,
            2,
            64,
            &[],
            0,
        ),
    ];
    for (encode, name, dtype, rows, threads, scratch, last_word) in cases {
        let mut ctx = context(name);
        let weight = bank(&mut ctx, dtype, N_IN, N_OUT, N_EXPERT);
        let inner = f32s(&mut ctx, TOPK * N_IN);
        let idx = i32s(&mut ctx, TOPK);
        let out = f32s(&mut ctx, TOPK * N_OUT);
        let mut enc = KernelEncoder::begin();
        encode(
            &ctx, &mut enc, &weight, &inner, &idx, &out, N_IN, N_OUT, N_EXPERT, TOPK,
        )
        .unwrap();
        assert_eq!(
            enc.end(),
            launch(
                name,
                &[512, 10, 4, last_word],
                &[
                    weight.binding(),
                    inner.binding(),
                    idx.binding(),
                    out.binding()
                ],
                scratch,
                size(N_OUT.div_ceil(rows), TOPK, 1),
                size(threads, 1, 1),
            )
        );
    }
}

#[test]
fn every_expert_mat_vec_records_its_launch() {
    let cases: [(Down, &str, GgmlType, usize, usize); 5] = [
        (
            slots::encode_moe_mat_vec_q5_K_f32,
            "kernel_moe_mat_vec_q5_K_f32",
            GgmlType::Q5_K,
            2,
            64,
        ),
        (
            slots::encode_moe_mat_vec_iq3_xxs_f32,
            "kernel_moe_mat_vec_iq3_xxs_f32",
            GgmlType::IQ3_XXS,
            2,
            64,
        ),
        (
            slots::encode_moe_mat_vec_iq3_s_f32,
            "kernel_moe_mat_vec_iq3_s_f32",
            GgmlType::IQ3_S,
            2,
            64,
        ),
        (
            slots::encode_moe_mat_vec_f32,
            "kernel_moe_mat_vec_f32_f32",
            GgmlType::F32,
            4,
            128,
        ),
        (
            slots::encode_moe_mat_vec_bf16_f32,
            "kernel_moe_mat_vec_bf16_f32",
            GgmlType::BF16,
            4,
            128,
        ),
    ];
    for (encode, name, dtype, rows, threads) in cases {
        let mut ctx = context(name);
        let weight = bank(&mut ctx, dtype, N_IN, N_OUT, N_EXPERT);
        let x = f32s(&mut ctx, N_IN);
        let idx = i32s(&mut ctx, TOPK);
        let out = f32s(&mut ctx, TOPK * N_OUT);
        let mut enc = KernelEncoder::begin();
        encode(
            &ctx, &mut enc, &weight, &x, &idx, &out, N_IN, N_OUT, N_EXPERT, TOPK,
        )
        .unwrap();
        assert_eq!(
            enc.end(),
            launch(
                name,
                &[512, 10, 4, 3],
                &[weight.binding(), x.binding(), idx.binding(), out.binding()],
                &[],
                size(N_OUT.div_ceil(rows), TOPK, 1),
                size(threads, 1, 1),
            )
        );
    }
}

#[test]
fn weighted_sums_record_their_launches() {
    let mut ctx = context("kernel_moe_down_weighted_sum_q6_K_f32");
    let weight = bank(&mut ctx, GgmlType::Q6_K, N_IN, N_OUT, N_EXPERT);
    let inner = f32s(&mut ctx, TOPK * N_IN);
    let idx = i32s(&mut ctx, TOPK);
    let w = f32s(&mut ctx, TOPK);
    let out = f32s(&mut ctx, N_OUT);
    let mut enc = KernelEncoder::begin();
    slots::encode_moe_down_weighted_sum_q6_K_f32(
        &ctx, &mut enc, &weight, &inner, &idx, &w, &out, N_IN, N_OUT, N_EXPERT, TOPK,
    )
    .unwrap();
    assert_eq!(
        enc.end(),
        launch(
            "kernel_moe_down_weighted_sum_q6_K_f32",
            &[512, 10, 4, 3],
            &[
                weight.binding(),
                inner.binding(),
                idx.binding(),
                w.binding(),
                out.binding()
            ],
            &[],
            size(3, 1, 1),
            size(64, 1, 1),
        )
    );

    let mut ctx = context("kernel_moe_down_weighted_sum_q8_0_f32");
    let weight = bank(&mut ctx, GgmlType::Q8_0, N_IN, N_OUT, N_EXPERT);
    let mut enc = KernelEncoder::begin();
    slots::encode_moe_down_weighted_sum_q8_0_f32(
        &ctx, &mut enc, &weight, &inner, &idx, &w, &out, N_IN, N_OUT, N_EXPERT, TOPK,
    )
    .unwrap();
    let commands = enc.end();
    assert!(commands.contains(&Command::SetThreadgroupMemory {
        index: 0,
        length: 256
    }));
    assert_eq!(
        commands.last(),
        Some(&Command::Dispatch {
            threadgroups: size(5, 1, 1),
            threads: size(128, 1, 1)
        })
    );

    let name = "kernel_moe_down_weighted_sum_q5_K_f32_packed_slots_k512_r2";
    let mut ctx = context(name);
    let weight = bank(&mut ctx, GgmlType::Q5_K, N_IN, N_OUT, N_EXPERT);
    let inner = f32s(&mut ctx, N_TOKENS * TOPK * N_IN);
    let idx = i32s(&mut ctx, N_TOKENS * TOPK);
    let w = f32s(&mut ctx, N_TOKENS * TOPK);
    let out = f32s(&mut ctx, N_TOKENS * N_OUT);
    let mut enc = KernelEncoder::begin();
    slots::encode_moe_down_weighted_sum_q5_K_f32_packed_slots_k512_r2(
        &ctx, &mut enc, &weight, &inner, &idx, &w, &out, N_IN, N_OUT, N_EXPERT, TOPK, N_TOKENS,
    )
    .unwrap();
    assert!(
        slots::encode_moe_down_weighted_sum_q5_K_f32_packed_slots_k512_r2(
            &ctx, &mut enc, &weight, &inner, &idx, &w, &out, 1024, N_OUT, N_EXPERT, TOPK,
            N_TOKENS,
        )
        .is_err()
    );
    assert_eq!(
        enc.end(),
        launch(
            name,
            &[512, 10, 4, 3],
            &[
                weight.binding(),
                inner.binding(),
                idx.binding(),
                w.binding(),
                out.binding()
            ],
            &[],
            size(3, N_TOKENS, 1),
            size(64, 1, 1),
        )
    );

    let name = "kernel_moe_down_weighted_sum_q5_K_f32_packed_slots";
    let ctx = context(name);
    let mut enc = KernelEncoder::begin();
    slots::encode_moe_down_weighted_sum_q5_K_f32_packed_slots(
        &ctx, &mut enc, &weight, &inner, &idx, &w, &out, N_IN, N_OUT, N_EXPERT, TOPK, N_TOKENS,
    )
    .unwrap();
    assert_eq!(
        enc.end().last(),
        Some(&Command::Dispatch {
            threadgroups: size(5, N_TOKENS, 1),
            threads: size(64, 1, 1)
        })
    );
}

#[test]
fn packed_slots_launch_one_row_of_groups_per_slot() {
    let name = "kernel_moe_swiglu_q4_K_f32_packed_slots";
    let mut ctx = context(name);
    let gate = bank(&mut ctx, GgmlType::Q4_K, N_IN, N_OUT, N_EXPERT);
    let up = bank(&mut ctx, GgmlType::Q4_K, N_IN, N_OUT, N_EXPERT);
    let x = f32s(&mut ctx, N_TOKENS * N_IN);
    let idx = i32s(&mut ctx, N_TOKENS * TOPK);
    let inner = f32s(&mut ctx, N_TOKENS * TOPK * N_OUT);
    let mut enc = KernelEncoder::begin();
    slots::encode_moe_swiglu_q4_K_f32_packed_slots(
        &ctx, &mut enc, &gate, &up, &x, &idx, &inner, N_IN, N_OUT, N_EXPERT, TOPK, N_TOKENS,
    )
    .unwrap();
    assert_eq!(
        enc.end().last(),
        Some(&Command::Dispatch {
            threadgroups: size(3, 15, 1),
            threads: size(64, 1, 1)
        })
    );
}

type Grouped =
    fn(&MetalContext, Enc, T, T, T, T, T, T, usize, usize, usize, usize, usize, u32, u32) -> Outcome;

const N_FFN: usize = 128;

#[test]
fn every_grouped_swiglu_records_its_launch() {
    let cases: [(Grouped, &str, GgmlType, u32, usize); 8] = [
        (
            grouped::encode_moe_swiglu_q4_K_f32_grouped_slots_n16_range,
            "kernel_moe_swiglu_q4_K_f32_grouped_slots_n16",
            GgmlType::Q4_K,
            288,
            16,
        ),
        (
            grouped::encode_moe_swiglu_iq3_xxs_f32_grouped_slots_n16_range,
            "kernel_moe_swiglu_iq3_xxs_f32_grouped_slots_n16",
            GgmlType::IQ3_XXS,
            196,
            16,
        ),
        (
            grouped::encode_moe_swiglu_iq3_s_f32_grouped_slots_n16_range,
            "kernel_moe_swiglu_iq3_s_f32_grouped_slots_n16",
            GgmlType::IQ3_S,
            220,
            16,
        ),
        (
            grouped::encode_moe_swiglu_q5_K_f32_grouped_slots_n16_range,
            "kernel_moe_swiglu_q5_K_f32_grouped_slots_n16",
            GgmlType::Q5_K,
            352,
            16,
        ),
        (
            grouped::encode_moe_swiglu_q6_K_f32_grouped_slots_n16_range,
            "kernel_moe_swiglu_q6_K_f32_grouped_slots_n16",
            GgmlType::Q6_K,
            420,
            16,
        ),
        (
            grouped::encode_moe_swiglu_q8_0_f32_grouped_slots_n16_range,
            "kernel_moe_swiglu_q8_0_f32_grouped_slots_n16",
            GgmlType::Q8_0,
            544,
            16,
        ),
        (
            grouped::encode_moe_swiglu_bf16_f32_grouped_slots_n16_range,
            "kernel_moe_swiglu_bf16_f32_grouped_slots_n16",
            GgmlType::BF16,
            512,
            16,
        ),
        (
            grouped::encode_moe_swiglu_q4_K_f32_grouped_slots_n32_range,
            "kernel_moe_swiglu_q4_K_f32_grouped_slots_n32",
            GgmlType::Q4_K,
            288,
            32,
        ),
    ];
    for (encode, name, dtype, stride, tile) in cases {
        let mut ctx = context(name);
        let gate = bank(&mut ctx, dtype, N_IN, N_FFN, N_EXPERT);
        let up = bank(&mut ctx, dtype, N_IN, N_FFN, N_EXPERT);
        let x = f32s(&mut ctx, N_TOKENS * N_IN);
        let counts = i32s(&mut ctx, N_EXPERT);
        let ids = i32s(&mut ctx, N_EXPERT * N_TOKENS);
        let inner = f32s(&mut ctx, N_TOKENS * TOPK * N_FFN);
        let mut enc = KernelEncoder::begin();
        encode(
            &ctx, &mut enc, &gate, &up, &x, &counts, &ids, &inner, N_IN, N_FFN, N_EXPERT, TOPK,
            N_TOKENS, 2, 9,
        )
        .unwrap();
        assert_eq!(
            enc.end(),
            launch(
                name,
                &[128, 512, 4, 3, 5, stride, 512, 2, 9],
                &[
                    gate.binding(),
                    up.binding(),
                    x.binding(),
                    counts.binding(),
                    ids.binding(),
                    inner.binding()
                ],
                &[16384],
                size(N_TOKENS.div_ceil(tile), 2, N_EXPERT),
                size(128, 1, 1),
            )
        );
    }
}

type Bank =
    fn(&MetalContext, Enc, T, T, T, T, T, usize, usize, usize, usize, usize, u32, u32) -> Outcome;

#[test]
fn grouped_kernels_over_one_bank_record_their_launches() {
    let cases: [(Bank, &str, usize, usize, usize); 4] = [
        (
            grouped::encode_moe_matmul_q4_K_f32_grouped_slots_n16_range,
            "kernel_moe_matmul_q4_K_f32_grouped_slots_n16",
            1,
            16,
            8192,
        ),
        (
            grouped::encode_moe_matmul_q4_K_f32_grouped_slots_n32_range,
            "kernel_moe_matmul_q4_K_f32_grouped_slots_n32",
            1,
            32,
            8192,
        ),
        (
            grouped::encode_moe_swiglu_q4_K_f32_grouped_slots_fused_n16_range,
            "kernel_moe_swiglu_q4_K_f32_grouped_slots_fused_n16",
            2,
            16,
            12288,
        ),
        (
            grouped::encode_moe_swiglu_q4_K_f32_grouped_slots_fused_n32_range,
            "kernel_moe_swiglu_q4_K_f32_grouped_slots_fused_n32",
            2,
            32,
            16384,
        ),
    ];
    for (encode, name, halves, tile, scratch) in cases {
        let mut ctx = context(name);
        let weight = bank(&mut ctx, GgmlType::Q4_K, N_IN, halves * N_FFN, N_EXPERT);
        let x = f32s(&mut ctx, N_TOKENS * N_IN);
        let counts = i32s(&mut ctx, N_EXPERT);
        let ids = i32s(&mut ctx, N_EXPERT * N_TOKENS);
        let out = f32s(&mut ctx, N_TOKENS * TOPK * N_FFN);
        let mut enc = KernelEncoder::begin();
        encode(
            &ctx, &mut enc, &weight, &x, &counts, &ids, &out, N_IN, N_FFN, N_EXPERT, TOPK,
            N_TOKENS, 2, 9,
        )
        .unwrap();
        assert_eq!(
            enc.end(),
            launch(
                name,
                &[128, 512, 4, 3, 5, 288, 512, 2, 9],
                &[
                    weight.binding(),
                    x.binding(),
                    counts.binding(),
                    ids.binding(),
                    out.binding()
                ],
                &[scratch],
                size(N_TOKENS.div_ceil(tile), 2, N_EXPERT),
                size(128, 1, 1),
            )
        );
    }
}

type GroupedDown = fn(&MetalContext, Enc, T, T, T, T, T, usize, usize, usize, usize) -> Outcome;

#[test]
fn every_grouped_down_projection_records_its_launch() {
    let cases: [(GroupedDown, &str, GgmlType, &[u32]); 5] = [
        (
            grouped::encode_moe_down_q5_K_f32_grouped_slots,
            "kernel_moe_down_q5_K_f32_grouped_slots",
            GgmlType::Q5_K,
            &[128, 5, 512, 352, 512, 0, 0x7fff_ffff],
        ),
        (
            grouped::encode_moe_down_q6_K_f32_grouped_slots,
            "kernel_moe_down_q6_K_f32_grouped_slots",
            GgmlType::Q6_K,
            &[128, 5, 512, 420, 512],
        ),
        (
            grouped::encode_moe_down_q8_0_f32_grouped_slots,
            "kernel_moe_down_q8_0_f32_grouped_slots",
            GgmlType::Q8_0,
            &[128, 5, 512, 544, 512],
        ),
        (
            grouped::encode_moe_down_bf16_f32_grouped_slots,
            "kernel_moe_down_bf16_f32_grouped_slots",
            GgmlType::BF16,
            &[128, 5, 512, 512, 512, 0, 0x7fff_ffff],
        ),
        (
            grouped::encode_moe_down_iq4_xs_f32_grouped_slots,
            "kernel_moe_down_iq4_xs_f32_grouped_slots",
            GgmlType::IQ4_XS,
            &[128, 5, 512, 2, 512, 0, 0x7fff_ffff],
        ),
    ];
    for (encode, name, dtype, words) in cases {
        let mut ctx = context(name);
        let weight = bank(&mut ctx, dtype, N_IN, N_FFN, N_EXPERT);
        let inner = f32s(&mut ctx, N_TOKENS * TOPK * N_IN);
        let counts = i32s(&mut ctx, N_EXPERT);
        let ids = i32s(&mut ctx, N_EXPERT * N_TOKENS);
        let out = f32s(&mut ctx, N_TOKENS * TOPK * N_FFN);
        let mut enc = KernelEncoder::begin();
        encode(
            &ctx, &mut enc, &weight, &inner, &counts, &ids, &out, N_IN, N_FFN, N_EXPERT,
            N_TOKENS,
        )
        .unwrap();
        assert_eq!(
            enc.end(),
            launch(
                name,
                words,
                &[
                    weight.binding(),
                    inner.binding(),
                    counts.binding(),
                    ids.binding(),
                    out.binding()
                ],
                &[8192],
                size(1, 2, N_EXPERT),
                size(128, 1, 1),
            )
        );
    }
}

type GroupedAll =
    fn(&MetalContext, Enc, T, T, T, T, T, T, usize, usize, usize, usize, usize) -> Outcome;

#[test]
fn grouped_swiglu_of_all_counts_is_the_full_range() {
    let cases: [(GroupedAll, Grouped, &str, GgmlType); 8] = [
        (
            grouped::encode_moe_swiglu_q4_K_f32_grouped_slots_n16,
            grouped::encode_moe_swiglu_q4_K_f32_grouped_slots_n16_range,
            "kernel_moe_swiglu_q4_K_f32_grouped_slots_n16",
            GgmlType::Q4_K,
        ),
        (
            grouped::encode_moe_swiglu_iq3_xxs_f32_grouped_slots_n16,
            grouped::encode_moe_swiglu_iq3_xxs_f32_grouped_slots_n16_range,
            "kernel_moe_swiglu_iq3_xxs_f32_grouped_slots_n16",
            GgmlType::IQ3_XXS,
        ),
        (
            grouped::encode_moe_swiglu_iq3_s_f32_grouped_slots_n16,
            grouped::encode_moe_swiglu_iq3_s_f32_grouped_slots_n16_range,
            "kernel_moe_swiglu_iq3_s_f32_grouped_slots_n16",
            GgmlType::IQ3_S,
        ),
        (
            grouped::encode_moe_swiglu_q5_K_f32_grouped_slots_n16,
            grouped::encode_moe_swiglu_q5_K_f32_grouped_slots_n16_range,
            "kernel_moe_swiglu_q5_K_f32_grouped_slots_n16",
            GgmlType::Q5_K,
        ),
        (
            grouped::encode_moe_swiglu_q6_K_f32_grouped_slots_n16,
            grouped::encode_moe_swiglu_q6_K_f32_grouped_slots_n16_range,
            "kernel_moe_swiglu_q6_K_f32_grouped_slots_n16",
            GgmlType::Q6_K,
        ),
        (
            grouped::encode_moe_swiglu_q8_0_f32_grouped_slots_n16,
            grouped::encode_moe_swiglu_q8_0_f32_grouped_slots_n16_range,
            "kernel_moe_swiglu_q8_0_f32_grouped_slots_n16",
            GgmlType::Q8_0,
        ),
        (
            grouped::encode_moe_swiglu_bf16_f32_grouped_slots_n16,
            grouped::encode_moe_swiglu_bf16_f32_grouped_slots_n16_range,
            "kernel_moe_swiglu_bf16_f32_grouped_slots_n16",
            GgmlType::BF16,
        ),
        (
            grouped::encode_moe_swiglu_q4_K_f32_grouped_slots_n32,
            grouped::encode_moe_swiglu_q4_K_f32_grouped_slots_n32_range,
            "kernel_moe_swiglu_q4_K_f32_grouped_slots_n32",
            GgmlType::Q4_K,
        ),
    ];
    for (encode_all, encode_range, name, dtype) in cases {
        let mut ctx = context(name);
        let gate = bank(&mut ctx, dtype, N_IN, N_FFN, N_EXPERT);
        let up = bank(&mut ctx, dtype, N_IN, N_FFN, N_EXPERT);
        let x = f32s(&mut ctx, N_TOKENS * N_IN);
        let counts = i32s(&mut ctx, N_EXPERT);
        let ids = i32s(&mut ctx, N_EXPERT * N_TOKENS);
        let inner = f32s(&mut ctx, N_TOKENS * TOPK * N_FFN);
        for n_tokens in [N_TOKENS, N_TOKENS + 1] {
            let mut all = KernelEncoder::begin();
            let mut range = KernelEncoder::begin();
            let of_all = encode_all(
                &ctx, &mut all, &gate, &up, &x, &counts, &ids, &inner, N_IN, N_FFN, N_EXPERT,
                TOPK, n_tokens,
            );
            let of_range = encode_range(
                &ctx, &mut range, &gate, &up, &x, &counts, &ids, &inner, N_IN, N_FFN, N_EXPERT,
                TOPK, n_tokens, 0, 0x7fff_ffff,
            );
            assert_eq!(of_all.is_ok(), n_tokens == N_TOKENS);
            assert_eq!(of_all, of_range);
            assert_eq!(all.end(), range.end());
        }
    }
}

type GroupedDownRange =
    fn(&MetalContext, Enc, T, T, T, T, T, usize, usize, usize, usize, u32, u32) -> Outcome;

#[test]
fn grouped_projections_of_all_counts_are_the_full_range() {
    let name = "kernel_moe_matmul_q4_K_f32_grouped_slots_n16";
    let mut ctx = context(name);
    let weight = bank(&mut ctx, GgmlType::Q4_K, N_IN, N_FFN, N_EXPERT);
    let x = f32s(&mut ctx, N_TOKENS * N_IN);
    let counts = i32s(&mut ctx, N_EXPERT);
    let ids = i32s(&mut ctx, N_EXPERT * N_TOKENS);
    let out = f32s(&mut ctx, N_TOKENS * TOPK * N_FFN);
    let mut all = KernelEncoder::begin();
    let mut range = KernelEncoder::begin();
    grouped::encode_moe_matmul_q4_K_f32_grouped_slots_n16(
        &ctx, &mut all, &weight, &x, &counts, &ids, &out, N_IN, N_FFN, N_EXPERT, TOPK, N_TOKENS,
    )
    .unwrap();
    grouped::encode_moe_matmul_q4_K_f32_grouped_slots_n16_range(
        &ctx, &mut range, &weight, &x, &counts, &ids, &out, N_IN, N_FFN, N_EXPERT, TOPK,
        N_TOKENS, 0, 0x7fff_ffff,
    )
    .unwrap();
    assert_eq!(all.end(), range.end());

    let cases: [(GroupedDown, GroupedDownRange, &str, GgmlType); 2] = [
        (
            grouped::encode_moe_down_q5_K_f32_grouped_slots,
            grouped::encode_moe_down_q5_K_f32_grouped_slots_range,
            "kernel_moe_down_q5_K_f32_grouped_slots",
            GgmlType::Q5_K,
        ),
        (
            grouped::encode_moe_down_bf16_f32_grouped_slots,
            grouped::encode_moe_down_bf16_f32_grouped_slots_range,
            "kernel_moe_down_bf16_f32_grouped_slots",
            GgmlType::BF16,
        ),
    ];
    for (encode_all, encode_range, name, dtype) in cases {
        let mut ctx = context(name);
        let weight = bank(&mut ctx, dtype, N_IN, N_FFN, N_EXPERT);
        let inner = f32s(&mut ctx, N_TOKENS * TOPK * N_IN);
        let counts = i32s(&mut ctx, N_EXPERT);
        let ids = i32s(&mut ctx, N_EXPERT * N_TOKENS);
        let out = f32s(&mut ctx, N_TOKENS * TOPK * N_FFN);
        let mut all = KernelEncoder::begin();
        let mut range = KernelEncoder::begin();
        encode_all(
            &ctx, &mut all, &weight, &inner, &counts, &ids, &out, N_IN, N_FFN, N_EXPERT, N_TOKENS,
        )
        .unwrap();
        encode_range(
            &ctx, &mut range, &weight, &inner, &counts, &ids, &out, N_IN, N_FFN, N_EXPERT,
            N_TOKENS, 0, 0x7fff_ffff,
        )
        .unwrap();
        assert_eq!(all.end(), range.end());
    }
}

#[test]
fn the_tiny_down_projection_spreads_experts_over_the_grid() {
    let name = "kernel_moe_down_q5_K_f32_grouped_slots_tiny8_r16";
    let mut ctx = context(name);
    let weight = bank(&mut ctx, GgmlType::Q5_K, N_IN, N_FFN, N_EXPERT);
    let inner = f32s(&mut ctx, N_TOKENS * TOPK * N_IN);
    let counts = i32s(&mut ctx, N_EXPERT);
    let ids = i32s(&mut ctx, N_EXPERT * N_TOKENS);
    let out = f32s(&mut ctx, N_TOKENS * TOPK * N_FFN);
    let mut enc = KernelEncoder::begin();
    grouped::encode_moe_down_q5_K_f32_grouped_slots_tiny8_r16(
        &ctx, &mut enc, &weight, &inner, &counts, &ids, &out, N_IN, N_FFN, N_EXPERT, N_TOKENS, 1,
        8,
    )
    .unwrap();
    assert_eq!(
        enc.end(),
        launch(
            name,
            &[128, 5, 512, 4, 352, 512, 1, 8],
            &[
                weight.binding(),
                inner.binding(),
                counts.binding(),
                ids.binding(),
                out.binding()
            ],
            &[8192],
            size(8, 1, 1),
            size(128, 1, 1),
        )
    );
}

#[test]
fn routing_kernels_record_their_launches() {
    let mut ctx = context("kernel_topk_logits_softmax_parallel_f32");
    let logits = f32s(&mut ctx, 64);
    let idx = i32s(&mut ctx, 8);
    let w = f32s(&mut ctx, 8);
    let mut enc = KernelEncoder::begin();
    route::encode_topk_logits_softmax_parallel_f32(&ctx, &mut enc, &logits, &idx, &w, 64, 8)
        .unwrap();
    assert_eq!(
        enc.end(),
        launch(
            "kernel_topk_logits_softmax_parallel_f32",
            &[64, 8],
            &[logits.binding(), idx.binding(), w.binding()],
            &[1024, 1024, 1024],
            size(1, 1, 1),
            size(256, 1, 1),
        )
    );

    let mut ctx = context("kernel_topk_logits_softmax_dot_sigmoid_f32");
    let shared_weight = f32s(&mut ctx, 32);
    let x = f32s(&mut ctx, 32);
    let shared_out = f32s(&mut ctx, 1);
    let mut enc = KernelEncoder::begin();
    route::encode_topk_logits_softmax_dot_sigmoid_f32(
        &ctx,
        &mut enc,
        &logits,
        &shared_weight,
        &x,
        &idx,
        &w,
        &shared_out,
        64,
        8,
        32,
    )
    .unwrap();
    assert_eq!(
        enc.end(),
        launch(
            "kernel_topk_logits_softmax_dot_sigmoid_f32",
            &[64, 8, 32, 1],
            &[
                logits.binding(),
                shared_weight.binding(),
                x.binding(),
                idx.binding(),
                w.binding(),
                shared_out.binding()
            ],
            &[1024, 1024, 1024],
            size(1, 1, 1),
            size(256, 1, 1),
        )
    );
}

#[test]
fn packed_routing_asks_the_pipeline_last() {
    let name = "kernel_topk_logits_softmax_dot_sigmoid_packed_f32";
    let mut ctx = context(name);
    let (n_expert, topk, hidden, n_tokens) = (512usize, 16usize, 32usize, 3usize);
    let logits = f32s(&mut ctx, n_tokens * n_expert);
    let weight = f32s(&mut ctx, hidden);
    let x = f32s(&mut ctx, n_tokens * hidden);
    let idx = i32s(&mut ctx, n_tokens * topk);
    let w = f32s(&mut ctx, n_tokens * topk);
    let out = f32s(&mut ctx, n_tokens);
    let encode = |ctx: &MetalContext, enc: &mut KernelEncoder| {
        route::encode_topk_logits_softmax_dot_sigmoid_packed_f32(
            ctx, enc, &logits, &weight, &x, &idx, &w, &out, n_expert, topk, hidden, n_tokens,
        )
    };
    let mut enc = KernelEncoder::begin();
    encode(&ctx, &mut enc).unwrap();
    let granted = enc.end();
    assert_eq!(
        granted,
        launch(
            name,
            &[512, 16, 32, 3],
            &[
                logits.binding(),
                weight.binding(),
                x.binding(),
                idx.binding(),
                w.binding(),
                out.binding()
            ],
            &[2048, 2048, 2048],
            size(1, 3, 1),
            size(512, 1, 1),
        )
    );
    for (max_total_threads, static_threadgroup_memory, expected) in [
        (
            511,
            0,
            "512-expert route requires {} threads, pipeline exposes {}",
        ),
        (
            1024,
            usize::MAX,
            "threadgroup memory requirement overflow",
        ),
        (
            1024,
            32 * 1024,
            "route requires {} threadgroup bytes, device exposes {}",
        ),
    ] {
        ctx.pipelines[0].max_total_threads = max_total_threads;
        ctx.pipelines[0].static_threadgroup_memory = static_threadgroup_memory;
        let mut enc = KernelEncoder::begin();
        match encode(&ctx, &mut enc) {
            Err(MetalError::BadShape { detail, .. }) => assert_eq!(detail.template, expected),
            _ => panic!("expected a refusal"),
        }
        assert_eq!(enc.end(), granted[..8].to_vec());
    }
}

#[test]
fn sums_and_finalizers_record_their_launches() {
    let mut ctx = context("kernel_moe_weighted_sum_packed_f32");
    let expert_out = f32s(&mut ctx, N_TOKENS * TOPK * 100);
    let w = f32s(&mut ctx, N_TOKENS * TOPK);
    let out = f32s(&mut ctx, N_TOKENS * 100);
    let mut enc = KernelEncoder::begin();
    route::encode_moe_weighted_sum_packed_f32(
        &ctx,
        &mut enc,
        &expert_out,
        &w,
        &out,
        100,
        TOPK,
        N_TOKENS,
    )
    .unwrap();
    assert_eq!(
        enc.end(),
        launch(
            "kernel_moe_weighted_sum_packed_f32",
            &[100, 3],
            &[expert_out.binding(), w.binding(), out.binding()],
            &[],
            size(4, N_TOKENS, 1),
            size(32, 1, 1),
        )
    );

    let mut ctx = context("kernel_moe_grouped_finalizer_f32");
    let gate = f32s(&mut ctx, N_TOKENS);
    let shared = f32s(&mut ctx, N_TOKENS * 100);
    let mut enc = KernelEncoder::begin();
    route::encode_moe_grouped_finalizer_f32(
        &ctx,
        &mut enc,
        &expert_out,
        &w,
        &gate,
        &shared,
        &out,
        100,
        TOPK,
        N_TOKENS,
    )
    .unwrap();
    assert_eq!(
        enc.end(),
        launch(
            "kernel_moe_grouped_finalizer_f32",
            &[100, 3],
            &[
                expert_out.binding(),
                w.binding(),
                gate.binding(),
                shared.binding(),
                out.binding()
            ],
            &[],
            size(2, N_TOKENS, 1),
            size(64, 1, 1),
        )
    );

    let mut ctx = context("kernel_moe_shared_accum_resid_f32");
    let gate = f32s(&mut ctx, 1);
    let x = f32s(&mut ctx, 100);
    let mixer = f32s(&mut ctx, 100);
    let shared = f32s(&mut ctx, 100);
    let mut enc = KernelEncoder::begin();
    route::encode_moe_shared_accum_resid_f32(&ctx, &mut enc, &shared, &gate, &mixer, &x).unwrap();
    let commands = enc.end();
    assert_eq!(
        commands[1],
        Command::SetBytes {
            index: 0,
            words: vec![100]
        }
    );
    assert_eq!(commands.len(), 7);
}

#[test]
fn the_fused_token_kernel_keeps_its_inner_row_in_scratch() {
    let name = "kernel_moe_fused_routed_q4q5_token_f32";
    let mut ctx = context(name);
    let (n_hidden, n_ffn) = (256usize, 256usize);
    let gate = bank(&mut ctx, GgmlType::Q4_K, n_hidden, n_ffn, N_EXPERT);
    let up = bank(&mut ctx, GgmlType::Q4_K, n_hidden, n_ffn, N_EXPERT);
    let down = bank(&mut ctx, GgmlType::Q5_K, n_ffn, n_hidden, N_EXPERT);
    let x = f32s(&mut ctx, N_TOKENS * n_hidden);
    let idx = i32s(&mut ctx, N_TOKENS * TOPK);
    let w = f32s(&mut ctx, N_TOKENS * TOPK);
    let out = f32s(&mut ctx, N_TOKENS * n_hidden);
    let mut enc = KernelEncoder::begin();
    route::encode_moe_fused_routed_q4q5_token_f32(
        &ctx, &mut enc, &gate, &up, &down, &x, &idx, &w, &out, n_hidden, n_ffn, N_EXPERT, TOPK,
        N_TOKENS,
    )
    .unwrap();
    assert_eq!(
        enc.end(),
        launch(
            name,
            &[256, 256, 4, 3],
            &[
                gate.binding(),
                up.binding(),
                down.binding(),
                x.binding(),
                idx.binding(),
                w.binding(),
                out.binding()
            ],
            &[1024],
            size(1, N_TOKENS, 1),
            size(512, 1, 1),
        )
    );
}

fn bits(value: f32) -> F32Bits {
    F32Bits {
        bits: value.to_bits(),
    }
}

#[test]
fn row_norms_record_their_launches() {
    let eps = bits(1e-6);
    let mut ctx = context("kernel_rms_norm_mul_rows_f32");
    let x = f32s(&mut ctx, 24);
    let w = f32s(&mut ctx, 8);
    let y = f32s(&mut ctx, 24);
    let mut enc = KernelEncoder::begin();
    encode_rms_norm_mul_rows_f32(&ctx, &mut enc, &x, &w, &y, 3, 8, eps).unwrap();
    assert_eq!(
        enc.end(),
        launch(
            "kernel_rms_norm_mul_rows_f32",
            &[8, 3, eps.bits],
            &[x.binding(), w.binding(), y.binding()],
            &[128],
            size(3, 1, 1),
            size(1024, 1, 1),
        )
    );

    let ctx = context("kernel_rms_norm_batched_f32");
    let mut enc = KernelEncoder::begin();
    encode_rms_norm_batched_f32(&ctx, &mut enc, &x, &w, &y, 3, 8, eps).unwrap();
    assert_eq!(
        enc.end(),
        launch(
            "kernel_rms_norm_batched_f32",
            &[3, 8, eps.bits],
            &[x.binding(), w.binding(), y.binding()],
            &[128],
            size(3, 1, 1),
            size(1024, 1, 1),
        )
    );

    let ctx = context("kernel_l2_norm_f32");
    let mut enc = KernelEncoder::begin();
    encode_l2_norm_f32(&ctx, &mut enc, &x, &y, eps).unwrap();
    assert_eq!(
        enc.end(),
        launch(
            "kernel_l2_norm_f32",
            &[24, eps.bits],
            &[x.binding(), y.binding()],
            &[128],
            size(1, 1, 1),
            size(1024, 1, 1),
        )
    );
}

#[test]
fn derivative_kernels_record_their_launches() {
    let eps = bits(1e-6);
    let mut ctx = context("kernel_rms_norm_mul_vjp_rows_f32");
    let rows = |ctx: &mut MetalContext, n: u64| MetalTensor::zeros_f32(ctx, vec![8, n]).unwrap();
    let grad = rows(&mut ctx, 6);
    let out = rows(&mut ctx, 6);
    let w = MetalTensor::zeros_f32(&mut ctx, vec![8]).unwrap();
    let primal = rows(&mut ctx, 3);
    let mut enc = KernelEncoder::begin();
    encode_rms_norm_mul_vjp_periodic_f32(
        &ctx,
        &mut enc,
        &primal,
        &w,
        &grad,
        &out,
        6,
        3,
        8,
        eps,
        RmsNormVjpRule::Jacobian,
    )
    .unwrap();
    assert_eq!(
        enc.end(),
        launch(
            "kernel_rms_norm_mul_vjp_rows_f32",
            &[8, 6, eps.bits, 0, 3],
            &[
                primal.binding(),
                w.binding(),
                grad.binding(),
                out.binding()
            ],
            &[256],
            size(6, 1, 1),
            size(1024, 1, 1),
        )
    );
    let one = MetalTensor::zeros_f32(&mut ctx, vec![8]).unwrap();
    let mut enc = KernelEncoder::begin();
    encode_rms_norm_mul_vjp_broadcast_f32(
        &ctx,
        &mut enc,
        &one,
        &w,
        &grad,
        &out,
        6,
        8,
        eps,
        RmsNormVjpRule::RelpDetachedScale,
    )
    .unwrap();
    let commands = enc.end();
    assert_eq!(
        commands[1],
        Command::SetBytes {
            index: 0,
            words: vec![8, 6, eps.bits, 1, 1]
        }
    );

    let mut ctx = context("kernel_rmsnorm_gated_vjp_f32");
    let o = f32s(&mut ctx, 48);
    let z = f32s(&mut ctx, 48);
    let grad = f32s(&mut ctx, 48);
    let grad_o = f32s(&mut ctx, 48);
    let grad_z = f32s(&mut ctx, 48);
    let w = MetalTensor::zeros_f32(&mut ctx, vec![8]).unwrap();
    let mut enc = KernelEncoder::begin();
    encode_rmsnorm_gated_vjp_f32(
        &ctx, &mut enc, &o, &w, &z, &grad, &grad_o, &grad_z, 6, 8, eps,
    )
    .unwrap();
    assert_eq!(
        enc.end()[1],
        Command::SetBytes {
            index: 0,
            words: vec![6, 8, eps.bits]
        }
    );
}

#[test]
fn rotary_variants_record_their_launches() {
    type Pair =
        fn(&MetalContext, Enc, T, T, usize, usize, usize, usize, u32, F32Bits) -> Outcome;
    let theta = bits(10_000_000.0);
    let cases: [(Pair, &str, usize, usize); 3] = [
        (
            encode_rope_neox_pair_f32,
            "kernel_rope_neox_pair_f32",
            12,
            64,
        ),
        (
            encode_rope_neox_pair_sincos_f32,
            "kernel_rope_neox_pair_sincos_f32",
            12,
            64,
        ),
        (
            encode_rope_neox_pair_shared_f32,
            "kernel_rope_neox_pair_shared_f32",
            1,
            32,
        ),
    ];
    for (encode, name, groups, threads) in cases {
        let mut ctx = context(name);
        let q = f32s(&mut ctx, 24 * 256);
        let k = f32s(&mut ctx, 4 * 256);
        let mut enc = KernelEncoder::begin();
        encode(&ctx, &mut enc, &q, &k, 24, 4, 256, 64, 37, theta).unwrap();
        assert_eq!(
            enc.end(),
            launch(
                name,
                &[24, 4, 256, 64, 37, theta.bits],
                &[q.binding(), k.binding()],
                &[],
                size(groups, 1, 1),
                size(threads, 1, 1),
            )
        );
    }
}

#[test]
fn probes_record_their_launches() {
    let mut ctx = context("kernel_touch_bytes_f32");
    let src = f32s(&mut ctx, 1000);
    let sink = f32s(&mut ctx, 300);
    let mut enc = KernelEncoder::begin();
    encode_touch_bytes_f32(&ctx, &mut enc, &src, &sink, 64).unwrap();
    assert_eq!(
        enc.end(),
        launch(
            "kernel_touch_bytes_f32",
            &[63, 64, 4000, 0],
            &[src.binding(), sink.binding()],
            &[],
            size(1, 1, 1),
            size(256, 1, 1),
        )
    );
    let mut enc = KernelEncoder::begin();
    assert!(encode_touch_bytes_f32(&ctx, &mut enc, &src, &sink, 0).is_err());

    let ctx = context("kernel_roofline_stream_f32");
    encode_roofline_stream_f32(&ctx, &mut enc, &src, &src, bits(2.0)).unwrap();
    assert_eq!(
        enc.end(),
        launch(
            "kernel_roofline_stream_f32",
            &[1000, 2.0f32.to_bits()],
            &[src.binding(), src.binding()],
            &[],
            size(1, 1, 1),
            size(1024, 1, 1),
        )
    );
}
