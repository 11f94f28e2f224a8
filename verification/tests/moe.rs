//! Mixture-of-experts kernels for fixed formats.

use qwen_metal::context::{DeviceLimits, KernelSwitches, MetalContext, Pipeline};
use qwen_metal::dtype::GgmlType;
use qwen_metal::encoder::{Command, KernelEncoder, MTLSize};
use qwen_metal::error::{AllowedDtypes, MetalError};
use qwen_metal::moe_checked::{
    checked_moe_decode_args, checked_moe_product, encode_moe_down_iq4_nl_f32,
    encode_moe_down_iq4_nl_f32_fast, encode_moe_down_iq4_nl_f32_grouped_slots,
    encode_moe_down_iq4_nl_f32_grouped_slots_m128_n16, encode_moe_swiglu_iq4_xs_f32,
    encode_moe_swiglu_iq4_xs_f32_grouped_slots_n16, validate_moe_decode_tensor,
};
use qwen_metal::moe_grouped::{
    encode_moe_down_q5_K_f32_grouped_slots, encode_moe_swiglu_q4_K_f32_grouped_slots_n16,
    encode_moe_swiglu_q4_K_f32_grouped_slots_n16_range,
};
use qwen_metal::moe_route::{
    encode_mat_mat_f32_router_e8p32, encode_mat_mat_f32_router_e8p32_strict,
    encode_moe_route_bucket_slots_f32, encode_moe_weighted_sum_f32,
    encode_topk_logits_softmax_f32,
};
use qwen_metal::moe_slots::{
    encode_moe_down_q5_K_f32, encode_moe_mat_vec_q5_K_f32, encode_moe_swiglu_q6_K_f32,
};
use qwen_metal::research::encode_roofline_fma_f32;
use qwen_metal::tensor::{Binding, MetalTensor, MetalTensorProvenance};

fn context(names: &[&str]) -> MetalContext {
    MetalContext::new(
        DeviceLimits {
            max_buffer_length: 1 << 30,
            max_threadgroup_memory: 32 * 1024,
        },
        KernelSwitches {
            l2_pair_hd128_r4: true,
            rmsnorm_gated_hd128_r4: true,
        },
        names
            .iter()
            .map(|name| Pipeline {
                name: name.to_string(),
                max_total_threads: 1024,
                static_threadgroup_memory: 0,
            })
            .collect(),
    )
}

fn size(width: usize, height: usize, depth: usize) -> MTLSize {
    MTLSize {
        width,
        height,
        depth,
    }
}

/// One recorded launch, taken apart.
struct Recorded {
    name: String,
    words: Vec<u32>,
    tensors: Vec<Binding>,
    scratch: Vec<usize>,
    threadgroups: MTLSize,
    threads: MTLSize,
}

fn only_launch(enc: KernelEncoder) -> Recorded {
    let mut launch = Recorded {
        name: String::new(),
        words: Vec::new(),
        tensors: Vec::new(),
        scratch: Vec::new(),
        threadgroups: size(0, 0, 0),
        threads: size(0, 0, 0),
    };
    let mut dispatched = false;
    for command in enc.end() {
        assert!(!dispatched, "more than one launch");
        match command {
            Command::SetPipeline(name) => launch.name = name,
            Command::SetBytes { index, words } => {
                assert_eq!(index, 0);
                launch.words = words;
            }
            Command::SetTensor { index, binding } => {
                launch.tensors.push(binding);
                assert_eq!(index, launch.tensors.len());
            }
            Command::SetThreadgroupMemory { index, length } => {
                assert_eq!(index, launch.scratch.len());
                launch.scratch.push(length);
            }
            Command::Dispatch {
                threadgroups,
                threads,
            } => {
                launch.threadgroups = threadgroups;
                launch.threads = threads;
                dispatched = true;
            }
        }
    }
    assert!(dispatched, "nothing was launched");
    launch
}

fn refusal(result: Result<(), MetalError>) -> (&'static str, &'static str) {
    match result {
        Err(MetalError::BadShape { kernel, detail }) => (kernel, detail.template),
        _ => panic!("expected a refusal"),
    }
}

fn encode_iq4_nl_block(d: f32, seed: usize) -> [u8; 18] {
    let mut block = [0u8; 18];
    block[..2].copy_from_slice(&half::f16::from_f32(d).to_bits().to_le_bytes());
    for lane in 0..16 {
        let low = (seed + lane * 3) % 16;
        let high = (seed * 5 + lane * 7 + 1) % 16;
        block[2 + lane] = low as u8 | ((high as u8) << 4);
    }
    block
}

fn encode_iq4_xs_block(d: f32, seed: usize) -> [u8; 136] {
    let mut block = [0u8; 136];
    block[..2].copy_from_slice(&half::f16::from_f32(d).to_bits().to_le_bytes());
    let mut scales_h = 0u16;
    for subblock in 0..8 {
        let scale = (seed * 11 + subblock * 7 + 3) % 64;
        block[4 + subblock / 2] |= ((scale & 0x0f) as u8) << (4 * (subblock % 2));
        scales_h |= ((scale >> 4) as u16) << (2 * subblock);
        for lane in 0..16 {
            let low = (seed + subblock * 5 + lane * 3) % 16;
            let high = (seed * 7 + subblock * 3 + lane * 5 + 1) % 16;
            block[8 + subblock * 16 + lane] = low as u8 | ((high as u8) << 4);
        }
    }
    block[2..4].copy_from_slice(&scales_h.to_le_bytes());
    block
}

fn synthetic_iq4_xs_bank(n_in: usize, n_out: usize, n_expert: usize, seed: usize) -> Vec<u8> {
    assert_eq!(n_in % 256, 0);
    let blocks_per_row = n_in / 256;
    let mut bytes = Vec::with_capacity(n_expert * n_out * blocks_per_row * 136);
    for expert in 0..n_expert {
        for row in 0..n_out {
            for block in 0..blocks_per_row {
                let ordinal = (expert * n_out + row) * blocks_per_row + block + seed;
                let sign = if ordinal % 2 == 0 { 1.0 } else { -1.0 };
                let d = sign * (ordinal % 5 + 1) as f32 / 65_536.0;
                bytes.extend_from_slice(&encode_iq4_xs_block(d, ordinal));
            }
        }
    }
    bytes
}

fn synthetic_iq4_nl_bank(n_in: usize, n_out: usize, n_expert: usize, seed: usize) -> Vec<u8> {
    assert_eq!(n_in % 32, 0);
    let blocks_per_row = n_in / 32;
    let mut bytes = Vec::with_capacity(n_expert * n_out * blocks_per_row * 18);
    for expert in 0..n_expert {
        for row in 0..n_out {
            for block in 0..blocks_per_row {
                let ordinal = (expert * n_out + row) * blocks_per_row + block + seed;
                let sign = if ordinal % 2 == 0 { 1.0 } else { -1.0 };
                let d = sign * (ordinal % 7 + 1) as f32 / 16_384.0;
                bytes.extend_from_slice(&encode_iq4_nl_block(d, ordinal));
            }
        }
    }
    bytes
}

const N_IN: usize = 256;
const N_FFN: usize = 32;
const N_HIDDEN: usize = 65;
const N_EXPERT: usize = 2;

#[test]
fn moe_iq4_decode_rejects_unsafe_tensor_contracts() {
    let mut ctx = context(&[]);
    let gate_bytes = synthetic_iq4_xs_bank(N_IN, N_FFN, N_EXPERT, 17);
    let up_bytes = synthetic_iq4_xs_bank(N_IN, N_FFN, N_EXPERT, 31);
    let down_bytes = synthetic_iq4_nl_bank(N_FFN, N_HIDDEN, N_EXPERT, 47);
    let gate = MetalTensor::from_bytes(
        &mut ctx,
        &gate_bytes,
        vec![N_IN as u64, N_FFN as u64, N_EXPERT as u64],
        GgmlType::IQ4_XS,
    )
    .unwrap();
    let up = MetalTensor::from_bytes(
        &mut ctx,
        &up_bytes,
        vec![N_IN as u64, N_FFN as u64, N_EXPERT as u64],
        GgmlType::IQ4_XS,
    )
    .unwrap();
    let down = MetalTensor::from_bytes(
        &mut ctx,
        &down_bytes,
        vec![N_FFN as u64, N_HIDDEN as u64, N_EXPERT as u64],
        GgmlType::IQ4_NL,
    )
    .unwrap();
    let input = MetalTensor::zeros_f32(&mut ctx, vec![N_IN as u64]).unwrap();
    let indices = MetalTensor::from_bytes(
        &mut ctx,
        bytemuck::cast_slice(&[0i32]),
        vec![1],
        GgmlType::I32,
    )
    .unwrap();
    let inner = MetalTensor::zeros_f32(&mut ctx, vec![N_FFN as u64]).unwrap();
    let output = MetalTensor::zeros_f32(&mut ctx, vec![N_HIDDEN as u64]).unwrap();
    let half_input = MetalTensor::from_bytes(
        &mut ctx,
        bytemuck::cast_slice(&vec![half::f16::ZERO; N_IN]),
        vec![N_IN as u64],
        GgmlType::F16,
    )
    .unwrap();
    let half_indices = MetalTensor::from_bytes(
        &mut ctx,
        bytemuck::cast_slice(&[half::f16::ZERO]),
        vec![1],
        GgmlType::F16,
    )
    .unwrap();

    let mut encoder = KernelEncoder::begin();
    assert!(encode_moe_swiglu_iq4_xs_f32(
        &ctx,
        &mut encoder,
        &gate,
        &up,
        &half_input,
        &indices,
        &inner,
        N_IN,
        N_FFN,
        N_EXPERT,
        1,
    )
    .is_err());
    assert!(encode_moe_swiglu_iq4_xs_f32(
        &ctx,
        &mut encoder,
        &gate,
        &up,
        &input,
        &half_indices,
        &inner,
        N_IN,
        N_FFN,
        N_EXPERT,
        1,
    )
    .is_err());
    let mut read_only_inner = inner.clone();
    read_only_inner.provenance = MetalTensorProvenance::OwnedWeightReadOnly;
    assert!(encode_moe_swiglu_iq4_xs_f32(
        &ctx,
        &mut encoder,
        &gate,
        &up,
        &input,
        &indices,
        &read_only_inner,
        N_IN,
        N_FFN,
        N_EXPERT,
        1,
    )
    .is_err());
    let mut short_input = input.clone();
    short_input.offset = 4;
    assert!(encode_moe_swiglu_iq4_xs_f32(
        &ctx,
        &mut encoder,
        &gate,
        &up,
        &short_input,
        &indices,
        &inner,
        N_IN,
        N_FFN,
        N_EXPERT,
        1,
    )
    .is_err());
    let mut misaligned_gate = gate.clone();
    misaligned_gate.offset = 1;
    assert!(encode_moe_swiglu_iq4_xs_f32(
        &ctx,
        &mut encoder,
        &misaligned_gate,
        &up,
        &input,
        &indices,
        &inner,
        N_IN,
        N_FFN,
        N_EXPERT,
        1,
    )
    .is_err());
    let overflow_dimension = u32::MAX as usize - 255;
    assert!(encode_moe_swiglu_iq4_xs_f32(
        &ctx,
        &mut encoder,
        &gate,
        &up,
        &input,
        &indices,
        &inner,
        overflow_dimension,
        overflow_dimension,
        N_EXPERT,
        1,
    )
    .is_err());
    assert!(encode_moe_swiglu_iq4_xs_f32(
        &ctx,
        &mut encoder,
        &gate,
        &up,
        &input,
        &indices,
        &inner,
        N_IN,
        N_FFN,
        N_EXPERT,
        N_EXPERT + 1,
    )
    .is_err());

    let mut read_only_output = output.clone();
    read_only_output.provenance = MetalTensorProvenance::OwnedWeightReadOnly;
    assert!(encode_moe_down_iq4_nl_f32(
        &ctx,
        &mut encoder,
        &down,
        &inner,
        &indices,
        &read_only_output,
        N_FFN,
        N_HIDDEN,
        N_EXPERT,
        1,
    )
    .is_err());
    let padded_inner = MetalTensor::zeros_f32(&mut ctx, vec![(N_FFN + 1) as u64]).unwrap();
    let misaligned_inner = padded_inner.view_subrange(1, vec![N_FFN as u64]);
    assert!(encode_moe_down_iq4_nl_f32_fast(
        &ctx,
        &mut encoder,
        &down,
        &misaligned_inner,
        &indices,
        &output,
        N_FFN,
        N_HIDDEN,
        N_EXPERT,
        1,
    )
    .is_err());
    let mut short_down = down.clone();
    short_down.offset = 2;
    assert!(encode_moe_down_iq4_nl_f32(
        &ctx,
        &mut encoder,
        &short_down,
        &inner,
        &indices,
        &output,
        N_FFN,
        N_HIDDEN,
        N_EXPERT,
        1,
    )
    .is_err());
    assert!(encoder.end().is_empty());
}

#[test]
fn iq4_decode_records_exact_launches() {
    let mut ctx = context(&["kernel_moe_swiglu_iq4_xs_f32", "kernel_moe_down_iq4_nl_f32"]);
    let bank = vec![N_IN as u64, N_FFN as u64, N_EXPERT as u64];
    let gate = MetalTensor::zeros_dtype(&mut ctx, bank.clone(), GgmlType::IQ4_XS).unwrap();
    let up = MetalTensor::zeros_dtype(&mut ctx, bank, GgmlType::IQ4_XS).unwrap();
    let down = MetalTensor::zeros_dtype(
        &mut ctx,
        vec![N_FFN as u64, N_HIDDEN as u64, N_EXPERT as u64],
        GgmlType::IQ4_NL,
    )
    .unwrap();
    let input = MetalTensor::zeros_f32(&mut ctx, vec![N_IN as u64]).unwrap();
    let indices = MetalTensor::zeros_i32(&mut ctx, vec![2]).unwrap();
    let inner = MetalTensor::zeros_f32(&mut ctx, vec![2 * N_FFN as u64]).unwrap();
    let output = MetalTensor::zeros_f32(&mut ctx, vec![2 * N_HIDDEN as u64]).unwrap();

    let mut enc = KernelEncoder::begin();
    encode_moe_swiglu_iq4_xs_f32(
        &ctx, &mut enc, &gate, &up, &input, &indices, &inner, N_IN, N_FFN, N_EXPERT, 2,
    )
    .unwrap();
    let launch = only_launch(enc);
    assert_eq!(launch.name, "kernel_moe_swiglu_iq4_xs_f32");
    assert_eq!(launch.words, vec![256, 32, 2, 2]);
    assert_eq!(
        launch.tensors,
        vec![
            gate.binding(),
            up.binding(),
            input.binding(),
            indices.binding(),
            inner.binding(),
        ]
    );
    assert_eq!(launch.threadgroups.height, 2);

    let mut enc = KernelEncoder::begin();
    encode_moe_down_iq4_nl_f32(
        &ctx, &mut enc, &down, &inner, &indices, &output, N_FFN, N_HIDDEN, N_EXPERT, 2,
    )
    .unwrap();
    let launch = only_launch(enc);
    assert_eq!(launch.name, "kernel_moe_down_iq4_nl_f32");
    assert_eq!(launch.words, vec![32, 65, 2, 2]);
}

#[test]
fn grouped_iq4_kernels_check_and_record() {
    let mut ctx = context(&[
        "kernel_moe_swiglu_iq4_xs_f32_grouped_slots_n16",
        "kernel_moe_down_iq4_nl_f32_grouped_slots",
        "kernel_moe_down_iq4_nl_f32_grouped_slots_m128_n16",
    ]);
    let (n_tokens, topk) = (3usize, 2usize);
    let bank = vec![N_IN as u64, N_FFN as u64, N_EXPERT as u64];
    let gate = MetalTensor::zeros_dtype(&mut ctx, bank.clone(), GgmlType::IQ4_XS).unwrap();
    let up = MetalTensor::zeros_dtype(&mut ctx, bank, GgmlType::IQ4_XS).unwrap();
    let x = MetalTensor::zeros_f32(&mut ctx, vec![(n_tokens * N_IN) as u64]).unwrap();
    let counts = MetalTensor::zeros_i32(&mut ctx, vec![N_EXPERT as u64]).unwrap();
    let ids = MetalTensor::zeros_i32(&mut ctx, vec![(N_EXPERT * n_tokens) as u64]).unwrap();
    let inner =
        MetalTensor::zeros_f32(&mut ctx, vec![(n_tokens * topk * N_FFN) as u64]).unwrap();
    let mut enc = KernelEncoder::begin();
    encode_moe_swiglu_iq4_xs_f32_grouped_slots_n16(
        &ctx, &mut enc, &gate, &up, &x, &counts, &ids, &inner, N_IN, N_FFN, N_EXPERT, topk,
        n_tokens,
    )
    .unwrap();
    let launch = only_launch(enc);
    assert_eq!(
        launch.name,
        "kernel_moe_swiglu_iq4_xs_f32_grouped_slots_n16"
    );
    assert_eq!(launch.threadgroups.depth, N_EXPERT);
    assert_eq!(launch.threads, size(128, 1, 1));

    let mut enc = KernelEncoder::begin();
    assert_eq!(
        refusal(encode_moe_swiglu_iq4_xs_f32_grouped_slots_n16(
            &ctx, &mut enc, &gate, &up, &x, &counts, &ids, &inner, N_IN, N_FFN, 32, 17, n_tokens,
        )),
        (
            "moe_swiglu_iq4_xs_grouped_slots_n16",
            "topk={} exceeds grouped kernel limit 16"
        )
    );

    let (n_in, n_out) = (512usize, 128usize);
    let weight = MetalTensor::zeros_dtype(
        &mut ctx,
        vec![n_in as u64, n_out as u64, N_EXPERT as u64],
        GgmlType::IQ4_NL,
    )
    .unwrap();
    let inner = MetalTensor::zeros_f32(&mut ctx, vec![(n_tokens * topk * n_in) as u64]).unwrap();
    let out = MetalTensor::zeros_f32(&mut ctx, vec![(n_tokens * topk * n_out) as u64]).unwrap();
    encode_moe_down_iq4_nl_f32_grouped_slots(
        &ctx, &mut enc, &weight, &inner, &counts, &ids, &out, n_in, n_out, N_EXPERT, n_tokens,
    )
    .unwrap();
    let launch = only_launch(enc);
    assert_eq!(launch.name, "kernel_moe_down_iq4_nl_f32_grouped_slots");
    let mut enc = KernelEncoder::begin();
    encode_moe_down_iq4_nl_f32_grouped_slots_m128_n16(
        &ctx, &mut enc, &weight, &inner, &counts, &ids, &out, n_in, n_out, N_EXPERT, n_tokens,
    )
    .unwrap();
    assert_eq!(
        only_launch(enc).name,
        "kernel_moe_down_iq4_nl_f32_grouped_slots_m128_n16"
    );
}

#[test]
fn decode_dimensions_are_checked() {
    let args = checked_moe_decode_args("kernel", 256, 32, 8, 2).unwrap();
    assert_eq!((args.n_in, args.n_out, args.n_expert, args.topk), (256, 32, 8, 2));
    assert!(checked_moe_decode_args("kernel", 0, 32, 8, 2).is_err());
    assert!(checked_moe_decode_args("kernel", 256, 32, 8, 9).is_err());
    assert!(checked_moe_decode_args("kernel", 1 << 32, 32, 8, 2).is_err());
    assert_eq!(checked_moe_product("kernel", "bank", &[3, 4, 5]).unwrap(), 60);
    assert!(checked_moe_product("kernel", "bank", &[usize::MAX, 2]).is_err());
}

#[test]
fn decode_tensors_are_checked() {
    let mut ctx = context(&[]);
    let tensor = MetalTensor::zeros_f32(&mut ctx, vec![8]).unwrap();
    let f32_only = AllowedDtypes::Only(GgmlType::F32);
    assert!(validate_moe_decode_tensor("kernel", "x", &tensor, 8, f32_only, true, 4).is_ok());
    assert!(validate_moe_decode_tensor("kernel", "x", &tensor, 7, f32_only, true, 4).is_err());
    assert!(validate_moe_decode_tensor(
        "kernel",
        "x",
        &tensor,
        8,
        AllowedDtypes::Only(GgmlType::I32),
        true,
        4
    )
    .is_err());
    assert!(
        validate_moe_decode_tensor("kernel", "x", &tensor, 8, AllowedDtypes::I32OrF32, true, 4)
            .is_ok()
    );
    let mut read_only = tensor.clone();
    read_only.provenance = MetalTensorProvenance::RetainedGgufReadOnly;
    assert!(validate_moe_decode_tensor("kernel", "x", &read_only, 8, f32_only, false, 4).is_ok());
    assert!(validate_moe_decode_tensor("kernel", "x", &read_only, 8, f32_only, true, 4).is_err());
    let mut shifted = tensor.clone();
    shifted.offset = 2;
    assert!(validate_moe_decode_tensor("kernel", "x", &shifted, 8, f32_only, true, 4).is_err());
    shifted.offset = 4;
    assert!(validate_moe_decode_tensor("kernel", "x", &shifted, 8, f32_only, true, 4).is_err());
}

#[test]
fn routers_check_and_record() {
    let mut ctx = context(&[
        "kernel_mat_mat_f32_f32_router_e8p32",
        "kernel_mat_mat_f32_f32_router_e8p32_strict",
    ]);
    let (n_in, n_out) = (4096usize, 160usize);
    let weight = MetalTensor::zeros_f32(&mut ctx, vec![n_in as u64, n_out as u64]).unwrap();
    let short = MetalTensor::zeros_f32(&mut ctx, vec![(n_in * n_out - 1) as u64]).unwrap();
    let x = MetalTensor::zeros_f32(&mut ctx, vec![n_in as u64]).unwrap();
    let y = MetalTensor::zeros_f32(&mut ctx, vec![n_out as u64]).unwrap();
    let mut enc = KernelEncoder::begin();
    assert!(encode_mat_mat_f32_router_e8p32_strict(
        &ctx, &mut enc, &short, &x, &y, n_in, n_out, 1,
    )
    .is_err());
    encode_mat_mat_f32_router_e8p32_strict(&ctx, &mut enc, &weight, &x, &y, n_in, n_out, 1)
        .unwrap();
    let strict = only_launch(enc);
    assert_eq!(strict.name, "kernel_mat_mat_f32_f32_router_e8p32_strict");
    assert_eq!(strict.words, vec![4096, 160, 1]);
    assert_eq!(strict.threadgroups, size(20, 1, 1));
    assert_eq!(strict.threads, size(32, 1, 1));
    assert!(strict.scratch.is_empty());

    let mut enc = KernelEncoder::begin();
    encode_mat_mat_f32_router_e8p32(&ctx, &mut enc, &weight, &x, &y, n_in, n_out, 1).unwrap();
    let plain = only_launch(enc);
    assert_eq!(plain.name, "kernel_mat_mat_f32_f32_router_e8p32");
    assert_eq!(plain.words, strict.words);
    assert_eq!(plain.tensors, strict.tensors);
    assert_eq!(plain.threadgroups, strict.threadgroups);
}

#[test]
fn expert_slots_record_exact_launches() {
    let mut ctx = context(&[
        "kernel_moe_swiglu_q6_K_f32",
        "kernel_moe_down_q5_K_f32",
        "kernel_moe_mat_vec_q5_K_f32",
    ]);
    let bank = vec![256u64, 10, 4];
    let gate = MetalTensor::zeros_dtype(&mut ctx, bank.clone(), GgmlType::Q6_K).unwrap();
    let up = MetalTensor::zeros_dtype(&mut ctx, bank.clone(), GgmlType::Q6_K).unwrap();
    let x = MetalTensor::zeros_f32(&mut ctx, vec![256]).unwrap();
    let idx = MetalTensor::zeros_i32(&mut ctx, vec![3]).unwrap();
    let inner = MetalTensor::zeros_f32(&mut ctx, vec![30]).unwrap();
    let mut enc = KernelEncoder::begin();
    encode_moe_swiglu_q6_K_f32(&ctx, &mut enc, &gate, &up, &x, &idx, &inner, 256, 10, 4, 3)
        .unwrap();
    let launch = only_launch(enc);
    assert_eq!(launch.name, "kernel_moe_swiglu_q6_K_f32");
    assert_eq!(launch.words, vec![256, 10, 4, 3]);
    assert_eq!(launch.threadgroups, size(3, 3, 1));
    assert_eq!(launch.threads, size(64, 1, 1));

    let mut enc = KernelEncoder::begin();
    assert_eq!(
        refusal(encode_moe_swiglu_q6_K_f32(
            &ctx, &mut enc, &gate, &up, &x, &idx, &inner, 255, 10, 4, 3
        )),
        ("moe_swiglu_q6_K", "n_in={} not divisible by {}")
    );
    assert_eq!(
        refusal(encode_moe_swiglu_q6_K_f32(
            &ctx, &mut enc, &gate, &x, &x, &idx, &inner, 256, 10, 4, 3
        )),
        (
            "moe_swiglu_q6_K",
            "expected {} gate/up expert banks, got {}/{}"
        )
    );
    assert_eq!(
        refusal(encode_moe_swiglu_q6_K_f32(
            &ctx, &mut enc, &gate, &up, &x, &idx, &inner, 256, 10, 4, 2
        )),
        (
            "moe_swiglu_q6_K",
            "shape mismatch: x={} idx={} inner={} expected x={} idx={} inner={}"
        )
    );

    let weight = MetalTensor::zeros_dtype(&mut ctx, bank, GgmlType::Q5_K).unwrap();
    let rows = MetalTensor::zeros_f32(&mut ctx, vec![3 * 256]).unwrap();
    let out = MetalTensor::zeros_f32(&mut ctx, vec![30]).unwrap();
    encode_moe_down_q5_K_f32(&ctx, &mut enc, &weight, &rows, &idx, &out, 256, 10, 4, 3).unwrap();
    assert_eq!(only_launch(enc).name, "kernel_moe_down_q5_K_f32");
    let mut enc = KernelEncoder::begin();
    encode_moe_mat_vec_q5_K_f32(&ctx, &mut enc, &weight, &x, &idx, &out, 256, 10, 4, 3).unwrap();
    assert_eq!(only_launch(enc).name, "kernel_moe_mat_vec_q5_K_f32");
}

#[test]
fn a_missing_pipeline_records_nothing() {
    let mut ctx = context(&[]);
    let bank = vec![256u64, 10, 4];
    let gate = MetalTensor::zeros_dtype(&mut ctx, bank.clone(), GgmlType::Q6_K).unwrap();
    let up = MetalTensor::zeros_dtype(&mut ctx, bank, GgmlType::Q6_K).unwrap();
    let x = MetalTensor::zeros_f32(&mut ctx, vec![256]).unwrap();
    let idx = MetalTensor::zeros_i32(&mut ctx, vec![3]).unwrap();
    let inner = MetalTensor::zeros_f32(&mut ctx, vec![30]).unwrap();
    let mut enc = KernelEncoder::begin();
    match encode_moe_swiglu_q6_K_f32(&ctx, &mut enc, &gate, &up, &x, &idx, &inner, 256, 10, 4, 3) {
        Err(MetalError::MissingPipeline { name }) => {
            assert_eq!(name, "kernel_moe_swiglu_q6_K_f32")
        }
        _ => panic!("expected a missing pipeline"),
    }
    assert!(enc.end().is_empty());
}

#[test]
fn grouped_slots_of_all_counts_are_a_full_range() {
    let mut ctx = context(&[
        "kernel_moe_swiglu_q4_K_f32_grouped_slots_n16",
        "kernel_moe_down_q5_K_f32_grouped_slots",
    ]);
    let (n_hidden, n_ffn, n_expert, topk, n_tokens) = (256usize, 64usize, 4usize, 2usize, 5usize);
    let bank = vec![n_hidden as u64, n_ffn as u64, n_expert as u64];
    let gate = MetalTensor::zeros_dtype(&mut ctx, bank.clone(), GgmlType::Q4_K).unwrap();
    let up = MetalTensor::zeros_dtype(&mut ctx, bank, GgmlType::Q4_K).unwrap();
    let x = MetalTensor::zeros_f32(&mut ctx, vec![(n_tokens * n_hidden) as u64]).unwrap();
    let counts = MetalTensor::zeros_i32(&mut ctx, vec![n_expert as u64]).unwrap();
    let ids = MetalTensor::zeros_i32(&mut ctx, vec![(n_expert * n_tokens) as u64]).unwrap();
    let inner =
        MetalTensor::zeros_f32(&mut ctx, vec![(n_tokens * topk * n_ffn) as u64]).unwrap();
    let mut enc = KernelEncoder::begin();
    encode_moe_swiglu_q4_K_f32_grouped_slots_n16(
        &ctx, &mut enc, &gate, &up, &x, &counts, &ids, &inner, n_hidden, n_ffn, n_expert, topk,
        n_tokens,
    )
    .unwrap();
    let all = only_launch(enc);
    let mut enc = KernelEncoder::begin();
    encode_moe_swiglu_q4_K_f32_grouped_slots_n16_range(
        &ctx, &mut enc, &gate, &up, &x, &counts, &ids, &inner, n_hidden, n_ffn, n_expert, topk,
        n_tokens, 0, i32::MAX as u32,
    )
    .unwrap();
    let range = only_launch(enc);
    assert_eq!(all.name, range.name);
    assert_eq!(all.words, range.words);
    assert_eq!(all.threadgroups, range.threadgroups);
    assert_eq!(all.scratch, range.scratch);
    assert_eq!(all.threadgroups.depth, n_expert);

    let weight = MetalTensor::zeros_dtype(
        &mut ctx,
        vec![n_hidden as u64, n_ffn as u64, n_expert as u64],
        GgmlType::Q5_K,
    )
    .unwrap();
    let rows =
        MetalTensor::zeros_f32(&mut ctx, vec![(n_tokens * topk * n_hidden) as u64]).unwrap();
    let mut enc = KernelEncoder::begin();
    encode_moe_down_q5_K_f32_grouped_slots(
        &ctx, &mut enc, &weight, &rows, &counts, &ids, &inner, n_hidden, n_ffn, n_expert,
        n_tokens,
    )
    .unwrap();
    assert_eq!(
        only_launch(enc).name,
        "kernel_moe_down_q5_K_f32_grouped_slots"
    );
}

#[test]
fn routing_kernels_check_and_record() {
    let mut ctx = context(&[
        "kernel_moe_weighted_sum_f32",
        "kernel_topk_logits_softmax_f32",
        "kernel_moe_route_bucket_slots_f32",
        "kernel_roofline_fma_f32",
    ]);
    let out = MetalTensor::zeros_f32(&mut ctx, vec![100]).unwrap();
    let weights = MetalTensor::zeros_f32(&mut ctx, vec![4]).unwrap();
    let expert_out = MetalTensor::zeros_f32(&mut ctx, vec![400]).unwrap();
    let mut enc = KernelEncoder::begin();
    encode_moe_weighted_sum_f32(&ctx, &mut enc, &expert_out, &weights, &out, 100, 4).unwrap();
    let launch = only_launch(enc);
    assert_eq!(launch.name, "kernel_moe_weighted_sum_f32");
    assert_eq!(launch.words, vec![100, 4]);
    let mut enc = KernelEncoder::begin();
    assert!(encode_moe_weighted_sum_f32(&ctx, &mut enc, &out, &weights, &out, 100, 4).is_err());

    let logits = MetalTensor::zeros_f32(&mut ctx, vec![16]).unwrap();
    let idx = MetalTensor::zeros_i32(&mut ctx, vec![4]).unwrap();
    encode_topk_logits_softmax_f32(&ctx, &mut enc, &logits, &idx, &weights, 16, 4).unwrap();
    assert_eq!(only_launch(enc).name, "kernel_topk_logits_softmax_f32");
    let mut enc = KernelEncoder::begin();
    assert!(encode_topk_logits_softmax_f32(&ctx, &mut enc, &logits, &idx, &weights, 16, 5)
        .is_err());

    let topk_idx = MetalTensor::zeros_i32(&mut ctx, vec![6]).unwrap();
    let counts = MetalTensor::zeros_i32(&mut ctx, vec![8]).unwrap();
    let ids = MetalTensor::zeros_i32(&mut ctx, vec![24]).unwrap();
    encode_moe_route_bucket_slots_f32(&ctx, &mut enc, &topk_idx, &counts, &ids, 8, 3, 2).unwrap();
    assert_eq!(
        only_launch(enc).name,
        "kernel_moe_route_bucket_slots_f32"
    );

    let mut enc = KernelEncoder::begin();
    encode_roofline_fma_f32(&ctx, &mut enc, &out, &out, 8).unwrap();
    assert_eq!(only_launch(enc).name, "kernel_roofline_fma_f32");
}
