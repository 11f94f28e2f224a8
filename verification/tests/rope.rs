//! Rotary position kernels.

use qwen_metal::context::{DeviceLimits, KernelSwitches, MetalContext, Pipeline};
use qwen_metal::encoder::{Command, KernelEncoder, MTLSize};
use qwen_metal::error::MetalError;
use qwen_metal::float_bits::F32Bits;
use qwen_metal::norm::encode_qk_rms_norm_rope_f32_packed_consecutive;
use qwen_metal::rope::{
    encode_rope_neox_f32, encode_rope_neox_f32_packed_consecutive,
    encode_rope_neox_pair_adaptive_f32_packed_consecutive, encode_rope_neox_pair_f32,
    encode_rope_neox_pair_f32_packed_consecutive, encode_rope_neox_pair_shared_minimax_f32,
    encode_rope_neox_pair_shared_minimax_f32_packed_consecutive,
    validate_rope_minimax_position_span, ROPE_MINIMAX_MAX_VALIDATED_POSITION,
};
use qwen_metal::tensor::{MetalTensor, MetalTensorProvenance};

fn bits(value: f32) -> F32Bits {
    F32Bits {
        bits: value.to_bits(),
    }
}

fn context(names: &[&str]) -> MetalContext {
    MetalContext::new(
        DeviceLimits {
            max_buffer_length: 1 << 30,
            max_threadgroup_memory: 32 * 1024,
        },
        KernelSwitches {
            l2_pair_hd128_r4: true,
            rmsnorm_gated_hd128_r4: true,
        },
        names
            .iter()
            .map(|name| Pipeline {
                name: name.to_string(),
                max_total_threads: 1024,
                static_threadgroup_memory: 0,
            })
            .collect(),
    )
}

#[test]
fn rope_optimized_wrappers_reject_zero_rotary_and_overlap() {
    let mut ctx = context(&[]);
    let (n_tokens, n_heads, head_dim, n_rot) = (1usize, 2usize, 8usize, 4usize);
    let theta = bits(10_000_000.0f32);
    let same = MetalTensor::zeros_f32(&mut ctx, vec![(n_heads * head_dim) as u64]).unwrap();
    let other = MetalTensor::zeros_f32(&mut ctx, vec![(n_heads * head_dim) as u64]).unwrap();
    let mut enc = KernelEncoder::begin();

    assert!(matches!(
        encode_rope_neox_pair_f32(
            &ctx, &mut enc, &same, &other, n_heads, n_heads, head_dim, 0, 0, theta,
        ),
        Err(MetalError::BadShape { .. })
    ));
    assert!(matches!(
        encode_rope_neox_pair_f32(
            &ctx, &mut enc, &same, &same, n_heads, n_heads, head_dim, n_rot, 0, theta,
        ),
        Err(MetalError::BadShape { .. })
    ));
    let wrong_dtype =
        MetalTensor::zeros_f16(&mut ctx, vec![(n_heads * head_dim) as u64]).unwrap();
    assert!(matches!(
        encode_rope_neox_pair_f32(
            &ctx,
            &mut enc,
            &same,
            &wrong_dtype,
            n_heads,
            n_heads,
            head_dim,
            n_rot,
            0,
            theta,
        ),
        Err(MetalError::BadShape { .. })
    ));
    let mut read_only = other.clone();
    read_only.provenance = MetalTensorProvenance::OwnedWeightReadOnly;
    assert!(matches!(
        encode_rope_neox_pair_f32(
            &ctx, &mut enc, &same, &read_only, n_heads, n_heads, head_dim, n_rot, 0, theta,
        ),
        Err(MetalError::BadShape { .. })
    ));
    assert!(matches!(
        encode_rope_neox_pair_shared_minimax_f32(
            &ctx,
            &mut enc,
            &same,
            &other,
            n_heads,
            n_heads,
            head_dim,
            n_rot,
            ROPE_MINIMAX_MAX_VALIDATED_POSITION + 1,
            theta,
        ),
        Err(MetalError::BadShape { .. })
    ));
    assert!(matches!(
        encode_rope_neox_pair_f32_packed_consecutive(
            &ctx, &mut enc, &same, &same, n_tokens, n_heads, n_heads, head_dim, n_rot, 0, theta,
        ),
        Err(MetalError::BadShape { .. })
    ));
    let packed_q =
        MetalTensor::zeros_f32(&mut ctx, vec![(2 * n_tokens * n_heads * head_dim) as u64])
            .unwrap();
    let packed_k =
        MetalTensor::zeros_f32(&mut ctx, vec![(2 * n_tokens * n_heads * head_dim) as u64])
            .unwrap();
    assert!(matches!(
        encode_rope_neox_pair_shared_minimax_f32_packed_consecutive(
            &ctx,
            &mut enc,
            &packed_q,
            &packed_k,
            2,
            n_heads,
            n_heads,
            head_dim,
            n_rot,
            ROPE_MINIMAX_MAX_VALIDATED_POSITION,
            theta,
        ),
        Err(MetalError::BadShape { .. })
    ));
    assert!(matches!(
        encode_rope_neox_f32_packed_consecutive(
            &ctx, &mut enc, &same, n_tokens, n_heads, head_dim, 0, 0, theta,
        ),
        Err(MetalError::BadShape { .. })
    ));

    let n_q = 2usize;
    let n_k = 1usize;
    let q_source =
        MetalTensor::zeros_f32(&mut ctx, vec![(n_tokens * n_q * 2 * head_dim) as u64]).unwrap();
    let q_output_overlap = q_source.view_subrange(0, vec![(n_tokens * n_q * head_dim) as u64]);
    let k_source =
        MetalTensor::zeros_f32(&mut ctx, vec![(n_tokens * n_k * head_dim) as u64]).unwrap();
    let k_output =
        MetalTensor::zeros_f32(&mut ctx, vec![(n_tokens * n_k * head_dim) as u64]).unwrap();
    let q_weight = MetalTensor::zeros_f32(&mut ctx, vec![head_dim as u64]).unwrap();
    let k_weight = MetalTensor::zeros_f32(&mut ctx, vec![head_dim as u64]).unwrap();
    assert!(matches!(
        encode_qk_rms_norm_rope_f32_packed_consecutive(
            &ctx,
            &mut enc,
            &q_source,
            &q_weight,
            &q_output_overlap,
            &k_source,
            &k_weight,
            &k_output,
            n_tokens,
            n_q,
            n_k,
            head_dim,
            n_rot,
            0,
            bits(1e-6),
            theta,
        ),
        Err(MetalError::BadShape { .. })
    ));
    let q_output_f16 =
        MetalTensor::zeros_f16(&mut ctx, vec![(n_tokens * n_q * head_dim) as u64]).unwrap();
    assert!(matches!(
        encode_qk_rms_norm_rope_f32_packed_consecutive(
            &ctx,
            &mut enc,
            &q_source,
            &q_weight,
            &q_output_f16,
            &k_source,
            &k_weight,
            &k_output,
            n_tokens,
            n_q,
            n_k,
            head_dim,
            n_rot,
            0,
            bits(1e-6),
            theta,
        ),
        Err(MetalError::BadShape { .. })
    ));

    assert!(enc.end().is_empty());
}

#[test]
fn minimax_positions_end_at_the_validated_limit() {
    let limit = ROPE_MINIMAX_MAX_VALIDATED_POSITION;
    assert!(validate_rope_minimax_position_span(limit, 1, "kernel").is_ok());
    assert!(validate_rope_minimax_position_span(limit, 2, "kernel").is_err());
    assert!(validate_rope_minimax_position_span(0, limit as usize + 1, "kernel").is_ok());
    assert!(validate_rope_minimax_position_span(0, limit as usize + 2, "kernel").is_err());
}

#[test]
fn rope_records_one_exact_launch() {
    let mut ctx = context(&["kernel_rope_neox_f32"]);
    let buf = MetalTensor::zeros_f32(&mut ctx, vec![2 * 8]).unwrap();
    let mut enc = KernelEncoder::begin();
    let theta = bits(10_000_000.0);
    encode_rope_neox_f32(&ctx, &mut enc, &buf, 2, 8, 4, 7, theta).unwrap();
    let commands = enc.end();
    assert_eq!(
        commands[0],
        Command::SetPipeline("kernel_rope_neox_f32".to_string())
    );
    assert_eq!(
        commands[1],
        Command::SetBytes {
            index: 0,
            words: vec![2, 8, 4, 7, theta.bits],
        }
    );
    assert_eq!(
        commands[2],
        Command::SetTensor {
            index: 1,
            binding: buf.binding(),
        }
    );
    assert_eq!(
        commands[3],
        Command::Dispatch {
            threadgroups: MTLSize {
                width: 1,
                height: 1,
                depth: 1,
            },
            threads: MTLSize {
                width: 64,
                height: 1,
                depth: 1,
            },
        }
    );
    assert_eq!(commands.len(), 4);

    let mut again = KernelEncoder::begin();
    assert!(encode_rope_neox_f32(&ctx, &mut again, &buf, 3, 8, 4, 7, theta).is_err());
    assert!(again.end().is_empty());
}

#[test]
fn adaptive_rope_shares_coefficients_from_128_tokens_on() {
    let mut ctx = context(&[
        "kernel_rope_neox_pair_f32_packed_consecutive",
        "kernel_rope_neox_pair_shared_f32_packed_consecutive",
    ]);
    for (n_tokens, expected) in [
        (1usize, "kernel_rope_neox_pair_f32_packed_consecutive"),
        (127, "kernel_rope_neox_pair_f32_packed_consecutive"),
        (128, "kernel_rope_neox_pair_shared_f32_packed_consecutive"),
    ] {
        let q = MetalTensor::zeros_f32(&mut ctx, vec![(n_tokens * 24 * 256) as u64]).unwrap();
        let k = MetalTensor::zeros_f32(&mut ctx, vec![(n_tokens * 4 * 256) as u64]).unwrap();
        let mut enc = KernelEncoder::begin();
        encode_rope_neox_pair_adaptive_f32_packed_consecutive(
            &ctx,
            &mut enc,
            &q,
            &k,
            n_tokens,
            24,
            4,
            256,
            64,
            0,
            bits(10_000_000.0),
        )
        .unwrap();
        assert_eq!(
            enc.end()[0],
            Command::SetPipeline(expected.to_string())
        );
    }
}
