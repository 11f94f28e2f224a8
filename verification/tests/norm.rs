//! Norm kernels.

use qwen_metal::context::{DeviceLimits, KernelSwitches, MetalContext, Pipeline};
use qwen_metal::encoder::{Command, KernelEncoder, MTLSize};
use qwen_metal::error::MetalError;
use qwen_metal::float_bits::F32Bits;
use qwen_metal::norm::{
    encode_l2_norm_batched_f32, encode_l2_norm_pair_batched_f32, encode_l2_norm_vjp_batched_f32,
    encode_residual_rms_norm_mul_f32, encode_rms_norm_batched_src_strided_f32,
    encode_rms_norm_mul_f32, encode_rms_norm_mul_vjp_rows_f32, encode_rmsnorm_gated_f32,
    RmsNormVjpRule,
};
use qwen_metal::tensor::MetalTensor;

fn bits(value: f32) -> F32Bits {
    F32Bits {
        bits: value.to_bits(),
    }
}

fn context(switched_on: bool) -> MetalContext {
    MetalContext::new(
        DeviceLimits {
            max_buffer_length: 1 << 30,
            max_threadgroup_memory: 32 * 1024,
        },
        KernelSwitches {
            l2_pair_hd128_r4: switched_on,
            rmsnorm_gated_hd128_r4: switched_on,
        },
        [
            ("kernel_rms_norm_mul_f32", 1024),
            ("kernel_residual_rms_norm_mul_f32", 700),
            ("kernel_rms_norm_mul_vjp_rows_f32", 1024),
            ("kernel_l2_norm_batched_f32", 1024),
            ("kernel_l2_norm_pair_batched_f32", 1024),
            ("kernel_l2_norm_pair_hd128_r4_f32", 1024),
            ("kernel_l2_norm_vjp_batched_f32", 1024),
            ("kernel_rms_norm_batched_src_strided_f32", 1024),
            ("kernel_rmsnorm_gated_f32", 1024),
            ("kernel_rmsnorm_gated_hd128_r4_f32", 1024),
        ]
        .into_iter()
        .map(|(name, max_total_threads)| Pipeline {
            name: name.to_string(),
            max_total_threads,
            static_threadgroup_memory: 0,
        })
        .collect(),
    )
}

fn pipeline_name(commands: &[Command]) -> &str {
    match &commands[0] {
        Command::SetPipeline(name) => name,
        _ => panic!("no pipeline"),
    }
}

fn size(width: usize, height: usize, depth: usize) -> MTLSize {
    MTLSize {
        width,
        height,
        depth,
    }
}

#[test]
fn rms_norm_records_one_exact_launch() {
    let mut ctx = context(true);
    let x = MetalTensor::zeros_f32(&mut ctx, vec![5120]).unwrap();
    let w = MetalTensor::zeros_f32(&mut ctx, vec![5120]).unwrap();
    let y = MetalTensor::zeros_f32(&mut ctx, vec![5120]).unwrap();
    let mut enc = KernelEncoder::begin();
    encode_rms_norm_mul_f32(&ctx, &mut enc, &x, &w, &y, bits(1e-6)).unwrap();
    assert_eq!(
        enc.end(),
        vec![
            Command::SetPipeline("kernel_rms_norm_mul_f32".to_string()),
            Command::SetBytes {
                index: 0,
                words: vec![5120, 1e-6f32.to_bits()],
            },
            Command::SetTensor {
                index: 1,
                binding: x.binding(),
            },
            Command::SetTensor {
                index: 2,
                binding: w.binding(),
            },
            Command::SetTensor {
                index: 3,
                binding: y.binding(),
            },
            Command::SetThreadgroupMemory {
                index: 0,
                length: 128,
            },
            Command::Dispatch {
                threadgroups: size(1, 1, 1),
                threads: size(1024, 1, 1),
            },
        ]
    );
    let short = MetalTensor::zeros_f32(&mut ctx, vec![5119]).unwrap();
    let mut enc = KernelEncoder::begin();
    match encode_rms_norm_mul_f32(&ctx, &mut enc, &x, &short, &y, bits(1e-6)) {
        Err(MetalError::BadShape { kernel, detail }) => {
            assert_eq!(kernel, "rms_norm");
            assert_eq!(detail.template, "weight.n_elements={} != x.n_elements={}");
        }
        _ => panic!("a short weight was accepted"),
    }
}

#[test]
fn narrow_pipelines_get_fewer_threads() {
    let mut ctx = context(true);
    let x = MetalTensor::zeros_f32(&mut ctx, vec![1024]).unwrap();
    let r = MetalTensor::zeros_f32(&mut ctx, vec![1024]).unwrap();
    let w = MetalTensor::zeros_f32(&mut ctx, vec![1024]).unwrap();
    let y = MetalTensor::zeros_f32(&mut ctx, vec![1024]).unwrap();
    let mut enc = KernelEncoder::begin();
    encode_residual_rms_norm_mul_f32(&ctx, &mut enc, &x, &r, &w, &y, bits(1e-6)).unwrap();
    let commands = enc.end();
    assert!(commands.contains(&Command::SetThreadgroupMemory {
        index: 0,
        length: 88,
    }));
    assert_eq!(
        commands.last(),
        Some(&Command::Dispatch {
            threadgroups: size(1, 1, 1),
            threads: size(700, 1, 1),
        })
    );
}

#[test]
fn switches_choose_the_wide_head_kernels() {
    for (switched_on, pair, gated) in [
        (
            true,
            "kernel_l2_norm_pair_hd128_r4_f32",
            "kernel_rmsnorm_gated_hd128_r4_f32",
        ),
        (
            false,
            "kernel_l2_norm_pair_batched_f32",
            "kernel_rmsnorm_gated_f32",
        ),
    ] {
        let mut ctx = context(switched_on);
        let n = vec![48 * 128];
        let q = MetalTensor::zeros_f32(&mut ctx, n.clone()).unwrap();
        let k = MetalTensor::zeros_f32(&mut ctx, n.clone()).unwrap();
        let q_y = MetalTensor::zeros_f32(&mut ctx, n.clone()).unwrap();
        let k_y = MetalTensor::zeros_f32(&mut ctx, n).unwrap();
        let mut enc = KernelEncoder::begin();
        encode_l2_norm_pair_batched_f32(
            &ctx, &mut enc, &q, &q_y, &k, &k_y, 48, 128, bits(1e-6),
        )
        .unwrap();
        assert_eq!(pipeline_name(&enc.end()), pair);
        let weight = MetalTensor::zeros_f32(&mut ctx, vec![128]).unwrap();
        let mut enc = KernelEncoder::begin();
        encode_rmsnorm_gated_f32(&ctx, &mut enc, &q, &weight, &k, &q_y, 48, 128, bits(1e-6))
            .unwrap();
        assert_eq!(pipeline_name(&enc.end()), gated);
    }
}

#[test]
fn batched_norms_launch_one_group_per_head() {
    let mut ctx = context(true);
    let x = MetalTensor::zeros_f32(&mut ctx, vec![16 * 256]).unwrap();
    let y = MetalTensor::zeros_f32(&mut ctx, vec![16 * 256]).unwrap();
    let mut enc = KernelEncoder::begin();
    encode_l2_norm_batched_f32(&ctx, &mut enc, &x, &y, 16, 256, bits(1e-6)).unwrap();
    let commands = enc.end();
    let Some(Command::Dispatch { threadgroups, .. }) = commands.last() else {
        panic!("no dispatch");
    };
    assert_eq!(*threadgroups, size(16, 1, 1));
    let mut enc = KernelEncoder::begin();
    assert!(encode_l2_norm_batched_f32(&ctx, &mut enc, &x, &y, 15, 256, bits(1e-6)).is_err());
}

#[test]
fn strided_sources_are_bounded() {
    let mut ctx = context(true);
    let x = MetalTensor::zeros_f32(&mut ctx, vec![4 * 512]).unwrap();
    let w = MetalTensor::zeros_f32(&mut ctx, vec![256]).unwrap();
    let y = MetalTensor::zeros_f32(&mut ctx, vec![4 * 256]).unwrap();
    let mut enc = KernelEncoder::begin();
    encode_rms_norm_batched_src_strided_f32(
        &ctx, &mut enc, &x, &w, &y, 4, 256, 512, 0, bits(1e-6),
    )
    .unwrap();
    assert!(encode_rms_norm_batched_src_strided_f32(
        &ctx, &mut enc, &x, &w, &y, 5, 256, 512, 0, bits(1e-6),
    )
    .is_err());
}

#[test]
fn derivative_kernels_refuse_bad_eps() {
    let mut ctx = context(true);
    let x = MetalTensor::zeros_f32(&mut ctx, vec![8, 3]).unwrap();
    let w = MetalTensor::zeros_f32(&mut ctx, vec![8]).unwrap();
    let g = MetalTensor::zeros_f32(&mut ctx, vec![8, 3]).unwrap();
    let out = MetalTensor::zeros_f32(&mut ctx, vec![8, 3]).unwrap();
    let flat_x = MetalTensor::zeros_f32(&mut ctx, vec![24]).unwrap();
    let flat_g = MetalTensor::zeros_f32(&mut ctx, vec![24]).unwrap();
    let flat_out = MetalTensor::zeros_f32(&mut ctx, vec![24]).unwrap();
    for eps in [-1.0f32, f32::NAN, f32::INFINITY] {
        let mut enc = KernelEncoder::begin();
        match encode_rms_norm_mul_vjp_rows_f32(
            &ctx,
            &mut enc,
            &x,
            &w,
            &g,
            &out,
            3,
            8,
            bits(eps),
            RmsNormVjpRule::Jacobian,
        ) {
            Err(MetalError::BadShape { detail, .. }) => {
                assert!(detail.template.contains("finite nonnegative eps"))
            }
            _ => panic!("eps {eps} was accepted"),
        }
        assert!(encode_l2_norm_vjp_batched_f32(
            &ctx,
            &mut enc,
            &flat_x,
            &flat_g,
            &flat_out,
            3,
            8,
            bits(eps),
        )
        .is_err());
        assert!(enc.end().is_empty());
    }
    let mut enc = KernelEncoder::begin();
    encode_rms_norm_mul_vjp_rows_f32(
        &ctx,
        &mut enc,
        &x,
        &w,
        &g,
        &out,
        3,
        8,
        bits(0.0),
        RmsNormVjpRule::Jacobian,
    )
    .unwrap();
    assert_eq!(
        pipeline_name(&enc.end()),
        "kernel_rms_norm_mul_vjp_rows_f32"
    );
    let mut enc = KernelEncoder::begin();
    encode_l2_norm_vjp_batched_f32(
        &ctx,
        &mut enc,
        &flat_x,
        &flat_g,
        &flat_out,
        3,
        8,
        bits(1e-6),
    )
    .unwrap();
    assert_eq!(pipeline_name(&enc.end()), "kernel_l2_norm_vjp_batched_f32");
}
