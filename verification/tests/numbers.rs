//! Numbers: rounding, products, float bits and packed blocks.

use qwen_metal::float_bits::{greedy_total_order_key, F32Bits};
use qwen_metal::mxfp4::{encode_mxfp4_block, mxfp4_scale};
use qwen_metal::numeric::{
    checked_fold_product, div_ceil, is_power_of_two, max_size, min_size, product,
};

#[test]
fn greedy_total_order_key_matches_f32_total_cmp() {
    let values = [
        0.0f32,
        -0.0,
        1.0,
        -1.0,
        1.5,
        -1.5,
        f32::MIN_POSITIVE,
        -f32::MIN_POSITIVE,
        f32::from_bits(1),
        f32::from_bits(0x8000_0001),
        f32::MAX,
        f32::MIN,
        f32::INFINITY,
        f32::NEG_INFINITY,
    ];
    for a in values {
        for b in values {
            let a_key = greedy_total_order_key(a.to_bits()).unwrap();
            let b_key = greedy_total_order_key(b.to_bits()).unwrap();
            assert_eq!(a_key.cmp(&b_key), a.total_cmp(&b), "{a} {b}");
        }
    }
    let mut state = 0x9e37_79b9u32;
    let mut sample = || {
        state = state.wrapping_mul(1_664_525).wrapping_add(1_013_904_223);
        state ^ (state >> 16)
    };
    for _ in 0..20_000 {
        let (a_bits, b_bits) = (sample(), sample());
        let (Some(a_key), Some(b_key)) = (
            greedy_total_order_key(a_bits),
            greedy_total_order_key(b_bits),
        ) else {
            continue;
        };
        let (a, b) = (f32::from_bits(a_bits), f32::from_bits(b_bits));
        assert_eq!(a_key.cmp(&b_key), a.total_cmp(&b));
    }
}

#[test]
fn nan_has_no_order_key() {
    assert_eq!(greedy_total_order_key(f32::NAN.to_bits()), None);
    assert_eq!(greedy_total_order_key((-f32::NAN).to_bits()), None);
    assert_eq!(
        greedy_total_order_key(0.0f32.to_bits()),
        Some(0x8000_0000)
    );
    assert_eq!(
        greedy_total_order_key((-0.0f32).to_bits()),
        Some(0x7fff_ffff)
    );
}

#[test]
fn float_tests_agree_with_floats() {
    for value in [0.0f32, -0.0, 1.0, -1.0, 1.0000001, 0.5, 1e-40, -1e-40, f32::MAX] {
        let bits = F32Bits {
            bits: value.to_bits(),
        };
        assert!(bits.is_finite());
        assert_eq!(bits.is_below_zero(), value < 0.0, "{value}");
        assert_eq!(bits.is_at_most_zero(), value <= 0.0, "{value}");
        assert_eq!(bits.is_at_most_one(), value <= 1.0, "{value}");
    }
    for value in [f32::INFINITY, f32::NEG_INFINITY, f32::NAN] {
        assert!(!F32Bits {
            bits: value.to_bits()
        }
        .is_finite());
    }
}

#[test]
fn mxfp4_scales_are_powers_of_two() {
    assert_eq!(f32::from_bits(mxfp4_scale(128).bits), 1.0);
    assert_eq!(f32::from_bits(mxfp4_scale(129).bits), 2.0);
    assert_eq!(f32::from_bits(mxfp4_scale(127).bits), 0.5);
    assert_eq!(mxfp4_scale(0).bits, 0x0020_0000);
    assert_eq!(mxfp4_scale(1).bits, 0x0040_0000);
    for e in 0..255u8 {
        let here = f32::from_bits(mxfp4_scale(e).bits);
        let next = f32::from_bits(mxfp4_scale(e + 1).bits);
        assert_eq!(next, 2.0 * here, "{e}");
    }
}

#[test]
fn mxfp4_blocks_keep_their_indices() {
    let mut indices = [0u8; 32];
    for (i, index) in indices.iter_mut().enumerate() {
        *index = ((i * 7 + 3) % 16) as u8;
    }
    let block = encode_mxfp4_block(130, &indices);
    assert_eq!(block[0], 130);
    for i in 0..16 {
        assert_eq!(block[1 + i] & 15, indices[i]);
        assert_eq!(block[1 + i] >> 4, indices[16 + i]);
    }
}

#[test]
fn rounding_and_products() {
    assert_eq!(div_ceil(0, 8), 0);
    assert_eq!(div_ceil(8, 8), 1);
    assert_eq!(div_ceil(9, 8), 2);
    assert_eq!(div_ceil(usize::MAX, 2), usize::MAX / 2 + 1);
    assert_eq!(product(6, 7), 42);
    assert_eq!(checked_fold_product(&[]), Some(1));
    assert_eq!(checked_fold_product(&[2, 3, 7]), Some(42));
    assert_eq!(checked_fold_product(&[usize::MAX, 2]), None);
    assert!(is_power_of_two(1));
    assert!(is_power_of_two(1 << 40));
    assert!(!is_power_of_two(0));
    assert!(!is_power_of_two(48));
    assert_eq!(min_size(3, 5), 3);
    assert_eq!(max_size(3, 5), 5);
}
