//! Tensors, allocation, GGUF backing and storage plans.

use qwen_metal::context::{Contents, DeviceLimits, KernelSwitches, MetalContext, StorageMode};
use qwen_metal::dtype::GgmlType;
use qwen_metal::error::{MetalError, Value};
use qwen_metal::gguf_backing::{
    BlitEncoder, DiagnosticGgufBlitReleaseProbe, DiagnosticGgufBlitSourceWindow,
    GgufBackingEligibility, GgufBackingGeometry, MetalGgufBacking,
};
use qwen_metal::pages::{checked_page_ceil, checked_page_floor};
use qwen_metal::retained::{
    plan_retained_storage, RetainedStorageDisposition, RetainedStorageFallback,
    RetainedStoragePlan, RetainedStorageWindow,
};
use qwen_metal::shape::{checked_ggml_shape_bytes, checked_shape_bytes, checked_shape_elements};
use qwen_metal::tensor::{
    same_shape, validate_compact_f32_tensor, MetalTensor, MetalTensorProvenance, TensorDesc,
};

fn context() -> MetalContext {
    MetalContext::new(
        DeviceLimits {
            max_buffer_length: 1 << 30,
            max_threadgroup_memory: 32 * 1024,
        },
        KernelSwitches {
            l2_pair_hd128_r4: true,
            rmsnorm_gated_hd128_r4: true,
        },
        Vec::new(),
    )
}

fn f32_desc(name: &str, shard_idx: usize, data_offset: u64, elements: u64) -> TensorDesc {
    TensorDesc {
        name: name.to_string(),
        shape: vec![elements],
        dtype: GgmlType::F32,
        shard_idx,
        data_offset,
        n_bytes: elements * 4,
    }
}

fn assert_retained_plan_invariants(
    plan: &RetainedStoragePlan,
    requests: &[&TensorDesc],
    shard_mapped_lengths: &[usize],
) {
    for window in &plan.windows {
        assert_eq!(window.mmap_offset % plan.page_size as u64, 0);
        assert!(window.length > 0);
        assert_eq!(window.length % plan.page_size, 0);
        assert!(window.length <= plan.usable_window_length);
        let mapped_len = shard_mapped_lengths[window.shard_idx] as u64;
        assert!(window.mmap_offset + window.length as u64 <= mapped_len);
    }
    for entry in &plan.entries {
        assert_eq!(entry.n_bytes, requests[entry.request_index].n_bytes);
        match entry.disposition {
            RetainedStorageDisposition::View {
                window_index,
                buffer_offset,
            } => {
                let window = &plan.windows[window_index];
                assert_eq!(entry.shard_idx, window.shard_idx);
                assert_eq!(entry.data_offset, window.mmap_offset + buffer_offset);
                assert_eq!(buffer_offset % plan.required_alignment as u64, 0);
                assert!(buffer_offset + entry.n_bytes <= window.length as u64);
            }
            RetainedStorageDisposition::Alias {
                source_request_index,
            } => {
                assert!(source_request_index < entry.request_index);
                let source = &plan.entries[source_request_index];
                assert_eq!(entry.shard_idx, source.shard_idx);
                assert_eq!(entry.data_offset, source.data_offset);
                assert_eq!(entry.n_bytes, source.n_bytes);
            }
            RetainedStorageDisposition::CopyFallback { .. } => {}
        }
    }
}

/// The template and the number of values of an error about mapped storage.
fn mapping_error<T>(result: Result<T, MetalError>) -> (&'static str, usize) {
    match result {
        Err(MetalError::GgufNoCopy(detail)) => (detail.template, detail.values.len()),
        _ => panic!("expected an error about mapped storage"),
    }
}

fn shape_error<T>(result: Result<T, MetalError>) -> (&'static str, &'static str) {
    match result {
        Err(MetalError::BadShape { kernel, detail }) => (kernel, detail.template),
        _ => panic!("expected an error about a shape"),
    }
}

#[test]
fn allocation_census_records_realized_storage() {
    let mut ctx = context();
    ctx.allocation_census_begin();
    let first = ctx
        .buffer_uninit(17)
        .expect("allocate uninitialized buffer");
    let second = ctx
        .buffer_from(bytemuck::cast_slice(&[1u32, 2]))
        .expect("allocate copied buffer");
    let rows = ctx.allocation_census_take();
    assert_eq!(rows.len(), 2);
    assert_eq!(rows[0].requested_bytes, 17);
    assert_eq!(rows[0].buffer_length, first.length() as u64);
    assert_eq!(rows[0].storage_mode, "shared");
    assert_eq!(rows[1].requested_bytes, 8);
    assert_eq!(rows[1].buffer_length, second.length() as u64);
    assert_eq!(rows[1].storage_mode, "shared");
    assert_eq!(ctx.diagnostics_observer_active_count(), 0);
}

#[test]
fn gguf_backing_classification_is_typed_and_fail_closed() {
    let geometry = GgufBackingGeometry::new(0, 160, 64, 32).unwrap();
    assert_eq!(geometry.mapped_len(), 160);
    assert_eq!(geometry.mmap_offset(), 0);
    assert_eq!(geometry.exposed_len(), 128);
    assert_eq!(geometry.page_size(), 64);
    assert_eq!(geometry.required_alignment(), 32);
    assert_eq!(
        geometry.classify(&f32_desc("ok", 0, 32, 8)).unwrap(),
        GgufBackingEligibility::Eligible
    );
    assert_eq!(
        geometry.classify(&f32_desc("tail", 0, 96, 9)).unwrap(),
        GgufBackingEligibility::FinalPartialPage
    );
    assert_eq!(
        geometry.classify(&f32_desc("shard", 1, 32, 8)).unwrap(),
        GgufBackingEligibility::WrongShard
    );
    assert_eq!(
        geometry.classify(&f32_desc("align", 0, 36, 8)).unwrap(),
        GgufBackingEligibility::BindingMisalignment
    );
    assert_eq!(
        geometry.classify(&f32_desc("outside", 0, 160, 8)).unwrap(),
        GgufBackingEligibility::OutsideBacking
    );

    let mut malformed = f32_desc("malformed", 0, 32, 8);
    malformed.n_bytes -= 1;
    assert!(geometry.classify(&malformed).is_err());
    assert!(GgufBackingGeometry::new(0, 160, 0, 32).is_err());
    assert!(GgufBackingGeometry::new(0, 160, 64, 0).is_err());
    assert!(GgufBackingGeometry::new(0, 32, 64, 32).is_err());

    let window = GgufBackingGeometry::new_window(0, 256, 64, 128, 64, 32).unwrap();
    assert_eq!(window.mapped_len(), 256);
    assert_eq!(window.mmap_offset(), 64);
    assert_eq!(window.exposed_len(), 128);
    assert_eq!(
        window.classify(&f32_desc("before", 0, 32, 8)).unwrap(),
        GgufBackingEligibility::OutsideBacking
    );
    assert_eq!(
        window.classify(&f32_desc("inside", 0, 96, 8)).unwrap(),
        GgufBackingEligibility::Eligible
    );
    assert_eq!(
        window.classify(&f32_desc("after", 0, 192, 8)).unwrap(),
        GgufBackingEligibility::OutsideBacking
    );
    assert_eq!(
        window
            .classify(&f32_desc("after-misaligned", 0, 196, 8))
            .unwrap(),
        GgufBackingEligibility::OutsideBacking
    );
    let earlier = GgufBackingGeometry::new_window(0, 160, 0, 64, 64, 32).unwrap();
    assert_eq!(
        earlier
            .classify(&f32_desc("outside-earlier", 0, 96, 9))
            .unwrap(),
        GgufBackingEligibility::OutsideBacking
    );
    let terminal = GgufBackingGeometry::new_window(0, 160, 64, 64, 64, 32).unwrap();
    assert_eq!(
        terminal
            .classify(&f32_desc("terminal-tail", 0, 96, 9))
            .unwrap(),
        GgufBackingEligibility::FinalPartialPage
    );
    assert!(GgufBackingGeometry::new_window(0, 256, 32, 64, 64, 32).is_err());
    assert!(GgufBackingGeometry::new_window(0, 256, 64, 96, 64, 32).is_err());
    assert!(GgufBackingGeometry::new_window(0, 256, 192, 128, 64, 32).is_err());
}

#[test]
fn retained_storage_plan_is_order_independent_and_window_bounded() {
    let a = f32_desc("a", 0, 32, 8);
    let b = f32_desc("b", 0, 64, 16);
    let c = f32_desc("c", 0, 128, 8);
    let requests = [&c, &a, &b];
    let plan = plan_retained_storage(&[192], &requests, 64, 130, 32).unwrap();
    assert_retained_plan_invariants(&plan, &requests, &[192]);

    assert_eq!(plan.usable_window_length, 128);
    assert_eq!(plan.windows.len(), 2);
    assert_eq!(
        plan.windows,
        vec![
            RetainedStorageWindow {
                shard_idx: 0,
                mmap_offset: 0,
                length: 128,
            },
            RetainedStorageWindow {
                shard_idx: 0,
                mmap_offset: 128,
                length: 64,
            },
        ]
    );
    assert_eq!(
        plan.entries[0].disposition,
        RetainedStorageDisposition::View {
            window_index: 1,
            buffer_offset: 0,
        }
    );
    assert_eq!(
        plan.entries[1].disposition,
        RetainedStorageDisposition::View {
            window_index: 0,
            buffer_offset: 32,
        }
    );
    assert_eq!(
        plan.entries[2].disposition,
        RetainedStorageDisposition::View {
            window_index: 0,
            buffer_offset: 64,
        }
    );
    assert_eq!(plan.unique_view_bytes, 128);
    assert_eq!(plan.logical_view_bytes, 128);
    assert_eq!(plan.unique_fallback_bytes, 0);
    assert_eq!(plan.alias_bytes, 0);

    let permutation = [&b, &c, &a];
    let permuted = plan_retained_storage(&[192], &permutation, 64, 130, 32).unwrap();
    assert_retained_plan_invariants(&permuted, &permutation, &[192]);
    assert_eq!(plan.windows, permuted.windows);
    for name in ["a", "b", "c"] {
        let planned = plan
            .entries
            .iter()
            .find(|entry| entry.name == name)
            .unwrap();
        let permuted = permuted
            .entries
            .iter()
            .find(|entry| entry.name == name)
            .unwrap();
        assert_eq!(planned.disposition, permuted.disposition);
    }

    let crossing_a = f32_desc("crossing-a", 0, 0, 24);
    let crossing_b = f32_desc("crossing-b", 0, 96, 16);
    let crossing =
        plan_retained_storage(&[192], &[&crossing_a, &crossing_b], 64, 128, 32).unwrap();
    assert_retained_plan_invariants(&crossing, &[&crossing_a, &crossing_b], &[192]);
    assert_eq!(crossing.windows.len(), 2);
    assert_eq!(crossing.windows[0].mmap_offset, 0);
    assert_eq!(crossing.windows[0].length, 128);
    assert_eq!(crossing.windows[1].mmap_offset, 64);
    assert_eq!(crossing.windows[1].length, 128);
    assert_eq!(
        crossing.entries[1].disposition,
        RetainedStorageDisposition::View {
            window_index: 1,
            buffer_offset: 32,
        }
    );
}

#[test]
fn retained_storage_plan_classifies_fallbacks_and_aliases() {
    let view = f32_desc("view", 1, 64, 8);
    let missing = f32_desc("missing", 3, 0, 8);
    let tail = f32_desc("tail", 0, 96, 16);
    let outside = f32_desc("outside", 0, 160, 8);
    let misaligned = f32_desc("misaligned", 0, 36, 8);
    let too_large = f32_desc("too-large", 2, 32, 32);
    let requests = [
        &view,
        &view,
        &missing,
        &tail,
        &outside,
        &misaligned,
        &too_large,
    ];
    let plan = plan_retained_storage(&[160, 256, 256], &requests, 64, 128, 32).unwrap();
    assert_retained_plan_invariants(&plan, &requests, &[160, 256, 256]);

    assert_eq!(
        plan.entries[0].disposition,
        RetainedStorageDisposition::View {
            window_index: 0,
            buffer_offset: 0,
        }
    );
    assert_eq!(
        plan.entries[1].disposition,
        RetainedStorageDisposition::Alias {
            source_request_index: 0,
        }
    );
    let reasons = plan
        .entries
        .iter()
        .filter_map(|entry| match entry.disposition {
            RetainedStorageDisposition::CopyFallback { reason } => Some(reason),
            _ => None,
        })
        .collect::<Vec<_>>();
    assert_eq!(
        reasons,
        vec![
            RetainedStorageFallback::MissingShard,
            RetainedStorageFallback::FinalPartialPage,
            RetainedStorageFallback::OutsideShard,
            RetainedStorageFallback::BindingMisalignment,
            RetainedStorageFallback::TensorExceedsWindow,
        ]
    );
    assert_eq!(plan.unique_view_bytes, 32);
    assert_eq!(plan.logical_view_bytes, 64);
    assert_eq!(plan.unique_fallback_bytes, 288);
    assert_eq!(plan.alias_bytes, 32);

    let tail_alias = plan_retained_storage(&[160], &[&tail, &tail], 64, 128, 32).unwrap();
    assert_eq!(tail_alias.unique_fallback_bytes, 64);
    assert_eq!(tail_alias.alias_bytes, 64);
    assert_eq!(
        tail_alias.entries[1].disposition,
        RetainedStorageDisposition::Alias {
            source_request_index: 0,
        }
    );

    let shard_zero = f32_desc("shard-zero", 0, 32, 8);
    let shard_one = f32_desc("shard-one", 1, 64, 8);
    let multi_requests = [&shard_one, &shard_zero];
    let multi = plan_retained_storage(&[128, 192], &multi_requests, 64, 128, 32).unwrap();
    assert_retained_plan_invariants(&multi, &multi_requests, &[128, 192]);
    assert_eq!(multi.windows.len(), 2);
    assert_eq!(multi.windows[0].shard_idx, 0);
    assert_eq!(multi.windows[1].shard_idx, 1);
}

#[test]
fn retained_storage_plan_rejects_malformed_inputs() {
    let valid = f32_desc("valid", 0, 64, 16);
    assert!(plan_retained_storage(&[128], &[&valid], 0, 128, 32).is_err());
    assert!(plan_retained_storage(&[128], &[&valid], 64, 63, 32).is_err());
    assert!(plan_retained_storage(&[128], &[&valid], 64, 128, 0).is_err());
    assert!(plan_retained_storage(&[128], &[&valid], 64, 128, 128).is_err());

    let mut malformed = valid.clone();
    malformed.n_bytes -= 1;
    assert!(plan_retained_storage(&[128], &[&malformed], 64, 128, 32).is_err());

    let empty = f32_desc("empty", 0, 0, 0);
    assert!(plan_retained_storage(&[128], &[&empty], 64, 128, 32).is_err());

    let alias_a = f32_desc("alias-a", 0, 64, 8);
    let mut alias_b = alias_a.clone();
    alias_b.name = "alias-b".to_string();
    alias_b.shape = vec![2, 4];
    assert!(plan_retained_storage(&[128], &[&alias_a, &alias_b], 64, 128, 32).is_err());

    let overlap_a = f32_desc("overlap-a", 0, 32, 16);
    let overlap_b = f32_desc("overlap-b", 0, 64, 8);
    assert!(plan_retained_storage(&[128], &[&overlap_a, &overlap_b], 64, 128, 32).is_err());

    let tail_misaligned = f32_desc("tail-misaligned", 0, 100, 8);
    let tail_misaligned_plan =
        plan_retained_storage(&[160], &[&tail_misaligned], 64, 128, 32).unwrap();
    assert_eq!(
        tail_misaligned_plan.entries[0].disposition,
        RetainedStorageDisposition::CopyFallback {
            reason: RetainedStorageFallback::BindingMisalignment,
        }
    );

    let tail_oversized = f32_desc("tail-oversized", 0, 64, 24);
    let tail_oversized_plan =
        plan_retained_storage(&[160], &[&tail_oversized], 64, 64, 32).unwrap();
    assert_eq!(
        tail_oversized_plan.entries[0].disposition,
        RetainedStorageDisposition::CopyFallback {
            reason: RetainedStorageFallback::TensorExceedsWindow,
        }
    );
}

#[test]
fn plan_errors_name_what_is_wrong() {
    let valid = f32_desc("valid", 0, 64, 16);
    let plan = |requests: &[&TensorDesc]| plan_retained_storage(&[4096], requests, 64, 128, 32);
    assert_eq!(
        mapping_error(plan_retained_storage(&[128], &[&valid], 48, 128, 32)),
        ("host page size {} is not a power of two", 1)
    );
    assert_eq!(
        mapping_error(plan_retained_storage(&[128], &[&valid], 64, 128, 3)),
        ("required binding alignment {} is not a power of two", 1)
    );
    assert_eq!(
        mapping_error(plan_retained_storage(&[128], &[&valid], 64, 128, 128)),
        ("required binding alignment {} does not divide page size {}", 2)
    );
    assert_eq!(
        mapping_error(plan_retained_storage(&[128], &[&valid], 64, 63, 32)),
        ("Metal maxBufferLength {} exposes no complete {}-byte page", 2)
    );
    assert_eq!(
        mapping_error(plan(&[&valid, &f32_desc("empty", 0, 0, 0)])),
        ("tensor {} has an empty storage range", 1)
    );
    let mut alias = valid.clone();
    alias.shape = vec![4, 4];
    assert_eq!(
        mapping_error(plan(&[&valid, &alias])),
        ("aliased tensor {} is not representation-compatible with {}", 2)
    );
    let late = f32_desc("late", 0, 96, 8);
    match plan(&[&late, &valid]) {
        Err(MetalError::GgufNoCopy(detail)) => {
            assert_eq!(
                detail.template,
                "tensor {} range starts at {} before prior tensor {} ends at {}"
            );
            assert!(matches!(&detail.values[0], Value::Name(name) if name == "late"));
            assert!(matches!(detail.values[1], Value::Int(96)));
            assert!(matches!(&detail.values[2], Value::Name(name) if name == "valid"));
            assert!(matches!(detail.values[3], Value::Int(128)));
        }
        _ => panic!("overlapping tensors were accepted"),
    }
    let far = f32_desc("far", 0, u64::MAX - 15, 8);
    assert_eq!(
        mapping_error(plan(&[&far])),
        ("tensor {} range overflows usize", 1)
    );
    let at_end = f32_desc("at-end", 0, u64::MAX - 31, 4);
    assert_eq!(
        mapping_error(plan_retained_storage(
            &[usize::MAX],
            &[&at_end],
            64,
            128,
            32
        )),
        ("page-rounded endpoint overflow", 0)
    );
}

#[test]
fn an_unmapped_shard_takes_any_range() {
    let a = f32_desc("a", 1, u64::MAX - 15, 8);
    let b = f32_desc("b", 1, 0, 8);
    let c = f32_desc("c", 1, 16, 8);
    let plan = plan_retained_storage(&[128], &[&a, &b, &c], 64, 128, 32).unwrap();
    assert!(plan.windows.is_empty());
    for entry in &plan.entries {
        assert_eq!(
            entry.disposition,
            RetainedStorageDisposition::CopyFallback {
                reason: RetainedStorageFallback::MissingShard,
            }
        );
    }
    assert_eq!(plan.unique_fallback_bytes, 96);
}

#[test]
fn no_requests_make_an_empty_plan() {
    let plan = plan_retained_storage(&[128], &[], 64, 128, 32).unwrap();
    assert!(plan.windows.is_empty());
    assert!(plan.entries.is_empty());
    assert_eq!(plan.usable_window_length, 128);
}

#[test]
fn permuted_requests_have_equal_windows_and_totals() {
    let tensors = [
        f32_desc("a", 0, 0, 16),
        f32_desc("b", 0, 64, 16),
        f32_desc("c", 0, 128, 40),
        f32_desc("d", 1, 32, 8),
        f32_desc("e", 1, 68, 8),
        f32_desc("f", 0, 0, 16),
    ];
    let forward: Vec<&TensorDesc> = tensors.iter().collect();
    let backward: Vec<&TensorDesc> = tensors.iter().rev().collect();
    let one = plan_retained_storage(&[320, 128], &forward, 64, 128, 32).unwrap();
    let other = plan_retained_storage(&[320, 128], &backward, 64, 128, 32).unwrap();
    assert_eq!(one.windows, other.windows);
    assert_eq!(one.unique_view_bytes, other.unique_view_bytes);
    assert_eq!(one.logical_view_bytes, other.logical_view_bytes);
    assert_eq!(one.unique_fallback_bytes, other.unique_fallback_bytes);
    assert_eq!(one.alias_bytes, other.alias_bytes);
    assert_eq!(
        one.entries[5].disposition,
        RetainedStorageDisposition::Alias {
            source_request_index: 0
        }
    );
    assert_eq!(
        other.entries[5].disposition,
        RetainedStorageDisposition::Alias {
            source_request_index: 0
        }
    );
    assert_eq!(
        one.unique_view_bytes + one.unique_fallback_bytes + one.alias_bytes,
        tensors.iter().map(|t| t.n_bytes).sum::<u64>()
    );
}

#[test]
fn planned_windows_increase_are_tight_and_are_fewest() {
    // Pages of 64 bytes, windows of at most two: the third tensor shares a page with
    // the second, yet cannot join the first window.
    let tensors = [
        f32_desc("a", 0, 32, 8),
        f32_desc("b", 0, 64, 8),
        f32_desc("c", 0, 96, 16),
        f32_desc("d", 0, 320, 16),
        f32_desc("e", 1, 64, 16),
    ];
    let requests: Vec<&TensorDesc> = tensors.iter().rev().collect();
    let plan = plan_retained_storage(&[512, 128], &requests, 64, 128, 32).unwrap();
    let window = |shard_idx, mmap_offset, length| RetainedStorageWindow {
        shard_idx,
        mmap_offset,
        length,
    };
    assert_eq!(
        plan.windows,
        vec![
            window(0, 0, 128),
            window(0, 64, 128),
            window(0, 320, 64),
            window(1, 64, 64),
        ]
    );
    for pair in plan.windows.windows(2) {
        assert!((pair[0].shard_idx, pair[0].mmap_offset) < (pair[1].shard_idx, pair[1].mmap_offset));
    }
    for (w, window) in plan.windows.iter().enumerate() {
        let end = window.mmap_offset + window.length as u64;
        let viewed: Vec<&TensorDesc> = plan
            .entries
            .iter()
            .filter(|e| {
                matches!(
                    e.disposition,
                    RetainedStorageDisposition::View { window_index, .. } if window_index == w
                )
            })
            .map(|e| requests[e.request_index])
            .collect();
        assert!(viewed.iter().any(|d| d.data_offset < window.mmap_offset + 64));
        assert!(viewed.iter().any(|d| d.data_offset + d.n_bytes > end - 64));
    }

    // Every choice of three windows of two pages leaves a tensor out.
    let mut starts = Vec::new();
    for (shard_idx, pages) in [(0, 8), (1, 2)] {
        for page in 0..pages {
            starts.push((shard_idx, page * 64u64));
        }
    }
    let held = |start: &(usize, u64), d: &TensorDesc| {
        start.0 == d.shard_idx
            && start.1 <= d.data_offset
            && d.data_offset + d.n_bytes <= start.1 + 128
    };
    for a in &starts {
        for b in &starts {
            for c in &starts {
                assert!(tensors
                    .iter()
                    .any(|d| !held(a, d) && !held(b, d) && !held(c, d)));
            }
        }
    }
}

#[test]
fn errors_tell_labels_from_names() {
    let mut ctx = context();
    let tensor = MetalTensor::zeros_f32(&mut ctx, vec![2, 3]).unwrap();
    match validate_compact_f32_tensor("kernel", "x", &tensor, &[3, 2], true) {
        Err(MetalError::BadShape { detail, .. }) => {
            assert_eq!(detail.values[0], Value::Label("x"));
        }
        other => panic!("expected a shape error, got {:?}", other),
    }
    let empty = f32_desc("x", 0, 0, 0);
    match plan_retained_storage(&[128], &[&empty], 64, 128, 32) {
        Err(MetalError::GgufNoCopy(detail)) => {
            assert_eq!(detail.values, vec![Value::Name("x".to_string())]);
        }
        other => panic!("expected a mapping error, got {:?}", other),
    }
}

#[test]
fn planned_views_are_eligible_in_their_windows() {
    let a = f32_desc("a", 0, 32, 8);
    let b = f32_desc("b", 0, 64, 16);
    let c = f32_desc("c", 0, 128, 8);
    let requests = [&a, &b, &c];
    let plan = plan_retained_storage(&[192], &requests, 64, 130, 32).unwrap();
    for entry in &plan.entries {
        let RetainedStorageDisposition::View {
            window_index,
            buffer_offset,
        } = entry.disposition
        else {
            panic!("expected a view");
        };
        let window = plan.windows[window_index];
        let geometry = GgufBackingGeometry::new_window(
            window.shard_idx,
            192,
            window.mmap_offset as usize,
            window.length,
            64,
            32,
        )
        .unwrap();
        let desc = requests[entry.request_index];
        assert_eq!(
            geometry.classify(desc).unwrap(),
            GgufBackingEligibility::Eligible
        );
        assert_eq!(desc.data_offset - window.mmap_offset, buffer_offset);
    }
}

#[test]
fn pages_round_down_and_up() {
    assert_eq!(checked_page_floor(0, 64), 0);
    assert_eq!(checked_page_floor(63, 64), 0);
    assert_eq!(checked_page_floor(64, 64), 64);
    assert_eq!(checked_page_ceil(0, 64).unwrap(), 0);
    assert_eq!(checked_page_ceil(1, 64).unwrap(), 64);
    assert_eq!(checked_page_ceil(64, 64).unwrap(), 64);
    assert_eq!(
        mapping_error(checked_page_ceil(usize::MAX, 64)),
        ("page-rounded endpoint overflow", 0)
    );
}

#[test]
fn window_errors_name_what_is_wrong() {
    let window = GgufBackingGeometry::new_window;
    assert_eq!(
        mapping_error(window(0, 256, 0, 64, 63, 32)).0,
        "host page size {} is not a power of two"
    );
    assert_eq!(
        mapping_error(window(0, 256, 0, 64, 64, 5)).0,
        "required binding alignment {} is not a power of two"
    );
    assert_eq!(
        mapping_error(window(0, 256, 0, 64, 64, 128)).0,
        "required binding alignment {} does not divide page size {}"
    );
    assert_eq!(
        mapping_error(window(0, 256, 32, 64, 64, 32)).0,
        "window offset {} is not page aligned to {}"
    );
    assert_eq!(
        mapping_error(window(0, 256, 0, 0, 64, 32)).0,
        "window length must contain at least one complete {}-byte page"
    );
    assert_eq!(
        mapping_error(window(0, 256, 0, 65, 64, 32)).0,
        "window length {} is not page aligned to {}"
    );
    assert_eq!(
        mapping_error(window(0, 256, usize::MAX - 63, 64, 64, 32)).0,
        "window offset and length overflow usize"
    );
    assert_eq!(
        mapping_error(window(0, 256, 192, 128, 64, 32)).0,
        "window range {}..{} exceeds mapped length {}"
    );
}

fn backing(ctx: &mut MetalContext) -> MetalGgufBacking {
    MetalGgufBacking {
        buffer: ctx.buffer_uninit(128).unwrap(),
        geometry: GgufBackingGeometry::new_window(0, 256, 64, 128, 64, 32).unwrap(),
    }
}

#[test]
fn eligible_tensors_become_read_only_views() {
    let mut ctx = context();
    let backing = backing(&mut ctx);
    let (eligibility, tensor) = backing.tensor(&f32_desc("inside", 0, 96, 8)).unwrap();
    assert_eq!(eligibility, GgufBackingEligibility::Eligible);
    let tensor = tensor.unwrap();
    assert_eq!(tensor.offset, 32);
    assert_eq!(tensor.n_bytes(), 32);
    assert_eq!(tensor.buffer, backing.buffer);
    assert_eq!(
        tensor.provenance(),
        MetalTensorProvenance::RetainedGgufReadOnly
    );
    assert!(!tensor.is_writable());
    let (eligibility, tensor) = backing.tensor(&f32_desc("before", 0, 32, 8)).unwrap();
    assert_eq!(eligibility, GgufBackingEligibility::OutsideBacking);
    assert!(tensor.is_none());
    let mut malformed = f32_desc("malformed", 0, 96, 8);
    malformed.n_bytes = 31;
    assert!(backing.tensor(&malformed).is_err());
}

#[test]
fn prefaulting_reads_each_page_once() {
    let mut ctx = context();
    let backing = backing(&mut ctx);
    assert_eq!(backing.prefault_offsets(), vec![0, 64]);
    let report = backing.prefault_report(&[3, 5]);
    assert_eq!(report.page_count, 2);
    assert_eq!(report.covered_bytes, 128);
    assert_eq!(report.checksum, (3u64 << 5) ^ 5);
    let wrapped = backing.prefault_report(&[0x80; 14]);
    let mut checksum = 0u64;
    for _ in 0..14 {
        checksum = checksum.rotate_left(5) ^ 0x80;
    }
    assert_eq!(wrapped.checksum, checksum);
}

#[test]
fn copies_out_of_a_window_are_checked_and_recorded() {
    let mut ctx = context();
    let window = DiagnosticGgufBlitSourceWindow {
        backing: backing(&mut ctx),
        probe: DiagnosticGgufBlitReleaseProbe {
            source_alive: true,
            deallocator_calls: 0,
            deallocator_mismatches: 0,
        },
    };
    let target = ctx.buffer_uninit(64).unwrap();
    let mut encoder = BlitEncoder::begin();
    window
        .encode_copy_to(&mut encoder, 0, 96, &target, 16, 48)
        .unwrap();
    assert_eq!(encoder.copies.len(), 1);
    assert_eq!(encoder.copies[0].source, window.backing.buffer);
    assert_eq!(encoder.copies[0].source_offset, 32);
    assert_eq!(encoder.copies[0].destination, target);
    assert_eq!(encoder.copies[0].destination_offset, 16);
    assert_eq!(encoder.copies[0].length, 48);

    assert_eq!(
        mapping_error(window.encode_copy_to(&mut encoder, 1, 96, &target, 0, 4)).0,
        "diagnostic blit source shard mismatch: expected {}, got {}"
    );
    assert_eq!(
        mapping_error(window.encode_copy_to(&mut encoder, 0, 63, &target, 0, 4)).0,
        "diagnostic blit source offset {} precedes window {}"
    );
    assert_eq!(
        mapping_error(window.encode_copy_to(&mut encoder, 0, 96, &target, 0, u64::MAX)).0,
        "diagnostic blit source endpoint overflow"
    );
    assert_eq!(
        mapping_error(window.encode_copy_to(&mut encoder, 0, 64, &target, 1, u64::MAX)).0,
        "diagnostic blit destination endpoint overflow"
    );
    assert_eq!(
        mapping_error(window.encode_copy_to(&mut encoder, 0, 64, &target, 0, 129)).0,
        "diagnostic blit source endpoint {} exceeds window length {}"
    );
    assert_eq!(
        mapping_error(window.encode_copy_to(&mut encoder, 0, 64, &target, 0, 65)).0,
        "diagnostic blit destination endpoint {} exceeds length {}"
    );
    assert_eq!(
        mapping_error(window.encode_copy_to(&mut encoder, 0, 64, &window.backing.buffer, 0, 4)).0,
        "diagnostic blit source and destination are the same resource"
    );
    assert_eq!(encoder.copies.len(), 1);
    assert_eq!(window.shard_idx(), 0);
    assert_eq!(window.mmap_offset(), 64);
    assert_eq!(window.exposed_len(), 128);
    assert!(window.release_probe().report().source_alive);
}

#[test]
fn allocations_are_numbered_and_bounded() {
    let mut ctx = context();
    let a = ctx.buffer_uninit(4).unwrap();
    let b = ctx.buffer_zeroed(8).unwrap();
    assert_ne!(a.id, b.id);
    assert_eq!(b.length(), 8);
    assert_eq!(b.storage_mode, StorageMode::Shared);
    assert_eq!(ctx.allocations.len(), 2);
    assert_eq!(ctx.allocations[1].contents, Contents::ZeroFilled);
    match ctx.buffer_uninit((1 << 30) + 1) {
        Err(MetalError::BufferTooLarge { requested, limit }) => {
            assert_eq!(requested, (1 << 30) + 1);
            assert_eq!(limit, 1 << 30);
        }
        _ => panic!("an oversized buffer was granted"),
    }
    assert_eq!(ctx.allocations.len(), 2);
    assert!(ctx.allocation_census_take().is_empty());
}

#[test]
fn shapes_have_checked_sizes() {
    assert_eq!(checked_shape_elements(&[3, 4, 5]).unwrap(), 60);
    assert_eq!(checked_shape_elements(&[]).unwrap(), 1);
    assert!(checked_shape_elements(&[u64::MAX, 2]).is_err());
    assert_eq!(checked_shape_bytes(&[3, 4], 4).unwrap(), (12, 48));
    assert_eq!(
        checked_ggml_shape_bytes(&[512, 2], GgmlType::Q4_K).unwrap(),
        (1024, 576)
    );
    assert_eq!(
        checked_ggml_shape_bytes(&[64], GgmlType::Q8_0).unwrap(),
        (64, 68)
    );
    assert!(checked_ggml_shape_bytes(&[33], GgmlType::Q8_0).is_err());
    assert!(checked_ggml_shape_bytes(&[1], GgmlType::Unknown).is_err());
    assert!(same_shape(&[1, 2], &[1, 2]));
    assert!(!same_shape(&[1, 2], &[2, 1]));
    assert!(!same_shape(&[1, 2], &[1]));
}

#[test]
fn tensors_keep_their_bytes_and_shape() {
    let mut ctx = context();
    let data = [1.0f32, -2.0, 3.5];
    let bytes: &[u8] = bytemuck::cast_slice(&data);
    let tensor = MetalTensor::from_bytes(&mut ctx, bytes, vec![3], GgmlType::F32).unwrap();
    assert_eq!(tensor.n_elements(), 3);
    assert_eq!(tensor.n_bytes(), 12);
    assert_eq!(tensor.offset, 0);
    assert!(tensor.is_writable());
    assert_eq!(
        ctx.allocations[0].contents,
        Contents::Copied(bytes.to_vec())
    );
    assert_eq!(
        shape_error(MetalTensor::from_bytes(
            &mut ctx,
            bytes,
            vec![4],
            GgmlType::F32
        )),
        (
            "from_bytes",
            "bytes.len()={} but shape={} dtype={} expects {} bytes"
        )
    );
    let desc = f32_desc("w", 0, 0, 3);
    let weight = MetalTensor::copied_gguf_weight(&mut ctx, &desc, bytes).unwrap();
    assert_eq!(
        weight.provenance(),
        MetalTensorProvenance::OwnedWeightReadOnly
    );
    let mut lying = desc.clone();
    lying.n_bytes = 8;
    assert!(MetalTensor::copied_gguf_weight(&mut ctx, &lying, bytes).is_err());
    let copied = MetalTensor::from_gguf_tensor(&mut ctx, &desc, bytes).unwrap();
    assert!(copied.is_writable());
}

#[test]
fn zeroed_tensors_have_the_asked_format() {
    let mut ctx = context();
    assert_eq!(
        MetalTensor::zeros_f32(&mut ctx, vec![5]).unwrap().n_bytes(),
        20
    );
    assert_eq!(
        MetalTensor::zeros_i32(&mut ctx, vec![5]).unwrap().n_bytes(),
        20
    );
    assert_eq!(
        MetalTensor::zeros_f16(&mut ctx, vec![5]).unwrap().n_bytes(),
        10
    );
    assert_eq!(
        MetalTensor::zeros_q8_0(&mut ctx, vec![64])
            .unwrap()
            .n_bytes(),
        68
    );
    assert!(MetalTensor::zeros_q8_0(&mut ctx, vec![65]).is_err());
    assert_eq!(
        MetalTensor::zeros_dtype(&mut ctx, vec![256], GgmlType::Q6_K)
            .unwrap()
            .n_bytes(),
        210
    );
    assert_eq!(
        MetalTensor::zeros_dtype_unstaged(&mut ctx, vec![256], GgmlType::IQ4_XS)
            .unwrap()
            .n_bytes(),
        136
    );
}

#[test]
fn views_stay_inside_their_tensor() {
    let mut ctx = context();
    let tensor = MetalTensor::zeros_f32(&mut ctx, vec![16]).unwrap();
    let view = tensor.view_subrange(4, vec![2, 3]);
    assert_eq!(view.offset, 16);
    assert_eq!(view.n_elements(), 6);
    assert_eq!(view.buffer, tensor.buffer);
    assert!(tensor.ranges_overlap(&view));
    let rest = tensor.view_subrange(10, vec![6]);
    assert!(!view.ranges_overlap(&rest));
    let other = MetalTensor::zeros_f32(&mut ctx, vec![16]).unwrap();
    assert!(!tensor.ranges_overlap(&other));

    let bank = MetalTensor::zeros_dtype(&mut ctx, vec![256, 4], GgmlType::Q6_K).unwrap();
    let row = bank.view_bytes(420, vec![256, 2]);
    assert_eq!(row.offset, 420);
    assert_eq!(row.n_bytes(), 420);
    assert_eq!(row.dtype, GgmlType::Q6_K);
    assert!(row.physical_range_valid(420, 2));
    assert!(!row.physical_range_valid(421, 2));
    assert!(!row.physical_range_valid(420, 8));
}

#[test]
fn weight_views_are_aligned_and_bounded() {
    let mut ctx = context();
    let buffer = ctx.buffer_uninit(1024).unwrap();
    let view =
        MetalTensor::owned_weight_view(buffer, 256, vec![64], GgmlType::F32, 256).unwrap();
    assert_eq!(view.offset, 256);
    assert_eq!(
        view.provenance(),
        MetalTensorProvenance::OwnedWeightReadOnly
    );
    assert!(MetalTensor::owned_weight_view(buffer, 128, vec![64], GgmlType::F32, 256).is_err());
    assert!(MetalTensor::owned_weight_view(buffer, 768, vec![65], GgmlType::F32, 256).is_err());
    assert!(MetalTensor::owned_weight_view(buffer, 0, vec![64], GgmlType::F32, 3).is_err());
}

#[test]
fn compact_tensors_are_checked_in_order() {
    let mut ctx = context();
    let tensor = MetalTensor::zeros_f32(&mut ctx, vec![2, 3]).unwrap();
    assert!(validate_compact_f32_tensor("kernel", "x", &tensor, &[2, 3], true).is_ok());
    assert!(validate_compact_f32_tensor("kernel", "x", &tensor, &[3, 2], true).is_err());
    let mut read_only = tensor.clone();
    read_only.provenance = MetalTensorProvenance::OwnedWeightReadOnly;
    assert!(validate_compact_f32_tensor("kernel", "x", &read_only, &[2, 3], false).is_ok());
    assert!(validate_compact_f32_tensor("kernel", "x", &read_only, &[2, 3], true).is_err());
    let mut shifted = tensor.clone();
    shifted.offset = 4;
    assert!(validate_compact_f32_tensor("kernel", "x", &shifted, &[2, 3], false).is_err());
    let half = MetalTensor::zeros_f16(&mut ctx, vec![2, 3]).unwrap();
    assert!(validate_compact_f32_tensor("kernel", "x", &half, &[2, 3], false).is_err());
}
