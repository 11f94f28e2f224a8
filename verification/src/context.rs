//! The device as the encoders see it: limits, compiled pipelines, allocations.

use vstd::prelude::*;
use vstd::utf8::*;

use crate::error::{Fault, MetalError};
use crate::numeric;

verus! {

/// Where a buffer lives.
#[derive(Clone, Copy, Debug, PartialEq, Eq, Structural)]
pub enum StorageMode {
    Shared,
    Private,
}

/// A device buffer. Buffers with one `id` are one resource.
#[derive(Clone, Copy, Debug, PartialEq, Eq, Structural)]
pub struct Buffer {
    pub id: u64,
    pub length: usize,
    pub storage_mode: StorageMode,
}

impl Buffer {
    pub fn length(&self) -> (r: usize)
        ensures
            r == self.length,
    {
        self.length
    }
}

/// A compiled compute pipeline.
#[derive(Clone, Debug, PartialEq, Eq)]
pub struct Pipeline {
    pub name: String,
    pub max_total_threads: usize,
    pub static_threadgroup_memory: usize,
}

/// What the device allows.
#[derive(Clone, Copy, Debug, PartialEq, Eq, Structural)]
pub struct DeviceLimits {
    pub max_buffer_length: usize,
    pub max_threadgroup_memory: usize,
}

/// Which optional kernels are in use. Both are on unless switched off.
#[derive(Clone, Copy, Debug, PartialEq, Eq, Structural)]
pub struct KernelSwitches {
    pub l2_pair_hd128_r4: bool,
    pub rmsnorm_gated_hd128_r4: bool,
}

/// What a new buffer starts with.
#[derive(Clone, Debug, PartialEq, Eq)]
pub enum Contents {
    Uninitialized,
    Copied(Vec<u8>),
    ZeroFilled,
}

/// The value of [`Contents`].
pub enum Initial {
    Uninitialized,
    Copied(Seq<u8>),
    ZeroFilled,
}

impl View for Contents {
    type V = Initial;

    open spec fn view(&self) -> Initial {
        match *self {
            Contents::Uninitialized => Initial::Uninitialized,
            Contents::Copied(bytes) => Initial::Copied(bytes@),
            Contents::ZeroFilled => Initial::ZeroFilled,
        }
    }
}

/// One buffer that the context was asked for.
#[derive(Clone, Debug, PartialEq, Eq)]
pub struct Allocation {
    pub buffer: Buffer,
    pub contents: Contents,
}

/// What the census notes of one allocation.
#[derive(Clone, Copy, Debug, PartialEq, Eq)]
pub struct AllocationCensusRow {
    pub requested_bytes: u64,
    pub buffer_length: u64,
    pub storage_mode: &'static str,
}

/// The device, its pipelines, and the buffers it was asked for.
pub struct MetalContext {
    pub limits: DeviceLimits,
    pub switches: KernelSwitches,
    pub pipelines: Vec<Pipeline>,
    pub allocations: Vec<Allocation>,
    pub census: Option<Vec<AllocationCensusRow>>,
}

/// Whether two texts are the same.
fn same_text(a: &str, b: &str) -> (r: bool)
    ensures
        r == (a@ == b@),
{
    let left = a.as_bytes();
    let right = b.as_bytes();
    proof {
        encode_utf8_decode_utf8(a@);
        encode_utf8_decode_utf8(b@);
    }
    if left.len() != right.len() {
        return false;
    }
    let mut i: usize = 0;
    while i < left.len()
        invariant
            i <= left@.len(),
            left@.len() == right@.len(),
            left@ == encode_utf8(a@),
            right@ == encode_utf8(b@),
            forall|j: int| 0 <= j < i ==> left@[j] == right@[j],
        decreases left@.len() - i,
    {
        if left[i] != right[i] {
            return false;
        }
        i = i + 1;
    }
    assert(left@ =~= right@);
    true
}

impl MetalContext {
    /// Every pipeline runs at least one thread, and buffers are numbered in the
    /// order they were asked for.
    pub open spec fn wf(self) -> bool {
        &&& forall|i: int|
            0 <= i < self.pipelines@.len() ==> (#[trigger] self.pipelines@[i]).max_total_threads > 0
        &&& forall|i: int|
            0 <= i < self.allocations@.len() ==> (#[trigger] self.allocations@[i]).buffer.id == i
    }

    /// The place of the first pipeline called `name`, at or after `from`.
    pub open spec fn pipeline_from(self, name: Seq<char>, from: int) -> Option<int>
        decreases self.pipelines@.len() - from,
    {
        if from < 0 || from >= self.pipelines@.len() {
            None
        } else if self.pipelines@[from].name@ == name {
            Some(from)
        } else {
            self.pipeline_from(name, from + 1)
        }
    }

    /// The first pipeline called `name`.
    pub open spec fn find_pipeline(self, name: Seq<char>) -> Option<Pipeline> {
        match self.pipeline_from(name, 0) {
            Some(i) => Some(self.pipelines@[i]),
            None => None,
        }
    }

    /// The threads of a threadgroup of `name`, as many as it allows up to 1024.
    pub open spec fn group_threads(self, name: Seq<char>) -> usize {
        numeric::smaller(self.find_pipeline(name)->0.max_total_threads, 1024)
    }

    /// A context for a device with these limits and pipelines.
    pub fn new(limits: DeviceLimits, switches: KernelSwitches, pipelines: Vec<Pipeline>) -> (ctx:
        MetalContext)
        ensures
            ctx.limits == limits,
            ctx.switches == switches,
            ctx.pipelines == pipelines,
            ctx.allocations@.len() == 0,
            ctx.census is None,
    {
        MetalContext { limits, switches, pipelines, allocations: Vec::new(), census: None }
    }

    /// The pipeline called `name`.
    pub fn pipeline(&self, name: &str) -> (r: Result<&Pipeline, MetalError>)
        ensures
            match self.find_pipeline(name@) {
                Some(p) => r is Ok && *r->Ok_0 == p && p.name@ == name@ && (self.wf()
                    ==> p.max_total_threads > 0),
                None => r is Err && r->Err_0@ == Fault::MissingPipeline(name@),
            },
    {
        let mut i: usize = 0;
        while i < self.pipelines.len()
            invariant
                i <= self.pipelines@.len(),
                self.pipeline_from(name@, 0) == self.pipeline_from(name@, i as int),
            decreases self.pipelines@.len() - i,
        {
            if same_text(self.pipelines[i].name.as_str(), name) {
                return Ok(&self.pipelines[i]);
            }
            i = i + 1;
        }
        Err(MetalError::MissingPipeline { name: name.to_string() })
    }

    pub fn max_buffer_length(&self) -> (r: usize)
        ensures
            r == self.limits.max_buffer_length,
    {
        self.limits.max_buffer_length
    }

    /// The buffer that the next allocation of `length` bytes gets.
    pub open spec fn next_buffer(self, length: usize) -> Buffer {
        Buffer {
            id: self.allocations@.len() as u64,
            length,
            storage_mode: StorageMode::Shared,
        }
    }

    /// `post` is `pre` after one more allocation of `length` bytes.
    pub open spec fn allocated(
        pre: MetalContext,
        post: MetalContext,
        length: usize,
        initial: Initial,
    ) -> bool {
        &&& post.limits == pre.limits
        &&& post.switches == pre.switches
        &&& post.pipelines == pre.pipelines
        &&& post.allocations@.len() == pre.allocations@.len() + 1
        &&& post.allocations@.drop_last() == pre.allocations@
        &&& post.allocations@.last().buffer == pre.next_buffer(length)
        &&& post.allocations@.last().contents@ == initial
        &&& match pre.census {
            None => post.census is None,
            Some(rows) => post.census is Some && post.census->0@ == rows@.push(
                AllocationCensusRow {
                    requested_bytes: length as u64,
                    buffer_length: length as u64,
                    storage_mode: "shared",
                },
            ),
        }
    }

    fn note_allocation(&mut self, length: usize, contents: Contents) -> (r: Result<
        Buffer,
        MetalError,
    >)
        ensures
            length <= old(self).limits.max_buffer_length ==> r == Ok::<Buffer, MetalError>(
                old(self).next_buffer(length),
            ) && Self::allocated(*old(self), *final(self), length, contents@),
            length > old(self).limits.max_buffer_length ==> r is Err && r->Err_0@
                == Fault::BufferTooLarge(length as int, old(self).limits.max_buffer_length as int)
                && *final(self) == *old(self),
    {
        if length > self.limits.max_buffer_length {
            return Err(
                MetalError::BufferTooLarge {
                    requested: length,
                    limit: self.limits.max_buffer_length,
                },
            );
        }
        let buffer = Buffer {
            id: self.allocations.len() as u64,
            length,
            storage_mode: StorageMode::Shared,
        };
        self.allocations.push(Allocation { buffer, contents });
        assert(self.allocations@.drop_last() =~= old(self).allocations@);
        let census = self.census.take();
        if let Some(mut rows) = census {
            rows.push(
                AllocationCensusRow {
                    requested_bytes: length as u64,
                    buffer_length: length as u64,
                    storage_mode: "shared",
                },
            );
            self.census = Some(rows);
        }
        Ok(buffer)
    }

    /// A shared buffer of `length` bytes, uninitialized.
    pub fn buffer_uninit(&mut self, length: usize) -> (r: Result<Buffer, MetalError>)
        ensures
            length <= old(self).limits.max_buffer_length ==> r == Ok::<Buffer, MetalError>(
                old(self).next_buffer(length),
            ) && Self::allocated(*old(self), *final(self), length, Initial::Uninitialized),
            length > old(self).limits.max_buffer_length ==> r is Err && r->Err_0@
                == Fault::BufferTooLarge(length as int, old(self).limits.max_buffer_length as int)
                && *final(self) == *old(self),
    {
        self.note_allocation(length, Contents::Uninitialized)
    }

    /// A shared buffer that starts with a copy of `bytes`.
    pub fn buffer_from(&mut self, bytes: &[u8]) -> (r: Result<Buffer, MetalError>)
        ensures
            bytes@.len() <= old(self).limits.max_buffer_length ==> r == Ok::<Buffer, MetalError>(
                old(self).next_buffer(bytes@.len() as usize),
            ) && Self::allocated(
                *old(self),
                *final(self),
                bytes@.len() as usize,
                Initial::Copied(bytes@),
            ),
            bytes@.len() > old(self).limits.max_buffer_length ==> r is Err && r->Err_0@
                == Fault::BufferTooLarge(
                bytes@.len() as int,
                old(self).limits.max_buffer_length as int,
            ) && *final(self) == *old(self),
    {
        let mut copy: Vec<u8> = Vec::new();
        copy.extend_from_slice(bytes);
        assert(copy@ =~= bytes@);
        self.note_allocation(bytes.len(), Contents::Copied(copy))
    }

    /// A shared buffer of `length` bytes that are all zero.
    pub fn buffer_zeroed(&mut self, length: usize) -> (r: Result<Buffer, MetalError>)
        ensures
            length <= old(self).limits.max_buffer_length ==> r == Ok::<Buffer, MetalError>(
                old(self).next_buffer(length),
            ) && Self::allocated(*old(self), *final(self), length, Initial::ZeroFilled),
            length > old(self).limits.max_buffer_length ==> r is Err && r->Err_0@
                == Fault::BufferTooLarge(length as int, old(self).limits.max_buffer_length as int)
                && *final(self) == *old(self),
    {
        self.note_allocation(length, Contents::ZeroFilled)
    }

    /// Start noting allocations, from none.
    pub fn allocation_census_begin(&mut self)
        ensures
            final(self).census is Some,
            final(self).census->0@.len() == 0,
            final(self).limits == old(self).limits,
            final(self).switches == old(self).switches,
            final(self).pipelines == old(self).pipelines,
            final(self).allocations == old(self).allocations,
    {
        self.census = Some(Vec::new());
    }

    /// Stop noting allocations and hand out what was noted.
    pub fn allocation_census_take(&mut self) -> (rows: Vec<AllocationCensusRow>)
        ensures
            final(self).census is None,
            match old(self).census {
                Some(noted) => rows@ == noted@,
                None => rows@.len() == 0,
            },
            final(self).limits == old(self).limits,
            final(self).switches == old(self).switches,
            final(self).pipelines == old(self).pipelines,
            final(self).allocations == old(self).allocations,
    {
        match self.census.take() {
            Some(rows) => rows,
            None => Vec::new(),
        }
    }

    /// How many censuses are under way.
    pub fn diagnostics_observer_active_count(&self) -> (r: usize)
        ensures
            r == (if self.census is Some {
                1int
            } else {
                0
            }),
    {
        match &self.census {
            Some(_) => 1,
            None => 0,
        }
    }

    /// Allocating keeps the context well formed, and the new buffer is none of
    /// those handed out before.
    pub proof fn law_allocation_is_fresh(
        pre: MetalContext,
        post: MetalContext,
        length: usize,
        initial: Initial,
    )
        requires
            pre.wf(),
            Self::allocated(pre, post, length, initial),
            pre.allocations@.len() <= u64::MAX,
        ensures
            post.wf(),
            forall|i: int|
                0 <= i < pre.allocations@.len() ==> (#[trigger] pre.allocations@[i]).buffer.id
                    != pre.next_buffer(length).id,
    {
        assert forall|i: int| 0 <= i < post.allocations@.len() implies (
        #[trigger] post.allocations@[i]).buffer.id == i by {
            if i < pre.allocations@.len() {
                assert(post.allocations@.drop_last()[i] == pre.allocations@[i]);
            }
        }
    }
}

} // verus!
