//! The recording of kernel launches.

use vstd::prelude::*;

use crate::context::{MetalContext, Pipeline};
use crate::error::{Fault, MetalError};
use crate::numeric;
use crate::numeric::{div_ceil, max_size, min_size, product};
use crate::tensor::Binding;

verus! {

/// A size in three dimensions.
#[derive(Clone, Copy, Debug, PartialEq, Eq, Structural)]
pub struct MTLSize {
    pub width: usize,
    pub height: usize,
    pub depth: usize,
}

/// One step of an encoder.
#[derive(Clone, Debug, PartialEq, Eq)]
pub enum Command {
    SetPipeline(String),
    SetBytes { index: usize, words: Vec<u32> },
    SetTensor { index: usize, binding: Binding },
    SetThreadgroupMemory { index: usize, length: usize },
    Dispatch { threadgroups: MTLSize, threads: MTLSize },
}

/// The value of a [`Command`].
pub enum Step {
    Pipeline(Seq<char>),
    Bytes(int, Seq<u32>),
    Tensor(int, Binding),
    Threadgroup(int, usize),
    Dispatch(MTLSize, MTLSize),
}

impl View for Command {
    type V = Step;

    open spec fn view(&self) -> Step {
        match *self {
            Command::SetPipeline(name) => Step::Pipeline(name@),
            Command::SetBytes { index, words } => Step::Bytes(index as int, words@),
            Command::SetTensor { index, binding } => Step::Tensor(index as int, binding),
            Command::SetThreadgroupMemory { index, length } => Step::Threadgroup(
                index as int,
                length,
            ),
            Command::Dispatch { threadgroups, threads } => Step::Dispatch(threadgroups, threads),
        }
    }
}

/// A launch: which pipeline runs, on which arguments, over which grid.
///
/// The argument words are bound at index 0, the tensors at 1 and up, and the
/// scratch memories at 0 and up.
pub struct Launch {
    pub pipeline: Seq<char>,
    pub words: Seq<u32>,
    pub tensors: Seq<Binding>,
    pub scratch: Seq<usize>,
    pub threadgroups: MTLSize,
    pub threads: MTLSize,
}

impl Launch {
    /// The steps that set up a kernel's arguments.
    pub open spec fn arguments(
        pipeline: Seq<char>,
        words: Seq<u32>,
        tensors: Seq<Binding>,
    ) -> Seq<Step> {
        seq![Step::Pipeline(pipeline), Step::Bytes(0, words)] + Seq::new(
            tensors.len(),
            |i: int| Step::Tensor(i + 1, tensors[i]),
        )
    }

    /// The steps of the whole launch.
    pub open spec fn steps(self) -> Seq<Step> {
        Launch::arguments(self.pipeline, self.words, self.tensors) + Seq::new(
            self.scratch.len(),
            |i: int| Step::Threadgroup(i, self.scratch[i]),
        ) + seq![Step::Dispatch(self.threadgroups, self.threads)]
    }
}

/// What a request to encode does.
pub enum Outcome {
    /// It is refused and nothing is recorded.
    Refused(Fault),
    /// The steps are recorded.
    Recorded(Seq<Step>),
    /// It is refused after the steps were recorded.
    Abandoned(Seq<Step>, Fault),
}

impl Outcome {
    /// Launch where the pipeline was compiled.
    pub open spec fn launch(ctx: MetalContext, launch: Launch) -> Outcome {
        match ctx.find_pipeline(launch.pipeline) {
            Some(_) => Outcome::Recorded(launch.steps()),
            None => Outcome::Refused(Fault::MissingPipeline(launch.pipeline)),
        }
    }

    /// Launch a kernel that reduces in each of `width` by `height` threadgroups,
    /// as many threads wide as the pipeline allows. Each simdgroup of 32 threads
    /// leaves `lanes` partial results of four bytes in scratch memory.
    pub open spec fn reduction(
        ctx: MetalContext,
        pipeline: Seq<char>,
        words: Seq<u32>,
        tensors: Seq<Binding>,
        lanes: usize,
        width: usize,
        height: usize,
    ) -> Outcome {
        let threads = ctx.group_threads(pipeline);
        Outcome::launch(
            ctx,
            Launch {
                pipeline,
                words,
                tensors,
                scratch: seq![
                    numeric::larger((lanes * numeric::div_up(threads, 32) * 4) as usize, 32),
                ],
                threadgroups: MTLSize { width, height, depth: 1 },
                threads: MTLSize { width: threads, height: 1, depth: 1 },
            },
        )
    }

    /// This request, and after it the next one unless this one was refused.
    pub open spec fn and_next(self, next: Outcome) -> Outcome {
        match self {
            Outcome::Recorded(first) => match next {
                Outcome::Recorded(second) => Outcome::Recorded(first + second),
                Outcome::Refused(fault) => Outcome::Abandoned(first, fault),
                Outcome::Abandoned(second, fault) => Outcome::Abandoned(first + second, fault),
            },
            other => other,
        }
    }

    /// Whether the request is granted.
    pub open spec fn granted(self) -> bool {
        self is Recorded
    }
}

/// A recorder of kernel launches.
pub struct KernelEncoder {
    pub concurrent: bool,
    pub commands: Vec<Command>,
}

impl View for KernelEncoder {
    type V = Seq<Step>;

    open spec fn view(&self) -> Seq<Step> {
        self.commands@.map_values(|c: Command| c@)
    }
}

impl KernelEncoder {
    /// A request that met `self` before and left `post` did what `outcome` says.
    pub open spec fn did(
        self,
        post: KernelEncoder,
        result: Result<(), MetalError>,
        outcome: Outcome,
    ) -> bool {
        &&& post.concurrent == self.concurrent
        &&& match outcome {
            Outcome::Refused(fault) => post@ == self@ && result is Err && result->Err_0@ == fault,
            Outcome::Recorded(steps) => post@ == self@ + steps && result is Ok,
            Outcome::Abandoned(steps, fault) => post@ == self@ + steps && result is Err
                && result->Err_0@ == fault,
        }
    }

    /// An encoder whose launches run one after the other.
    pub fn begin() -> (enc: KernelEncoder)
        ensures
            enc@ == Seq::<Step>::empty(),
            !enc.concurrent,
    {
        let enc = KernelEncoder { concurrent: false, commands: Vec::new() };
        assert(enc@ =~= Seq::<Step>::empty());
        enc
    }

    /// An encoder whose launches may run at the same time.
    pub fn begin_concurrent() -> (enc: KernelEncoder)
        ensures
            enc@ == Seq::<Step>::empty(),
            enc.concurrent,
    {
        let enc = KernelEncoder { concurrent: true, commands: Vec::new() };
        assert(enc@ =~= Seq::<Step>::empty());
        enc
    }

    pub fn is_concurrent(&self) -> (r: bool)
        ensures
            r == self.concurrent,
    {
        self.concurrent
    }

    /// Hand out what was recorded.
    pub fn end(self) -> (commands: Vec<Command>)
        ensures
            commands == self.commands,
    {
        self.commands
    }

    fn record(&mut self, command: Command)
        ensures
            final(self)@ == old(self)@.push(command@),
            final(self).concurrent == old(self).concurrent,
    {
        self.commands.push(command);
        assert(self@ =~= old(self)@.push(command@));
    }

    pub fn set_pipeline(&mut self, pipeline: &Pipeline)
        ensures
            final(self)@ == old(self)@.push(Step::Pipeline(pipeline.name@)),
            final(self).concurrent == old(self).concurrent,
    {
        self.record(Command::SetPipeline(pipeline.name.as_str().to_string()));
    }

    pub fn set_bytes(&mut self, index: usize, words: Vec<u32>)
        ensures
            final(self)@ == old(self)@.push(Step::Bytes(index as int, words@)),
            final(self).concurrent == old(self).concurrent,
    {
        self.record(Command::SetBytes { index, words });
    }

    pub fn set_tensor(&mut self, index: usize, binding: Binding)
        ensures
            final(self)@ == old(self)@.push(Step::Tensor(index as int, binding)),
            final(self).concurrent == old(self).concurrent,
    {
        self.record(Command::SetTensor { index, binding });
    }

    pub fn set_threadgroup_memory(&mut self, index: usize, length: usize)
        ensures
            final(self)@ == old(self)@.push(Step::Threadgroup(index as int, length)),
            final(self).concurrent == old(self).concurrent,
    {
        self.record(Command::SetThreadgroupMemory { index, length });
    }

    pub fn dispatch(&mut self, threadgroups: MTLSize, threads: MTLSize)
        ensures
            final(self)@ == old(self)@.push(Step::Dispatch(threadgroups, threads)),
            final(self).concurrent == old(self).concurrent,
    {
        self.record(Command::Dispatch { threadgroups, threads });
    }

    /// Record the arguments of a launch.
    pub fn set_arguments(&mut self, pipeline: &Pipeline, words: Vec<u32>, tensors: &[Binding])
        ensures
            final(self)@ == old(self)@ + Launch::arguments(pipeline.name@, words@, tensors@),
            final(self).concurrent == old(self).concurrent,
    {
        let ghost head = seq![Step::Pipeline(pipeline.name@), Step::Bytes(0, words@)];
        let ghost bound = Seq::new(
            tensors@.len(),
            |i: int| Step::Tensor(i + 1, tensors@[i]),
        );
        self.set_pipeline(pipeline);
        self.set_bytes(0, words);
        assert(self@ =~= old(self)@ + head + bound.take(0));
        let mut i: usize = 0;
        while i < tensors.len()
            invariant
                i <= tensors@.len(),
                self.concurrent == old(self).concurrent,
                bound == Seq::new(tensors@.len(), |i: int| Step::Tensor(i + 1, tensors@[i])),
                self@ == old(self)@ + head + bound.take(i as int),
            decreases tensors@.len() - i,
        {
            self.set_tensor(i + 1, tensors[i]);
            assert(bound.take(i as int).push(bound[i as int]) =~= bound.take(i + 1));
            assert(self@ =~= old(self)@ + head + bound.take(i + 1));
            i = i + 1;
        }
        assert(bound.take(i as int) =~= bound);
        assert(self@ =~= old(self)@ + (head + bound));
    }

    /// Launch the pipeline called `name`, where it was compiled.
    pub fn launch(
        &mut self,
        ctx: &MetalContext,
        name: &str,
        words: Vec<u32>,
        tensors: &[Binding],
        scratch: &[usize],
        threadgroups: MTLSize,
        threads: MTLSize,
    ) -> (r: Result<(), MetalError>)
        ensures
            old(self).did(
                *final(self),
                r,
                Outcome::launch(
                    *ctx,
                    Launch {
                        pipeline: name@,
                        words: words@,
                        tensors: tensors@,
                        scratch: scratch@,
                        threadgroups,
                        threads,
                    },
                ),
            ),
    {
        let pipeline = match ctx.pipeline(name) {
            Ok(pipeline) => pipeline,
            Err(e) => {
                return Err(e);
            },
        };
        let ghost launch = Launch {
            pipeline: name@,
            words: words@,
            tensors: tensors@,
            scratch: scratch@,
            threadgroups,
            threads,
        };
        let ghost reserved = Seq::new(
            scratch@.len(),
            |i: int| Step::Threadgroup(i, scratch@[i]),
        );
        let ghost arguments = Launch::arguments(name@, words@, tensors@);
        self.set_arguments(pipeline, words, tensors);
        assert(self@ =~= old(self)@ + arguments + reserved.take(0));
        let mut i: usize = 0;
        while i < scratch.len()
            invariant
                i <= scratch@.len(),
                self.concurrent == old(self).concurrent,
                reserved == Seq::new(scratch@.len(), |i: int| Step::Threadgroup(i, scratch@[i])),
                self@ == old(self)@ + arguments + reserved.take(i as int),
            decreases scratch@.len() - i,
        {
            self.set_threadgroup_memory(i, scratch[i]);
            assert(reserved.take(i as int).push(reserved[i as int]) =~= reserved.take(i + 1));
            assert(self@ =~= old(self)@ + arguments + reserved.take(i + 1));
            i = i + 1;
        }
        assert(reserved.take(i as int) =~= reserved);
        self.dispatch(threadgroups, threads);
        assert(self@ =~= old(self)@ + launch.steps());
        Ok(())
    }

    /// Launch a kernel that reduces in each threadgroup.
    pub fn launch_reduction(
        &mut self,
        ctx: &MetalContext,
        name: &str,
        words: Vec<u32>,
        tensors: &[Binding],
        lanes: usize,
        width: usize,
        height: usize,
    ) -> (r: Result<(), MetalError>)
        requires
            lanes <= 2,
        ensures
            old(self).did(
                *final(self),
                r,
                Outcome::reduction(*ctx, name@, words@, tensors@, lanes, width, height),
            ),
    {
        let threads: usize = match ctx.pipeline(name) {
            Ok(pipeline) => min_size(pipeline.max_total_threads, 1024),
            Err(e) => {
                return Err(e);
            },
        };
        let simdgroups: usize = div_ceil(threads, 32);
        assert(simdgroups <= 32);
        assert(lanes * simdgroups <= 64) by (nonlinear_arith)
            requires
                lanes <= 2,
                simdgroups <= 32,
        ;
        let scratch = [max_size(product(lanes, simdgroups) * 4, 32)];
        assert(scratch@ =~= seq![
            numeric::larger((lanes * numeric::div_up(threads, 32) * 4) as usize, 32),
        ]);
        self.launch(
            ctx,
            name,
            words,
            tensors,
            &scratch,
            MTLSize { width, height, depth: 1 },
            MTLSize { width: threads, height: 1, depth: 1 },
        )
    }
}

/// Whatever is asked of it, an encoder keeps what was recorded and its mode. A
/// refused request records nothing, and a request succeeds just when it is granted.
pub proof fn law_encoding_only_appends(
    pre: KernelEncoder,
    post: KernelEncoder,
    result: Result<(), MetalError>,
    outcome: Outcome,
)
    requires
        pre.did(post, result, outcome),
    ensures
        pre@.is_prefix_of(post@),
        post.concurrent == pre.concurrent,
        outcome is Refused ==> post@ == pre@,
        result is Ok <==> outcome.granted(),
{
    assert(pre@ =~= post@.subrange(0, pre@.len() as int));
}

} // verus!
