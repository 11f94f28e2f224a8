//! How a recorded launch is read back, and what every launch looks like.

use vstd::prelude::*;

use crate::context::{MetalContext, Pipeline};
use crate::encoder::{Command, KernelEncoder, Launch, MTLSize, Outcome, Step};
use crate::error::{Datum, Fault, MetalError};
use crate::numeric;
use crate::tensor::{Binding, MetalTensor};

verus! {

/// The first byte of a tensor, as a kernel is given it.
pub open spec fn at(tensor: MetalTensor) -> Binding {
    Binding { buffer: tensor.buffer, offset: tensor.offset }
}

/// One of the device's pipelines has this name.
pub open spec fn compiled(ctx: MetalContext, name: Seq<char>) -> bool {
    exists|i: int| 0 <= i < ctx.pipelines@.len() && #[trigger] ctx.pipelines@[i].name@ == name
}

/// `groups` groups of `size` are the fewest that hold `n` items.
pub open spec fn tiles(groups: usize, size: int, n: int) -> bool {
    &&& groups * size >= n
    &&& groups > 0 ==> (groups - 1) * size < n
}

/// A width in one dimension.
pub open spec fn line(size: MTLSize, width: int) -> bool {
    size.width == width && size.height == 1 && size.depth == 1
}

/// Nothing was recorded.
pub open spec fn untouched(pre: KernelEncoder, post: KernelEncoder) -> bool {
    post@ == pre@ && post.concurrent == pre.concurrent
}

/// From the place `from` on, the commands pick a pipeline, hand over the argument
/// words at index 0 and the tensors at index 1 and up.
pub open spec fn prepared(post: KernelEncoder, from: int, tensors: Seq<Binding>) -> bool {
    &&& 0 <= from && from + 2 + tensors.len() <= post.commands@.len()
    &&& post.commands@[from] is SetPipeline
    &&& post.commands@[from + 1] matches Command::SetBytes { index, .. } && index == 0
    &&& forall|i: int|
        0 <= i < tensors.len() ==> post.commands@[from + 2 + i] == (Command::SetTensor {
            index: (i + 1) as usize,
            binding: #[trigger] tensors[i],
        })
}

/// The commands from `from` up to `to` are one launch over these tensors, with
/// scratch memories of these sizes.
pub open spec fn launched_at(
    post: KernelEncoder,
    from: int,
    to: int,
    tensors: Seq<Binding>,
    scratch: Seq<usize>,
) -> bool {
    &&& to == from + 3 + tensors.len() + scratch.len()
    &&& to <= post.commands@.len()
    &&& prepared(post, from, tensors)
    &&& forall|i: int|
        0 <= i < scratch.len() ==> post.commands@[from + 2 + tensors.len() + i] == (
        Command::SetThreadgroupMemory { index: i as usize, length: #[trigger] scratch[i] })
    &&& post.commands@[to - 1] is Dispatch
}

/// What was recorded before is still there.
pub open spec fn extends(pre: KernelEncoder, post: KernelEncoder) -> bool {
    &&& post.concurrent == pre.concurrent
    &&& post.commands@.len() >= pre.commands@.len()
    &&& forall|i: int| 0 <= i < pre.commands@.len() ==> #[trigger] post@[i] == pre@[i]
}

/// A request added one launch over these tensors.
pub open spec fn launched(
    pre: KernelEncoder,
    post: KernelEncoder,
    tensors: Seq<Binding>,
    scratch: Seq<usize>,
) -> bool {
    &&& extends(pre, post)
    &&& launched_at(
        post,
        pre.commands@.len() as int,
        post.commands@.len() as int,
        tensors,
        scratch,
    )
}

/// The pipeline of the launch that starts at `from`.
pub open spec fn kernel_at(post: KernelEncoder, from: int) -> Seq<char> {
    post.commands@[from]->SetPipeline_0@
}

/// The argument words of the launch that starts at `from`.
pub open spec fn words_at(post: KernelEncoder, from: int) -> Seq<u32> {
    match post.commands@[from + 1] {
        Command::SetBytes { words, .. } => words@,
        _ => seq![],
    }
}

/// The grid of the launch that ends before `to`.
pub open spec fn grid_at(post: KernelEncoder, to: int) -> MTLSize {
    post.commands@[to - 1]->threadgroups
}

/// The threadgroup of the launch that ends before `to`.
pub open spec fn group_at(post: KernelEncoder, to: int) -> MTLSize {
    post.commands@[to - 1]->threads
}

/// The pipeline of the one launch that was added.
pub open spec fn kernel(pre: KernelEncoder, post: KernelEncoder) -> Seq<char> {
    kernel_at(post, pre.commands@.len() as int)
}

/// The argument words of the one launch that was added.
pub open spec fn words(pre: KernelEncoder, post: KernelEncoder) -> Seq<u32> {
    words_at(post, pre.commands@.len() as int)
}

/// How many threadgroups the added launch has.
pub open spec fn grid(post: KernelEncoder) -> MTLSize {
    grid_at(post, post.commands@.len() as int)
}

/// How many threads each threadgroup of the added launch has.
pub open spec fn group(post: KernelEncoder) -> MTLSize {
    group_at(post, post.commands@.len() as int)
}

/// A refusal over the shapes or formats of what `kernel` was given.
pub open spec fn refused_shape(result: Result<(), MetalError>, kernel: Seq<char>) -> bool {
    result matches Err(e) && (e@ matches Fault::BadShape(k, _, _) && k == kernel)
}

/// A refusal whose message shows these values.
pub open spec fn shows(result: Result<(), MetalError>, values: Seq<Datum>) -> bool {
    result matches Err(e) && (e@ matches Fault::BadShape(_, _, shown) && shown =~= values)
}

/// A refusal whose message first names this argument.
pub open spec fn names(result: Result<(), MetalError>, label: Seq<char>) -> bool {
    result matches Err(e) && (e@ matches Fault::BadShape(_, _, shown) && shown.len() > 0
        && shown[0] == Datum::Label(label))
}

/// A refusal because no pipeline has the name.
pub open spec fn refused_missing(result: Result<(), MetalError>, name: Seq<char>) -> bool {
    result matches Err(e) && e@ == Fault::MissingPipeline(name)
}

/// A request is granted just when it is acceptable and its pipeline was compiled. What
/// is not granted leaves the encoder as it was and says which of the two is missing.
pub open spec fn granted_just_when(
    pre: KernelEncoder,
    post: KernelEncoder,
    result: Result<(), MetalError>,
    ctx: MetalContext,
    acceptable: bool,
    label: Seq<char>,
    pipeline: Seq<char>,
) -> bool {
    &&& result is Ok <==> acceptable && compiled(ctx, pipeline)
    &&& result is Err ==> untouched(pre, post)
    &&& !acceptable ==> refused_shape(result, label)
    &&& acceptable && !compiled(ctx, pipeline) ==> refused_missing(result, pipeline)
}

/// A request is granted just when it is acceptable and its pipeline was compiled. What
/// is not granted leaves the encoder as it was, and says that the pipeline is missing
/// just when nothing else is.
pub open spec fn granted_when(
    pre: KernelEncoder,
    post: KernelEncoder,
    result: Result<(), MetalError>,
    ctx: MetalContext,
    acceptable: bool,
    pipeline: Seq<char>,
) -> bool {
    &&& result is Ok <==> acceptable && compiled(ctx, pipeline)
    &&& result is Err ==> untouched(pre, post)
    &&& !acceptable ==> result is Err && result->Err_0@ is BadShape
    &&& acceptable && !compiled(ctx, pipeline) ==> refused_missing(result, pipeline)
}

/// The first of the device's pipelines with this name allows threadgroups of `limit`
/// threads.
pub open spec fn allows_threads(ctx: MetalContext, name: Seq<char>, limit: usize) -> bool {
    exists|i: int|
        0 <= i < ctx.pipelines@.len() && (#[trigger] ctx.pipelines@[i]).name@ == name
            && ctx.pipelines@[i].max_total_threads == limit && forall|j: int|
            0 <= j < i ==> (#[trigger] ctx.pipelines@[j]).name@ != name
}

/// Threadgroups of the added launch are as wide as the pipeline allows, up to 1024
/// threads.
pub open spec fn widest(ctx: MetalContext, name: Seq<char>, post: KernelEncoder) -> bool {
    &&& line(group(post), group(post).width as int)
    &&& exists|limit: usize| #[trigger]
        allows_threads(ctx, name, limit) && group(post).width == if limit < 1024 {
            limit as int
        } else {
            1024
        }
}

/// A request added one launch whose threadgroups are as wide as can be and share a
/// scratch memory of at least 32 bytes, with `lanes` floats for every 32 threads.
pub open spec fn reduces(
    ctx: MetalContext,
    pre: KernelEncoder,
    post: KernelEncoder,
    tensors: Seq<Binding>,
    lanes: int,
) -> bool {
    &&& widest(ctx, kernel(pre, post), post)
    &&& exists|scratch: usize| #[trigger]
        launched(pre, post, tensors, seq![scratch]) && scratch >= 32 && scratch * 8 >= lanes
            * group(post).width && (scratch > 32 ==> (scratch - 4 * lanes) * 8 < lanes * group(
            post,
        ).width)
}

/// Looking for a pipeline finds one just when there is one.
pub proof fn lemma_compiled(ctx: MetalContext, name: Seq<char>)
    ensures
        compiled(ctx, name) <==> ctx.find_pipeline(name) is Some,
        ctx.find_pipeline(name) matches Some(p) ==> p.name@ == name && allows_threads(
            ctx,
            name,
            p.max_total_threads,
        ),
{
    lemma_pipeline_from(ctx, name, 0);
    if ctx.find_pipeline(name) is Some {
        let i = ctx.pipeline_from(name, 0)->0;
        assert(ctx.pipelines@[i].name@ == name);
    }
}

proof fn lemma_pipeline_from(ctx: MetalContext, name: Seq<char>, from: int)
    requires
        0 <= from,
    ensures
        ctx.pipeline_from(name, from) matches Some(i) ==> from <= i < ctx.pipelines@.len()
            && ctx.pipelines@[i].name@ == name && forall|j: int|
            from <= j < i ==> (#[trigger] ctx.pipelines@[j]).name@ != name,
        (exists|i: int|
            from <= i < ctx.pipelines@.len() && #[trigger] ctx.pipelines@[i].name@ == name)
            <==> ctx.pipeline_from(name, from) is Some,
    decreases ctx.pipelines@.len() - from,
{
    if from < ctx.pipelines@.len() && ctx.pipelines@[from].name@ != name {
        lemma_pipeline_from(ctx, name, from + 1);
        if exists|i: int|
            from <= i < ctx.pipelines@.len() && #[trigger] ctx.pipelines@[i].name@ == name {
            let i = choose|i: int|
                from <= i < ctx.pipelines@.len() && #[trigger] ctx.pipelines@[i].name@ == name;
            assert(from + 1 <= i);
        }
    }
}

/// The steps of a launch, read back from the commands after `from`.
pub proof fn lemma_read_at(post: KernelEncoder, from: int, l: Launch)
    requires
        0 <= from,
        from + l.steps().len() <= post@.len(),
        forall|i: int| 0 <= i < l.steps().len() ==> post@[from + i] == #[trigger] l.steps()[i],
        l.tensors.len() < usize::MAX,
        l.scratch.len() < usize::MAX,
    ensures
        launched_at(post, from, from + l.steps().len(), l.tensors, l.scratch),
        kernel_at(post, from) == l.pipeline,
        words_at(post, from) == l.words,
        grid_at(post, from + l.steps().len()) == l.threadgroups,
        group_at(post, from + l.steps().len()) == l.threads,
{
    let steps = l.steps();
    let n = l.tensors.len();
    let m = l.scratch.len();
    assert(steps.len() == 3 + n + m);
    assert(post.commands@.len() == post@.len());
    assert forall|i: int| 0 <= i < steps.len() implies (#[trigger] post.commands@[from + i])@
        == steps[i] by {
        assert(post@[from + i] == post.commands@[from + i]@);
    }
    assert(post.commands@[from + 0]@ == steps[0]);
    assert(post.commands@[from + 1]@ == steps[1]);
    assert(post.commands@[from + (steps.len() - 1)]@ == steps[steps.len() - 1]);
    assert forall|i: int| 0 <= i < n implies post.commands@[from + 2 + i] == (Command::SetTensor {
        index: (i + 1) as usize,
        binding: #[trigger] l.tensors[i],
    }) by {
        assert(post.commands@[from + (2 + i)]@ == steps[2 + i]);
        assert(steps[2 + i] == Step::Tensor(i + 1, l.tensors[i]));
    }
    assert forall|i: int| 0 <= i < m implies post.commands@[from + 2 + n + i] == (
    Command::SetThreadgroupMemory { index: i as usize, length: #[trigger] l.scratch[i] }) by {
        assert(post.commands@[from + (2 + n + i)]@ == steps[2 + n + i]);
        assert(steps[2 + n + i] == Step::Threadgroup(i, l.scratch[i]));
    }
}

/// Where one launch was recorded, it is read back as it was meant.
pub proof fn lemma_read(pre: KernelEncoder, post: KernelEncoder)
    ensures
        pre.commands@.len() == pre@.len(),
        post.commands@.len() == post@.len(),
        forall|l: Launch|
            post@ == pre@ + #[trigger] l.steps() && post.concurrent == pre.concurrent
                && l.tensors.len() < usize::MAX && l.scratch.len() < usize::MAX ==> {
                &&& launched(pre, post, l.tensors, l.scratch)
                &&& kernel(pre, post) == l.pipeline
                &&& words(pre, post) == l.words
                &&& grid(post) == l.threadgroups
                &&& group(post) == l.threads
            },
{
    assert forall|l: Launch|
        post@ == pre@ + #[trigger] l.steps() && post.concurrent == pre.concurrent
            && l.tensors.len() < usize::MAX && l.scratch.len() < usize::MAX implies {
        &&& launched(pre, post, l.tensors, l.scratch)
        &&& kernel(pre, post) == l.pipeline
        &&& words(pre, post) == l.words
        &&& grid(post) == l.threadgroups
        &&& group(post) == l.threads
    } by {
        lemma_read_at(post, pre@.len() as int, l);
    }
}

/// Where arguments were handed over, they are read back as they were meant.
pub proof fn lemma_prepared(pre: KernelEncoder, post: KernelEncoder)
    ensures
        forall|name: Seq<char>, args: Seq<u32>, tensors: Seq<Binding>|
            post@ == pre@ + #[trigger] Launch::arguments(name, args, tensors) && post.concurrent
                == pre.concurrent && tensors.len() < usize::MAX ==> {
                &&& extends(pre, post)
                &&& post.commands@.len() == pre.commands@.len() + 2 + tensors.len()
                &&& prepared(post, pre.commands@.len() as int, tensors)
                &&& kernel(pre, post) == name
                &&& words(pre, post) == args
            },
{
    assert forall|name: Seq<char>, args: Seq<u32>, tensors: Seq<Binding>|
        post@ == pre@ + #[trigger] Launch::arguments(name, args, tensors) && post.concurrent
            == pre.concurrent && tensors.len() < usize::MAX implies {
        &&& extends(pre, post)
        &&& post.commands@.len() == pre.commands@.len() + 2 + tensors.len()
        &&& prepared(post, pre.commands@.len() as int, tensors)
        &&& kernel(pre, post) == name
        &&& words(pre, post) == args
    } by {
        let steps = Launch::arguments(name, args, tensors);
        let from = pre@.len() as int;
        assert(pre.commands@.len() == from && post.commands@.len() == post@.len());
        assert(post@[from] == steps[0] && post@[from] == post.commands@[from]@);
        assert(post@[from + 1] == steps[1] && post@[from + 1] == post.commands@[from + 1]@);
        assert forall|i: int| 0 <= i < tensors.len() implies post.commands@[from + 2 + i] == (
        Command::SetTensor { index: (i + 1) as usize, binding: #[trigger] tensors[i] }) by {
            assert(post@[from + 2 + i] == steps[2 + i]);
            assert(post@[from + 2 + i] == post.commands@[from + 2 + i]@);
            assert(steps[2 + i] == Step::Tensor(i + 1, tensors[i]));
        }
    }
}

/// Where a reduction was asked for, it is read back as one.
pub proof fn lemma_reduction(
    pre: KernelEncoder,
    post: KernelEncoder,
    result: Result<(), MetalError>,
    ctx: MetalContext,
)
    ensures
        forall|name: Seq<char>, args: Seq<u32>, tensors: Seq<Binding>, lanes: usize, w: usize,
            h: usize|
            pre.did(post, result, #[trigger] Outcome::reduction(ctx, name, args, tensors, lanes, w,
                h))
                && result is Ok && 1 <= lanes <= 2 && tensors.len() < usize::MAX ==> {
                &&& reduces(ctx, pre, post, tensors, lanes as int)
                &&& kernel(pre, post) == name
                &&& words(pre, post) == args
                &&& grid(post) == (MTLSize { width: w, height: h, depth: 1 })
            },
{
    lemma_read(pre, post);
    assert forall|name: Seq<char>, args: Seq<u32>, tensors: Seq<Binding>, lanes: usize, w: usize,
        h: usize|
        pre.did(post, result, #[trigger] Outcome::reduction(ctx, name, args, tensors, lanes, w, h))
            && result is Ok && 1 <= lanes <= 2 && tensors.len() < usize::MAX implies {
        &&& reduces(ctx, pre, post, tensors, lanes as int)
        &&& kernel(pre, post) == name
        &&& words(pre, post) == args
        &&& grid(post) == (MTLSize { width: w, height: h, depth: 1 })
    } by {
        lemma_compiled(ctx, name);
        let threads = ctx.group_threads(name);
        let scratch = numeric::larger((lanes * numeric::div_up(threads, 32) * 4) as usize, 32);
        numeric::law_div_up_covers(threads, 32);
        assert(lanes == 1 || lanes == 2);
        assert(allows_threads(ctx, name, ctx.find_pipeline(name)->0.max_total_threads));
        assert(launched(pre, post, tensors, seq![scratch]));
    }
}

/// A launch that is as wide as its pipeline allows, over `n` items.
pub proof fn lemma_widest(ctx: MetalContext, name: Seq<char>, post: KernelEncoder, n: usize)
    requires
        ctx.wf(),
        ctx.find_pipeline(name) is Some,
        line(group(post), ctx.group_threads(name) as int),
        grid(post).width == numeric::div_up(n, ctx.group_threads(name)),
    ensures
        widest(ctx, name, post),
        tiles(grid(post).width, group(post).width as int, n as int),
{
    lemma_compiled(ctx, name);
    let limit = ctx.find_pipeline(name)->0.max_total_threads;
    assert(allows_threads(ctx, name, limit));
    let i = choose|i: int|
        0 <= i < ctx.pipelines@.len() && (#[trigger] ctx.pipelines@[i]).name@ == name
            && ctx.pipelines@[i].max_total_threads == limit && forall|j: int|
            0 <= j < i ==> (#[trigger] ctx.pipelines@[j]).name@ != name;
    assert(ctx.pipelines@[i].max_total_threads > 0);
    numeric::law_div_up_covers(n, ctx.group_threads(name));
}

/// A launch is recorded as it was asked for, where its pipeline was compiled, and else
/// nothing is.
pub proof fn law_launch_records_what_was_asked(
    enc: &mut KernelEncoder,
    ctx: MetalContext,
    name: &str,
    args: Vec<u32>,
    tensors: &[Binding],
    scratch: &[usize],
    threadgroups: MTLSize,
    threads: MTLSize,
    result: Result<(), MetalError>,
)
    requires
        call_ensures(
            KernelEncoder::launch,
            (enc, &ctx, name, args, tensors, scratch, threadgroups, threads),
            result,
        ),
        tensors@.len() < usize::MAX,
        scratch@.len() < usize::MAX,
    ensures
        granted_just_when(*old(enc), *final(enc), result, ctx, true, seq![], name@),
        result is Ok ==> {
            &&& launched(*old(enc), *final(enc), tensors@, scratch@)
            &&& kernel(*old(enc), *final(enc)) == name@
            &&& words(*old(enc), *final(enc)) == args@
            &&& grid(*final(enc)) == threadgroups
            &&& group(*final(enc)) == threads
        },
{
    lemma_compiled(ctx, name@);
    lemma_read(*old(enc), *final(enc));
}

/// One command was added, and this is it.
pub open spec fn added(pre: KernelEncoder, post: KernelEncoder, step: Step) -> bool {
    &&& extends(pre, post)
    &&& post.commands@.len() == pre.commands@.len() + 1
    &&& post@.last() == step
}

proof fn lemma_added(pre: KernelEncoder, post: KernelEncoder, step: Step)
    requires
        post@ == pre@.push(step),
        post.concurrent == pre.concurrent,
    ensures
        added(pre, post, step),
        post.commands@.last()@ == step,
{
    assert(post.commands@.len() == post@.len() && pre.commands@.len() == pre@.len());
    assert(post@.last() == post.commands@.last()@);
}

/// Each call on an encoder adds the command that it is named after, with the arguments
/// that it was given.
pub proof fn law_calls_add_their_commands(
    enc: &mut KernelEncoder,
    pipeline: Pipeline,
    index: usize,
    args: Vec<u32>,
    binding: Binding,
    length: usize,
    threadgroups: MTLSize,
    threads: MTLSize,
)
    ensures
        call_ensures(KernelEncoder::set_pipeline, (enc, &pipeline), ()) ==> extends(
            *old(enc),
            *final(enc),
        ) && final(enc).commands@.len() == old(enc).commands@.len() + 1 && (
        final(enc).commands@.last() matches Command::SetPipeline(name) && name@ == pipeline.name@),
        call_ensures(KernelEncoder::set_bytes, (enc, index, args), ()) ==> extends(
            *old(enc),
            *final(enc),
        ) && final(enc).commands@.len() == old(enc).commands@.len() + 1 && (
        final(enc).commands@.last() matches Command::SetBytes { index: at, words } && at == index
            && words@ == args@),
        call_ensures(KernelEncoder::set_tensor, (enc, index, binding), ()) ==> extends(
            *old(enc),
            *final(enc),
        ) && final(enc).commands@.len() == old(enc).commands@.len() + 1
            && final(enc).commands@.last() == (Command::SetTensor { index, binding }),
        call_ensures(KernelEncoder::set_threadgroup_memory, (enc, index, length), ()) ==> extends(
            *old(enc),
            *final(enc),
        ) && final(enc).commands@.len() == old(enc).commands@.len() + 1
            && final(enc).commands@.last() == (Command::SetThreadgroupMemory { index, length }),
        call_ensures(KernelEncoder::dispatch, (enc, threadgroups, threads), ()) ==> extends(
            *old(enc),
            *final(enc),
        ) && final(enc).commands@.len() == old(enc).commands@.len() + 1
            && final(enc).commands@.last() == (Command::Dispatch { threadgroups, threads }),
{
    let pre = *old(enc);
    let post = *final(enc);
    if post.concurrent == pre.concurrent {
        if post@ == pre@.push(Step::Pipeline(pipeline.name@)) {
            lemma_added(pre, post, Step::Pipeline(pipeline.name@));
        }
        if post@ == pre@.push(Step::Bytes(index as int, args@)) {
            lemma_added(pre, post, Step::Bytes(index as int, args@));
        }
        if post@ == pre@.push(Step::Tensor(index as int, binding)) {
            lemma_added(pre, post, Step::Tensor(index as int, binding));
        }
        if post@ == pre@.push(Step::Threadgroup(index as int, length)) {
            lemma_added(pre, post, Step::Threadgroup(index as int, length));
        }
        if post@ == pre@.push(Step::Dispatch(threadgroups, threads)) {
            lemma_added(pre, post, Step::Dispatch(threadgroups, threads));
        }
    }
}

/// An encoder starts empty, in order or concurrent as it was asked to, says which it is,
/// and hands out its commands as they are.
pub proof fn law_encoders_start_empty(
    ordered: KernelEncoder,
    concurrent: KernelEncoder,
    enc: KernelEncoder,
    is_concurrent: bool,
    commands: Vec<Command>,
)
    requires
        call_ensures(KernelEncoder::begin, (), ordered),
        call_ensures(KernelEncoder::begin_concurrent, (), concurrent),
        call_ensures(KernelEncoder::is_concurrent, (&enc,), is_concurrent),
        call_ensures(KernelEncoder::end, (enc,), commands),
    ensures
        ordered.commands@.len() == 0 && !ordered.concurrent,
        concurrent.commands@.len() == 0 && concurrent.concurrent,
        is_concurrent == enc.concurrent,
        commands@ == enc.commands@,
{
    assert(ordered@.len() == ordered.commands@.len());
    assert(concurrent@.len() == concurrent.commands@.len());
}

} // verus!
