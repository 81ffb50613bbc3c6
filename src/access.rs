//! Access descriptors for images and buffers, and the registry that turns
//! two consecutive usages of one resource into the barrier between them.
use vstd::prelude::*;

verus! {

/// Pipeline stage bit: transfer operations.
pub const STAGE_TRANSFER: u32 = 0x1000;
/// Pipeline stage bit: fragment shader.
pub const STAGE_FRAGMENT_SHADER: u32 = 0x80;

/// Access bit: read by a transfer operation.
pub const ACCESS_TRANSFER_READ: u32 = 0x800;
/// Access bit: written by a transfer operation.
pub const ACCESS_TRANSFER_WRITE: u32 = 0x1000;
/// Access bit: read by a shader.
pub const ACCESS_SHADER_READ: u32 = 0x20;

/// Usage bit: the image may be the source of a transfer.
pub const USAGE_TRANSFER_SRC: u32 = 0x1;

/// Layout of an image's memory.
#[derive(Clone, Copy, Debug, PartialEq, Eq, Structural)]
pub enum ImageLayout {
    Undefined,
    General,
    ColorAttachmentOptimal,
    DepthStencilAttachmentOptimal,
    ShaderReadOnlyOptimal,
    TransferSrcOptimal,
    TransferDstOptimal,
    Present,
}

/// How a node uses an image: stages, access mask, layout and usage flags.
#[derive(Clone, Copy, Debug, PartialEq, Eq, Structural)]
pub struct ImageAccess {
    pub access: u32,
    pub layout: ImageLayout,
    pub usage: u32,
    pub stages: u32,
}

/// How a node uses a buffer: stages, access mask and usage flags.
#[derive(Clone, Copy, Debug, PartialEq, Eq, Structural)]
pub struct BufferAccess {
    pub access: u32,
    pub usage: u32,
    pub stages: u32,
}

/// The state of an image that a barrier moves from or to.
#[derive(Clone, Copy, Debug, PartialEq, Eq, Structural)]
pub struct ImageState {
    pub family: u32,
    pub stage: u32,
    pub access: u32,
    pub layout: ImageLayout,
}

/// A half-open range of mip levels and of array layers.
#[derive(Clone, Copy, Debug, PartialEq, Eq, Structural)]
pub struct SubresourceRange {
    pub level_start: u32,
    pub level_end: u32,
    pub layer_start: u32,
    pub layer_end: u32,
}

/// A pair of pipeline stage masks: the stages a barrier waits on and the
/// stages it blocks.
#[derive(Clone, Copy, Debug, PartialEq, Eq, Structural)]
pub struct StageRange {
    pub start: u32,
    pub end: u32,
}

/// A hand-over of a resource from one queue family to another.
#[derive(Clone, Copy, Debug, PartialEq, Eq, Structural)]
pub struct FamilyTransfer {
    pub src: u32,
    pub dst: u32,
}

/// A transition of one subresource range between two states. `families`
/// is set when the queue family changes hands.
#[derive(Clone, Copy, Debug, PartialEq, Eq, Structural)]
pub struct Barrier {
    pub before: ImageState,
    pub after: ImageState,
    pub families: Option<FamilyTransfer>,
    pub range: SubresourceRange,
}

/// One declared usage of a resource: the state it needs and the part of
/// it that is touched.
#[derive(Clone, Copy, Debug, PartialEq, Eq, Structural)]
pub struct Usage {
    pub state: ImageState,
    pub range: SubresourceRange,
}

pub open spec fn min_u32(a: u32, b: u32) -> u32 {
    if a <= b { a } else { b }
}

pub open spec fn max_u32(a: u32, b: u32) -> u32 {
    if a >= b { a } else { b }
}

impl SubresourceRange {
    pub open spec fn wf(self) -> bool {
        self.level_start <= self.level_end && self.layer_start <= self.layer_end
    }

    /// Whether the range holds mip level `level` of array layer `layer`.
    pub open spec fn holds(self, level: int, layer: int) -> bool {
        self.level_start <= level < self.level_end && self.layer_start <= layer < self.layer_end
    }

    /// The smallest range that holds both ranges.
    pub open spec fn span_spec(self, o: SubresourceRange) -> SubresourceRange {
        SubresourceRange {
            level_start: min_u32(self.level_start, o.level_start),
            level_end: max_u32(self.level_end, o.level_end),
            layer_start: min_u32(self.layer_start, o.layer_start),
            layer_end: max_u32(self.layer_end, o.layer_end),
        }
    }

    /// The smallest range that holds both ranges.
    pub fn span(&self, o: &SubresourceRange) -> (r: SubresourceRange)
        ensures
            r == self.span_spec(*o),
    {
        SubresourceRange {
            level_start: if self.level_start <= o.level_start { self.level_start } else { o.level_start },
            level_end: if self.level_end >= o.level_end { self.level_end } else { o.level_end },
            layer_start: if self.layer_start <= o.layer_start { self.layer_start } else { o.layer_start },
            layer_end: if self.layer_end >= o.layer_end { self.layer_end } else { o.layer_end },
        }
    }
}

/// The barriers needed between a previous usage and the next one: none
/// when the two states agree, else one over the span of both ranges.
pub open spec fn transition_spec(prev: Usage, next: Usage) -> Seq<Barrier> {
    if prev.state == next.state {
        Seq::empty()
    } else {
        seq![Barrier {
            before: prev.state,
            after: next.state,
            families: if prev.state.family == next.state.family { None } else {
                Some(FamilyTransfer { src: prev.state.family, dst: next.state.family })
            },
            range: prev.range.span_spec(next.range),
        }]
    }
}

/// Diffs a resource's previous usage against the next one. The stage range
/// goes from the stages of the previous usage to those of the next.
pub fn declare_usage(prev: &Usage, next: &Usage) -> (r: (StageRange, Vec<Barrier>))
    ensures
        r.0 == (StageRange { start: prev.state.stage, end: next.state.stage }),
        r.1@ == transition_spec(*prev, *next),
{
    let stages = StageRange { start: prev.state.stage, end: next.state.stage };
    let mut barriers: Vec<Barrier> = Vec::new();
    if prev.state != next.state {
        let families = if prev.state.family == next.state.family {
            None
        } else {
            Some(FamilyTransfer { src: prev.state.family, dst: next.state.family })
        };
        barriers.push(Barrier {
            before: prev.state,
            after: next.state,
            families,
            range: prev.range.span(&next.range),
        });
    }
    proof {
        assert(barriers@ =~= transition_spec(*prev, *next));
    }
    (stages, barriers)
}

/// Every subresource that either usage touches lies in the barrier's range,
/// and each bound of that range is a bound of one of the two usages: for two
/// consecutive usages of one resource, identical states give no barrier and
/// differing states give exactly one, over the span of both ranges.
pub proof fn lemma_one_barrier_per_transition(prev: Usage, next: Usage)
    ensures
        prev.state == next.state ==> transition_spec(prev, next).len() == 0,
        prev.state != next.state ==> {
            let b = transition_spec(prev, next);
            &&& b.len() == 1
            &&& b[0].before == prev.state
            &&& b[0].after == next.state
            &&& b[0].range == prev.range.span_spec(next.range)
            &&& forall|level: int, layer: int|
                (prev.range.holds(level, layer) || next.range.holds(level, layer))
                    ==> #[trigger] b[0].range.holds(level, layer)
            &&& (b[0].range.level_start == prev.range.level_start
                || b[0].range.level_start == next.range.level_start)
            &&& (b[0].range.level_end == prev.range.level_end
                || b[0].range.level_end == next.range.level_end)
            &&& (b[0].range.layer_start == prev.range.layer_start
                || b[0].range.layer_start == next.range.layer_start)
            &&& (b[0].range.layer_end == prev.range.layer_end
                || b[0].range.layer_end == next.range.layer_end)
        },
{
}

/// The last recorded usage of each logical resource, indexed by handle.
pub struct Registry {
    last: Vec<Option<Usage>>,
}

impl Registry {
    pub closed spec fn view(&self) -> Seq<Option<Usage>> {
        self.last@
    }

    /// A registry for `count` resources, none of them used yet.
    pub fn new(count: usize) -> (r: Registry)
        ensures
            r@ == Seq::new(count as nat, |i: int| None::<Usage>),
    {
        let mut last: Vec<Option<Usage>> = Vec::new();
        let mut i: usize = 0;
        while i < count
            invariant
                i <= count,
                last@ == Seq::new(i as nat, |j: int| None::<Usage>),
            decreases count - i,
        {
            last.push(None);
            i = i + 1;
            proof {
                assert(last@ =~= Seq::new(i as nat, |j: int| None::<Usage>));
            }
        }
        Registry { last }
    }

    /// Number of resources tracked.
    pub fn len(&self) -> (r: usize)
        ensures
            r == self@.len(),
    {
        self.last.len()
    }

    /// The barriers a node needs before it uses resource `handle` as `next`:
    /// the transition from the last recorded usage, or none if the resource
    /// has not been used yet.
    pub fn acquire(&self, handle: usize, next: &Usage) -> (r: (StageRange, Vec<Barrier>))
        requires
            handle < self@.len(),
        ensures
            match self@[handle as int] {
                Some(prev) => r.0 == (StageRange { start: prev.state.stage, end: next.state.stage })
                    && r.1@ == transition_spec(prev, *next),
                None => r.0 == (StageRange { start: next.state.stage, end: next.state.stage })
                    && r.1@.len() == 0,
            },
    {
        match &self.last[handle] {
            Some(prev) => declare_usage(prev, next),
            None => (StageRange { start: next.state.stage, end: next.state.stage }, Vec::new()),
        }
    }

    /// Records `usage` as the last usage of resource `handle`, once the node
    /// that declared it has released it.
    pub fn release(&mut self, handle: usize, usage: &Usage)
        requires
            handle < old(self)@.len(),
        ensures
            final(self)@ == old(self)@.update(handle as int, Some(*usage)),
    {
        self.last.set(handle, Some(*usage));
    }
}

} // verus!
