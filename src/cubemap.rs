//! The cubemap assembly node: copies face images into the six layers of a
//! cube image, then either takes the explicit mip levels it was given or
//! generates the remaining levels by a chain of blits.
use vstd::prelude::*;
use vstd::arithmetic::div_mod::lemma_fundamental_div_mod_converse;
use crate::access::{
    Barrier, ImageLayout, ImageState, StageRange, SubresourceRange, ACCESS_TRANSFER_READ,
    ACCESS_TRANSFER_WRITE, STAGE_TRANSFER, USAGE_TRANSFER_SRC, ImageAccess, BufferAccess,
};

verus! {

/// Number of faces of a cube, and of array layers of a cube image.
pub const CUBE_FACES: u32 = 6;

/// Logical image handle of the render graph.
#[derive(Clone, Copy, Debug, PartialEq, Eq, Structural)]
pub struct ImageId(pub usize);

/// Logical buffer handle of the render graph.
#[derive(Clone, Copy, Debug, PartialEq, Eq, Structural)]
pub struct BufferId(pub usize);

/// Node handle of the render graph.
#[derive(Clone, Copy, Debug, PartialEq, Eq, Structural)]
pub struct NodeId(pub usize);

/// Where the mip levels of the cube come from.
#[derive(Clone, Copy, Debug, PartialEq, Eq, Structural)]
pub enum CopyMips {
    /// One face strip is given; the other levels are generated by blits.
    GenerateMips,
    /// One face strip is given per level, for this many levels.
    CopyMips(u8),
}

/// What a queue family can do.
#[derive(Clone, Copy, Debug, PartialEq, Eq, Structural)]
pub struct QueueFamily {
    pub id: u32,
    pub graphics: bool,
    pub compute: bool,
    pub transfer: bool,
}

/// A transition that the graph planned for one of a node's images.
#[derive(Clone, Copy, Debug, PartialEq, Eq, Structural)]
pub struct ImageTransition {
    pub stages: StageRange,
    pub barrier: Barrier,
}

/// An image bound to a node for one build: its handle, its extent, the
/// layout it is in while the node runs, and the transitions planned for it
/// before and after the node.
#[derive(Clone, Copy, Debug, PartialEq, Eq, Structural)]
pub struct NodeImage {
    pub id: ImageId,
    pub width: u32,
    pub height: u32,
    pub layout: ImageLayout,
    pub acquire: Option<ImageTransition>,
    pub release: Option<ImageTransition>,
}

/// The cube image the faces are assembled into.
#[derive(Clone, Copy, Debug, PartialEq, Eq, Structural)]
pub struct CubeTarget {
    pub width: u32,
    pub height: u32,
}

/// One copy of a horizontal strip of a source image into one layer of one
/// mip level of the cube.
#[derive(Clone, Copy, Debug, PartialEq, Eq, Structural)]
pub struct ImageCopy {
    pub src: ImageId,
    pub src_layout: ImageLayout,
    pub src_y: u32,
    pub dst_level: u32,
    pub dst_layer: u32,
    pub width: u32,
    pub height: u32,
}

/// One linear-filtered blit of all six layers of one mip level into the next.
#[derive(Clone, Copy, Debug, PartialEq, Eq, Structural)]
pub struct BlitRegion {
    pub src_level: u32,
    pub dst_level: u32,
    pub src_width: u32,
    pub src_height: u32,
    pub dst_width: u32,
    pub dst_height: u32,
    pub layer_start: u32,
    pub layer_end: u32,
}

/// A pipeline barrier: its stage range and the barriers it holds.
#[derive(Debug)]
pub struct BarrierBatch {
    pub stages: StageRange,
    pub barriers: Vec<Barrier>,
}

/// Why a node could not be built.
#[derive(Clone, Copy, Debug, PartialEq, Eq, Structural)]
pub enum NodeBuildError {
    /// The node declares no buffers, yet some were bound.
    UnexpectedBuffers,
    /// The number of face images does not match the mip levels requested.
    FaceCountMismatch,
    /// The number of bound images does not match the declared faces.
    ImageCountMismatch,
    /// A descriptor-set layout other than the one expected was given.
    LayoutMismatch,
    /// No cubemap is bound for the pipeline to sample.
    MissingCubemap,
}

/// A cube face strip of height `h` holds six faces of height `h / 6`;
/// face `layer` starts at row `(h / 6) * layer`.
pub open spec fn face_copy(img: NodeImage, level: int, layer: int) -> ImageCopy {
    ImageCopy {
        src: img.id,
        src_layout: img.layout,
        src_y: ((img.height / 6) * layer) as u32,
        dst_level: level as u32,
        dst_layer: layer as u32,
        width: img.width,
        height: img.height / 6,
    }
}

/// The copies for all images, level by level, six faces per level.
pub open spec fn face_copies(images: Seq<NodeImage>) -> Seq<ImageCopy> {
    Seq::new((6 * images.len()) as nat, |k: int| face_copy(images[k / 6], k / 6, k % 6))
}

/// The six copies of one face strip into mip level `level`.
pub fn copy_faces(img: &NodeImage, level: u32) -> (r: Vec<ImageCopy>)
    ensures
        r@ == Seq::new(6, |l: int| face_copy(*img, level as int, l)),
{
    let layer_height = img.height / 6;
    let mut r: Vec<ImageCopy> = Vec::new();
    let mut layer: u32 = 0;
    while layer < CUBE_FACES
        invariant
            layer <= 6,
            layer_height == img.height / 6,
            r@ == Seq::new(layer as nat, |l: int| face_copy(*img, level as int, l)),
        decreases 6 - layer,
    {
        assert(layer_height * layer <= img.height) by (nonlinear_arith)
            requires layer_height == img.height / 6, layer < 6;
        r.push(ImageCopy {
            src: img.id,
            src_layout: img.layout,
            src_y: layer_height * layer,
            dst_level: level,
            dst_layer: layer,
            width: img.width,
            height: layer_height,
        });
        layer = layer + 1;
        proof {
            assert(r@ =~= Seq::new(layer as nat, |l: int| face_copy(*img, level as int, l)));
        }
    }
    r
}

/// The copies of every face strip, the strip at index `m` into mip level `m`.
pub fn copy_regions(images: &Vec<NodeImage>) -> (r: Vec<ImageCopy>)
    requires
        images@.len() <= u32::MAX,
    ensures
        r@ == face_copies(images@),
{
    let mut r: Vec<ImageCopy> = Vec::new();
    let mut m: usize = 0;
    while m < images.len()
        invariant
            m <= images@.len() <= u32::MAX,
            r@ == face_copies(images@.take(m as int)),
        decreases images@.len() - m,
    {
        let level = copy_faces(&images[m], m as u32);
        let ghost before = r@;
        let mut i: usize = 0;
        while i < level.len()
            invariant
                level@ == Seq::new(6, |l: int| face_copy(images@[m as int], m as int, l)),
                i <= 6,
                r@ == before + level@.take(i as int),
            decreases 6 - i,
        {
            r.push(level[i]);
            i = i + 1;
            proof {
                assert(r@ =~= before + level@.take(i as int));
            }
        }
        proof {
            let next = images@.take(m + 1);
            assert forall|k: int| 0 <= k < 6 * (m + 1) implies #[trigger] r@[k] == face_copies(next)[k] by {
                let q = k / 6;
                let l = k % 6;
                assert(k == q * 6 + l && 0 <= l < 6);
                if k < 6 * m {
                    assert(q < m) by (nonlinear_arith)
                        requires k == q * 6 + l, 0 <= l < 6, k < 6 * m;
                    assert(images@.take(m as int)[q] == next[q]);
                } else {
                    lemma_fundamental_div_mod_converse(k, 6, m as int, k - 6 * m);
                }
            }
            assert(r@ =~= face_copies(next));
        }
        m = m + 1;
    }
    proof {
        assert(images@.take(m as int) =~= images@);
    }
    r
}

/// Each face of a strip of height `6h`, and only that face, covers the
/// rows `[i * h, (i + 1) * h)` of the source: the six copies are disjoint,
/// lie within the strip, and cover it exactly; face `i` goes to layer `i`.
pub proof fn lemma_faces_partition_strip(img: NodeImage, level: int, y: int)
    requires
        img.height % 6 == 0,
        0 <= level,
    ensures
        forall|i: int| 0 <= i < 6 ==> {
            let c = #[trigger] face_copy(img, level, i);
            &&& c.src_y == i * (img.height / 6)
            &&& c.height == img.height / 6
            &&& c.width == img.width
            &&& c.dst_layer == i
            &&& c.src_y + c.height <= img.height
        },
        0 <= y < img.height ==> exists|i: int| 0 <= i < 6 && {
            let c = #[trigger] face_copy(img, level, i);
            c.src_y <= y < c.src_y + c.height
        },
        forall|i: int, j: int| 0 <= i < j < 6 ==> {
            let a = #[trigger] face_copy(img, level, i);
            let b = #[trigger] face_copy(img, level, j);
            a.src_y + a.height <= b.src_y
        },
{
    let h: int = img.height as int / 6;
    assert(img.height == 6 * h);
    assert forall|i: int| 0 <= i < 6 implies {
        let c = #[trigger] face_copy(img, level, i);
        &&& c.src_y == i * h
        &&& c.height == h
        &&& c.width == img.width
        &&& c.dst_layer == i
        &&& c.src_y + c.height <= img.height
    } by {
        assert(0 <= h * i && h * i + h <= 6 * h) by (nonlinear_arith)
            requires 0 <= i < 6, h >= 0;
        assert(h * i == i * h) by (nonlinear_arith);
    }
    assert forall|i: int, j: int| 0 <= i < j < 6 implies {
        let a = #[trigger] face_copy(img, level, i);
        let b = #[trigger] face_copy(img, level, j);
        a.src_y + a.height <= b.src_y
    } by {
        assert(h * i + h <= h * j) by (nonlinear_arith)
            requires 0 <= i < j, h >= 0;
        assert(0 <= h * i && h * j <= 6 * h) by (nonlinear_arith)
            requires 0 <= i < j < 6, h >= 0;
    }
    if 0 <= y < img.height {
        let i = y / h;
        assert(h > 0);
        assert(0 <= i < 6 && h * i <= y < h * i + h) by (nonlinear_arith)
            requires i == y / h, h > 0, 0 <= y < 6 * h;
        assert(h * i <= 6 * h) by (nonlinear_arith)
            requires 0 <= i < 6, h >= 0;
        let c = face_copy(img, level, i);
        assert(c.src_y <= y < c.src_y + c.height);
    }
}

/// `floor(log2(n))`, with 0 for `n <= 1`.
pub open spec fn log2_floor(n: nat) -> nat
    decreases n,
{
    if n <= 1 { 0 } else { 1 + log2_floor(n / 2) }
}

/// The next mip dimension: half, but never below one.
pub open spec fn halve(n: nat) -> nat {
    if n <= 1 { 1 } else { n / 2 }
}

/// A dimension of `n` texels at mip level `k`.
pub open spec fn mip_dim(n: nat, k: nat) -> nat
    decreases k,
{
    if k == 0 { n } else { halve(mip_dim(n, (k - 1) as nat)) }
}

/// The number of levels of a full mip chain for a `w` by `h` image.
pub open spec fn mip_levels_spec(w: nat, h: nat) -> nat {
    log2_floor(if w >= h { w } else { h }) + 1
}

/// The blit that fills level `k + 1` from level `k`.
pub open spec fn mip_blit(w: nat, h: nat, k: nat) -> BlitRegion {
    BlitRegion {
        src_level: k as u32,
        dst_level: (k + 1) as u32,
        src_width: mip_dim(w, k) as u32,
        src_height: mip_dim(h, k) as u32,
        dst_width: mip_dim(w, k + 1) as u32,
        dst_height: mip_dim(h, k + 1) as u32,
        layer_start: 0,
        layer_end: 6,
    }
}

/// The blits that fill every level below the base, each from the level above.
pub open spec fn mip_blits(w: nat, h: nat) -> Seq<BlitRegion> {
    Seq::new((mip_levels_spec(w, h) - 1) as nat, |k: int| mip_blit(w, h, k as nat))
}

proof fn lemma_log2_bound(n: nat)
    ensures
        log2_floor(n) <= n,
        n >= 1 ==> log2_floor(n) < n,
    decreases n,
{
    if n > 1 {
        lemma_log2_bound(n / 2);
    }
}

proof fn lemma_mip_dim_bounds(n: nat, k: nat)
    ensures
        mip_dim(n, k) <= n || mip_dim(n, k) == 1,
        k >= 1 ==> mip_dim(n, k) >= 1,
        n >= 1 ==> mip_dim(n, k) >= 1,
    decreases k,
{
    if k > 0 {
        lemma_mip_dim_bounds(n, (k - 1) as nat);
    }
}

proof fn lemma_mip_dim_shift(n: nat, k: nat)
    ensures
        mip_dim(n, k + 1) == mip_dim(halve(n), k),
    decreases k,
{
    if k > 0 {
        lemma_mip_dim_shift(n, (k - 1) as nat);
        assert(mip_dim(n, k + 1) == halve(mip_dim(n, k)));
        assert(mip_dim(halve(n), k) == halve(mip_dim(halve(n), (k - 1) as nat)));
    } else {
        assert(mip_dim(n, 1) == halve(mip_dim(n, 0)));
    }
}

proof fn lemma_mip_dim_monotone(a: nat, b: nat, k: nat)
    requires
        a <= b,
    ensures
        mip_dim(a, k) <= mip_dim(b, k),
    decreases k,
{
    if k > 0 {
        lemma_mip_dim_monotone(a, b, (k - 1) as nat);
    }
}

proof fn lemma_mip_dim_reaches_one(n: nat)
    requires
        n >= 1,
    ensures
        mip_dim(n, log2_floor(n)) == 1,
    decreases n,
{
    if n > 1 {
        lemma_mip_dim_reaches_one(n / 2);
        lemma_mip_dim_shift(n, log2_floor(n / 2));
    }
}

/// A full mip chain of a `w` by `h` image has `floor(log2(max(w, h))) + 1`
/// levels; each blit fills level `k + 1` from level `k`, whose dimensions
/// it halves (never below one), over all six layers; and the last level is
/// one texel by one.
pub proof fn lemma_mip_chain(w: nat, h: nat)
    requires
        1 <= w <= u32::MAX,
        1 <= h <= u32::MAX,
    ensures
        mip_blits(w, h).len() + 1 == mip_levels_spec(w, h),
        mip_levels_spec(w, h) == log2_floor(if w >= h { w } else { h }) + 1,
        forall|k: int| 0 <= k < mip_blits(w, h).len() ==> {
            let b = #[trigger] mip_blits(w, h)[k];
            &&& b.src_level == k
            &&& b.dst_level == k + 1
            &&& b.dst_width == halve(b.src_width as nat)
            &&& b.dst_height == halve(b.src_height as nat)
            &&& b.layer_start == 0
            &&& b.layer_end == 6
        },
        mip_dim(w, (mip_levels_spec(w, h) - 1) as nat) == 1,
        mip_dim(h, (mip_levels_spec(w, h) - 1) as nat) == 1,
{
    let m = if w >= h { w } else { h };
    let last = log2_floor(m);
    lemma_log2_bound(m);
    assert forall|k: int| 0 <= k < mip_blits(w, h).len() implies {
        let b = #[trigger] mip_blits(w, h)[k];
        &&& b.src_level == k
        &&& b.dst_level == k + 1
        &&& b.dst_width == halve(b.src_width as nat)
        &&& b.dst_height == halve(b.src_height as nat)
        &&& b.layer_start == 0
        &&& b.layer_end == 6
    } by {
        lemma_mip_dim_bounds(w, k as nat);
        lemma_mip_dim_bounds(h, k as nat);
        lemma_mip_dim_bounds(w, (k + 1) as nat);
        lemma_mip_dim_bounds(h, (k + 1) as nat);
    }
    lemma_mip_dim_reaches_one(m);
    lemma_mip_dim_monotone(w, m, last);
    lemma_mip_dim_monotone(h, m, last);
    lemma_mip_dim_bounds(w, last);
    lemma_mip_dim_bounds(h, last);
}

/// The number of levels of a full mip chain for a `width` by `height` image.
pub fn mip_level_count(width: u32, height: u32) -> (r: u32)
    ensures
        r == mip_levels_spec(width as nat, height as nat),
{
    let mut n: u32 = if width >= height { width } else { height };
    let ghost m: nat = n as nat;
    let mut r: u32 = 1;
    proof {
        lemma_log2_bound(m);
    }
    while n > 1
        invariant
            r as nat + log2_floor(n as nat) == log2_floor(m) + 1,
            log2_floor(m) <= m <= u32::MAX,
            m >= 1 ==> log2_floor(m) < m,
            n <= m,
        decreases n,
    {
        n = n / 2;
        r = r + 1;
    }
    r
}

/// The blits that generate every level of a `width` by `height` cube image
/// below its base level, each level from the one above it.
pub fn mip_blit_chain(width: u32, height: u32) -> (r: Vec<BlitRegion>)
    ensures
        r@ == mip_blits(width as nat, height as nat),
{
    let levels = mip_level_count(width, height);
    let ghost gw: nat = width as nat;
    let ghost gh: nat = height as nat;
    let mut r: Vec<BlitRegion> = Vec::new();
    let mut w: u32 = width;
    let mut h: u32 = height;
    let mut k: u32 = 0;
    while k + 1 < levels
        invariant
            levels == mip_levels_spec(gw, gh),
            gw == width as nat,
            gh == height as nat,
            k < levels,
            w as nat == mip_dim(gw, k as nat),
            h as nat == mip_dim(gh, k as nat),
            r@ == Seq::new(k as nat, |i: int| mip_blit(gw, gh, i as nat)),
        decreases levels - k,
    {
        proof {
            lemma_mip_dim_bounds(gw, k as nat);
            lemma_mip_dim_bounds(gw, (k + 1) as nat);
            lemma_mip_dim_bounds(gh, k as nat);
            lemma_mip_dim_bounds(gh, (k + 1) as nat);
        }
        let nw: u32 = if w <= 1 { 1 } else { w / 2 };
        let nh: u32 = if h <= 1 { 1 } else { h / 2 };
        r.push(BlitRegion {
            src_level: k,
            dst_level: k + 1,
            src_width: w,
            src_height: h,
            dst_width: nw,
            dst_height: nh,
            layer_start: 0,
            layer_end: CUBE_FACES,
        });
        w = nw;
        h = nh;
        k = k + 1;
        proof {
            assert(r@ =~= Seq::new(k as nat, |i: int| mip_blit(gw, gh, i as nat)));
        }
    }
    proof {
        assert(r@ =~= mip_blits(gw, gh));
    }
    r
}

/// The pipeline stages of every planned transition, or-ed together.
pub open spec fn stage_union(ts: Seq<Option<ImageTransition>>) -> StageRange
    decreases ts.len(),
{
    if ts.len() == 0 {
        StageRange { start: 0, end: 0 }
    } else {
        let p = stage_union(ts.drop_last());
        match ts.last() {
            Some(t) => StageRange { start: p.start | t.stages.start, end: p.end | t.stages.end },
            None => p,
        }
    }
}

/// The barriers of every planned transition, in order.
pub open spec fn barriers_of(ts: Seq<Option<ImageTransition>>) -> Seq<Barrier>
    decreases ts.len(),
{
    if ts.len() == 0 {
        Seq::empty()
    } else {
        let p = barriers_of(ts.drop_last());
        match ts.last() {
            Some(t) => p.push(t.barrier),
            None => p,
        }
    }
}

pub open spec fn acquires(images: Seq<NodeImage>) -> Seq<Option<ImageTransition>> {
    images.map_values(|i: NodeImage| i.acquire)
}

pub open spec fn releases(images: Seq<NodeImage>) -> Seq<Option<ImageTransition>> {
    images.map_values(|i: NodeImage| i.release)
}

/// Gathers the transitions planned for a node's images into one pipeline
/// barrier.
pub fn gather_transitions(images: &Vec<NodeImage>, before: bool) -> (r: BarrierBatch)
    ensures
        r.stages == stage_union(if before { acquires(images@) } else { releases(images@) }),
        r.barriers@ == barriers_of(if before { acquires(images@) } else { releases(images@) }),
{
    let ghost ts = if before { acquires(images@) } else { releases(images@) };
    let mut stages = StageRange { start: 0, end: 0 };
    let mut barriers: Vec<Barrier> = Vec::new();
    let mut i: usize = 0;
    while i < images.len()
        invariant
            i <= images@.len(),
            ts == (if before { acquires(images@) } else { releases(images@) }),
            stages == stage_union(ts.take(i as int)),
            barriers@ == barriers_of(ts.take(i as int)),
        decreases images@.len() - i,
    {
        let t = if before { images[i].acquire } else { images[i].release };
        proof {
            assert(ts.take(i + 1).drop_last() =~= ts.take(i as int));
            assert(ts.take(i + 1).last() == t);
        }
        match t {
            Some(t) => {
                stages = StageRange { start: stages.start | t.stages.start, end: stages.end | t.stages.end };
                barriers.push(t.barrier);
            },
            None => {},
        }
        i = i + 1;
    }
    proof {
        assert(ts.take(i as int) =~= ts);
    }
    BarrierBatch { stages, barriers }
}

/// The state in which a face image is read by the copies.
pub open spec fn face_access_spec() -> ImageAccess {
    ImageAccess {
        access: ACCESS_TRANSFER_READ,
        layout: ImageLayout::TransferSrcOptimal,
        usage: USAGE_TRANSFER_SRC,
        stages: STAGE_TRANSFER,
    }
}

/// The state in which the cube is left by the copies and blits.
pub open spec fn copied_state(family: u32) -> ImageState {
    ImageState {
        family,
        stage: STAGE_TRANSFER,
        access: ACCESS_TRANSFER_WRITE,
        layout: ImageLayout::TransferDstOptimal,
    }
}

/// The number of face images a builder needs for its mip mode.
pub open spec fn expected_faces(mips: CopyMips) -> int {
    match mips {
        CopyMips::CopyMips(n) => n as int,
        CopyMips::GenerateMips => 1,
    }
}

/// Resolves the cube image that a cubemap name stands for, and the state
/// it must be left in once assembled.
pub trait FacesToCubemapResource {
    fn get_cubemap(&self, name: &String) -> CubeTarget;

    fn cubemap_end_state(&self, name: &String) -> ImageState;
}

/// A cubemap assembly node with its commands recorded once, in order: the
/// acquire barrier, the copies, the blits, the release barrier.
#[derive(Debug)]
pub struct FacesToCubemap {
    pub family: u32,
    pub acquire: BarrierBatch,
    pub copies: Vec<ImageCopy>,
    pub blits: Vec<BlitRegion>,
    pub release: BarrierBatch,
}

/// Declares a cubemap assembly node before the graph is built.
#[derive(Debug)]
pub struct FacesToCubemapBuilder {
    pub faces: Vec<ImageId>,
    pub mips: CopyMips,
    pub cubemap_name: String,
    pub dependencies: Vec<NodeId>,
}

impl FacesToCubemap {
    /// A builder for a node that assembles `faces` into the cube named
    /// `cubemap_name`.
    pub fn builder(faces: Vec<ImageId>, cubemap_name: &str, mips: CopyMips) -> (r: FacesToCubemapBuilder)
        ensures
            r.faces@ == faces@,
            r.mips == mips,
            r.cubemap_name@ == cubemap_name@,
            r.dependencies@.len() == 0,
    {
        FacesToCubemapBuilder {
            faces,
            mips,
            cubemap_name: cubemap_name.to_string(),
            dependencies: Vec::new(),
        }
    }

    /// The node's recorded commands, as built from `images` for the cube
    /// `target`, to be left in `end_state`, on queue family `family`.
    pub open spec fn recorded(
        &self,
        mips: CopyMips,
        family: u32,
        images: Seq<NodeImage>,
        target: CubeTarget,
        end_state: ImageState,
    ) -> bool {
        &&& self.family == family
        &&& self.acquire.stages == stage_union(acquires(images))
        &&& self.acquire.barriers@ == barriers_of(acquires(images))
        &&& self.copies@ == face_copies(images)
        &&& self.blits@ == match mips {
            CopyMips::GenerateMips => mip_blits(target.width as nat, target.height as nat),
            CopyMips::CopyMips(_) => Seq::empty(),
        }
        &&& match mips {
            CopyMips::GenerateMips => {
                &&& self.release.stages == stage_union(releases(images))
                &&& self.release.barriers@ == barriers_of(releases(images))
            },
            CopyMips::CopyMips(levels) => {
                &&& self.release.stages == (StageRange {
                    start: stage_union(releases(images)).start | STAGE_TRANSFER,
                    end: stage_union(releases(images)).end | end_state.stage,
                })
                &&& self.release.barriers@ == barriers_of(releases(images)).push(Barrier {
                    before: copied_state(family),
                    after: end_state,
                    families: None,
                    range: SubresourceRange {
                        level_start: 0,
                        level_end: levels as u32,
                        layer_start: 0,
                        layer_end: 6,
                    },
                })
            },
        }
    }

    /// Records the node's commands; no check is made here.
    pub fn record(
        mips: CopyMips,
        family: u32,
        images: &Vec<NodeImage>,
        target: CubeTarget,
        end_state: ImageState,
    ) -> (r: FacesToCubemap)
        requires
            images@.len() <= u32::MAX,
        ensures
            r.recorded(mips, family, images@, target, end_state),
    {
        let acquire = gather_transitions(images, true);
        let copies = copy_regions(images);
        let blits = match mips {
            CopyMips::GenerateMips => mip_blit_chain(target.width, target.height),
            CopyMips::CopyMips(_) => Vec::new(),
        };
        let mut release = gather_transitions(images, false);
        match mips {
            CopyMips::CopyMips(levels) => {
                release.stages = StageRange {
                    start: release.stages.start | STAGE_TRANSFER,
                    end: release.stages.end | end_state.stage,
                };
                release.barriers.push(Barrier {
                    before: ImageState {
                        family,
                        stage: STAGE_TRANSFER,
                        access: ACCESS_TRANSFER_WRITE,
                        layout: ImageLayout::TransferDstOptimal,
                    },
                    after: end_state,
                    families: None,
                    range: SubresourceRange {
                        level_start: 0,
                        level_end: levels as u32,
                        layer_start: 0,
                        layer_end: CUBE_FACES,
                    },
                });
            },
            CopyMips::GenerateMips => {},
        }
        let r = FacesToCubemap { family, acquire, copies, blits, release };
        proof {
            match mips {
                CopyMips::CopyMips(_) => assert(r.blits@ =~= Seq::<BlitRegion>::empty()),
                CopyMips::GenerateMips => {},
            }
        }
        r
    }

    /// The queue family the node submits to.
    pub fn family_id(&self) -> (r: u32)
        ensures
            r == self.family,
    {
        self.family
    }
}

impl FacesToCubemapBuilder {
    /// Adds a node that must run before this one.
    pub fn add_dependency(&mut self, dependency: NodeId)
        ensures
            final(self).dependencies@ == old(self).dependencies@.push(dependency),
            final(self).faces@ == old(self).faces@,
            final(self).mips == old(self).mips,
            final(self).cubemap_name@ == old(self).cubemap_name@,
    {
        self.dependencies.push(dependency);
    }

    /// Adds a node that must run before this one.
    pub fn with_dependency(self, dependency: NodeId) -> (r: Self)
        ensures
            r.dependencies@ == self.dependencies@.push(dependency),
            r.faces@ == self.faces@,
            r.mips == self.mips,
            r.cubemap_name@ == self.cubemap_name@,
    {
        let mut b = self;
        b.add_dependency(dependency);
        b
    }

    /// The first queue family that supports transfers.
    pub fn family(&self, families: &Vec<QueueFamily>) -> (r: Option<u32>)
        ensures
            match r {
                None => forall|i: int| 0 <= i < families@.len() ==> !(#[trigger] families@[i]).transfer,
                Some(id) => exists|i: int| 0 <= i < families@.len() && {
                    &&& (#[trigger] families@[i]).transfer
                    &&& families@[i].id == id
                    &&& forall|j: int| 0 <= j < i ==> !(#[trigger] families@[j]).transfer
                },
            },
    {
        let mut i: usize = 0;
        while i < families.len()
            invariant
                i <= families@.len(),
                forall|j: int| 0 <= j < i ==> !(#[trigger] families@[j]).transfer,
            decreases families@.len() - i,
        {
            if families[i].transfer {
                return Some(families[i].id);
            }
            i = i + 1;
        }
        None
    }

    /// The node uses no buffers.
    pub fn buffers(&self) -> (r: Vec<(BufferId, BufferAccess)>)
        ensures
            r@.len() == 0,
    {
        Vec::new()
    }

    /// Every face image, read as a transfer source.
    pub fn images(&self) -> (r: Vec<(ImageId, ImageAccess)>)
        ensures
            r@ == self.faces@.map_values(|f: ImageId| (f, face_access_spec())),
    {
        let mut r: Vec<(ImageId, ImageAccess)> = Vec::new();
        let mut i: usize = 0;
        while i < self.faces.len()
            invariant
                i <= self.faces@.len(),
                r@ == self.faces@.take(i as int).map_values(|f: ImageId| (f, face_access_spec())),
            decreases self.faces@.len() - i,
        {
            r.push((self.faces[i], ImageAccess {
                access: ACCESS_TRANSFER_READ,
                layout: ImageLayout::TransferSrcOptimal,
                usage: USAGE_TRANSFER_SRC,
                stages: STAGE_TRANSFER,
            }));
            i = i + 1;
            proof {
                assert(r@ =~= self.faces@.take(i as int).map_values(|f: ImageId| (f, face_access_spec())));
            }
        }
        proof {
            assert(self.faces@.take(i as int) =~= self.faces@);
        }
        r
    }

    /// The nodes that must run before this one.
    pub fn dependencies(&self) -> (r: Vec<NodeId>)
        ensures
            r@ == self.dependencies@,
    {
        self.dependencies.clone()
    }

    /// The error that `build` gives for these bound resources, if any. The
    /// checks come in order: no buffers, as many faces as the mip mode asks
    /// for, and one bound image per face.
    pub open spec fn build_error(&self, n_buffers: int, n_images: int) -> Option<NodeBuildError> {
        if n_buffers != 0 {
            Some(NodeBuildError::UnexpectedBuffers)
        } else if self.faces@.len() != expected_faces(self.mips) {
            Some(NodeBuildError::FaceCountMismatch)
        } else if n_images != self.faces@.len() {
            Some(NodeBuildError::ImageCountMismatch)
        } else {
            None
        }
    }

    /// Builds the node on `family` from the bound resources: checks them
    /// before anything is recorded, then records the commands once for the
    /// cube and end state that `aux` gives for the cubemap's name.
    pub fn build<R: FacesToCubemapResource>(
        self,
        aux: &R,
        family: &QueueFamily,
        buffers: &Vec<BufferId>,
        images: &Vec<NodeImage>,
    ) -> (r: Result<FacesToCubemap, NodeBuildError>)
        ensures
            match self.build_error(buffers@.len() as int, images@.len() as int) {
                Some(e) => r == Err::<FacesToCubemap, NodeBuildError>(e),
                None => r is Ok && exists|t: CubeTarget, e: ImageState|
                    #[trigger] r->Ok_0.recorded(self.mips, family.id, images@, t, e),
            },
    {
        if buffers.len() != 0 {
            return Err(NodeBuildError::UnexpectedBuffers);
        }
        let expected: usize = match self.mips {
            CopyMips::CopyMips(n) => n as usize,
            CopyMips::GenerateMips => 1,
        };
        if self.faces.len() != expected {
            return Err(NodeBuildError::FaceCountMismatch);
        }
        if images.len() != self.faces.len() {
            return Err(NodeBuildError::ImageCountMismatch);
        }
        let target = aux.get_cubemap(&self.cubemap_name);
        let end_state = aux.cubemap_end_state(&self.cubemap_name);
        let node = FacesToCubemap::record(self.mips, family.id, images, target, end_state);
        let r: Result<FacesToCubemap, NodeBuildError> = Ok(node);
        assert(r->Ok_0.recorded(self.mips, family.id, images@, target, end_state));
        r
    }
}

/// When explicit mip levels are asked for and the number of face images
/// differs from them, the build fails, whatever is bound: the error is
/// returned before the cube is resolved or any command is recorded.
pub proof fn lemma_face_count_mismatch_fails(b: FacesToCubemapBuilder, n_buffers: int, n_images: int)
    requires
        b.mips is CopyMips,
        b.faces@.len() != b.mips->CopyMips_0,
    ensures
        b.build_error(n_buffers, n_images) is Some,
        n_buffers == 0 ==> b.build_error(n_buffers, n_images) == Some(NodeBuildError::FaceCountMismatch),
{
}

} // verus!
