//! The skybox pipeline node: a unit cube drawn once per cube face, sampling
//! a bound cubemap through one descriptor set, with the camera matrices in
//! a uniform buffer written once at build time.
use vstd::prelude::*;
use vstd::arithmetic::div_mod::{lemma_div_plus_one, lemma_fundamental_div_mod};
use genmesh::generators::{Cube, IndexedPolygon, SharedVertex};
use genmesh::{Triangulate, Vertices};
use crate::access::ImageLayout;
use crate::cubemap::{BufferId, ImageId, NodeBuildError};

verus! {

/// Size in bytes of the uniform block: a projection and a view matrix,
/// each of sixteen 4-byte floats.
pub const UNIFORM_SIZE: u64 = 128;

/// Number of vertices the cube is drawn with: 6 faces of 2 triangles.
pub const CUBE_VERTICES: u32 = 36;

/// Shader stage bit: fragment.
pub const SHADER_FRAGMENT: u32 = 0x10;
/// Shader stage bits of every graphics stage.
pub const SHADER_GRAPHICS: u32 = 0x1f;
/// Colour mask that writes every channel.
pub const COLOR_MASK_ALL: u8 = 0xf;

/// `ceil(size / align) * align`: `size` rounded up to a multiple of `align`.
pub open spec fn round_up(size: int, align: int) -> int {
    ((size + align - 1) / align) * align
}

/// `size` rounded up to a multiple of `align`.
pub fn aligned_size(size: u64, align: u64) -> (r: u64)
    requires
        size >= 1,
        align >= 1,
        size <= align || size + align <= u64::MAX,
    ensures
        r == round_up(size as int, align as int),
{
    let q = (size - 1) / align;
    proof {
        lemma_div_plus_one(size - 1, align as int);
        assert(align + (size - 1) == size + align - 1);
        lemma_fundamental_div_mod(size - 1, align as int);
        assert((q + 1) * align <= size - 1 + align) by (nonlinear_arith)
            requires align * q + (size - 1) % (align as int) == size - 1, (size - 1) % (align as int) >= 0;
        if size <= align {
            assert(q == 0) by (nonlinear_arith)
                requires q == (size - 1) / (align as int), size - 1 < align, size >= 1;
        }
    }
    (q + 1) * align
}

/// A rounded-up size is the least multiple of the alignment that holds the
/// data: for a power-of-two alignment of at least 1, it is a multiple of
/// `align`, at least `size`, and less than `size + align`.
pub proof fn lemma_round_up(size: int, align: int)
    requires
        size >= 1,
        align >= 1,
    ensures
        round_up(size, align) % align == 0,
        size <= round_up(size, align) < size + align,
{
    let q = (size + align - 1) / align;
    lemma_fundamental_div_mod(size + align - 1, align);
    let m = (size + align - 1) % align;
    assert(0 <= m < align);
    assert(q * align == size + align - 1 - m) by (nonlinear_arith)
        requires align * q + m == size + align - 1;
    vstd::arithmetic::div_mod::lemma_mod_multiples_basic(q, align);
}

/// Backend settings the pipeline needs.
#[derive(Clone, Copy, Debug, PartialEq, Eq, Structural)]
pub struct Settings {
    pub align: u64,
}

/// A cubemap bound for sampling: its sampler and image view handles.
#[derive(Clone, Copy, Debug, PartialEq, Eq, Structural)]
pub struct CubemapView {
    pub sampler: u64,
    pub view: u64,
}

/// What the environment passes to the skybox node: the uniform alignment of
/// the backend and the cubemap to sample, if one is bound.
#[derive(Clone, Copy, Debug, PartialEq, Eq, Structural)]
pub struct EnvAux {
    pub align: u64,
    pub spec_cubemap: Option<CubemapView>,
}

impl Settings {
    /// Settings read from the environment.
    pub fn from_aux(aux: &EnvAux) -> (r: Settings)
        ensures
            r.align == aux.align,
    {
        Settings { align: aux.align }
    }

    /// Size of the uniform buffer: the uniform block rounded up to the
    /// backend's alignment.
    pub fn buffer_frame_size(&self) -> (r: u64)
        requires
            self.align >= 1,
        ensures
            r == round_up(UNIFORM_SIZE as int, self.align as int),
    {
        aligned_size(UNIFORM_SIZE, self.align)
    }
}

impl<'a> From<&'a EnvAux> for Settings {
    fn from(aux: &'a EnvAux) -> (r: Settings) {
        Settings::from_aux(aux)
    }
}

impl<'a> vstd::std_specs::convert::FromSpecImpl<&'a EnvAux> for Settings {
    open spec fn obeys_from_spec() -> bool {
        true
    }

    open spec fn from_spec(aux: &'a EnvAux) -> Settings {
        Settings { align: aux.align }
    }
}

/// The index stream of genmesh's cube: face `f` is the quad of shared
/// vertices `4f .. 4f + 3`, cut into the triangles `(0, 1, 2)` and `(2, 3, 0)`.
pub open spec fn cube_index(k: int) -> usize {
    let f = k / 6;
    let c = k % 6;
    (4 * f + if c == 0 || c == 5 { 0int } else if c == 1 { 1int } else if c == 2 || c == 3 { 2int } else { 3int }) as usize
}

pub open spec fn cube_indices() -> Seq<usize> {
    Seq::new(36, |k: int| cube_index(k))
}

/// Relies on genmesh's `Cube`: `indexed_polygon_iter` gives the quads
/// `(4f, 4f + 1, 4f + 2, 4f + 3)` for faces `f` in `0..6`, `triangulate`
/// cuts each quad `(x, y, z, w)` into `(x, y, z)` and `(z, w, x)`, and
/// `Vertices::vertices` lists their corners in order.
#[verifier::external_body]
fn cube_triangle_indices() -> (r: Vec<usize>)
    ensures
        r@ == cube_indices(),
{
    Vertices::vertices(Cube::new().indexed_polygon_iter().triangulate()).collect()
}

/// Relies on genmesh's `Cube::shared_vertex_count`: 24 shared vertices,
/// four per face.
#[verifier::external_body]
fn cube_shared_vertex_count() -> (r: usize)
    ensures
        r == 24,
{
    Cube::new().shared_vertex_count()
}

/// A cube mesh as a flat, non-indexed vertex stream: `indices[k]` is the
/// shared vertex that vertex `k` of the stream copies.
#[derive(Debug)]
pub struct CubeMesh {
    pub shared_vertices: usize,
    pub indices: Vec<usize>,
}

impl CubeMesh {
    pub open spec fn wf(&self) -> bool {
        &&& self.indices@.len() == CUBE_VERTICES
        &&& forall|k: int| 0 <= k < self.indices@.len() ==> #[trigger] self.indices@[k] < self.shared_vertices
    }

    /// The unit cube: 36 vertices, six per face, each naming one of the
    /// cube's shared vertices.
    pub fn unit_cube() -> (r: CubeMesh)
        ensures
            r.wf(),
            r.shared_vertices == 24,
            r.indices@ == cube_indices(),
    {
        let indices = cube_triangle_indices();
        let shared_vertices = cube_shared_vertex_count();
        proof {
            assert forall|k: int| 0 <= k < indices@.len() implies #[trigger] indices@[k] < shared_vertices by {
                assert(0 <= k / 6 < 6);
                assert(cube_index(k) == indices@[k]);
            }
        }
        CubeMesh { shared_vertices, indices }
    }
}

/// Kind of resource a descriptor binding holds.
#[derive(Clone, Copy, Debug, PartialEq, Eq, Structural)]
pub enum DescriptorType {
    Sampler,
    SampledImage,
    UniformBuffer,
}

/// One binding of a descriptor-set layout.
#[derive(Clone, Copy, Debug, PartialEq, Eq, Structural)]
pub struct DescriptorSetLayoutBinding {
    pub binding: u32,
    pub ty: DescriptorType,
    pub count: u32,
    pub stage_flags: u32,
    pub immutable_samplers: bool,
}

/// A descriptor-set layout.
#[derive(Clone, Debug)]
pub struct SetLayout {
    pub bindings: Vec<DescriptorSetLayoutBinding>,
}

/// A range of push constants.
#[derive(Clone, Copy, Debug, PartialEq, Eq, Structural)]
pub struct PushConstantRange {
    pub stages: u32,
    pub start: u32,
    pub end: u32,
}

/// The pipeline layout: descriptor-set layouts and push constants.
#[derive(Clone, Debug)]
pub struct Layout {
    pub sets: Vec<SetLayout>,
    pub push_constants: Vec<PushConstantRange>,
}

/// Format of a vertex attribute.
#[derive(Clone, Copy, Debug, PartialEq, Eq, Structural)]
pub enum VertexFormat {
    Rgb32Sfloat,
}

/// Whether a vertex buffer advances per vertex or per instance.
#[derive(Clone, Copy, Debug, PartialEq, Eq, Structural)]
pub enum VertexInputRate {
    Vertex,
    Instance,
}

/// One vertex buffer of the pipeline, with its single attribute.
#[derive(Clone, Copy, Debug, PartialEq, Eq, Structural)]
pub struct VertexInput {
    pub format: VertexFormat,
    pub offset: u32,
    pub stride: u32,
    pub rate: VertexInputRate,
}

/// Colour blending of one attachment.
#[derive(Clone, Copy, Debug, PartialEq, Eq, Structural)]
pub struct ColorBlendDesc {
    pub mask: u8,
    pub blend: bool,
}

/// Depth and stencil testing.
#[derive(Clone, Copy, Debug, PartialEq, Eq, Structural)]
pub struct DepthStencilDesc {
    pub depth_test: bool,
    pub depth_write: bool,
}

/// What one descriptor write binds.
#[derive(Clone, Copy, Debug, PartialEq, Eq, Structural)]
pub enum Descriptor {
    /// Bytes `start .. end` of the uniform buffer.
    Buffer { start: u64, end: u64 },
    Sampler(u64),
    Image(u64, ImageLayout),
}

/// A write of one descriptor into the set.
#[derive(Clone, Copy, Debug, PartialEq, Eq, Structural)]
pub struct DescriptorSetWrite {
    pub binding: u32,
    pub array_offset: u32,
    pub descriptor: Descriptor,
}

/// One kind of descriptor that a pool holds, and how many.
#[derive(Clone, Copy, Debug, PartialEq, Eq, Structural)]
pub struct DescriptorRangeDesc {
    pub ty: DescriptorType,
    pub count: u32,
}

pub open spec fn descriptor_type(d: Descriptor) -> DescriptorType {
    match d {
        Descriptor::Buffer { .. } => DescriptorType::UniformBuffer,
        Descriptor::Sampler(_) => DescriptorType::Sampler,
        Descriptor::Image(..) => DescriptorType::SampledImage,
    }
}

/// Whether the writes fill the layout's bindings exactly: one write per
/// binding, in order, each of the binding's index and type, and each
/// binding holding one descriptor.
pub open spec fn writes_match(writes: Seq<DescriptorSetWrite>, bindings: Seq<DescriptorSetLayoutBinding>) -> bool {
    &&& writes.len() == bindings.len()
    &&& forall|i: int| 0 <= i < writes.len() ==> {
        &&& (#[trigger] writes[i]).binding == bindings[i].binding
        &&& writes[i].array_offset == 0
        &&& descriptor_type(writes[i].descriptor) == bindings[i].ty
        &&& bindings[i].count == 1
    }
}

/// The three bindings of the skybox set: the uniform buffer, seen by every
/// graphics stage, then the sampler and the sampled cube image, seen by the
/// fragment stage.
pub open spec fn skybox_bindings() -> Seq<DescriptorSetLayoutBinding> {
    seq![
        DescriptorSetLayoutBinding {
            binding: 0, ty: DescriptorType::UniformBuffer, count: 1,
            stage_flags: SHADER_GRAPHICS, immutable_samplers: false,
        },
        DescriptorSetLayoutBinding {
            binding: 1, ty: DescriptorType::Sampler, count: 1,
            stage_flags: SHADER_FRAGMENT, immutable_samplers: false,
        },
        DescriptorSetLayoutBinding {
            binding: 2, ty: DescriptorType::SampledImage, count: 1,
            stage_flags: SHADER_FRAGMENT, immutable_samplers: false,
        },
    ]
}

/// The writes that bind the uniform block and the cubemap `cube`.
pub open spec fn skybox_writes(cube: CubemapView) -> Seq<DescriptorSetWrite> {
    seq![
        DescriptorSetWrite {
            binding: 0, array_offset: 0,
            descriptor: Descriptor::Buffer { start: 0, end: UNIFORM_SIZE },
        },
        DescriptorSetWrite { binding: 1, array_offset: 0, descriptor: Descriptor::Sampler(cube.sampler) },
        DescriptorSetWrite {
            binding: 2, array_offset: 0,
            descriptor: Descriptor::Image(cube.view, ImageLayout::ShaderReadOnlyOptimal),
        },
    ]
}

/// The descriptor pool: one set's worth of each kind the layout binds.
pub open spec fn skybox_pool_ranges() -> Seq<DescriptorRangeDesc> {
    seq![
        DescriptorRangeDesc { ty: DescriptorType::UniformBuffer, count: 1 },
        DescriptorRangeDesc { ty: DescriptorType::Sampler, count: 1 },
        DescriptorRangeDesc { ty: DescriptorType::SampledImage, count: 1 },
    ]
}

/// Whether the writes fill the layout's bindings exactly.
pub fn check_writes(writes: &Vec<DescriptorSetWrite>, bindings: &Vec<DescriptorSetLayoutBinding>) -> (r: bool)
    ensures
        r == writes_match(writes@, bindings@),
{
    if writes.len() != bindings.len() {
        return false;
    }
    let mut i: usize = 0;
    while i < writes.len()
        invariant
            i <= writes@.len() == bindings@.len(),
            forall|j: int| 0 <= j < i ==> {
                &&& (#[trigger] writes@[j]).binding == bindings@[j].binding
                &&& writes@[j].array_offset == 0
                &&& descriptor_type(writes@[j].descriptor) == bindings@[j].ty
                &&& bindings@[j].count == 1
            },
        decreases writes@.len() - i,
    {
        let w = writes[i];
        let b = bindings[i];
        let ty = match w.descriptor {
            Descriptor::Buffer { .. } => DescriptorType::UniformBuffer,
            Descriptor::Sampler(_) => DescriptorType::Sampler,
            Descriptor::Image(..) => DescriptorType::SampledImage,
        };
        if w.binding != b.binding || w.array_offset != 0 || ty != b.ty || b.count != 1 {
            assert(!writes_match(writes@, bindings@)) by {
                assert(writes@[i as int] == w);
            }
            return false;
        }
        i = i + 1;
    }
    true
}

/// The commands the skybox records into a render pass.
#[derive(Clone, Copy, Debug, PartialEq, Eq, Structural)]
pub enum DrawCommand {
    /// Bind the cube mesh's vertex buffer at this binding.
    BindVertexBuffers { first_binding: u32 },
    /// Bind the node's descriptor set at this set index.
    BindDescriptorSet { set: u32 },
    /// Draw vertices `vertex_start .. vertex_end` of instances
    /// `instance_start .. instance_end`.
    Draw { vertex_start: u32, vertex_end: u32, instance_start: u32, instance_end: u32 },
}

/// What a pipeline wants done with its draw commands this frame.
#[derive(Clone, Copy, Debug, PartialEq, Eq, Structural)]
pub enum PrepareResult {
    /// Record the draw commands again.
    DrawRecord,
    /// Submit the commands recorded for an earlier frame.
    DrawReuse,
}

/// The skybox's draw: the cube once, as six instances, one per cube face.
pub open spec fn skybox_draw() -> Seq<DrawCommand> {
    seq![
        DrawCommand::BindVertexBuffers { first_binding: 0 },
        DrawCommand::BindDescriptorSet { set: 0 },
        DrawCommand::Draw { vertex_start: 0, vertex_end: 36, instance_start: 0, instance_end: 6 },
    ]
}

/// Describes the skybox pipeline.
#[derive(Clone, Copy, Debug, PartialEq, Eq, Structural)]
pub struct PipelineDesc;

/// A built skybox pipeline: its mesh, its descriptor pool and the writes
/// made into its one set, and the size of its uniform buffer.
#[derive(Debug)]
pub struct Pipeline {
    pub cube: CubeMesh,
    pub pool_ranges: Vec<DescriptorRangeDesc>,
    pub writes: Vec<DescriptorSetWrite>,
    pub buffer_size: u64,
}

impl PipelineDesc {
    /// One vertex buffer of positions, three floats each.
    pub fn vertices(&self) -> (r: Vec<VertexInput>)
        ensures
            r@ == seq![VertexInput {
                format: VertexFormat::Rgb32Sfloat, offset: 0, stride: 12, rate: VertexInputRate::Vertex,
            }],
    {
        let r = vec![VertexInput {
            format: VertexFormat::Rgb32Sfloat,
            offset: 0,
            stride: 12,
            rate: VertexInputRate::Vertex,
        }];
        proof {
            assert(r@ =~= seq![VertexInput {
                format: VertexFormat::Rgb32Sfloat, offset: 0, stride: 12, rate: VertexInputRate::Vertex,
            }]);
        }
        r
    }

    /// One colour attachment, every channel written, no blending.
    pub fn colors(&self) -> (r: Vec<ColorBlendDesc>)
        ensures
            r@ == seq![ColorBlendDesc { mask: COLOR_MASK_ALL, blend: false }],
    {
        let r = vec![ColorBlendDesc { mask: COLOR_MASK_ALL, blend: false }];
        proof {
            assert(r@ =~= seq![ColorBlendDesc { mask: COLOR_MASK_ALL, blend: false }]);
        }
        r
    }

    /// No depth or stencil testing.
    pub fn depth_stencil(&self) -> (r: Option<DepthStencilDesc>)
        ensures
            r is None,
    {
        None
    }

    /// One descriptor set with the skybox's three bindings, and no push
    /// constants.
    pub fn layout(&self) -> (r: Layout)
        ensures
            r.sets@.len() == 1,
            r.sets@[0].bindings@ == skybox_bindings(),
            r.push_constants@.len() == 0,
    {
        let bindings = vec![
            DescriptorSetLayoutBinding {
                binding: 0,
                ty: DescriptorType::UniformBuffer,
                count: 1,
                stage_flags: SHADER_GRAPHICS,
                immutable_samplers: false,
            },
            DescriptorSetLayoutBinding {
                binding: 1,
                ty: DescriptorType::Sampler,
                count: 1,
                stage_flags: SHADER_FRAGMENT,
                immutable_samplers: false,
            },
            DescriptorSetLayoutBinding {
                binding: 2,
                ty: DescriptorType::SampledImage,
                count: 1,
                stage_flags: SHADER_FRAGMENT,
                immutable_samplers: false,
            },
        ];
        proof {
            assert(bindings@ =~= skybox_bindings());
        }
        Layout { sets: vec![SetLayout { bindings }], push_constants: Vec::new() }
    }

    /// The error that `build` gives, if any. The checks come in order: no
    /// buffers or images are bound, one set layout is given, a cubemap is
    /// bound, and the writes fill the set layout's bindings.
    pub open spec fn build_error(
        aux: EnvAux,
        n_buffers: int,
        n_images: int,
        set_layouts: Seq<SetLayout>,
    ) -> Option<NodeBuildError> {
        if n_buffers != 0 {
            Some(NodeBuildError::UnexpectedBuffers)
        } else if n_images != 0 {
            Some(NodeBuildError::ImageCountMismatch)
        } else if set_layouts.len() != 1 {
            Some(NodeBuildError::LayoutMismatch)
        } else if aux.spec_cubemap is None {
            Some(NodeBuildError::MissingCubemap)
        } else if !writes_match(skybox_writes(aux.spec_cubemap->Some_0), set_layouts[0].bindings@) {
            Some(NodeBuildError::LayoutMismatch)
        } else {
            None
        }
    }

    /// Builds the pipeline: checks the bound resources and the set layout
    /// before anything is made, then the cube mesh, the descriptor pool, the
    /// writes binding the uniform buffer and the cubemap, and the uniform
    /// buffer's size.
    pub fn build(
        self,
        aux: &EnvAux,
        buffers: &Vec<BufferId>,
        images: &Vec<ImageId>,
        set_layouts: &Vec<SetLayout>,
    ) -> (r: Result<Pipeline, NodeBuildError>)
        requires
            aux.align >= 1,
        ensures
            match Self::build_error(*aux, buffers@.len() as int, images@.len() as int, set_layouts@) {
                Some(e) => r == Err::<Pipeline, NodeBuildError>(e),
                None => r is Ok && {
                    let p = r->Ok_0;
                    &&& p.cube.wf()
                    &&& p.cube.indices@ == cube_indices()
                    &&& p.pool_ranges@ == skybox_pool_ranges()
                    &&& p.writes@ == skybox_writes(aux.spec_cubemap->Some_0)
                    &&& p.buffer_size == round_up(UNIFORM_SIZE as int, aux.align as int)
                },
            },
    {
        if buffers.len() != 0 {
            return Err(NodeBuildError::UnexpectedBuffers);
        }
        if images.len() != 0 {
            return Err(NodeBuildError::ImageCountMismatch);
        }
        if set_layouts.len() != 1 {
            return Err(NodeBuildError::LayoutMismatch);
        }
        let cube_view = match aux.spec_cubemap {
            Some(c) => c,
            None => {
                return Err(NodeBuildError::MissingCubemap);
            },
        };
        let writes = vec![
            DescriptorSetWrite {
                binding: 0,
                array_offset: 0,
                descriptor: Descriptor::Buffer { start: 0, end: UNIFORM_SIZE },
            },
            DescriptorSetWrite { binding: 1, array_offset: 0, descriptor: Descriptor::Sampler(cube_view.sampler) },
            DescriptorSetWrite {
                binding: 2,
                array_offset: 0,
                descriptor: Descriptor::Image(cube_view.view, ImageLayout::ShaderReadOnlyOptimal),
            },
        ];
        proof {
            assert(writes@ =~= skybox_writes(cube_view));
        }
        if !check_writes(&writes, &set_layouts[0].bindings) {
            return Err(NodeBuildError::LayoutMismatch);
        }
        let cube = CubeMesh::unit_cube();
        let pool_ranges = vec![
            DescriptorRangeDesc { ty: DescriptorType::UniformBuffer, count: 1 },
            DescriptorRangeDesc { ty: DescriptorType::Sampler, count: 1 },
            DescriptorRangeDesc { ty: DescriptorType::SampledImage, count: 1 },
        ];
        proof {
            assert(pool_ranges@ =~= skybox_pool_ranges());
        }
        let settings = Settings::from_aux(aux);
        let buffer_size = settings.buffer_frame_size();
        Ok(Pipeline { cube, pool_ranges, writes, buffer_size })
    }
}

impl Pipeline {
    /// The uniform data never changes after the build, so the draw recorded
    /// for an earlier frame is reused.
    pub fn prepare(&self) -> (r: PrepareResult)
        ensures
            r == PrepareResult::DrawReuse,
    {
        PrepareResult::DrawReuse
    }

    /// Binds the cube mesh at binding 0 and the descriptor set at index 0,
    /// then draws the cube's 36 vertices as 6 instances, one per face.
    pub fn draw(&self) -> (r: Vec<DrawCommand>)
        ensures
            r@ == skybox_draw(),
    {
        let r = vec![
            DrawCommand::BindVertexBuffers { first_binding: 0 },
            DrawCommand::BindDescriptorSet { set: 0 },
            DrawCommand::Draw { vertex_start: 0, vertex_end: CUBE_VERTICES, instance_start: 0, instance_end: 6 },
        ];
        proof {
            assert(r@ =~= skybox_draw());
        }
        r
    }
}

/// Whether a command binds the cube mesh.
pub open spec fn binds_mesh(c: DrawCommand) -> bool {
    c is BindVertexBuffers
}

/// Whether a command draws.
pub open spec fn is_draw(c: DrawCommand) -> bool {
    c is Draw
}

/// Building the skybox with the layout it declares and a bound cubemap
/// succeeds, and its draw then binds the cube mesh exactly once and makes
/// exactly one draw call, over 36 vertices and 6 instances.
pub proof fn lemma_build_then_draw(aux: EnvAux, n_buffers: int, n_images: int, set_layouts: Seq<SetLayout>)
    requires
        n_buffers == 0,
        n_images == 0,
        set_layouts.len() == 1,
        set_layouts[0].bindings@ == skybox_bindings(),
        aux.spec_cubemap is Some,
    ensures
        PipelineDesc::build_error(aux, n_buffers, n_images, set_layouts) is None,
        skybox_draw().filter(|c: DrawCommand| binds_mesh(c)).len() == 1,
        skybox_draw().filter(|c: DrawCommand| is_draw(c))
            == seq![DrawCommand::Draw { vertex_start: 0, vertex_end: 36, instance_start: 0, instance_end: 6 }],
{
    let cube = aux.spec_cubemap->Some_0;
    let w = skybox_writes(cube);
    let b = skybox_bindings();
    assert forall|i: int| 0 <= i < w.len() implies {
        &&& (#[trigger] w[i]).binding == b[i].binding
        &&& w[i].array_offset == 0
        &&& descriptor_type(w[i].descriptor) == b[i].ty
        &&& b[i].count == 1
    } by {
        assert(i == 0 || i == 1 || i == 2);
    }
    let d = skybox_draw();
    reveal_with_fuel(Seq::filter, 4);
    assert(d.drop_last().drop_last().drop_last() =~= Seq::<DrawCommand>::empty());
    assert(d.drop_last().drop_last() =~= seq![DrawCommand::BindVertexBuffers { first_binding: 0 }]);
    assert(d.drop_last() =~= seq![
        DrawCommand::BindVertexBuffers { first_binding: 0 },
        DrawCommand::BindDescriptorSet { set: 0 },
    ]);
    assert(d.filter(|c: DrawCommand| is_draw(c)) =~= seq![
        DrawCommand::Draw { vertex_start: 0, vertex_end: 36, instance_start: 0, instance_end: 6 },
    ]);
}

} // verus!
