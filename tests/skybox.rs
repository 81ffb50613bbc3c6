use render_nodes::access::ImageLayout;
use render_nodes::cubemap::{BufferId, ImageId, NodeBuildError};
use render_nodes::skybox::{
    aligned_size, CubeMesh, CubemapView, Descriptor, DescriptorType, DrawCommand, EnvAux,
    PipelineDesc, PrepareResult, SetLayout, Settings, VertexInputRate, UNIFORM_SIZE,
};

fn aux() -> EnvAux {
    EnvAux { align: 256, spec_cubemap: Some(CubemapView { sampler: 11, view: 12 }) }
}

fn layouts() -> Vec<SetLayout> {
    PipelineDesc.layout().sets
}

#[test]
fn uniform_buffer_rounds_up_to_alignment() {
    assert_eq!(UNIFORM_SIZE, 128);
    assert_eq!(Settings { align: 256 }.buffer_frame_size(), 256);
    assert_eq!(Settings { align: 64 }.buffer_frame_size(), 128);
    assert_eq!(Settings { align: 128 }.buffer_frame_size(), 128);
    assert_eq!(Settings { align: 1 }.buffer_frame_size(), 128);
    assert_eq!(Settings::from_aux(&aux()).align, 256);
    let converted: Settings = (&aux()).into();
    assert_eq!(converted.align, 256);
}

#[test]
fn aligned_size_is_the_next_multiple() {
    assert_eq!(aligned_size(129, 64), 192);
    assert_eq!(aligned_size(1, 16), 16);
    assert_eq!(aligned_size(48, 16), 48);
}

#[test]
fn cube_mesh_is_six_faces_of_two_triangles() {
    let cube = CubeMesh::unit_cube();
    assert_eq!(cube.shared_vertices, 24);
    assert_eq!(cube.indices.len(), 36);
    assert_eq!(&cube.indices[..6], &[0, 1, 2, 2, 3, 0]);
    assert_eq!(&cube.indices[30..], &[20, 21, 22, 22, 23, 20]);
    assert!(cube.indices.iter().all(|&i| i < 24));
}

#[test]
fn layout_has_three_bindings() {
    let layout = PipelineDesc.layout();
    assert_eq!(layout.sets.len(), 1);
    assert!(layout.push_constants.is_empty());
    let b = &layout.sets[0].bindings;
    assert_eq!(b.len(), 3);
    assert_eq!((b[0].binding, b[0].ty), (0, DescriptorType::UniformBuffer));
    assert_eq!((b[1].binding, b[1].ty), (1, DescriptorType::Sampler));
    assert_eq!((b[2].binding, b[2].ty), (2, DescriptorType::SampledImage));
}

#[test]
fn fixed_function_state() {
    let v = PipelineDesc.vertices();
    assert_eq!(v.len(), 1);
    assert_eq!(v[0].stride, 12);
    assert_eq!(v[0].rate, VertexInputRate::Vertex);
    assert_eq!(PipelineDesc.colors().len(), 1);
    assert!(!PipelineDesc.colors()[0].blend);
    assert!(PipelineDesc.depth_stencil().is_none());
}

#[test]
fn build_then_draw_binds_once_and_draws_once() {
    let p = PipelineDesc.build(&aux(), &vec![], &vec![], &layouts()).unwrap();
    assert_eq!(p.buffer_size, 256);
    assert_eq!(p.writes.len(), 3);
    assert_eq!(p.writes[0].descriptor, Descriptor::Buffer { start: 0, end: 128 });
    assert_eq!(p.writes[1].descriptor, Descriptor::Sampler(11));
    assert_eq!(p.writes[2].descriptor, Descriptor::Image(12, ImageLayout::ShaderReadOnlyOptimal));
    assert_eq!(p.pool_ranges.len(), 3);
    assert_eq!(p.cube.indices.len(), 36);
    assert_eq!(p.prepare(), PrepareResult::DrawReuse);
    let cmds = p.draw();
    let binds = cmds.iter().filter(|c| matches!(c, DrawCommand::BindVertexBuffers { .. })).count();
    let draws: Vec<_> = cmds.iter().filter(|c| matches!(c, DrawCommand::Draw { .. })).collect();
    assert_eq!(binds, 1);
    assert_eq!(
        draws,
        vec![&DrawCommand::Draw { vertex_start: 0, vertex_end: 36, instance_start: 0, instance_end: 6 }]
    );
    assert_eq!(cmds[1], DrawCommand::BindDescriptorSet { set: 0 });
}

#[test]
fn build_without_cubemap_fails() {
    let a = EnvAux { align: 256, spec_cubemap: None };
    let r = PipelineDesc.build(&a, &vec![], &vec![], &layouts());
    assert_eq!(r.unwrap_err(), NodeBuildError::MissingCubemap);
}

#[test]
fn build_with_mismatched_layout_fails() {
    let mut sets = layouts();
    sets[0].bindings.swap(1, 2);
    let r = PipelineDesc.build(&aux(), &vec![], &vec![], &sets);
    assert_eq!(r.unwrap_err(), NodeBuildError::LayoutMismatch);
    let r = PipelineDesc.build(&aux(), &vec![], &vec![], &vec![]);
    assert_eq!(r.unwrap_err(), NodeBuildError::LayoutMismatch);
}

#[test]
fn build_with_bound_resources_fails() {
    let r = PipelineDesc.build(&aux(), &vec![BufferId(0)], &vec![], &layouts());
    assert_eq!(r.unwrap_err(), NodeBuildError::UnexpectedBuffers);
    let r = PipelineDesc.build(&aux(), &vec![], &vec![ImageId(0)], &layouts());
    assert_eq!(r.unwrap_err(), NodeBuildError::ImageCountMismatch);
}
