use render_nodes::access::{
    Barrier, ImageLayout, ImageState, StageRange, SubresourceRange, ACCESS_SHADER_READ,
    ACCESS_TRANSFER_READ, ACCESS_TRANSFER_WRITE, STAGE_FRAGMENT_SHADER, STAGE_TRANSFER,
    USAGE_TRANSFER_SRC,
};
use render_nodes::cubemap::{
    copy_regions, mip_blit_chain, mip_level_count, BufferId, CopyMips, CubeTarget,
    FacesToCubemap, FacesToCubemapResource, ImageId, ImageTransition, NodeBuildError, NodeId,
    NodeImage, QueueFamily,
};

struct Env {
    target: CubeTarget,
    end: ImageState,
}

impl FacesToCubemapResource for Env {
    fn get_cubemap(&self, _name: &String) -> CubeTarget {
        self.target
    }

    fn cubemap_end_state(&self, _name: &String) -> ImageState {
        self.end
    }
}

fn env() -> Env {
    Env {
        target: CubeTarget { width: 64, height: 64 },
        end: ImageState {
            family: 0,
            stage: STAGE_FRAGMENT_SHADER,
            access: ACCESS_SHADER_READ,
            layout: ImageLayout::ShaderReadOnlyOptimal,
        },
    }
}

fn strip(id: usize, width: u32, height: u32) -> NodeImage {
    NodeImage {
        id: ImageId(id),
        width,
        height,
        layout: ImageLayout::TransferSrcOptimal,
        acquire: None,
        release: None,
    }
}

fn transfer_family() -> QueueFamily {
    QueueFamily { id: 3, graphics: false, compute: false, transfer: true }
}

#[test]
fn strip_faces_cover_the_source_exactly() {
    let regions = copy_regions(&vec![strip(7, 64, 384)]);
    assert_eq!(regions.len(), 6);
    for (i, r) in regions.iter().enumerate() {
        assert_eq!(r.src, ImageId(7));
        assert_eq!(r.src_y, 64 * i as u32);
        assert_eq!(r.height, 64);
        assert_eq!(r.width, 64);
        assert_eq!(r.dst_layer, i as u32);
        assert_eq!(r.dst_level, 0);
    }
    assert_eq!(regions[5].src_y + regions[5].height, 384);
}

#[test]
fn each_strip_fills_its_own_level() {
    let regions = copy_regions(&vec![strip(1, 8, 48), strip(2, 4, 24)]);
    assert_eq!(regions.len(), 12);
    assert_eq!(regions[6].src, ImageId(2));
    assert_eq!(regions[6].dst_level, 1);
    assert_eq!(regions[7].src_y, 4);
    assert_eq!(regions[11].dst_layer, 5);
    assert_eq!(regions[11].height, 4);
}

#[test]
fn mip_count_is_log2_of_the_largest_side_plus_one() {
    assert_eq!(mip_level_count(256, 256), 9);
    assert_eq!(mip_level_count(1, 1), 1);
    assert_eq!(mip_level_count(300, 2), 9);
    assert_eq!(mip_level_count(2, 1024), 11);
}

#[test]
fn mip_blits_halve_down_to_one_texel() {
    let blits = mip_blit_chain(256, 256);
    assert_eq!(blits.len(), 8);
    for (k, b) in blits.iter().enumerate() {
        assert_eq!(b.src_level, k as u32);
        assert_eq!(b.dst_level, k as u32 + 1);
        assert_eq!(b.dst_width, b.src_width / 2);
        assert_eq!((b.layer_start, b.layer_end), (0, 6));
    }
    assert_eq!((blits[7].dst_width, blits[7].dst_height), (1, 1));
}

#[test]
fn mip_blits_of_a_narrow_image_stop_at_one() {
    let blits = mip_blit_chain(8, 2);
    let dims: Vec<(u32, u32)> = blits.iter().map(|b| (b.dst_width, b.dst_height)).collect();
    assert_eq!(dims, vec![(4, 1), (2, 1), (1, 1)]);
}

#[test]
fn single_level_image_needs_no_blit() {
    assert!(mip_blit_chain(1, 1).is_empty());
}

#[test]
fn builder_declares_faces_as_transfer_sources() {
    let b = FacesToCubemap::builder(vec![ImageId(4), ImageId(5)], "sky", CopyMips::CopyMips(2))
        .with_dependency(NodeId(9));
    let images = b.images();
    assert_eq!(images.len(), 2);
    assert_eq!(images[1].0, ImageId(5));
    assert_eq!(images[1].1.access, ACCESS_TRANSFER_READ);
    assert_eq!(images[1].1.layout, ImageLayout::TransferSrcOptimal);
    assert_eq!(images[1].1.usage, USAGE_TRANSFER_SRC);
    assert_eq!(images[1].1.stages, STAGE_TRANSFER);
    assert!(b.buffers().is_empty());
    assert_eq!(b.dependencies(), vec![NodeId(9)]);
    assert_eq!(b.cubemap_name, "sky");
}

#[test]
fn add_dependency_appends() {
    let mut b = FacesToCubemap::builder(vec![ImageId(0)], "sky", CopyMips::GenerateMips);
    b.add_dependency(NodeId(1));
    b.add_dependency(NodeId(2));
    assert_eq!(b.dependencies(), vec![NodeId(1), NodeId(2)]);
}

#[test]
fn family_is_the_first_that_transfers() {
    let b = FacesToCubemap::builder(vec![ImageId(0)], "sky", CopyMips::GenerateMips);
    let families = vec![
        QueueFamily { id: 0, graphics: true, compute: true, transfer: false },
        QueueFamily { id: 1, graphics: false, compute: false, transfer: true },
        QueueFamily { id: 2, graphics: true, compute: true, transfer: true },
    ];
    assert_eq!(b.family(&families), Some(1));
    assert_eq!(b.family(&families[..1].to_vec()), None);
}

#[test]
fn face_count_mismatch_fails_the_build() {
    let b = FacesToCubemap::builder(vec![ImageId(0), ImageId(1)], "sky", CopyMips::CopyMips(3));
    let images = vec![strip(0, 8, 48), strip(1, 4, 24)];
    let r = b.build(&env(), &transfer_family(), &vec![], &images);
    assert_eq!(r.unwrap_err(), NodeBuildError::FaceCountMismatch);
}

#[test]
fn generate_mips_wants_one_face_strip() {
    let b = FacesToCubemap::builder(vec![ImageId(0), ImageId(1)], "sky", CopyMips::GenerateMips);
    let images = vec![strip(0, 8, 48), strip(1, 8, 48)];
    let r = b.build(&env(), &transfer_family(), &vec![], &images);
    assert_eq!(r.unwrap_err(), NodeBuildError::FaceCountMismatch);
}

#[test]
fn bound_buffers_fail_the_build() {
    let b = FacesToCubemap::builder(vec![ImageId(0)], "sky", CopyMips::GenerateMips);
    let r = b.build(&env(), &transfer_family(), &vec![BufferId(0)], &vec![strip(0, 64, 384)]);
    assert_eq!(r.unwrap_err(), NodeBuildError::UnexpectedBuffers);
}

#[test]
fn missing_bound_images_fail_the_build() {
    let b = FacesToCubemap::builder(vec![ImageId(0)], "sky", CopyMips::GenerateMips);
    let r = b.build(&env(), &transfer_family(), &vec![], &vec![]);
    assert_eq!(r.unwrap_err(), NodeBuildError::ImageCountMismatch);
}

#[test]
fn generated_mips_are_blitted_from_the_base_level() {
    let b = FacesToCubemap::builder(vec![ImageId(0)], "sky", CopyMips::GenerateMips);
    let node = b.build(&env(), &transfer_family(), &vec![], &vec![strip(0, 64, 384)]).unwrap();
    assert_eq!(node.family_id(), 3);
    assert_eq!(node.copies.len(), 6);
    assert_eq!(node.blits.len(), 6);
    assert_eq!((node.blits[5].dst_width, node.blits[5].dst_height), (1, 1));
    assert!(node.acquire.barriers.is_empty());
    assert!(node.release.barriers.is_empty());
}

#[test]
fn explicit_mips_release_the_cube_to_its_end_state() {
    let before = Barrier {
        before: ImageState { family: 3, stage: STAGE_TRANSFER, access: ACCESS_TRANSFER_WRITE, layout: ImageLayout::General },
        after: ImageState { family: 3, stage: STAGE_TRANSFER, access: ACCESS_TRANSFER_READ, layout: ImageLayout::TransferSrcOptimal },
        families: None,
        range: SubresourceRange { level_start: 0, level_end: 1, layer_start: 0, layer_end: 1 },
    };
    let mut first = strip(0, 8, 48);
    first.acquire = Some(ImageTransition { stages: StageRange { start: 0x1, end: STAGE_TRANSFER }, barrier: before });
    let images = vec![first, strip(1, 4, 24)];
    let b = FacesToCubemap::builder(vec![ImageId(0), ImageId(1)], "sky", CopyMips::CopyMips(2));
    let node = b.build(&env(), &transfer_family(), &vec![], &images).unwrap();
    assert_eq!(node.acquire.stages, StageRange { start: 0x1, end: STAGE_TRANSFER });
    assert_eq!(node.acquire.barriers, vec![before]);
    assert_eq!(node.copies.len(), 12);
    assert!(node.blits.is_empty());
    assert_eq!(node.release.stages, StageRange { start: STAGE_TRANSFER, end: STAGE_FRAGMENT_SHADER });
    assert_eq!(node.release.barriers.len(), 1);
    let cube = node.release.barriers[0];
    assert_eq!(cube.before.access, ACCESS_TRANSFER_WRITE);
    assert_eq!(cube.before.layout, ImageLayout::TransferDstOptimal);
    assert_eq!(cube.after, env().end);
    assert_eq!(cube.range, SubresourceRange { level_start: 0, level_end: 2, layer_start: 0, layer_end: 6 });
}
