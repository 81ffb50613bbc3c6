use render_nodes::access::{
    declare_usage, ImageLayout, ImageState, Registry, StageRange, SubresourceRange, Usage,
    ACCESS_SHADER_READ, ACCESS_TRANSFER_WRITE, STAGE_FRAGMENT_SHADER, STAGE_TRANSFER,
};

fn usage(stage: u32, access: u32, layout: ImageLayout, levels: (u32, u32), layers: (u32, u32)) -> Usage {
    Usage {
        state: ImageState { family: 0, stage, access, layout },
        range: SubresourceRange {
            level_start: levels.0,
            level_end: levels.1,
            layer_start: layers.0,
            layer_end: layers.1,
        },
    }
}

#[test]
fn identical_usages_need_no_barrier() {
    let u = usage(STAGE_TRANSFER, ACCESS_TRANSFER_WRITE, ImageLayout::TransferDstOptimal, (0, 1), (0, 6));
    let (stages, barriers) = declare_usage(&u, &u);
    assert!(barriers.is_empty());
    assert_eq!(stages, StageRange { start: STAGE_TRANSFER, end: STAGE_TRANSFER });
}

#[test]
fn differing_usages_need_one_barrier_over_both_ranges() {
    let prev = usage(STAGE_TRANSFER, ACCESS_TRANSFER_WRITE, ImageLayout::TransferDstOptimal, (0, 1), (0, 6));
    let next = usage(STAGE_FRAGMENT_SHADER, ACCESS_SHADER_READ, ImageLayout::ShaderReadOnlyOptimal, (2, 4), (1, 3));
    let (stages, barriers) = declare_usage(&prev, &next);
    assert_eq!(stages, StageRange { start: STAGE_TRANSFER, end: STAGE_FRAGMENT_SHADER });
    assert_eq!(barriers.len(), 1);
    assert_eq!(barriers[0].before, prev.state);
    assert_eq!(barriers[0].after, next.state);
    assert_eq!(barriers[0].families, None);
    assert_eq!(
        barriers[0].range,
        SubresourceRange { level_start: 0, level_end: 4, layer_start: 0, layer_end: 6 }
    );
}

#[test]
fn layout_change_alone_needs_a_barrier() {
    let prev = usage(STAGE_TRANSFER, ACCESS_TRANSFER_WRITE, ImageLayout::TransferDstOptimal, (0, 1), (0, 1));
    let next = usage(STAGE_TRANSFER, ACCESS_TRANSFER_WRITE, ImageLayout::General, (0, 1), (0, 1));
    let (_, barriers) = declare_usage(&prev, &next);
    assert_eq!(barriers.len(), 1);
}

#[test]
fn family_change_is_a_hand_over() {
    let prev = usage(STAGE_TRANSFER, ACCESS_TRANSFER_WRITE, ImageLayout::TransferDstOptimal, (0, 1), (0, 1));
    let mut next = prev;
    next.state.family = 2;
    let (_, barriers) = declare_usage(&prev, &next);
    assert_eq!(barriers.len(), 1);
    let hand_over = barriers[0].families.unwrap();
    assert_eq!((hand_over.src, hand_over.dst), (0, 2));
}

#[test]
fn registry_diffs_against_the_released_usage() {
    let mut reg = Registry::new(2);
    assert_eq!(reg.len(), 2);
    let first = usage(STAGE_TRANSFER, ACCESS_TRANSFER_WRITE, ImageLayout::TransferDstOptimal, (0, 1), (0, 6));
    let second = usage(STAGE_FRAGMENT_SHADER, ACCESS_SHADER_READ, ImageLayout::ShaderReadOnlyOptimal, (0, 1), (0, 6));
    let (_, none) = reg.acquire(1, &first);
    assert!(none.is_empty());
    reg.release(1, &first);
    let (stages, barriers) = reg.acquire(1, &second);
    assert_eq!(stages, StageRange { start: STAGE_TRANSFER, end: STAGE_FRAGMENT_SHADER });
    assert_eq!(barriers.len(), 1);
    assert_eq!(barriers[0].before, first.state);
    assert_eq!(barriers[0].after, second.state);
    let (_, other) = reg.acquire(0, &second);
    assert!(other.is_empty());
    reg.release(1, &second);
    let (_, again) = reg.acquire(1, &second);
    assert!(again.is_empty());
}
