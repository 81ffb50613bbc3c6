//! Per-frame input rules: how key presses resize the instance array and pick
//! the tonemapping curve, which mouse drags move the camera, and which
//! component events mark a camera transform for update.
use vstd::prelude::*;

verus! {

/// The largest value of one instance-array dimension.
pub const DIM_MAX: u8 = 255;

/// Tonemapping curve chosen with the A key.
pub const CURVE_A: u32 = 0;
/// Tonemapping curve chosen with the U key.
pub const CURVE_U: u32 = 1;
/// Tonemapping curve chosen with the C key.
pub const CURVE_C: u32 = 2;

/// State shared with the PBR nodes: frames in flight, uniform alignment,
/// instance-array dimensions, and the tonemapping curve.
#[derive(Clone, Copy, Debug)]
pub struct Aux {
    pub frames: usize,
    pub align: u64,
    pub instance_array_size: (u8, u8, u8),
    pub tonemap_curve: u32,
}

/// The keys the input rules react to.
#[derive(Clone, Copy, Debug, PartialEq, Eq, Structural)]
pub enum Key {
    X,
    Y,
    Z,
    E,
    A,
    U,
    C,
    Other,
}

/// What a key press asks for.
#[derive(Clone, Copy, Debug, PartialEq, Eq, Structural)]
pub enum AuxAction {
    Grow(Axis),
    Shrink(Axis),
    ExposureUp,
    ExposureDown,
    SetCurve(u32),
}

/// One dimension of the instance array.
#[derive(Clone, Copy, Debug, PartialEq, Eq, Structural)]
pub enum Axis {
    X,
    Y,
    Z,
}

/// How a mouse drag moves the camera.
#[derive(Clone, Copy, Debug, PartialEq, Eq, Structural)]
pub enum DragMode {
    Rotate,
    Pan,
    Zoom,
}

/// What happened to a component.
#[derive(Clone, Copy, Debug, PartialEq, Eq, Structural)]
pub enum ComponentEvent {
    Inserted(u32),
    Modified(u32),
    Removed(u32),
}

pub open spec fn size_product(s: (u8, u8, u8)) -> int {
    s.0 as int * s.1 as int * s.2 as int
}

pub open spec fn inc_sat(v: u8) -> u8 {
    if v == 255 { 255 } else { (v + 1) as u8 }
}

pub open spec fn grown(s: (u8, u8, u8), axis: Axis) -> (u8, u8, u8) {
    match axis {
        Axis::X => (inc_sat(s.0), s.1, s.2),
        Axis::Y => (s.0, inc_sat(s.1), s.2),
        Axis::Z => (s.0, s.1, inc_sat(s.2)),
    }
}

/// The size after growing `axis` by one, where the array then holds at most
/// `max` instances; else the size unchanged.
pub open spec fn try_grow_spec(s: (u8, u8, u8), axis: Axis, max: u16) -> (u8, u8, u8) {
    if size_product(grown(s, axis)) <= max { grown(s, axis) } else { s }
}

pub open spec fn dec_floor_one(v: u8) -> u8 {
    if v <= 1 { 1 } else { (v - 1) as u8 }
}

pub open spec fn shrunk(s: (u8, u8, u8), axis: Axis) -> (u8, u8, u8) {
    match axis {
        Axis::X => (dec_floor_one(s.0), s.1, s.2),
        Axis::Y => (s.0, dec_floor_one(s.1), s.2),
        Axis::Z => (s.0, s.1, dec_floor_one(s.2)),
    }
}

fn fits(s: (u8, u8, u8), max: u16) -> (r: bool)
    ensures
        r == (size_product(s) <= max),
{
    assert(s.0 as u32 * s.1 as u32 <= 255 * 255) by (nonlinear_arith)
        requires s.0 <= 255, s.1 <= 255;
    let xy: u32 = s.0 as u32 * s.1 as u32;
    assert(xy <= 255 * 255) by (nonlinear_arith)
        requires xy == s.0 as int * s.1 as int, s.0 <= 255, s.1 <= 255;
    assert(xy as int * s.2 as int <= 255 * 255 * 255) by (nonlinear_arith)
        requires xy <= 255 * 255, s.2 <= 255;
    xy * (s.2 as u32) <= max as u32
}

fn inc_saturating(v: u8) -> (r: u8)
    ensures
        r == inc_sat(v),
{
    v.checked_add(1).unwrap_or(DIM_MAX)
}

/// Grows the first dimension by one, if the array then holds at most `max`.
pub fn try_add_instance_array_size_x(ia_size: (u8, u8, u8), max: u16) -> (r: (u8, u8, u8))
    ensures
        r == try_grow_spec(ia_size, Axis::X, max),
{
    let n = (inc_saturating(ia_size.0), ia_size.1, ia_size.2);
    if fits(n, max) { n } else { ia_size }
}

/// Grows the second dimension by one, if the array then holds at most `max`.
pub fn try_add_instance_array_size_y(ia_size: (u8, u8, u8), max: u16) -> (r: (u8, u8, u8))
    ensures
        r == try_grow_spec(ia_size, Axis::Y, max),
{
    let n = (ia_size.0, inc_saturating(ia_size.1), ia_size.2);
    if fits(n, max) { n } else { ia_size }
}

/// Grows the third dimension by one, if the array then holds at most `max`.
pub fn try_add_instance_array_size_z(ia_size: (u8, u8, u8), max: u16) -> (r: (u8, u8, u8))
    ensures
        r == try_grow_spec(ia_size, Axis::Z, max),
{
    let n = (ia_size.0, ia_size.1, inc_saturating(ia_size.2));
    if fits(n, max) { n } else { ia_size }
}

/// The action for a pressed key: X, Y and Z grow a dimension, or shrink it
/// with shift; E raises the exposure, or lowers it with shift; A, U and C
/// pick a tonemapping curve. Released keys and other keys ask for nothing.
pub open spec fn key_action_spec(key: Key, pressed: bool, shift: bool) -> Option<AuxAction> {
    if !pressed {
        None
    } else {
        match key {
            Key::X => Some(if shift { AuxAction::Shrink(Axis::X) } else { AuxAction::Grow(Axis::X) }),
            Key::Y => Some(if shift { AuxAction::Shrink(Axis::Y) } else { AuxAction::Grow(Axis::Y) }),
            Key::Z => Some(if shift { AuxAction::Shrink(Axis::Z) } else { AuxAction::Grow(Axis::Z) }),
            Key::E => Some(if shift { AuxAction::ExposureDown } else { AuxAction::ExposureUp }),
            Key::A => Some(AuxAction::SetCurve(CURVE_A)),
            Key::U => Some(AuxAction::SetCurve(CURVE_U)),
            Key::C => Some(AuxAction::SetCurve(CURVE_C)),
            Key::Other => None,
        }
    }
}

/// The action a key event asks for.
pub fn key_action(key: Key, pressed: bool, shift: bool) -> (r: Option<AuxAction>)
    ensures
        r == key_action_spec(key, pressed, shift),
{
    if !pressed {
        return None;
    }
    match key {
        Key::X => Some(if shift { AuxAction::Shrink(Axis::X) } else { AuxAction::Grow(Axis::X) }),
        Key::Y => Some(if shift { AuxAction::Shrink(Axis::Y) } else { AuxAction::Grow(Axis::Y) }),
        Key::Z => Some(if shift { AuxAction::Shrink(Axis::Z) } else { AuxAction::Grow(Axis::Z) }),
        Key::E => Some(if shift { AuxAction::ExposureDown } else { AuxAction::ExposureUp }),
        Key::A => Some(AuxAction::SetCurve(CURVE_A)),
        Key::U => Some(AuxAction::SetCurve(CURVE_U)),
        Key::C => Some(AuxAction::SetCurve(CURVE_C)),
        Key::Other => None,
    }
}

/// The state after an action. Exposure is not held here: those actions
/// leave the state as it is.
pub open spec fn apply_spec(aux: Aux, action: AuxAction, max_instances: u16) -> Aux {
    match action {
        AuxAction::Grow(axis) => Aux {
            instance_array_size: try_grow_spec(aux.instance_array_size, axis, max_instances),
            ..aux
        },
        AuxAction::Shrink(axis) => Aux { instance_array_size: shrunk(aux.instance_array_size, axis), ..aux },
        AuxAction::SetCurve(c) => Aux { tonemap_curve: c, ..aux },
        AuxAction::ExposureUp | AuxAction::ExposureDown => aux,
    }
}

/// Applies an action to the shared state; the array holds at most
/// `max_instances` instances of the mesh.
pub fn apply_action(aux: &mut Aux, action: AuxAction, max_instances: u16)
    ensures
        *final(aux) == apply_spec(*old(aux), action, max_instances),
{
    let s = aux.instance_array_size;
    match action {
        AuxAction::Grow(Axis::X) => {
            aux.instance_array_size = try_add_instance_array_size_x(s, max_instances);
        },
        AuxAction::Grow(Axis::Y) => {
            aux.instance_array_size = try_add_instance_array_size_y(s, max_instances);
        },
        AuxAction::Grow(Axis::Z) => {
            aux.instance_array_size = try_add_instance_array_size_z(s, max_instances);
        },
        AuxAction::Shrink(Axis::X) => {
            aux.instance_array_size.0 = if s.0 <= 1 { 1 } else { s.0 - 1 };
        },
        AuxAction::Shrink(Axis::Y) => {
            aux.instance_array_size.1 = if s.1 <= 1 { 1 } else { s.1 - 1 };
        },
        AuxAction::Shrink(Axis::Z) => {
            aux.instance_array_size.2 = if s.2 <= 1 { 1 } else { s.2 - 1 };
        },
        AuxAction::SetCurve(c) => {
            aux.tonemap_curve = c;
        },
        AuxAction::ExposureUp | AuxAction::ExposureDown => {},
    }
}

/// Handles one key event: applies what it asks of the shared state and
/// returns the action, so that the caller can apply what is not held here.
pub fn handle_key(aux: &mut Aux, key: Key, pressed: bool, shift: bool, max_instances: u16) -> (r: Option<AuxAction>)
    ensures
        r == key_action_spec(key, pressed, shift),
        *final(aux) == match r {
            Some(a) => apply_spec(*old(aux), a, max_instances),
            None => *old(aux),
        },
{
    let action = key_action(key, pressed, shift);
    match action {
        Some(a) => apply_action(aux, a, max_instances),
        None => {},
    }
    action
}

/// Whether the tonemapping comparison split follows the cursor: while the
/// left button is held with ctrl.
pub fn follows_comparison(left_pressed: bool, ctrl: bool) -> (r: bool)
    ensures
        r == (left_pressed && ctrl),
{
    left_pressed && ctrl
}

/// How a mouse drag moves the camera: the left button rotates, the middle
/// one pans and the right one zooms, in that order of precedence, and
/// nothing moves while ctrl is held.
pub fn drag_mode(left: bool, middle: bool, right: bool, ctrl: bool) -> (r: Option<DragMode>)
    ensures
        r == (if ctrl { None } else if left { Some(DragMode::Rotate) } else if middle {
            Some(DragMode::Pan)
        } else if right { Some(DragMode::Zoom) } else { None }),
{
    if ctrl {
        None
    } else if left {
        Some(DragMode::Rotate)
    } else if middle {
        Some(DragMode::Pan)
    } else if right {
        Some(DragMode::Zoom)
    } else {
        None
    }
}

pub open spec fn dirtied(e: ComponentEvent) -> Option<u32> {
    match e {
        ComponentEvent::Inserted(id) | ComponentEvent::Modified(id) => Some(id),
        ComponentEvent::Removed(_) => None,
    }
}

/// The entities whose transform needs an update, in event order.
pub open spec fn dirty_spec(events: Seq<ComponentEvent>) -> Seq<u32>
    decreases events.len(),
{
    if events.len() == 0 {
        Seq::empty()
    } else {
        let p = dirty_spec(events.drop_last());
        match dirtied(events.last()) {
            Some(id) => p.push(id),
            None => p,
        }
    }
}

/// The entities that an insertion or a modification marks for a transform
/// update; removals mark nothing.
pub fn dirty_ids(events: &Vec<ComponentEvent>) -> (r: Vec<u32>)
    ensures
        r@ == dirty_spec(events@),
{
    let mut r: Vec<u32> = Vec::new();
    let mut i: usize = 0;
    while i < events.len()
        invariant
            i <= events@.len(),
            r@ == dirty_spec(events@.take(i as int)),
        decreases events@.len() - i,
    {
        proof {
            assert(events@.take(i + 1).drop_last() =~= events@.take(i as int));
        }
        match events[i] {
            ComponentEvent::Inserted(id) | ComponentEvent::Modified(id) => r.push(id),
            ComponentEvent::Removed(_) => {},
        }
        i = i + 1;
    }
    proof {
        assert(events@.take(i as int) =~= events@);
    }
    r
}

} // verus!
