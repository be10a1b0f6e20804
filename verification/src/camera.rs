//! The camera: position, orientation and projection parameters.
//!
//! All quantities are fixed-point integers in millionths: a length of one
//! world unit is `UNIT`, an angle of one degree is `DEGREE`, one second is a
//! million microseconds. The orientation is held twice: as yaw and pitch,
//! which this module updates and clamps, and as the three axes derived from
//! them. Deriving them takes trigonometry, so the host does it and hands
//! them in; they are taken only if they are of unit length and at right
//! angles to each other, within a tolerance.

use vstd::prelude::*;

verus! {

/// One world unit, and the length of an axis.
pub const UNIT: i64 = 1_000_000;

/// One degree.
pub const DEGREE: i32 = 1_000_000;

/// A full turn; yaw is kept in `0 .. FULL_TURN`.
pub const FULL_TURN: i32 = 360_000_000;

/// Pitch is kept in `-PITCH_LIMIT ..= PITCH_LIMIT`.
pub const PITCH_LIMIT: i32 = 89_000_000;

/// The narrowest field of view.
pub const FOV_MIN: i32 = 1_000_000;

/// The widest field of view.
pub const FOV_MAX: i32 = 45_000_000;

/// Yaw of a new camera: it looks down the negative z axis.
pub const DEFAULT_YAW: i32 = 270_000_000;

/// Near clip plane of a new camera.
pub const DEFAULT_NEAR: i64 = 100_000;

/// Far clip plane of a new camera.
pub const DEFAULT_FAR: i64 = 100_000_000;

/// The square of `UNIT`: what an axis multiplied with itself gives.
pub const UNIT_SQUARED: i64 = 1_000_000_000_000;

/// How far the product of two axes may be from what it is for exact axes:
/// a hundred-thousandth of `UNIT_SQUARED`. The host derives the axes with
/// rounding, so they are never exact.
pub const TOLERANCE: i64 = 10_000_000;

/// What a product of an axis component, a speed and a time is divided by to
/// give a length.
pub const STEP_SCALE: i128 = 1_000_000_000_000;

/// A point or a direction.
#[derive(Clone, Copy, Debug, PartialEq, Eq)]
pub struct Vec3 {
    pub x: i64,
    pub y: i64,
    pub z: i64,
}

/// The camera's local axes.
#[derive(Clone, Copy, Debug, PartialEq, Eq)]
pub struct Axes {
    pub front: Vec3,
    pub right: Vec3,
    pub up: Vec3,
}

/// Which movement keys are held.
#[derive(Clone, Copy, Debug, PartialEq, Eq)]
pub struct Motion {
    pub forward: bool,
    pub back: bool,
    pub left: bool,
    pub right: bool,
    pub up: bool,
    pub down: bool,
}

/// Whether `c` can be a component of a vector of length `UNIT`.
pub open spec fn is_axis_component(c: int) -> bool {
    -UNIT <= c <= UNIT
}

impl Vec3 {
    /// Whether no component is longer than `UNIT`.
    pub open spec fn is_bounded(self) -> bool {
        &&& is_axis_component(self.x as int)
        &&& is_axis_component(self.y as int)
        &&& is_axis_component(self.z as int)
    }

    pub fn check_bounded(&self) -> (ok: bool)
        ensures
            ok == self.is_bounded(),
    {
        -UNIT <= self.x && self.x <= UNIT && -UNIT <= self.y && self.y <= UNIT && -UNIT <= self.z
            && self.z <= UNIT
    }
}

/// The inner product of two vectors.
pub open spec fn dot(a: Vec3, b: Vec3) -> int {
    a.x * b.x + a.y * b.y + a.z * b.z
}

/// Whether `v` has length `UNIT`, within the tolerance.
pub open spec fn is_unit(v: Vec3) -> bool {
    UNIT_SQUARED - TOLERANCE <= dot(v, v) <= UNIT_SQUARED + TOLERANCE
}

/// Whether `a` and `b` stand at a right angle, within the tolerance.
pub open spec fn is_orthogonal(a: Vec3, b: Vec3) -> bool {
    -TOLERANCE <= dot(a, b) <= TOLERANCE
}

/// The inner product of two vectors.
fn dot_exec(a: &Vec3, b: &Vec3) -> (d: i64)
    requires
        a.is_bounded(),
        b.is_bounded(),
    ensures
        d == dot(*a, *b),
{
    assert(-1_000_000_000_000 <= a.x * b.x <= 1_000_000_000_000) by (nonlinear_arith)
        requires
            -1_000_000 <= a.x <= 1_000_000,
            -1_000_000 <= b.x <= 1_000_000,
    ;
    assert(-1_000_000_000_000 <= a.y * b.y <= 1_000_000_000_000) by (nonlinear_arith)
        requires
            -1_000_000 <= a.y <= 1_000_000,
            -1_000_000 <= b.y <= 1_000_000,
    ;
    assert(-1_000_000_000_000 <= a.z * b.z <= 1_000_000_000_000) by (nonlinear_arith)
        requires
            -1_000_000 <= a.z <= 1_000_000,
            -1_000_000 <= b.z <= 1_000_000,
    ;
    a.x * b.x + a.y * b.y + a.z * b.z
}

fn check_unit(v: &Vec3) -> (ok: bool)
    requires
        v.is_bounded(),
    ensures
        ok == is_unit(*v),
{
    let d = dot_exec(v, v);
    UNIT_SQUARED - TOLERANCE <= d && d <= UNIT_SQUARED + TOLERANCE
}

fn check_orthogonal(a: &Vec3, b: &Vec3) -> (ok: bool)
    requires
        a.is_bounded(),
        b.is_bounded(),
    ensures
        ok == is_orthogonal(*a, *b),
{
    let d = dot_exec(a, b);
    -TOLERANCE <= d && d <= TOLERANCE
}

impl Axes {
    /// Whether no component of any axis is longer than `UNIT`.
    pub open spec fn is_bounded(self) -> bool {
        self.front.is_bounded() && self.right.is_bounded() && self.up.is_bounded()
    }

    /// Whether the three axes are of unit length and stand at right angles
    /// to each other, within the tolerance.
    pub open spec fn is_orthonormal(self) -> bool {
        &&& self.is_bounded()
        &&& is_unit(self.front)
        &&& is_unit(self.right)
        &&& is_unit(self.up)
        &&& is_orthogonal(self.front, self.right)
        &&& is_orthogonal(self.front, self.up)
        &&& is_orthogonal(self.right, self.up)
    }

    pub fn check_orthonormal(&self) -> (ok: bool)
        ensures
            ok == self.is_orthonormal(),
    {
        self.check_bounded() && check_unit(&self.front) && check_unit(&self.right) && check_unit(
            &self.up,
        ) && check_orthogonal(&self.front, &self.right) && check_orthogonal(&self.front, &self.up)
            && check_orthogonal(&self.right, &self.up)
    }

    /// The axes of a camera that looks down the negative z axis with the
    /// y axis up.
    pub open spec fn initial() -> Axes {
        Axes {
            front: Vec3 { x: 0, y: 0, z: (-UNIT) as i64 },
            right: Vec3 { x: UNIT, y: 0, z: 0 },
            up: Vec3 { x: 0, y: UNIT, z: 0 },
        }
    }

    pub fn check_bounded(&self) -> (ok: bool)
        ensures
            ok == self.is_bounded(),
    {
        self.front.check_bounded() && self.right.check_bounded() && self.up.check_bounded()
    }
}

/// `v` if only `plus` is held, `-v` if only `minus` is held, else nothing:
/// two opposite keys cancel.
pub open spec fn toward(plus: bool, minus: bool, v: int) -> int {
    if plus && !minus {
        v
    } else if minus && !plus {
        -v
    } else {
        0
    }
}

/// One component of the direction of travel: the sum of the axes whose keys
/// are held. The sum is not brought back to unit length, so a diagonal is
/// longer than a straight line.
pub open spec fn heading(motion: Motion, front: int, right: int, up: int) -> int {
    toward(motion.forward, motion.back, front) + toward(motion.right, motion.left, right)
        + toward(motion.up, motion.down, up)
}

/// The length travelled along a direction component `d` at `speed` during
/// `dt`, rounded toward zero.
pub open spec fn travel(d: int, speed: int, dt: int) -> int {
    let n = d * speed * dt;
    if n >= 0 {
        n / (STEP_SCALE as int)
    } else {
        -((-n) / (STEP_SCALE as int))
    }
}

/// `v` brought into `lo ..= hi`.
pub open spec fn clamp(v: int, lo: int, hi: int) -> int {
    if v < lo {
        lo
    } else if v > hi {
        hi
    } else {
        v
    }
}

/// The yaw after turning by `dx` steps of `sensitivity`, in `0 .. FULL_TURN`.
pub open spec fn turned_yaw(yaw: int, dx: int, sensitivity: int) -> int {
    (yaw + dx * sensitivity) % (FULL_TURN as int)
}

/// The pitch after tilting by `dy` steps of `sensitivity`: moving the
/// pointer down the screen lowers the pitch, and the result stops at the
/// limit on either side.
pub open spec fn tilted_pitch(pitch: int, dy: int, sensitivity: int) -> int {
    clamp(pitch - dy * sensitivity, -PITCH_LIMIT as int, PITCH_LIMIT as int)
}

/// The field of view after `scroll`: scrolling up narrows it, one line by
/// one degree, and the result stops at the limit on either side.
pub open spec fn zoomed_fov(fov: int, scroll: int) -> int {
    clamp(fov - scroll, FOV_MIN as int, FOV_MAX as int)
}

/// What a [`Camera`] stands for in contracts.
pub ghost struct CameraView {
    pub position: Vec3,
    pub world_up: Vec3,
    /// The axes as the host last derived them.
    pub axes: Axes,
    pub yaw: i32,
    pub pitch: i32,
    pub fov: i32,
    pub aspect_width: u32,
    pub aspect_height: u32,
    pub near: i64,
    pub far: i64,
}

impl CameraView {
    /// The invariant of every camera.
    pub open spec fn wf(self) -> bool {
        &&& 0 <= self.yaw < FULL_TURN
        &&& -PITCH_LIMIT <= self.pitch <= PITCH_LIMIT
        &&& FOV_MIN <= self.fov <= FOV_MAX
        &&& self.axes.is_orthonormal()
    }

    /// The position that `stepped` aims for, which may lie outside of what a
    /// position can hold.
    pub open spec fn target(self, motion: Motion, speed: u32, dt: i64) -> (int, int, int) {
        let a = self.axes;
        (
            self.position.x + travel(
                heading(motion, a.front.x as int, a.right.x as int, a.up.x as int),
                speed as int,
                dt as int,
            ),
            self.position.y + travel(
                heading(motion, a.front.y as int, a.right.y as int, a.up.y as int),
                speed as int,
                dt as int,
            ),
            self.position.z + travel(
                heading(motion, a.front.z as int, a.right.z as int, a.up.z as int),
                speed as int,
                dt as int,
            ),
        )
    }

    /// Whether `v` is a coordinate that a position can hold.
    pub open spec fn in_reach(v: int) -> bool {
        i64::MIN <= v <= i64::MAX
    }

    /// The camera after moving for `dt` microseconds at `speed` along the
    /// axes whose keys are held.
    ///
    /// A time that is not positive moves nothing, and neither does a step
    /// that would leave the range of positions.
    pub open spec fn stepped(self, motion: Motion, speed: u32, dt: i64) -> CameraView {
        let t = self.target(motion, speed, dt);
        if dt > 0 && Self::in_reach(t.0) && Self::in_reach(t.1) && Self::in_reach(t.2) {
            CameraView { position: Vec3 { x: t.0 as i64, y: t.1 as i64, z: t.2 as i64 }, ..self }
        } else {
            self
        }
    }

    /// The camera after a pointer movement of `(dx, dy)`.
    pub open spec fn looked(self, dx: i64, dy: i64, sensitivity: u32) -> CameraView {
        CameraView {
            yaw: turned_yaw(self.yaw as int, dx as int, sensitivity as int) as i32,
            pitch: tilted_pitch(self.pitch as int, dy as int, sensitivity as int) as i32,
            ..self
        }
    }

    /// The camera after a scroll.
    pub open spec fn zoomed(self, scroll: i64) -> CameraView {
        CameraView { fov: zoomed_fov(self.fov as int, scroll as int) as i32, ..self }
    }

    /// The camera with the axes the host derived, if they are orthonormal.
    pub open spec fn with_axes(self, axes: Axes) -> CameraView {
        if axes.is_orthonormal() {
            CameraView { axes, ..self }
        } else {
            self
        }
    }
}

/// A free-moving camera.
pub struct Camera {
    position: Vec3,
    world_up: Vec3,
    axes: Axes,
    yaw: i32,
    pitch: i32,
    fov: i32,
    aspect_width: u32,
    aspect_height: u32,
    near: i64,
    far: i64,
}

impl View for Camera {
    type V = CameraView;

    closed spec fn view(&self) -> CameraView {
        CameraView {
            position: self.position,
            world_up: self.world_up,
            axes: self.axes,
            yaw: self.yaw,
            pitch: self.pitch,
            fov: self.fov,
            aspect_width: self.aspect_width,
            aspect_height: self.aspect_height,
            near: self.near,
            far: self.far,
        }
    }
}

/// `v` with the sign that the held keys give it.
fn toward_exec(plus: bool, minus: bool, v: i64) -> (r: i64)
    requires
        is_axis_component(v as int),
    ensures
        r == toward(plus, minus, v as int),
{
    if plus && !minus {
        v
    } else if minus && !plus {
        -v
    } else {
        0
    }
}

/// One component of the direction of travel.
fn heading_exec(motion: Motion, front: i64, right: i64, up: i64) -> (d: i64)
    requires
        is_axis_component(front as int),
        is_axis_component(right as int),
        is_axis_component(up as int),
    ensures
        d == heading(motion, front as int, right as int, up as int),
        -3 * UNIT <= d <= 3 * UNIT,
{
    toward_exec(motion.forward, motion.back, front) + toward_exec(motion.right, motion.left, right)
        + toward_exec(motion.up, motion.down, up)
}

/// The length travelled along a direction component.
fn travel_exec(d: i64, speed: u32, dt: i64) -> (len: i128)
    requires
        -3 * UNIT <= d <= 3 * UNIT,
        dt > 0,
    ensures
        len == travel(d as int, speed as int, dt as int),
        -0x4000_0000_0000_0000_0000_0000 <= len <= 0x4000_0000_0000_0000_0000_0000,
{
    assert(-3_000_000 * 0x1_0000_0000 <= d * speed <= 3_000_000 * 0x1_0000_0000)
        by (nonlinear_arith)
        requires
            -3_000_000 <= d <= 3_000_000,
            0 <= speed < 0x1_0000_0000,
    ;
    let a: i128 = d as i128 * speed as i128;
    assert(-3_000_000 * 0x1_0000_0000 * 0x8000_0000_0000_0000 <= a * dt <= 3_000_000
        * 0x1_0000_0000 * 0x8000_0000_0000_0000) by (nonlinear_arith)
        requires
            -3_000_000 * 0x1_0000_0000 <= a <= 3_000_000 * 0x1_0000_0000,
            0 < dt < 0x8000_0000_0000_0000,
    ;
    let n: i128 = a * dt as i128;
    if n >= 0 {
        n / STEP_SCALE
    } else {
        -((-n) / STEP_SCALE)
    }
}

/// `base + len` if a position can hold it.
fn offset_exec(base: i64, len: i128) -> (r: Option<i64>)
    requires
        -0x4000_0000_0000_0000_0000_0000 <= len <= 0x4000_0000_0000_0000_0000_0000,
    ensures
        CameraView::in_reach(base + len) ==> r == Some((base + len) as i64),
        !CameraView::in_reach(base + len) ==> r is None,
{
    let sum: i128 = base as i128 + len;
    if sum < i64::MIN as i128 || sum > i64::MAX as i128 {
        None
    } else {
        Some(sum as i64)
    }
}

/// The product of a pointer movement and a sensitivity.
fn steps_exec(d: i64, sensitivity: u32) -> (p: i128)
    ensures
        p == d * sensitivity,
        -0x8000_0000_0000_0000_0000_0000 <= p <= 0x8000_0000_0000_0000_0000_0000,
{
    assert(-0x8000_0000_0000_0000 * 0x1_0000_0000 <= d * sensitivity <= 0x8000_0000_0000_0000
        * 0x1_0000_0000) by (nonlinear_arith)
        requires
            -0x8000_0000_0000_0000 <= d < 0x8000_0000_0000_0000,
            0 <= sensitivity < 0x1_0000_0000,
    ;
    d as i128 * sensitivity as i128
}

/// The yaw after a turn.
fn turn_exec(yaw: i32, dx: i64, sensitivity: u32) -> (r: i32)
    requires
        0 <= yaw < FULL_TURN,
    ensures
        r == turned_yaw(yaw as int, dx as int, sensitivity as int),
        0 <= r < FULL_TURN,
{
    let turn = steps_exec(dx, sensitivity);
    let full: i128 = 360_000_000;
    if turn >= 0 {
        let sum: i128 = yaw as i128 + turn % full;
        let r: i128 = if sum >= full {
            sum - full
        } else {
            sum
        };
        proof {
            let q = (turn as int) / 360_000_000 + if sum >= full { 1int } else { 0int };
            vstd::arithmetic::div_mod::lemma_fundamental_div_mod_converse(
                yaw + turn,
                360_000_000,
                q,
                r as int,
            );
        }
        r as i32
    } else {
        let back: i128 = -turn;
        let sum: i128 = yaw as i128 - back % full;
        let r: i128 = if sum < 0 {
            sum + full
        } else {
            sum
        };
        proof {
            let q = -((back as int) / 360_000_000) - if sum < 0 { 1int } else { 0int };
            vstd::arithmetic::div_mod::lemma_fundamental_div_mod_converse(
                yaw + turn,
                360_000_000,
                q,
                r as int,
            );
        }
        r as i32
    }
}

/// The pitch after a tilt.
fn tilt_exec(pitch: i32, dy: i64, sensitivity: u32) -> (r: i32)
    requires
        -PITCH_LIMIT <= pitch <= PITCH_LIMIT,
    ensures
        r == tilted_pitch(pitch as int, dy as int, sensitivity as int),
        -PITCH_LIMIT <= r <= PITCH_LIMIT,
{
    let tilt: i128 = pitch as i128 - steps_exec(dy, sensitivity);
    if tilt < -(PITCH_LIMIT as i128) {
        -PITCH_LIMIT
    } else if tilt > PITCH_LIMIT as i128 {
        PITCH_LIMIT
    } else {
        tilt as i32
    }
}

impl Camera {
    #[verifier::type_invariant]
    closed spec fn inv(self) -> bool {
        self@.wf()
    }

    pub fn position(&self) -> (p: Vec3)
        ensures
            p == self@.position,
    {
        self.position
    }

    pub fn world_up(&self) -> (v: Vec3)
        ensures
            v == self@.world_up,
    {
        self.world_up
    }

    /// The axes; they are of unit length and at right angles to each other,
    /// within the tolerance.
    pub fn axes(&self) -> (a: Axes)
        ensures
            a == self@.axes,
            a.is_orthonormal(),
    {
        proof {
            use_type_invariant(self);
        }
        self.axes
    }

    /// Yaw in millionths of a degree, in `0 .. FULL_TURN`.
    pub fn yaw(&self) -> (a: i32)
        ensures
            a == self@.yaw,
            0 <= a < FULL_TURN,
    {
        proof {
            use_type_invariant(self);
        }
        self.yaw
    }

    /// Pitch in millionths of a degree, in `-PITCH_LIMIT ..= PITCH_LIMIT`.
    pub fn pitch(&self) -> (a: i32)
        ensures
            a == self@.pitch,
            -PITCH_LIMIT <= a <= PITCH_LIMIT,
    {
        proof {
            use_type_invariant(self);
        }
        self.pitch
    }

    /// Field of view in millionths of a degree, in `FOV_MIN ..= FOV_MAX`.
    pub fn fov(&self) -> (a: i32)
        ensures
            a == self@.fov,
            FOV_MIN <= a <= FOV_MAX,
    {
        proof {
            use_type_invariant(self);
        }
        self.fov
    }

    /// The two sides of the aspect ratio, width first.
    pub fn aspect(&self) -> (sides: (u32, u32))
        ensures
            sides == (self@.aspect_width, self@.aspect_height),
    {
        (self.aspect_width, self.aspect_height)
    }

    pub fn near(&self) -> (d: i64)
        ensures
            d == self@.near,
    {
        self.near
    }

    pub fn far(&self) -> (d: i64)
        ensures
            d == self@.far,
    {
        self.far
    }

    /// Takes the axes that the host derived from yaw, pitch and the world's
    /// up direction. Axes that are not orthonormal are refused: the camera
    /// stays as it was and the result is `false`.
    pub fn set_axes(&mut self, axes: Axes) -> (taken: bool)
        ensures
            taken == axes.is_orthonormal(),
            final(self)@ == old(self)@.with_axes(axes),
            final(self)@.wf(),
    {
        proof {
            use_type_invariant(&*self);
        }
        if axes.check_orthonormal() {
            self.axes = axes;
            true
        } else {
            false
        }
    }

    /// Moves the camera along the axes whose keys are held.
    pub fn advance(&mut self, motion: Motion, speed: u32, dt: i64)
        ensures
            final(self)@ == old(self)@.stepped(motion, speed, dt),
            final(self)@.wf(),
    {
        proof {
            use_type_invariant(&*self);
        }
        if dt <= 0 {
            return ;
        }
        let a = self.axes;
        let dx = travel_exec(heading_exec(motion, a.front.x, a.right.x, a.up.x), speed, dt);
        let dy = travel_exec(heading_exec(motion, a.front.y, a.right.y, a.up.y), speed, dt);
        let dz = travel_exec(heading_exec(motion, a.front.z, a.right.z, a.up.z), speed, dt);
        let x = offset_exec(self.position.x, dx);
        let y = offset_exec(self.position.y, dy);
        let z = offset_exec(self.position.z, dz);
        match (x, y, z) {
            (Some(x), Some(y), Some(z)) => {
                self.position = Vec3 { x, y, z };
            },
            _ => {},
        }
    }

    /// Turns and tilts the camera by a pointer movement.
    pub fn look(&mut self, dx: i64, dy: i64, sensitivity: u32)
        ensures
            final(self)@ == old(self)@.looked(dx, dy, sensitivity),
            final(self)@.wf(),
    {
        proof {
            use_type_invariant(&*self);
        }
        let yaw = turn_exec(self.yaw, dx, sensitivity);
        let pitch = tilt_exec(self.pitch, dy, sensitivity);
        self.yaw = yaw;
        self.pitch = pitch;
    }

    /// Narrows or widens the field of view by a scroll.
    pub fn zoom(&mut self, scroll: i64)
        ensures
            final(self)@ == old(self)@.zoomed(scroll),
            final(self)@.wf(),
    {
        proof {
            use_type_invariant(&*self);
        }
        let wanted: i128 = self.fov as i128 - scroll as i128;
        let fov: i128 = if wanted < FOV_MIN as i128 {
            FOV_MIN as i128
        } else if wanted > FOV_MAX as i128 {
            FOV_MAX as i128
        } else {
            wanted
        };
        self.fov = fov as i32;
    }
}

/// Collects what a new camera needs.
#[derive(Clone, Copy, Debug, PartialEq, Eq)]
pub struct CameraBuilder {
    pub position: Vec3,
    pub world_up: Vec3,
    pub aspect_width: u32,
    pub aspect_height: u32,
}

impl CameraBuilder {
    /// Starts a camera at `position` in a world whose up direction is
    /// `world_up`, with a square aspect ratio.
    pub fn new(position: Vec3, world_up: Vec3) -> (builder: CameraBuilder)
        ensures
            builder == (CameraBuilder { position, world_up, aspect_width: 1, aspect_height: 1 }),
    {
        CameraBuilder { position, world_up, aspect_width: 1, aspect_height: 1 }
    }

    /// Sets the aspect ratio to `width : height`.
    pub fn aspect(self, width: u32, height: u32) -> (builder: CameraBuilder)
        ensures
            builder == (CameraBuilder { aspect_width: width, aspect_height: height, ..self }),
    {
        CameraBuilder { aspect_width: width, aspect_height: height, ..self }
    }

    /// The camera that `build` returns.
    pub open spec fn built(self) -> CameraView {
        CameraView {
            position: self.position,
            world_up: self.world_up,
            axes: Axes::initial(),
            yaw: DEFAULT_YAW,
            pitch: 0,
            fov: FOV_MAX,
            aspect_width: self.aspect_width,
            aspect_height: self.aspect_height,
            near: DEFAULT_NEAR,
            far: DEFAULT_FAR,
        }
    }

    /// A level camera that looks down the negative z axis with the widest
    /// field of view. Its axes are those of a world whose up direction is the
    /// y axis; for another `world_up` the host derives them and calls
    /// [`Camera::set_axes`].
    pub fn build(self) -> (camera: Camera)
        ensures
            camera@ == self.built(),
            camera@.wf(),
    {
        proof {
            lemma_initial_axes_are_exact();
        }
        Camera {
            position: self.position,
            world_up: self.world_up,
            axes: Axes {
                front: Vec3 { x: 0, y: 0, z: -UNIT },
                right: Vec3 { x: UNIT, y: 0, z: 0 },
                up: Vec3 { x: 0, y: UNIT, z: 0 },
            },
            yaw: DEFAULT_YAW,
            pitch: 0,
            fov: FOV_MAX,
            aspect_width: self.aspect_width,
            aspect_height: self.aspect_height,
            near: DEFAULT_NEAR,
            far: DEFAULT_FAR,
        }
    }
}

/// Moving, looking, zooming and taking axes keep a camera valid: yaw stays
/// within one turn, pitch within its limit on both sides, the field of view
/// between its narrowest and widest value, and the axes orthonormal.
pub proof fn lemma_updates_keep_camera_valid(
    camera: CameraView,
    motion: Motion,
    speed: u32,
    dt: i64,
    dx: i64,
    dy: i64,
    sensitivity: u32,
    scroll: i64,
    axes: Axes,
)
    requires
        camera.wf(),
    ensures
        camera.stepped(motion, speed, dt).wf(),
        camera.looked(dx, dy, sensitivity).wf(),
        camera.zoomed(scroll).wf(),
        camera.with_axes(axes).wf(),
{
}

/// The axes of a new camera are exactly of unit length and exactly at right
/// angles to each other.
pub proof fn lemma_initial_axes_are_exact()
    ensures
        dot(Axes::initial().front, Axes::initial().front) == UNIT_SQUARED,
        dot(Axes::initial().right, Axes::initial().right) == UNIT_SQUARED,
        dot(Axes::initial().up, Axes::initial().up) == UNIT_SQUARED,
        dot(Axes::initial().front, Axes::initial().right) == 0,
        dot(Axes::initial().front, Axes::initial().up) == 0,
        dot(Axes::initial().right, Axes::initial().up) == 0,
        Axes::initial().is_orthonormal(),
{
    let a = Axes::initial();
    assert(a.front.z * a.front.z == 1_000_000_000_000) by (nonlinear_arith)
        requires
            a.front.z == -1_000_000,
    ;
    assert(a.right.x * a.right.x == 1_000_000_000_000) by (nonlinear_arith)
        requires
            a.right.x == 1_000_000,
    ;
    assert(a.up.y * a.up.y == 1_000_000_000_000) by (nonlinear_arith)
        requires
            a.up.y == 1_000_000,
    ;
}

/// The axes of a valid camera are of unit length and at right angles to
/// each other, within the tolerance, in whichever order two of them are
/// taken.
pub proof fn lemma_axes_are_orthonormal(camera: CameraView)
    requires
        camera.wf(),
    ensures
        is_unit(camera.axes.front),
        is_unit(camera.axes.right),
        is_unit(camera.axes.up),
        is_orthogonal(camera.axes.right, camera.axes.front),
        is_orthogonal(camera.axes.up, camera.axes.front),
        is_orthogonal(camera.axes.right, camera.axes.up),
{
    let a = camera.axes;
    assert(dot(a.right, a.front) == dot(a.front, a.right)) by (nonlinear_arith)
        requires
            dot(a.right, a.front) == a.right.x * a.front.x + a.right.y * a.front.y + a.right.z
                * a.front.z,
            dot(a.front, a.right) == a.front.x * a.right.x + a.front.y * a.right.y + a.front.z
                * a.right.z,
    ;
    assert(dot(a.up, a.front) == dot(a.front, a.up)) by (nonlinear_arith)
        requires
            dot(a.up, a.front) == a.up.x * a.front.x + a.up.y * a.front.y + a.up.z * a.front.z,
            dot(a.front, a.up) == a.front.x * a.up.x + a.front.y * a.up.y + a.front.z * a.up.z,
    ;
}

/// A pointer movement that would tilt the camera to or past the limit leaves
/// the pitch exactly at the limit, on either side; any movement that stays
/// inside is taken as it is.
pub proof fn lemma_pitch_stops_at_limit(camera: CameraView, dx: i64, dy: i64, sensitivity: u32)
    requires
        camera.wf(),
    ensures
        -PITCH_LIMIT <= camera.looked(dx, dy, sensitivity).pitch <= PITCH_LIMIT,
        camera.pitch - dy * sensitivity >= PITCH_LIMIT ==> camera.looked(
            dx,
            dy,
            sensitivity,
        ).pitch == PITCH_LIMIT,
        camera.pitch - dy * sensitivity <= -PITCH_LIMIT ==> camera.looked(
            dx,
            dy,
            sensitivity,
        ).pitch == -PITCH_LIMIT,
        -PITCH_LIMIT <= camera.pitch - dy * sensitivity <= PITCH_LIMIT ==> camera.looked(
            dx,
            dy,
            sensitivity,
        ).pitch == camera.pitch - dy * sensitivity,
{
}

/// Once the pitch is at a limit, further movement in the same direction
/// leaves it there: at the upper limit while the pointer does not move down
/// the screen, at the lower limit while it does not move up.
pub proof fn lemma_pitch_stays_at_limit(camera: CameraView, dx: i64, dy: i64, sensitivity: u32)
    requires
        camera.wf(),
    ensures
        camera.pitch == PITCH_LIMIT && dy <= 0 ==> camera.looked(dx, dy, sensitivity).pitch
            == PITCH_LIMIT,
        camera.pitch == -PITCH_LIMIT && dy >= 0 ==> camera.looked(dx, dy, sensitivity).pitch
            == -PITCH_LIMIT,
{
    assert(dy <= 0 ==> dy * sensitivity <= 0) by (nonlinear_arith)
        requires
            sensitivity >= 0,
    ;
    assert(dy >= 0 ==> dy * sensitivity >= 0) by (nonlinear_arith)
        requires
            sensitivity >= 0,
    ;
}

/// Moving, looking and zooming do not depend on each other: in whichever
/// order the three are applied, the camera ends the same. Movement goes by
/// the axes, which neither a turn nor a zoom touches.
pub proof fn lemma_frame_updates_commute(
    camera: CameraView,
    motion: Motion,
    speed: u32,
    dt: i64,
    dx: i64,
    dy: i64,
    sensitivity: u32,
    scroll: i64,
)
    requires
        camera.wf(),
    ensures
        camera.stepped(motion, speed, dt).looked(dx, dy, sensitivity) == camera.looked(
            dx,
            dy,
            sensitivity,
        ).stepped(motion, speed, dt),
        camera.stepped(motion, speed, dt).zoomed(scroll) == camera.zoomed(scroll).stepped(
            motion,
            speed,
            dt,
        ),
        camera.looked(dx, dy, sensitivity).zoomed(scroll) == camera.zoomed(scroll).looked(
            dx,
            dy,
            sensitivity,
        ),
{
}

/// A scroll that would take the field of view past either end leaves it at
/// that end; a scroll that stays inside is taken as it is.
pub proof fn lemma_zoom_stops_at_limits(camera: CameraView, scroll: i64)
    requires
        camera.wf(),
    ensures
        FOV_MIN <= camera.zoomed(scroll).fov <= FOV_MAX,
        camera.fov - scroll <= FOV_MIN ==> camera.zoomed(scroll).fov == FOV_MIN,
        camera.fov - scroll >= FOV_MAX ==> camera.zoomed(scroll).fov == FOV_MAX,
        FOV_MIN <= camera.fov - scroll <= FOV_MAX ==> camera.zoomed(scroll).fov == camera.fov
            - scroll,
{
}

/// The field of view never grows with the scroll: more scroll up gives a
/// field of view that is as narrow or narrower, and strictly narrower while
/// both results are inside the range.
pub proof fn lemma_zoom_is_monotonic(camera: CameraView, less: i64, more: i64)
    requires
        camera.wf(),
        less <= more,
    ensures
        camera.zoomed(more).fov <= camera.zoomed(less).fov,
        less < more && FOV_MIN < camera.fov - more && camera.fov - less < FOV_MAX
            ==> camera.zoomed(more).fov < camera.zoomed(less).fov,
{
}

/// Opposite keys cancel, and with no key held, or no time passed, the camera
/// stays where it is.
pub proof fn lemma_still_camera(camera: CameraView, motion: Motion, speed: u32, dt: i64)
    requires
        camera.wf(),
        motion.forward == motion.back,
        motion.left == motion.right,
        motion.up == motion.down,
    ensures
        camera.stepped(motion, speed, dt) == camera,
        camera.stepped(motion, speed, 0) == camera,
{
    assert(0int * speed * dt == 0) by (nonlinear_arith);
}

/// Straight movement along one axis is exact: with only the forward key
/// held, each coordinate changes by the front axis times speed times time,
/// rounded toward zero.
pub proof fn lemma_forward_is_straight(camera: CameraView, speed: u32, dt: i64)
    requires
        camera.wf(),
        dt > 0,
    ensures
        ({
            let motion = Motion {
                forward: true,
                back: false,
                left: false,
                right: false,
                up: false,
                down: false,
            };
            camera.target(motion, speed, dt) == (
                camera.position.x + travel(camera.axes.front.x as int, speed as int, dt as int),
                camera.position.y + travel(camera.axes.front.y as int, speed as int, dt as int),
                camera.position.z + travel(camera.axes.front.z as int, speed as int, dt as int),
            )
        }),
{
}

} // verus!
