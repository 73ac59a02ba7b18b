//! The orbit camera controller: a focus point, spherical yaw/pitch angles and
//! a distance, updated once per tick from pointer-drag and scroll deltas.
//! While the primary button is held, pointer motion orbits (rightward motion
//! increases yaw, upward motion increases pitch); while the secondary button
//! is held, pointer motion pans the focus along the camera's right/up basis,
//! scaled by the current radius; scroll always zooms. All inputs are clamped,
//! never rejected: the pitch stays strictly inside a vertical quarter turn
//! and the radius stays strictly positive, so the derived look-at transform
//! is never singular and needs no fallback up axis.

use vstd::prelude::*;
use vstd::arithmetic::div_mod::lemma_div_by_multiple;
use vstd::arithmetic::div_mod::lemma_div_is_ordered;
use vstd::arithmetic::div_mod::lemma_div_nonincreasing;
use vstd::arithmetic::div_mod::lemma_div_pos_is_pos;
use vstd::arithmetic::div_mod::lemma_small_mod;
use crate::geom::Point3;
use crate::geom::POS_LIMIT;
use crate::geom::clamp_i64;
use crate::geom::clamp_u64;
use crate::geom::spec_clamp_i64;
use crate::trig::spec_cos;
use crate::trig::spec_cos_signed;
use crate::trig::spec_norm_angle;
use crate::trig::spec_sin;
use crate::trig::spec_sin_signed;
use crate::trig::cos_mdeg;
use crate::trig::cos_signed;
use crate::trig::norm_angle_add;
use crate::trig::sin_mdeg;
use crate::trig::sin_signed;

verus! {

/// The pitch is clamped strictly inside a quarter turn (89 degrees, in
/// millidegrees), so it never reaches straight up or straight down.
pub const PITCH_LIMIT: i64 = 89_000;

/// Smallest radius, in space milliunits: the camera never reaches the focus.
pub const RADIUS_MIN: u64 = 100;

/// Largest radius, in space milliunits.
pub const RADIUS_MAX: u64 = 1_000_000_000;

/// Largest pointer delta magnitude absorbed per tick.
pub const POINTER_MAX: i64 = 10_000;

/// Largest scroll delta magnitude absorbed per tick.
pub const SCROLL_MAX: i64 = 5;

/// Orbit sensitivity: millidegrees of angle per pointer unit.
pub const ORBIT_SENS: i64 = 250;

/// Zoom sensitivity: per-mille radius change per scroll unit.
pub const ZOOM_SENS: i64 = 100;

/// Pan scale divisor: pointer units times trig scale.
pub const PAN_DIV: u64 = 1_000_000;

/// Direction scale divisor: the product of two trig-scaled factors.
pub const DIR_DIV: u64 = 1_000_000;

/// One tick's worth of input: pointer motion (rightward and upward positive),
/// scroll delta, and which pointer buttons are held.
#[derive(Clone, Copy, PartialEq, Eq, Structural, Debug)]
pub struct CameraInput {
    pub pointer_dx: i64,
    pub pointer_dy: i64,
    pub scroll: i64,
    pub orbit_held: bool,
    pub pan_held: bool,
}

impl CameraInput {
    /// An input with no motion at all.
    pub open spec fn is_zero(self) -> bool {
        self.pointer_dx == 0 && self.pointer_dy == 0 && self.scroll == 0
    }
}

/// The camera state: focus point, spherical angles (millidegrees) and
/// distance from the focus (space milliunits).
#[derive(Clone, Copy, PartialEq, Eq, Structural, Debug)]
pub struct OrbitCamera {
    pub focus: Point3,
    pub yaw: u64,
    pub pitch: i64,
    pub radius: u64,
}

/// The camera transform derived each tick: where the camera stands, looking
/// at the focus. The pitch never reaches the vertical, so a fixed world up
/// axis always yields a well-defined orientation.
#[derive(Clone, Copy, PartialEq, Eq, Structural, Debug)]
pub struct CameraTransform {
    pub position: Point3,
    pub focus: Point3,
}

/// `a * b / d`, the division rounding toward zero (sign and magnitude
/// handled separately).
pub open spec fn spec_mul_div(a: int, b: int, d: int) -> int {
    if a * b >= 0 {
        (a * b) / d
    } else {
        -((-(a * b)) / d)
    }
}

/// A bound on the product, divided by the divisor, bounds the scaled result.
pub proof fn lemma_mul_div_bound(a: int, b: int, d: int, m: int)
    requires
        0 < d,
        0 <= m,
        -m <= a * b <= m,
    ensures
        -(m / d) <= spec_mul_div(a, b, d) <= m / d,
{
    if a * b >= 0 {
        lemma_div_is_ordered(a * b, m, d);
        lemma_div_pos_is_pos(a * b, d);
        lemma_div_pos_is_pos(m, d);
    } else {
        lemma_div_is_ordered(-(a * b), m, d);
        lemma_div_pos_is_pos(-(a * b), d);
        lemma_div_pos_is_pos(m, d);
    }
}

/// Computes `spec_mul_div` exactly, without overflow.
pub fn mul_div(a: i64, b: i64, d: u64) -> (r: i64)
    requires
        0 < d,
        -3_000_000_000 <= a <= 3_000_000_000,
        -3_000_000_000 <= b <= 3_000_000_000,
    ensures
        r == spec_mul_div(a as int, b as int, d as int),
{
    let am: u64 = if a >= 0 {
        a as u64
    } else {
        (-a) as u64
    };
    let bm: u64 = if b >= 0 {
        b as u64
    } else {
        (-b) as u64
    };
    proof {
        assert(am * bm <= 9_000_000_000_000_000_000) by (nonlinear_arith)
            requires
                0 <= am <= 3_000_000_000,
                0 <= bm <= 3_000_000_000,
        ;
    }
    let p = am * bm;
    let m = p / d;
    proof {
        lemma_div_nonincreasing(p as int, d as int);
        lemma_div_pos_is_pos(p as int, d as int);
        if a >= 0 && b >= 0 {
            assert(a as int * b as int == am as int * bm as int && a as int * b as int >= 0)
                by (nonlinear_arith)
                requires
                    a >= 0,
                    b >= 0,
                    am == a as int,
                    bm == b as int,
            ;
        } else if a < 0 && b < 0 {
            assert(a as int * b as int == am as int * bm as int && a as int * b as int >= 0)
                by (nonlinear_arith)
                requires
                    a < 0,
                    b < 0,
                    am == -(a as int),
                    bm == -(b as int),
            ;
        } else if a < 0 {
            assert(-(a as int * b as int) == am as int * bm as int && a as int * b as int <= 0)
                by (nonlinear_arith)
                requires
                    a < 0,
                    b >= 0,
                    am == -(a as int),
                    bm == b as int,
            ;
        } else {
            assert(-(a as int * b as int) == am as int * bm as int && a as int * b as int <= 0)
                by (nonlinear_arith)
                requires
                    a >= 0,
                    b < 0,
                    am == a as int,
                    bm == -(b as int),
            ;
        }
    }
    if (a < 0) != (b < 0) {
        -(m as i64)
    } else {
        m as i64
    }
}

/// The camera-right basis vector's x component (trig scale).
pub open spec fn spec_right_x(yaw: int) -> int {
    -spec_sin(yaw)
}

/// The camera-right basis vector's z component (its y component is zero).
pub open spec fn spec_right_z(yaw: int) -> int {
    spec_cos(yaw)
}

/// The camera-up basis vector's x component (trig scale).
pub open spec fn spec_up_x(yaw: int, pitch: int) -> int {
    -spec_mul_div(spec_sin_signed(pitch), spec_cos(yaw), 1000)
}

/// The camera-up basis vector's y component (trig scale).
pub open spec fn spec_up_y(pitch: int) -> int {
    spec_cos_signed(pitch)
}

/// The camera-up basis vector's z component (trig scale).
pub open spec fn spec_up_z(yaw: int, pitch: int) -> int {
    -spec_mul_div(spec_sin_signed(pitch), spec_sin(yaw), 1000)
}

impl OrbitCamera {
    /// Angles reduced, pitch strictly inside the vertical, radius strictly
    /// positive and bounded, focus within the position bound.
    pub open spec fn wf(self) -> bool {
        &&& self.yaw < 360_000
        &&& -PITCH_LIMIT <= self.pitch <= PITCH_LIMIT
        &&& RADIUS_MIN <= self.radius <= RADIUS_MAX
        &&& self.focus.in_bounds()
    }

    /// The state `new` builds: every argument sanitized, none rejected.
    pub open spec fn spec_new(focus: Point3, yaw: u64, pitch: i64, radius: u64) -> OrbitCamera {
        (OrbitCamera {
            focus: focus.spec_clamped(),
            yaw: spec_norm_angle(yaw as int) as u64,
            pitch: spec_clamp_i64(pitch as int, -PITCH_LIMIT as int, PITCH_LIMIT as int) as i64,
            radius: spec_clamp_i64(radius as int, RADIUS_MIN as int, RADIUS_MAX as int) as u64,
        })
    }

    /// Builds a camera from the given focus, yaw (millidegrees), pitch
    /// (millidegrees) and radius (milliunits), clamping each into range.
    pub fn new(focus: Point3, yaw: u64, pitch: i64, radius: u64) -> (cam: OrbitCamera)
        ensures
            cam == OrbitCamera::spec_new(focus, yaw, pitch, radius),
            cam.wf(),
    {
        OrbitCamera {
            focus: focus.clamped(),
            yaw: yaw % 360_000,
            pitch: clamp_i64(pitch, -PITCH_LIMIT, PITCH_LIMIT),
            radius: clamp_u64(radius, RADIUS_MIN, RADIUS_MAX),
        }
    }

    /// The state after the orbit branch: yaw advanced and wrapped, pitch
    /// advanced and clamped strictly inside the vertical.
    pub open spec fn spec_orbit(self, dx: int, dy: int) -> OrbitCamera {
        (OrbitCamera {
            focus: self.focus,
            yaw: spec_norm_angle(self.yaw + dx * ORBIT_SENS) as u64,
            pitch: spec_clamp_i64(
                self.pitch + dy * ORBIT_SENS,
                -PITCH_LIMIT as int,
                PITCH_LIMIT as int,
            ) as i64,
            radius: self.radius,
        })
    }

    /// The state after the pan branch: the focus translated along the
    /// camera's right/up basis, proportionally to the motion and the current
    /// radius, and clamped back into the position bound.
    pub open spec fn spec_pan(self, dx: int, dy: int) -> OrbitCamera {
        let tx = dx * spec_right_x(self.yaw as int) + dy * spec_up_x(
            self.yaw as int,
            self.pitch as int,
        );
        let ty = dy * spec_up_y(self.pitch as int);
        let tz = dx * spec_right_z(self.yaw as int) + dy * spec_up_z(
            self.yaw as int,
            self.pitch as int,
        );
        (OrbitCamera {
            focus: Point3 {
                x: spec_clamp_i64(
                    self.focus.x + spec_mul_div(tx, self.radius as int, PAN_DIV as int),
                    -POS_LIMIT as int,
                    POS_LIMIT as int,
                ) as i64,
                y: spec_clamp_i64(
                    self.focus.y + spec_mul_div(ty, self.radius as int, PAN_DIV as int),
                    -POS_LIMIT as int,
                    POS_LIMIT as int,
                ) as i64,
                z: spec_clamp_i64(
                    self.focus.z + spec_mul_div(tz, self.radius as int, PAN_DIV as int),
                    -POS_LIMIT as int,
                    POS_LIMIT as int,
                ) as i64,
            },
            yaw: self.yaw,
            pitch: self.pitch,
            radius: self.radius,
        })
    }

    /// The state after the zoom step: the radius scaled by
    /// `1 - scroll * sensitivity` (per-mille) and clamped to stay strictly
    /// positive and bounded.
    pub open spec fn spec_zoom(self, sc: int) -> OrbitCamera {
        (OrbitCamera {
            focus: self.focus,
            yaw: self.yaw,
            pitch: self.pitch,
            radius: spec_clamp_i64(
                self.radius * (1000 - sc * ZOOM_SENS) / 1000,
                RADIUS_MIN as int,
                RADIUS_MAX as int,
            ) as u64,
        })
    }

    /// The state after one full tick of input: deltas clamped, then the
    /// orbit branch if the primary button is held, the pan branch if the
    /// secondary button is held, then the always-active zoom.
    pub open spec fn spec_update(self, input: CameraInput) -> OrbitCamera {
        let dx = spec_clamp_i64(input.pointer_dx as int, -POINTER_MAX as int, POINTER_MAX as int);
        let dy = spec_clamp_i64(input.pointer_dy as int, -POINTER_MAX as int, POINTER_MAX as int);
        let sc = spec_clamp_i64(input.scroll as int, -SCROLL_MAX as int, SCROLL_MAX as int);
        let c1 = if input.orbit_held {
            self.spec_orbit(dx, dy)
        } else {
            self
        };
        let c2 = if input.pan_held {
            c1.spec_pan(dx, dy)
        } else {
            c1
        };
        c2.spec_zoom(sc)
    }

    /// Consumes one tick's input. Never blocks, never fails: all inputs are
    /// clamped internally, and well-formedness is preserved.
    pub fn update(&mut self, input: CameraInput)
        requires
            old(self).wf(),
        ensures
            *final(self) == old(self).spec_update(input),
            final(self).wf(),
            input.is_zero() ==> *final(self) == *old(self),
    {
        proof {
            if input.is_zero() {
                lemma_zero_input_stable(*old(self), input);
            }
        }
        let dx = clamp_i64(input.pointer_dx, -POINTER_MAX, POINTER_MAX);
        let dy = clamp_i64(input.pointer_dy, -POINTER_MAX, POINTER_MAX);
        let sc = clamp_i64(input.scroll, -SCROLL_MAX, SCROLL_MAX);
        if input.orbit_held {
            self.yaw = norm_angle_add(self.yaw, dx * ORBIT_SENS);
            self.pitch = clamp_i64(self.pitch + dy * ORBIT_SENS, -PITCH_LIMIT, PITCH_LIMIT);
        }
        if input.pan_held {
            let rx = -sin_mdeg(self.yaw);
            let rz = cos_mdeg(self.yaw);
            let sy = sin_mdeg(self.yaw);
            let sp = sin_signed(self.pitch);
            let cp = cos_signed(self.pitch);
            proof {
                assert(-1_000_000 <= sp * rz <= 1_000_000 && -1_000_000 <= sp * sy <= 1_000_000)
                    by (nonlinear_arith)
                    requires
                        -1000 <= sp <= 1000,
                        -1000 <= rz <= 1000,
                        -1000 <= sy <= 1000,
                ;
                lemma_mul_div_bound(sp as int, rz as int, 1000, 1_000_000);
                lemma_mul_div_bound(sp as int, sy as int, 1000, 1_000_000);
            }
            let ux = -mul_div(sp, rz, 1000);
            let uy = cp;
            let uz = -mul_div(sp, sy, 1000);
            proof {
                assert(-10_000_000 <= dx * rx <= 10_000_000 && -10_000_000 <= dy * ux
                    <= 10_000_000 && -10_000_000 <= dy * uy <= 10_000_000 && -10_000_000 <= dx * rz
                    <= 10_000_000 && -10_000_000 <= dy * uz <= 10_000_000) by (nonlinear_arith)
                    requires
                        -10_000 <= dx <= 10_000,
                        -10_000 <= dy <= 10_000,
                        -1000 <= rx <= 1000,
                        -1000 <= rz <= 1000,
                        -1000 <= ux <= 1000,
                        -1000 <= uy <= 1000,
                        -1000 <= uz <= 1000,
                ;
            }
            let tx = dx * rx + dy * ux;
            let ty = dy * uy;
            let tz = dx * rz + dy * uz;
            let rad = self.radius as i64;
            proof {
                assert(-20_000_000_000_000_000 <= tx * rad <= 20_000_000_000_000_000
                    && -20_000_000_000_000_000 <= ty * rad <= 20_000_000_000_000_000
                    && -20_000_000_000_000_000 <= tz * rad <= 20_000_000_000_000_000)
                    by (nonlinear_arith)
                    requires
                        -20_000_000 <= tx <= 20_000_000,
                        -20_000_000 <= ty <= 20_000_000,
                        -20_000_000 <= tz <= 20_000_000,
                        0 <= rad <= 1_000_000_000,
                ;
                lemma_mul_div_bound(tx as int, rad as int, PAN_DIV as int, 20_000_000_000_000_000);
                lemma_mul_div_bound(ty as int, rad as int, PAN_DIV as int, 20_000_000_000_000_000);
                lemma_mul_div_bound(tz as int, rad as int, PAN_DIV as int, 20_000_000_000_000_000);
            }
            let px = mul_div(tx, rad, PAN_DIV);
            let py = mul_div(ty, rad, PAN_DIV);
            let pz = mul_div(tz, rad, PAN_DIV);
            self.focus = Point3 {
                x: clamp_i64(self.focus.x + px, -POS_LIMIT, POS_LIMIT),
                y: clamp_i64(self.focus.y + py, -POS_LIMIT, POS_LIMIT),
                z: clamp_i64(self.focus.z + pz, -POS_LIMIT, POS_LIMIT),
            };
        }
        let factor = 1000 - sc * ZOOM_SENS;
        proof {
            assert(self.radius * (factor as u64) <= 1_500_000_000_000) by (nonlinear_arith)
                requires
                    self.radius <= 1_000_000_000,
                    0 <= factor <= 1500,
            ;
        }
        let raw = (self.radius * (factor as u64)) / 1000;
        self.radius = clamp_u64(raw, RADIUS_MIN, RADIUS_MAX);
    }

    /// The transform derived from the state: the camera stands at the focus
    /// plus the radius along the view direction given by yaw and pitch, and
    /// looks at the focus.
    pub open spec fn spec_transform(self) -> CameraTransform {
        let dirx = spec_cos_signed(self.pitch as int) * spec_cos(self.yaw as int);
        let diry = spec_sin_signed(self.pitch as int) * 1000;
        let dirz = spec_cos_signed(self.pitch as int) * spec_sin(self.yaw as int);
        (CameraTransform {
            position: Point3 {
                x: (self.focus.x + spec_mul_div(dirx, self.radius as int, DIR_DIV as int)) as i64,
                y: (self.focus.y + spec_mul_div(diry, self.radius as int, DIR_DIV as int)) as i64,
                z: (self.focus.z + spec_mul_div(dirz, self.radius as int, DIR_DIV as int)) as i64,
            },
            focus: self.focus,
        })
    }

    /// Derives the camera transform for the renderer.
    pub fn transform(&self) -> (t: CameraTransform)
        requires
            self.wf(),
        ensures
            t == self.spec_transform(),
    {
        let cp = cos_signed(self.pitch);
        let sp = sin_signed(self.pitch);
        let cy = cos_mdeg(self.yaw);
        let sy = sin_mdeg(self.yaw);
        proof {
            assert(-1_000_000 <= cp * cy <= 1_000_000 && -1_000_000 <= cp * sy <= 1_000_000)
                by (nonlinear_arith)
                requires
                    -1000 <= cp <= 1000,
                    -1000 <= cy <= 1000,
                    -1000 <= sy <= 1000,
            ;
        }
        let dirx = cp * cy;
        let diry = sp * 1000;
        let dirz = cp * sy;
        let rad = self.radius as i64;
        proof {
            assert(-1_000_000_000_000_000 <= dirx * rad <= 1_000_000_000_000_000
                && -1_000_000_000_000_000 <= diry * rad <= 1_000_000_000_000_000
                && -1_000_000_000_000_000 <= dirz * rad <= 1_000_000_000_000_000)
                by (nonlinear_arith)
                requires
                    -1_000_000 <= dirx <= 1_000_000,
                    -1_000_000 <= diry <= 1_000_000,
                    -1_000_000 <= dirz <= 1_000_000,
                    0 <= rad <= 1_000_000_000,
            ;
            lemma_mul_div_bound(dirx as int, rad as int, DIR_DIV as int, 1_000_000_000_000_000);
            lemma_mul_div_bound(diry as int, rad as int, DIR_DIV as int, 1_000_000_000_000_000);
            lemma_mul_div_bound(dirz as int, rad as int, DIR_DIV as int, 1_000_000_000_000_000);
        }
        CameraTransform {
            position: Point3 {
                x: self.focus.x + mul_div(dirx, rad, DIR_DIV),
                y: self.focus.y + mul_div(diry, rad, DIR_DIV),
                z: self.focus.z + mul_div(dirz, rad, DIR_DIV),
            },
            focus: self.focus,
        }
    }
}

/// The camera after a whole sequence of per-tick inputs.
pub open spec fn spec_run(cam: OrbitCamera, inputs: Seq<CameraInput>) -> OrbitCamera
    decreases inputs.len(),
{
    if inputs.len() == 0 {
        cam
    } else {
        spec_run(cam.spec_update(inputs.first()), inputs.drop_first())
    }
}

/// One tick of input preserves well-formedness.
pub proof fn lemma_update_wf(cam: OrbitCamera, input: CameraInput)
    requires
        cam.wf(),
    ensures
        cam.spec_update(input).wf(),
{
}

/// Law: the radius is strictly positive after any sequence of updates,
/// including zoom-in sequences that would mathematically drive it to zero —
/// the clamp holds it at the positive minimum.
pub proof fn lemma_radius_always_positive(cam: OrbitCamera, inputs: Seq<CameraInput>)
    requires
        cam.wf(),
    ensures
        spec_run(cam, inputs).wf(),
        spec_run(cam, inputs).radius > 0,
    decreases inputs.len(),
{
    if inputs.len() > 0 {
        lemma_update_wf(cam, inputs.first());
        lemma_radius_always_positive(cam.spec_update(inputs.first()), inputs.drop_first());
    }
}

/// Law: the pitch never reaches the vertical (a quarter turn up or down)
/// after any sequence of updates.
pub proof fn lemma_pitch_never_vertical(cam: OrbitCamera, inputs: Seq<CameraInput>)
    requires
        cam.wf(),
    ensures
        -90_000 < spec_run(cam, inputs).pitch < 90_000,
{
    lemma_radius_always_positive(cam, inputs);
}

/// Law: a tick whose input deltas are all zero leaves the camera state — and
/// with it the derived transform — exactly as it was, whatever buttons are
/// held.
pub proof fn lemma_zero_input_stable(cam: OrbitCamera, input: CameraInput)
    requires
        cam.wf(),
        input.is_zero(),
    ensures
        cam.spec_update(input) == cam,
        cam.spec_update(input).spec_transform() == cam.spec_transform(),
{
    lemma_small_mod(cam.yaw as nat, 360_000nat);
    lemma_div_by_multiple(cam.radius as int, 1000);
}

/// Law: across any number of ticks of all-zero input deltas the camera state
/// and its transform stay bit-for-bit unchanged.
pub proof fn lemma_zero_inputs_run_stable(cam: OrbitCamera, inputs: Seq<CameraInput>)
    requires
        cam.wf(),
        forall|i: int| 0 <= i < inputs.len() ==> (#[trigger] inputs[i]).is_zero(),
    ensures
        spec_run(cam, inputs) == cam,
        spec_run(cam, inputs).spec_transform() == cam.spec_transform(),
    decreases inputs.len(),
{
    if inputs.len() > 0 {
        assert(inputs[0].is_zero());
        lemma_zero_input_stable(cam, inputs.first());
        lemma_zero_inputs_run_stable(cam, inputs.drop_first());
    }
}

} // verus!
