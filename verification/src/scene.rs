//! The scene: a paddle and a ball in the unit square, and the shape of the
//! viewport they are drawn into.
//!
//! Positions and sizes are whole hundredths of the side of the unit square,
//! so a coordinate of 50 is the middle of the screen. The aspect ratio is
//! kept as the exact fraction of two pixel counts.

use vstd::prelude::*;

verus! {

/// How many units make up one side of the unit square.
pub const UNITS_PER_SIDE: u32 = 100;

/// Horizontal centre of the paddle.
pub const PADDLE_X: u32 = 50;

/// Vertical centre of the paddle.
pub const PADDLE_Y: u32 = 12;

/// Width of the paddle.
pub const PADDLE_W: u32 = 20;

/// Height of the paddle.
pub const PADDLE_H: u32 = 4;

/// Horizontal centre of the ball.
pub const BALL_X: u32 = 50;

/// Vertical centre of the ball.
pub const BALL_Y: u32 = 65;

/// Radius of the ball.
pub const BALL_R: u32 = 3;

/// The smallest extent a drawing surface may have in either direction.
pub const MIN_EXTENT: u32 = 1;

/// An extent in pixels raised to the smallest one a surface may have.
pub open spec fn at_least_one(extent: u32) -> u32 {
    if extent < MIN_EXTENT {
        MIN_EXTENT
    } else {
        extent
    }
}

/// Raises an extent in pixels to the smallest one a surface may have, so
/// that a canvas of no size still yields a surface that can be configured.
pub fn clamp_extent(extent: u32) -> (clamped: u32)
    ensures
        clamped == at_least_one(extent),
        clamped >= MIN_EXTENT,
        clamped >= extent,
{
    if extent < MIN_EXTENT {
        MIN_EXTENT
    } else {
        extent
    }
}

/// The aspect ratio of a viewport, as the fraction `width / height` of two
/// pixel counts.
#[derive(Clone, Copy, Debug, PartialEq, Eq, Structural)]
pub struct Aspect {
    pub width: u32,
    pub height: u32,
}

impl Aspect {
    /// The aspect ratio of a viewport of the given size. The divisor is
    /// raised to one, so the ratio is defined for every size.
    pub open spec fn spec_of(width: u32, height: u32) -> Aspect {
        Aspect { width, height: at_least_one(height) }
    }

    /// Whether the fraction has a divisor other than zero.
    pub open spec fn defined(&self) -> bool {
        self.height >= MIN_EXTENT
    }

    /// The aspect ratio of a viewport of the given size.
    pub fn of(width: u32, height: u32) -> (aspect: Aspect)
        ensures
            aspect == Aspect::spec_of(width, height),
            aspect.defined(),
    {
        Aspect { width, height: clamp_extent(height) }
    }
}

/// The draw parameters handed to the shader each frame.
#[derive(Clone, Copy, Debug, PartialEq, Eq, Structural)]
pub struct SceneUniforms {
    pub paddle_x: u32,
    pub paddle_y: u32,
    pub paddle_w: u32,
    pub paddle_h: u32,
    pub ball_x: u32,
    pub ball_y: u32,
    pub ball_r: u32,
    pub aspect: Aspect,
}

impl SceneUniforms {
    /// The scene at rest: the paddle low in the middle, the ball above it.
    pub open spec fn spec_initial(aspect: Aspect) -> SceneUniforms {
        SceneUniforms {
            paddle_x: PADDLE_X,
            paddle_y: PADDLE_Y,
            paddle_w: PADDLE_W,
            paddle_h: PADDLE_H,
            ball_x: BALL_X,
            ball_y: BALL_Y,
            ball_r: BALL_R,
            aspect,
        }
    }

    /// The scene after one step: the ball stands at its resting place and
    /// everything else is as before.
    pub open spec fn stepped(self) -> SceneUniforms {
        SceneUniforms { ball_x: BALL_X, ball_y: BALL_Y, ..self }
    }

    /// The same scene seen through a viewport of another shape.
    pub open spec fn with_aspect(self, aspect: Aspect) -> SceneUniforms {
        SceneUniforms { aspect, ..self }
    }

    /// Whether both shapes stand where they stand in the scene at rest.
    pub open spec fn at_rest(&self) -> bool {
        *self == SceneUniforms::spec_initial(self.aspect)
    }

    /// The scene at rest, for a viewport of the given shape.
    pub fn initial(aspect: Aspect) -> (scene: SceneUniforms)
        ensures
            scene == SceneUniforms::spec_initial(aspect),
            scene.at_rest(),
    {
        SceneUniforms {
            paddle_x: PADDLE_X,
            paddle_y: PADDLE_Y,
            paddle_w: PADDLE_W,
            paddle_h: PADDLE_H,
            ball_x: BALL_X,
            ball_y: BALL_Y,
            ball_r: BALL_R,
            aspect,
        }
    }
}

/// A scene at rest stays at rest through a step and through a change of
/// the viewport's shape, so the two shapes are always drawn where they
/// began.
pub proof fn lemma_rest_is_kept(scene: SceneUniforms, aspect: Aspect)
    requires
        scene.at_rest(),
    ensures
        scene.stepped() == scene,
        scene.with_aspect(aspect).at_rest(),
        scene.with_aspect(aspect) == SceneUniforms::spec_initial(aspect),
{
}

/// Stepping twice is the same as stepping once.
pub proof fn lemma_step_is_idempotent(scene: SceneUniforms)
    ensures
        scene.stepped().stepped() == scene.stepped(),
        scene.stepped().aspect == scene.aspect,
{
}

} // verus!
