//! What the renderer knows between frames: the surface settings in force,
//! the size last configured, and the scene.

use crate::host::{take_needs_resize, HostSignals};
use crate::scene::{at_least_one, clamp_extent, Aspect, SceneUniforms, BALL_X, BALL_Y, MIN_EXTENT};
use crate::surface::{choose_surface_settings, configurable, SurfaceSettings};
use vstd::prelude::*;

verus! {

/// The renderer's state. The settings and the scene always agree with the
/// size last configured, that size is at least one pixel each way, and the
/// scene is the scene at rest.
#[derive(Clone, Copy, Debug)]
pub struct RenderState {
    config: SurfaceSettings,
    width: u32,
    height: u32,
    uniforms: SceneUniforms,
}

impl RenderState {
    #[verifier::type_invariant]
    spec fn coherent(&self) -> bool {
        &&& self.width >= MIN_EXTENT
        &&& self.height >= MIN_EXTENT
        &&& self.config.width == self.width
        &&& self.config.height == self.height
        &&& self.uniforms == SceneUniforms::spec_initial(
            Aspect::spec_of(self.width, self.height),
        )
    }

    /// The surface settings in force.
    pub closed spec fn spec_config(&self) -> SurfaceSettings {
        self.config
    }

    /// The width last configured, in pixels.
    pub closed spec fn spec_width(&self) -> u32 {
        self.width
    }

    /// The height last configured, in pixels.
    pub closed spec fn spec_height(&self) -> u32 {
        self.height
    }

    /// The scene as it will be drawn.
    pub closed spec fn spec_uniforms(&self) -> SceneUniforms {
        self.uniforms
    }

    /// Whether the scene is the scene at rest, seen through a viewport of
    /// the size last configured. Every state the renderer can be in shows
    /// it, so the two shapes are always drawn where they began.
    pub open spec fn shows_resting_scene(&self) -> bool {
        self.spec_uniforms() == SceneUniforms::spec_initial(
            Aspect::spec_of(self.spec_width(), self.spec_height()),
        )
    }

    /// Sets the renderer up for a canvas of the given size on a surface
    /// with the given capabilities: the surface settings are chosen and the
    /// scene is at rest. There is no state exactly when the surface cannot
    /// be configured.
    pub fn new(
        canvas_width: u32,
        canvas_height: u32,
        formats: &Vec<wgpu::TextureFormat>,
        present_modes: &Vec<wgpu::PresentMode>,
        alpha_modes: &Vec<wgpu::CompositeAlphaMode>,
    ) -> (made: Option<RenderState>)
        ensures
            made is Some <==> configurable(formats@, present_modes@, alpha_modes@),
            made matches Some(state) ==> {
                &&& state.spec_config().chosen_from(
                    formats@,
                    present_modes@,
                    alpha_modes@,
                    canvas_width,
                    canvas_height,
                )
                &&& state.spec_width() == at_least_one(canvas_width)
                &&& state.spec_height() == at_least_one(canvas_height)
                &&& state.shows_resting_scene()
            },
    {
        match choose_surface_settings(
            formats,
            present_modes,
            alpha_modes,
            canvas_width,
            canvas_height,
        ) {
            Some(config) => {
                let width: u32 = config.width;
                let height: u32 = config.height;
                let uniforms: SceneUniforms = SceneUniforms::initial(Aspect::of(width, height));
                Some(RenderState { config, width, height, uniforms })
            },
            None => None,
        }
    }

    /// The surface settings in force. Their size is the size last
    /// configured.
    #[verifier::when_used_as_spec(spec_config)]
    pub fn config(&self) -> (config: SurfaceSettings)
        ensures
            config == self.spec_config(),
            config.width == self.spec_width(),
            config.height == self.spec_height(),
    {
        proof {
            use_type_invariant(self);
        }
        self.config
    }

    /// The width last configured, which is at least one pixel.
    #[verifier::when_used_as_spec(spec_width)]
    pub fn width(&self) -> (width: u32)
        ensures
            width == self.spec_width(),
            width >= MIN_EXTENT,
    {
        proof {
            use_type_invariant(self);
        }
        self.width
    }

    /// The height last configured, which is at least one pixel.
    #[verifier::when_used_as_spec(spec_height)]
    pub fn height(&self) -> (height: u32)
        ensures
            height == self.spec_height(),
            height >= MIN_EXTENT,
    {
        proof {
            use_type_invariant(self);
        }
        self.height
    }

    /// The scene as it will be drawn: the scene at rest, with the aspect
    /// ratio of the size last configured.
    #[verifier::when_used_as_spec(spec_uniforms)]
    pub fn uniforms(&self) -> (uniforms: SceneUniforms)
        ensures
            uniforms == self.spec_uniforms(),
            self.shows_resting_scene(),
            uniforms.aspect.defined(),
    {
        proof {
            use_type_invariant(self);
        }
        self.uniforms
    }

    /// Whether a frame drawn for a canvas of the given size must be preceded
    /// by configuring the surface anew: the page has announced a resize, or
    /// the canvas no longer has the size last configured.
    pub open spec fn must_reconfigure(
        &self,
        resize_pending: bool,
        canvas_width: u32,
        canvas_height: u32,
    ) -> bool {
        ||| resize_pending
        ||| at_least_one(canvas_width) != self.spec_width()
        ||| at_least_one(canvas_height) != self.spec_height()
    }

    /// Brings the state in line with the canvas before a frame is drawn and
    /// says whether the surface must be configured anew with the settings
    /// now in force. A pending resize announcement is taken in any case.
    /// Where nothing has to be configured, the state is left as it was.
    pub fn resize_if_needed(
        &mut self,
        signals: &mut HostSignals,
        canvas_width: u32,
        canvas_height: u32,
    ) -> (reconfigure: bool)
        ensures
            reconfigure == old(self).must_reconfigure(
                old(signals).resize_pending(),
                canvas_width,
                canvas_height,
            ),
            !final(signals).resize_pending(),
            final(signals).dpr() == old(signals).dpr(),
            final(self).spec_width() == at_least_one(canvas_width),
            final(self).spec_height() == at_least_one(canvas_height),
            final(self).spec_config() == old(self).spec_config().resized(
                at_least_one(canvas_width),
                at_least_one(canvas_height),
            ),
            final(self).spec_uniforms() == old(self).spec_uniforms().with_aspect(
                Aspect::spec_of(at_least_one(canvas_width), at_least_one(canvas_height)),
            ),
            final(self).shows_resting_scene(),
            !reconfigure ==> *final(self) == *old(self),
    {
        proof {
            use_type_invariant(&*self);
        }
        let w: u32 = clamp_extent(canvas_width);
        let h: u32 = clamp_extent(canvas_height);
        let needs_resize: bool = take_needs_resize(signals);
        if needs_resize || w != self.width || h != self.height {
            let config: SurfaceSettings = SurfaceSettings { width: w, height: h, ..self.config };
            let uniforms: SceneUniforms = SceneUniforms { aspect: Aspect::of(w, h), ..self.uniforms };
            *self = RenderState { config, width: w, height: h, uniforms };
            true
        } else {
            false
        }
    }

    /// Advances the scene by one frame. Nothing moves yet: the ball is put
    /// at its resting place and everything else is left as it was.
    pub fn update(&mut self)
        ensures
            final(self).spec_uniforms() == old(self).spec_uniforms().stepped(),
            final(self).spec_config() == old(self).spec_config(),
            final(self).spec_width() == old(self).spec_width(),
            final(self).spec_height() == old(self).spec_height(),
            final(self).shows_resting_scene(),
    {
        proof {
            use_type_invariant(&*self);
        }
        let uniforms: SceneUniforms = SceneUniforms {
            ball_x: BALL_X,
            ball_y: BALL_Y,
            ..self.uniforms
        };
        *self = RenderState { uniforms, ..*self };
    }
}

} // verus!
