//! The demo's window state: the surface size, the surface configuration that
//! follows it, the camera controller and what a frame draws.
use vstd::prelude::*;
use crate::controller::{CameraController, PhysicalSize, WindowEvent, event_direction};
use crate::geometry::{indices, pentagon_indices, VERTEX_COUNT};

verus! {

/// The size part of the surface configuration.
#[derive(Clone, Copy, Debug, PartialEq, Eq, Structural)]
pub struct SurfaceConfig {
    pub width: u32,
    pub height: u32,
}

/// Which texture a frame binds: the default one, or the alternative one
/// that the space key selects.
#[derive(Clone, Copy, Debug, PartialEq, Eq, Structural)]
pub enum TextureChoice {
    Diffuse,
    Asuka,
}

/// What a frame draws: which texture it binds and how many indices and
/// instances it draws.
#[derive(Clone, Copy, Debug, PartialEq, Eq, Structural)]
pub struct DrawPlan {
    pub texture: TextureChoice,
    pub index_count: u32,
    pub instance_count: u32,
}

/// The mathematical model of a [`State`].
pub struct StateView {
    pub size: PhysicalSize,
    pub config: SurfaceConfig,
    pub num_vertices: u32,
    pub num_indices: u32,
    pub is_space_pressed: bool,
    pub camera_controller: CameraController,
}

/// Whether a size has no zero side, the only sizes that a surface takes.
pub open spec fn is_drawable(size: PhysicalSize) -> bool {
    size.width > 0 && size.height > 0
}

impl StateView {
    /// The surface configuration holds the size of the surface.
    pub open spec fn config_matches_size(self) -> bool {
        self.config.width == self.size.width && self.config.height == self.size.height
    }

    /// Whether this state is one that the demo can reach: its surface has a
    /// drawable size that the configuration holds, it counts the pentagon's
    /// vertices and indices, and the space key is up (nothing presses it).
    pub open spec fn wf(self) -> bool {
        &&& self.config_matches_size()
        &&& is_drawable(self.size)
        &&& self.num_vertices == VERTEX_COUNT
        &&& self.num_indices == pentagon_indices().len()
        &&& !self.is_space_pressed
    }

    /// This state after a resize to `new_size`: a drawable size is taken by
    /// the surface and its configuration, any other size is ignored.
    pub open spec fn resized(self, new_size: PhysicalSize) -> StateView {
        if is_drawable(new_size) {
            StateView {
                size: new_size,
                config: SurfaceConfig { width: new_size.width, height: new_size.height },
                ..self
            }
        } else {
            self
        }
    }

    /// This state with the camera controller after `event`.
    pub open spec fn after_input(self, event: WindowEvent) -> StateView {
        StateView { camera_controller: self.camera_controller.after_event(event), ..self }
    }
}

/// A resize to a size with no zero side takes that size into the surface
/// and its configuration, whatever the size before, and keeps everything
/// else; a resize to a size with a zero side changes nothing.
pub proof fn lemma_resize_takes_any_drawable_size(s: StateView, new_size: PhysicalSize)
    ensures
        new_size.width > 0 && new_size.height > 0 ==> {
            &&& s.resized(new_size).size == new_size
            &&& s.resized(new_size).config.width == new_size.width
            &&& s.resized(new_size).config.height == new_size.height
            &&& s.resized(new_size).num_vertices == s.num_vertices
            &&& s.resized(new_size).num_indices == s.num_indices
            &&& s.resized(new_size).is_space_pressed == s.is_space_pressed
            &&& s.resized(new_size).camera_controller == s.camera_controller
        },
        new_size.width == 0 || new_size.height == 0 ==> s.resized(new_size) == s,
{
}

/// The demo's window state. Every state is well formed ([`StateView::wf`]):
/// its surface has a drawable size that the configuration holds.
pub struct State {
    size: PhysicalSize,
    config: SurfaceConfig,
    num_vertices: u32,
    num_indices: u32,
    is_space_pressed: bool,
    camera_controller: CameraController,
}

impl View for State {
    type V = StateView;

    closed spec fn view(&self) -> StateView {
        StateView {
            size: self.size,
            config: self.config,
            num_vertices: self.num_vertices,
            num_indices: self.num_indices,
            is_space_pressed: self.is_space_pressed,
            camera_controller: self.camera_controller,
        }
    }
}

impl State {
    #[verifier::type_invariant]
    spec fn well_formed(self) -> bool {
        &&& self.config.width == self.size.width
        &&& self.config.height == self.size.height
        &&& self.size.width > 0
        &&& self.size.height > 0
        &&& self.num_vertices == VERTEX_COUNT
        &&& self.num_indices == pentagon_indices().len()
        &&& !self.is_space_pressed
    }

    /// The state of a fresh window of the given size: the surface is
    /// configured to that size, the pentagon's vertices and indices are
    /// counted, the space key is up and no steering key is held down. A
    /// surface cannot be configured to a size with a zero side.
    pub fn new(size: PhysicalSize) -> (state: State)
        requires
            is_drawable(size),
        ensures
            state@.size == size,
            state@.config == (SurfaceConfig { width: size.width, height: size.height }),
            state@.num_vertices == VERTEX_COUNT,
            state@.num_indices == pentagon_indices().len(),
            !state@.is_space_pressed,
            state@.camera_controller == CameraController::new_spec(),
            state@.wf(),
    {
        let index_list = indices();
        State {
            size,
            config: SurfaceConfig { width: size.width, height: size.height },
            num_vertices: VERTEX_COUNT as u32,
            num_indices: index_list.len() as u32,
            is_space_pressed: false,
            camera_controller: CameraController::new(),
        }
    }

    /// The current surface size.
    pub fn size(&self) -> (size: PhysicalSize)
        ensures
            size == self@.size,
            self@.wf(),
    {
        proof {
            use_type_invariant(self);
        }
        self.size
    }

    /// The surface configuration, which always holds the surface size.
    pub fn config(&self) -> (config: SurfaceConfig)
        ensures
            config == self@.config,
            self@.wf(),
    {
        proof {
            use_type_invariant(self);
        }
        self.config
    }

    /// The camera controller.
    pub fn camera_controller(&self) -> (controller: CameraController)
        ensures
            controller == self@.camera_controller,
    {
        self.camera_controller
    }

    /// Takes a new surface size. A size with no zero side becomes the size
    /// of the surface and of its configuration, and the result says that the
    /// surface must be configured anew; any other size is ignored.
    pub fn resize(&mut self, new_size: PhysicalSize) -> (reconfigure: bool)
        ensures
            reconfigure == is_drawable(new_size),
            final(self)@ == old(self)@.resized(new_size),
            old(self)@.wf(),
            final(self)@.wf(),
    {
        proof {
            use_type_invariant(&*self);
        }
        if new_size.width > 0 && new_size.height > 0 {
            *self = State {
                size: new_size,
                config: SurfaceConfig { width: new_size.width, height: new_size.height },
                num_vertices: self.num_vertices,
                num_indices: self.num_indices,
                is_space_pressed: self.is_space_pressed,
                camera_controller: self.camera_controller,
            };
            true
        } else {
            false
        }
    }

    /// Hands a window event to the camera controller; returns whether the
    /// controller consumed it.
    pub fn input(&mut self, event: &WindowEvent) -> (consumed: bool)
        ensures
            consumed == event_direction(*event).is_some(),
            final(self)@ == old(self)@.after_input(*event),
            old(self)@.wf(),
            final(self)@.wf(),
    {
        proof {
            use_type_invariant(&*self);
        }
        let mut controller = self.camera_controller;
        let consumed = controller.process_events(event);
        *self = State {
            size: self.size,
            config: self.config,
            num_vertices: self.num_vertices,
            num_indices: self.num_indices,
            is_space_pressed: self.is_space_pressed,
            camera_controller: controller,
        };
        consumed
    }

    /// What the next frame draws: the alternative texture while the space
    /// key is down, else the default one; all the pentagon's indices; one
    /// instance. As nothing presses the space key, every frame binds the
    /// default texture and draws the pentagon's nine indices.
    pub fn render_plan(&self) -> (plan: DrawPlan)
        ensures
            self@.wf(),
            plan.texture == TextureChoice::Diffuse,
            plan.index_count == pentagon_indices().len(),
            plan.texture == (if self@.is_space_pressed {
                TextureChoice::Asuka
            } else {
                TextureChoice::Diffuse
            }),
            plan.index_count == self@.num_indices,
            plan.instance_count == 1,
    {
        proof {
            use_type_invariant(self);
        }
        DrawPlan {
            texture: if self.is_space_pressed {
                TextureChoice::Asuka
            } else {
                TextureChoice::Diffuse
            },
            index_count: self.num_indices,
            instance_count: 1,
        }
    }
}

} // verus!
