//! The render context: the model of the resources that depend on the surface
//! (its configuration, the depth target, the projection), together with the
//! render state, and the four entry points that an event loop calls: `resize`,
//! `input`, `update` and `render`.
//!
//! The context decides; the caller performs. After `initialize` and after a
//! `resize` that was applied, the caller configures the surface as `surface()`
//! says, makes a depth target as `depth()` says and computes the projection
//! matrix from `projection()`. After `render` it executes the commands.

use vstd::prelude::*;
use crate::frame::{
    draw_count,
    error_class,
    pass_commands,
    record_pass,
    recovery_for,
    Recovery,
    RenderCommand,
    RenderError,
    SurfaceFault,
};
use crate::input::{consumes, Key, PressState};
use crate::mesh::{generate_sphere, index_count, sphere_mesh, SphereMesh};
use crate::state::{RenderState, SurfaceSize};
use crate::surface::{is_preferred_format, select_surface_format};
use crate::uniform::{UniformBlock, PRIMARY_INSTANCE, SECONDARY_INSTANCE};

verus! {

/// Latitude bands of the sphere.
pub const SPHERE_LAT_BANDS: u32 = 50;

/// Longitude bands of the sphere.
pub const SPHERE_LONG_BANDS: u32 = 50;

/// Indices of the sphere: `50 * 50 * 6`.
pub const SPHERE_INDEX_COUNT: u32 = 15000;

/// Frames that may be queued for presentation.
pub const FRAME_LATENCY: u32 = 2;

/// Vertical field of view, in degrees.
pub const FIELD_OF_VIEW_DEGREES: u32 = 50;

/// Distance of the near plane, in thousandths: 0.1.
pub const NEAR_PLANE_MILLIS: u32 = 100;

/// Distance of the far plane, in thousandths: 100.0.
pub const FAR_PLANE_MILLIS: u32 = 100_000;

/// Distance of the camera from the origin, along the z axis.
pub const CAMERA_DISTANCE: i32 = 4;

/// How the surface is configured.
#[derive(Clone, Copy, Debug, PartialEq, Eq)]
pub struct SurfaceConfig {
    pub format: wgpu::TextureFormat,
    pub width: u32,
    pub height: u32,
    pub frame_latency: u32,
}

/// The size of the depth target, a 32-bit float for each pixel.
#[derive(Clone, Copy, Debug, PartialEq, Eq, Structural)]
pub struct DepthTarget {
    pub width: u32,
    pub height: u32,
}

/// The perspective projection: the aspect ratio is `aspect_width /
/// aspect_height`, the planes are given in thousandths.
#[derive(Clone, Copy, Debug, PartialEq, Eq, Structural)]
pub struct Projection {
    pub fov_degrees: u32,
    pub aspect_width: u32,
    pub aspect_height: u32,
    pub near_millis: u32,
    pub far_millis: u32,
}

/// A point or a direction with whole coordinates.
#[derive(Clone, Copy, Debug, PartialEq, Eq, Structural)]
pub struct Vector {
    pub x: i32,
    pub y: i32,
    pub z: i32,
}

/// Where the camera stands, what it looks at, and which way is up.
#[derive(Clone, Copy, Debug, PartialEq, Eq, Structural)]
pub struct Camera {
    pub eye: Vector,
    pub target: Vector,
    pub up: Vector,
}

/// Why a context could not be made.
#[derive(Clone, Copy, Debug, PartialEq, Eq, Structural)]
pub enum InitError {
    /// The surface reports no format: the adapter cannot serve it.
    IncompatibleSurface,
    /// The surface has no area to configure.
    ZeroSize,
}

/// What the event loop reports.
#[derive(Clone, Copy, Debug, PartialEq, Eq, Structural)]
pub enum Event {
    /// A key went down or came up.
    Key { key: Key, press: PressState },
    /// The window is asked to close.
    CloseRequested,
    /// The window has a new size.
    Resized { width: u32, height: u32 },
    /// A frame is due, `dt` nanoseconds after the last one.
    RedrawRequested { dt: i64 },
    /// Anything else.
    Other,
}

/// What the event loop does next.
#[derive(Clone, Copy, Debug, PartialEq, Eq, Structural)]
pub enum Action {
    /// Nothing.
    Idle,
    /// Leave the event loop.
    Exit,
    /// Configure the surface, make the depth target and compute the
    /// projection anew, as the context now describes them.
    Reconfigure,
    /// Write the uniforms of the frame, acquire a frame target and render.
    DrawFrame,
}

/// The projection for a surface size.
pub open spec fn projection_for(size: SurfaceSize) -> Projection {
    Projection {
        fov_degrees: FIELD_OF_VIEW_DEGREES,
        aspect_width: size.width,
        aspect_height: size.height,
        near_millis: NEAR_PLANE_MILLIS,
        far_millis: FAR_PLANE_MILLIS,
    }
}

/// The camera: on the z axis, looking at the origin, the y axis up. It does
/// not move.
pub open spec fn fixed_camera() -> Camera {
    Camera {
        eye: Vector { x: 0, y: 0, z: CAMERA_DISTANCE },
        target: Vector { x: 0, y: 0, z: 0 },
        up: Vector { x: 0, y: 1, z: 0 },
    }
}

/// What a context is, as mathematics.
pub struct ContextModel {
    pub surface: SurfaceConfig,
    pub depth: DepthTarget,
    pub projection: Projection,
    pub index_count: u32,
    pub state: RenderState,
}

impl ContextModel {
    /// The surface has an area, everything that depends on its size agrees
    /// with it, and the state is well-formed.
    pub open spec fn wf(self) -> bool {
        &&& !self.state.surface_size.is_empty()
        &&& self.surface.width == self.state.surface_size.width
        &&& self.surface.height == self.state.surface_size.height
        &&& self.surface.frame_latency == FRAME_LATENCY
        &&& self.depth == (DepthTarget {
            width: self.state.surface_size.width,
            height: self.state.surface_size.height,
        })
        &&& self.projection == projection_for(self.state.surface_size)
        &&& self.index_count == SPHERE_INDEX_COUNT
        &&& self.state.wf()
    }

    /// The context with everything that depends on the size made anew for
    /// `size`.
    pub open spec fn resized(self, size: SurfaceSize) -> ContextModel {
        ContextModel {
            surface: SurfaceConfig { width: size.width, height: size.height, ..self.surface },
            depth: DepthTarget { width: size.width, height: size.height },
            projection: projection_for(size),
            state: RenderState { surface_size: size, ..self.state },
            ..self
        }
    }

    /// The context after an event.
    pub open spec fn after_event(self, event: Event) -> ContextModel {
        match event {
            Event::Key { key, press } => ContextModel {
                state: self.state.after_key(key, press),
                ..self
            },
            Event::Resized { width, height } => self.after_resize(SurfaceSize { width, height }),
            Event::RedrawRequested { dt } => ContextModel {
                state: self.state.after_update(dt),
                ..self
            },
            Event::CloseRequested => self,
            Event::Other => self,
        }
    }

    /// The context after a resize event: an empty size is ignored.
    pub open spec fn after_resize(self, size: SurfaceSize) -> ContextModel {
        if size.is_empty() {
            self
        } else {
            self.resized(size)
        }
    }
}

/// What is to be done after an event. A key event is the input handler's,
/// taken or not; a resize that was ignored asks for nothing.
pub open spec fn action_for(event: Event) -> Action {
    match event {
        Event::Key { .. } => Action::Idle,
        Event::CloseRequested => Action::Exit,
        Event::Resized { width, height } => if width > 0 && height > 0 {
            Action::Reconfigure
        } else {
            Action::Idle
        },
        Event::RedrawRequested { .. } => Action::DrawFrame,
        Event::Other => Action::Idle,
    }
}

/// The context that a run starts from.
pub open spec fn initial_context(size: SurfaceSize, format: wgpu::TextureFormat) -> ContextModel {
    ContextModel {
        surface: SurfaceConfig {
            format,
            width: size.width,
            height: size.height,
            frame_latency: FRAME_LATENCY,
        },
        depth: DepthTarget { width: size.width, height: size.height },
        projection: projection_for(size),
        index_count: SPHERE_INDEX_COUNT,
        state: RenderState {
            time: 0,
            style_id: 0,
            show_secondary: false,
            camera_angle: 0,
            surface_size: size,
        },
    }
}

/// Resizing twice to the same size is resizing once.
pub proof fn lemma_resize_is_idempotent(context: ContextModel, size: SurfaceSize)
    ensures
        context.after_resize(size).after_resize(size) == context.after_resize(size),
        !size.is_empty() ==> context.after_resize(size).depth == (DepthTarget {
            width: size.width,
            height: size.height,
        }),
        !size.is_empty() ==> context.after_resize(size).projection == projection_for(size),
{
}

/// A resize to a size with a zero side changes nothing.
pub proof fn lemma_empty_resize_is_ignored(context: ContextModel, size: SurfaceSize)
    requires
        size.width == 0 || size.height == 0,
    ensures
        context.after_resize(size) == context,
        context.after_resize(size).surface == context.surface,
        context.after_resize(size).projection == context.projection,
{
}

/// A well-formed context stays well-formed under resize events, and a resize
/// to the size it has leaves it as it is.
pub proof fn lemma_resize_keeps_well_formed(context: ContextModel, size: SurfaceSize)
    requires
        context.wf(),
    ensures
        context.after_resize(size).wf(),
        context.after_resize(context.state.surface_size) == context,
        context.after_resize(size).surface.format == context.surface.format,
        context.after_resize(size).state.time == context.state.time,
        context.after_resize(size).state.style_id == context.state.style_id,
        context.after_resize(size).state.show_secondary == context.state.show_secondary,
{
}

/// The render context.
#[derive(Debug)]
pub struct RenderContext {
    surface: SurfaceConfig,
    depth: DepthTarget,
    projection: Projection,
    index_count: u32,
    state: RenderState,
}

impl View for RenderContext {
    type V = ContextModel;

    closed spec fn view(&self) -> ContextModel {
        ContextModel {
            surface: self.surface,
            depth: self.depth,
            projection: self.projection,
            index_count: self.index_count,
            state: self.state,
        }
    }
}

impl RenderContext {
    #[verifier::type_invariant]
    closed spec fn well_formed(&self) -> bool {
        self@.wf()
    }

    /// Makes the context for a surface of the given size that reports the
    /// given formats, and the sphere mesh to upload.
    ///
    /// The format is the first sRGB-encoded one, or the first one of all. A
    /// surface without formats is `IncompatibleSurface`; a surface with
    /// formats and a zero side is `ZeroSize`.
    pub fn initialize(width: u32, height: u32, formats: &Vec<wgpu::TextureFormat>) -> (r: Result<
        (RenderContext, SphereMesh),
        InitError,
    >)
        ensures
            match r {
                Ok((context, mesh)) => {
                    &&& formats@.len() > 0
                    &&& width > 0
                    &&& height > 0
                    &&& is_preferred_format(formats@, context@.surface.format)
                    &&& context@ == initial_context(
                        SurfaceSize { width, height },
                        context@.surface.format,
                    )
                    &&& context@.wf()
                    &&& mesh@ == sphere_mesh(SPHERE_LAT_BANDS as nat, SPHERE_LONG_BANDS as nat)
                    &&& mesh@.indices.len() == context@.index_count
                },
                Err(InitError::IncompatibleSurface) => formats@.len() == 0,
                Err(InitError::ZeroSize) => formats@.len() > 0 && (width == 0 || height == 0),
            },
    {
        let format = match select_surface_format(formats) {
            None => {
                return Err(InitError::IncompatibleSurface);
            },
            Some(format) => format,
        };
        if width == 0 || height == 0 {
            return Err(InitError::ZeroSize);
        }
        let sphere = generate_sphere(SPHERE_LAT_BANDS, SPHERE_LONG_BANDS);
        assert(index_count(50, 50) == SPHERE_INDEX_COUNT);
        let mesh = sphere.unwrap();
        let indices = mesh.index_count();
        let context = RenderContext {
            surface: SurfaceConfig { format, width, height, frame_latency: FRAME_LATENCY },
            depth: DepthTarget { width, height },
            projection: Projection {
                fov_degrees: FIELD_OF_VIEW_DEGREES,
                aspect_width: width,
                aspect_height: height,
                near_millis: NEAR_PLANE_MILLIS,
                far_millis: FAR_PLANE_MILLIS,
            },
            index_count: indices,
            state: RenderState::new(width, height),
        };
        Ok((context, mesh))
    }

    /// The configuration that the surface has, or is to be given.
    pub fn surface(&self) -> (surface: SurfaceConfig)
        ensures
            surface == self@.surface,
            surface.width > 0,
            surface.height > 0,
    {
        proof {
            use_type_invariant(self);
        }
        self.surface
    }

    /// The size of the depth target, which is the size of the surface.
    pub fn depth(&self) -> (depth: DepthTarget)
        ensures
            depth == self@.depth,
            depth.width == self@.surface.width,
            depth.height == self@.surface.height,
    {
        proof {
            use_type_invariant(self);
        }
        self.depth
    }

    /// The projection, whose aspect ratio is that of the surface.
    pub fn projection(&self) -> (projection: Projection)
        ensures
            projection == self@.projection,
            projection == projection_for(self@.state.surface_size),
            projection.aspect_height > 0,
    {
        proof {
            use_type_invariant(self);
        }
        self.projection
    }

    /// The camera. It is the same at every time: the camera angle of the
    /// state does not enter it.
    pub fn camera(&self) -> (camera: Camera)
        ensures
            camera == fixed_camera(),
    {
        Camera {
            eye: Vector { x: 0, y: 0, z: CAMERA_DISTANCE },
            target: Vector { x: 0, y: 0, z: 0 },
            up: Vector { x: 0, y: 1, z: 0 },
        }
    }

    /// The render state.
    pub fn state(&self) -> (state: RenderState)
        ensures
            state == self@.state,
            state.wf(),
    {
        proof {
            use_type_invariant(self);
        }
        self.state
    }

    /// Number of indices of the mesh.
    pub fn index_count(&self) -> (n: u32)
        ensures
            n == self@.index_count,
            n == SPHERE_INDEX_COUNT,
    {
        proof {
            use_type_invariant(self);
        }
        self.index_count
    }

    /// The angle by which the model is turned about the vertical axis, in
    /// nanoradians.
    pub fn rotation_angle(&self) -> (angle: u64)
        ensures
            angle == crate::state::rotation_angle_at(self@.state.time),
    {
        self.state.rotation_angle()
    }

    /// Handles a resize event and says whether anything is to be done. A size
    /// with a zero side (a minimised window) is ignored. For any other size
    /// the surface configuration, the depth target and the projection are
    /// those of the new size, and the caller makes the resources anew.
    pub fn resize(&mut self, width: u32, height: u32) -> (applied: bool)
        ensures
            final(self)@ == old(self)@.after_resize(SurfaceSize { width, height }),
            applied == (width > 0 && height > 0),
            !applied ==> final(self)@ == old(self)@,
            final(self)@.wf(),
    {
        proof {
            use_type_invariant(&*self);
        }
        if width > 0 && height > 0 {
            *self = RenderContext {
                surface: SurfaceConfig {
                    format: self.surface.format,
                    width,
                    height,
                    frame_latency: self.surface.frame_latency,
                },
                depth: DepthTarget { width, height },
                projection: Projection {
                    fov_degrees: FIELD_OF_VIEW_DEGREES,
                    aspect_width: width,
                    aspect_height: height,
                    near_millis: NEAR_PLANE_MILLIS,
                    far_millis: FAR_PLANE_MILLIS,
                },
                index_count: self.index_count,
                state: RenderState {
                    time: self.state.time,
                    style_id: self.state.style_id,
                    show_secondary: self.state.show_secondary,
                    camera_angle: self.state.camera_angle,
                    surface_size: SurfaceSize { width, height },
                },
            };
            true
        } else {
            false
        }
    }

    /// Handles a key event and says whether it was taken.
    pub fn input(&mut self, key: Key, press: PressState) -> (consumed: bool)
        ensures
            final(self)@ == (ContextModel {
                state: old(self)@.state.after_key(key, press),
                ..old(self)@
            }),
            consumed == consumes(key, press),
            !consumed ==> final(self)@ == old(self)@,
            final(self)@.wf(),
    {
        proof {
            use_type_invariant(&*self);
        }
        let mut state = self.state;
        let consumed = state.handle_key(key, press);
        *self = RenderContext {
            surface: self.surface,
            depth: self.depth,
            projection: self.projection,
            index_count: self.index_count,
            state,
        };
        consumed
    }

    /// Advances the time by `dt` nanoseconds; a negative `dt` is taken as
    /// zero, so the time never decreases.
    pub fn update(&mut self, dt: i64)
        ensures
            final(self)@ == (ContextModel { state: old(self)@.state.after_update(dt), ..old(self)@ }),
            final(self)@.state.time >= old(self)@.state.time,
            dt <= 0 ==> final(self)@ == old(self)@,
            final(self)@.wf(),
    {
        proof {
            use_type_invariant(&*self);
        }
        let mut state = self.state;
        state.update(dt);
        *self = RenderContext {
            surface: self.surface,
            depth: self.depth,
            projection: self.projection,
            index_count: self.index_count,
            state,
        };
    }

    /// The two uniform blocks of a frame, the primary body's first. Both are
    /// made from the same state and the same matrices and time, which the
    /// caller computes; they differ in the instance flag and in nothing else.
    pub fn frame_uniforms(&self, view_projection: [u32; 16], model: [u32; 16], time: u32) -> (r: (
        UniformBlock,
        UniformBlock,
    ))
        ensures
            r.0 == (UniformBlock {
                view_projection,
                model,
                time,
                style_id: self@.state.style_id,
                instance_flag: PRIMARY_INSTANCE,
                padding: 0,
            }),
            r.1 == (UniformBlock { instance_flag: SECONDARY_INSTANCE, ..r.0 }),
    {
        let primary = UniformBlock {
            view_projection,
            model,
            time,
            style_id: self.state.style_id,
            instance_flag: PRIMARY_INSTANCE,
            padding: 0,
        };
        let secondary = primary.with_instance(SECONDARY_INSTANCE);
        (primary, secondary)
    }

    /// Renders a frame, given how acquiring the frame target went. With a
    /// frame target the result is the commands to execute: one pass that draws
    /// the primary body and, if it is shown, the secondary one, then submits
    /// and presents. Without one it is the class of the fault, and nothing is
    /// recorded.
    pub fn render(&self, acquired: Result<(), SurfaceFault>) -> (r: Result<
        Vec<RenderCommand>,
        RenderError,
    >)
        ensures
            match acquired {
                Ok(_) => {
                    &&& r matches Ok(commands)
                    &&& commands@ == pass_commands(self@.index_count, self@.state.show_secondary)
                    &&& draw_count(commands@) == if self@.state.show_secondary {
                        2nat
                    } else {
                        1nat
                    }
                },
                Err(fault) => r matches Err(error) && error == error_class(fault),
            },
    {
        match acquired {
            Ok(_) => Ok(record_pass(self.index_count, self.state.show_secondary)),
            Err(fault) => Err(fault.classify()),
        }
    }

    /// Handles one event of the event loop and says what the loop does next.
    /// Key events go to the input handler; a close request ends the loop; a
    /// resize is applied unless the size is empty; a redraw request advances
    /// the time and asks for a frame.
    pub fn handle_event(&mut self, event: Event) -> (action: Action)
        ensures
            final(self)@ == old(self)@.after_event(event),
            action == action_for(event),
            final(self)@.wf(),
    {
        proof {
            use_type_invariant(&*self);
        }
        match event {
            Event::Key { key, press } => {
                self.input(key, press);
                Action::Idle
            },
            Event::CloseRequested => Action::Exit,
            Event::Resized { width, height } => {
                if self.resize(width, height) {
                    Action::Reconfigure
                } else {
                    Action::Idle
                }
            },
            Event::RedrawRequested { dt } => {
                self.update(dt);
                Action::DrawFrame
            },
            Event::Other => Action::Idle,
        }
    }

    /// Says what to do about a frame that failed. A recoverable surface is
    /// resized to the size it has, which changes nothing in the context and
    /// makes the caller configure the surface again.
    pub fn recover(&mut self, error: RenderError) -> (recovery: Recovery)
        ensures
            recovery == recovery_for(error, old(self)@.state.surface_size),
            final(self)@ == old(self)@,
    {
        proof {
            use_type_invariant(&*self);
        }
        match error {
            RenderError::Fatal => Recovery::Terminate,
            RenderError::Transient => Recovery::SkipFrame,
            RenderError::RecoverableSurface => {
                let size = self.state.surface_size;
                self.resize(size.width, size.height);
                Recovery::Reconfigure { size }
            },
        }
    }
}

} // verus!
