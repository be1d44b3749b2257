use vstd::prelude::*;

use crate::buffer::Buffer;
use crate::error::GfxError;
use crate::matrix::Mat4;
use crate::program::{ProgramTracker, ShaderProgram};

verus! {

pub const VERTEX_SOURCE: &'static str = "
attribute vec4 vertex_position;
attribute vec4 vertex_color;

uniform mat4 projection;
uniform mat4 view;
uniform mat4 model;

varying lowp vec4 color;

void main() {
    gl_Position = projection * view * model * vertex_position;
    color = vertex_color;
}";

pub const FRAGMENT_SOURCE: &'static str = "
varying lowp vec4 color;

void main() {
    gl_FragColor = color;
}";

pub const VERTEX_POSITION: &'static str = "vertex_position";

pub const VERTEX_COLOR: &'static str = "vertex_color";

pub const PROJECTION: &'static str = "projection";

pub const VIEW: &'static str = "view";

pub const MODEL: &'static str = "model";

/// Values per vertex in the position buffer.
pub const POSITION_COMPONENTS: i32 = 2;

/// Values per vertex in the color buffer.
pub const COLOR_COMPONENTS: i32 = 4;

/// Both vertex attributes of the shaders are registered with `p`.
pub open spec fn attributes_registered<P, U>(p: ShaderProgram<P, U>) -> bool {
    &&& p.attribute(VERTEX_POSITION@) is Some
    &&& p.attribute(VERTEX_COLOR@) is Some
}

/// The three matrix uniforms of the shaders are registered with `p`.
pub open spec fn uniforms_registered<P, U>(p: ShaderProgram<P, U>) -> bool {
    &&& p.uniform(PROJECTION@) is Some
    &&& p.uniform(VIEW@) is Some
    &&& p.uniform(MODEL@) is Some
}

/// The frame counter after one more frame; it starts over after the largest value.
pub open spec fn next_frame(frame: u64) -> u64 {
    if frame == u64::MAX {
        0
    } else {
        (frame + 1) as u64
    }
}

/// The state kept between frames: the program, the context's view of which
/// program is active, the two vertex buffers and the frame counter from
/// which the rotation is derived.
pub struct Renderer<P, U, B> {
    program: ShaderProgram<P, U>,
    tracker: ProgramTracker,
    position: Buffer<B>,
    color: Buffer<B>,
    frame: u64,
}

impl<P, U, B> Renderer<P, U, B> {
    pub closed spec fn program_spec(&self) -> ShaderProgram<P, U> {
        self.program
    }

    pub closed spec fn tracker_spec(&self) -> ProgramTracker {
        self.tracker
    }

    pub closed spec fn position_spec(&self) -> Buffer<B> {
        self.position
    }

    pub closed spec fn color_spec(&self) -> Buffer<B> {
        self.color
    }

    pub closed spec fn frame_spec(&self) -> u64 {
        self.frame
    }

    /// The renderer's program is active and knows every name the shaders use.
    pub open spec fn ready(&self) -> bool {
        &&& self.tracker_spec().active() == self.program_spec().uid_spec()
        &&& attributes_registered(self.program_spec())
        &&& uniforms_registered(self.program_spec())
    }

    /// `after` is `before` with one more frame drawn.
    pub open spec fn drawn(before: Self, after: Self) -> bool {
        &&& after.program_spec() == before.program_spec()
        &&& after.position_spec() == before.position_spec()
        &&& after.color_spec() == before.color_spec()
        &&& after.tracker_spec().active() == before.program_spec().uid_spec()
        &&& after.tracker_spec().issued() == before.tracker_spec().issued()
        &&& after.frame_spec() == next_frame(before.frame_spec())
    }

    /// Sets up rendering with a linked `program` whose attributes and uniforms
    /// have been registered, and the two filled vertex buffers. Activates the
    /// program and returns the attribute slots to enable.
    pub fn new<T>(
        program: ShaderProgram<P, U>,
        tracker: ProgramTracker,
        position_buffer: B,
        positions: &[T],
        color_buffer: B,
        colors: &[T],
    ) -> (r: Result<(Self, Vec<u32>), GfxError>)
        ensures
            r is Ok <==> attributes_registered(program) && uniforms_registered(program)
                && (positions@.len() as int) % (POSITION_COMPONENTS as int) == 0
                && (colors@.len() as int) % (COLOR_COMPONENTS as int) == 0,
            r matches Ok((s, enable)) ==> {
                &&& s.ready()
                &&& s.program_spec() == program
                &&& s.tracker_spec().issued() == tracker.issued()
                &&& s.frame_spec() == 0
                &&& s.position_spec().handle_spec() == position_buffer
                &&& Some(s.position_spec().location_spec()) == program.attribute(VERTEX_POSITION@)
                &&& s.position_spec().components_spec() == POSITION_COMPONENTS
                &&& s.position_spec().vertex_count_spec() == (positions@.len() as int) / (POSITION_COMPONENTS as int)
                &&& s.color_spec().handle_spec() == color_buffer
                &&& Some(s.color_spec().location_spec()) == program.attribute(VERTEX_COLOR@)
                &&& s.color_spec().components_spec() == COLOR_COMPONENTS
                &&& s.color_spec().vertex_count_spec() == (colors@.len() as int) / (COLOR_COMPONENTS as int)
                &&& enable@ == program.attribute_entries().map_values(|e: (Seq<char>, u32)| e.1)
            },
            !attributes_registered(program) ==> (r matches Err(e)
                && e matches GfxError::AttributeNotRegistered { name }
                && (name@ == VERTEX_POSITION@ || name@ == VERTEX_COLOR@)
                && program.attribute(name@) is None),
            attributes_registered(program) && !uniforms_registered(program) ==> (r matches Err(e)
                && e matches GfxError::UniformNotRegistered { name }
                && (name@ == PROJECTION@ || name@ == VIEW@ || name@ == MODEL@)
                && program.uniform(name@) is None),
            attributes_registered(program) && uniforms_registered(program)
                && !((positions@.len() as int) % (POSITION_COMPONENTS as int) == 0
                && (colors@.len() as int) % (COLOR_COMPONENTS as int) == 0) ==> (r matches Err(e)
                && e matches GfxError::PartialVertex { len, components }
                && ((len == positions@.len() && components == POSITION_COMPONENTS
                    && (len as int) % (POSITION_COMPONENTS as int) != 0)
                || (len == colors@.len() && components == COLOR_COMPONENTS
                    && (len as int) % (COLOR_COMPONENTS as int) != 0))),
    {
        let mut tracker = tracker;
        let position_slot = program.get_attribute(VERTEX_POSITION)?;
        let color_slot = program.get_attribute(VERTEX_COLOR)?;
        program.get_uniform(PROJECTION)?;
        program.get_uniform(VIEW)?;
        program.get_uniform(MODEL)?;
        let position = Buffer::new(position_buffer, position_slot, POSITION_COMPONENTS, positions)?;
        let color = Buffer::new(color_buffer, color_slot, COLOR_COMPONENTS, colors)?;
        let enable = program.use_program(&mut tracker);
        Ok((Renderer { program, tracker, position, color, frame: 0 }, enable))
    }

    pub fn program(&self) -> (r: &ShaderProgram<P, U>)
        ensures
            *r == self.program_spec(),
    {
        &self.program
    }

    pub fn position(&self) -> (r: &Buffer<B>)
        ensures
            *r == self.position_spec(),
    {
        &self.position
    }

    pub fn color(&self) -> (r: &Buffer<B>)
        ensures
            *r == self.color_spec(),
    {
        &self.color
    }

    /// How many frames have been drawn, counting from zero again after the
    /// largest value.
    pub fn frame(&self) -> (r: u64)
        ensures
            r == self.frame_spec(),
    {
        self.frame
    }

    /// Starts a frame: counts it and makes the program active again. Returns
    /// the attribute slots to enable.
    pub fn draw(&mut self) -> (r: Vec<u32>)
        ensures
            Self::drawn(*old(self), *final(self)),
            r@ == old(self).program_spec().attribute_entries().map_values(
                |e: (Seq<char>, u32)| e.1,
            ),
    {
        self.frame = if self.frame == u64::MAX {
            0
        } else {
            self.frame + 1
        };
        self.program.use_program(&mut self.tracker)
    }

    /// What to write for uniform `name`: its location and the values of
    /// `payload` in column-major order.
    pub fn upload_uniform<T: Copy>(&self, name: &str, payload: &Mat4<T>) -> (r: Result<
        (&U, [T; 16]),
        GfxError,
    >)
        ensures
            r is Ok <==> self.tracker_spec().active() == self.program_spec().uid_spec()
                && self.program_spec().uniform(name@) is Some,
            r matches Ok((l, values)) ==> self.program_spec().uniform(name@) == Some(*l)
                && values@ == payload.column_major(),
            self.tracker_spec().active() != self.program_spec().uid_spec() ==> (r matches Err(e)
                && e matches GfxError::WrongActiveProgram { expected, active }
                && expected == self.program_spec().uid_spec()
                && active == self.tracker_spec().active()),
            self.tracker_spec().active() == self.program_spec().uid_spec()
                && self.program_spec().uniform(name@) is None ==> (r matches Err(e)
                && e matches GfxError::UniformNotRegistered { name: n } && n@ == name@),
    {
        self.program.upload_uniform(&self.tracker, name, payload)
    }
}

/// However many frames are drawn after setup, the program stays active and
/// every registered name stays registered, so each frame's uniform uploads
/// find the right program active.
pub proof fn lemma_frames_keep_program_active<P, U, B>(frames: Seq<Renderer<P, U, B>>)
    requires
        frames.len() >= 1,
        frames[0].ready(),
        forall|i: int| 0 <= i < frames.len() - 1 ==> Renderer::drawn(#[trigger] frames[i], frames[i + 1]),
    ensures
        forall|i: int| 0 <= i < frames.len() ==> #[trigger] frames[i].ready(),
    decreases frames.len(),
{
    if frames.len() > 1 {
        let prefix = frames.drop_last();
        assert forall|i: int| 0 <= i < prefix.len() - 1 implies Renderer::drawn(#[trigger] prefix[i], prefix[i + 1]) by {
            assert(Renderer::drawn(frames[i], frames[i + 1]));
        }
        lemma_frames_keep_program_active(prefix);
        assert forall|i: int| 0 <= i < frames.len() implies #[trigger] frames[i].ready() by {
            if i < frames.len() - 1 {
                assert(prefix[i].ready());
            } else {
                assert(prefix[i - 1].ready());
                assert(Renderer::drawn(frames[i - 1], frames[i]));
            }
        }
    }
}

} // verus!
