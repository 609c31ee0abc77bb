use vstd::prelude::*;

use crate::composition::{prim_draw_call, prim_vao, DrawCall, DrawableSet};
use crate::program::{program_id, program_uniforms, GuiProgram, UniformSlot};

verus! {

/// The bounds of an orthographic projection: the box that maps onto clip
/// space, with `left`, `bottom` and `near` going to -1.
#[derive(Debug, Clone, Copy, PartialEq, Eq, Structural)]
pub struct OrthoBounds {
    pub left: i64,
    pub right: i64,
    pub bottom: i64,
    pub top: i64,
    pub near: i64,
    pub far: i64,
}

/// The 2D projection of a surface of the given pixel size: x from 0 to the
/// width, y from 0 upwards to the height, depth from -1 to 1.
pub open spec fn surface_bounds(width: u32, height: u32) -> OrthoBounds {
    OrthoBounds {
        left: 0,
        right: width as i64,
        bottom: 0,
        top: height as i64,
        near: -1i64,
        far: 1,
    }
}

/// Where a coordinate lands in clip space along one axis of an orthographic
/// projection, as a fraction `(numerator, denominator)`.
pub open spec fn clip_coordinate(low: int, high: int, x: int) -> (int, int) {
    (2 * x - (low + high), high - low)
}

/// The state of a render surface: its size in pixels, from which its
/// projection follows, and the shader program bound last.
pub struct CanvasState {
    size: (u32, u32),
    used_program: u32,
}

impl CanvasState {
    pub closed spec fn spec_size(&self) -> (u32, u32) {
        self.size
    }

    pub closed spec fn spec_used_program(&self) -> u32 {
        self.used_program
    }

    /// A surface of the given pixel size on which no program is bound yet.
    pub fn new(width: u32, height: u32) -> (r: CanvasState)
        ensures
            r.spec_size() == (width, height),
            r.spec_used_program() == 0,
    {
        CanvasState { size: (width, height), used_program: 0 }
    }

    pub fn size(&self) -> (r: (u32, u32))
        ensures
            r == self.spec_size(),
    {
        self.size
    }

    /// Records a new pixel size; the projection follows it.
    pub fn refresh_canvas_size(&mut self, width: u32, height: u32)
        ensures
            final(self).spec_size() == (width, height),
            final(self).spec_used_program() == old(self).spec_used_program(),
    {
        self.size = (width, height);
    }

    /// The projection bounds for the current size.
    pub fn projection_bounds(&self) -> (r: OrthoBounds)
        ensures
            r == surface_bounds(self.spec_size().0, self.spec_size().1),
    {
        OrthoBounds {
            left: 0,
            right: self.size.0 as i64,
            bottom: 0,
            top: self.size.1 as i64,
            near: -1,
            far: 1,
        }
    }

    /// Makes `program` the bound one; returns whether it has to be applied,
    /// which is when it differs from the program bound last.
    pub fn bind_program(&mut self, program: u32) -> (r: bool)
        ensures
            r == (old(self).spec_used_program() != program),
            final(self).spec_used_program() == program,
            final(self).spec_size() == old(self).spec_size(),
    {
        if self.used_program != program {
            self.used_program = program;
            true
        } else {
            false
        }
    }
}

/// The driver calls that draw one set, in order.
#[derive(Debug, Clone, PartialEq, Eq)]
pub struct DrawPlan {
    /// The program to make current, when it is not current already.
    pub apply_program: Option<u32>,
    /// The texture to bind to the first texture unit, if any.
    pub texture: Option<u32>,
    /// The vertex array to bind.
    pub vao: u32,
    /// The uniforms to set, in order.
    pub uniforms: Vec<UniformSlot>,
    /// The draw call.
    pub call: DrawCall,
}

impl CanvasState {
    /// Plans the drawing of `set` with `program`: the program is applied
    /// only if it is not the one bound last, the texture is bound if given,
    /// then the primitive's vertex array, the program's uniforms and the
    /// primitive's draw call.
    pub fn plan_draw(&mut self, set: &DrawableSet, program: &GuiProgram, texture: Option<u32>) -> (r:
        DrawPlan)
        ensures
            r.apply_program == if old(self).spec_used_program() != program_id(*program) {
                Some(program_id(*program))
            } else {
                None::<u32>
            },
            r.texture == texture,
            r.vao == prim_vao(set@.prim),
            r.uniforms@ == program_uniforms(*program),
            r.call == prim_draw_call(set@.prim),
            final(self).spec_used_program() == program_id(*program),
            final(self).spec_size() == old(self).spec_size(),
    {
        let id = program.id();
        let apply_program = if self.bind_program(id) {
            Some(id)
        } else {
            None
        };
        let prim = set.prim();
        DrawPlan {
            apply_program,
            texture,
            vao: prim.vao(),
            uniforms: program.uniforms(),
            call: prim.draw_call(),
        }
    }
}

/// After a resize to `width` by `height`, the projection sends x = width to
/// the right edge of clip space and y = height to the top edge, and the
/// origin to the left and bottom edges.
pub proof fn law_projection_edges(width: u32, height: u32)
    ensures
        ({
            let b = surface_bounds(width, height);
            let (xn, xd) = clip_coordinate(b.left as int, b.right as int, width as int);
            let (yn, yd) = clip_coordinate(b.bottom as int, b.top as int, height as int);
            let (on, od) = clip_coordinate(b.left as int, b.right as int, 0);
            &&& xn == xd
            &&& yn == yd
            &&& on == -od
        }),
{
}

} // verus!
