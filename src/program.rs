use vstd::prelude::*;

verus! {

/// Name of the projection-matrix uniform in every program.
pub const PROJECTION_UNIFORM: &'static str = "projection";

/// Name of the model-matrix uniform in every program.
pub const MODEL_UNIFORM: &'static str = "model";

/// Name of the colour-filter-matrix uniform in textured programs.
pub const FILTER_UNIFORM: &'static str = "filter";

/// Which matrix a uniform receives at draw time.
#[derive(Debug, Clone, Copy, PartialEq, Eq, Structural)]
pub enum UniformSource {
    /// The canvas's projection.
    Projection,
    /// The composed model transforms of the drawn set.
    Model,
    /// The composed colour filters of the drawn set.
    Filter,
}

/// A linked program that draws untextured geometry.
#[derive(Debug, Clone, Copy, PartialEq, Eq, Structural)]
pub struct GeoProgram {
    pub id: u32,
    pub projection_pos: u32,
    pub model_pos: u32,
}

/// A linked program that draws textured meshes through a colour filter.
#[derive(Debug, Clone, Copy, PartialEq, Eq, Structural)]
pub struct TexProgram {
    pub id: u32,
    pub projection_pos: u32,
    pub model_pos: u32,
    pub filter_pos: u32,
}

impl GeoProgram {
    /// A geometry program from its linked program object and the locations
    /// of its uniforms.
    pub fn new(id: u32, projection_pos: u32, model_pos: u32) -> (r: GeoProgram)
        ensures
            r == (GeoProgram { id, projection_pos, model_pos }),
    {
        GeoProgram { id, projection_pos, model_pos }
    }
}

impl TexProgram {
    /// A textured program from its linked program object and the locations
    /// of its uniforms.
    pub fn new(id: u32, projection_pos: u32, model_pos: u32, filter_pos: u32) -> (r: TexProgram)
        ensures
            r == (TexProgram { id, projection_pos, model_pos, filter_pos }),
    {
        TexProgram { id, projection_pos, model_pos, filter_pos }
    }
}

/// A program that the canvas can draw with.
#[derive(Debug, Clone, Copy, PartialEq, Eq, Structural)]
pub enum GuiProgram {
    Geo(GeoProgram),
    Tex(TexProgram),
}

/// One uniform to set before a draw: its location and its matrix.
#[derive(Debug, Clone, Copy, PartialEq, Eq, Structural)]
pub struct UniformSlot {
    pub location: u32,
    pub source: UniformSource,
}

pub open spec fn program_id(p: GuiProgram) -> u32 {
    match p {
        GuiProgram::Geo(g) => g.id,
        GuiProgram::Tex(t) => t.id,
    }
}

/// The uniforms a program takes, in upload order: projection and model
/// always, the filter only for textured programs.
pub open spec fn program_uniforms(p: GuiProgram) -> Seq<UniformSlot> {
    match p {
        GuiProgram::Geo(g) => seq![
            UniformSlot { location: g.projection_pos, source: UniformSource::Projection },
            UniformSlot { location: g.model_pos, source: UniformSource::Model },
        ],
        GuiProgram::Tex(t) => seq![
            UniformSlot { location: t.projection_pos, source: UniformSource::Projection },
            UniformSlot { location: t.model_pos, source: UniformSource::Model },
            UniformSlot { location: t.filter_pos, source: UniformSource::Filter },
        ],
    }
}

impl GuiProgram {
    pub fn id(&self) -> (r: u32)
        ensures
            r == program_id(*self),
    {
        match self {
            GuiProgram::Geo(g) => g.id,
            GuiProgram::Tex(t) => t.id,
        }
    }

    /// The uniforms to set before each draw, in upload order.
    pub fn uniforms(&self) -> (r: Vec<UniformSlot>)
        ensures
            r@ == program_uniforms(*self),
    {
        let mut r: Vec<UniformSlot> = Vec::new();
        match self {
            GuiProgram::Geo(g) => {
                r.push(UniformSlot { location: g.projection_pos, source: UniformSource::Projection });
                r.push(UniformSlot { location: g.model_pos, source: UniformSource::Model });
            },
            GuiProgram::Tex(t) => {
                r.push(UniformSlot { location: t.projection_pos, source: UniformSource::Projection });
                r.push(UniformSlot { location: t.model_pos, source: UniformSource::Model });
                r.push(UniformSlot { location: t.filter_pos, source: UniformSource::Filter });
            },
        }
        proof {
            assert(r@ =~= program_uniforms(*self));
        }
        r
    }
}

} // verus!
