use vstd::prelude::*;

use crate::error::MuiError;

verus! {

/// A scalar type of vertex data.
#[derive(Debug, Clone, Copy, PartialEq, Eq, Structural)]
pub enum NumType {
    Byte,
    UnsignedByte,
    Short,
    UnsignedShort,
    Int,
    UnsignedInt,
    Float,
    Double,
}

pub open spec fn num_type_size(kind: NumType) -> usize {
    match kind {
        NumType::Byte | NumType::UnsignedByte => 1,
        NumType::Short | NumType::UnsignedShort => 2,
        NumType::Int | NumType::UnsignedInt | NumType::Float => 4,
        NumType::Double => 8,
    }
}

pub open spec fn num_type_enum(kind: NumType) -> u32 {
    match kind {
        NumType::Byte => 0x1400,
        NumType::UnsignedByte => 0x1401,
        NumType::Short => 0x1402,
        NumType::UnsignedShort => 0x1403,
        NumType::Int => 0x1404,
        NumType::UnsignedInt => 0x1405,
        NumType::Float => 0x1406,
        NumType::Double => 0x140A,
    }
}

impl NumType {
    /// Size of one scalar in bytes.
    pub fn size(self) -> (r: usize)
        ensures
            r == num_type_size(self),
    {
        match self {
            NumType::Byte | NumType::UnsignedByte => 1,
            NumType::Short | NumType::UnsignedShort => 2,
            NumType::Int | NumType::UnsignedInt | NumType::Float => 4,
            NumType::Double => 8,
        }
    }

    /// The driver's enumerant for the type.
    pub fn gl_type(self) -> (r: u32)
        ensures
            r == num_type_enum(self),
    {
        match self {
            NumType::Byte => 0x1400,
            NumType::UnsignedByte => 0x1401,
            NumType::Short => 0x1402,
            NumType::UnsignedShort => 0x1403,
            NumType::Int => 0x1404,
            NumType::UnsignedInt => 0x1405,
            NumType::Float => 0x1406,
            NumType::Double => 0x140A,
        }
    }
}

/// How one vertex attribute is read from the bound buffer, in the terms of
/// a vertex-attribute-pointer call. Values are not normalised.
#[derive(Debug, Clone, Copy, PartialEq, Eq, Structural)]
pub struct AttribPointer {
    pub index: u32,
    pub components: i32,
    pub gl_type: u32,
    pub stride_bytes: i32,
    pub offset_bytes: usize,
}

/// The layout of attribute `index`: `components` scalars of `kind` per
/// vertex, vertices `stride_len` scalars apart, the first at scalar
/// `offset_len`.
pub fn attrib_pointer(
    index: u32,
    components: i32,
    kind: NumType,
    stride_len: usize,
    offset_len: usize,
) -> (r: AttribPointer)
    requires
        1 <= components <= 4,
        stride_len * num_type_size(kind) <= i32::MAX,
        offset_len * num_type_size(kind) <= usize::MAX,
    ensures
        r == (AttribPointer {
            index,
            components,
            gl_type: num_type_enum(kind),
            stride_bytes: (stride_len * num_type_size(kind)) as i32,
            offset_bytes: (offset_len * num_type_size(kind)) as usize,
        }),
{
    let size = kind.size();
    AttribPointer {
        index,
        components,
        gl_type: kind.gl_type(),
        stride_bytes: (stride_len * size) as i32,
        offset_bytes: offset_len * size,
    }
}

/// A stage of a shader program.
#[derive(Debug, Clone, Copy, PartialEq, Eq, Structural)]
pub enum ShaderType {
    Vertex,
    Fragment,
    Compute,
    Geometry,
    TessControl,
    TessEvaluation,
}

pub open spec fn shader_type_enum(kind: ShaderType) -> u32 {
    match kind {
        ShaderType::Vertex => 0x8B31,
        ShaderType::Fragment => 0x8B30,
        ShaderType::Compute => 0x91B9,
        ShaderType::Geometry => 0x8DD9,
        ShaderType::TessControl => 0x8E88,
        ShaderType::TessEvaluation => 0x8E87,
    }
}

impl ShaderType {
    /// The driver's enumerant for the stage, as shader creation takes it.
    pub fn gl_kind(self) -> (r: u32)
        ensures
            r == shader_type_enum(self),
    {
        match self {
            ShaderType::Vertex => 0x8B31,
            ShaderType::Fragment => 0x8B30,
            ShaderType::Compute => 0x91B9,
            ShaderType::Geometry => 0x8DD9,
            ShaderType::TessControl => 0x8E88,
            ShaderType::TessEvaluation => 0x8E87,
        }
    }
}

/// The outcome of compiling `shader`, from the compile status the driver
/// reports (zero for failure) and its information log.
pub fn compile_outcome(shader: u32, status: i32, log: String) -> (r: Result<u32, MuiError>)
    ensures
        status == 0 ==> r == Err::<u32, MuiError>(MuiError::ShaderCompileFailed(log)),
        status != 0 ==> r == Ok::<u32, MuiError>(shader),
{
    if status == 0 {
        Err(MuiError::ShaderCompileFailed(log))
    } else {
        Ok(shader)
    }
}

} // verus!
