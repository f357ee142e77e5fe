//! GPU resource descriptors.
//!
//! The graphics context itself lives outside the library: it creates the
//! underlying objects and hands their raw integer handles in.  The library
//! owns the bookkeeping — formats, counts, and the interleaved attribute
//! layout a vertex buffer's format induces.

use vstd::prelude::*;

verus! {

/// The declared layout of a vertex buffer: which component groups each vertex
/// carries and how many components each group has.
#[derive(Copy, Clone, Debug, PartialEq, Eq, Structural)]
pub enum VboFormat {
    Position(i32),
    PositionColor(i32, i32),
    PositionCoords(i32, i32),
    PositionColorCoords(i32, i32, i32),
}

/// Component counts that keep every stride and offset within `i32` when each
/// component takes four bytes.
pub open spec fn format_wf(format: VboFormat) -> bool {
    match format {
        VboFormat::Position(p) => 0 <= p && 4 * p <= i32::MAX,
        VboFormat::PositionColor(p, c) => 0 <= p && 0 <= c && 4 * (p + c) <= i32::MAX,
        VboFormat::PositionCoords(p, c) => 0 <= p && 0 <= c && 4 * (p + c) <= i32::MAX,
        VboFormat::PositionColorCoords(p, c, t) => 0 <= p && 0 <= c && 0 <= t && 4 * (p + c + t)
            <= i32::MAX,
    }
}

/// One configured vertex attribute: its binding index, its component count,
/// the stride between consecutive vertices, and its byte offset inside a
/// vertex.  Components are 32-bit values, hence four bytes each.
#[derive(Copy, Clone, Debug, PartialEq, Eq, Structural)]
pub struct VertexAttrib {
    pub index: u32,
    pub size: i32,
    pub stride: i32,
    pub offset: i32,
}

/// The interleaved attribute layout a format induces: one attribute per
/// component group in the fixed order position, color, texture coordinates;
/// the stride is the vertex's total byte size and each offset accumulates the
/// byte sizes of the groups before it.
pub open spec fn layout_of(format: VboFormat) -> Seq<VertexAttrib> {
    match format {
        VboFormat::Position(p) => seq![
            VertexAttrib { index: 0, size: p, stride: (4 * p) as i32, offset: 0 },
        ],
        VboFormat::PositionColor(p, c) => seq![
            VertexAttrib { index: 0, size: p, stride: (4 * p + 4 * c) as i32, offset: 0 },
            VertexAttrib {
                index: 1,
                size: c,
                stride: (4 * p + 4 * c) as i32,
                offset: (4 * p) as i32,
            },
        ],
        VboFormat::PositionCoords(p, c) => seq![
            VertexAttrib { index: 0, size: p, stride: (4 * p + 4 * c) as i32, offset: 0 },
            VertexAttrib {
                index: 1,
                size: c,
                stride: (4 * p + 4 * c) as i32,
                offset: (4 * p) as i32,
            },
        ],
        VboFormat::PositionColorCoords(p, c, t) => seq![
            VertexAttrib {
                index: 0,
                size: p,
                stride: (4 * p + 4 * c + 4 * t) as i32,
                offset: 0,
            },
            VertexAttrib {
                index: 1,
                size: c,
                stride: (4 * p + 4 * c + 4 * t) as i32,
                offset: (4 * p) as i32,
            },
            VertexAttrib {
                index: 2,
                size: t,
                stride: (4 * p + 4 * c + 4 * t) as i32,
                offset: (4 * p + 4 * c) as i32,
            },
        ],
    }
}

/// Computes the attribute layout of a format: strides and byte offsets
/// accumulate component counts at four bytes per 32-bit component, one
/// attribute per declared group, in the fixed group order.
pub fn vbo_layout(format: VboFormat) -> (r: Vec<VertexAttrib>)
    requires
        format_wf(format),
    ensures
        r@ == layout_of(format),
{
    let mut attribs: Vec<VertexAttrib> = Vec::new();
    match format {
        VboFormat::Position(p) => {
            attribs.push(VertexAttrib { index: 0, size: p, stride: 4 * p, offset: 0 });
        },
        VboFormat::PositionColor(p, c) => {
            let stride = 4 * p + 4 * c;
            attribs.push(VertexAttrib { index: 0, size: p, stride, offset: 0 });
            attribs.push(VertexAttrib { index: 1, size: c, stride, offset: 4 * p });
        },
        VboFormat::PositionCoords(p, c) => {
            let stride = 4 * p + 4 * c;
            attribs.push(VertexAttrib { index: 0, size: p, stride, offset: 0 });
            attribs.push(VertexAttrib { index: 1, size: c, stride, offset: 4 * p });
        },
        VboFormat::PositionColorCoords(p, c, t) => {
            let stride = 4 * p + 4 * c + 4 * t;
            attribs.push(VertexAttrib { index: 0, size: p, stride, offset: 0 });
            attribs.push(VertexAttrib { index: 1, size: c, stride, offset: 4 * p });
            attribs.push(VertexAttrib { index: 2, size: t, stride, offset: 4 * p + 4 * c });
        },
    }
    proof {
        assert(attribs@ =~= layout_of(format));
    }
    attribs
}

/// A vertex buffer: the context's raw buffer handle, the numeric code of its
/// component type, and its declared layout.
#[derive(Debug)]
pub struct Vbo {
    buffer: u32,
    kind: u32,
    format: VboFormat,
}

impl Vbo {
    #[verifier::type_invariant]
    pub closed spec fn wf(self) -> bool {
        format_wf(self.format)
    }

    pub closed spec fn spec_buffer(self) -> u32 {
        self.buffer
    }

    pub closed spec fn spec_kind(self) -> u32 {
        self.kind
    }

    pub closed spec fn spec_format(self) -> VboFormat {
        self.format
    }

    /// Wraps a buffer handle the context allocated, with the component-type
    /// code the data was uploaded as and the declared vertex layout.
    pub fn new(buffer: u32, kind: u32, format: VboFormat) -> (r: Self)
        requires
            format_wf(format),
        ensures
            r.spec_buffer() == buffer,
            r.spec_kind() == kind,
            r.spec_format() == format,
    {
        Vbo { buffer, kind, format }
    }

    /// The numeric code of the component type the buffer holds.
    pub fn kind(&self) -> (r: u32)
        ensures
            r == self.spec_kind(),
    {
        self.kind
    }

    /// The declared vertex layout.
    pub fn format(&self) -> (r: VboFormat)
        ensures
            r == self.spec_format(),
            format_wf(r),
    {
        proof {
            use_type_invariant(self);
        }
        self.format
    }

    /// The context's raw buffer handle.
    pub fn buffer(&self) -> (r: u32)
        ensures
            r == self.spec_buffer(),
    {
        self.buffer
    }
}

/// An index (element) buffer: the context's raw buffer handle and how many
/// indices it holds — the element count a draw over it needs.
#[derive(Clone, Debug)]
pub struct Ebo {
    buffer: u32,
    count: u32,
}

impl Ebo {
    pub closed spec fn spec_buffer(self) -> u32 {
        self.buffer
    }

    pub closed spec fn spec_count(self) -> u32 {
        self.count
    }

    /// Wraps a buffer handle the context allocated with the indices that were
    /// uploaded into it; the stored count is exactly how many there were.
    pub fn new(buffer: u32, indices: &[u32]) -> (r: Self)
        requires
            indices@.len() <= u32::MAX,
        ensures
            r.spec_buffer() == buffer,
            r.spec_count() == indices@.len(),
    {
        Ebo { buffer, count: indices.len() as u32 }
    }

    /// The context's raw buffer handle.
    pub fn buffer(&self) -> (r: u32)
        ensures
            r == self.spec_buffer(),
    {
        self.buffer
    }

    /// The number of indices the buffer holds.
    pub fn count(&self) -> (r: u32)
        ensures
            r == self.spec_count(),
    {
        self.count
    }
}

/// A texture: the context's raw image handle and its pixel dimensions.
#[derive(Clone, Debug)]
pub struct Texture {
    image: u32,
    width: u32,
    height: u32,
}

impl Texture {
    pub closed spec fn spec_image(self) -> u32 {
        self.image
    }

    pub closed spec fn spec_width(self) -> u32 {
        self.width
    }

    pub closed spec fn spec_height(self) -> u32 {
        self.height
    }

    /// Wraps an image handle the context created for decoded pixel data of
    /// the given dimensions.
    pub fn new(image: u32, width: u32, height: u32) -> (r: Self)
        ensures
            r.spec_image() == image,
            r.spec_width() == width,
            r.spec_height() == height,
    {
        Texture { image, width, height }
    }

    /// The context's raw image handle.
    pub fn image(&self) -> (r: u32)
        ensures
            r == self.spec_image(),
    {
        self.image
    }

    /// The texture's width in pixels.
    pub fn width(&self) -> (r: u32)
        ensures
            r == self.spec_width(),
    {
        self.width
    }

    /// The texture's height in pixels.
    pub fn height(&self) -> (r: u32)
        ensures
            r == self.spec_height(),
    {
        self.height
    }
}

/// Which pipeline stage a shader source targets.
#[derive(Copy, Clone, PartialEq, Eq, Debug, Structural)]
pub enum ShaderKind {
    VertexShader,
    FragmentShader,
}

/// One shader source file and the stage it targets, as handed to the
/// context's compiler.
#[derive(Copy, Clone, PartialEq, Eq, Debug)]
pub struct ShaderSource<'a> {
    pub source: &'a str,
    pub kind: ShaderKind,
}

impl<'a> ShaderSource<'a> {
    pub fn new(source: &'a str, kind: ShaderKind) -> (r: Self)
        ensures
            r.source == source,
            r.kind == kind,
    {
        ShaderSource { source, kind }
    }

    pub fn vertex(source: &'a str) -> (r: Self)
        ensures
            r.source == source,
            r.kind == ShaderKind::VertexShader,
    {
        ShaderSource::new(source, ShaderKind::VertexShader)
    }

    pub fn fragment(source: &'a str) -> (r: Self)
        ensures
            r.source == source,
            r.kind == ShaderKind::FragmentShader,
    {
        ShaderSource::new(source, ShaderKind::FragmentShader)
    }
}

/// A compiled, linked shader program: the context's raw program handle.
#[derive(Clone, Debug)]
pub struct Shader {
    program: u32,
}

impl Shader {
    pub closed spec fn spec_program(self) -> u32 {
        self.program
    }

    /// Wraps a program handle the context compiled and linked.
    pub fn new(program: u32) -> (r: Self)
        ensures
            r.spec_program() == program,
    {
        Shader { program }
    }

    /// The context's raw program handle.
    pub fn program(&self) -> (r: u32)
        ensures
            r == self.spec_program(),
    {
        self.program
    }
}

/// A uniform value for a shader, as a closed tagged union: scalars and
/// vectors of up to four components, plus a 4x4 matrix of the application's
/// matrix type.  The `F32` shapes carry the IEEE-754 bit pattern of each
/// component, so the payload stays a plain integer.
#[derive(Clone, Debug)]
pub enum UniformValue<M> {
    /// Bit pattern of a 32-bit float.
    F32(u32),
    U32(u32),
    I32(i32),
    /// Bit patterns of two 32-bit floats.
    F32Vec2(u32, u32),
    U32Vec2(u32, u32),
    I32Vec2(i32, i32),
    /// Bit patterns of three 32-bit floats.
    F32Vec3(u32, u32, u32),
    U32Vec3(u32, u32, u32),
    I32Vec3(i32, i32, i32),
    /// Bit patterns of four 32-bit floats.
    F32Vec4(u32, u32, u32, u32),
    U32Vec4(u32, u32, u32, u32),
    I32Vec4(i32, i32, i32, i32),
    Mat4(M),
}

} // verus!
