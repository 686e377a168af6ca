//! Vertex buffer layouts: attributes packed one after another, with
//! consecutive shader locations, and a stride equal to their total size.
use vstd::prelude::*;

verus! {

/// Format of one vertex attribute.
#[derive(Clone, Copy, Debug, PartialEq, Eq, Structural)]
pub enum AttributeFormat {
    Float32x2,
    Float32x3,
    Float32x4,
}

/// Whether a buffer advances per vertex or per instance.
#[derive(Clone, Copy, Debug, PartialEq, Eq, Structural)]
pub enum StepMode {
    Vertex,
    Instance,
}

/// One attribute: its format, byte offset within an element, and the shader
/// location it feeds.
#[derive(Clone, Copy, Debug, PartialEq, Eq, Structural)]
pub struct VertexAttribute {
    pub format: AttributeFormat,
    pub offset: u64,
    pub shader_location: u32,
}

/// The layout of one vertex buffer.
pub struct VertexLayout {
    pub array_stride: u64,
    pub step_mode: StepMode,
    pub attributes: Vec<VertexAttribute>,
}

/// Size in bytes of an attribute of this format.
pub open spec fn spec_format_size(f: AttributeFormat) -> nat {
    match f {
        AttributeFormat::Float32x2 => 8,
        AttributeFormat::Float32x3 => 12,
        AttributeFormat::Float32x4 => 16,
    }
}

pub fn format_size(f: AttributeFormat) -> (r: u64)
    ensures
        r == spec_format_size(f),
{
    match f {
        AttributeFormat::Float32x2 => 8,
        AttributeFormat::Float32x3 => 12,
        AttributeFormat::Float32x4 => 16,
    }
}

/// Total size of attributes of these formats laid end to end.
pub open spec fn total_size(formats: Seq<AttributeFormat>) -> nat
    decreases formats.len(),
{
    if formats.len() == 0 {
        0
    } else {
        total_size(formats.drop_last()) + spec_format_size(formats.last())
    }
}

proof fn lemma_total_size_bound(formats: Seq<AttributeFormat>)
    ensures
        total_size(formats) <= 16 * formats.len(),
    decreases formats.len(),
{
    if formats.len() > 0 {
        lemma_total_size_bound(formats.drop_last());
    }
}

/// The layout whose attributes have `formats`, in order, starting at shader
/// location `first_location`.
pub open spec fn packed(formats: Seq<AttributeFormat>, first_location: u32) -> Seq<VertexAttribute> {
    Seq::new(
        formats.len(),
        |k: int|
            VertexAttribute {
                format: formats[k],
                offset: total_size(formats.subrange(0, k)) as u64,
                shader_location: (first_location + k) as u32,
            },
    )
}

/// Packs attributes of `formats` end to end. The returned stride is the
/// size of one element.
pub fn pack_attributes(formats: &Vec<AttributeFormat>, first_location: u32) -> (r: (
    u64,
    Vec<VertexAttribute>,
))
    requires
        first_location + formats@.len() <= u32::MAX,
    ensures
        r.0 == total_size(formats@),
        r.1@ == packed(formats@, first_location),
{
    let mut attributes: Vec<VertexAttribute> = Vec::new();
    let mut offset: u64 = 0;
    let mut i: usize = 0;
    while i < formats.len()
        invariant
            i <= formats@.len(),
            first_location + formats@.len() <= u32::MAX,
            offset == total_size(formats@.subrange(0, i as int)),
            attributes@.len() == i,
            forall|k: int|
                0 <= k < i ==> attributes@[k] == #[trigger] packed(formats@, first_location)[k],
        decreases formats@.len() - i,
    {
        let f = formats[i];
        attributes.push(
            VertexAttribute { format: f, offset, shader_location: first_location + i as u32 },
        );
        proof {
            let next = formats@.subrange(0, i + 1);
            assert(next.drop_last() =~= formats@.subrange(0, i as int));
            lemma_total_size_bound(next);
        }
        offset = offset + format_size(f);
        i = i + 1;
    }
    assert(formats@.subrange(0, i as int) =~= formats@);
    assert(attributes@ =~= packed(formats@, first_location));
    (offset, attributes)
}

/// Layout of a buffer whose elements hold `formats`, starting at `first_location`.
pub fn packed_layout(formats: &Vec<AttributeFormat>, first_location: u32, step_mode: StepMode) -> (r:
    VertexLayout)
    requires
        first_location + formats@.len() <= u32::MAX,
    ensures
        r.array_stride == total_size(formats@),
        r.step_mode == step_mode,
        r.attributes@ == packed(formats@, first_location),
{
    let (array_stride, attributes) = pack_attributes(formats, first_location);
    VertexLayout { array_stride, step_mode, attributes }
}

/// An attribute of a 32-bit float vector format.
pub open spec fn attr(format: AttributeFormat, offset: u64, shader_location: u32) -> VertexAttribute {
    VertexAttribute { format, offset, shader_location }
}

/// Mesh vertices: position, texture coordinates and normal.
pub fn model_vertex_layout() -> (r: VertexLayout)
    ensures
        r.array_stride == 32,
        r.step_mode == StepMode::Vertex,
        r.attributes@ == seq![
            attr(AttributeFormat::Float32x3, 0, 0),
            attr(AttributeFormat::Float32x2, 12, 1),
            attr(AttributeFormat::Float32x3, 20, 2),
        ],
{
    let formats = vec![AttributeFormat::Float32x3, AttributeFormat::Float32x2, AttributeFormat::Float32x3];
    let r = packed_layout(&formats, 0, StepMode::Vertex);
    proof {
        reveal_with_fuel(total_size, 4);
        assert(formats@.subrange(0, 0).len() == 0);
        assert(formats@.subrange(0, 1).drop_last() =~= formats@.subrange(0, 0));
        assert(formats@.subrange(0, 2).drop_last() =~= formats@.subrange(0, 1));
        assert(formats@.subrange(0, 3).drop_last() =~= formats@.subrange(0, 2));
        assert(formats@.subrange(0, 3) =~= formats@);
        assert(r.attributes@ =~= seq![
            attr(AttributeFormat::Float32x3, 0, 0),
            attr(AttributeFormat::Float32x2, 12, 1),
            attr(AttributeFormat::Float32x3, 20, 2),
        ]);
    }
    r
}

/// Voxel block vertices: position, normal and diffuse colour.
pub fn block_vertex_layout() -> (r: VertexLayout)
    ensures
        r.array_stride == 36,
        r.step_mode == StepMode::Vertex,
        r.attributes@ == seq![
            attr(AttributeFormat::Float32x3, 0, 0),
            attr(AttributeFormat::Float32x3, 12, 1),
            attr(AttributeFormat::Float32x3, 24, 2),
        ],
{
    let formats = vec![AttributeFormat::Float32x3, AttributeFormat::Float32x3, AttributeFormat::Float32x3];
    let r = packed_layout(&formats, 0, StepMode::Vertex);
    proof {
        reveal_with_fuel(total_size, 4);
        assert(formats@.subrange(0, 0).len() == 0);
        assert(formats@.subrange(0, 1).drop_last() =~= formats@.subrange(0, 0));
        assert(formats@.subrange(0, 2).drop_last() =~= formats@.subrange(0, 1));
        assert(formats@.subrange(0, 3).drop_last() =~= formats@.subrange(0, 2));
        assert(formats@.subrange(0, 3) =~= formats@);
        assert(r.attributes@ =~= seq![
            attr(AttributeFormat::Float32x3, 0, 0),
            attr(AttributeFormat::Float32x3, 12, 1),
            attr(AttributeFormat::Float32x3, 24, 2),
        ]);
    }
    r
}

/// The first shader location of the per-instance matrices.
pub const INSTANCE_FIRST_LOCATION: u32 = 5;

/// Per-instance data: the four columns of the model matrix, then the four
/// columns of its inverse transpose, which corrects normals.
pub fn instance_layout() -> (r: VertexLayout)
    ensures
        r.array_stride == 128,
        r.step_mode == StepMode::Instance,
        r.attributes@.len() == 8,
        forall|k: int|
            0 <= k < 8 ==> #[trigger] r.attributes@[k] == (VertexAttribute {
                format: AttributeFormat::Float32x4,
                offset: (16 * k) as u64,
                shader_location: (INSTANCE_FIRST_LOCATION + k) as u32,
            }),
{
    let mut formats: Vec<AttributeFormat> = Vec::new();
    let mut i: usize = 0;
    while i < 8
        invariant
            i <= 8,
            formats@ == Seq::new(i as nat, |k: int| AttributeFormat::Float32x4),
        decreases 8 - i,
    {
        formats.push(AttributeFormat::Float32x4);
        assert(formats@ =~= Seq::new((i + 1) as nat, |k: int| AttributeFormat::Float32x4));
        i = i + 1;
    }
    let r = packed_layout(&formats, INSTANCE_FIRST_LOCATION, StepMode::Instance);
    proof {
        assert forall|k: int| 0 <= k <= 8 implies total_size(formats@.subrange(0, k)) == 16 * k by {
            lemma_uniform_size(formats@.subrange(0, k));
        }
        assert(formats@.subrange(0, 8) =~= formats@);
    }
    r
}

proof fn lemma_uniform_size(formats: Seq<AttributeFormat>)
    requires
        forall|k: int| 0 <= k < formats.len() ==> formats[k] == AttributeFormat::Float32x4,
    ensures
        total_size(formats) == 16 * formats.len(),
    decreases formats.len(),
{
    if formats.len() > 0 {
        lemma_uniform_size(formats.drop_last());
    }
}

} // verus!
