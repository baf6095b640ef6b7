//! Vertex buffer layouts: attribute offsets, shader locations and strides of
//! tightly packed per-vertex and per-instance records.
use vstd::prelude::*;

verus! {

/// The attribute formats the renderer uses: vectors of 32-bit floats.
#[derive(Clone, Copy, Debug, PartialEq, Eq, Structural)]
pub enum VertexFormat {
    Float32x2,
    Float32x3,
    Float32x4,
}

/// Whether a buffer advances per vertex or per instance.
#[derive(Clone, Copy, Debug, PartialEq, Eq, Structural)]
pub enum StepMode {
    Vertex,
    Instance,
}

/// One attribute: where it starts in the record, the shader input it feeds,
/// and its format.
#[derive(Clone, Copy, Debug, PartialEq, Eq, Structural)]
pub struct VertexAttribute {
    pub offset: u64,
    pub shader_location: u32,
    pub format: VertexFormat,
}

/// The layout of one vertex buffer.
#[derive(Debug)]
pub struct VertexBufferLayout {
    pub array_stride: u64,
    pub step_mode: StepMode,
    pub attributes: Vec<VertexAttribute>,
}

/// Size in bytes of one attribute of format `f`.
pub open spec fn format_size(f: VertexFormat) -> nat {
    match f {
        VertexFormat::Float32x2 => 8,
        VertexFormat::Float32x3 => 12,
        VertexFormat::Float32x4 => 16,
    }
}

/// Size in bytes of the attributes `fs` laid out back to back.
pub open spec fn packed_size(fs: Seq<VertexFormat>) -> nat
    decreases fs.len(),
{
    if fs.len() == 0 {
        0
    } else {
        packed_size(fs.drop_last()) + format_size(fs.last())
    }
}

/// `layout` packs `formats` back to back, numbering shader locations from
/// `first_location`, with a stride of exactly the record's size.
pub open spec fn is_packed_layout(
    layout: VertexBufferLayout,
    formats: Seq<VertexFormat>,
    first_location: u32,
    step_mode: StepMode,
) -> bool {
    &&& layout.array_stride == packed_size(formats)
    &&& layout.step_mode == step_mode
    &&& layout.attributes@.len() == formats.len()
    &&& forall|i: int|
        0 <= i < formats.len() ==> #[trigger] layout.attributes@[i] == (VertexAttribute {
            offset: packed_size(formats.take(i)) as u64,
            shader_location: (first_location + i) as u32,
            format: formats[i],
        })
}

proof fn lemma_packed_size_bound(fs: Seq<VertexFormat>)
    ensures
        packed_size(fs) <= 16 * fs.len(),
    decreases fs.len(),
{
    if fs.len() > 0 {
        lemma_packed_size_bound(fs.drop_last());
    }
}

fn format_bytes(f: VertexFormat) -> (r: u64)
    ensures
        r == format_size(f),
{
    match f {
        VertexFormat::Float32x2 => 8,
        VertexFormat::Float32x3 => 12,
        VertexFormat::Float32x4 => 16,
    }
}

/// Lays out `formats` back to back in one record.
pub fn packed_layout(formats: &[VertexFormat], first_location: u32, step_mode: StepMode) -> (r:
    VertexBufferLayout)
    requires
        first_location + formats@.len() <= u32::MAX + 1,
    ensures
        is_packed_layout(r, formats@, first_location, step_mode),
{
    let mut attributes: Vec<VertexAttribute> = Vec::new();
    let mut offset: u64 = 0;
    let mut i: usize = 0;
    while i < formats.len()
        invariant
            i <= formats@.len(),
            first_location + formats@.len() <= u32::MAX + 1,
            offset == packed_size(formats@.take(i as int)),
            attributes@.len() == i,
            forall|j: int|
                0 <= j < i ==> #[trigger] attributes@[j] == (VertexAttribute {
                    offset: packed_size(formats@.take(j)) as u64,
                    shader_location: (first_location + j) as u32,
                    format: formats@[j],
                }),
        decreases formats@.len() - i,
    {
        proof {
            lemma_packed_size_bound(formats@.take(i as int));
        }
        attributes.push(
            VertexAttribute {
                offset,
                shader_location: first_location + i as u32,
                format: formats[i],
            },
        );
        assert(formats@.take(i + 1).drop_last() =~= formats@.take(i as int));
        offset = offset + format_bytes(formats[i]);
        i = i + 1;
    }
    assert(formats@.take(formats@.len() as int) =~= formats@);
    VertexBufferLayout { array_stride: offset, step_mode, attributes }
}

/// The attributes of a model vertex: position, texture coordinates, normal,
/// tangent and bitangent.
pub open spec fn model_vertex_formats() -> Seq<VertexFormat> {
    seq![
        VertexFormat::Float32x3,
        VertexFormat::Float32x2,
        VertexFormat::Float32x3,
        VertexFormat::Float32x3,
        VertexFormat::Float32x3,
    ]
}

/// The attributes of an instance record: the four columns of the model
/// matrix, then the three columns of the normal matrix.
pub open spec fn instance_formats() -> Seq<VertexFormat> {
    seq![
        VertexFormat::Float32x4,
        VertexFormat::Float32x4,
        VertexFormat::Float32x4,
        VertexFormat::Float32x4,
        VertexFormat::Float32x3,
        VertexFormat::Float32x3,
        VertexFormat::Float32x3,
    ]
}

/// The per-vertex buffer layout of model meshes, at shader locations 0 to 4.
pub fn model_vertex_layout() -> (r: VertexBufferLayout)
    ensures
        is_packed_layout(r, model_vertex_formats(), 0, StepMode::Vertex),
        r.array_stride == 56,
        r.attributes@.map_values(|a: VertexAttribute| a.offset) == seq![0u64, 12, 20, 32, 44],
{
    let formats = [
        VertexFormat::Float32x3,
        VertexFormat::Float32x2,
        VertexFormat::Float32x3,
        VertexFormat::Float32x3,
        VertexFormat::Float32x3,
    ];
    assert(formats@ =~= model_vertex_formats());
    let r = packed_layout(&formats, 0, StepMode::Vertex);
    let ghost fs = model_vertex_formats();
    proof {
        reveal_with_fuel(packed_size, 6);
        assert(fs.take(0) =~= seq![]);
        assert(fs.take(1) =~= seq![VertexFormat::Float32x3]);
        assert(fs.take(1).drop_last() =~= fs.take(0));
        assert(fs.take(2).drop_last() =~= fs.take(1));
        assert(fs.take(3).drop_last() =~= fs.take(2));
        assert(fs.take(4).drop_last() =~= fs.take(3));
        assert(fs.take(5).drop_last() =~= fs.take(4));
        assert(fs.take(5) =~= fs);
        assert(r.attributes@[0].offset == 0);
        assert(r.attributes@[1].offset == 12);
        assert(r.attributes@[2].offset == 20);
        assert(r.attributes@[3].offset == 32);
        assert(r.attributes@[4].offset == 44);
        assert(r.attributes@.map_values(|a: VertexAttribute| a.offset) =~= seq![
            0u64,
            12,
            20,
            32,
            44,
        ]);
    }
    r
}

/// The per-instance buffer layout, at shader locations 5 to 11.
pub fn instance_layout() -> (r: VertexBufferLayout)
    ensures
        is_packed_layout(r, instance_formats(), 5, StepMode::Instance),
        r.array_stride == 100,
        r.attributes@.map_values(|a: VertexAttribute| a.offset) == seq![
            0u64,
            16,
            32,
            48,
            64,
            76,
            88,
        ],
{
    let formats = [
        VertexFormat::Float32x4,
        VertexFormat::Float32x4,
        VertexFormat::Float32x4,
        VertexFormat::Float32x4,
        VertexFormat::Float32x3,
        VertexFormat::Float32x3,
        VertexFormat::Float32x3,
    ];
    assert(formats@ =~= instance_formats());
    let r = packed_layout(&formats, 5, StepMode::Instance);
    let ghost fs = instance_formats();
    proof {
        reveal_with_fuel(packed_size, 8);
        assert(fs.take(0) =~= seq![]);
        assert(fs.take(1).drop_last() =~= fs.take(0));
        assert(fs.take(2).drop_last() =~= fs.take(1));
        assert(fs.take(3).drop_last() =~= fs.take(2));
        assert(fs.take(4).drop_last() =~= fs.take(3));
        assert(fs.take(5).drop_last() =~= fs.take(4));
        assert(fs.take(6).drop_last() =~= fs.take(5));
        assert(fs.take(7).drop_last() =~= fs.take(6));
        assert(fs.take(7) =~= fs);
        assert(r.attributes@[0].offset == 0);
        assert(r.attributes@[1].offset == 16);
        assert(r.attributes@[2].offset == 32);
        assert(r.attributes@[3].offset == 48);
        assert(r.attributes@[4].offset == 64);
        assert(r.attributes@[5].offset == 76);
        assert(r.attributes@[6].offset == 88);
        assert(r.attributes@.map_values(|a: VertexAttribute| a.offset) =~= seq![
            0u64,
            16,
            32,
            48,
            64,
            76,
            88,
        ]);
    }
    r
}

} // verus!
