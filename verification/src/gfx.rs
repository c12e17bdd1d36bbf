//! Plain descriptions of what lives on a graphics device and of what is
//! asked of it: buffer handles, the buffers to create, index data as bytes,
//! resource bindings and draw calls.

use vstd::layout::size_of;
use vstd::prelude::*;

pub mod mesh;

verus! {

/// Number of image slots of the fragment stage.
pub const IMAGE_SLOTS: usize = 12;

/// Handle of a buffer on the graphics device.
#[derive(Debug, Clone, Copy, PartialEq, Eq, Structural)]
pub struct Buffer {
    pub id: u32,
}

/// Handle of an image on the graphics device.
#[derive(Debug, Clone, Copy, PartialEq, Eq, Structural)]
pub struct Image {
    pub id: u32,
}

/// What a buffer holds.
#[derive(Debug, Clone, Copy, PartialEq, Eq, Structural)]
pub enum BufferType {
    Vertex,
    Index,
}

/// How often a buffer's contents change.
#[derive(Debug, Clone, Copy, PartialEq, Eq, Structural)]
pub enum ResourceUsage {
    /// Filled once, at creation.
    Immutable,
    /// Rewritten now and then.
    Dynamic,
    /// Rewritten every frame.
    Stream,
}

/// Width of the indices in an index buffer.
#[derive(Debug, Clone, Copy, PartialEq, Eq, Structural)]
pub enum IndexFormat {
    Uint16,
    Uint32,
}

impl IndexFormat {
    /// Bytes per index.
    pub open spec fn width(self) -> nat {
        match self {
            IndexFormat::Uint16 => 2,
            IndexFormat::Uint32 => 4,
        }
    }

    /// Bytes per index.
    pub fn n_bytes(self) -> (n: usize)
        ensures
            n == self.width(),
    {
        match self {
            IndexFormat::Uint16 => 2,
            IndexFormat::Uint32 => 4,
        }
    }
}

/// A buffer to create on the device.
#[derive(Debug, Clone, Copy, PartialEq, Eq, Structural)]
pub struct BufferDesc {
    /// Size in bytes.
    pub size: usize,
    pub buffer_type: BufferType,
    pub usage: ResourceUsage,
}

/// The value of the byte at `place` of `value`, place 0 being the lowest.
pub open spec fn byte_at(value: nat, place: nat) -> u8
    decreases place,
{
    if place == 0 {
        (value % 256) as u8
    } else {
        byte_at(value / 256, (place - 1) as nat)
    }
}

/// The bytes of `values`, each `width` bytes wide, one value after the other,
/// lowest byte first if `little_endian` and highest byte first if not.
pub open spec fn bytes_of(values: Seq<nat>, width: nat, little_endian: bool) -> Seq<u8> {
    Seq::new(
        values.len() * width,
        |i: int|
            byte_at(
                values[i / width as int],
                if little_endian {
                    (i % width as int) as nat
                } else {
                    (width - 1 - i % width as int) as nat
                },
            ),
    )
}

/// `bytes` are `values` as the machine holds them in memory: in one of the
/// two byte orders throughout.
pub open spec fn native_bytes(bytes: Seq<u8>, values: Seq<nat>, width: nat) -> bool {
    bytes == bytes_of(values, width, true) || bytes == bytes_of(values, width, false)
}

/// `bytemuck::cast_slice` from `u16` to `u8` hands out the memory of the
/// slice as bytes: two for each value, in the machine's byte order. It
/// cannot fail towards `u8`, which has no alignment and divides every size.
#[verifier::external_body]
fn cast_slice_u16(values: &[u16]) -> (bytes: &[u8])
    ensures
        native_bytes(bytes@, values@.map_values(|v: u16| v as nat), 2),
{
    bytemuck::cast_slice(values)
}

/// `bytemuck::cast_slice` from `u32` to `u8` hands out the memory of the
/// slice as bytes: four for each value, in the machine's byte order. It
/// cannot fail towards `u8`, which has no alignment and divides every size.
#[verifier::external_body]
fn cast_slice_u32(values: &[u32]) -> (bytes: &[u8])
    ensures
        native_bytes(bytes@, values@.map_values(|v: u32| v as nat), 4),
{
    bytemuck::cast_slice(values)
}

/// An integer type that can index vertices: `u16` or `u32`.
pub trait Index: Sized {
    /// The format that stands for this type.
    spec fn index_format() -> IndexFormat;

    /// The index as a number.
    spec fn value(self) -> nat;

    /// The format that stands for this type.
    fn format() -> (format: IndexFormat)
        ensures
            format == Self::index_format(),
    ;

    /// The indices as the bytes that an index buffer is filled with.
    fn as_bytes(indices: &[Self]) -> (bytes: &[u8])
        ensures
            native_bytes(
                bytes@,
                indices@.map_values(|i: Self| i.value()),
                Self::index_format().width(),
            ),
    ;
}

impl Index for u16 {
    open spec fn index_format() -> IndexFormat {
        IndexFormat::Uint16
    }

    open spec fn value(self) -> nat {
        self as nat
    }

    fn format() -> (format: IndexFormat) {
        IndexFormat::Uint16
    }

    fn as_bytes(indices: &[u16]) -> (bytes: &[u8]) {
        let bytes = cast_slice_u16(indices);
        proof {
            assert(indices@.map_values(|v: u16| v as nat) == indices@.map_values(
                |i: u16| i.value(),
            ));
        }
        bytes
    }
}

impl Index for u32 {
    open spec fn index_format() -> IndexFormat {
        IndexFormat::Uint32
    }

    open spec fn value(self) -> nat {
        self as nat
    }

    fn format() -> (format: IndexFormat) {
        IndexFormat::Uint32
    }

    fn as_bytes(indices: &[u32]) -> (bytes: &[u8]) {
        let bytes = cast_slice_u32(indices);
        proof {
            assert(indices@.map_values(|v: u32| v as nat) == indices@.map_values(
                |i: u32| i.value(),
            ));
        }
        bytes
    }
}

/// The numbers that a slice of indices stands for.
pub open spec fn index_values<I: Index>(indices: Seq<I>) -> Seq<nat> {
    indices.map_values(|i: I| i.value())
}

/// An index buffer to create, with the bytes that fill it.
#[derive(Debug, Clone, Copy, PartialEq, Eq)]
pub struct IndexBufferInit<'a> {
    pub desc: BufferDesc,
    pub format: IndexFormat,
    pub contents: &'a [u8],
}

impl<'a> IndexBufferInit<'a> {
    /// This is the immutable index buffer that holds exactly `indices`, with
    /// their bytes to fill it with.
    pub open spec fn holds<I: Index>(self, indices: Seq<I>) -> bool {
        &&& self.desc == (BufferDesc {
            size: (indices.len() * I::index_format().width()) as usize,
            buffer_type: BufferType::Index,
            usage: ResourceUsage::Immutable,
        })
        &&& self.desc.size == indices.len() * I::index_format().width()
        &&& self.format == I::index_format()
        &&& native_bytes(self.contents@, index_values(indices), I::index_format().width())
    }
}

/// The vertex buffer that holds exactly `n_verts` vertices of type `V`.
pub open spec fn vertex_buffer_of<V>(n_verts: nat, usage: ResourceUsage) -> BufferDesc {
    BufferDesc {
        size: (n_verts * size_of::<V>()) as usize,
        buffer_type: BufferType::Vertex,
        usage,
    }
}

/// The vertex buffer that holds exactly `n_verts` vertices of type `V`.
pub fn vertex_buffer_desc<V>(n_verts: usize, usage: ResourceUsage) -> (desc: BufferDesc)
    requires
        n_verts * size_of::<V>() <= usize::MAX,
    ensures
        desc == vertex_buffer_of::<V>(n_verts as nat, usage),
        desc.size == n_verts * size_of::<V>(),
{
    BufferDesc {
        size: n_verts * core::mem::size_of::<V>(),
        buffer_type: BufferType::Vertex,
        usage,
    }
}

/// The immutable index buffer that holds exactly `indices`, with the bytes
/// to fill it with.
pub fn index_buffer_init<I: Index>(indices: &[I]) -> (init: IndexBufferInit<'_>)
    ensures
        init.holds(indices@),
{
    let contents = I::as_bytes(indices);
    IndexBufferInit {
        desc: BufferDesc {
            size: contents.len(),
            buffer_type: BufferType::Index,
            usage: ResourceUsage::Immutable,
        },
        format: I::format(),
        contents,
    }
}

/// The buffers and images that a draw call reads.
#[derive(Debug, Clone, Copy, PartialEq, Eq)]
pub struct Bindings {
    pub vertex_buffer: Buffer,
    /// Where in the vertex buffer the vertices to draw begin.
    pub vertex_buffer_offset: i32,
    pub index_buffer: Buffer,
    /// The images of the fragment stage, by slot.
    pub fs_images: [Image; 12],
}

impl Bindings {
    /// These are the bindings of the two buffers, from the start of the
    /// vertex buffer and without images.
    pub open spec fn is_fresh(self, vertex_buffer: Buffer, index_buffer: Buffer) -> bool {
        &&& self.vertex_buffer == vertex_buffer
        &&& self.vertex_buffer_offset == 0
        &&& self.index_buffer == index_buffer
        &&& self.fs_images@ == Seq::new(IMAGE_SLOTS as nat, |i: int| Image { id: 0 })
    }

    /// These are the bindings `before` with `img` in the slot `slot`, and
    /// nothing else changed.
    pub open spec fn is_rebound(self, before: Bindings, slot: int, img: Image) -> bool {
        &&& self.vertex_buffer == before.vertex_buffer
        &&& self.vertex_buffer_offset == before.vertex_buffer_offset
        &&& self.index_buffer == before.index_buffer
        &&& self.fs_images@ == before.fs_images@.update(slot, img)
    }

    /// Bindings of the two buffers, from the start of the vertex buffer and
    /// without images.
    pub fn new(vertex_buffer: Buffer, index_buffer: Buffer) -> (bind: Self)
        ensures
            bind.is_fresh(vertex_buffer, index_buffer),
    {
        let bind = Bindings {
            vertex_buffer,
            vertex_buffer_offset: 0,
            index_buffer,
            fs_images: [Image { id: 0 };12],
        };
        assert(bind.fs_images@ =~= Seq::new(IMAGE_SLOTS as nat, |i: int| Image { id: 0 }));
        bind
    }
}

/// One indexed draw.
#[derive(Debug, Clone, Copy, PartialEq, Eq)]
pub struct DrawCall {
    /// What to bind before the draw.
    pub bindings: Bindings,
    pub index_format: IndexFormat,
    /// The first index to draw.
    pub base_element: u32,
    /// How many indices to draw.
    pub num_elements: u32,
    pub num_instances: u32,
}

} // verus!
