//! Meshes: a vertex buffer and an index buffer on the graphics device, owned
//! by one value each.
//!
//! A static mesh never changes once it is made. A dynamic mesh keeps its
//! vertices on the CPU side as well; the buffer on the device is refreshed
//! from them by an upload or an append before a draw call sees new data.
//!
//! A mesh does not reach the device itself. It is made from the handles of
//! buffers that were created for it, and its methods say what to write and
//! what to draw.

use crate::gfx::index_buffer_init;
use crate::gfx::vertex_buffer_desc;
use crate::gfx::vertex_buffer_of;
use crate::gfx::Bindings;
use crate::gfx::Buffer;
use crate::gfx::BufferDesc;
use crate::gfx::DrawCall;
use crate::gfx::Image;
use crate::gfx::Index;
use crate::gfx::IndexBufferInit;
use crate::gfx::IndexFormat;
use crate::gfx::ResourceUsage;
use crate::gfx::IMAGE_SLOTS;
use std::marker::PhantomData;
use vstd::layout::size_of;
use vstd::prelude::*;

verus! {

/// The most indices that one draw call can cover.
pub const MAX_INDICES: usize = 0xffff_ffff;

/// The draw call that covers `num_elements` indices from `base_element` on,
/// in one instance.
pub open spec fn draw_of(
    bindings: Bindings,
    index_format: IndexFormat,
    base_element: u32,
    num_elements: u32,
) -> DrawCall {
    DrawCall { bindings, index_format, base_element, num_elements, num_instances: 1 }
}

/// The two buffers to create on the device for a mesh.
#[derive(Debug, PartialEq, Eq)]
pub struct MeshBuffers<'a, V> {
    /// The vertex buffer to create.
    pub vertex: BufferDesc,
    /// The vertices to fill the vertex buffer with at its creation, where it
    /// is filled then.
    pub verts: Option<&'a [V]>,
    /// The index buffer to create, and the bytes to fill it with.
    pub index: IndexBufferInit<'a>,
}

/// Mathematical state of a static mesh.
pub struct StaticMeshView {
    pub bindings: Bindings,
    pub n_verts: nat,
    pub n_indices: nat,
    pub index_format: IndexFormat,
}

impl StaticMeshView {
    /// This is the mesh made of `n_verts` vertices and `n_indices` indices
    /// in the two buffers.
    pub open spec fn is_made_of(
        self,
        vertex_buffer: Buffer,
        index_buffer: Buffer,
        n_verts: nat,
        n_indices: nat,
        index_format: IndexFormat,
    ) -> bool {
        &&& self.bindings.is_fresh(vertex_buffer, index_buffer)
        &&& self.n_verts == n_verts
        &&& self.n_indices == n_indices
        &&& self.index_format == index_format
    }

    /// The draw call that draws the whole mesh.
    pub open spec fn draw_all(self) -> DrawCall {
        draw_of(self.bindings, self.index_format, 0, self.n_indices as u32)
    }
}

/// Immutable buffers.
#[derive(Debug)]
pub struct StaticMesh<V> {
    bind: Bindings,
    n_verts: usize,
    n_indices: u32,
    index_format: IndexFormat,
    _verts: PhantomData<V>,
}

impl<V> View for StaticMesh<V> {
    type V = StaticMeshView;

    closed spec fn view(&self) -> StaticMeshView {
        StaticMeshView {
            bindings: self.bind,
            n_verts: self.n_verts as nat,
            n_indices: self.n_indices as nat,
            index_format: self.index_format,
        }
    }
}

impl<V> StaticMesh<V> {
    /// The buffers to create for a static mesh: both are sized exactly to
    /// what they hold, filled at creation and never written again.
    pub fn buffers<'a, I: Index>(verts: &'a [V], indices: &'a [I]) -> (buffers: MeshBuffers<'a, V>)
        requires
            verts@.len() * size_of::<V>() <= usize::MAX,
        ensures
            buffers.vertex == vertex_buffer_of::<V>(verts@.len(), ResourceUsage::Immutable),
            buffers.vertex.size == verts@.len() * size_of::<V>(),
            buffers.verts == Some(verts),
            buffers.index.holds(indices@),
    {
        MeshBuffers {
            vertex: vertex_buffer_desc::<V>(verts.len(), ResourceUsage::Immutable),
            verts: Some(verts),
            index: index_buffer_init(indices),
        }
    }

    /// The mesh of `verts` and `indices`, which the two buffers were created
    /// from and filled with.
    pub fn new<I: Index>(
        vertex_buffer: Buffer,
        index_buffer: Buffer,
        verts: &[V],
        indices: &[I],
    ) -> (mesh: Self)
        requires
            indices@.len() <= MAX_INDICES,
        ensures
            mesh@.is_made_of(
                vertex_buffer,
                index_buffer,
                verts@.len(),
                indices@.len(),
                I::index_format(),
            ),
    {
        Self {
            bind: Bindings::new(vertex_buffer, index_buffer),
            n_verts: verts.len(),
            n_indices: indices.len() as u32,
            index_format: I::format(),
            _verts: PhantomData,
        }
    }

    /// New mesh with `u16` indices.
    pub fn new_16(
        vertex_buffer: Buffer,
        index_buffer: Buffer,
        verts: &[V],
        indices: &[u16],
    ) -> (mesh: Self)
        requires
            indices@.len() <= MAX_INDICES,
        ensures
            mesh@.is_made_of(
                vertex_buffer,
                index_buffer,
                verts@.len(),
                indices@.len(),
                IndexFormat::Uint16,
            ),
    {
        Self::new(vertex_buffer, index_buffer, verts, indices)
    }

    /// New mesh with `u32` indices.
    pub fn new_32(
        vertex_buffer: Buffer,
        index_buffer: Buffer,
        verts: &[V],
        indices: &[u32],
    ) -> (mesh: Self)
        requires
            indices@.len() <= MAX_INDICES,
        ensures
            mesh@.is_made_of(
                vertex_buffer,
                index_buffer,
                verts@.len(),
                indices@.len(),
                IndexFormat::Uint32,
            ),
    {
        Self::new(vertex_buffer, index_buffer, verts, indices)
    }

    /// Number of vertices that the mesh was made of.
    pub fn n_verts(&self) -> (n: usize)
        ensures
            n == self@.n_verts,
    {
        self.n_verts
    }

    /// Number of indices that the mesh was made of.
    pub fn n_indices(&self) -> (n: u32)
        ensures
            n == self@.n_indices,
    {
        self.n_indices
    }

    /// Attaches an image to a slot of the fragment stage. The slots are
    /// numbered from 0 to 11.
    pub fn bind_img(&mut self, img: Image, slot: usize)
        requires
            slot < IMAGE_SLOTS,
        ensures
            final(self)@.bindings.is_rebound(old(self)@.bindings, slot as int, img),
            final(self)@ == (StaticMeshView { bindings: final(self)@.bindings, ..old(self)@ }),
    {
        self.bind.fs_images[slot] = img;
    }

    /// Draws all the elements: every index of the mesh, once.
    pub fn draw_all(&self) -> (call: DrawCall)
        ensures
            call == self@.draw_all(),
            call.base_element == 0 && call.num_elements == self@.n_indices && call.num_instances
                == 1,
    {
        DrawCall {
            bindings: self.bind,
            index_format: self.index_format,
            base_element: 0,
            num_elements: self.n_indices,
            num_instances: 1,
        }
    }

    /// Gives the mesh up. What comes back are its vertex buffer and its index
    /// buffer, to be released on the device: the mesh is gone, so no handle
    /// can be released a second time through it.
    pub fn destroy(self) -> (buffers: (Buffer, Buffer))
        ensures
            buffers == (self@.bindings.vertex_buffer, self@.bindings.index_buffer),
    {
        (self.bind.vertex_buffer, self.bind.index_buffer)
    }
}

/// How vertices are written into a buffer on the device.
#[derive(Debug, Clone, Copy, PartialEq, Eq, Structural)]
pub enum WriteKind {
    /// The whole contents are replaced: the device hands out fresh storage
    /// and fills it from its start.
    Replace,
    /// The start of the contents is overwritten in place.
    Overwrite,
    /// The vertices go behind what was written last. The device answers
    /// with the offset that it wrote them at.
    Append,
}

/// Vertices to write into a buffer on the device.
#[derive(Debug, PartialEq, Eq)]
pub struct VertexWrite<'a, V> {
    /// The buffer to write into.
    pub buffer: Buffer,
    /// How to write.
    pub kind: WriteKind,
    /// What to write.
    pub verts: &'a [V],
}

/// Mathematical state of a dynamic mesh.
pub struct DynamicMeshView<V> {
    pub bindings: Bindings,
    pub n_indices: nat,
    pub index_format: IndexFormat,
    /// The vertex buffer was replaced in the current frame.
    pub uploaded: bool,
    /// The vertices on the CPU side.
    pub verts: Seq<V>,
}

impl<V> DynamicMeshView<V> {
    /// This is the mesh made of the vertices `verts` and of `n_indices`
    /// indices in the two buffers.
    pub open spec fn is_made_of(
        self,
        vertex_buffer: Buffer,
        index_buffer: Buffer,
        verts: Seq<V>,
        n_indices: nat,
        index_format: IndexFormat,
    ) -> bool {
        &&& self.bindings.is_fresh(vertex_buffer, index_buffer)
        &&& self.n_indices == n_indices
        &&& self.index_format == index_format
        &&& !self.uploaded
        &&& self.verts == verts
    }

    /// The offset into the vertex buffer that draw calls start from.
    pub open spec fn base_offset(self) -> i32 {
        self.bindings.vertex_buffer_offset
    }

    /// The mesh once a new frame has begun.
    pub open spec fn begin_frame(self) -> Self {
        DynamicMeshView { uploaded: false, ..self }
    }

    /// The mesh once its whole vertex buffer is replaced.
    pub open spec fn upload_all_verts(self) -> Self {
        DynamicMeshView {
            bindings: Bindings { vertex_buffer_offset: 0, ..self.bindings },
            uploaded: true,
            ..self
        }
    }

    /// The mesh once the device has written an append at `offset`.
    pub open spec fn appended_at(self, offset: i32) -> Self {
        DynamicMeshView {
            bindings: Bindings { vertex_buffer_offset: offset, ..self.bindings },
            ..self
        }
    }

    /// The vertices from `start` on, `count` of them.
    pub open spec fn vert_slice(self, start: int, count: int) -> Seq<V> {
        self.verts.subrange(start, start + count)
    }

    /// The draw call of `n_indices` indices from `base_elem` on.
    pub open spec fn draw(self, base_elem: u32, n_indices: u32) -> DrawCall {
        draw_of(self.bindings, self.index_format, base_elem, n_indices)
    }

    /// The draw call that draws the whole mesh.
    pub open spec fn draw_all(self) -> DrawCall {
        self.draw(0, self.n_indices as u32)
    }
}

/// Dynamic buffers.
#[derive(Debug)]
pub struct DynamicMesh<V> {
    bind: Bindings,
    n_indices: u32,
    index_format: IndexFormat,
    uploaded: bool,
    /// The vertices on the CPU side: what the vertex buffer is refreshed
    /// from.
    pub verts: Vec<V>,
}

impl<V> View for DynamicMesh<V> {
    type V = DynamicMeshView<V>;

    closed spec fn view(&self) -> DynamicMeshView<V> {
        DynamicMeshView {
            bindings: self.bind,
            n_indices: self.n_indices as nat,
            index_format: self.index_format,
            uploaded: self.uploaded,
            verts: self.verts@,
        }
    }
}

impl<V> DynamicMesh<V> {
    /// The buffers to create for a dynamic mesh. The vertex buffer has room
    /// for exactly `verts`, is created empty and is rewritten every frame;
    /// the index buffer is sized exactly to `indices`, filled at creation and
    /// never written again.
    pub fn buffers<'a, I: Index>(verts: &'a [V], indices: &'a [I]) -> (buffers: MeshBuffers<'a, V>)
        requires
            verts@.len() * size_of::<V>() <= usize::MAX,
        ensures
            buffers.vertex == vertex_buffer_of::<V>(verts@.len(), ResourceUsage::Stream),
            buffers.vertex.size == verts@.len() * size_of::<V>(),
            buffers.verts is None,
            buffers.index.holds(indices@),
    {
        MeshBuffers {
            vertex: vertex_buffer_desc::<V>(verts.len(), ResourceUsage::Stream),
            verts: None,
            index: index_buffer_init(indices),
        }
    }

    /// The mesh of `verts` and `indices`. The vertex buffer was created to
    /// stream `verts.len()` vertices into; the index buffer was created from
    /// `indices` and filled with them.
    pub fn new<I: Index>(
        vertex_buffer: Buffer,
        index_buffer: Buffer,
        verts: Vec<V>,
        indices: &[I],
    ) -> (mesh: Self)
        requires
            indices@.len() <= MAX_INDICES,
        ensures
            mesh@.is_made_of(
                vertex_buffer,
                index_buffer,
                verts@,
                indices@.len(),
                I::index_format(),
            ),
    {
        Self {
            bind: Bindings::new(vertex_buffer, index_buffer),
            n_indices: indices.len() as u32,
            index_format: I::format(),
            uploaded: false,
            verts,
        }
    }

    /// New mesh with `u16` indices.
    pub fn new_16(
        vertex_buffer: Buffer,
        index_buffer: Buffer,
        verts: Vec<V>,
        indices: &[u16],
    ) -> (mesh: Self)
        requires
            indices@.len() <= MAX_INDICES,
        ensures
            mesh@.is_made_of(
                vertex_buffer,
                index_buffer,
                verts@,
                indices@.len(),
                IndexFormat::Uint16,
            ),
    {
        Self::new(vertex_buffer, index_buffer, verts, indices)
    }

    /// New mesh with `u32` indices.
    pub fn new_32(
        vertex_buffer: Buffer,
        index_buffer: Buffer,
        verts: Vec<V>,
        indices: &[u32],
    ) -> (mesh: Self)
        requires
            indices@.len() <= MAX_INDICES,
        ensures
            mesh@.is_made_of(
                vertex_buffer,
                index_buffer,
                verts@,
                indices@.len(),
                IndexFormat::Uint32,
            ),
    {
        Self::new(vertex_buffer, index_buffer, verts, indices)
    }

    /// Number of indices that the mesh was made of.
    pub fn n_indices(&self) -> (n: u32)
        ensures
            n == self@.n_indices,
    {
        self.n_indices
    }

    /// The offset into the vertex buffer that draw calls start from: where
    /// the latest append was written, or the start of the buffer after an
    /// upload of all vertices.
    pub fn base_offset(&self) -> (offset: i32)
        ensures
            offset == self@.base_offset(),
    {
        self.bind.vertex_buffer_offset
    }

    /// The vertices on the CPU side.
    pub fn verts(&self) -> (verts: &[V])
        ensures
            verts@ == self@.verts,
    {
        self.verts.as_slice()
    }

    /// The vertices on the CPU side, to edit. The vertex buffer on the device
    /// does not follow by itself.
    pub fn verts_mut(&mut self) -> (verts: &mut Vec<V>)
        ensures
            verts@ == old(self)@.verts,
            final(self)@ == (DynamicMeshView { verts: final(verts)@, ..old(self)@ }),
    {
        &mut self.verts
    }

    /// Whether the vertex buffer was replaced in the current frame.
    pub fn uploaded_this_frame(&self) -> (uploaded: bool)
        ensures
            uploaded == self@.uploaded,
    {
        self.uploaded
    }

    /// Attaches an image to a slot of the fragment stage. The slots are
    /// numbered from 0 to 11.
    pub fn bind_img(&mut self, img: Image, slot: usize)
        requires
            slot < IMAGE_SLOTS,
        ensures
            final(self)@.bindings.is_rebound(old(self)@.bindings, slot as int, img),
            final(self)@ == (DynamicMeshView { bindings: final(self)@.bindings, ..old(self)@ }),
    {
        self.bind.fs_images[slot] = img;
    }

    /// A new frame has begun: the vertex buffer may be replaced once more.
    pub fn begin_frame(&mut self)
        ensures
            final(self)@ == old(self)@.begin_frame(),
    {
        self.uploaded = false;
    }

    /// Replaces the whole vertex buffer by the vertices on the CPU side.
    /// The device hands out fresh storage for it, so draw calls start from
    /// the beginning of the buffer again.
    ///
    /// This can be done only once a frame.
    pub fn upload_all_verts(&mut self) -> (write: VertexWrite<'_, V>)
        requires
            !old(self)@.uploaded,
        ensures
            write.buffer == old(self)@.bindings.vertex_buffer,
            write.kind == WriteKind::Replace,
            write.verts@ == old(self)@.verts,
            final(self)@ == old(self)@.upload_all_verts(),
            final(self)@.base_offset() == 0,
    {
        self.uploaded = true;
        self.bind.vertex_buffer_offset = 0;
        VertexWrite {
            buffer: self.bind.vertex_buffer,
            kind: WriteKind::Replace,
            verts: self.verts.as_slice(),
        }
    }

    /// Overwrites the start of the vertex buffer by `n_verts` of the
    /// vertices on the CPU side, from `start_index` on.
    pub fn upload_vert_slice(&self, start_index: i32, n_verts: usize) -> (write: VertexWrite<'_, V>)
        requires
            0 <= start_index,
            start_index + n_verts <= self@.verts.len(),
        ensures
            write.buffer == self@.bindings.vertex_buffer,
            write.kind == WriteKind::Overwrite,
            write.verts@ == self@.vert_slice(start_index as int, n_verts as int),
    {
        let all = self.verts.as_slice();
        assert(start_index + n_verts <= all.len());
        let start = start_index as usize;
        VertexWrite {
            buffer: self.bind.vertex_buffer,
            kind: WriteKind::Overwrite,
            verts: &all[start..start + n_verts],
        }
    }

    /// Appends `n_verts` of the vertices on the CPU side, from `start_index`
    /// on, behind what the vertex buffer holds. The device answers with the
    /// offset that it wrote them at, which `appended_at` takes.
    pub fn append_vert_slice(&self, start_index: i32, n_verts: usize) -> (write: VertexWrite<'_, V>)
        requires
            0 <= start_index,
            start_index + n_verts <= self@.verts.len(),
        ensures
            write.buffer == self@.bindings.vertex_buffer,
            write.kind == WriteKind::Append,
            write.verts@ == self@.vert_slice(start_index as int, n_verts as int),
    {
        let all = self.verts.as_slice();
        assert(start_index + n_verts <= all.len());
        let start = start_index as usize;
        VertexWrite {
            buffer: self.bind.vertex_buffer,
            kind: WriteKind::Append,
            verts: &all[start..start + n_verts],
        }
    }

    /// Records the offset that the device wrote an append at, and hands it
    /// on. Draw calls start from there until the next append or upload of
    /// all vertices, so the first element to draw of what was appended is
    /// element zero.
    pub fn appended_at(&mut self, offset: i32) -> (recorded: i32)
        ensures
            recorded == offset,
            final(self)@ == old(self)@.appended_at(offset),
            final(self)@.base_offset() == offset,
    {
        self.bind.vertex_buffer_offset = offset;
        offset
    }

    /// Draw call of `n_indices` indices from `base_elem` on.
    ///
    /// `base_elem` is relative to the offset that draw calls start from: it
    /// is zero for what was appended last.
    pub fn draw(&self, base_elem: u32, n_indices: u32) -> (call: DrawCall)
        ensures
            call == self@.draw(base_elem, n_indices),
    {
        DrawCall {
            bindings: self.bind,
            index_format: self.index_format,
            base_element: base_elem,
            num_elements: n_indices,
            num_instances: 1,
        }
    }

    /// Draws all the elements: every index of the mesh, once.
    pub fn draw_all(&self) -> (call: DrawCall)
        ensures
            call == self@.draw_all(),
            call.base_element == 0 && call.num_elements == self@.n_indices && call.num_instances
                == 1,
    {
        self.draw(0, self.n_indices)
    }

    /// Gives the mesh up. What comes back are its vertex buffer and its index
    /// buffer, to be released on the device: the mesh is gone, so no handle
    /// can be released a second time through it.
    pub fn destroy(self) -> (buffers: (Buffer, Buffer))
        ensures
            buffers == (self@.bindings.vertex_buffer, self@.bindings.index_buffer),
    {
        (self.bind.vertex_buffer, self.bind.index_buffer)
    }
}

/// A static mesh made of any vertices and of `n_indices` indices draws
/// exactly those indices, from the first on, in one instance, out of the two
/// buffers that it was made with.
pub proof fn law_static_mesh_draws_its_indices(
    mesh: StaticMeshView,
    vertex_buffer: Buffer,
    index_buffer: Buffer,
    n_verts: nat,
    n_indices: nat,
    index_format: IndexFormat,
)
    requires
        n_indices <= MAX_INDICES,
        mesh.is_made_of(vertex_buffer, index_buffer, n_verts, n_indices, index_format),
    ensures
        mesh.draw_all().base_element == 0,
        mesh.draw_all().num_elements == n_indices,
        mesh.draw_all().num_instances == 1,
        mesh.draw_all().index_format == index_format,
        mesh.draw_all().bindings.vertex_buffer == vertex_buffer,
        mesh.draw_all().bindings.index_buffer == index_buffer,
        mesh.draw_all().bindings.vertex_buffer_offset == 0,
{
}

/// A draw call after an append starts from the offset that the device wrote
/// the append at, with element zero the first of what was appended. After a
/// second append it is the second offset that counts, not the first.
pub proof fn law_draw_starts_at_latest_append<V>(
    mesh: DynamicMeshView<V>,
    first: i32,
    second: i32,
    n_indices: u32,
)
    ensures
        mesh.appended_at(first).base_offset() == first,
        mesh.appended_at(first).draw(0, n_indices).bindings.vertex_buffer_offset == first,
        mesh.appended_at(first).draw(0, n_indices).base_element == 0,
        mesh.appended_at(first).draw(0, n_indices).num_elements == n_indices,
        mesh.appended_at(first).appended_at(second).base_offset() == second,
        mesh.appended_at(first).appended_at(second).draw(
            0,
            n_indices,
        ).bindings.vertex_buffer_offset == second,
{
}

/// An upload of all vertices puts the start of draw calls back to the
/// beginning of the buffer, whatever was appended before; an append that
/// follows it at once finds it there, and moves it to where the device
/// wrote.
pub proof fn law_upload_all_resets_base_offset<V>(mesh: DynamicMeshView<V>, before: i32, after: i32)
    ensures
        mesh.appended_at(before).upload_all_verts().base_offset() == 0,
        mesh.appended_at(before).upload_all_verts().draw_all().bindings.vertex_buffer_offset == 0,
        mesh.appended_at(before).upload_all_verts().appended_at(after).base_offset() == after,
{
}

/// The vertex buffer is replaced at most once a frame: after an upload of
/// all vertices no second one is in order, whatever is appended or drawn,
/// until a new frame begins.
pub proof fn law_one_upload_a_frame<V>(mesh: DynamicMeshView<V>, offset: i32)
    ensures
        mesh.upload_all_verts().uploaded,
        mesh.upload_all_verts().appended_at(offset).uploaded,
        !mesh.upload_all_verts().begin_frame().uploaded,
{
}

/// Neither an upload, an append nor a new frame touches the vertices on the
/// CPU side, the buffers or the number of indices.
pub proof fn law_mesh_keeps_its_buffers<V>(mesh: DynamicMeshView<V>, offset: i32)
    ensures
        mesh.upload_all_verts() == (DynamicMeshView {
            bindings: mesh.upload_all_verts().bindings,
            uploaded: true,
            ..mesh
        }),
        mesh.appended_at(offset) == (DynamicMeshView {
            bindings: mesh.appended_at(offset).bindings,
            ..mesh
        }),
        mesh.upload_all_verts().bindings.vertex_buffer == mesh.bindings.vertex_buffer,
        mesh.upload_all_verts().bindings.index_buffer == mesh.bindings.index_buffer,
        mesh.upload_all_verts().bindings.fs_images == mesh.bindings.fs_images,
        mesh.appended_at(offset).bindings.vertex_buffer == mesh.bindings.vertex_buffer,
        mesh.appended_at(offset).bindings.index_buffer == mesh.bindings.index_buffer,
        mesh.appended_at(offset).bindings.fs_images == mesh.bindings.fs_images,
{
}

} // verus!
