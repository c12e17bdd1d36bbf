use render_harness::gfx::mesh::DynamicMesh;
use render_harness::gfx::mesh::StaticMesh;
use render_harness::gfx::mesh::WriteKind;
use render_harness::gfx::mesh::MAX_INDICES;
use render_harness::gfx::Buffer;
use render_harness::gfx::BufferDesc;
use render_harness::gfx::BufferType;
use render_harness::gfx::Image;
use render_harness::gfx::IndexFormat;
use render_harness::gfx::ResourceUsage;

type Vertex = ([f32; 3], [f32; 4]);

const VBUF: Buffer = Buffer { id: 11 };
const IBUF: Buffer = Buffer { id: 12 };

fn triangle() -> Vec<Vertex> {
    vec![
        ([0.0, 0.5, 0.5], [1.0, 0.0, 0.0, 1.0]),
        ([0.5, -0.5, 0.5], [0.0, 1.0, 0.0, 1.0]),
        ([-0.5, -0.5, 0.5], [0.0, 0.0, 1.0, 1.0]),
    ]
}

fn quad() -> Vec<[f32; 2]> {
    vec![[0.0, 0.0], [1.0, 0.0], [1.0, 1.0], [0.0, 1.0]]
}

#[test]
fn static_mesh_draws_all_its_indices_once() {
    let verts = triangle();
    let indices: [u16; 3] = [0, 1, 2];
    let mesh = StaticMesh::new_16(VBUF, IBUF, &verts, &indices);
    assert_eq!(mesh.n_verts(), 3);
    assert_eq!(mesh.n_indices(), 3);
    let call = mesh.draw_all();
    assert_eq!(call.base_element, 0);
    assert_eq!(call.num_elements, 3);
    assert_eq!(call.num_instances, 1);
    assert_eq!(call.index_format, IndexFormat::Uint16);
    assert_eq!(call.bindings.vertex_buffer, VBUF);
    assert_eq!(call.bindings.index_buffer, IBUF);
    assert_eq!(call.bindings.vertex_buffer_offset, 0);
    // drawing changes nothing
    assert_eq!(mesh.draw_all(), call);
}

#[test]
fn static_mesh_counts_indices_not_vertices() {
    let verts: Vec<[f32; 8]> = vec![[0.0; 8]; 5];
    let indices: [u16; 10] = [0, 1, 4, 1, 2, 4, 2, 3, 4, 0];
    let mesh = StaticMesh::new(VBUF, IBUF, &verts, &indices);
    assert_eq!(mesh.n_verts(), 5);
    assert_eq!(mesh.draw_all().num_elements, 10);
    assert_eq!(mesh.draw_all().num_instances, 1);
    assert_eq!(mesh.draw_all().index_format, IndexFormat::Uint16);

    let indices: [u32; 6] = [0, 1, 2, 2, 3, 0];
    let mesh = StaticMesh::new_32(VBUF, IBUF, &verts, &indices);
    assert_eq!(mesh.draw_all().num_elements, 6);
    assert_eq!(mesh.draw_all().index_format, IndexFormat::Uint32);
}

#[test]
fn static_mesh_without_indices_draws_nothing() {
    let verts = triangle();
    let indices: [u16; 0] = [];
    let mesh = StaticMesh::new(VBUF, IBUF, &verts, &indices);
    assert_eq!(mesh.draw_all().num_elements, 0);
    assert_eq!(MAX_INDICES, u32::MAX as usize);
}

#[test]
fn static_mesh_binds_an_image_to_its_slot() {
    let verts = triangle();
    let indices: [u16; 3] = [0, 1, 2];
    let mut mesh = StaticMesh::new_16(VBUF, IBUF, &verts, &indices);
    assert_eq!(mesh.draw_all().bindings.fs_images, [Image { id: 0 }; 12]);
    mesh.bind_img(Image { id: 5 }, 0);
    mesh.bind_img(Image { id: 6 }, 11);
    let call = mesh.draw_all();
    let mut expected = [Image { id: 0 }; 12];
    expected[0] = Image { id: 5 };
    expected[11] = Image { id: 6 };
    assert_eq!(call.bindings.fs_images, expected);
    assert_eq!(call.bindings.vertex_buffer, VBUF);
    assert_eq!(call.bindings.index_buffer, IBUF);
    assert_eq!(call.num_elements, 3);
    mesh.bind_img(Image { id: 8 }, 0);
    assert_eq!(mesh.draw_all().bindings.fs_images[0], Image { id: 8 });
}

#[test]
fn static_mesh_gives_its_buffers_up_once() {
    let verts = triangle();
    let indices: [u16; 3] = [0, 1, 2];
    let mesh = StaticMesh::new_16(VBUF, IBUF, &verts, &indices);
    assert_eq!(mesh.destroy(), (VBUF, IBUF));
}

#[test]
fn dynamic_mesh_keeps_its_vertices() {
    let indices: [u16; 6] = [0, 1, 2, 2, 3, 0];
    let mesh = DynamicMesh::new_16(VBUF, IBUF, quad(), &indices);
    assert_eq!(mesh.verts, quad());
    assert_eq!(mesh.verts(), &quad()[..]);
    assert_eq!(mesh.n_indices(), 6);
    assert_eq!(mesh.base_offset(), 0);
    assert!(!mesh.uploaded_this_frame());
    let call = mesh.draw_all();
    assert_eq!((call.base_element, call.num_elements, call.num_instances), (0, 6, 1));
    assert_eq!(call.bindings.vertex_buffer, VBUF);
    assert_eq!(call.bindings.index_buffer, IBUF);
    assert_eq!(call.index_format, IndexFormat::Uint16);

    let indices: [u32; 3] = [0, 1, 2];
    let mesh = DynamicMesh::new_32(VBUF, IBUF, quad(), &indices);
    assert_eq!(mesh.draw_all().index_format, IndexFormat::Uint32);
    assert_eq!(mesh.draw_all().num_elements, 3);
    let mesh = DynamicMesh::new(VBUF, IBUF, quad(), &indices);
    assert_eq!(mesh.draw_all().index_format, IndexFormat::Uint32);
}

#[test]
fn dynamic_mesh_uploads_all_vertices() {
    let indices: [u16; 6] = [0, 1, 2, 2, 3, 0];
    let mut mesh = DynamicMesh::new_16(VBUF, IBUF, quad(), &indices);
    mesh.verts[2] = [5.0, 5.0];
    let write = mesh.upload_all_verts();
    assert_eq!(write.buffer, VBUF);
    assert_eq!(write.kind, WriteKind::Replace);
    assert_eq!(write.verts, &[[0.0, 0.0], [1.0, 0.0], [5.0, 5.0], [0.0, 1.0]][..]);
    assert_eq!(mesh.base_offset(), 0);
    assert!(mesh.uploaded_this_frame());
}

#[test]
fn dynamic_mesh_uploads_once_a_frame() {
    let indices: [u16; 3] = [0, 1, 2];
    let mut mesh = DynamicMesh::new_16(VBUF, IBUF, quad(), &indices);
    assert!(!mesh.uploaded_this_frame());
    mesh.upload_all_verts();
    assert!(mesh.uploaded_this_frame());
    mesh.appended_at(16);
    mesh.draw_all();
    assert!(mesh.uploaded_this_frame());
    mesh.begin_frame();
    assert!(!mesh.uploaded_this_frame());
    assert_eq!(mesh.base_offset(), 16);
    mesh.upload_all_verts();
    assert!(mesh.uploaded_this_frame());
}

#[test]
fn dynamic_mesh_uploads_a_slice() {
    let indices: [u16; 3] = [0, 1, 2];
    let mesh = DynamicMesh::new_16(VBUF, IBUF, quad(), &indices);
    let write = mesh.upload_vert_slice(1, 2);
    assert_eq!(write.buffer, VBUF);
    assert_eq!(write.kind, WriteKind::Overwrite);
    assert_eq!(write.verts, &[[1.0, 0.0], [1.0, 1.0]][..]);
    assert_eq!(mesh.upload_vert_slice(0, 4).verts, &quad()[..]);
    assert!(mesh.upload_vert_slice(4, 0).verts.is_empty());
    assert_eq!(mesh.base_offset(), 0);
}

#[test]
fn dynamic_mesh_draws_from_the_latest_append() {
    let indices: [u16; 6] = [0, 1, 2, 2, 3, 0];
    let mut mesh = DynamicMesh::new_16(VBUF, IBUF, quad(), &indices);

    // the first append of a frame is written at the start of the buffer
    let write = mesh.append_vert_slice(0, 3);
    assert_eq!(write.buffer, VBUF);
    assert_eq!(write.kind, WriteKind::Append);
    assert_eq!(write.verts, &quad()[0..3]);
    assert_eq!(mesh.appended_at(0), 0);
    let call = mesh.draw(0, 6);
    assert_eq!(call.bindings.vertex_buffer_offset, 0);
    assert_eq!((call.base_element, call.num_elements, call.num_instances), (0, 6, 1));

    // the second one behind it
    let write = mesh.append_vert_slice(3, 1);
    assert_eq!(write.verts, &quad()[3..4]);
    assert_eq!(mesh.appended_at(24), 24);
    assert_eq!(mesh.base_offset(), 24);
    let call = mesh.draw(0, 6);
    assert_eq!(call.bindings.vertex_buffer_offset, 24);
    assert_eq!(call.base_element, 0);
    assert_eq!(mesh.draw_all().bindings.vertex_buffer_offset, 24);
    assert_eq!(mesh.draw(2, 3).base_element, 2);
    assert_eq!(mesh.draw(2, 3).num_elements, 3);
}

#[test]
fn dynamic_mesh_upload_resets_the_append_offset() {
    let indices: [u16; 6] = [0, 1, 2, 2, 3, 0];
    let mut mesh = DynamicMesh::new_16(VBUF, IBUF, quad(), &indices);
    mesh.append_vert_slice(0, 4);
    mesh.appended_at(32);
    assert_eq!(mesh.base_offset(), 32);

    mesh.upload_all_verts();
    assert_eq!(mesh.base_offset(), 0);
    assert_eq!(mesh.draw_all().bindings.vertex_buffer_offset, 0);

    // an append right after it starts from the reset offset
    let write = mesh.append_vert_slice(1, 2);
    assert_eq!(write.verts, &quad()[1..3]);
    assert_eq!(mesh.base_offset(), 0);
    assert_eq!(mesh.appended_at(8), 8);
    assert_eq!(mesh.base_offset(), 8);
}

#[test]
fn dynamic_mesh_edits_its_vertices() {
    let indices: [u16; 3] = [0, 1, 2];
    let mut mesh = DynamicMesh::new_16(VBUF, IBUF, quad(), &indices);
    mesh.verts_mut().push([2.0, 2.0]);
    mesh.verts_mut()[0] = [9.0, 9.0];
    assert_eq!(mesh.verts().len(), 5);
    let write = mesh.append_vert_slice(4, 1);
    assert_eq!(write.verts, &[[2.0, 2.0]][..]);
    assert_eq!(mesh.upload_vert_slice(0, 1).verts, &[[9.0, 9.0]][..]);
    // the mesh draws its indices, however many vertices there are
    assert_eq!(mesh.draw_all().num_elements, 3);
}

#[test]
fn dynamic_mesh_binds_an_image_to_its_slot() {
    let indices: [u16; 3] = [0, 1, 2];
    let mut mesh = DynamicMesh::new_16(VBUF, IBUF, quad(), &indices);
    mesh.appended_at(40);
    mesh.bind_img(Image { id: 3 }, 4);
    let call = mesh.draw_all();
    let mut expected = [Image { id: 0 }; 12];
    expected[4] = Image { id: 3 };
    assert_eq!(call.bindings.fs_images, expected);
    assert_eq!(call.bindings.vertex_buffer_offset, 40);
    assert_eq!(mesh.verts, quad());
}

#[test]
fn dynamic_mesh_gives_its_buffers_up_once() {
    let indices: [u16; 3] = [0, 1, 2];
    let mesh = DynamicMesh::new_16(VBUF, IBUF, quad(), &indices);
    assert_eq!(mesh.destroy(), (VBUF, IBUF));
}

#[test]
fn static_mesh_buffers_are_sized_to_what_they_hold() {
    let verts = triangle();
    let indices: [u16; 3] = [0, 1, 2];
    let buffers = StaticMesh::buffers(&verts, &indices);
    assert_eq!(
        buffers.vertex,
        BufferDesc { size: 84, buffer_type: BufferType::Vertex, usage: ResourceUsage::Immutable }
    );
    assert_eq!(buffers.verts, Some(&verts[..]));
    assert_eq!(
        buffers.index.desc,
        BufferDesc { size: 6, buffer_type: BufferType::Index, usage: ResourceUsage::Immutable }
    );
    assert_eq!(buffers.index.format, IndexFormat::Uint16);
    assert_eq!(&buffers.index.contents[4..6], &2u16.to_ne_bytes()[..]);
}

#[test]
fn dynamic_mesh_buffers_stream_the_vertices() {
    let verts = quad();
    let indices: [u32; 6] = [0, 1, 2, 2, 3, 0];
    let buffers = DynamicMesh::buffers(&verts, &indices);
    assert_eq!(
        buffers.vertex,
        BufferDesc { size: 32, buffer_type: BufferType::Vertex, usage: ResourceUsage::Stream }
    );
    assert_eq!(buffers.verts, None);
    assert_eq!(
        buffers.index.desc,
        BufferDesc { size: 24, buffer_type: BufferType::Index, usage: ResourceUsage::Immutable }
    );
    assert_eq!(buffers.index.format, IndexFormat::Uint32);
    assert_eq!(&buffers.index.contents[20..24], &0u32.to_ne_bytes()[..]);
    assert_eq!(&buffers.index.contents[16..20], &3u32.to_ne_bytes()[..]);
}
