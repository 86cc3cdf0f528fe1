use asset_loader::{
    check_status, decode_mesh, decode_obj_mesh, decode_primitive, format_url, interleave, obj_material_index,
    pack_words, remote_base, resolved_or_error, slice_view, vertex_words, AccessorDesc, AssetSource, BufferSource,
    ComponentType, GltfDocument, GltfMeshDesc, LoadError, PrimitiveDesc, ViewDesc,
};

fn bits(v: &[f32]) -> Vec<u32> {
    v.iter().map(|x| x.to_bits()).collect()
}

fn le(words: &[u32]) -> Vec<u8> {
    words.iter().flat_map(|w| w.to_le_bytes()).collect()
}

fn f32_bytes(v: &[f32]) -> Vec<u8> {
    le(&bits(v))
}

#[test]
fn interleave_builds_one_vertex_per_record() {
    let pos = bits(&[1.0, 2.0, 3.0, 4.0, 5.0, 6.0]);
    let tex = bits(&[0.25, 0.5, 0.75, 1.0]);
    let nrm = bits(&[0.0, 0.0, 1.0, 0.0, 1.0, 0.0]);
    let vs = interleave(&pos, &tex, &nrm).unwrap();
    assert_eq!(vs.len(), 2);
    assert_eq!(vs[1].position, [4.0f32.to_bits(), 5.0f32.to_bits(), 6.0f32.to_bits()]);
    assert_eq!(vs[1].tex_coord, [0.75f32.to_bits(), 1.0f32.to_bits()]);
    assert_eq!(vs[0].normal, [0.0f32.to_bits(), 0.0f32.to_bits(), 1.0f32.to_bits()]);
}

#[test]
fn interleave_rejects_missing_and_mismatched_streams() {
    let pos = vec![1, 2, 3];
    assert_eq!(interleave(&pos, &vec![], &vec![1, 2, 3]).unwrap_err(), LoadError::MissingAttribute);
    assert_eq!(interleave(&pos, &vec![1, 2, 3, 4], &vec![1, 2, 3]).unwrap_err(), LoadError::AttributeLengthMismatch);
    assert_eq!(interleave(&vec![1, 2], &vec![1, 2], &vec![1, 2]).unwrap_err(), LoadError::AttributeLengthMismatch);
}

fn cube_streams() -> (Vec<u32>, Vec<u32>, Vec<u32>, Vec<u32>) {
    // 6 faces, 4 distinct single-index vertices each, 2 triangles each.
    let mut pos = Vec::new();
    let mut tex = Vec::new();
    let mut nrm = Vec::new();
    let mut idx = Vec::new();
    for face in 0..6u32 {
        for corner in 0..4u32 {
            pos.extend_from_slice(&[face, corner, face + corner]);
            tex.extend_from_slice(&[corner, face]);
            nrm.extend_from_slice(&[face, 0, 1]);
        }
        let b = face * 4;
        idx.extend_from_slice(&[b, b + 1, b + 2, b, b + 2, b + 3]);
    }
    (pos, tex, nrm, idx)
}

#[test]
fn cube_decodes_to_thirty_six_indices() {
    let (pos, tex, nrm, idx) = cube_streams();
    let m = decode_obj_mesh("cube.obj".to_string(), pos, tex, nrm, idx.clone(), Some(0)).unwrap();
    assert_eq!(m.num_elements(), 36);
    assert_eq!(m.indices, idx);
    assert_eq!(m.vertices.len(), 24);
    assert_eq!(m.material, 0);
    assert_eq!(m.name, "cube.obj");
}

#[test]
fn triangle_count_gives_index_and_vertex_counts() {
    let pos = vec![0, 0, 0, 1, 0, 0, 0, 1, 0, 1, 1, 0];
    let tex = vec![0, 0, 1, 0, 0, 1, 1, 1];
    let nrm = vec![0, 0, 1, 0, 0, 1, 0, 0, 1, 0, 0, 1];
    let idx = vec![0, 1, 2, 2, 1, 3];
    let m = decode_obj_mesh("quad".to_string(), pos, tex, nrm, idx, Some(2)).unwrap();
    assert_eq!(m.indices.len(), 3 * 2);
    assert_eq!(m.vertices.len(), 4);
    assert_eq!(m.material, 2);
}

#[test]
fn submesh_without_material_uses_default() {
    let m = decode_obj_mesh("tri".to_string(), vec![0; 9], vec![0; 6], vec![0; 9], vec![0, 1, 2], None).unwrap();
    assert_eq!(m.material, 0);
    assert_eq!(obj_material_index(None), 0);
    assert_eq!(obj_material_index(Some(5)), 5);
}

#[test]
fn obj_mesh_errors() {
    assert_eq!(
        decode_obj_mesh("e".to_string(), vec![0; 9], vec![0; 6], vec![0; 9], vec![], None).err(),
        Some(LoadError::MalformedAsset)
    );
    assert_eq!(
        decode_obj_mesh("e".to_string(), vec![0; 9], vec![], vec![0; 9], vec![0, 1, 2], None).err(),
        Some(LoadError::MissingAttribute)
    );
    assert_eq!(
        decode_obj_mesh("e".to_string(), vec![0; 9], vec![0; 4], vec![0; 9], vec![0, 1, 2], None).err(),
        Some(LoadError::AttributeLengthMismatch)
    );
}

#[test]
fn words_pack_little_endian() {
    assert_eq!(pack_words(&vec![0x04030201, 0xdeadbeef]), vec![1, 2, 3, 4, 0xef, 0xbe, 0xad, 0xde]);
    assert!(pack_words(&vec![]).is_empty());
}

#[test]
fn mesh_buffers_are_interleaved_little_endian() {
    let pos = vec![1, 2, 3];
    let tex = vec![4, 5];
    let nrm = vec![6, 7, 8];
    let m = decode_obj_mesh("v".to_string(), pos, tex, nrm, vec![0, 0, 0], None).unwrap();
    assert_eq!(vertex_words(&m.vertices), vec![1, 2, 3, 4, 5, 6, 7, 8]);
    assert_eq!(m.vertex_bytes(), le(&[1, 2, 3, 4, 5, 6, 7, 8]));
    assert_eq!(m.index_bytes(), vec![0; 12]);
}

#[test]
fn view_slice_is_exact() {
    let bytes: Vec<u8> = (0..=255u8).collect();
    let s = slice_view(&bytes, 64, 128).unwrap();
    assert_eq!(s, bytes[64..192].to_vec());
    let short: Vec<u8> = (0..150u8).collect();
    assert_eq!(slice_view(&short, 64, 128).unwrap_err(), LoadError::BufferSliceError);
    assert_eq!(slice_view(&bytes, 300, 0).unwrap_err(), LoadError::BufferSliceError);
}

fn acc(view: usize, offset: usize, count: usize, component: ComponentType, dims: usize) -> AccessorDesc {
    AccessorDesc { view: Some(view), offset, count, component, dims }
}

/// One external buffer: indices (u16), positions, normals, texture coordinates.
fn triangle_doc(normal_count: usize) -> (GltfDocument, Vec<Vec<u8>>) {
    let mut bytes = Vec::new();
    for i in [0u16, 1, 2, 0] {
        bytes.extend_from_slice(&i.to_le_bytes());
    }
    bytes.extend(f32_bytes(&[0.0, 0.0, 0.0, 1.0, 0.0, 0.0, 0.0, 1.0, 0.0]));
    bytes.extend(f32_bytes(&[0.0, 0.0, 1.0, 0.0, 0.0, 1.0, 0.0, 0.0, 1.0]));
    bytes.extend(f32_bytes(&[0.0, 0.0, 1.0, 0.0, 0.0, 1.0]));
    let doc = GltfDocument {
        buffers: vec![BufferSource::Uri("tri.bin".to_string())],
        views: vec![
            ViewDesc { buffer: 0, offset: 0, length: 8, stride: None },
            ViewDesc { buffer: 0, offset: 8, length: 36, stride: None },
            ViewDesc { buffer: 0, offset: 44, length: 36, stride: None },
            ViewDesc { buffer: 0, offset: 80, length: 24, stride: None },
        ],
        accessors: vec![
            acc(0, 0, 3, ComponentType::U16, 1),
            acc(1, 0, 3, ComponentType::F32, 3),
            acc(2, 0, normal_count, ComponentType::F32, 3),
            acc(3, 0, 3, ComponentType::F32, 2),
        ],
    };
    (doc, vec![bytes])
}

fn full_primitive() -> PrimitiveDesc {
    PrimitiveDesc { indices: Some(0), position: Some(1), normal: Some(2), tex_coord: Some(3), material: None }
}

#[test]
fn gltf_primitive_decodes() {
    let (doc, fetched) = triangle_doc(3);
    let p = decode_primitive(&doc, &fetched, &full_primitive()).unwrap();
    assert_eq!(p.indices, vec![0, 1, 2]);
    assert_eq!(p.vertices.len(), 3);
    assert_eq!(p.vertices[1].position, [1.0f32.to_bits(), 0, 0]);
    assert_eq!(p.vertices[2].tex_coord, [0, 1.0f32.to_bits()]);
    assert_eq!(p.vertices[0].normal, [0, 0, 1.0f32.to_bits()]);
    assert_eq!(p.material, 0);
}

#[test]
fn gltf_missing_indices() {
    let (doc, fetched) = triangle_doc(3);
    let prim = PrimitiveDesc { indices: None, ..full_primitive() };
    assert_eq!(decode_primitive(&doc, &fetched, &prim).err(), Some(LoadError::MissingIndices));
}

#[test]
fn gltf_missing_position() {
    let (doc, fetched) = triangle_doc(3);
    let prim = PrimitiveDesc { position: None, ..full_primitive() };
    assert_eq!(decode_primitive(&doc, &fetched, &prim).err(), Some(LoadError::MissingAttribute));
}

#[test]
fn gltf_absent_normals_and_tex_coords_are_zero() {
    let (doc, fetched) = triangle_doc(3);
    let prim = PrimitiveDesc { normal: None, tex_coord: None, material: Some(4), ..full_primitive() };
    let p = decode_primitive(&doc, &fetched, &prim).unwrap();
    assert_eq!(p.vertices.len(), 3);
    assert_eq!(p.vertices[2].normal, [0, 0, 0]);
    assert_eq!(p.vertices[2].tex_coord, [0, 0]);
    assert_eq!(p.material, 4);
}

#[test]
fn gltf_unequal_attribute_lengths() {
    let (doc, fetched) = triangle_doc(2);
    assert_eq!(decode_primitive(&doc, &fetched, &full_primitive()).err(), Some(LoadError::MalformedAsset));
}

#[test]
fn gltf_embedded_buffer_unsupported() {
    let (mut doc, fetched) = triangle_doc(3);
    doc.buffers = vec![BufferSource::Bin];
    assert_eq!(decode_primitive(&doc, &fetched, &full_primitive()).err(), Some(LoadError::UnsupportedFormat));
    assert_eq!(doc.buffer_uri(0).err(), Some(LoadError::UnsupportedFormat));
    assert_eq!(doc.buffer_uri(1).err(), Some(LoadError::MalformedAsset));
}

#[test]
fn gltf_non_float_attribute_unsupported() {
    let (mut doc, fetched) = triangle_doc(3);
    doc.accessors[1].component = ComponentType::U32;
    assert_eq!(decode_primitive(&doc, &fetched, &full_primitive()).err(), Some(LoadError::UnsupportedFormat));
}

#[test]
fn gltf_short_buffer_fails_slicing() {
    let (doc, mut fetched) = triangle_doc(3);
    fetched[0].truncate(50);
    assert_eq!(decode_primitive(&doc, &fetched, &full_primitive()).err(), Some(LoadError::BufferSliceError));
}

#[test]
fn gltf_strided_positions() {
    // Positions interleaved with 4 bytes of padding: stride 16.
    let mut bytes = Vec::new();
    for i in [0u32, 1, 2] {
        bytes.extend_from_slice(&i.to_le_bytes());
    }
    for v in 0..3u32 {
        bytes.extend(le(&[10 * v + 1, 10 * v + 2, 10 * v + 3, 0xffff_ffff]));
    }
    let doc = GltfDocument {
        buffers: vec![BufferSource::Uri("s.bin".to_string())],
        views: vec![
            ViewDesc { buffer: 0, offset: 0, length: 12, stride: None },
            ViewDesc { buffer: 0, offset: 12, length: 44, stride: Some(16) },
        ],
        accessors: vec![acc(0, 0, 3, ComponentType::U32, 1), acc(1, 0, 3, ComponentType::F32, 3)],
    };
    let prim = PrimitiveDesc { indices: Some(0), position: Some(1), normal: None, tex_coord: None, material: None };
    let p = decode_primitive(&doc, &vec![bytes], &prim).unwrap();
    assert_eq!(p.vertices[0].position, [1, 2, 3]);
    assert_eq!(p.vertices[2].position, [21, 22, 23]);
    assert_eq!(p.indices, vec![0, 1, 2]);
}

#[test]
fn gltf_accessor_past_view_is_malformed() {
    let (mut doc, fetched) = triangle_doc(3);
    doc.accessors[1].offset = 4;
    assert_eq!(decode_primitive(&doc, &fetched, &full_primitive()).err(), Some(LoadError::MalformedAsset));
}

#[test]
fn gltf_mesh_decodes_all_primitives() {
    let (doc, fetched) = triangle_doc(3);
    let mesh = GltfMeshDesc { name: None, primitives: vec![full_primitive(), full_primitive()] };
    let m = decode_mesh(&doc, &fetched, &mesh).unwrap();
    assert_eq!(m.name, "unnamed");
    assert_eq!(m.primitives.len(), 2);
    let bad = GltfMeshDesc {
        name: Some("m".to_string()),
        primitives: vec![full_primitive(), PrimitiveDesc { indices: None, ..full_primitive() }],
    };
    assert_eq!(decode_mesh(&doc, &fetched, &bad).err(), Some(LoadError::MissingIndices));
}

#[test]
fn remote_base_appends_segment_once() {
    assert_eq!(remote_base("https://example.com"), "https://example.com/learn-wgpu/");
    assert_eq!(remote_base("https://example.com/learn-wgpu"), "https://example.com/learn-wgpu/");
}

#[test]
fn remote_urls_resolve_against_base() {
    assert_eq!(format_url("https://example.com", "cube.obj").unwrap(), "https://example.com/learn-wgpu/cube.obj");
    assert_eq!(
        format_url("https://example.com/learn-wgpu", "tex/a.png").unwrap(),
        "https://example.com/learn-wgpu/tex/a.png"
    );
    assert_eq!(format_url("not a url", "cube.obj").unwrap_err(), LoadError::NetworkError);
    assert_eq!(resolved_or_error(None).unwrap_err(), LoadError::NetworkError);
    assert_eq!(resolved_or_error(Some("u".to_string())).unwrap(), "u");
}

#[test]
fn sources_locate_assets() {
    let local = AssetSource::Local { root: "/srv/res".to_string() };
    assert_eq!(local.locate("cube.obj").unwrap(), "/srv/res/cube.obj");
    let remote = AssetSource::Remote { origin: "http://localhost:8000".to_string() };
    assert_eq!(remote.locate("cube.mtl").unwrap(), "http://localhost:8000/learn-wgpu/cube.mtl");
}

#[test]
fn status_codes() {
    assert!(check_status(200).is_ok());
    assert!(check_status(299).is_ok());
    assert_eq!(check_status(404).unwrap_err(), LoadError::NetworkError);
    assert_eq!(check_status(199).unwrap_err(), LoadError::NetworkError);
}

#[test]
fn error_messages() {
    assert_eq!(LoadError::NotFound.message(), "asset not found");
    assert_eq!(LoadError::MissingIndices.message(), "primitive has no indices");
}
