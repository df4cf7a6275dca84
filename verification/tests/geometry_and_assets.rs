use vulcan_engine::assets::{
    assemble_cubemap, decode_image, get_buffer_slice, AccessorDims, AccessorMeta, AssetError,
    AssetList, ComponentType,
};
use vulcan_engine::geometry::{
    indices_from_bytes, intersperse_vertex_data, quad_indices, quad_vertices, GeometryError,
    IndexType, UpdateAction, Vec2Bits, Vec3Bits, VertexData, VertexPbr,
};

#[test]
fn index_decoding_widens_u8() {
    let bytes = vec![3u8, 1, 0];
    assert_eq!(indices_from_bytes(&bytes, IndexType::U8).unwrap(), vec![3, 1, 0]);
}

#[test]
fn index_decoding_reads_u16_little_endian() {
    let bytes = vec![0x01, 0x02, 0xff, 0x00];
    assert_eq!(indices_from_bytes(&bytes, IndexType::U16).unwrap(), vec![0x0201, 0x00ff]);
}

#[test]
fn index_decoding_reads_u32_little_endian() {
    let bytes = vec![0x78, 0x56, 0x34, 0x12];
    assert_eq!(indices_from_bytes(&bytes, IndexType::U32).unwrap(), vec![0x12345678]);
}

#[test]
fn index_decoding_rejects_misaligned() {
    assert_eq!(
        indices_from_bytes(&vec![1, 2, 3], IndexType::U16),
        Err(GeometryError::MisalignedIndexBytes)
    );
    assert_eq!(
        indices_from_bytes(&vec![1, 2, 3, 4, 5], IndexType::U32),
        Err(GeometryError::MisalignedIndexBytes)
    );
}

fn le_bytes(scalars: &[u32]) -> Vec<u8> {
    let mut out = vec![];
    for s in scalars {
        out.extend_from_slice(&s.to_le_bytes());
    }
    out
}

#[test]
fn intersperse_builds_vertices() {
    let positions = le_bytes(&[1, 2, 3, 4, 5, 6]);
    let normals = le_bytes(&[7, 8, 9, 10, 11, 12]);
    let coords = le_bytes(&[13, 14, 15, 16]);
    let vertices = intersperse_vertex_data(&positions, &normals, Some(&coords)).unwrap();
    assert_eq!(vertices.len(), 2);
    assert_eq!(
        vertices[0],
        VertexPbr {
            pos: Vec3Bits { x: 1, y: 2, z: 3 },
            normal: Vec3Bits { x: 7, y: 8, z: 9 },
            tex_coord: Vec2Bits { x: 13, y: 14 },
        }
    );
    assert_eq!(
        vertices[1],
        VertexPbr {
            pos: Vec3Bits { x: 4, y: 5, z: 6 },
            normal: Vec3Bits { x: 10, y: 11, z: 12 },
            tex_coord: Vec2Bits { x: 15, y: 16 },
        }
    );
}

#[test]
fn intersperse_without_coords_zeroes_them() {
    let positions = le_bytes(&[1, 2, 3]);
    let normals = le_bytes(&[4, 5, 6]);
    let vertices = intersperse_vertex_data(&positions, &normals, None).unwrap();
    assert_eq!(vertices[0].tex_coord, Vec2Bits { x: 0, y: 0 });
}

#[test]
fn intersperse_rejects_mismatched_streams() {
    let positions = le_bytes(&[1, 2, 3]);
    let short_normals = le_bytes(&[4, 5]);
    assert_eq!(
        intersperse_vertex_data(&positions, &short_normals, None),
        Err(GeometryError::AttributeCountMismatch)
    );
    let odd_positions = vec![0u8; 13];
    assert_eq!(
        intersperse_vertex_data(&odd_positions, &odd_positions, None),
        Err(GeometryError::MisalignedPositionBytes)
    );
    let normals = le_bytes(&[4, 5, 6]);
    let bad_coords = le_bytes(&[1, 2, 3, 4]);
    assert_eq!(
        intersperse_vertex_data(&positions, &normals, Some(&bad_coords)),
        Err(GeometryError::AttributeCountMismatch)
    );
}

#[test]
fn update_policy_reuses_within_capacity() {
    let vd: VertexData<VertexPbr> = VertexData {
        vertices: vec![],
        indices: vec![],
        vertex_buffer: 1,
        vertex_buffer_memory: 2,
        index_buffer: 3,
        index_buffer_memory: 4,
        vertex_capacity: 100,
        index_capacity: 300,
        persistent_mapping: true,
    };
    assert_eq!(vd.update_action(100, 300), UpdateAction::Reuse);
    assert_eq!(vd.update_action(101, 300), UpdateAction::Reallocate);
    assert_eq!(vd.update_action(100, 301), UpdateAction::Reallocate);
}

#[test]
fn quad_shape() {
    assert_eq!(quad_indices(), vec![0, 2, 1, 1, 2, 3]);
    let w = 16u32;
    let h = 9u32;
    let q = quad_vertices(0, w, h);
    assert_eq!(q.len(), 4);
    assert_eq!(q[3].pos, Vec3Bits { x: w, y: h, z: 0 });
}

#[test]
fn accessor_slice_copies_range() {
    let buffer: Vec<u8> = (0..32).collect();
    let meta = AccessorMeta {
        accessor_offset: 2,
        view_offset: 2,
        count: 3,
        component: ComponentType::U16,
        dims: AccessorDims::Vec2,
    };
    // 3 elements * 2 bytes * 2 components = 12 bytes starting at 4
    let slice = get_buffer_slice(&meta, &buffer).unwrap();
    assert_eq!(slice, (4..16).collect::<Vec<u8>>());
}

#[test]
fn accessor_slice_rejects_out_of_bounds() {
    let buffer: Vec<u8> = vec![0; 10];
    let meta = AccessorMeta {
        accessor_offset: 0,
        view_offset: 0,
        count: 1,
        component: ComponentType::F32,
        dims: AccessorDims::Mat4,
    };
    assert_eq!(get_buffer_slice(&meta, &buffer), Err(AssetError::AccessorOutOfBounds));
}

fn encode_png(width: u32, height: u32, rgba: &[u8]) -> Vec<u8> {
    let mut out = Vec::new();
    {
        let mut encoder = png::Encoder::new(&mut out, width, height);
        encoder.set_color(png::ColorType::Rgba);
        encoder.set_depth(png::BitDepth::Eight);
        let mut writer = encoder.write_header().unwrap();
        writer.write_image_data(rgba).unwrap();
    }
    out
}

#[test]
fn decode_image_round_trips_through_encoder() {
    let rgba = [1u8, 2, 3, 4, 5, 6, 7, 8];
    let bytes = encode_png(2, 1, &rgba);
    let img = decode_image(&bytes).unwrap();
    assert_eq!(img.width, 2);
    assert_eq!(img.height, 1);
    assert_eq!(img.pixels, rgba.to_vec());
}

#[test]
fn decode_image_rejects_garbage() {
    assert!(matches!(decode_image(&vec![1, 2, 3]), Err(AssetError::FaceDecodeFailed)));
}

#[test]
fn cubemap_concatenates_six_matching_faces() {
    let face = encode_png(1, 1, &[9, 9, 9, 9]);
    let faces = vec![face.clone(); 6];
    let cube = assemble_cubemap(&faces).unwrap();
    assert_eq!(cube.width, 1);
    assert_eq!(cube.height, 1);
    assert_eq!(cube.pixels.len(), 24);
}

#[test]
fn cubemap_rejects_wrong_count_and_mismatch() {
    let face = encode_png(1, 1, &[9, 9, 9, 9]);
    assert!(matches!(assemble_cubemap(&vec![face.clone(); 5]), Err(AssetError::WrongFaceCount)));
    let tall = encode_png(1, 2, &[1, 1, 1, 1, 2, 2, 2, 2]);
    let mut faces = vec![face.clone(); 6];
    faces[3] = tall;
    assert!(matches!(assemble_cubemap(&faces), Err(AssetError::FaceDimensionMismatch)));
}

#[test]
fn asset_list_holds_paths() {
    let list = AssetList::new(vec!["a.gltf".to_owned(), "b.gltf".to_owned()]);
    assert_eq!(list.inner_ref().len(), 2);
    assert_eq!(list.inner_ref()[0], "a.gltf");
}
