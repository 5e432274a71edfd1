use revy::{
    BatchPayload, MeshData, Rgba, ToRerun, TransformData, TriangleIndices, triangles_from_indices,
};

fn rgba(r: u8, g: u8, b: u8, a: u8) -> Rgba {
    Rgba { r, g, b, a }
}

#[test]
fn color_packs_as_rgba_word() {
    let c: u32 = rgba(1, 2, 3, 4).to_rerun();
    assert_eq!(c, 0x01020304);
    let c: u32 = rgba(255, 0, 128, 255).to_rerun();
    assert_eq!(c, 0xFF0080FF);
}

#[test]
fn transform_emits_four_named_batches() {
    let t = TransformData {
        translation: [1, 2, 3],
        rotation: [4, 5, 6, 7],
        scale: [8, 9, 10],
    };
    let batches: Vec<revy::SerializedBatch> = t.to_rerun();
    assert_eq!(batches.len(), 4);
    assert_eq!(batches[0].name, "Translation3D");
    assert!(matches!(batches[0].payload, BatchPayload::Translation([1, 2, 3])));
    assert_eq!(batches[1].name, "RotationQuat");
    assert!(matches!(batches[1].payload, BatchPayload::RotationQuat([4, 5, 6, 7])));
    assert_eq!(batches[2].name, "Scale3D");
    assert!(matches!(batches[2].payload, BatchPayload::Scale([8, 9, 10])));
    assert_eq!(batches[3].name, "AxisLength");
    assert!(matches!(batches[3].payload, BatchPayload::AxisLength(0)));
}

#[test]
fn triangles_group_by_three_and_drop_remainder() {
    let ts = triangles_from_indices(&vec![0, 1, 2, 3, 4, 5]);
    assert_eq!(
        ts,
        vec![
            TriangleIndices { v0: 0, v1: 1, v2: 2 },
            TriangleIndices { v0: 3, v1: 4, v2: 5 },
        ]
    );
    let ts = triangles_from_indices(&vec![0, 1, 2, 3]);
    assert_eq!(ts, vec![TriangleIndices { v0: 0, v1: 1, v2: 2 }]);
    let ts = triangles_from_indices(&vec![0, 1]);
    assert_eq!(ts, vec![]);
}

#[test]
fn mesh_with_every_attribute_keeps_all_five() {
    let m = MeshData {
        positions: Some(vec![[0, 0, 0], [1, 0, 0], [0, 1, 0]]),
        indices: Some(vec![0, 1, 2]),
        normals: Some(vec![[0, 0, 1], [0, 0, 1], [0, 0, 1]]),
        uvs: Some(vec![[0, 0], [1, 0], [0, 1]]),
        colors: Some(vec![rgba(255, 0, 0, 255); 3]),
    };
    let b = m.to_rerun().expect("a mesh with positions converts");
    assert_eq!(b.positions.len(), 3);
    assert_eq!(
        b.triangle_indices,
        Some(vec![TriangleIndices { v0: 0, v1: 1, v2: 2 }])
    );
    assert!(b.normals.is_some());
    assert!(b.uvs.is_some());
    assert!(b.colors.is_some());
    assert_eq!(b.albedo_factor, None);
}

#[test]
fn mesh_with_only_positions_keeps_only_positions() {
    let m = MeshData {
        positions: Some(vec![[0, 0, 0], [1, 0, 0], [0, 1, 0]]),
        indices: None,
        normals: None,
        uvs: None,
        colors: None,
    };
    let b = m.to_rerun().expect("a mesh with positions converts");
    assert_eq!(b.positions.len(), 3);
    assert_eq!(b.triangle_indices, None);
    assert_eq!(b.normals, None);
    assert_eq!(b.uvs, None);
    assert_eq!(b.colors, None);
}

#[test]
fn mesh_without_positions_converts_to_nothing() {
    let m = MeshData {
        positions: None,
        indices: Some(vec![0, 1, 2]),
        normals: None,
        uvs: None,
        colors: None,
    };
    let b: Option<revy::MeshBatch> = m.to_rerun();
    assert!(b.is_none());
}
