use render_core::geometry::{
    DrawCommand, Geometry, GeometryError, IndexFormat, Vertex, VertexFormat, VertexStepMode,
};

fn vertex(p: [f32; 3], c: [f32; 3]) -> Vertex {
    Vertex {
        position: [p[0].to_bits(), p[1].to_bits(), p[2].to_bits()],
        color: [c[0].to_bits(), c[1].to_bits(), c[2].to_bits()],
    }
}

fn pentagon_points() -> Vec<Vertex> {
    let purple = [0.5, 0.0, 0.5];
    vec![
        vertex([-0.0868241, 0.49240386, 0.0], purple),
        vertex([-0.49513406, 0.06958647, 0.0], purple),
        vertex([-0.21918549, -0.44939706, 0.0], purple),
        vertex([0.35966998, -0.3473291, 0.0], purple),
        vertex([0.44147372, 0.2347359, 0.0], purple),
    ]
}

fn pentagon_indices() -> Vec<u16> {
    vec![0, 1, 4, 1, 2, 4, 2, 3, 4]
}

#[test]
fn mesh_rejects_out_of_range_index() {
    let points = vec![vertex([0.0, 0.0, 0.0], [1.0, 1.0, 1.0])];
    let r = Geometry::new(points, vec![0, 1]);
    assert!(matches!(r, Err(GeometryError::IndexOutOfRange)));
}

#[test]
fn mesh_rejects_index_equal_to_vertex_count() {
    let points = pentagon_points();
    let r = Geometry::new(points, vec![0, 1, 5]);
    assert!(matches!(r, Err(GeometryError::IndexOutOfRange)));
}

#[test]
fn mesh_accepts_in_range_indices() {
    let g = Geometry::new(pentagon_points(), pentagon_indices()).unwrap();
    assert_eq!(g.points.len(), 5);
    assert_eq!(g.indices, pentagon_indices());
    assert!(g.buffers.is_none());
}

#[test]
fn empty_mesh_is_accepted() {
    let g = Geometry::new(Vec::new(), Vec::new()).unwrap();
    assert_eq!(g.points.len(), 0);
    assert_eq!(g.indices.len(), 0);
}

#[test]
fn vertex_desc_matches_shader_layout() {
    let layout = Vertex::desc();
    assert_eq!(layout.array_stride, 24);
    assert!(matches!(layout.step_mode, VertexStepMode::PerVertex));
    assert_eq!(layout.attributes.len(), 2);
    assert_eq!(layout.attributes[0].offset, 0);
    assert_eq!(layout.attributes[0].shader_location, 0);
    assert!(matches!(layout.attributes[0].format, VertexFormat::Float32x3));
    assert_eq!(layout.attributes[1].offset, 12);
    assert_eq!(layout.attributes[1].shader_location, 1);
    assert!(matches!(layout.attributes[1].format, VertexFormat::Float32x3));
}

#[test]
fn upload_sizes_are_exact() {
    let mut g = Geometry::new(pentagon_points(), pentagon_indices()).unwrap();
    let up = g.initialize_buffers().expect("first upload");
    assert_eq!(up.vertex_bytes.len(), 5 * 24);
    assert_eq!(up.index_bytes.len(), 9 * 2);
    let buffers = g.buffers.unwrap();
    assert_eq!(buffers.vertex_buffer_size, 5 * 24);
    assert_eq!(buffers.index_buffer_size, 9 * 2);
}

#[test]
fn vertex_upload_bytes_match_float_layout() {
    let v = vertex([1.5, -2.25, 0.125], [0.5, 0.0, 1.0]);
    let mut g = Geometry::new(vec![v], vec![0]).unwrap();
    let up = g.initialize_buffers().unwrap();
    let mut expected: Vec<u8> = Vec::new();
    for f in [1.5f32, -2.25, 0.125, 0.5, 0.0, 1.0] {
        expected.extend_from_slice(&f.to_le_bytes());
    }
    assert_eq!(up.vertex_bytes, expected);
}

#[test]
fn index_upload_bytes_are_little_endian() {
    let points = vec![vertex([0.0, 0.0, 0.0], [0.0, 0.0, 0.0]); 0x1235];
    let mut g = Geometry::new(points, vec![0x1234]).unwrap();
    let up = g.initialize_buffers().unwrap();
    assert_eq!(up.index_bytes, vec![0x34, 0x12]);
}

#[test]
fn uploaded_bytes_round_trip_to_original_data() {
    let mut g = Geometry::new(pentagon_points(), pentagon_indices()).unwrap();
    let original_points = g.points.clone();
    let original_indices = g.indices.clone();
    let up = g.initialize_buffers().unwrap();

    let mut lanes: Vec<u32> = Vec::new();
    for chunk in up.vertex_bytes.chunks(4) {
        lanes.push(u32::from_le_bytes([chunk[0], chunk[1], chunk[2], chunk[3]]));
    }
    for (i, v) in original_points.iter().enumerate() {
        assert_eq!(lanes[6 * i], v.position[0]);
        assert_eq!(lanes[6 * i + 1], v.position[1]);
        assert_eq!(lanes[6 * i + 2], v.position[2]);
        assert_eq!(lanes[6 * i + 3], v.color[0]);
        assert_eq!(lanes[6 * i + 4], v.color[1]);
        assert_eq!(lanes[6 * i + 5], v.color[2]);
    }
    let mut read_back: Vec<u16> = Vec::new();
    for chunk in up.index_bytes.chunks(2) {
        read_back.push(u16::from_le_bytes([chunk[0], chunk[1]]));
    }
    assert_eq!(read_back, original_indices);
}

#[test]
fn upload_runs_once() {
    let mut g = Geometry::new(pentagon_points(), pentagon_indices()).unwrap();
    let first = g.initialize_buffers();
    assert!(first.is_some());
    let buffers = g.buffers;
    let second = g.initialize_buffers();
    assert!(second.is_none());
    assert_eq!(g.buffers, buffers);
}

#[test]
fn draw_is_refused_before_upload() {
    let g = Geometry::new(pentagon_points(), pentagon_indices()).unwrap();
    assert!(matches!(g.render(), Err(GeometryError::BuffersMissing)));
}

#[test]
fn draw_commands_cover_full_index_range_once() {
    let mut g = Geometry::new(pentagon_points(), pentagon_indices()).unwrap();
    g.initialize_buffers();
    let cmds = g.render().unwrap();
    assert_eq!(
        cmds,
        vec![
            DrawCommand::SetVertexBuffer { slot: 0 },
            DrawCommand::SetIndexBuffer { format: IndexFormat::Uint16 },
            DrawCommand::DrawIndexed { index_count: 9, base_vertex: 0, instance_count: 1 },
        ]
    );
}
