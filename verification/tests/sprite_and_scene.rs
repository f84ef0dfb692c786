use scene_core::camera2d::{Camera2d, Extent2u, Vec2i};
use scene_core::draw::{BindGroupRole, DrawCommand, DrawPass, MeshIndexFormat};
use scene_core::mesh::{
    build_mesh, build_vertex_stream, vector_vertex_layout, MeshError, VertexFormat,
};
use scene_core::tess::TessError;
use scene_core::registry::RenderServer;
use scene_core::scene::{NodeType, SceneNode};
use scene_core::sky::CameraInfo;
use scene_core::transform::{Mat4Fx, SCALE_ONE};
use scene_core::vector_sprite::VectorSprite;

#[test]
fn vertex_layout_has_fixed_stride_and_offsets() {
    let layout = vector_vertex_layout();
    assert_eq!(layout.array_stride, 20);
    assert_eq!(layout.attributes.len(), 2);
    assert_eq!(layout.attributes[0].offset, 0);
    assert_eq!(layout.attributes[0].shader_location, 0);
    assert_eq!(layout.attributes[0].format, VertexFormat::Float32x2);
    assert_eq!(layout.attributes[1].offset, 8);
    assert_eq!(layout.attributes[1].shader_location, 1);
    assert_eq!(layout.attributes[1].format, VertexFormat::Float32x3);
}

#[test]
fn vertex_stream_interleaves_positions_with_white() {
    let positions: Vec<u8> = vec![1, 2, 3, 4, 5, 6, 7, 8, 9, 10, 11, 12, 13, 14, 15, 16];
    let out = build_vertex_stream(&positions, 2);
    assert_eq!(out.len(), 40);
    let white = [0u8, 0, 128, 63];
    for v in 0..2usize {
        assert_eq!(&out[20 * v..20 * v + 8], &positions[8 * v..8 * v + 8]);
        for c in 0..3usize {
            assert_eq!(&out[20 * v + 8 + 4 * c..20 * v + 12 + 4 * c], &white);
        }
    }
}

#[test]
fn mesh_builder_refuses_empty_and_out_of_range() {
    let r = build_mesh("m".to_string(), Vec::new(), 0, vec![0, 1, 2]);
    assert!(matches!(r, Err(MeshError::EmptyVertexArray)));
    let stream = build_vertex_stream(&vec![0u8; 16], 2);
    let r = build_mesh("m".to_string(), stream, 2, vec![0, 1, 2]);
    assert!(matches!(r, Err(MeshError::IndexOutOfRange)));
}

#[test]
fn mesh_builder_keeps_data_verbatim() {
    let stream = build_vertex_stream(&vec![7u8; 24], 3);
    let mesh = build_mesh("tri".to_string(), stream.clone(), 3, vec![0, 1, 2]).expect("valid");
    assert_eq!(mesh.name, "tri");
    assert_eq!(mesh.vertex_count, 3);
    assert_eq!(mesh.vertex_data, stream);
    assert_eq!(mesh.indices, vec![0, 1, 2]);
    assert_eq!(mesh.index_count, 3);
}

#[test]
fn sprite_construction_builds_a_drawable_mesh() {
    let sprite = VectorSprite::new().expect("the demonstration path must tessellate");
    assert_eq!(sprite.path.segment_count(), 5);
    assert!(sprite.path.is_closed());
    assert!(sprite.tessellation.vertex_count > 0);
    assert_eq!(sprite.tessellation.index_count() % 3, 0);
    assert_eq!(sprite.mesh.name, "default 2d mesh");
    assert_eq!(sprite.mesh.vertex_count, sprite.tessellation.vertex_count);
    assert_eq!(
        sprite.mesh.vertex_data.len(),
        20 * sprite.mesh.vertex_count as usize
    );
    assert_eq!(sprite.mesh.indices, sprite.tessellation.indices);
    assert_eq!(sprite.position, Vec2i { x: 0, y: 0 });
    assert_eq!(sprite.size, Vec2i { x: 128, y: 128 });
    assert_eq!(sprite.scale_x, SCALE_ONE);
    assert_eq!(sprite.scale_y, SCALE_ONE);
    // Positions carried over byte for byte; color bytes all white.
    let n = sprite.mesh.vertex_count as usize;
    for v in 0..n {
        assert_eq!(
            &sprite.mesh.vertex_data[20 * v..20 * v + 8],
            &sprite.tessellation.vertex_data[8 * v..8 * v + 8]
        );
        for c in 0..3usize {
            assert_eq!(
                &sprite.mesh.vertex_data[20 * v + 8 + 4 * c..20 * v + 12 + 4 * c],
                &[0u8, 0, 128, 63]
            );
        }
    }
}

#[test]
fn sprite_draw_records_its_binding_sequence() {
    let mut server = RenderServer::new();
    let h = server.register_render_pipeline("vector pipeline".to_string());
    let sprite = VectorSprite::new().expect("the demonstration path must tessellate");
    let mut pass = DrawPass::new();
    pass.set_pipeline(h);
    sprite.draw(&mut pass);
    let commands = pass.commands();
    assert_eq!(commands.len(), 5);
    assert!(matches!(commands[1], DrawCommand::SetVertexBuffer));
    assert!(matches!(
        commands[2],
        DrawCommand::SetIndexBuffer { format: MeshIndexFormat::Uint32 }
    ));
    assert!(matches!(
        commands[3],
        DrawCommand::SetBindGroup { slot: 0, group: BindGroupRole::CameraUniform }
    ));
    let n = sprite.mesh.index_count;
    assert!(matches!(
        commands[4],
        DrawCommand::DrawIndexed { index_count, instance_count: 1 } if index_count == n
    ));
}

#[test]
fn scene_nodes_carry_their_identity() {
    let camera = Camera2d::new(Vec2i { x: 0, y: 0 }, Extent2u { width: 640, height: 480 });
    let node = SceneNode::Camera2d(camera);
    assert_eq!(node.node_type(), NodeType::Camera2d);
    assert!(node.as_camera2d().is_some());
    assert!(node.as_sky().is_none());
    assert!(node.as_vector_sprite().is_none());

    let sprite = VectorSprite::new().expect("the demonstration path must tessellate");
    let node = SceneNode::VectorSprite(sprite);
    assert_eq!(node.node_type(), NodeType::VectorSprite);
    assert!(node.as_vector_sprite().is_some());
}

#[test]
fn scene_update_recomputes_only_the_sprite_uniform() {
    let camera = Camera2d::new(Vec2i { x: 0, y: 0 }, Extent2u { width: 640, height: 480 });
    let projection = Mat4Fx::identity();
    let camera_node = SceneNode::Camera2d(
        Camera2d::new(Vec2i { x: 0, y: 0 }, Extent2u { width: 640, height: 480 }),
    );
    assert!(camera_node.update(&camera, &projection).is_none());

    let sprite = VectorSprite::new().expect("the demonstration path must tessellate");
    let sprite_node = SceneNode::VectorSprite(sprite);
    let u = sprite_node.update(&camera, &projection).expect("sprites have dynamic state");
    // Unit scale, zero position: the identity projection passes through.
    for k in 0..16usize {
        let lhs = u.num[k] * 65536;
        let rhs = (projection.m[k] as i128) * (u.den as i128);
        assert_eq!(lhs, rhs);
    }
}

#[test]
fn scene_draw_dispatch_respects_each_kind() {
    let mut server = RenderServer::new();
    let h = server.register_render_pipeline("vector pipeline".to_string());
    let info = CameraInfo { projection: Mat4Fx::identity(), bind_group: None };

    let camera_node = SceneNode::Camera2d(
        Camera2d::new(Vec2i { x: 0, y: 0 }, Extent2u { width: 640, height: 480 }),
    );
    let mut pass = DrawPass::new();
    let r = camera_node.draw(&mut pass, &info, &server);
    assert!(matches!(r, Ok(false)));
    assert!(pass.commands().is_empty());

    let sprite_node =
        SceneNode::VectorSprite(VectorSprite::new().expect("the demonstration path tessellates"));
    let mut pass = DrawPass::new();
    pass.set_pipeline(h);
    let r = sprite_node.draw(&mut pass, &info, &server);
    assert!(matches!(r, Ok(true)));
    assert_eq!(pass.commands().len(), 5);
    assert!(pass.is_issued());
}

#[test]
fn errors_carry_readable_labels() {
    assert!(!TessError::PathNotClosed.describe().is_empty());
    assert!(!TessError::FillFailed.describe().is_empty());
    assert!(!MeshError::EmptyVertexArray.describe().is_empty());
    assert!(!MeshError::IndexOutOfRange.describe().is_empty());
    assert!(!MeshError::TooManyIndices.describe().is_empty());
}
