use scene_core::draw::{BindGroupRole, DrawCommand, DrawPass, MeshIndexFormat, ProtocolError};
use scene_core::registry::RenderServer;
use scene_core::sky::{CameraInfo, CubeTextureHandle, SceneError, Sky, SkyboxMesh};
use scene_core::transform::Mat4Fx;

#[test]
fn draw_refused_before_any_binding() {
    let mut pass = DrawPass::new();
    assert!(!pass.ready());
    let r = pass.try_draw_indexed(9);
    assert!(matches!(r, Err(ProtocolError::BindingIncomplete)));
    assert!(pass.commands().is_empty());
}

#[test]
fn draw_refused_until_every_step_is_taken() {
    let mut server = RenderServer::new();
    let h = server.register_render_pipeline("vector pipeline".to_string());
    let mut pass = DrawPass::new();
    pass.set_pipeline(h);
    assert!(matches!(pass.try_draw_indexed(9), Err(ProtocolError::BindingIncomplete)));
    pass.set_vertex_buffer();
    assert!(matches!(pass.try_draw_indexed(9), Err(ProtocolError::BindingIncomplete)));
    pass.set_index_buffer(MeshIndexFormat::Uint32);
    assert!(matches!(pass.try_draw_indexed(9), Err(ProtocolError::BindingIncomplete)));
    pass.bind_camera_group();
    assert!(pass.ready());
    assert!(matches!(pass.try_draw_indexed(9), Ok(())));
    assert!(pass.is_issued());
}

#[test]
fn second_draw_of_one_run_is_refused() {
    let mut server = RenderServer::new();
    let h = server.register_render_pipeline("vector pipeline".to_string());
    let mut pass = DrawPass::new();
    pass.set_pipeline(h);
    pass.set_vertex_buffer();
    pass.set_index_buffer(MeshIndexFormat::Uint32);
    pass.bind_camera_group();
    assert!(matches!(pass.try_draw_indexed(3), Ok(())));
    assert!(matches!(pass.try_draw_indexed(3), Err(ProtocolError::AlreadyIssued)));
}

#[test]
fn recorded_commands_follow_the_protocol_order() {
    let mut server = RenderServer::new();
    let h = server.register_render_pipeline("vector pipeline".to_string());
    let mut pass = DrawPass::new();
    pass.set_pipeline(h);
    pass.set_vertex_buffer();
    pass.set_index_buffer(MeshIndexFormat::Uint32);
    pass.bind_camera_group();
    pass.bind_material_group();
    pass.draw_indexed(12);
    let commands = pass.commands();
    assert_eq!(commands.len(), 6);
    assert!(matches!(commands[0], DrawCommand::SetPipeline { pipeline } if pipeline == h));
    assert!(matches!(commands[1], DrawCommand::SetVertexBuffer));
    assert!(matches!(
        commands[2],
        DrawCommand::SetIndexBuffer { format: MeshIndexFormat::Uint32 }
    ));
    assert!(matches!(
        commands[3],
        DrawCommand::SetBindGroup { slot: 0, group: BindGroupRole::CameraUniform }
    ));
    assert!(matches!(
        commands[4],
        DrawCommand::SetBindGroup { slot: 1, group: BindGroupRole::Material }
    ));
    assert!(matches!(
        commands[5],
        DrawCommand::DrawIndexed { index_count: 12, instance_count: 1 }
    ));
}

#[test]
fn lookup_of_unregistered_names_is_none() {
    let server = RenderServer::new();
    assert!(server.get_render_pipeline(&"skybox pipeline".to_string()).is_none());
    assert!(server
        .get_bind_group_layout(&"skybox texture bind group layout".to_string())
        .is_none());
}

#[test]
fn lookup_returns_first_registration() {
    let mut server = RenderServer::new();
    let first = server.register_render_pipeline("skybox pipeline".to_string());
    let _other = server.register_render_pipeline("vector pipeline".to_string());
    let found = server.get_render_pipeline(&"skybox pipeline".to_string());
    assert_eq!(found, Some(first));
}

#[test]
fn sky_construction_fails_without_the_named_layout() {
    let server = RenderServer::new();
    let r = Sky::new(&server, CubeTextureHandle { id: 7 }, SkyboxMesh { index_count: 36 });
    match r {
        Err(SceneError::MissingBindGroupLayout { name }) => {
            assert_eq!(name, "skybox texture bind group layout");
        },
        _ => panic!("construction must name the missing layout"),
    }
}

#[test]
fn sky_construction_resolves_the_binding_once() {
    let mut server = RenderServer::new();
    let layout = server.register_bind_group_layout("skybox texture bind group layout".to_string());
    let sky = Sky::new(&server, CubeTextureHandle { id: 7 }, SkyboxMesh { index_count: 36 })
        .expect("the layout is registered");
    assert_eq!(sky.name, "sky");
    assert_eq!(sky.material.name, "sky material");
    assert_eq!(sky.material.texture, CubeTextureHandle { id: 7 });
    assert_eq!(sky.material.binding.layout, layout);
    assert_eq!(sky.material.binding.texture, Some(CubeTextureHandle { id: 7 }));
    assert_eq!(sky.mesh, SkyboxMesh { index_count: 36 });
}

#[test]
fn sky_draw_skips_without_camera_bind_group() {
    let mut server = RenderServer::new();
    server.register_bind_group_layout("skybox texture bind group layout".to_string());
    let sky = Sky::new(&server, CubeTextureHandle { id: 7 }, SkyboxMesh { index_count: 36 })
        .expect("the layout is registered");
    let info = CameraInfo { projection: Mat4Fx::identity(), bind_group: None };
    let mut pass = DrawPass::new();
    let r = sky.draw(&mut pass, &info, &server);
    assert!(matches!(r, Ok(false)));
    assert!(pass.commands().is_empty());
}

#[test]
fn sky_draw_fails_without_the_named_pipeline() {
    let mut server = RenderServer::new();
    server.register_bind_group_layout("skybox texture bind group layout".to_string());
    let sky = Sky::new(&server, CubeTextureHandle { id: 7 }, SkyboxMesh { index_count: 36 })
        .expect("the layout is registered");
    let info = CameraInfo { projection: Mat4Fx::identity(), bind_group: Some(1) };
    let mut pass = DrawPass::new();
    let r = sky.draw(&mut pass, &info, &server);
    match r {
        Err(e) => {
            assert_eq!(e.resource_name().as_str(), "skybox pipeline");
            assert!(matches!(e, SceneError::MissingRenderPipeline { .. }));
        },
        _ => panic!("a missing pipeline must be an identifiable error"),
    }
    assert!(pass.commands().is_empty());
}

#[test]
fn sky_draw_records_the_full_binding_sequence() {
    let mut server = RenderServer::new();
    server.register_bind_group_layout("skybox texture bind group layout".to_string());
    let h = server.register_render_pipeline("skybox pipeline".to_string());
    let sky = Sky::new(&server, CubeTextureHandle { id: 7 }, SkyboxMesh { index_count: 36 })
        .expect("the layout is registered");
    let info = CameraInfo { projection: Mat4Fx::identity(), bind_group: Some(1) };
    let mut pass = DrawPass::new();
    let r = sky.draw(&mut pass, &info, &server);
    assert!(matches!(r, Ok(true)));
    let commands = pass.commands();
    assert_eq!(commands.len(), 6);
    assert!(matches!(commands[0], DrawCommand::SetPipeline { pipeline } if pipeline == h));
    assert!(matches!(
        commands[3],
        DrawCommand::SetBindGroup { slot: 0, group: BindGroupRole::CameraUniform }
    ));
    assert!(matches!(
        commands[4],
        DrawCommand::SetBindGroup { slot: 1, group: BindGroupRole::Material }
    ));
    assert!(matches!(
        commands[5],
        DrawCommand::DrawIndexed { index_count: 36, instance_count: 1 }
    ));
}
