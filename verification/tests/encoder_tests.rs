use ketch::encoder::{
    add_scene_commands, Binding, ClearColor, Command, DescriptorSet, PushConstants,
};
use ketch::scene::{AssetManager, Mesh, Object, Scene};

fn begin(framebuffer: usize) -> Command {
    Command::BeginRenderPass {
        framebuffer,
        color: ClearColor { red: 0, green: 0, blue: 0, alpha: 255 },
        depth: 65535,
    }
}

#[test]
fn frame_without_scene_only_clears() {
    assert_eq!(add_scene_commands(1, None), vec![begin(1), Command::EndRenderPass]);
}

#[test]
fn frame_of_empty_scene_only_clears() {
    let scene = Scene::new();
    assert_eq!(add_scene_commands(0, Some(&scene)), vec![begin(0), Command::EndRenderPass]);
}

#[test]
fn untextured_mesh_is_drawn_once_with_two_uniform_buffers() {
    let mut scene = Scene::new();
    scene.add_object(Object {
        mesh: Some(Mesh { id: 7, texture: None }),
        light_source: false,
        uniform_scale: false,
    });
    let commands = add_scene_commands(0, Some(&scene));
    let descriptor_set = DescriptorSet { sampled_image: None };
    assert_eq!(
        commands,
        vec![
            begin(0),
            Command::UpdateUniforms { object: 0 },
            Command::DrawIndexed {
                mesh: 7,
                descriptor_set,
                push_constants: PushConstants { light_source: 0, uniform_scale: 0 },
            },
            Command::EndRenderPass,
        ]
    );
    assert_eq!(descriptor_set.bindings(), vec![Binding::TransformBuffer, Binding::LightBuffer]);
    let draws = commands.iter().filter(|c| matches!(c, Command::DrawIndexed { .. })).count();
    assert_eq!(draws, 1);
}

#[test]
fn textured_mesh_binds_three_resources_in_order() {
    let mut scene = Scene::new();
    scene.add_object(Object {
        mesh: Some(Mesh { id: 7, texture: Some(3) }),
        light_source: true,
        uniform_scale: true,
    });
    let commands = add_scene_commands(2, Some(&scene));
    assert_eq!(commands.len(), 4);
    match commands[2] {
        Command::DrawIndexed { mesh, descriptor_set, push_constants } => {
            assert_eq!(mesh, 7);
            assert_eq!(
                descriptor_set.bindings(),
                vec![
                    Binding::TransformBuffer,
                    Binding::LightBuffer,
                    Binding::SampledImage { texture: 3 },
                ]
            );
            assert_eq!(push_constants, PushConstants { light_source: 1, uniform_scale: 1 });
        }
        other => panic!("not a draw call: {:?}", other),
    }
}

#[test]
fn object_without_mesh_is_skipped_but_keeps_its_position() {
    let mut scene = Scene::new();
    let drawn = |id: u32| Object {
        mesh: Some(Mesh { id, texture: None }),
        light_source: false,
        uniform_scale: true,
    };
    scene.add_object(drawn(10));
    scene.add_object(Object { mesh: None, light_source: true, uniform_scale: false });
    scene.add_object(drawn(11));
    assert_eq!(scene.len(), 3);
    let draw = |mesh: u32| Command::DrawIndexed {
        mesh,
        descriptor_set: DescriptorSet { sampled_image: None },
        push_constants: PushConstants { light_source: 0, uniform_scale: 1 },
    };
    assert_eq!(
        add_scene_commands(0, Some(&scene)),
        vec![
            begin(0),
            Command::UpdateUniforms { object: 0 },
            draw(10),
            Command::UpdateUniforms { object: 2 },
            draw(11),
            Command::EndRenderPass,
        ]
    );
}

#[test]
fn scene_keeps_objects_in_order() {
    let mut scene = Scene::new();
    let first = Object { mesh: None, light_source: true, uniform_scale: false };
    let second = Object { mesh: Some(Mesh { id: 1, texture: None }), light_source: false, uniform_scale: false };
    scene.add_object(first);
    scene.add_object(second);
    assert_eq!(scene.object(0), Some(first));
    assert_eq!(scene.object(1), Some(second));
    assert_eq!(scene.object(2), None);
}

#[test]
fn asset_manager_holds_the_active_scene() {
    let mut manager = AssetManager::new();
    assert!(manager.active_scene().is_none());
    let mut scene = Scene::new();
    scene.add_object(Object { mesh: None, light_source: false, uniform_scale: false });
    manager.set_active_scene(scene.clone());
    assert_eq!(manager.active_scene(), Some(&scene));
    manager.clear_active_scene();
    assert!(manager.active_scene().is_none());
}
