use shader_toy::pass::{
    bind_sprite, main_pass, plain_pass, BindGroup, ClearColor, PassCommand,
    CAMERA_SLOT, MAIN_UNIFORM_SLOT, QUAD_VERTICES, SPRITE_SLOT,
};

#[test]
fn engine_pass_binds_in_order_and_draws_one_quad() {
    let pass = main_pass();
    assert_eq!(
        pass.commands,
        vec![
            PassCommand::SetPipeline,
            PassCommand::SetBindGroup { slot: 0, group: BindGroup::Camera },
            PassCommand::SetVertexBuffer { slot: 0 },
            PassCommand::SetBindGroup { slot: 1, group: BindGroup::Sprite },
            PassCommand::SetBindGroup { slot: 2, group: BindGroup::MainUniforms },
            PassCommand::Draw { vertices: 6, instances: 1 },
        ]
    );
}

#[test]
fn engine_pass_clears_to_transparent_without_depth_or_multisampling() {
    let pass = main_pass();
    assert_eq!(
        pass.clear,
        ClearColor {
            r: 0.0f64.to_bits(),
            g: 0.0f64.to_bits(),
            b: 0.0f64.to_bits(),
            a: 0.0f64.to_bits(),
        }
    );
    assert!(!pass.depth_stencil);
    assert_eq!(pass.samples, 1);
}

#[test]
fn plain_pass_leaves_the_main_uniforms_out() {
    let pass = plain_pass();
    assert_eq!(
        pass.commands,
        vec![
            PassCommand::SetPipeline,
            PassCommand::SetBindGroup { slot: 0, group: BindGroup::Camera },
            PassCommand::SetVertexBuffer { slot: 0 },
            PassCommand::SetBindGroup { slot: 1, group: BindGroup::Sprite },
            PassCommand::Draw { vertices: 6, instances: 1 },
        ]
    );
    assert_eq!(pass.samples, 1);
    assert!(!pass.depth_stencil);
}

#[test]
fn sprite_binds_its_quad_and_then_its_texture() {
    let mut commands = vec![PassCommand::SetPipeline];
    bind_sprite(&mut commands);
    assert_eq!(
        commands,
        vec![
            PassCommand::SetPipeline,
            PassCommand::SetVertexBuffer { slot: 0 },
            PassCommand::SetBindGroup { slot: 1, group: BindGroup::Sprite },
        ]
    );
}

#[test]
fn slots_are_camera_sprite_uniforms() {
    assert_eq!((CAMERA_SLOT, SPRITE_SLOT, MAIN_UNIFORM_SLOT, QUAD_VERTICES), (0, 1, 2, 6));
}

#[test]
fn every_slot_of_the_layout_is_bound_once_with_its_group() {
    let mut bound = Vec::new();
    for command in main_pass().commands {
        if let PassCommand::SetBindGroup { slot, group } = command {
            bound.push((slot, group));
        }
    }
    assert_eq!(
        bound,
        vec![
            (CAMERA_SLOT, BindGroup::Camera),
            (SPRITE_SLOT, BindGroup::Sprite),
            (MAIN_UNIFORM_SLOT, BindGroup::MainUniforms),
        ]
    );
}
