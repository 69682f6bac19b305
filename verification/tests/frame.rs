use material_triangle::frame::{ClearColor, FramePlan, PassCommand, F64_ONE, F64_ZERO};

#[test]
fn clear_colour_is_opaque_green() {
    let colour = ClearColor::green();
    assert_eq!(f64::from_bits(colour.r), 0.0);
    assert_eq!(f64::from_bits(colour.g), 1.0);
    assert_eq!(f64::from_bits(colour.b), 0.0);
    assert_eq!(f64::from_bits(colour.a), 1.0);
}

#[test]
fn bit_pattern_constants_are_zero_and_one() {
    assert_eq!(F64_ZERO, 0.0f64.to_bits());
    assert_eq!(F64_ONE, 1.0f64.to_bits());
}

#[test]
fn triangle_pass_draws_three_vertices_once() {
    let plan = FramePlan::triangle();
    assert_eq!(plan.clear, ClearColor::green());
    assert!(plan.store);
    assert_eq!(plan.bind_group, 0);
    assert_eq!(plan.first_vertex, 0);
    assert_eq!(plan.vertex_count, 3);
    assert_eq!(plan.first_instance, 0);
    assert_eq!(plan.instance_count, 1);
}

#[test]
fn commands_bind_pipeline_and_materials_before_the_single_draw() {
    let commands = FramePlan::triangle().commands();
    assert_eq!(
        commands,
        vec![
            PassCommand::SetPipeline,
            PassCommand::SetBindGroup { index: 0 },
            PassCommand::Draw {
                first_vertex: 0,
                vertex_count: 3,
                first_instance: 0,
                instance_count: 1,
            },
        ]
    );
    let draws = commands.iter().filter(|c| matches!(c, PassCommand::Draw { .. })).count();
    assert_eq!(draws, 1);
}

#[test]
fn commands_follow_the_fields_of_the_plan() {
    let plan = FramePlan {
        clear: ClearColor { r: 1, g: 2, b: 3, a: 4 },
        store: false,
        bind_group: 2,
        first_vertex: 7,
        vertex_count: 6,
        first_instance: 9,
        instance_count: 4,
    };
    assert_eq!(
        plan.commands(),
        vec![
            PassCommand::SetPipeline,
            PassCommand::SetBindGroup { index: 2 },
            PassCommand::Draw {
                first_vertex: 7,
                vertex_count: 6,
                first_instance: 9,
                instance_count: 4,
            },
        ]
    );
}
