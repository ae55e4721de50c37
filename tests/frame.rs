use pixelated_3d::composite::{
    composite_layout, plan_composite, BindingKind, CompositeAction, CompositeError, DrawCall,
    PipelineStatus,
};
use pixelated_3d::settings::{update_settings, PostProcessSettings, ShowSettings};

#[test]
fn three_triggers_restore_mode() {
    let mut show = ShowSettings::new();
    let mut records = vec![PostProcessSettings::default()];
    update_settings(&mut show, &mut records, true);
    assert_eq!(show.value, 1);
    assert_eq!(records[0], PostProcessSettings { show_depth: 1, show_normals: 0 });
    update_settings(&mut show, &mut records, true);
    assert_eq!(show.value, 2);
    assert_eq!(records[0], PostProcessSettings { show_depth: 0, show_normals: 1 });
    update_settings(&mut show, &mut records, true);
    assert_eq!(show.value, 0);
    assert_eq!(records[0], PostProcessSettings { show_depth: 0, show_normals: 0 });
}

#[test]
fn mode_flags() {
    assert_eq!(PostProcessSettings::for_mode(0), PostProcessSettings { show_depth: 0, show_normals: 0 });
    assert_eq!(PostProcessSettings::for_mode(1), PostProcessSettings { show_depth: 1, show_normals: 0 });
    assert_eq!(PostProcessSettings::for_mode(2), PostProcessSettings { show_depth: 0, show_normals: 1 });
}

#[test]
fn no_trigger_changes_nothing() {
    let mut show = ShowSettings { value: 2 };
    let mut records = vec![PostProcessSettings { show_depth: 0, show_normals: 1 }];
    update_settings(&mut show, &mut records, false);
    assert_eq!(show.value, 2);
    assert_eq!(records, vec![PostProcessSettings { show_depth: 0, show_normals: 1 }]);
}

#[test]
fn trigger_advances_once_for_all_records() {
    let mut show = ShowSettings::new();
    let mut records = vec![PostProcessSettings::default(); 3];
    update_settings(&mut show, &mut records, true);
    assert_eq!(show.value, 1);
    assert_eq!(records, vec![PostProcessSettings { show_depth: 1, show_normals: 0 }; 3]);
    let mut none: Vec<PostProcessSettings> = Vec::new();
    update_settings(&mut show, &mut none, true);
    assert_eq!(show.value, 2);
    assert!(none.is_empty());
}

#[test]
fn no_draw_without_uniform_binding() {
    assert_eq!(plan_composite(PipelineStatus::Ready, false, true), Ok(CompositeAction::Skip));
    assert_eq!(plan_composite(PipelineStatus::Ready, false, false), Ok(CompositeAction::Skip));
}

#[test]
fn no_draw_until_pipeline_ready() {
    assert_eq!(plan_composite(PipelineStatus::Pending, true, true), Ok(CompositeAction::Skip));
    assert_eq!(plan_composite(PipelineStatus::Failed, true, true), Ok(CompositeAction::Skip));
}

#[test]
fn missing_normal_prepass_is_an_error() {
    assert_eq!(
        plan_composite(PipelineStatus::Ready, true, false),
        Err(CompositeError::MissingNormalPrepass)
    );
}

#[test]
fn ready_stage_draws_one_fullscreen_triangle() {
    assert_eq!(
        plan_composite(PipelineStatus::Ready, true, true),
        Ok(CompositeAction::Draw(DrawCall { vertex_count: 3, instance_count: 1 }))
    );
}

#[test]
fn layout_has_six_slots_in_order() {
    assert_eq!(
        composite_layout(),
        vec![
            BindingKind::ColorTexture,
            BindingKind::ColorTexture,
            BindingKind::Sampler,
            BindingKind::SettingsUniform,
            BindingKind::DepthTexture,
            BindingKind::NormalTexture,
        ]
    );
}
