use bevy_panini::{copy_out_shader_settings, PaniniProjection, SettingsCommand};

#[derive(Debug, Clone, PartialEq)]
struct Shader {
    panini: f32,
    fov_x_radians: f32,
    compression: f32,
}

#[derive(Debug, Clone, PartialEq)]
struct Perspective {
    fov: f32,
    aspect_ratio: f32,
}

fn shader() -> Shader {
    Shader { panini: 0.0, fov_x_radians: 0.785, compression: 0.0 }
}

fn perspective() -> Perspective {
    Perspective { fov: 0.785, aspect_ratio: 1.0 }
}

#[test]
fn new_projection_starts_enabled_with_its_parts() {
    let p = PaniniProjection::new(shader(), perspective());
    assert!(p.is_enabled());
    assert_eq!(*p.settings(), shader());
    assert_eq!(*p.perspective(), perspective());
}

#[test]
fn with_enabled_is_read_back() {
    let p = PaniniProjection::new(shader(), perspective()).with_enabled(false);
    assert!(!p.is_enabled());
    let p = p.with_enabled(true);
    assert!(p.is_enabled());
}

#[test]
fn update_enabled_keeps_settings_and_perspective() {
    let mut p = PaniniProjection::new(shader(), perspective());
    p.update_enabled(false);
    assert!(!p.is_enabled());
    assert_eq!(*p.settings(), shader());
    assert_eq!(*p.perspective(), perspective());
}

#[test]
fn last_switch_wins() {
    let mut p = PaniniProjection::new(1u32, 2u64);
    p.update_enabled(false);
    p.update_enabled(true);
    p.update_enabled(false);
    assert!(!p.is_enabled());
}

#[test]
fn parts_mut_edits_both_parts_and_keeps_switch() {
    let mut p = PaniniProjection::new(shader(), perspective()).with_enabled(false);
    {
        let (s, q) = p.parts_mut();
        s.panini = 0.5;
        s.compression = 0.25;
        q.fov = 0.8;
    }
    assert!(!p.is_enabled());
    assert_eq!(p.settings().panini, 0.5);
    assert_eq!(p.settings().compression, 0.25);
    assert_eq!(p.settings().fov_x_radians, 0.785);
    assert_eq!(p.perspective().fov, 0.8);
    assert_eq!(p.perspective().aspect_ratio, 1.0);
}

#[test]
fn enabled_projection_inserts_its_own_settings() {
    let p = PaniniProjection::new(shader(), perspective());
    match copy_out_shader_settings(Some(&p)) {
        Some(SettingsCommand::Insert(s)) => assert_eq!(*s, shader()),
        other => panic!("expected the settings to be inserted, got {:?}", other),
    }
}

#[test]
fn disabled_projection_removes_settings() {
    let p = PaniniProjection::new(shader(), perspective()).with_enabled(false);
    assert!(matches!(copy_out_shader_settings(Some(&p)), Some(SettingsCommand::Remove)));
}

#[test]
fn camera_without_panini_projection_is_left_alone() {
    let none: Option<&PaniniProjection<Shader, Perspective>> = None;
    assert!(copy_out_shader_settings(none).is_none());
}

#[test]
fn switching_off_and_on_restores_the_inserted_settings() {
    let mut p = PaniniProjection::new(7u32, 9u64);
    {
        let (s, _) = p.parts_mut();
        *s = 11;
    }
    p.update_enabled(false);
    assert!(matches!(copy_out_shader_settings(Some(&p)), Some(SettingsCommand::Remove)));
    p.update_enabled(true);
    assert!(matches!(copy_out_shader_settings(Some(&p)), Some(SettingsCommand::Insert(&11))));
    assert_eq!(*p.perspective(), 9);
}
