//! Debug overlays and their switches.
use cc_render::json::Num;
use cc_render::overlay::{
    classify, is_left_on, is_switched_on, read_setting, Category, JointDebugConfig,
    PhysicsDebugConfig,
};

#[test]
fn classify_priority() {
    assert!(matches!(classify(true, true, true, true), Category::Body));
    assert!(matches!(
        classify(false, true, true, true),
        Category::Jiggle
    ));
    assert!(matches!(classify(false, true, false, true), Category::Prop));
    assert!(matches!(
        classify(false, false, false, true),
        Category::Static
    ));
    assert!(matches!(
        classify(false, false, false, false),
        Category::Other
    ));
}

#[test]
fn category_colors_distinct() {
    let colors = [
        Category::Body.color(),
        Category::Prop.color(),
        Category::Jiggle.color(),
        Category::Static.color(),
        Category::Other.color(),
    ];
    // Sanity check: no two categories share a color, otherwise the
    // wireframe overlay would conflate categories at a glance.
    for i in 0..colors.len() {
        for j in (i + 1)..colors.len() {
            assert_ne!(
                (colors[i].red, colors[i].green, colors[i].blue),
                (colors[j].red, colors[j].green, colors[j].blue),
                "categories {} and {} have identical color",
                i,
                j,
            );
        }
    }
}

#[test]
fn debug_disabled_by_default_when_env_unset() {
    let cfg = PhysicsDebugConfig::from_env(None);
    assert!(!cfg.enabled);
    assert!(PhysicsDebugConfig::from_env(Some("1")).enabled);
    assert!(!PhysicsDebugConfig::from_env(Some("true")).enabled);
}

#[test]
fn switches_listen_to_one_value_only() {
    assert!(is_switched_on(Some("1")));
    assert!(!is_switched_on(Some("11")));
    assert!(!is_switched_on(Some("")));
    assert!(!is_switched_on(None));
    assert!(is_left_on(None));
    assert!(is_left_on(Some("1")));
    assert!(is_left_on(Some("00")));
    assert!(!is_left_on(Some("0")));
}

#[test]
fn unreadable_settings_fall_back() {
    let parse = |s: &str| s.parse::<f32>().ok();
    assert_eq!(read_setting(Some("2.5"), 1.0, &parse), 2.5);
    assert_eq!(read_setting(Some("wide"), 1.0, &parse), 1.0);
    assert_eq!(read_setting(None, 1.0, &parse), 1.0);
}

#[test]
fn joint_settings_are_read_one_by_one() {
    let usual = JointDebugConfig {
        enabled: false,
        axis_len: 0.06f32,
        marker_radius: 0.012,
        label_font_size: 11.0,
    };
    let parse = |s: &str| s.parse::<f32>().ok();
    let off = JointDebugConfig::from_env(None, None, None, None, usual, &parse);
    assert_eq!(off, usual);
    let on = JointDebugConfig::from_env(Some("1"), Some("0.5"), Some("?"), Some("9"), usual, &parse);
    assert!(on.enabled);
    assert_eq!(on.axis_len, 0.5);
    assert_eq!(on.marker_radius, 0.012);
    assert_eq!(on.label_font_size, 9.0);
    let d: JointDebugConfig<Num> = JointDebugConfig::default();
    assert!(!d.enabled);
    assert_eq!(d.axis_len, Num::Thousandths(60));
}
