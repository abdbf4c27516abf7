use lianli::float_bits::F32Bits;
use lianli::media::{SensorRange, SensorSourceConfig};
use lianli::template::{
    default_inner_radius_pct, default_opacity, default_tick_count, default_true,
    default_value_format, BarOrientation, BuiltinFont, FontRef, ImageFit, LcdTemplate,
    TemplateBackground, TemplateOrientation, TextAlign, Widget, WidgetKind,
};
use lianli::template_defaults::{
    builtin_template, builtin_templates, is_builtin_id, BUILTIN_COOLER_ID, BUILTIN_DOUBLEGAUGE_ID,
};
use lianli::template_store::{
    all_templates, resolve_template, template_file_for_save, templates_dir, templates_from_file_read,
    templates_path_for, TemplateFile, TemplateFileRead, TEMPLATES_FILE_NAME,
};

fn bits(v: f32) -> F32Bits {
    F32Bits(v.to_bits())
}

fn label_widget(id: &str, w: f32, h: f32, interval: Option<u64>) -> Widget {
    Widget {
        id: id.to_string(),
        kind: WidgetKind::Label {
            text: "CPU".to_string(),
            font: FontRef::default(),
            font_size: bits(24.0),
            color: [255, 255, 255],
            align: TextAlign::Center,
        },
        x: bits(100.0),
        y: bits(100.0),
        width: bits(w),
        height: bits(h),
        rotation: bits(0.0),
        visible: true,
        update_interval_ms: interval,
        fps: None,
    }
}

fn user_template(id: &str, name: &str) -> LcdTemplate {
    LcdTemplate {
        id: id.to_string(),
        name: name.to_string(),
        base_width: 480,
        base_height: 480,
        background: TemplateBackground::Color { rgb: [10, 20, 30] },
        widgets: vec![label_widget("w0", 50.0, 20.0, None)],
        orientation: TemplateOrientation::Landscape,
    }
}

#[test]
fn builtin_ids_are_reserved() {
    assert!(is_builtin_id("cooler-default"));
    assert!(is_builtin_id("doublegauge-default"));
    assert!(!is_builtin_id("cooler"));
    assert!(!is_builtin_id(""));
    assert!(!is_builtin_id("Cooler-default"));
    assert_eq!(BUILTIN_COOLER_ID, "cooler-default");
    assert_eq!(BUILTIN_DOUBLEGAUGE_ID, "doublegauge-default");
}

#[test]
fn builtin_templates_are_cooler_then_doublegauge() {
    let all = builtin_templates();
    assert_eq!(all.len(), 2);
    assert_eq!(all[0].id, "cooler-default");
    assert_eq!(all[0].name, "Cooler (default)");
    assert_eq!((all[0].base_width, all[0].base_height), (480, 480));
    assert_eq!(all[1].id, "doublegauge-default");
    assert_eq!(all[1].name, "Doublegauge (default)");
    assert_eq!((all[1].base_width, all[1].base_height), (400, 400));
    for t in &all {
        assert!(t.widgets.is_empty());
        assert_eq!(t.background, TemplateBackground::Color { rgb: [0, 0, 0] });
        assert_eq!(t.orientation, TemplateOrientation::Portrait);
    }
}

#[test]
fn builtin_template_lookup() {
    assert_eq!(builtin_template("cooler-default").unwrap().name, "Cooler (default)");
    assert_eq!(builtin_template("doublegauge-default").unwrap().base_width, 400);
    assert!(builtin_template("my-template").is_none());
}

#[test]
fn builtin_templates_pass_validation() {
    for t in builtin_templates() {
        assert_eq!(t.validate(), Ok(()));
    }
}

#[test]
fn validate_rejects_blank_id() {
    let t = user_template(" \t ", "Mine");
    assert_eq!(t.validate(), Err("template id must not be empty".to_string()));
    let t = user_template("", "Mine");
    assert_eq!(t.validate(), Err("template id must not be empty".to_string()));
}

#[test]
fn validate_rejects_blank_name() {
    let t = user_template("mine", "\u{3000}\n");
    assert_eq!(t.validate(), Err("template 'mine' name must not be empty".to_string()));
}

#[test]
fn validate_rejects_zero_dimensions() {
    let mut t = user_template("mine", "Mine");
    t.base_height = 0;
    assert_eq!(
        t.validate(),
        Err("template 'mine' base dimensions must be positive".to_string())
    );
    let mut t = user_template("mine", "Mine");
    t.base_width = 0;
    assert!(t.validate().is_err());
}

#[test]
fn validate_rejects_non_positive_widget_size() {
    let mut t = user_template("mine", "Mine");
    t.widgets.push(label_widget("ok", 10.0, 10.0, Some(100)));
    t.widgets.push(label_widget("flat", 10.0, 0.0, None));
    assert_eq!(
        t.validate(),
        Err("template 'mine' widget[2] 'flat' has non-positive size".to_string())
    );
    let mut t = user_template("mine", "Mine");
    t.widgets[0] = label_widget("neg", -3.5, 10.0, None);
    assert_eq!(
        t.validate(),
        Err("template 'mine' widget[0] 'neg' has non-positive size".to_string())
    );
    t.widgets[0] = label_widget("negzero", -0.0, 10.0, None);
    assert!(t.validate().is_err());
    t.widgets[0] = label_widget("neginf", f32::NEG_INFINITY, 10.0, None);
    assert!(t.validate().is_err());
}

#[test]
fn validate_lets_nan_size_through() {
    let mut t = user_template("mine", "Mine");
    t.widgets[0] = label_widget("nan", f32::NAN, 10.0, None);
    assert_eq!(t.validate(), Ok(()));
}

#[test]
fn validate_checks_update_interval_bounds() {
    let mut t = user_template("mine", "Mine");
    for ms in [100u64, 1000, 10_000] {
        t.widgets[0] = label_widget("w", 1.0, 1.0, Some(ms));
        assert_eq!(t.validate(), Ok(()));
    }
    for ms in [0u64, 99, 10_001] {
        t.widgets[0] = label_widget("w", 1.0, 1.0, Some(ms));
        assert_eq!(
            t.validate(),
            Err("template 'mine' widget[0] update_interval_ms must be in [100, 10000]".to_string())
        );
    }
}

#[test]
fn validate_reports_size_before_interval_and_first_widget_first() {
    let mut t = user_template("mine", "Mine");
    t.widgets = vec![
        label_widget("a", 1.0, 1.0, Some(5)),
        label_widget("b", 0.0, 1.0, Some(5)),
    ];
    assert_eq!(
        t.validate(),
        Err("template 'mine' widget[0] update_interval_ms must be in [100, 10000]".to_string())
    );
    t.widgets.remove(0);
    assert_eq!(
        t.validate(),
        Err("template 'mine' widget[0] 'b' has non-positive size".to_string())
    );
}

#[test]
fn validate_counts_widget_indices_in_decimal() {
    let mut t = user_template("mine", "Mine");
    t.widgets = (0..12).map(|i| label_widget(&format!("w{i}"), 1.0, 1.0, None)).collect();
    t.widgets[11] = label_widget("last", 1.0, -1.0, None);
    assert_eq!(
        t.validate(),
        Err("template 'mine' widget[11] 'last' has non-positive size".to_string())
    );
}

#[test]
fn serde_defaults() {
    assert!(default_true());
    assert_eq!(default_value_format(), "{:.0}");
    assert_eq!(default_tick_count(), 10);
    assert_eq!(f32::from_bits(default_opacity().0), 1.0);
    assert_eq!(f32::from_bits(default_inner_radius_pct().0), 0.78);
}

#[test]
fn enum_defaults() {
    assert_eq!(TemplateOrientation::default(), TemplateOrientation::Portrait);
    assert_eq!(TemplateBackground::default(), TemplateBackground::Color { rgb: [0, 0, 0] });
    assert_eq!(TextAlign::default(), TextAlign::Center);
    assert_eq!(BarOrientation::default(), BarOrientation::Horizontal);
    assert_eq!(ImageFit::default(), ImageFit::Stretch);
    assert_eq!(FontRef::default(), FontRef::Builtin { font: BuiltinFont::VictorMono });
}

#[test]
fn clone_keeps_every_field() {
    let mut t = user_template("mine", "Mine");
    t.widgets.push(Widget {
        kind: WidgetKind::RadialGauge {
            source: SensorSourceConfig::Constant { value: bits(3.0) },
            value_min: bits(0.0),
            value_max: bits(100.0),
            start_angle: bits(135.0),
            sweep_angle: bits(270.0),
            inner_radius_pct: default_inner_radius_pct(),
            background_color: [1, 2, 3],
            ranges: vec![SensorRange { max: Some(bits(50.0)), color: [0, 255, 0], alpha: 255 }],
        },
        ..label_widget("g", 10.0, 10.0, Some(500))
    });
    let c = t.clone();
    assert_eq!(format!("{c:?}"), format!("{t:?}"));
}

#[test]
fn templates_path_is_next_to_config() {
    assert_eq!(templates_path_for("/etc/lianli/config.json"), "/etc/lianli/lcd_templates.json");
    assert_eq!(templates_path_for("config.json"), "lcd_templates.json");
    assert_eq!(templates_path_for(""), "./lcd_templates.json");
    assert_eq!(templates_path_for("/"), "./lcd_templates.json");
    assert_eq!(TEMPLATES_FILE_NAME, "lcd_templates.json");
}

#[test]
fn templates_dir_defaults_to_current_directory() {
    assert_eq!(templates_dir(None), ".");
    assert_eq!(templates_dir(Some("/home/u/.config".to_string())), "/home/u/.config");
}

#[test]
fn load_drops_templates_with_reserved_ids() {
    let file = TemplateFile {
        templates: vec![
            user_template("a", "A"),
            user_template("cooler-default", "Shadow"),
            user_template("b", "B"),
            user_template("doublegauge-default", "Shadow 2"),
        ],
    };
    let loaded = templates_from_file_read(TemplateFileRead::Parsed(file));
    let ids: Vec<&str> = loaded.iter().map(|t| t.id.as_str()).collect();
    assert_eq!(ids, vec!["a", "b"]);
}

#[test]
fn load_failures_give_no_user_templates() {
    assert!(templates_from_file_read(TemplateFileRead::Missing).is_empty());
    assert!(templates_from_file_read(TemplateFileRead::Unreadable).is_empty());
    assert!(templates_from_file_read(TemplateFileRead::Malformed).is_empty());
}

#[test]
fn save_writes_only_user_templates() {
    let ts = vec![
        builtin_template("cooler-default").unwrap(),
        user_template("mine", "Mine"),
        builtin_template("doublegauge-default").unwrap(),
        user_template("other", "Other"),
    ];
    let file = template_file_for_save(&ts);
    let ids: Vec<&str> = file.templates.iter().map(|t| t.id.as_str()).collect();
    assert_eq!(ids, vec!["mine", "other"]);
    assert_eq!(format!("{:?}", file.templates[0]), format!("{:?}", ts[1]));
}

#[test]
fn load_after_save_gives_the_saved_user_templates() {
    let ts = vec![
        user_template("x", "X"),
        builtin_template("cooler-default").unwrap(),
        user_template("y", "Y"),
    ];
    let file = template_file_for_save(&ts);
    let expected = format!("{:?}", file.templates);
    let loaded = templates_from_file_read(TemplateFileRead::Parsed(file));
    assert_eq!(format!("{loaded:?}"), expected);
}

#[test]
fn all_templates_lists_builtins_first() {
    let user = vec![user_template("mine", "Mine"), user_template("cooler-default", "Shadow")];
    let all = all_templates(&user);
    let ids: Vec<&str> = all.iter().map(|t| t.id.as_str()).collect();
    assert_eq!(ids, vec!["cooler-default", "doublegauge-default", "mine", "cooler-default"]);
    assert_eq!(all[3].name, "Shadow");
}

#[test]
fn resolve_prefers_builtins() {
    let user = vec![user_template("cooler-default", "Shadow")];
    let t = resolve_template("cooler-default", &user).unwrap();
    assert_eq!(t.name, "Cooler (default)");
}

#[test]
fn resolve_finds_first_user_template() {
    let user = vec![
        user_template("a", "First A"),
        user_template("b", "B"),
        user_template("a", "Second A"),
    ];
    assert_eq!(resolve_template("a", &user).unwrap().name, "First A");
    assert_eq!(resolve_template("b", &user).unwrap().name, "B");
    assert!(resolve_template("c", &user).is_none());
    assert!(resolve_template("c", &[]).is_none());
}

#[test]
fn every_listed_template_resolves_by_its_id() {
    let user = vec![user_template("a", "A"), user_template("b", "B"), user_template("a", "A2")];
    for t in all_templates(&user) {
        let r = resolve_template(&t.id, &user).unwrap();
        assert_eq!(r.id, t.id);
    }
}
