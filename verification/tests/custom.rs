use lianli::custom::{
    parse_value_format, preview_mock_value, stub_sensor_sources, video_frame_index,
    widget_font_ref, widget_sensor_source, ElapsedMs, ValueFormat,
};
use lianli::float_bits::F32Bits;
use lianli::media::SensorSourceConfig;
use lianli::sensors::TempSource;
use lianli::template::{
    FontRef, ImageFit, LcdTemplate, TemplateBackground, TemplateOrientation, TextAlign, Widget,
    WidgetKind,
};

fn bits(v: f32) -> F32Bits {
    F32Bits(v.to_bits())
}

fn widget(id: &str, kind: WidgetKind) -> Widget {
    Widget {
        id: id.to_string(),
        kind,
        x: bits(0.0),
        y: bits(0.0),
        width: bits(10.0),
        height: bits(10.0),
        rotation: bits(0.0),
        visible: true,
        update_interval_ms: None,
        fps: None,
    }
}

fn cpu_source() -> SensorSourceConfig {
    SensorSourceConfig::Sensor { source: TempSource::NvidiaGpu { gpu_index: 0 } }
}

#[test]
fn value_formats() {
    assert_eq!(parse_value_format("{:.1}"), ValueFormat::Decimals(1));
    assert_eq!(parse_value_format("{:.0}"), ValueFormat::Decimals(0));
    assert_eq!(parse_value_format("{:.12}"), ValueFormat::Decimals(12));
    assert_eq!(parse_value_format("{}"), ValueFormat::Whole);
    assert_eq!(
        parse_value_format("{} °C"),
        ValueFormat::Around { prefix: String::new(), suffix: " °C".into() }
    );
    assert_eq!(
        parse_value_format("T={}!{}"),
        ValueFormat::Around { prefix: "T=".into(), suffix: "!{}".into() }
    );
    assert_eq!(parse_value_format("{:.x}"), ValueFormat::Whole);
    assert_eq!(parse_value_format("{:.}"), ValueFormat::Whole);
    assert_eq!(parse_value_format("plain"), ValueFormat::Whole);
    assert_eq!(parse_value_format(""), ValueFormat::Whole);
}

#[test]
fn video_frames_loop() {
    assert_eq!(video_frame_index(ElapsedMs(0), 40, 5), 0);
    assert_eq!(video_frame_index(ElapsedMs(39), 40, 5), 0);
    assert_eq!(video_frame_index(ElapsedMs(40), 40, 5), 1);
    assert_eq!(video_frame_index(ElapsedMs(200), 40, 5), 0);
    assert_eq!(video_frame_index(ElapsedMs(7), 0, 3), 1);
    assert_eq!(video_frame_index(ElapsedMs::from(123), 1, 1), 0);
}

#[test]
fn elapsed_from_u64() {
    assert_eq!(ElapsedMs::from(42u64), ElapsedMs(42));
}

#[test]
fn sensor_and_font_of_widgets() {
    let vt = WidgetKind::ValueText {
        source: cpu_source(),
        format: "{:.0}".into(),
        unit: "°C".into(),
        font: FontRef::File { path: "/f.ttf".into() },
        font_size: bits(12.0),
        color: [1, 2, 3],
        align: TextAlign::Left,
    };
    assert_eq!(widget_sensor_source(&vt), Some(&cpu_source()));
    assert_eq!(widget_font_ref(&vt), Some(&FontRef::File { path: "/f.ttf".into() }));
    let img = WidgetKind::Image { path: "/i.png".into(), opacity: bits(1.0), fit: ImageFit::Cover };
    assert_eq!(widget_sensor_source(&img), None);
    assert_eq!(widget_font_ref(&img), None);
}

#[test]
fn preview_stubs_every_sensor() {
    let mut t = LcdTemplate {
        id: "t".into(),
        name: "T".into(),
        base_width: 100,
        base_height: 100,
        background: TemplateBackground::default(),
        widgets: vec![
            widget(
                "bar",
                WidgetKind::VerticalBar {
                    source: cpu_source(),
                    value_min: bits(0.0),
                    value_max: bits(100.0),
                    background_color: [0, 0, 0],
                    corner_radius: bits(0.0),
                    ranges: vec![],
                },
            ),
            widget(
                "label",
                WidgetKind::Label {
                    text: "hi".into(),
                    font: FontRef::default(),
                    font_size: bits(10.0),
                    color: [0, 0, 0],
                    align: TextAlign::Right,
                },
            ),
        ],
        orientation: TemplateOrientation::Portrait,
    };
    let label_before = format!("{:?}", t.widgets[1]);
    stub_sensor_sources(&mut t);
    assert_eq!(f32::from_bits(preview_mock_value().0), 65.0);
    assert_eq!(
        widget_sensor_source(&t.widgets[0].kind),
        Some(&SensorSourceConfig::Constant { value: bits(65.0) })
    );
    assert_eq!(format!("{:?}", t.widgets[1]), label_before);
    assert_eq!(t.widgets.len(), 2);
    assert_eq!(t.id, "t");
}

fn solid(w: u32, h: u32, px: [u8; 4]) -> lianli::custom::Raster {
    let mut pixels = Vec::new();
    for _ in 0..(w * h) {
        pixels.extend_from_slice(&px);
    }
    lianli::custom::Raster { width: w, height: h, pixels }
}

#[test]
fn fit_stretch_resizes_to_target() {
    let src = solid(2, 2, [10, 20, 30, 255]);
    let r = lianli::custom::fit_image(&src, 4, 3, ImageFit::Stretch);
    assert_eq!((r.width, r.height, r.pixels.len()), (4, 3, 48));
    assert!(r.pixels.chunks(4).all(|p| p == [10, 20, 30, 255]));
}

#[test]
fn fit_zero_target_counts_as_one() {
    let src = solid(2, 2, [1, 2, 3, 255]);
    let r = lianli::custom::fit_image(&src, 0, 0, ImageFit::Stretch);
    assert_eq!((r.width, r.height), (1, 1));
}

#[test]
fn fit_contain_centres_on_transparent_canvas() {
    let src = solid(8, 4, [200, 0, 0, 255]);
    let r = lianli::custom::fit_image(&src, 4, 4, ImageFit::Contain);
    assert_eq!((r.width, r.height), (4, 4));
    let px = |x: u32, y: u32| {
        let i = ((y * 4 + x) * 4) as usize;
        [r.pixels[i], r.pixels[i + 1], r.pixels[i + 2], r.pixels[i + 3]]
    };
    assert_eq!(px(0, 0), [0, 0, 0, 0]);
    assert_eq!(px(0, 3), [0, 0, 0, 0]);
    assert_eq!(px(0, 1), [200, 0, 0, 255]);
    assert_eq!(px(3, 2), [200, 0, 0, 255]);
}

#[test]
fn fit_cover_fills_target() {
    let src = solid(4, 2, [0, 9, 0, 255]);
    let r = lianli::custom::fit_image(&src, 2, 2, ImageFit::Cover);
    assert_eq!((r.width, r.height), (2, 2));
    assert!(r.pixels.chunks(4).all(|p| p == [0, 9, 0, 255]));
}

#[test]
fn transparent_raster_is_all_zero() {
    let r = lianli::custom::transparent_raster(3, 2);
    assert_eq!((r.width, r.height), (3, 2));
    assert_eq!(r.pixels, vec![0u8; 24]);
}

#[test]
fn font_data_that_does_not_parse_is_reported() {
    let r = lianli::custom::font_from_data("/fonts/x.ttf", vec![1, 2, 3, 4]);
    assert_eq!(r.err(), Some("font '/fonts/x.ttf' parse failed".to_string()));
    let r = lianli::custom::font_or_error("a.ttf", None);
    assert_eq!(r.err(), Some("font 'a.ttf' parse failed".to_string()));
}

#[test]
fn fit_cover_always_has_the_widget_size() {
    let cases = [((3, 7), (5, 2)), ((7, 3), (2, 5)), ((1, 1), (0, 9)), ((10, 1), (3, 3)), ((5, 5), (5, 5))];
    for ((sw, sh), (tw, th)) in cases {
        let src = solid(sw, sh, [4, 5, 6, 255]);
        let r = lianli::custom::fit_image(&src, tw, th, ImageFit::Cover);
        assert_eq!((r.width, r.height), (tw.max(1), th.max(1)));
        assert_eq!(r.pixels.len(), (tw.max(1) * th.max(1) * 4) as usize);
    }
}

#[test]
fn fit_contain_always_has_the_widget_size() {
    let cases = [((3, 7), (5, 2)), ((7, 3), (2, 5)), ((1, 1), (0, 9))];
    for ((sw, sh), (tw, th)) in cases {
        let src = solid(sw, sh, [4, 5, 6, 255]);
        let r = lianli::custom::fit_image(&src, tw, th, ImageFit::Contain);
        assert_eq!((r.width, r.height), (tw.max(1), th.max(1)));
    }
}

#[test]
fn text_is_placed_by_alignment() {
    assert_eq!(lianli::custom::text_origin(TextAlign::Left, 100, 40, 30, 10, 2, 3), Some((-2, 12)));
    assert_eq!(lianli::custom::text_origin(TextAlign::Center, 100, 40, 30, 10, 2, 3), Some((33, 12)));
    assert_eq!(lianli::custom::text_origin(TextAlign::Right, 100, 40, 30, 10, 2, 3), Some((68, 12)));
    // Text wider than the widget: the centre offset rounds toward zero.
    assert_eq!(lianli::custom::text_origin(TextAlign::Center, 10, 5, 15, 8, 0, 0), Some((-2, -1)));
    assert_eq!(lianli::custom::text_origin(TextAlign::Center, 10, 5, 0, 8, 0, 0), None);
    assert_eq!(lianli::custom::text_origin(TextAlign::Left, 10, 5, 4, -1, 0, 0), None);
}
