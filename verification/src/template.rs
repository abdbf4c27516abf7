//! Data model of the custom LCD template system.
//!
//! An [`LcdTemplate`] is a reusable layout of widgets (gauges, labels, bars,
//! images, videos, CPU core strips) that a custom LCD media type renders.
//! Every single-precision number of a template is held as its bit pattern
//! ([`F32Bits`]) and every file path as its text.
use crate::float_bits::F32Bits;
use crate::media::{SensorRange, SensorSourceConfig};
use crate::text::{decimal_string, decimal_text, is_blank, str_is_blank};
use vstd::prelude::*;

verus! {

/// A reusable LCD layout template.
#[derive(Debug)]
pub struct LcdTemplate {
    /// Stable unique id. Built-ins use reserved ids (e.g. `cooler-default`);
    /// user templates use a generated id.
    pub id: String,
    /// Display name, user-editable.
    pub name: String,
    /// Authoring canvas width in pixels.
    pub base_width: u32,
    /// Authoring canvas height in pixels.
    pub base_height: u32,
    /// Background fill or image.
    pub background: TemplateBackground,
    /// Widgets drawn in vector order (first = bottom).
    pub widgets: Vec<Widget>,
    /// Physical mount orientation the designer laid out for.
    pub orientation: TemplateOrientation,
}

/// Design-time layout intent, distinct from the per-device physical
/// rotation applied after composition.
#[derive(Clone, Copy, Debug, PartialEq, Eq, Structural)]
pub enum TemplateOrientation {
    /// Widgets authored against `base_width × base_height` as-is.
    Portrait,
    /// Widgets authored against a 90° clockwise rotation of the base canvas.
    Landscape,
}

impl Default for TemplateOrientation {
    fn default() -> (r: Self)
        ensures
            r == TemplateOrientation::Portrait,
    {
        TemplateOrientation::Portrait
    }
}

/// Background of a template: a solid colour or an image file.
#[derive(Debug, PartialEq, Eq)]
pub enum TemplateBackground {
    Color { rgb: [u8; 3] },
    Image { path: String },
}

impl Default for TemplateBackground {
    fn default() -> (r: Self)
        ensures
            r == (TemplateBackground::Color { rgb: [0, 0, 0] }),
    {
        TemplateBackground::Color { rgb: [0, 0, 0] }
    }
}

impl Clone for TemplateBackground {
    fn clone(&self) -> (r: Self)
        ensures
            r == *self,
    {
        match self {
            TemplateBackground::Color { rgb } => TemplateBackground::Color { rgb: *rgb },
            TemplateBackground::Image { path } => TemplateBackground::Image { path: path.clone() },
        }
    }
}

/// A positioned, sized, optionally rotated widget inside a template.
///
/// `x` / `y` are the widget centre in template space (pixels against
/// `base_width × base_height`); `width` / `height` are the axis-aligned
/// bounding box before rotation.
#[derive(Debug)]
pub struct Widget {
    pub id: String,
    pub kind: WidgetKind,
    pub x: F32Bits,
    pub y: F32Bits,
    pub width: F32Bits,
    pub height: F32Bits,
    pub rotation: F32Bits,
    pub visible: bool,
    /// Sensor-bound widgets re-read at this interval; `None` = template
    /// default (1000 ms).
    pub update_interval_ms: Option<u64>,
    /// Video widget playback rate; `None` = template default.
    pub fps: Option<F32Bits>,
}

/// Two widgets hold the same values (their colour bands by content).
pub open spec fn same_widget(a: Widget, b: Widget) -> bool {
    &&& a.id == b.id
    &&& same_kind(a.kind, b.kind)
    &&& a.x == b.x
    &&& a.y == b.y
    &&& a.width == b.width
    &&& a.height == b.height
    &&& a.rotation == b.rotation
    &&& a.visible == b.visible
    &&& a.update_interval_ms == b.update_interval_ms
    &&& a.fps == b.fps
}

impl Clone for Widget {
    fn clone(&self) -> (r: Self)
        ensures
            same_widget(r, *self),
    {
        Widget {
            id: self.id.clone(),
            kind: self.kind.clone(),
            x: self.x,
            y: self.y,
            width: self.width,
            height: self.height,
            rotation: self.rotation,
            visible: self.visible,
            update_interval_ms: self.update_interval_ms,
            fps: self.fps,
        }
    }
}

/// Serde default of `Widget::visible` and `WidgetKind::Video::loop_playback`.
pub fn default_true() -> (r: bool)
    ensures
        r,
{
    true
}

/// What a widget is and how it is drawn.
#[derive(Debug)]
pub enum WidgetKind {
    Label {
        text: String,
        font: FontRef,
        font_size: F32Bits,
        color: [u8; 3],
        align: TextAlign,
    },
    ValueText {
        source: SensorSourceConfig,
        /// Printf-style format string applied to the sensor value, e.g. `"{:.1}"`.
        format: String,
        unit: String,
        font: FontRef,
        font_size: F32Bits,
        color: [u8; 3],
        align: TextAlign,
    },
    RadialGauge {
        source: SensorSourceConfig,
        value_min: F32Bits,
        value_max: F32Bits,
        start_angle: F32Bits,
        sweep_angle: F32Bits,
        /// Inner radius as a fraction of `min(width, height) / 2`.
        inner_radius_pct: F32Bits,
        background_color: [u8; 3],
        ranges: Vec<SensorRange>,
    },
    VerticalBar {
        source: SensorSourceConfig,
        value_min: F32Bits,
        value_max: F32Bits,
        background_color: [u8; 3],
        corner_radius: F32Bits,
        ranges: Vec<SensorRange>,
    },
    HorizontalBar {
        source: SensorSourceConfig,
        value_min: F32Bits,
        value_max: F32Bits,
        background_color: [u8; 3],
        corner_radius: F32Bits,
        ranges: Vec<SensorRange>,
    },
    Speedometer {
        source: SensorSourceConfig,
        value_min: F32Bits,
        value_max: F32Bits,
        start_angle: F32Bits,
        sweep_angle: F32Bits,
        needle_color: [u8; 3],
        tick_color: [u8; 3],
        tick_count: u32,
        background_color: [u8; 3],
    },
    CoreBars {
        orientation: BarOrientation,
        color_cold: [u8; 3],
        color_hot: [u8; 3],
        background_color: [u8; 3],
        show_labels: bool,
    },
    Image { path: String, opacity: F32Bits, fit: ImageFit },
    Video { path: String, loop_playback: bool, opacity: F32Bits, fit: ImageFit },
}

/// Clones a list of colour bands.
pub fn clone_ranges(ranges: &Vec<SensorRange>) -> (r: Vec<SensorRange>)
    ensures
        r@ == ranges@,
{
    let mut r: Vec<SensorRange> = Vec::new();
    let mut i: usize = 0;
    while i < ranges.len()
        invariant
            i <= ranges@.len(),
            r@ == ranges@.take(i as int),
        decreases ranges@.len() - i,
    {
        r.push(ranges[i]);
        i = i + 1;
        assert(r@ =~= ranges@.take(i as int));
    }
    assert(ranges@.take(i as int) =~= ranges@);
    r
}

/// Two widget kinds hold the same values (their colour bands by content).
pub open spec fn same_kind(a: WidgetKind, b: WidgetKind) -> bool {
    match (a, b) {
        (
            WidgetKind::RadialGauge {
                source,
                value_min,
                value_max,
                start_angle,
                sweep_angle,
                inner_radius_pct,
                background_color,
                ranges,
            },
            WidgetKind::RadialGauge {
                source: source2,
                value_min: value_min2,
                value_max: value_max2,
                start_angle: start_angle2,
                sweep_angle: sweep_angle2,
                inner_radius_pct: inner_radius_pct2,
                background_color: background_color2,
                ranges: ranges2,
            },
        ) => {
            &&& source == source2
            &&& value_min == value_min2
            &&& value_max == value_max2
            &&& start_angle == start_angle2
            &&& sweep_angle == sweep_angle2
            &&& inner_radius_pct == inner_radius_pct2
            &&& background_color == background_color2
            &&& ranges@ == ranges2@
        },
        (
            WidgetKind::VerticalBar {
                source,
                value_min,
                value_max,
                background_color,
                corner_radius,
                ranges,
            },
            WidgetKind::VerticalBar {
                source: source2,
                value_min: value_min2,
                value_max: value_max2,
                background_color: background_color2,
                corner_radius: corner_radius2,
                ranges: ranges2,
            },
        ) => {
            &&& source == source2
            &&& value_min == value_min2
            &&& value_max == value_max2
            &&& background_color == background_color2
            &&& corner_radius == corner_radius2
            &&& ranges@ == ranges2@
        },
        (
            WidgetKind::HorizontalBar {
                source,
                value_min,
                value_max,
                background_color,
                corner_radius,
                ranges,
            },
            WidgetKind::HorizontalBar {
                source: source2,
                value_min: value_min2,
                value_max: value_max2,
                background_color: background_color2,
                corner_radius: corner_radius2,
                ranges: ranges2,
            },
        ) => {
            &&& source == source2
            &&& value_min == value_min2
            &&& value_max == value_max2
            &&& background_color == background_color2
            &&& corner_radius == corner_radius2
            &&& ranges@ == ranges2@
        },
        (WidgetKind::RadialGauge { .. }, _) => false,
        (WidgetKind::VerticalBar { .. }, _) => false,
        (WidgetKind::HorizontalBar { .. }, _) => false,
        (x, y) => x == y,
    }
}

/// The colour bands of a widget kind that has them.
pub open spec fn kind_ranges(k: WidgetKind) -> Option<Seq<SensorRange>> {
    match k {
        WidgetKind::RadialGauge { ranges, .. } => Some(ranges@),
        WidgetKind::VerticalBar { ranges, .. } => Some(ranges@),
        WidgetKind::HorizontalBar { ranges, .. } => Some(ranges@),
        _ => None,
    }
}

/// The widget kind with its colour bands, if it has any, replaced by `rs`.
pub open spec fn with_ranges(k: WidgetKind, rs: Vec<SensorRange>) -> WidgetKind {
    match k {
        WidgetKind::RadialGauge {
            source,
            value_min,
            value_max,
            start_angle,
            sweep_angle,
            inner_radius_pct,
            background_color,
            ..
        } => WidgetKind::RadialGauge {
            source,
            value_min,
            value_max,
            start_angle,
            sweep_angle,
            inner_radius_pct,
            background_color,
            ranges: rs,
        },
        WidgetKind::VerticalBar {
            source,
            value_min,
            value_max,
            background_color,
            corner_radius,
            ..
        } => WidgetKind::VerticalBar {
            source,
            value_min,
            value_max,
            background_color,
            corner_radius,
            ranges: rs,
        },
        WidgetKind::HorizontalBar {
            source,
            value_min,
            value_max,
            background_color,
            corner_radius,
            ..
        } => WidgetKind::HorizontalBar {
            source,
            value_min,
            value_max,
            background_color,
            corner_radius,
            ranges: rs,
        },
        _ => k,
    }
}

/// Two widget kinds that hold the same values (what cloning keeps) are of
/// the same variant with every field equal: the same colour bands, in
/// order, and all other fields identical.
pub proof fn lemma_same_kind_keeps_every_field(a: WidgetKind, b: WidgetKind)
    requires
        same_kind(a, b),
    ensures
        kind_ranges(a) == kind_ranges(b),
        forall|rs: Vec<SensorRange>| with_ranges(a, rs) == with_ranges(b, rs),
        kind_ranges(a) is None ==> a == b,
{
}

/// Two templates that hold the same values (what resolving, listing and
/// saving give back) keep every widget's colour bands and every other
/// field of its kind.
pub proof fn lemma_same_template_keeps_widget_kinds(a: LcdTemplate, b: LcdTemplate, i: int)
    requires
        same_template(a, b),
        0 <= i < a.widgets@.len(),
    ensures
        b.widgets@.len() == a.widgets@.len(),
        kind_ranges(a.widgets@[i].kind) == kind_ranges(b.widgets@[i].kind),
        forall|rs: Vec<SensorRange>|
            with_ranges(a.widgets@[i].kind, rs) == with_ranges(b.widgets@[i].kind, rs),
{
    assert(same_widget(a.widgets@[i], b.widgets@[i]));
    lemma_same_kind_keeps_every_field(a.widgets@[i].kind, b.widgets@[i].kind);
}

impl Clone for WidgetKind {
    fn clone(&self) -> (r: Self)
        ensures
            same_kind(r, *self),
    {
        match self {
            WidgetKind::Label { text, font, font_size, color, align } => WidgetKind::Label {
                text: text.clone(),
                font: font.clone(),
                font_size: *font_size,
                color: *color,
                align: *align,
            },
            WidgetKind::ValueText { source, format, unit, font, font_size, color, align } => {
                WidgetKind::ValueText {
                    source: source.clone(),
                    format: format.clone(),
                    unit: unit.clone(),
                    font: font.clone(),
                    font_size: *font_size,
                    color: *color,
                    align: *align,
                }
            },
            WidgetKind::RadialGauge {
                source,
                value_min,
                value_max,
                start_angle,
                sweep_angle,
                inner_radius_pct,
                background_color,
                ranges,
            } => WidgetKind::RadialGauge {
                source: source.clone(),
                value_min: *value_min,
                value_max: *value_max,
                start_angle: *start_angle,
                sweep_angle: *sweep_angle,
                inner_radius_pct: *inner_radius_pct,
                background_color: *background_color,
                ranges: clone_ranges(ranges),
            },
            WidgetKind::VerticalBar {
                source,
                value_min,
                value_max,
                background_color,
                corner_radius,
                ranges,
            } => WidgetKind::VerticalBar {
                source: source.clone(),
                value_min: *value_min,
                value_max: *value_max,
                background_color: *background_color,
                corner_radius: *corner_radius,
                ranges: clone_ranges(ranges),
            },
            WidgetKind::HorizontalBar {
                source,
                value_min,
                value_max,
                background_color,
                corner_radius,
                ranges,
            } => WidgetKind::HorizontalBar {
                source: source.clone(),
                value_min: *value_min,
                value_max: *value_max,
                background_color: *background_color,
                corner_radius: *corner_radius,
                ranges: clone_ranges(ranges),
            },
            WidgetKind::Speedometer {
                source,
                value_min,
                value_max,
                start_angle,
                sweep_angle,
                needle_color,
                tick_color,
                tick_count,
                background_color,
            } => WidgetKind::Speedometer {
                source: source.clone(),
                value_min: *value_min,
                value_max: *value_max,
                start_angle: *start_angle,
                sweep_angle: *sweep_angle,
                needle_color: *needle_color,
                tick_color: *tick_color,
                tick_count: *tick_count,
                background_color: *background_color,
            },
            WidgetKind::CoreBars {
                orientation,
                color_cold,
                color_hot,
                background_color,
                show_labels,
            } => WidgetKind::CoreBars {
                orientation: *orientation,
                color_cold: *color_cold,
                color_hot: *color_hot,
                background_color: *background_color,
                show_labels: *show_labels,
            },
            WidgetKind::Image { path, opacity, fit } => WidgetKind::Image {
                path: path.clone(),
                opacity: *opacity,
                fit: *fit,
            },
            WidgetKind::Video { path, loop_playback, opacity, fit } => WidgetKind::Video {
                path: path.clone(),
                loop_playback: *loop_playback,
                opacity: *opacity,
                fit: *fit,
            },
        }
    }
}

/// The format string applied to a sensor value: `{:.0}`.
pub open spec fn default_value_format_text() -> Seq<char> {
    seq!['{', ':', '.', '0', '}']
}

/// Serde default of `WidgetKind::ValueText::format`.
pub fn default_value_format() -> (r: String)
    ensures
        r@ == default_value_format_text(),
{
    proof {
        reveal_strlit("{:.0}");
    }
    String::from_str("{:.0}")
}

/// Serde default of `WidgetKind::RadialGauge::inner_radius_pct`: `0.78`.
pub fn default_inner_radius_pct() -> (r: F32Bits)
    ensures
        r == F32Bits(0x3f47_ae14),
{
    F32Bits(0x3f47_ae14)
}

/// Serde default of `WidgetKind::Speedometer::tick_count`.
pub fn default_tick_count() -> (r: u32)
    ensures
        r == 10,
{
    10
}

/// Serde default of the `opacity` of images and videos: `1.0`.
pub fn default_opacity() -> (r: F32Bits)
    ensures
        r == F32Bits(0x3f80_0000),
{
    F32Bits(0x3f80_0000)
}

/// Horizontal alignment of text inside its widget.
#[derive(Clone, Copy, Debug, PartialEq, Eq, Structural)]
pub enum TextAlign {
    Left,
    Center,
    Right,
}

impl Default for TextAlign {
    fn default() -> (r: Self)
        ensures
            r == TextAlign::Center,
    {
        TextAlign::Center
    }
}

/// Direction of the per-core bars.
#[derive(Clone, Copy, Debug, PartialEq, Eq, Structural)]
pub enum BarOrientation {
    Horizontal,
    Vertical,
}

impl Default for BarOrientation {
    fn default() -> (r: Self)
        ensures
            r == BarOrientation::Horizontal,
    {
        BarOrientation::Horizontal
    }
}

/// How an image or video frame is fitted into its widget.
#[derive(Clone, Copy, Debug, PartialEq, Eq, Structural)]
pub enum ImageFit {
    Stretch,
    Contain,
    Cover,
}

impl Default for ImageFit {
    fn default() -> (r: Self)
        ensures
            r == ImageFit::Stretch,
    {
        ImageFit::Stretch
    }
}

/// Reference to a font: one of the bundled built-ins or a user file.
#[derive(Debug, PartialEq, Eq)]
pub enum FontRef {
    Builtin { font: BuiltinFont },
    File { path: String },
}

impl Default for FontRef {
    fn default() -> (r: Self)
        ensures
            r == (FontRef::Builtin { font: BuiltinFont::VictorMono }),
    {
        FontRef::Builtin { font: BuiltinFont::VictorMono }
    }
}

impl Clone for FontRef {
    fn clone(&self) -> (r: Self)
        ensures
            r == *self,
    {
        match self {
            FontRef::Builtin { font } => FontRef::Builtin { font: *font },
            FontRef::File { path } => FontRef::File { path: path.clone() },
        }
    }
}

/// The bundled fonts.
#[derive(Clone, Copy, Debug, PartialEq, Eq, Structural)]
pub enum BuiltinFont {
    VictorMono,
    JetBrainsMono,
    Digital7,
}

/// Two lists of widgets hold the same widgets in the same order.
pub open spec fn same_widgets(a: Seq<Widget>, b: Seq<Widget>) -> bool {
    a.len() == b.len() && forall|i: int| 0 <= i < a.len() ==> same_widget(#[trigger] a[i], b[i])
}

/// Two templates hold the same values.
pub open spec fn same_template(a: LcdTemplate, b: LcdTemplate) -> bool {
    &&& a.id == b.id
    &&& a.name == b.name
    &&& a.base_width == b.base_width
    &&& a.base_height == b.base_height
    &&& a.background == b.background
    &&& same_widgets(a.widgets@, b.widgets@)
    &&& a.orientation == b.orientation
}

/// Clones a list of widgets.
pub fn clone_widgets(widgets: &Vec<Widget>) -> (r: Vec<Widget>)
    ensures
        same_widgets(r@, widgets@),
{
    let mut r: Vec<Widget> = Vec::new();
    let mut i: usize = 0;
    while i < widgets.len()
        invariant
            i <= widgets@.len(),
            r@.len() == i,
            forall|k: int| 0 <= k < i ==> same_widget(#[trigger] r@[k], widgets@[k]),
        decreases widgets@.len() - i,
    {
        r.push(widgets[i].clone());
        i = i + 1;
    }
    r
}

impl Clone for LcdTemplate {
    fn clone(&self) -> (r: Self)
        ensures
            same_template(r, *self),
    {
        LcdTemplate {
            id: self.id.clone(),
            name: self.name.clone(),
            base_width: self.base_width,
            base_height: self.base_height,
            background: self.background.clone(),
            widgets: clone_widgets(&self.widgets),
            orientation: self.orientation,
        }
    }
}


/// `template '<id>'`, the start of every message about a template that has an id.
pub open spec fn template_label(id: Seq<char>) -> Seq<char> {
    "template '"@ + id + "'"@
}

/// The message for the widget at index `i`, if it fails a check: a size
/// that is not positive, or an update interval outside [100, 10000] ms.
pub open spec fn widget_problem(id: Seq<char>, i: nat, w: Widget) -> Option<Seq<char>> {
    if w.width.at_most_zero() || w.height.at_most_zero() {
        Some(
            template_label(id) + " widget["@ + decimal_text(i) + "] '"@ + w.id@
                + "' has non-positive size"@,
        )
    } else if w.update_interval_ms matches Some(ms) && !(100 <= ms <= 10_000) {
        Some(
            template_label(id) + " widget["@ + decimal_text(i)
                + "] update_interval_ms must be in [100, 10000]"@,
        )
    } else {
        None
    }
}

/// The message for the first widget at or after index `k` that fails a check.
pub open spec fn widgets_problem_from(id: Seq<char>, ws: Seq<Widget>, k: nat) -> Option<Seq<char>>
    decreases ws.len() - k,
{
    if k >= ws.len() {
        None
    } else {
        match widget_problem(id, k, ws[k as int]) {
            Some(m) => Some(m),
            None => widgets_problem_from(id, ws, k + 1),
        }
    }
}

/// The message of the first structural check that the template fails, if any:
/// a blank id, a blank name, a zero base dimension, then its widgets in order.
pub open spec fn validation_error(t: LcdTemplate) -> Option<Seq<char>> {
    if is_blank(t.id@) {
        Some("template id must not be empty"@)
    } else if is_blank(t.name@) {
        Some(template_label(t.id@) + " name must not be empty"@)
    } else if t.base_width == 0 || t.base_height == 0 {
        Some(template_label(t.id@) + " base dimensions must be positive"@)
    } else {
        widgets_problem_from(t.id@, t.widgets@, 0)
    }
}

/// A widget that a check rejects: a width or height that is not positive,
/// or an update interval outside [100, 10000] ms.
pub open spec fn widget_rejected(w: Widget) -> bool {
    ||| w.width.at_most_zero()
    ||| w.height.at_most_zero()
    ||| w.update_interval_ms matches Some(ms) && (ms < 100 || ms > 10_000)
}

proof fn lemma_problem_found_before(id: Seq<char>, ws: Seq<Widget>, k: nat, i: nat)
    requires
        k <= i < ws.len(),
        widget_rejected(ws[i as int]),
    ensures
        widgets_problem_from(id, ws, k) is Some,
    decreases i - k,
{
    if k < i && widget_problem(id, k, ws[k as int]) is None {
        lemma_problem_found_before(id, ws, k + 1, i);
    }
}

/// Validation checks every widget, shown or hidden: a template whose
/// widget at index `i` has a size that is not positive, or an update
/// interval outside [100, 10000] ms, fails validation.
pub proof fn lemma_rejected_widget_fails_validation(t: LcdTemplate, i: int)
    requires
        0 <= i < t.widgets@.len(),
        widget_rejected(t.widgets@[i]),
    ensures
        validation_error(t) is Some,
{
    lemma_problem_found_before(t.id@, t.widgets@, 0, i as nat);
}

proof fn lemma_problems_agree(id: Seq<char>, a: Seq<Widget>, b: Seq<Widget>, k: nat)
    requires
        a.len() == b.len(),
        forall|i: int|
            0 <= i < a.len() ==> (#[trigger] a[i]).id@ == b[i].id@ && a[i].width == b[i].width
                && a[i].height == b[i].height && a[i].update_interval_ms
                == b[i].update_interval_ms,
    ensures
        widgets_problem_from(id, a, k) == widgets_problem_from(id, b, k),
    decreases a.len() - k,
{
    if k < a.len() {
        assert(a[k as int].id@ == b[k as int].id@);
        lemma_problems_agree(id, a, b, k + 1);
    }
}

/// Whether a template validates, and with which message, depends only on
/// its id, name, base size and each widget's id, size and update interval:
/// never on whether a widget is shown, nor on its kind or position.
pub proof fn lemma_validation_ignores_other_fields(t: LcdTemplate, u: LcdTemplate)
    requires
        t.id@ == u.id@,
        t.name@ == u.name@,
        t.base_width == u.base_width,
        t.base_height == u.base_height,
        t.widgets@.len() == u.widgets@.len(),
        forall|i: int|
            0 <= i < t.widgets@.len() ==> (#[trigger] t.widgets@[i]).id@ == u.widgets@[i].id@
                && t.widgets@[i].width == u.widgets@[i].width && t.widgets@[i].height
                == u.widgets@[i].height && t.widgets@[i].update_interval_ms
                == u.widgets@[i].update_interval_ms,
    ensures
        validation_error(t) == validation_error(u),
{
    lemma_problems_agree(t.id@, t.widgets@, u.widgets@, 0);
}

fn template_label_string(id: &String) -> (r: String)
    ensures
        r@ == template_label(id@),
{
    let mut r = String::from_str("template '");
    r.append(id.as_str());
    r.append("'");
    r
}

fn widget_problem_message(id: &String, i: usize, w: &Widget) -> (r: Option<String>)
    ensures
        r is Some <==> widget_problem(id@, i as nat, *w) is Some,
        r matches Some(m) ==> widget_problem(id@, i as nat, *w) == Some(m@),
{
    if w.width.is_at_most_zero() || w.height.is_at_most_zero() {
        let mut m = template_label_string(id);
        m.append(" widget[");
        m.append(decimal_string(i as u64).as_str());
        m.append("] '");
        m.append(w.id.as_str());
        m.append("' has non-positive size");
        return Some(m);
    }
    if let Some(ms) = w.update_interval_ms {
        if !(100 <= ms && ms <= 10_000) {
            let mut m = template_label_string(id);
            m.append(" widget[");
            m.append(decimal_string(i as u64).as_str());
            m.append("] update_interval_ms must be in [100, 10000]");
            return Some(m);
        }
    }
    None
}

impl LcdTemplate {
    /// Basic structural validation; deep widget-specific checks belong to
    /// the renderer. The error message is suitable for a log line.
    pub fn validate(&self) -> (r: Result<(), String>)
        ensures
            r is Ok <==> validation_error(*self) is None,
            r matches Err(m) ==> validation_error(*self) == Some(m@),
    {
        if str_is_blank(self.id.as_str()) {
            return Err(String::from_str("template id must not be empty"));
        }
        if str_is_blank(self.name.as_str()) {
            let mut m = template_label_string(&self.id);
            m.append(" name must not be empty");
            return Err(m);
        }
        if self.base_width == 0 || self.base_height == 0 {
            let mut m = template_label_string(&self.id);
            m.append(" base dimensions must be positive");
            return Err(m);
        }
        let n = self.widgets.len();
        let mut i: usize = 0;
        while i < n
            invariant
                n == self.widgets@.len(),
                i <= n,
                validation_error(*self) == widgets_problem_from(self.id@, self.widgets@, 0),
                widgets_problem_from(self.id@, self.widgets@, 0) == widgets_problem_from(
                    self.id@,
                    self.widgets@,
                    i as nat,
                ),
            decreases n - i,
        {
            match widget_problem_message(&self.id, i, &self.widgets[i]) {
                Some(m) => {
                    return Err(m);
                },
                None => {},
            }
            i = i + 1;
        }
        Ok(())
    }
}

} // verus!
