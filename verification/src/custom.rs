//! Widget logic of the custom template renderer: which sensor and font a
//! widget uses, how a value format string is read, which video frame is
//! due, the preview's stand-in sensor values, how an image is fitted into a
//! widget, and how font data becomes a font.
use crate::float_bits::F32Bits;
use crate::media::SensorSourceConfig;
use crate::template::{FontRef, ImageFit, LcdTemplate, TextAlign, Widget, WidgetKind};
use crate::text::{
    find_from, has_prefix, has_suffix, parse_decimal, parse_unsigned, str_equal, str_find,
    strip_prefix, strip_suffix,
};
use vstd::prelude::*;

verus! {

/// Milliseconds since an asset was created, used for video playback timing.
#[derive(Clone, Copy, Debug, PartialEq, Eq, Structural)]
pub struct ElapsedMs(pub u64);

impl From<u64> for ElapsedMs {
    fn from(v: u64) -> (r: Self) {
        ElapsedMs(v)
    }
}

impl vstd::std_specs::convert::FromSpecImpl<u64> for ElapsedMs {
    open spec fn obeys_from_spec() -> bool {
        true
    }

    open spec fn from_spec(v: u64) -> Self {
        ElapsedMs(v)
    }
}

/// The divisor for a frame duration: at least one millisecond, as a `u64`.
pub open spec fn frame_divisor(frame_duration_ms: u128) -> u64 {
    (if frame_duration_ms >= 1 {
        frame_duration_ms
    } else {
        1
    }) as u64
}

/// The frame of a looping video that is due after `elapsed`: elapsed time
/// over frame duration, wrapped around the frame count.
pub open spec fn frame_index(elapsed: ElapsedMs, frame_duration_ms: u128, frame_count: usize) -> int {
    (((elapsed.0 / frame_divisor(frame_duration_ms)) as usize) % frame_count) as int
}

/// Index of the video frame to show after `elapsed`.
pub fn video_frame_index(elapsed: ElapsedMs, frame_duration_ms: u128, frame_count: usize) -> (r:
    usize)
    requires
        frame_count > 0,
        frame_divisor(frame_duration_ms) != 0,
    ensures
        r == frame_index(elapsed, frame_duration_ms, frame_count),
        r < frame_count,
{
    let d = if frame_duration_ms >= 1 {
        frame_duration_ms
    } else {
        1
    };
    #[verifier::truncate]
    let dur_ms = d as u64;
    #[verifier::truncate]
    let q = (elapsed.0 / dur_ms) as usize;
    q % frame_count
}

/// The video plays its frames in order and loops: one frame duration later
/// the next frame is due, and after the last frame the first.
pub proof fn lemma_video_advances_one_frame(
    elapsed: ElapsedMs,
    frame_duration_ms: u128,
    frame_count: usize,
)
    requires
        frame_count > 0,
        frame_divisor(frame_duration_ms) != 0,
        elapsed.0 + frame_divisor(frame_duration_ms) <= u64::MAX,
        elapsed.0 / frame_divisor(frame_duration_ms) < usize::MAX,
    ensures
        frame_index(
            ElapsedMs((elapsed.0 + frame_divisor(frame_duration_ms)) as u64),
            frame_duration_ms,
            frame_count,
        ) == (frame_index(elapsed, frame_duration_ms, frame_count) + 1) % (frame_count as int),
{
    let d = frame_divisor(frame_duration_ms) as int;
    let e = elapsed.0 as int;
    let n = frame_count as int;
    let q = e / d;
    vstd::arithmetic::div_mod::lemma_div_plus_one(e, d);
    assert((d + e) / d == q + 1);
    assert((elapsed.0 / frame_divisor(frame_duration_ms)) as usize == q);
    assert(((elapsed.0 + frame_divisor(frame_duration_ms)) as u64 / frame_divisor(
        frame_duration_ms,
    )) as usize == q + 1);
    vstd::arithmetic::div_mod::lemma_add_mod_noop(q, 1, n);
    if n > 1 {
        vstd::arithmetic::div_mod::lemma_small_mod(1, n as nat);
    } else {
        assert((q + 1) % n == 0);
        assert((q % n + 1) % n == 0);
    }
    vstd::arithmetic::div_mod::lemma_mod_twice(q, n);
}

/// The sensor source of a sensor-bound widget kind.
pub open spec fn kind_sensor_source(kind: WidgetKind) -> Option<SensorSourceConfig> {
    match kind {
        WidgetKind::ValueText { source, .. } => Some(source),
        WidgetKind::RadialGauge { source, .. } => Some(source),
        WidgetKind::VerticalBar { source, .. } => Some(source),
        WidgetKind::HorizontalBar { source, .. } => Some(source),
        WidgetKind::Speedometer { source, .. } => Some(source),
        _ => None,
    }
}

/// The sensor that a widget reads: value texts, gauges, bars and
/// speedometers have one.
pub fn widget_sensor_source(kind: &WidgetKind) -> (r: Option<&SensorSourceConfig>)
    ensures
        r is Some <==> kind_sensor_source(*kind) is Some,
        r matches Some(s) ==> kind_sensor_source(*kind) == Some(*s),
{
    match kind {
        WidgetKind::ValueText { source, .. } => Some(source),
        WidgetKind::RadialGauge { source, .. } => Some(source),
        WidgetKind::VerticalBar { source, .. } => Some(source),
        WidgetKind::HorizontalBar { source, .. } => Some(source),
        WidgetKind::Speedometer { source, .. } => Some(source),
        _ => None,
    }
}

/// The font of a text widget kind.
pub open spec fn kind_font(kind: WidgetKind) -> Option<FontRef> {
    match kind {
        WidgetKind::Label { font, .. } => Some(font),
        WidgetKind::ValueText { font, .. } => Some(font),
        _ => None,
    }
}

/// The font that a widget draws text with: labels and value texts have one.
pub fn widget_font_ref(kind: &WidgetKind) -> (r: Option<&FontRef>)
    ensures
        r is Some <==> kind_font(*kind) is Some,
        r matches Some(f) ==> kind_font(*kind) == Some(*f),
{
    match kind {
        WidgetKind::Label { font, .. } => Some(font),
        WidgetKind::ValueText { font, .. } => Some(font),
        _ => None,
    }
}

/// How a value format string renders a number.
#[derive(Debug, PartialEq, Eq)]
pub enum ValueFormat {
    /// `{:.N}`: the value with `N` decimals.
    Decimals(usize),
    /// The value rounded to a whole number.
    Whole,
    /// The value rounded to a whole number, in place of the first `{}`.
    Around { prefix: String, suffix: String },
}

/// A value format by the views of its texts.
pub enum ValueFormatView {
    Decimals(usize),
    Whole,
    Around { prefix: Seq<char>, suffix: Seq<char> },
}

impl View for ValueFormat {
    type V = ValueFormatView;

    open spec fn view(&self) -> ValueFormatView {
        match self {
            ValueFormat::Decimals(n) => ValueFormatView::Decimals(*n),
            ValueFormat::Whole => ValueFormatView::Whole,
            ValueFormat::Around { prefix, suffix } => ValueFormatView::Around {
                prefix: prefix@,
                suffix: suffix@,
            },
        }
    }
}

/// The number of decimals that a `{:.N}` format asks for, if it is one.
pub open spec fn format_decimals(fmt: Seq<char>) -> Option<nat> {
    if has_prefix(fmt, "{:."@) {
        let rest = fmt.skip("{:."@.len() as int);
        if has_suffix(rest, "}"@) {
            parse_unsigned(rest.take(rest.len() - "}"@.len()), usize::MAX as nat)
        } else {
            None
        }
    } else {
        None
    }
}

/// How `fmt` renders a value: `{:.N}` with `N` decimals; `{}` as a whole
/// number; otherwise a whole number in place of the first `{}`, or, without
/// one, alone.
pub open spec fn value_format_of(fmt: Seq<char>) -> ValueFormatView {
    match format_decimals(fmt) {
        Some(n) => ValueFormatView::Decimals(n as usize),
        None => if fmt == "{}"@ {
            ValueFormatView::Whole
        } else {
            match find_from(fmt, "{}"@, 0) {
                Some(k) => ValueFormatView::Around {
                    prefix: fmt.take(k as int),
                    suffix: fmt.skip((k + "{}"@.len()) as int),
                },
                None => ValueFormatView::Whole,
            }
        },
    }
}

/// Reads a printf-style value format string such as `{:.1}` or `{} °C`.
pub fn parse_value_format(fmt: &str) -> (r: ValueFormat)
    ensures
        r@ == value_format_of(fmt@),
{
    if let Some(rest) = strip_prefix(fmt, "{:.") {
        if let Some(n_str) = strip_suffix(rest.as_str(), "}") {
            if let Some(n) = parse_decimal(n_str.as_str(), usize::MAX as u64) {
                return ValueFormat::Decimals(n as usize);
            }
        }
    }
    if str_equal(fmt, "{}") {
        return ValueFormat::Whole;
    }
    match str_find(fmt, "{}") {
        Some(pos) => {
            let n = fmt.unicode_len();
            proof {
                reveal_strlit("{}");
            }
            ValueFormat::Around {
                prefix: String::from_str(fmt.substring_char(0, pos)),
                suffix: String::from_str(fmt.substring_char(pos + 2, n)),
            }
        },
        None => ValueFormat::Whole,
    }
}


/// `kind` with its sensor source replaced by `s`; a kind without a sensor
/// source is unchanged.
pub open spec fn with_sensor_source(kind: WidgetKind, s: SensorSourceConfig) -> WidgetKind {
    match kind {
        WidgetKind::ValueText { source: _, format, unit, font, font_size, color, align } => {
            WidgetKind::ValueText { source: s, format, unit, font, font_size, color, align }
        },
        WidgetKind::RadialGauge {
            source: _,
            value_min,
            value_max,
            start_angle,
            sweep_angle,
            inner_radius_pct,
            background_color,
            ranges,
        } => WidgetKind::RadialGauge {
            source: s,
            value_min,
            value_max,
            start_angle,
            sweep_angle,
            inner_radius_pct,
            background_color,
            ranges,
        },
        WidgetKind::VerticalBar {
            source: _,
            value_min,
            value_max,
            background_color,
            corner_radius,
            ranges,
        } => WidgetKind::VerticalBar {
            source: s,
            value_min,
            value_max,
            background_color,
            corner_radius,
            ranges,
        },
        WidgetKind::HorizontalBar {
            source: _,
            value_min,
            value_max,
            background_color,
            corner_radius,
            ranges,
        } => WidgetKind::HorizontalBar {
            source: s,
            value_min,
            value_max,
            background_color,
            corner_radius,
            ranges,
        },
        WidgetKind::Speedometer {
            source: _,
            value_min,
            value_max,
            start_angle,
            sweep_angle,
            needle_color,
            tick_color,
            tick_count,
            background_color,
        } => WidgetKind::Speedometer {
            source: s,
            value_min,
            value_max,
            start_angle,
            sweep_angle,
            needle_color,
            tick_color,
            tick_count,
            background_color,
        },
        _ => kind,
    }
}

/// `kind` with its sensor source, if any, replaced by the constant `value`.
pub fn stub_kind(kind: WidgetKind, value: F32Bits) -> (r: WidgetKind)
    ensures
        r == with_sensor_source(kind, SensorSourceConfig::Constant { value }),
{
    let s = SensorSourceConfig::Constant { value };
    match kind {
        WidgetKind::ValueText { source: _, format, unit, font, font_size, color, align } => {
            WidgetKind::ValueText { source: s, format, unit, font, font_size, color, align }
        },
        WidgetKind::RadialGauge {
            source: _,
            value_min,
            value_max,
            start_angle,
            sweep_angle,
            inner_radius_pct,
            background_color,
            ranges,
        } => WidgetKind::RadialGauge {
            source: s,
            value_min,
            value_max,
            start_angle,
            sweep_angle,
            inner_radius_pct,
            background_color,
            ranges,
        },
        WidgetKind::VerticalBar {
            source: _,
            value_min,
            value_max,
            background_color,
            corner_radius,
            ranges,
        } => WidgetKind::VerticalBar {
            source: s,
            value_min,
            value_max,
            background_color,
            corner_radius,
            ranges,
        },
        WidgetKind::HorizontalBar {
            source: _,
            value_min,
            value_max,
            background_color,
            corner_radius,
            ranges,
        } => WidgetKind::HorizontalBar {
            source: s,
            value_min,
            value_max,
            background_color,
            corner_radius,
            ranges,
        },
        WidgetKind::Speedometer {
            source: _,
            value_min,
            value_max,
            start_angle,
            sweep_angle,
            needle_color,
            tick_color,
            tick_count,
            background_color,
        } => WidgetKind::Speedometer {
            source: s,
            value_min,
            value_max,
            start_angle,
            sweep_angle,
            needle_color,
            tick_color,
            tick_count,
            background_color,
        },
        other => other,
    }
}

/// The stand-in value that a preview shows for every sensor: `65.0`.
pub fn preview_mock_value() -> (r: F32Bits)
    ensures
        r == F32Bits(0x4282_0000),
{
    F32Bits(0x4282_0000)
}

/// `w` with its sensor source, if any, replaced by the constant `value`.
pub open spec fn stubbed_widget(w: Widget, value: F32Bits) -> Widget {
    Widget { kind: with_sensor_source(w.kind, SensorSourceConfig::Constant { value }), ..w }
}

/// Replaces the sensor of every sensor-bound widget by the preview's
/// constant, so that a template renders without reading any sensor; all
/// else is unchanged.
pub fn stub_sensor_sources(template: &mut LcdTemplate)
    ensures
        final(template).id == old(template).id,
        final(template).name == old(template).name,
        final(template).base_width == old(template).base_width,
        final(template).base_height == old(template).base_height,
        final(template).background == old(template).background,
        final(template).orientation == old(template).orientation,
        final(template).widgets@ == old(template).widgets@.map_values(
            |w: Widget| stubbed_widget(w, F32Bits(0x4282_0000)),
        ),
{
    let value = preview_mock_value();
    let ghost start = template.widgets@;
    let n = template.widgets.len();
    let mut i: usize = 0;
    while i < n
        invariant
            n == start.len(),
            i <= n,
            template.widgets@.len() == n,
            template.id == old(template).id,
            template.name == old(template).name,
            template.base_width == old(template).base_width,
            template.base_height == old(template).base_height,
            template.background == old(template).background,
            template.orientation == old(template).orientation,
            start == old(template).widgets@,
            value == F32Bits(0x4282_0000),
            forall|k: int| 0 <= k < i ==> template.widgets@[k] == stubbed_widget(start[k], value),
            forall|k: int| i <= k < n ==> template.widgets@[k] == start[k],
        decreases n - i,
    {
        let w = template.widgets.remove(i);
        let Widget { id, kind, x, y, width, height, rotation, visible, update_interval_ms, fps } =
            w;
        let w2 = Widget {
            id,
            kind: stub_kind(kind, value),
            x,
            y,
            width,
            height,
            rotation,
            visible,
            update_interval_ms,
            fps,
        };
        template.widgets.insert(i, w2);
        i = i + 1;
    }
    assert(template.widgets@ =~= start.map_values(|w: Widget| stubbed_widget(w, value)));
}


/// An RGBA image with eight bits per channel, row by row from the top left
/// (the layout of `image::RgbaImage`).
#[derive(Debug, PartialEq, Eq)]
pub struct Raster {
    pub width: u32,
    pub height: u32,
    pub pixels: Vec<u8>,
}

/// A raster by the view of its pixel bytes.
pub struct RasterView {
    pub width: u32,
    pub height: u32,
    pub pixels: Seq<u8>,
}

impl View for Raster {
    type V = RasterView;

    open spec fn view(&self) -> RasterView {
        RasterView { width: self.width, height: self.height, pixels: self.pixels@ }
    }
}

/// The raster holds four bytes for each of its pixels.
pub open spec fn well_formed(r: RasterView) -> bool {
    r.pixels.len() == r.width * r.height * 4
}

/// Resizing `src` to exactly `width × height` with the Lanczos3 filter
/// (`DynamicImage::resize_exact`).
pub uninterp spec fn lanczos_resized(src: RasterView, width: u32, height: u32) -> RasterView;

/// Resizing `src` with the Lanczos3 filter, keeping its aspect ratio, to the
/// largest size within `width × height` (`DynamicImage::resize`).
pub uninterp spec fn lanczos_within(src: RasterView, width: u32, height: u32) -> RasterView;

/// Resizing `src` with the Lanczos3 filter, keeping its aspect ratio, to
/// cover `width × height`, then cropping (`DynamicImage::resize_to_fill`).
pub uninterp spec fn lanczos_filled(src: RasterView, width: u32, height: u32) -> RasterView;

/// `bottom` with `top` alpha-blended onto it at `(x, y)`
/// (`image::imageops::overlay`).
pub uninterp spec fn overlaid(bottom: RasterView, top: RasterView, x: i64, y: i64) -> RasterView;

/// `DynamicImage::resize_exact` with `FilterType::Lanczos3`. The contract
/// names the result and states the size the documentation gives it; the
/// pixels are not stated. The size must fit in memory, since the image
/// crate panics when the buffer length overflows, and the source must not
/// be empty, since the sampler reads its edge pixels.
#[verifier::external_body]
fn resize_exact(src: &Raster, width: u32, height: u32) -> (r: Raster)
    requires
        well_formed(src@),
        src.width >= 1,
        src.height >= 1,
        width * height * 4 <= usize::MAX,
    ensures
        r@ == lanczos_resized(src@, width, height),
        r.width == width,
        r.height == height,
        well_formed(r@),
{
    let img = image::RgbaImage::from_raw(src.width, src.height, src.pixels.clone()).unwrap();
    let out = image::DynamicImage::ImageRgba8(img).resize_exact(
        width,
        height,
        image::imageops::FilterType::Lanczos3,
    ).to_rgba8();
    Raster { width: out.width(), height: out.height(), pixels: out.into_raw() }
}

/// `DynamicImage::resize` with `FilterType::Lanczos3`. The contract names
/// the result and states the bounds the documentation gives its size: it
/// fits within `width × height` and is at least one pixel each way. The
/// exact size, which the crate computes in floating point, is not stated.
#[verifier::external_body]
fn resize_within(src: &Raster, width: u32, height: u32) -> (r: Raster)
    requires
        well_formed(src@),
        src.width >= 1,
        src.height >= 1,
        width >= 1,
        height >= 1,
        width * height * 4 <= usize::MAX,
    ensures
        r@ == lanczos_within(src@, width, height),
        1 <= r.width <= width,
        1 <= r.height <= height,
        well_formed(r@),
{
    let img = image::RgbaImage::from_raw(src.width, src.height, src.pixels.clone()).unwrap();
    let out = image::DynamicImage::ImageRgba8(img).resize(
        width,
        height,
        image::imageops::FilterType::Lanczos3,
    ).to_rgba8();
    Raster { width: out.width(), height: out.height(), pixels: out.into_raw() }
}

/// The widest image that scaling `sw × sh` to cover `w × h` gives: the
/// target width, or the scaled width plus one for rounding.
pub open spec fn cover_width_bound(sw: u32, sh: u32, w: u32, h: u32) -> int {
    let scaled = (sw as int * h as int) / (sh as int) + 1;
    if scaled > w {
        scaled
    } else {
        w as int
    }
}

/// The tallest image that scaling `sw × sh` to cover `w × h` gives: the
/// target height, or the scaled height plus one for rounding.
pub open spec fn cover_height_bound(sw: u32, sh: u32, w: u32, h: u32) -> int {
    let scaled = (sh as int * w as int) / (sw as int) + 1;
    if scaled > h {
        scaled
    } else {
        h as int
    }
}

/// Scaling `sw × sh` to cover `w × h` gives an image whose sides fit in a
/// `u32` and whose buffer fits in memory.
pub open spec fn cover_fits(sw: u32, sh: u32, w: u32, h: u32) -> bool {
    &&& cover_width_bound(sw, sh, w, h) <= u32::MAX
    &&& cover_height_bound(sw, sh, w, h) <= u32::MAX
    &&& cover_width_bound(sw, sh, w, h) * cover_height_bound(sw, sh, w, h) * 4 <= usize::MAX
}

/// `DynamicImage::resize_to_fill` with `FilterType::Lanczos3`. The contract
/// names the result and states its size: the source scales to cover
/// `width × height` (one side exactly, the other rounded and no smaller)
/// and is cropped to exactly that size. The scaled image must fit in a
/// `u32` each way, else the crate clamps it and the crop comes out smaller,
/// and in memory. The pixels are not stated.
#[verifier::external_body]
fn resize_to_fill(src: &Raster, width: u32, height: u32) -> (r: Raster)
    requires
        well_formed(src@),
        src.width >= 1,
        src.height >= 1,
        width >= 1,
        height >= 1,
        cover_fits(src.width, src.height, width, height),
    ensures
        r@ == lanczos_filled(src@, width, height),
        r.width == width,
        r.height == height,
        well_formed(r@),
{
    let img = image::RgbaImage::from_raw(src.width, src.height, src.pixels.clone()).unwrap();
    let out = image::DynamicImage::ImageRgba8(img).resize_to_fill(
        width,
        height,
        image::imageops::FilterType::Lanczos3,
    ).to_rgba8();
    Raster { width: out.width(), height: out.height(), pixels: out.into_raw() }
}

/// `image::imageops::overlay`. The contract names the result and states
/// what the source shows: the bottom image keeps its size. The blending is
/// not stated.
#[verifier::external_body]
fn overlay_onto(bottom: &mut Raster, top: &Raster, x: i64, y: i64)
    requires
        well_formed(old(bottom)@),
        well_formed(top@),
    ensures
        final(bottom)@ == overlaid(old(bottom)@, top@, x, y),
        final(bottom).width == old(bottom).width,
        final(bottom).height == old(bottom).height,
        well_formed(final(bottom)@),
{
    let mut canvas = image::RgbaImage::from_raw(bottom.width, bottom.height, bottom.pixels.clone()).unwrap();
    let over = image::RgbaImage::from_raw(top.width, top.height, top.pixels.clone()).unwrap();
    image::imageops::overlay(&mut canvas, &over, x, y);
    bottom.pixels = canvas.into_raw();
}

/// A fully transparent `width × height` raster.
pub open spec fn transparent(width: u32, height: u32) -> RasterView {
    RasterView { width, height, pixels: Seq::new((width * height * 4) as nat, |i: int| 0u8) }
}

/// A fully transparent raster (`RgbaImage::from_pixel` with `Rgba([0, 0, 0, 0])`).
pub fn transparent_raster(width: u32, height: u32) -> (r: Raster)
    requires
        width * height * 4 <= usize::MAX,
    ensures
        r@ == transparent(width, height),
{
    let n = (width as usize) * (height as usize) * 4;
    let mut pixels: Vec<u8> = Vec::new();
    let mut i: usize = 0;
    while i < n
        invariant
            i <= n,
            pixels@ == Seq::new(i as nat, |k: int| 0u8),
        decreases n - i,
    {
        pixels.push(0u8);
        i = i + 1;
        assert(pixels@ =~= Seq::new(i as nat, |k: int| 0u8));
    }
    Raster { width, height, pixels }
}

/// At least one: the size a fitted image is given for a zero bound.
pub open spec fn at_least_one(n: u32) -> u32 {
    if n >= 1 {
        n
    } else {
        1
    }
}

/// `x / 2` rounded toward zero, as integer division does.
pub open spec fn half_toward_zero(x: int) -> int {
    if x >= 0 {
        x / 2
    } else {
        -((-x) / 2)
    }
}

/// An image fitted into `target_w × target_h` (a zero bound counts as one):
/// stretched to it; scaled to fit and centred on a transparent canvas of
/// that size; or scaled to cover it and cropped.
pub open spec fn fitted(src: RasterView, target_w: u32, target_h: u32, fit: ImageFit) -> RasterView {
    let w = at_least_one(target_w);
    let h = at_least_one(target_h);
    match fit {
        ImageFit::Stretch => lanczos_resized(src, w, h),
        ImageFit::Contain => {
            let r = lanczos_within(src, w, h);
            overlaid(
                transparent(w, h),
                r,
                half_toward_zero(target_w - r.width) as i64,
                half_toward_zero(target_h - r.height) as i64,
            )
        },
        ImageFit::Cover => lanczos_filled(src, w, h),
    }
}

/// An image `s` pixels long placed at offset `o` in a span of `t` pixels is
/// centred: the space before it and the space after it differ by at most
/// one pixel, the odd pixel going after it (or, when the image overhangs,
/// the overhang split the same way).
pub open spec fn centred_at(t: int, s: int, o: int) -> bool {
    let before = o;
    let after = t - s - o;
    if t >= s {
        0 <= after - before <= 1
    } else {
        0 <= before - after <= 1
    }
}

/// A contained image is centred on the widget: the result is the image
/// scaled to fit, overlaid on a transparent canvas of the widget's size at
/// offsets that leave equal space (to within a pixel) on both sides of
/// both axes.
pub proof fn lemma_contain_centres_the_image(src: RasterView, target_w: u32, target_h: u32)
    ensures
        ({
            let w = at_least_one(target_w);
            let h = at_least_one(target_h);
            let r = lanczos_within(src, w, h);
            exists|ox: i64, oy: i64|
                fitted(src, target_w, target_h, ImageFit::Contain) == overlaid(
                    transparent(w, h),
                    r,
                    ox,
                    oy,
                ) && centred_at(target_w as int, r.width as int, ox as int) && centred_at(
                    target_h as int,
                    r.height as int,
                    oy as int,
                )
        }),
{
    let w = at_least_one(target_w);
    let h = at_least_one(target_h);
    let r = lanczos_within(src, w, h);
    let dx = target_w - r.width;
    let dy = target_h - r.height;
    let ox = half_toward_zero(dx) as i64;
    let oy = half_toward_zero(dy) as i64;
    assert(ox as int == half_toward_zero(dx));
    assert(oy as int == half_toward_zero(dy));
    assert(centred_at(target_w as int, r.width as int, ox as int));
    assert(centred_at(target_h as int, r.height as int, oy as int));
    assert(fitted(src, target_w, target_h, ImageFit::Contain) == overlaid(
        transparent(w, h),
        r,
        ox,
        oy,
    ));
}

/// Fits an image into a widget of `target_w × target_h` pixels. Whatever
/// the fit, the result has the widget's size, a zero side counting as one.
pub fn fit_image(src: &Raster, target_w: u32, target_h: u32, fit: ImageFit) -> (r: Raster)
    requires
        well_formed(src@),
        src.width >= 1,
        src.height >= 1,
        at_least_one(target_w) * at_least_one(target_h) * 4 <= usize::MAX,
        fit == ImageFit::Contain ==> target_w <= i32::MAX && target_h <= i32::MAX,
        fit == ImageFit::Cover ==> cover_fits(
            src.width,
            src.height,
            at_least_one(target_w),
            at_least_one(target_h),
        ),
    ensures
        r@ == fitted(src@, target_w, target_h, fit),
        r.width == at_least_one(target_w),
        r.height == at_least_one(target_h),
{
    let w = if target_w >= 1 {
        target_w
    } else {
        1
    };
    let h = if target_h >= 1 {
        target_h
    } else {
        1
    };
    match fit {
        ImageFit::Stretch => resize_exact(src, w, h),
        ImageFit::Contain => {
            let resized = resize_within(src, w, h);
            let mut canvas = transparent_raster(w, h);
            let ox = (target_w as i64 - resized.width as i64) / 2;
            let oy = (target_h as i64 - resized.height as i64) / 2;
            overlay_onto(&mut canvas, &resized, ox, oy);
            canvas
        },
        ImageFit::Cover => resize_to_fill(src, w, h),
    }
}


/// Where text measuring `tw × th` (ink offset `ox`, `oy`) is drawn in a
/// `ww × wh` widget: aligned left, centred or right, and centred
/// vertically, with the ink offset taken off; nothing for empty ink.
pub open spec fn text_origin_of(
    align: TextAlign,
    ww: u32,
    wh: u32,
    tw: i32,
    th: i32,
    ox: i32,
    oy: i32,
) -> Option<(int, int)> {
    if tw <= 0 || th <= 0 {
        None
    } else {
        let x = match align {
            TextAlign::Left => 0,
            TextAlign::Center => half_toward_zero(ww - tw),
            TextAlign::Right => ww - tw,
        };
        Some((x - ox, half_toward_zero(wh - th) - oy))
    }
}

/// Places text in a widget from its measured size and ink offset.
pub fn text_origin(
    align: TextAlign,
    ww: u32,
    wh: u32,
    tw: i32,
    th: i32,
    ox: i32,
    oy: i32,
) -> (r: Option<(i32, i32)>)
    requires
        ww <= i32::MAX,
        wh <= i32::MAX,
        text_origin_of(align, ww, wh, tw, th, ox, oy) matches Some((x, y)) ==> i32::MIN <= x
            <= i32::MAX && i32::MIN <= y <= i32::MAX,
    ensures
        match text_origin_of(align, ww, wh, tw, th, ox, oy) {
            Some((x, y)) => r == Some((x as i32, y as i32)),
            None => r is None,
        },
{
    if tw <= 0 || th <= 0 {
        return None;
    }
    let w = ww as i32;
    let h = wh as i32;
    let x = match align {
        TextAlign::Left => 0,
        TextAlign::Center => (w - tw) / 2,
        TextAlign::Right => w - tw,
    };
    Some((x - ox, (h - th) / 2 - oy))
}

/// Declares `rusttype::Font`, so that a parsed font can pass through the
/// library.
#[verifier::external_type_specification]
#[verifier::external_body]
pub struct ExFont<'a>(rusttype::Font<'a>);

/// The data holds a font face that `rusttype` parses (face index 0).
pub uninterp spec fn font_data_parses(data: Seq<u8>) -> bool;

/// `rusttype::Font::try_from_vec`. The contract names whether the data
/// parses; nothing is stated of the font itself.
#[verifier::external_body]
fn parse_font(data: Vec<u8>) -> (r: Option<rusttype::Font<'static>>)
    ensures
        r is Some <==> font_data_parses(data@),
{
    rusttype::Font::try_from_vec(data)
}

/// The message for font data at `path` that does not parse.
pub open spec fn font_parse_error(path: Seq<char>) -> Seq<char> {
    "font '"@ + path + "' parse failed"@
}

/// The parsed font, or the message naming the file when it did not parse.
pub fn font_or_error(path: &str, parsed: Option<rusttype::Font<'static>>) -> (r: Result<
    rusttype::Font<'static>,
    String,
>)
    ensures
        r is Ok <==> parsed is Some,
        r matches Err(m) ==> m@ == font_parse_error(path@),
{
    match parsed {
        Some(font) => Ok(font),
        None => {
            let mut m = String::from_str("font '");
            m.append(path);
            m.append("' parse failed");
            Err(m)
        },
    }
}

/// Parses the font data read from `path`.
pub fn font_from_data(path: &str, data: Vec<u8>) -> (r: Result<rusttype::Font<'static>, String>)
    ensures
        r is Ok <==> font_data_parses(data@),
        r matches Err(m) ==> m@ == font_parse_error(path@),
{
    font_or_error(path, parse_font(data))
}

} // verus!
