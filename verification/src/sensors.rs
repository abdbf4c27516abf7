//! Temperature sensors: where a reading comes from, how a configured source
//! is found again among the hwmon devices, and what a reading's text is.
//!
//! The scan of `/sys/class/hwmon` and the commands that are run stay with the
//! caller; this module takes what they found as plain values.
use crate::text::{
    decimal_string, decimal_text, first_word, has_prefix, has_suffix, parse_decimal,
    parse_unsigned, split_once, str_equal, str_first_word, str_lines, str_split_once, str_trim,
    strip_prefix, strip_suffix, text_lines, trimmed,
};
use vstd::prelude::*;

verus! {

/// A configured temperature source.
#[derive(Debug, PartialEq, Eq, Hash)]
pub enum TempSource {
    /// A `temp*_input` file of a hwmon device, found by the device's name
    /// and the sensor's label; `device_path` tells apart devices that share
    /// a name and a label.
    Hwmon { name: String, label: String, device_path: Option<String> },
    /// A GPU queried with `nvidia-smi`.
    NvidiaGpu { gpu_index: u32 },
    /// A shell command that prints the temperature.
    Command { cmd: String },
}

/// `Option<String>` by the view of its content.
pub open spec fn opt_view(o: Option<String>) -> Option<Seq<char>> {
    match o {
        Some(s) => Some(s@),
        None => None,
    }
}

/// Clones an optional string.
pub fn clone_opt_string(o: &Option<String>) -> (r: Option<String>)
    ensures
        r == *o,
{
    match o {
        Some(s) => Some(s.clone()),
        None => None,
    }
}

impl Clone for TempSource {
    fn clone(&self) -> (r: Self)
        ensures
            r == *self,
    {
        match self {
            TempSource::Hwmon { name, label, device_path } => TempSource::Hwmon {
                name: name.clone(),
                label: label.clone(),
                device_path: clone_opt_string(device_path),
            },
            TempSource::NvidiaGpu { gpu_index } => TempSource::NvidiaGpu { gpu_index: *gpu_index },
            TempSource::Command { cmd } => TempSource::Command { cmd: cmd.clone() },
        }
    }
}

/// Where a configured source is read from.
#[derive(Debug, PartialEq, Eq)]
pub enum ResolvedSensor {
    /// A sysfs file holding millidegrees Celsius.
    SysfsFile(String),
    /// The GPU with this index, queried with `nvidia-smi`.
    NvidiaGpu(u32),
    /// A shell command.
    ShellCommand(String),
}

impl Clone for ResolvedSensor {
    fn clone(&self) -> (r: Self)
        ensures
            r == *self,
    {
        match self {
            ResolvedSensor::SysfsFile(p) => ResolvedSensor::SysfsFile(p.clone()),
            ResolvedSensor::NvidiaGpu(i) => ResolvedSensor::NvidiaGpu(*i),
            ResolvedSensor::ShellCommand(c) => ResolvedSensor::ShellCommand(c.clone()),
        }
    }
}


/// A file of a hwmon device directory, as the scan found it.
#[derive(Debug)]
pub struct HwmonFile {
    /// The file's name, e.g. `temp1_input`.
    pub file_name: String,
    /// The file's path.
    pub path: String,
    /// Contents of the sensor's `temp*_label` file, when it could be read.
    pub label_text: Option<String>,
}

/// A hwmon device directory (`/sys/class/hwmon/hwmon*`), as the scan found it.
#[derive(Debug)]
pub struct HwmonDevice {
    /// Contents of the device's `name` file; `None` when it could not be read.
    pub name_text: Option<String>,
    /// File name of the target of the device's `device` link, if any.
    pub device: Option<String>,
    /// The files of the directory, in the order the scan listed them.
    pub files: Vec<HwmonFile>,
}

/// For a `temp*_input` file name, the part before `_input` (e.g. `temp1`).
pub open spec fn input_prefix(file_name: Seq<char>) -> Option<Seq<char>> {
    if has_prefix(file_name, "temp"@) && has_suffix(file_name, "_input"@) {
        Some(file_name.subrange(0, file_name.len() - "_input"@.len()))
    } else {
        None
    }
}

/// The sensor prefix of a `temp*_input` file name (`temp1` of
/// `temp1_input`); `None` for any other file.
pub fn temp_input_prefix(file_name: &str) -> (r: Option<String>)
    ensures
        opt_view(r) == input_prefix(file_name@),
{
    match strip_prefix(file_name, "temp") {
        None => None,
        Some(_) => strip_suffix(file_name, "_input"),
    }
}

/// Name of the file that holds the label of the sensor with this prefix.
pub fn label_file_name(prefix: &str) -> (r: String)
    ensures
        r@ == prefix@ + "_label"@,
{
    let mut r = String::from_str(prefix);
    r.append("_label");
    r
}

/// The label of the sensor that a file is the input of: the trimmed text of
/// its label file, or its prefix when that could not be read; `None` for a
/// file that is not a `temp*_input` file.
pub open spec fn sensor_label(f: HwmonFile) -> Option<Seq<char>> {
    match input_prefix(f.file_name@) {
        None => None,
        Some(prefix) => Some(
            match f.label_text {
                Some(t) => trimmed(t@),
                None => prefix,
            },
        ),
    }
}

/// The label of the sensor that `f` is the input of, if it is one.
pub fn file_sensor_label(f: &HwmonFile) -> (r: Option<String>)
    ensures
        opt_view(r) == sensor_label(*f),
{
    match temp_input_prefix(f.file_name.as_str()) {
        None => None,
        Some(prefix) => match &f.label_text {
            Some(t) => Some(str_trim(t.as_str())),
            None => Some(prefix),
        },
    }
}

/// One temperature input found by the scan.
pub struct HwmonEntryView {
    pub name: Seq<char>,
    pub label: Seq<char>,
    pub device_path: Option<Seq<char>>,
    pub sysfs_path: Seq<char>,
}

/// One temperature input found by the scan: its device's name, its label,
/// its device link, and its path.
#[derive(Debug)]
pub struct RawHwmonEntry {
    pub name: String,
    pub label: String,
    pub device_path: Option<String>,
    pub sysfs_path: String,
}

impl View for RawHwmonEntry {
    type V = HwmonEntryView;

    open spec fn view(&self) -> HwmonEntryView {
        HwmonEntryView {
            name: self.name@,
            label: self.label@,
            device_path: opt_view(self.device_path),
            sysfs_path: self.sysfs_path@,
        }
    }
}

/// The temperature inputs among `files` of a device with this name and link.
pub open spec fn device_entries(
    name: Seq<char>,
    device: Option<Seq<char>>,
    files: Seq<HwmonFile>,
) -> Seq<HwmonEntryView>
    decreases files.len(),
{
    if files.len() == 0 {
        Seq::empty()
    } else {
        let prev = device_entries(name, device, files.drop_last());
        match sensor_label(files.last()) {
            Some(label) => prev.push(
                HwmonEntryView { name, label, device_path: device, sysfs_path: files.last().path@ },
            ),
            None => prev,
        }
    }
}

/// The temperature inputs of the devices, in scan order; a device whose
/// name could not be read is skipped.
pub open spec fn scan_entries(devs: Seq<HwmonDevice>) -> Seq<HwmonEntryView>
    decreases devs.len(),
{
    if devs.len() == 0 {
        Seq::empty()
    } else {
        let d = devs.last();
        scan_entries(devs.drop_last()) + match d.name_text {
            Some(t) => device_entries(trimmed(t@), opt_view(d.device), d.files@),
            None => Seq::empty(),
        }
    }
}

/// The views of a list of entries.
pub open spec fn entry_views(es: Seq<RawHwmonEntry>) -> Seq<HwmonEntryView> {
    es.map_values(|e: RawHwmonEntry| e@)
}

/// Collects the temperature inputs of the devices.
pub fn scan_hwmon_entries(devs: &[HwmonDevice]) -> (r: Vec<RawHwmonEntry>)
    ensures
        entry_views(r@) == scan_entries(devs@),
{
    let mut out: Vec<RawHwmonEntry> = Vec::new();
    let n = devs.len();
    let mut i: usize = 0;
    while i < n
        invariant
            n == devs@.len(),
            i <= n,
            entry_views(out@) == scan_entries(devs@.take(i as int)),
        decreases n - i,
    {
        let d = &devs[i];
        assert(devs@.take(i + 1).drop_last() =~= devs@.take(i as int));
        assert(devs@.take(i + 1).last() == *d);
        match &d.name_text {
            None => {
                assert(scan_entries(devs@.take(i + 1)) =~= scan_entries(devs@.take(i as int)));
            },
            Some(t) => {
                let name = str_trim(t.as_str());
                let ghost before = entry_views(out@);
                let m = d.files.len();
                let mut j: usize = 0;
                while j < m
                    invariant
                        m == d.files@.len(),
                        j <= m,
                        name@ == trimmed(t@),
                        entry_views(out@) == before + device_entries(
                            name@,
                            opt_view(d.device),
                            d.files@.take(j as int),
                        ),
                    decreases m - j,
                {
                    let f = &d.files[j];
                    assert(d.files@.take(j + 1).drop_last() =~= d.files@.take(j as int));
                    assert(d.files@.take(j + 1).last() == *f);
                    let ghost prev = entry_views(out@);
                    match file_sensor_label(f) {
                        Some(label) => {
                            out.push(
                                RawHwmonEntry {
                                    name: name.clone(),
                                    label,
                                    device_path: clone_opt_string(&d.device),
                                    sysfs_path: f.path.clone(),
                                },
                            );
                            assert(entry_views(out@) =~= prev.push(out@.last()@));
                        },
                        None => {},
                    }
                    j = j + 1;
                }
                assert(d.files@.take(m as int) =~= d.files@);
            },
        }
        i = i + 1;
    }
    assert(devs@.take(n as int) =~= devs@);
    out
}


/// How many of the entries have this device name and label.
pub open spec fn count_named(es: Seq<HwmonEntryView>, name: Seq<char>, label: Seq<char>) -> nat
    decreases es.len(),
{
    if es.len() == 0 {
        0
    } else {
        count_named(es.drop_last(), name, label) + if es.last().name == name && es.last().label
            == label {
            1nat
        } else {
            0nat
        }
    }
}

/// Entry `k` shares its device name and label with another entry, so its
/// device link is needed to tell them apart.
pub open spec fn has_collision(es: Seq<HwmonEntryView>, k: int) -> bool {
    count_named(es, es[k].name, es[k].label) > 1
}

/// The name a listed hwmon sensor is shown under: `name / label`, and on a
/// collision the device link (or `?`) in parentheses.
pub open spec fn hwmon_display_name(e: HwmonEntryView, collision: bool) -> Seq<char> {
    if collision {
        e.name + " / "@ + e.label + " ("@ + match e.device_path {
            Some(d) => d,
            None => "?"@,
        } + ")"@
    } else {
        e.name + " / "@ + e.label
    }
}

/// The device link recorded in the source of a listed entry: only on a
/// collision.
pub open spec fn listed_device_path(es: Seq<HwmonEntryView>, k: int) -> Option<Seq<char>> {
    if has_collision(es, k) {
        es[k].device_path
    } else {
        None
    }
}

/// A hwmon sensor found by the scan.
#[derive(Debug)]
pub struct HwmonSensor {
    pub source: TempSource,
    pub display_name: String,
    /// The `temp*_input` file to read.
    pub sysfs_path: String,
}

/// `s` lists the entry at index `k` of `es`.
pub open spec fn lists_entry(s: HwmonSensor, es: Seq<HwmonEntryView>, k: int) -> bool {
    &&& s.source matches TempSource::Hwmon { name, label, device_path } && name@ == es[k].name
        && label@ == es[k].label && opt_view(device_path) == listed_device_path(es, k)
    &&& s.display_name@ == hwmon_display_name(es[k], has_collision(es, k))
    &&& s.sysfs_path@ == es[k].sysfs_path
}

fn count_named_exec(es: &Vec<RawHwmonEntry>, name: &String, label: &String) -> (r: usize)
    ensures
        r == count_named(entry_views(es@), name@, label@),
{
    let n = es.len();
    let mut c: usize = 0;
    let mut j: usize = 0;
    while j < n
        invariant
            n == es@.len(),
            j <= n,
            c <= j,
            c == count_named(entry_views(es@).take(j as int), name@, label@),
        decreases n - j,
    {
        let ghost v = entry_views(es@);
        assert(v.take(j + 1).drop_last() =~= v.take(j as int));
        assert(v.take(j + 1).last() == es@[j as int]@);
        if str_equal(es[j].name.as_str(), name.as_str()) && str_equal(
            es[j].label.as_str(),
            label.as_str(),
        ) {
            c = c + 1;
        }
        j = j + 1;
    }
    assert(entry_views(es@).take(n as int) =~= entry_views(es@));
    c
}

fn hwmon_display_string(e: &RawHwmonEntry, collision: bool) -> (r: String)
    ensures
        r@ == hwmon_display_name(e@, collision),
{
    let mut r = e.name.clone();
    r.append(" / ");
    r.append(e.label.as_str());
    if collision {
        r.append(" (");
        match &e.device_path {
            Some(d) => r.append(d.as_str()),
            None => r.append("?"),
        }
        r.append(")");
    }
    r
}

/// The hwmon sensors that the scan found, in scan order. A sensor whose
/// device name and label are shared with another one records its device
/// link, and shows it in its display name.
pub fn hwmon_sensors(devs: &[HwmonDevice]) -> (r: Vec<HwmonSensor>)
    ensures
        r@.len() == scan_entries(devs@).len(),
        forall|k: int| 0 <= k < r@.len() ==> lists_entry(#[trigger] r@[k], scan_entries(devs@), k),
{
    let entries = scan_hwmon_entries(devs);
    let ghost es = entry_views(entries@);
    let n = entries.len();
    let mut out: Vec<HwmonSensor> = Vec::new();
    let mut k: usize = 0;
    while k < n
        invariant
            n == entries@.len(),
            es == entry_views(entries@),
            es == scan_entries(devs@),
            k <= n,
            out@.len() == k,
            forall|i: int| 0 <= i < k ==> lists_entry(#[trigger] out@[i], es, i),
        decreases n - k,
    {
        let e = &entries[k];
        assert(es[k as int] == e@);
        let collision = count_named_exec(&entries, &e.name, &e.label) > 1;
        let device_path = if collision {
            clone_opt_string(&e.device_path)
        } else {
            None
        };
        out.push(
            HwmonSensor {
                source: TempSource::Hwmon {
                    name: e.name.clone(),
                    label: e.label.clone(),
                    device_path,
                },
                display_name: hwmon_display_string(e, collision),
                sysfs_path: e.sysfs_path.clone(),
            },
        );
        k = k + 1;
    }
    out
}


/// The path of the first of `files` that is the input of a sensor with
/// this label.
pub open spec fn first_file_with_label(files: Seq<HwmonFile>, label: Seq<char>) -> Option<
    Seq<char>,
>
    decreases files.len(),
{
    if files.len() == 0 {
        None
    } else if sensor_label(files[0]) == Some(label) {
        Some(files[0].path@)
    } else {
        first_file_with_label(files.drop_first(), label)
    }
}

/// A device whose (trimmed) name is `name` and, when a device link is
/// asked for, whose link is that one.
pub open spec fn device_fits(
    d: HwmonDevice,
    name_text: Seq<char>,
    name: Seq<char>,
    device_path: Option<Seq<char>>,
) -> bool {
    &&& trimmed(name_text) == name
    &&& device_path matches Some(p) ==> opt_view(d.device) == Some(p)
}

/// The file that a hwmon source resolves to: devices are searched in scan
/// order; a device whose name could not be read ends the search with no
/// result; in the first fitting device that has a sensor with the label,
/// the first such sensor's input file.
pub open spec fn resolve_hwmon(
    devs: Seq<HwmonDevice>,
    name: Seq<char>,
    label: Seq<char>,
    device_path: Option<Seq<char>>,
) -> Option<Seq<char>>
    decreases devs.len(),
{
    if devs.len() == 0 {
        None
    } else {
        match devs[0].name_text {
            None => None,
            Some(t) => if device_fits(devs[0], t@, name, device_path) {
                match first_file_with_label(devs[0].files@, label) {
                    Some(p) => Some(p),
                    None => resolve_hwmon(devs.drop_first(), name, label, device_path),
                }
            } else {
                resolve_hwmon(devs.drop_first(), name, label, device_path)
            },
        }
    }
}

/// What a configured source resolves to, by view: a hwmon source to the
/// file `resolve_hwmon` finds (or nothing), a GPU to itself, a command to
/// itself.
pub open spec fn resolves_to(
    source: TempSource,
    devs: Seq<HwmonDevice>,
    r: Option<ResolvedSensor>,
) -> bool {
    match source {
        TempSource::Hwmon { name, label, device_path } => match resolve_hwmon(
            devs,
            name@,
            label@,
            opt_view(device_path),
        ) {
            Some(p) => r matches Some(ResolvedSensor::SysfsFile(f)) && f@ == p,
            None => r is None,
        },
        TempSource::NvidiaGpu { gpu_index } => r == Some(ResolvedSensor::NvidiaGpu(gpu_index)),
        TempSource::Command { cmd } => r == Some(ResolvedSensor::ShellCommand(cmd)),
    }
}

fn find_file_with_label(files: &Vec<HwmonFile>, label: &String) -> (r: Option<String>)
    ensures
        opt_view(r) == first_file_with_label(files@, label@),
{
    let n = files.len();
    let mut j: usize = 0;
    assert(files@.skip(0) =~= files@);
    while j < n
        invariant
            n == files@.len(),
            j <= n,
            first_file_with_label(files@, label@) == first_file_with_label(
                files@.skip(j as int),
                label@,
            ),
        decreases n - j,
    {
        assert(files@.skip(j as int)[0] == files@[j as int]);
        assert(files@.skip(j as int).drop_first() =~= files@.skip(j + 1));
        match file_sensor_label(&files[j]) {
            Some(l) => {
                if str_equal(l.as_str(), label.as_str()) {
                    return Some(files[j].path.clone());
                }
            },
            None => {},
        }
        j = j + 1;
    }
    None
}

/// Finds where a configured source is read from, among the hwmon devices
/// that the scan found.
pub fn resolve_sensor(source: &TempSource, devs: &[HwmonDevice]) -> (r: Option<ResolvedSensor>)
    ensures
        resolves_to(*source, devs@, r),
{
    match source {
        TempSource::Hwmon { name, label, device_path } => {
            let n = devs.len();
            let mut i: usize = 0;
            assert(devs@.skip(0) =~= devs@);
            while i < n
                invariant
                    n == devs@.len(),
                    i <= n,
                    *source == (TempSource::Hwmon {
                        name: *name,
                        label: *label,
                        device_path: *device_path,
                    }),
                    resolve_hwmon(devs@, name@, label@, opt_view(*device_path)) == resolve_hwmon(
                        devs@.skip(i as int),
                        name@,
                        label@,
                        opt_view(*device_path),
                    ),
                decreases n - i,
            {
                let d = &devs[i];
                assert(devs@.skip(i as int)[0] == *d);
                assert(devs@.skip(i as int).drop_first() =~= devs@.skip(i + 1));
                match &d.name_text {
                    None => {
                        return None;
                    },
                    Some(t) => {
                        let hw_name = str_trim(t.as_str());
                        let name_fits = str_equal(hw_name.as_str(), name.as_str());
                        let link_fits = match device_path {
                            Some(dp) => match &d.device {
                                Some(actual) => str_equal(actual.as_str(), dp.as_str()),
                                None => false,
                            },
                            None => true,
                        };
                        if name_fits && link_fits {
                            match find_file_with_label(&d.files, label) {
                                Some(p) => {
                                    return Some(ResolvedSensor::SysfsFile(p));
                                },
                                None => {},
                            }
                        }
                    },
                }
                i = i + 1;
            }
            None
        },
        TempSource::NvidiaGpu { gpu_index } => Some(ResolvedSensor::NvidiaGpu(*gpu_index)),
        TempSource::Command { cmd } => Some(ResolvedSensor::ShellCommand(cmd.clone())),
    }
}


/// An entry that a hwmon source with this name, label and (optional)
/// device link asks for.
pub open spec fn entry_fits(
    e: HwmonEntryView,
    name: Seq<char>,
    label: Seq<char>,
    device_path: Option<Seq<char>>,
) -> bool {
    &&& e.name == name
    &&& e.label == label
    &&& device_path matches Some(p) ==> e.device_path == Some(p)
}

/// The path of the first entry that fits.
pub open spec fn first_fitting_entry(
    es: Seq<HwmonEntryView>,
    name: Seq<char>,
    label: Seq<char>,
    device_path: Option<Seq<char>>,
) -> Option<Seq<char>>
    decreases es.len(),
{
    if es.len() == 0 {
        None
    } else if entry_fits(es[0], name, label, device_path) {
        Some(es[0].sysfs_path)
    } else {
        first_fitting_entry(es.drop_first(), name, label, device_path)
    }
}

proof fn lemma_first_fitting_entry_concat(
    a: Seq<HwmonEntryView>,
    b: Seq<HwmonEntryView>,
    name: Seq<char>,
    label: Seq<char>,
    dp: Option<Seq<char>>,
)
    ensures
        first_fitting_entry(a + b, name, label, dp) == match first_fitting_entry(
            a,
            name,
            label,
            dp,
        ) {
            Some(p) => Some(p),
            None => first_fitting_entry(b, name, label, dp),
        },
    decreases a.len(),
{
    if a.len() == 0 {
        assert(a + b =~= b);
    } else {
        assert((a + b)[0] == a[0]);
        assert((a + b).drop_first() =~= a.drop_first() + b);
        lemma_first_fitting_entry_concat(a.drop_first(), b, name, label, dp);
    }
}

proof fn lemma_device_entries_concat(
    n: Seq<char>,
    d: Option<Seq<char>>,
    a: Seq<HwmonFile>,
    b: Seq<HwmonFile>,
)
    ensures
        device_entries(n, d, a + b) == device_entries(n, d, a) + device_entries(n, d, b),
    decreases b.len(),
{
    if b.len() == 0 {
        assert(a + b =~= a);
        assert(device_entries(n, d, a) + device_entries(n, d, b) =~= device_entries(n, d, a));
    } else {
        assert((a + b).drop_last() =~= a + b.drop_last());
        assert((a + b).last() == b.last());
        lemma_device_entries_concat(n, d, a, b.drop_last());
        let ea = device_entries(n, d, a);
        let eb = device_entries(n, d, b.drop_last());
        match sensor_label(b.last()) {
            Some(l) => {
                let x = HwmonEntryView {
                    name: n,
                    label: l,
                    device_path: d,
                    sysfs_path: b.last().path@,
                };
                assert((ea + eb).push(x) =~= ea + eb.push(x));
            },
            None => {},
        }
    }
}

proof fn lemma_scan_entries_concat(a: Seq<HwmonDevice>, b: Seq<HwmonDevice>)
    ensures
        scan_entries(a + b) == scan_entries(a) + scan_entries(b),
    decreases b.len(),
{
    if b.len() == 0 {
        assert(a + b =~= a);
        assert(scan_entries(a) + scan_entries(b) =~= scan_entries(a));
    } else {
        assert((a + b).drop_last() =~= a + b.drop_last());
        assert((a + b).last() == b.last());
        lemma_scan_entries_concat(a, b.drop_last());
        let d = b.last();
        let tail = match d.name_text {
            Some(t) => device_entries(trimmed(t@), opt_view(d.device), d.files@),
            None => Seq::empty(),
        };
        assert(scan_entries(a) + scan_entries(b.drop_last()) + tail =~= scan_entries(a) + (
        scan_entries(b.drop_last()) + tail));
    }
}

proof fn lemma_device_entries_search(
    n: Seq<char>,
    d: Option<Seq<char>>,
    files: Seq<HwmonFile>,
    name: Seq<char>,
    label: Seq<char>,
    dp: Option<Seq<char>>,
)
    ensures
        first_fitting_entry(device_entries(n, d, files), name, label, dp) == if n == name && (
        dp matches Some(p) ==> d == Some(p)) {
            first_file_with_label(files, label)
        } else {
            None
        },
    decreases files.len(),
{
    if files.len() > 0 {
        let f0 = files[0];
        let rest = files.drop_first();
        assert(files =~= seq![f0] + rest);
        lemma_device_entries_concat(n, d, seq![f0], rest);
        assert(seq![f0].drop_last() =~= Seq::<HwmonFile>::empty());
        assert(seq![f0].last() == f0);
        assert(device_entries(n, d, Seq::<HwmonFile>::empty()) == Seq::<HwmonEntryView>::empty());
        let head = device_entries(n, d, seq![f0]);
        lemma_first_fitting_entry_concat(head, device_entries(n, d, rest), name, label, dp);
        lemma_device_entries_search(n, d, rest, name, label, dp);
        assert(first_fitting_entry(Seq::<HwmonEntryView>::empty(), name, label, dp) is None);
        match sensor_label(f0) {
            Some(l) => {
                assert(head.len() == 1);
                assert(head[0].label == l);
                assert(head.drop_first() =~= Seq::<HwmonEntryView>::empty());
            },
            None => {
                assert(head =~= Seq::<HwmonEntryView>::empty());
            },
        }
    }
}

proof fn lemma_resolve_is_first_fitting_entry(
    devs: Seq<HwmonDevice>,
    name: Seq<char>,
    label: Seq<char>,
    dp: Option<Seq<char>>,
)
    requires
        forall|i: int| 0 <= i < devs.len() ==> (#[trigger] devs[i]).name_text is Some,
    ensures
        resolve_hwmon(devs, name, label, dp) == first_fitting_entry(
            scan_entries(devs),
            name,
            label,
            dp,
        ),
    decreases devs.len(),
{
    if devs.len() > 0 {
        let d = devs[0];
        let rest = devs.drop_first();
        assert(devs =~= seq![d] + rest);
        lemma_scan_entries_concat(seq![d], rest);
        assert(seq![d].drop_last() =~= Seq::<HwmonDevice>::empty());
        assert(forall|i: int| 0 <= i < rest.len() ==> rest[i] == devs[i + 1]);
        lemma_resolve_is_first_fitting_entry(rest, name, label, dp);
        let t = d.name_text->0;
        assert(d.name_text is Some);
        let head = device_entries(trimmed(t@), opt_view(d.device), d.files@);
        assert(seq![d].last() == d);
        assert(scan_entries(Seq::<HwmonDevice>::empty()) == Seq::<HwmonEntryView>::empty());
        assert(scan_entries(seq![d]) =~= head);
        lemma_first_fitting_entry_concat(head, scan_entries(rest), name, label, dp);
        lemma_device_entries_search(trimmed(t@), opt_view(d.device), d.files@, name, label, dp);
    }
}

proof fn lemma_first_fitting_entry_found(
    es: Seq<HwmonEntryView>,
    k: int,
    name: Seq<char>,
    label: Seq<char>,
    dp: Option<Seq<char>>,
)
    requires
        0 <= k < es.len(),
        entry_fits(es[k], name, label, dp),
    ensures
        exists|j: int|
            0 <= j <= k && entry_fits(#[trigger] es[j], name, label, dp) && first_fitting_entry(
                es,
                name,
                label,
                dp,
            ) == Some(es[j].sysfs_path),
    decreases k,
{
    if entry_fits(es[0], name, label, dp) {
        assert(entry_fits(es[0], name, label, dp));
    } else {
        let rest = es.drop_first();
        assert(rest[k - 1] == es[k]);
        lemma_first_fitting_entry_found(rest, k - 1, name, label, dp);
        let j = choose|j: int|
            0 <= j <= k - 1 && entry_fits(#[trigger] rest[j], name, label, dp)
                && first_fitting_entry(rest, name, label, dp) == Some(rest[j].sysfs_path);
        assert(rest[j] == es[j + 1]);
        assert(entry_fits(es[j + 1], name, label, dp));
    }
}

proof fn lemma_count_named_at_least_one(es: Seq<HwmonEntryView>, j: int)
    requires
        0 <= j < es.len(),
    ensures
        count_named(es, es[j].name, es[j].label) >= 1,
    decreases es.len(),
{
    if j < es.len() - 1 {
        assert(es.drop_last()[j] == es[j]);
        lemma_count_named_at_least_one(es.drop_last(), j);
    }
}

proof fn lemma_count_named_at_least_two(es: Seq<HwmonEntryView>, j: int, k: int)
    requires
        0 <= j < es.len(),
        0 <= k < es.len(),
        j != k,
        es[j].name == es[k].name,
        es[j].label == es[k].label,
    ensures
        count_named(es, es[k].name, es[k].label) >= 2,
    decreases es.len(),
{
    let last = es.len() - 1;
    if k == last {
        assert(es.drop_last()[j] == es[j]);
        lemma_count_named_at_least_one(es.drop_last(), j);
    } else if j == last {
        assert(es.drop_last()[k] == es[k]);
        lemma_count_named_at_least_one(es.drop_last(), k);
    } else {
        assert(es.drop_last()[j] == es[j]);
        assert(es.drop_last()[k] == es[k]);
        lemma_count_named_at_least_two(es.drop_last(), j, k);
    }
}

/// A sensor that the scan lists is found again by `resolve_sensor` on the
/// same devices (when every device name could be read): its source resolves
/// to the input file of a listed sensor with the same name and label, at
/// its own position or before; and a sensor whose name and label are unique
/// resolves to its own input file.
pub proof fn lemma_listed_sensor_resolves(devs: Seq<HwmonDevice>, k: int)
    requires
        forall|i: int| 0 <= i < devs.len() ==> (#[trigger] devs[i]).name_text is Some,
        0 <= k < scan_entries(devs).len(),
    ensures
        ({
            let es = scan_entries(devs);
            let found = resolve_hwmon(devs, es[k].name, es[k].label, listed_device_path(es, k));
            &&& exists|j: int|
                0 <= j <= k && (#[trigger] es[j]).name == es[k].name && es[j].label == es[k].label
                    && found == Some(es[j].sysfs_path)
            &&& !has_collision(es, k) ==> found == Some(es[k].sysfs_path)
        }),
{
    let es = scan_entries(devs);
    let name = es[k].name;
    let label = es[k].label;
    let dp = listed_device_path(es, k);
    lemma_resolve_is_first_fitting_entry(devs, name, label, dp);
    assert(entry_fits(es[k], name, label, dp));
    lemma_first_fitting_entry_found(es, k, name, label, dp);
    let j = choose|j: int|
        0 <= j <= k && entry_fits(#[trigger] es[j], name, label, dp) && first_fitting_entry(
            es,
            name,
            label,
            dp,
        ) == Some(es[j].sysfs_path);
    if !has_collision(es, k) && j != k {
        lemma_count_named_at_least_two(es, j, k);
    }
}


proof fn lemma_count_named_only_at(es: Seq<HwmonEntryView>, name: Seq<char>, label: Seq<char>, k: int)
    requires
        forall|j: int|
            0 <= j < es.len() && j != k ==> !((#[trigger] es[j]).name == name && es[j].label
                == label),
    ensures
        count_named(es, name, label) <= 1,
        !(0 <= k < es.len()) ==> count_named(es, name, label) == 0,
    decreases es.len(),
{
    if es.len() > 0 {
        let t = es.drop_last();
        assert forall|j: int|
            0 <= j < t.len() && j != k implies !((#[trigger] t[j]).name == name && t[j].label
            == label) by {
            assert(t[j] == es[j]);
        }
        if k == es.len() - 1 {
            lemma_count_named_only_at(t, name, label, -1);
        } else {
            lemma_count_named_only_at(t, name, label, k);
            assert(!(es[es.len() - 1].name == name && es[es.len() - 1].label == label));
        }
    }
}

/// A listed hwmon sensor counts as a collision, and so records its device
/// link and shows it in its name, exactly when another listed entry has
/// both its device name and its label; entries that share only a label,
/// or only a name, never collide.
pub proof fn lemma_collision_iff_shared_name_and_label(es: Seq<HwmonEntryView>, k: int)
    requires
        0 <= k < es.len(),
    ensures
        has_collision(es, k) <==> exists|j: int|
            0 <= j < es.len() && j != k && (#[trigger] es[j]).name == es[k].name && es[j].label
                == es[k].label,
        listed_device_path(es, k) == if has_collision(es, k) {
            es[k].device_path
        } else {
            None
        },
        hwmon_display_name(es[k], has_collision(es, k)) == if has_collision(es, k) {
            es[k].name + " / "@ + es[k].label + " ("@ + match es[k].device_path {
                Some(d) => d,
                None => "?"@,
            } + ")"@
        } else {
            es[k].name + " / "@ + es[k].label
        },
{
    if exists|j: int|
        0 <= j < es.len() && j != k && (#[trigger] es[j]).name == es[k].name && es[j].label
            == es[k].label {
        let j = choose|j: int|
            0 <= j < es.len() && j != k && (#[trigger] es[j]).name == es[k].name && es[j].label
                == es[k].label;
        lemma_count_named_at_least_two(es, j, k);
    } else {
        lemma_count_named_only_at(es, es[k].name, es[k].label, k);
    }
}

/// Entries that share a device name and label are told apart by their
/// device links: each has one, and no two are the same.
pub open spec fn told_apart(es: Seq<HwmonEntryView>) -> bool {
    forall|i: int, j: int|
        #![trigger es[i], es[j]]
        0 <= i < es.len() && 0 <= j < es.len() && i != j && es[i].name == es[j].name
            && es[i].label == es[j].label ==> es[i].device_path is Some && es[i].device_path
            != es[j].device_path
}

/// Every sensor that the scan lists resolves back to its own input file on
/// the same devices, when every device name could be read and sensors that
/// share a name and label are told apart by their device links.
pub proof fn lemma_listed_sensor_resolves_to_itself(devs: Seq<HwmonDevice>, k: int)
    requires
        forall|i: int| 0 <= i < devs.len() ==> (#[trigger] devs[i]).name_text is Some,
        told_apart(scan_entries(devs)),
        0 <= k < scan_entries(devs).len(),
    ensures
        ({
            let es = scan_entries(devs);
            resolve_hwmon(devs, es[k].name, es[k].label, listed_device_path(es, k)) == Some(
                es[k].sysfs_path,
            )
        }),
{
    let es = scan_entries(devs);
    let name = es[k].name;
    let label = es[k].label;
    let dp = listed_device_path(es, k);
    lemma_resolve_is_first_fitting_entry(devs, name, label, dp);
    assert(entry_fits(es[k], name, label, dp));
    lemma_first_fitting_entry_found(es, k, name, label, dp);
    let j = choose|j: int|
        0 <= j <= k && entry_fits(#[trigger] es[j], name, label, dp) && first_fitting_entry(
            es,
            name,
            label,
            dp,
        ) == Some(es[j].sysfs_path);
    if j != k {
        lemma_count_named_at_least_two(es, j, k);
        assert(es[k].device_path is Some && es[k].device_path != es[j].device_path);
    }
}


/// A GPU listed by `nvidia-smi --query-gpu=index,name,temperature.gpu
/// --format=csv,noheader,nounits`.
#[derive(Debug, PartialEq, Eq)]
pub struct GpuSensor {
    pub gpu_index: u32,
    pub display_name: String,
    /// The temperature field, trimmed, for the caller to parse.
    pub temp_text: String,
}

/// The first three fields of `line.split(", ")`, when it has that many.
pub open spec fn gpu_fields(line: Seq<char>) -> Option<(Seq<char>, Seq<char>, Seq<char>)> {
    match split_once(line, ", "@) {
        None => None,
        Some((f0, rest)) => match split_once(rest, ", "@) {
            None => None,
            Some((f1, rest2)) => Some(
                (
                    f0,
                    f1,
                    match split_once(rest2, ", "@) {
                        Some((f2, _)) => f2,
                        None => rest2,
                    },
                ),
            ),
        },
    }
}

/// The GPU that a line of `nvidia-smi` output lists: the index (0 when it
/// does not parse), the name shown as `<name> (GPU)`, and the temperature
/// text; `None` for a line with fewer than three fields.
pub open spec fn gpu_of_line(line: Seq<char>) -> Option<(u32, Seq<char>, Seq<char>)> {
    match gpu_fields(line) {
        None => None,
        Some((f0, f1, f2)) => Some(
            (
                match parse_unsigned(trimmed(f0), u32::MAX as nat) {
                    Some(v) => v as u32,
                    None => 0u32,
                },
                trimmed(f1) + " (GPU)"@,
                trimmed(f2),
            ),
        ),
    }
}

/// The GPUs that the lines list, in order.
pub open spec fn gpus_of_lines(lines: Seq<Seq<char>>) -> Seq<(u32, Seq<char>, Seq<char>)>
    decreases lines.len(),
{
    if lines.len() == 0 {
        Seq::empty()
    } else {
        let prev = gpus_of_lines(lines.drop_last());
        match gpu_of_line(lines.last()) {
            Some(g) => prev.push(g),
            None => prev,
        }
    }
}

/// The GPU that one line of `nvidia-smi` output lists.
pub fn gpu_sensor_from_line(line: &str) -> (r: Option<GpuSensor>)
    ensures
        r is Some <==> gpu_of_line(line@) is Some,
        r matches Some(g) ==> gpu_of_line(line@) == Some(
            (g.gpu_index, g.display_name@, g.temp_text@),
        ),
{
    let (f0, rest) = match str_split_once(line, ", ") {
        Some(p) => p,
        None => {
            return None;
        },
    };
    let (f1, rest2) = match str_split_once(rest.as_str(), ", ") {
        Some(p) => p,
        None => {
            return None;
        },
    };
    let f2 = match str_split_once(rest2.as_str(), ", ") {
        Some((f, _)) => f,
        None => rest2,
    };
    let index_text = str_trim(f0.as_str());
    let gpu_index: u32 = match parse_decimal(index_text.as_str(), 0xffff_ffff) {
        Some(v) => v as u32,
        None => 0,
    };
    let mut display_name = str_trim(f1.as_str());
    display_name.append(" (GPU)");
    Some(GpuSensor { gpu_index, display_name, temp_text: str_trim(f2.as_str()) })
}

/// The GPUs that the output of a successful `nvidia-smi` query lists.
pub fn gpu_sensors(stdout: &str) -> (r: Vec<GpuSensor>)
    ensures
        r@.len() == gpus_of_lines(text_lines(stdout@)).len(),
        forall|k: int|
            0 <= k < r@.len() ==> gpus_of_lines(text_lines(stdout@))[k] == (
                (#[trigger] r@[k]).gpu_index,
                r@[k].display_name@,
                r@[k].temp_text@,
            ),
{
    let lines = str_lines(stdout);
    let ghost ls = text_lines(stdout@);
    let n = lines.len();
    let mut out: Vec<GpuSensor> = Vec::new();
    let mut i: usize = 0;
    while i < n
        invariant
            n == lines@.len(),
            n == ls.len(),
            ls == text_lines(stdout@),
            forall|j: int| 0 <= j < n ==> #[trigger] lines@[j]@ == ls[j],
            i <= n,
            out@.len() == gpus_of_lines(ls.take(i as int)).len(),
            forall|k: int|
                0 <= k < out@.len() ==> gpus_of_lines(ls.take(i as int))[k] == (
                    (#[trigger] out@[k]).gpu_index,
                    out@[k].display_name@,
                    out@[k].temp_text@,
                ),
        decreases n - i,
    {
        assert(ls.take(i + 1).drop_last() =~= ls.take(i as int));
        assert(ls.take(i + 1).last() == lines@[i as int]@);
        match gpu_sensor_from_line(lines[i].as_str()) {
            Some(g) => {
                out.push(g);
            },
            None => {},
        }
        i = i + 1;
    }
    assert(ls.take(n as int) =~= ls);
    out
}

/// Where the current temperature of a listed sensor is taken from.
#[derive(Debug, PartialEq, Eq)]
pub enum TempSample {
    /// A sysfs `temp*_input` file holding millidegrees Celsius.
    SysfsFile(String),
    /// The temperature field of the GPU's `nvidia-smi` line.
    GpuText(String),
}

/// A sensor on offer: the source to configure, the name it is shown
/// under, and where its current temperature is taken from.
#[derive(Debug)]
pub struct ListedSensor {
    pub source: TempSource,
    pub display_name: String,
    pub sample: TempSample,
}

/// `s` lists the hwmon entry at index `k` of `es`.
pub open spec fn lists_hwmon(s: ListedSensor, es: Seq<HwmonEntryView>, k: int) -> bool {
    &&& s.source matches TempSource::Hwmon { name, label, device_path } && name@ == es[k].name
        && label@ == es[k].label && opt_view(device_path) == listed_device_path(es, k)
    &&& s.display_name@ == hwmon_display_name(es[k], has_collision(es, k))
    &&& s.sample matches TempSample::SysfsFile(p) && p@ == es[k].sysfs_path
}

/// `s` lists the GPU `g` (index, shown name, temperature text).
pub open spec fn lists_gpu(s: ListedSensor, g: (u32, Seq<char>, Seq<char>)) -> bool {
    &&& s.source == TempSource::NvidiaGpu { gpu_index: g.0 }
    &&& s.display_name@ == g.1
    &&& s.sample matches TempSample::GpuText(t) && t@ == g.2
}

/// The GPUs that a successful `nvidia-smi` query printed; none without one.
pub open spec fn listed_gpus(gpu_stdout: Option<Seq<char>>) -> Seq<(u32, Seq<char>, Seq<char>)> {
    match gpu_stdout {
        Some(t) => gpus_of_lines(text_lines(t)),
        None => Seq::empty(),
    }
}

/// The view of an optional text.
pub open spec fn opt_str_view(o: Option<&str>) -> Option<Seq<char>> {
    match o {
        Some(t) => Some(t@),
        None => None,
    }
}

/// The sensors on offer: the hwmon temperature inputs of the devices in
/// scan order, then the GPUs that a successful `nvidia-smi` query printed
/// (`None` when the query could not run or failed).
pub fn enumerate_sensors(devs: &[HwmonDevice], gpu_stdout: Option<&str>) -> (r: Vec<ListedSensor>)
    ensures
        ({
            let es = scan_entries(devs@);
            let gs = listed_gpus(opt_str_view(gpu_stdout));
            &&& r@.len() == es.len() + gs.len()
            &&& forall|k: int| 0 <= k < es.len() ==> lists_hwmon(#[trigger] r@[k], es, k)
            &&& forall|k: int| 0 <= k < gs.len() ==> lists_gpu(#[trigger] r@[es.len() + k], gs[k])
        }),
{
    let ghost es = scan_entries(devs@);
    let hw = hwmon_sensors(devs);
    let n = hw.len();
    let mut out: Vec<ListedSensor> = Vec::new();
    let mut i: usize = 0;
    while i < n
        invariant
            n == hw@.len(),
            n == es.len(),
            es == scan_entries(devs@),
            forall|k: int| 0 <= k < n ==> lists_entry(#[trigger] hw@[k], es, k),
            i <= n,
            out@.len() == i,
            forall|k: int| 0 <= k < i ==> lists_hwmon(#[trigger] out@[k], es, k),
        decreases n - i,
    {
        let s = &hw[i];
        assert(lists_entry(hw@[i as int], es, i as int));
        out.push(
            ListedSensor {
                source: s.source.clone(),
                display_name: s.display_name.clone(),
                sample: TempSample::SysfsFile(s.sysfs_path.clone()),
            },
        );
        assert(lists_hwmon(out@[i as int], es, i as int));
        i = i + 1;
    }
    let ghost gs = listed_gpus(opt_str_view(gpu_stdout));
    match gpu_stdout {
        None => {},
        Some(text) => {
            let gpus = gpu_sensors(text);
            let m = gpus.len();
            let mut j: usize = 0;
            while j < m
                invariant
                    m == gpus@.len(),
                    m == gs.len(),
                    gs == gpus_of_lines(text_lines(text@)),
                    forall|k: int|
                        0 <= k < m ==> gs[k] == (
                            (#[trigger] gpus@[k]).gpu_index,
                            gpus@[k].display_name@,
                            gpus@[k].temp_text@,
                        ),
                    n == es.len(),
                    j <= m,
                    out@.len() == n + j,
                    forall|k: int| 0 <= k < n ==> lists_hwmon(#[trigger] out@[k], es, k),
                    forall|k: int| 0 <= k < j ==> lists_gpu(#[trigger] out@[n + k], gs[k]),
                decreases m - j,
            {
                let g = &gpus[j];
                assert(gs[j as int] == (g.gpu_index, g.display_name@, g.temp_text@));
                out.push(
                    ListedSensor {
                        source: TempSource::NvidiaGpu { gpu_index: g.gpu_index },
                        display_name: g.display_name.clone(),
                        sample: TempSample::GpuText(g.temp_text.clone()),
                    },
                );
                assert(lists_gpu(out@[n + j], gs[j as int]));
                j = j + 1;
            }
        },
    }
    out
}

/// What reading a resolved sensor takes: a file to read, or a program to
/// run with its arguments.
#[derive(Debug, PartialEq, Eq)]
pub enum SensorQuery {
    ReadFile { path: String },
    Run { program: String, args: Vec<String> },
}

/// The views of a list of strings.
pub open spec fn string_views(v: Seq<String>) -> Seq<Seq<char>> {
    v.map_values(|s: String| s@)
}

/// The query for a resolved sensor: read the sysfs file; run
/// `nvidia-smi --query-gpu=temperature.gpu --format=csv,noheader,nounits -i
/// <index>`; run `sh -c <command>`.
pub open spec fn is_query_for(resolved: ResolvedSensor, q: SensorQuery) -> bool {
    match resolved {
        ResolvedSensor::SysfsFile(p) => q == (SensorQuery::ReadFile { path: p }),
        ResolvedSensor::NvidiaGpu(i) => q matches SensorQuery::Run { program, args } && program@
            == "nvidia-smi"@ && string_views(args@) == seq![
            "--query-gpu=temperature.gpu"@,
            "--format=csv,noheader,nounits"@,
            "-i"@,
            decimal_text(i as nat),
        ],
        ResolvedSensor::ShellCommand(c) => q matches SensorQuery::Run { program, args } && program@
            == "sh"@ && string_views(args@) == seq!["-c"@, c@],
    }
}

/// What to do to read a resolved sensor.
pub fn sensor_query(resolved: &ResolvedSensor) -> (r: SensorQuery)
    ensures
        is_query_for(*resolved, r),
{
    match resolved {
        ResolvedSensor::SysfsFile(p) => SensorQuery::ReadFile { path: p.clone() },
        ResolvedSensor::NvidiaGpu(i) => {
            let mut args: Vec<String> = Vec::new();
            args.push(String::from_str("--query-gpu=temperature.gpu"));
            args.push(String::from_str("--format=csv,noheader,nounits"));
            args.push(String::from_str("-i"));
            args.push(decimal_string(*i as u64));
            let r = SensorQuery::Run { program: String::from_str("nvidia-smi"), args };
            assert(string_views(args@) =~= seq![
                "--query-gpu=temperature.gpu"@,
                "--format=csv,noheader,nounits"@,
                "-i"@,
                decimal_text(*i as nat),
            ]);
            r
        },
        ResolvedSensor::ShellCommand(c) => {
            let mut args: Vec<String> = Vec::new();
            args.push(String::from_str("-c"));
            args.push(c.clone());
            let r = SensorQuery::Run { program: String::from_str("sh"), args };
            assert(string_views(args@) =~= seq!["-c"@, c@]);
            r
        },
    }
}

/// Why a query's output holds no reading.
#[derive(Debug, PartialEq, Eq, Clone, Copy)]
pub enum SensorReadError {
    /// `nvidia-smi` did not exit successfully.
    NvidiaSmiFailed,
    /// The shell command did not exit successfully.
    CommandFailed,
    /// The shell command printed nothing but white space.
    EmptyOutput,
}

/// The text of the reading that a query's output holds: the trimmed file
/// contents; the trimmed output of a successful `nvidia-smi`; the first
/// word printed by a successful command.
pub open spec fn reading_of(resolved: ResolvedSensor, succeeded: bool, output: Seq<char>) -> Result<
    Seq<char>,
    SensorReadError,
> {
    match resolved {
        ResolvedSensor::SysfsFile(_) => Ok(trimmed(output)),
        ResolvedSensor::NvidiaGpu(_) => if succeeded {
            Ok(trimmed(output))
        } else {
            Err(SensorReadError::NvidiaSmiFailed)
        },
        ResolvedSensor::ShellCommand(_) => if !succeeded {
            Err(SensorReadError::CommandFailed)
        } else {
            match first_word(output) {
                Some(w) => Ok(w),
                None => Err(SensorReadError::EmptyOutput),
            }
        },
    }
}

/// The text to parse as the temperature, from what the query gave: the
/// file's contents, or whether the program exited successfully and what it
/// printed.
pub fn sensor_reading_text(resolved: &ResolvedSensor, succeeded: bool, output: &str) -> (r: Result<
    String,
    SensorReadError,
>)
    ensures
        r matches Ok(t) ==> reading_of(*resolved, succeeded, output@) == Ok::<
            Seq<char>,
            SensorReadError,
        >(t@),
        r matches Err(e) ==> reading_of(*resolved, succeeded, output@) == Err::<
            Seq<char>,
            SensorReadError,
        >(e),
{
    match resolved {
        ResolvedSensor::SysfsFile(_) => Ok(str_trim(output)),
        ResolvedSensor::NvidiaGpu(_) => {
            if succeeded {
                Ok(str_trim(output))
            } else {
                Err(SensorReadError::NvidiaSmiFailed)
            }
        },
        ResolvedSensor::ShellCommand(_) => {
            if !succeeded {
                Err(SensorReadError::CommandFailed)
            } else {
                match str_first_word(output) {
                    Some(w) => Ok(w),
                    None => Err(SensorReadError::EmptyOutput),
                }
            }
        },
    }
}

} // verus!
