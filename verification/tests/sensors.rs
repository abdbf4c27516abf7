use lianli::sensors::{
    enumerate_sensors, ListedSensor, TempSample,
};
use lianli::sensors::{
    gpu_sensor_from_line, gpu_sensors, hwmon_sensors, label_file_name, resolve_sensor,
    scan_hwmon_entries, sensor_query, sensor_reading_text, temp_input_prefix, GpuSensor,
    HwmonDevice, HwmonFile, ResolvedSensor, SensorQuery, SensorReadError, TempSource,
};

fn input(name: &str, dir: &str, label: Option<&str>) -> HwmonFile {
    HwmonFile {
        file_name: name.to_string(),
        path: format!("{dir}/{name}"),
        label_text: label.map(|l| l.to_string()),
    }
}

fn device(name: Option<&str>, link: Option<&str>, files: Vec<HwmonFile>) -> HwmonDevice {
    HwmonDevice {
        name_text: name.map(|n| n.to_string()),
        device: link.map(|l| l.to_string()),
        files,
    }
}

fn sample_devices() -> Vec<HwmonDevice> {
    vec![
        device(
            Some("k10temp\n"),
            Some("0000:00:18.3"),
            vec![
                input("temp1_input", "/h0", Some("Tctl\n")),
                input("temp1_label", "/h0", None),
                input("temp3_input", "/h0", None),
                input("name", "/h0", None),
            ],
        ),
        device(
            Some("nvme"),
            Some("nvme0"),
            vec![input("temp1_input", "/h1", Some("Composite"))],
        ),
        device(
            Some("nvme"),
            Some("nvme1"),
            vec![input("temp1_input", "/h2", Some("Composite"))],
        ),
    ]
}

#[test]
fn temp_input_prefixes() {
    assert_eq!(temp_input_prefix("temp1_input").as_deref(), Some("temp1"));
    assert_eq!(temp_input_prefix("temp12_input").as_deref(), Some("temp12"));
    assert_eq!(temp_input_prefix("temp_input").as_deref(), Some("temp"));
    assert_eq!(temp_input_prefix("temp1_label"), None);
    assert_eq!(temp_input_prefix("in0_input"), None);
    assert_eq!(temp_input_prefix("temp"), None);
    assert_eq!(label_file_name("temp1"), "temp1_label");
}

#[test]
fn scan_collects_temperature_inputs_in_order() {
    let entries = scan_hwmon_entries(&sample_devices());
    let seen: Vec<(&str, &str, &str)> = entries
        .iter()
        .map(|e| (e.name.as_str(), e.label.as_str(), e.sysfs_path.as_str()))
        .collect();
    assert_eq!(
        seen,
        vec![
            ("k10temp", "Tctl", "/h0/temp1_input"),
            ("k10temp", "temp3", "/h0/temp3_input"),
            ("nvme", "Composite", "/h1/temp1_input"),
            ("nvme", "Composite", "/h2/temp1_input"),
        ]
    );
}

#[test]
fn scan_skips_devices_whose_name_is_unreadable() {
    let devs = vec![
        device(None, None, vec![input("temp1_input", "/h0", None)]),
        device(Some("acpitz"), None, vec![input("temp1_input", "/h1", None)]),
    ];
    let sensors = hwmon_sensors(&devs);
    assert_eq!(sensors.len(), 1);
    assert_eq!(sensors[0].display_name, "acpitz / temp1");
}

#[test]
fn listing_adds_device_path_only_on_collision() {
    let sensors = hwmon_sensors(&sample_devices());
    let names: Vec<&str> = sensors.iter().map(|s| s.display_name.as_str()).collect();
    assert_eq!(
        names,
        vec![
            "k10temp / Tctl",
            "k10temp / temp3",
            "nvme / Composite (nvme0)",
            "nvme / Composite (nvme1)",
        ]
    );
    assert_eq!(
        sensors[0].source,
        TempSource::Hwmon { name: "k10temp".into(), label: "Tctl".into(), device_path: None }
    );
    assert_eq!(
        sensors[3].source,
        TempSource::Hwmon {
            name: "nvme".into(),
            label: "Composite".into(),
            device_path: Some("nvme1".into())
        }
    );
}

#[test]
fn collision_without_device_link_shows_question_mark() {
    let devs = vec![
        device(Some("a"), None, vec![input("temp1_input", "/h0", Some("x"))]),
        device(Some("a"), None, vec![input("temp1_input", "/h1", Some("x"))]),
    ];
    let sensors = hwmon_sensors(&devs);
    assert_eq!(sensors[0].display_name, "a / x (?)");
    assert_eq!(
        sensors[1].source,
        TempSource::Hwmon { name: "a".into(), label: "x".into(), device_path: None }
    );
}

#[test]
fn listed_sensors_resolve_to_their_files() {
    let devs = sample_devices();
    for s in hwmon_sensors(&devs) {
        assert_eq!(resolve_sensor(&s.source, &devs), Some(ResolvedSensor::SysfsFile(s.sysfs_path)));
    }
}

#[test]
fn resolve_needs_matching_device_link() {
    let devs = sample_devices();
    let src = TempSource::Hwmon {
        name: "nvme".into(),
        label: "Composite".into(),
        device_path: Some("nvme7".into()),
    };
    assert_eq!(resolve_sensor(&src, &devs), None);
    let src = TempSource::Hwmon { name: "nvme".into(), label: "Composite".into(), device_path: None };
    assert_eq!(
        resolve_sensor(&src, &devs),
        Some(ResolvedSensor::SysfsFile("/h1/temp1_input".into()))
    );
}

#[test]
fn resolve_stops_at_unreadable_device_name() {
    let devs = vec![
        device(None, None, vec![]),
        device(Some("acpitz"), None, vec![input("temp1_input", "/h1", None)]),
    ];
    let src = TempSource::Hwmon { name: "acpitz".into(), label: "temp1".into(), device_path: None };
    assert_eq!(resolve_sensor(&src, &devs), None);
    let devs = vec![
        device(Some("acpitz"), None, vec![input("temp1_input", "/h1", None)]),
        device(None, None, vec![]),
    ];
    assert_eq!(
        resolve_sensor(&src, &devs),
        Some(ResolvedSensor::SysfsFile("/h1/temp1_input".into()))
    );
}

#[test]
fn resolve_unknown_label_gives_none() {
    let src = TempSource::Hwmon { name: "k10temp".into(), label: "Tdie".into(), device_path: None };
    assert_eq!(resolve_sensor(&src, &sample_devices()), None);
    assert_eq!(resolve_sensor(&src, &[]), None);
}

#[test]
fn resolve_gpu_and_command_need_no_scan() {
    assert_eq!(
        resolve_sensor(&TempSource::NvidiaGpu { gpu_index: 2 }, &[]),
        Some(ResolvedSensor::NvidiaGpu(2))
    );
    assert_eq!(
        resolve_sensor(&TempSource::Command { cmd: "echo 42".into() }, &[]),
        Some(ResolvedSensor::ShellCommand("echo 42".into()))
    );
}

#[test]
fn gpu_lines_are_parsed() {
    let out = "0, NVIDIA GeForce RTX 3080, 45\n1,  Quadro , 51\r\nbroken line\n";
    let gpus = gpu_sensors(out);
    assert_eq!(
        gpus,
        vec![
            GpuSensor {
                gpu_index: 0,
                display_name: "NVIDIA GeForce RTX 3080 (GPU)".into(),
                temp_text: "45".into()
            },
            GpuSensor { gpu_index: 1, display_name: "Quadro (GPU)".into(), temp_text: "51".into() },
        ]
    );
}

#[test]
fn gpu_line_details() {
    let g = gpu_sensor_from_line("x, Card, 40, extra").unwrap();
    assert_eq!((g.gpu_index, g.display_name.as_str(), g.temp_text.as_str()), (0, "Card (GPU)", "40"));
    let g = gpu_sensor_from_line("+7, Card, [N/A]").unwrap();
    assert_eq!((g.gpu_index, g.temp_text.as_str()), (7, "[N/A]"));
    let g = gpu_sensor_from_line("4294967296, Card, 1").unwrap();
    assert_eq!(g.gpu_index, 0);
    assert!(gpu_sensor_from_line("0, Card").is_none());
    assert!(gpu_sensor_from_line("").is_none());
}

#[test]
fn sensor_queries() {
    assert_eq!(
        sensor_query(&ResolvedSensor::SysfsFile("/h0/temp1_input".into())),
        SensorQuery::ReadFile { path: "/h0/temp1_input".into() }
    );
    assert_eq!(
        sensor_query(&ResolvedSensor::NvidiaGpu(3)),
        SensorQuery::Run {
            program: "nvidia-smi".into(),
            args: vec![
                "--query-gpu=temperature.gpu".into(),
                "--format=csv,noheader,nounits".into(),
                "-i".into(),
                "3".into()
            ]
        }
    );
    assert_eq!(
        sensor_query(&ResolvedSensor::ShellCommand("cat /tmp/t".into())),
        SensorQuery::Run { program: "sh".into(), args: vec!["-c".into(), "cat /tmp/t".into()] }
    );
}

#[test]
fn reading_texts() {
    let file = ResolvedSensor::SysfsFile("/f".into());
    assert_eq!(sensor_reading_text(&file, true, " 42000\n"), Ok("42000".to_string()));
    let gpu = ResolvedSensor::NvidiaGpu(0);
    assert_eq!(sensor_reading_text(&gpu, true, "61\n"), Ok("61".to_string()));
    assert_eq!(sensor_reading_text(&gpu, false, "61\n"), Err(SensorReadError::NvidiaSmiFailed));
    let cmd = ResolvedSensor::ShellCommand("x".into());
    assert_eq!(sensor_reading_text(&cmd, true, "  38.5 C\nmore"), Ok("38.5".to_string()));
    assert_eq!(sensor_reading_text(&cmd, true, " \n\t"), Err(SensorReadError::EmptyOutput));
    assert_eq!(sensor_reading_text(&cmd, false, "38"), Err(SensorReadError::CommandFailed));
}

#[test]
fn sensors_sharing_name_and_label_resolve_by_device_link() {
    let devs = vec![
        device(Some("drivetemp"), Some("0:0:0:0"), vec![input("temp1_input", "/h0", None)]),
        device(Some("drivetemp"), Some("1:0:0:0"), vec![input("temp1_input", "/h1", None)]),
        device(Some("drivetemp"), Some("2:0:0:0"), vec![input("temp1_input", "/h2", None)]),
    ];
    let sensors = hwmon_sensors(&devs);
    assert_eq!(sensors.len(), 3);
    let paths: Vec<String> = sensors.iter().map(|s| s.sysfs_path.clone()).collect();
    assert_eq!(paths, vec!["/h0/temp1_input", "/h1/temp1_input", "/h2/temp1_input"]);
    for s in sensors {
        assert_eq!(resolve_sensor(&s.source, &devs), Some(ResolvedSensor::SysfsFile(s.sysfs_path)));
    }
}

#[test]
fn enumeration_lists_hwmon_inputs_then_gpus() {
    let devs = sample_devices();
    let listed: Vec<ListedSensor> = enumerate_sensors(&devs, Some("0, RTX 4090, 45\nbad line\n1, A100, 50\n"));
    let names: Vec<&str> = listed.iter().map(|s| s.display_name.as_str()).collect();
    assert_eq!(
        names,
        vec![
            "k10temp / Tctl",
            "k10temp / temp3",
            "nvme / Composite (nvme0)",
            "nvme / Composite (nvme1)",
            "RTX 4090 (GPU)",
            "A100 (GPU)",
        ]
    );
    assert_eq!(listed[0].sample, TempSample::SysfsFile("/h0/temp1_input".into()));
    assert_eq!(listed[4].source, TempSource::NvidiaGpu { gpu_index: 0 });
    assert_eq!(listed[5].source, TempSource::NvidiaGpu { gpu_index: 1 });
    assert_eq!(listed[5].sample, TempSample::GpuText("50".into()));
}

#[test]
fn enumeration_without_gpu_query_lists_hwmon_only() {
    let listed = enumerate_sensors(&sample_devices(), None);
    assert_eq!(listed.len(), 4);
    assert!(listed.iter().all(|s| matches!(s.sample, TempSample::SysfsFile(_))));
}
