use lcdd::config::{
    DashboardConfig, DashboardLayout, DashboardMetric, DashboardSlot, TemperatureUnit, TimeFormat,
};
use lcdd::dashboard::{
    overlay_slots, pick_cpu_sensor, resolve_screen, resolve_slots, row_height_for, screen_metrics,
    AcrylicFrameCache, DashboardMetrics, OffscreenPath,
};
use lcdd::format::{format_percent, format_temperature, format_temperature_with_degree_sign, format_time};
use lcdd::frame::{PreparedImage, RenderedFrame};
use lcdd::source::{AnimatedSource, FrameSource, RefreshKind, RefreshOutcome, SourceError};

fn slot(title: &str, subtitle: &str, metric: DashboardMetric) -> DashboardSlot {
    DashboardSlot {
        title: title.to_string(),
        subtitle: subtitle.to_string(),
        metric,
    }
}

fn rounded(value: f32) -> i32 {
    value.round() as i32
}

#[test]
fn dashboard_percent_formatting_rounds_to_integer() {
    assert_eq!(format_percent(Some(rounded(36.6))), "37%");
    assert_eq!(format_percent(None), "--");
}

#[test]
fn mod_percent_formatting_rounds_to_integer() {
    assert_eq!(format_percent(Some(rounded(36.6))), "37%");
    assert_eq!(format_percent(None), "--");
}

#[test]
fn dashboard_temperature_formatting_handles_missing_values() {
    assert_eq!(
        format_temperature_with_degree_sign(Some(rounded(61.2)), TemperatureUnit::Celsius),
        "61°C"
    );
    assert_eq!(format_temperature_with_degree_sign(None, TemperatureUnit::Celsius), "--");
}

#[test]
fn mod_temperature_formatting_handles_missing_values() {
    assert_eq!(
        format_temperature_with_degree_sign(Some(rounded(61.2)), TemperatureUnit::Celsius),
        "61°C"
    );
    assert_eq!(format_temperature_with_degree_sign(None, TemperatureUnit::Celsius), "--");
}

#[test]
fn dashboard_time_formatting_uses_24_hour_clock() {
    assert_eq!(format_time(6, 7, TimeFormat::TwentyFourHour), "06:07");
}

#[test]
fn mod_time_formatting_uses_24_hour_clock() {
    assert_eq!(format_time(6, 7, TimeFormat::TwentyFourHour), "06:07");
}

#[test]
fn formatting_helpers_handle_missing_values() {
    assert_eq!(format_percent(None), "--");
    assert_eq!(format_temperature(None, TemperatureUnit::Celsius), "--");
    assert_eq!(format_time(23, 5, TimeFormat::TwentyFourHour), "23:05");
}

#[test]
fn formatting_handles_negative_and_large_values() {
    assert_eq!(format_temperature(Some(-5), TemperatureUnit::Celsius), "-5C");
    assert_eq!(format_percent(Some(100)), "100%");
    assert_eq!(format_percent(Some(0)), "0%");
    assert_eq!(format_percent(Some(i32::MIN)), "-2147483648%");
    assert_eq!(format_time(0, 0, TimeFormat::TwentyFourHour), "00:00");
}

fn sample_metrics(dashboard: &DashboardConfig) -> DashboardMetrics {
    screen_metrics(
        Some(rounded(50.6)),
        Some(rounded(62.6)),
        Some(rounded(24.4)),
        9,
        7,
        dashboard,
    )
}

#[test]
fn resolve_slots_keeps_empty_dashboard_empty() {
    let dashboard = DashboardConfig::default();
    let slots = resolve_slots(&dashboard, &sample_metrics(&dashboard));
    assert!(slots.is_empty());
}

#[test]
fn resolve_slots_formats_metrics_from_dashboard_config() {
    let mut dashboard = DashboardConfig::default();
    dashboard.slots = vec![
        slot("CPU", "usage", DashboardMetric::CpuUsagePercent),
        slot("CPU", "temp", DashboardMetric::CpuTemperature),
        slot("MEM", "used", DashboardMetric::MemoryUsedPercent),
        slot("TIME", "local", DashboardMetric::Time),
    ];

    let slots = resolve_slots(&dashboard, &sample_metrics(&dashboard));

    assert_eq!(slots[0].value, "51%");
    assert_eq!(slots[1].value, "63C");
    assert_eq!(slots[2].value, "24%");
    assert_eq!(slots[3].value, "09:07");
    assert_eq!(slots[3].title, "TIME");
    assert_eq!(slots[3].subtitle, "local");
}

#[test]
fn dashboard_metrics_use_the_degree_sign() {
    let metrics = DashboardMetrics::from_readings(
        Some(12),
        Some(61),
        None,
        13,
        45,
        TemperatureUnit::Celsius,
        TimeFormat::TwentyFourHour,
    );
    assert_eq!(metrics.value_for(DashboardMetric::CpuUsagePercent), "12%");
    assert_eq!(metrics.value_for(DashboardMetric::CpuTemperature), "61°C");
    assert_eq!(metrics.value_for(DashboardMetric::MemoryUsedPercent), "--");
    assert_eq!(metrics.value_for(DashboardMetric::Time), "13:45");
}

#[test]
fn cpu_sensor_prefers_package_or_cpu_labels() {
    let labels = |list: &[&str]| list.iter().map(|s| s.to_string()).collect::<Vec<_>>();
    assert_eq!(pick_cpu_sensor(&labels(&["nvme", "Package id 0", "Core 0"])), Some(1));
    assert_eq!(pick_cpu_sensor(&labels(&["acpitz", "k10temp Tctl", "CPU"])), Some(2));
    assert_eq!(pick_cpu_sensor(&labels(&["acpitz", "nvme"])), Some(0));
    assert_eq!(pick_cpu_sensor(&labels(&[])), None);
}

#[test]
fn stacked_rows_split_what_the_margins_leave() {
    assert_eq!(row_height_for(320), 70);
    assert_eq!(row_height_for(38), 0);
    assert_eq!(row_height_for(0), 0);
    assert!(2 * 10 + 3 * 6 + 4 * row_height_for(320) <= 320);
    assert_eq!(DashboardLayout::default(), DashboardLayout::Stack);
}

#[test]
fn acrylic_cache_reuses_same_background_hash() {
    let background = RenderedFrame::new(2, 2, vec![1; 16]);
    let mut cache = AcrylicFrameCache::new();
    assert!(cache.lookup(42).is_none());
    cache.store(42, background.clone());
    assert_eq!(cache.lookup(42).unwrap().rgba(), background.rgba());
    assert!(cache.lookup(12).is_none());
    cache.store(12, RenderedFrame::new(1, 1, vec![0; 4]));
    assert!(cache.lookup(42).is_none());
    assert_eq!(cache.lookup(12).unwrap().width(), 1);
    assert_eq!(OffscreenPath::Surfaceless.as_str(), "surfaceless");
    assert_eq!(OffscreenPath::Pbuffer.as_str(), "pbuffer");
}

fn image(tag: u8) -> PreparedImage {
    PreparedImage::new(format!("frame-{tag}"), vec![0xff, 0xd8, tag, 0xff, 0xd9], vec![], 320, 320)
}

#[test]
fn animated_source_steps_through_frames_on_their_delays() {
    assert!(matches!(
        AnimatedSource::from_frames(vec![], vec![], 0),
        Err(SourceError::NoFrames)
    ));
    assert!(matches!(
        AnimatedSource::from_frames(vec![image(1)], vec![100, 200], 0),
        Err(SourceError::NoFrames)
    ));

    let mut source = AnimatedSource::from_frames(vec![image(1), image(2)], vec![100, 200], 1_000).unwrap();
    assert_eq!(source.delays(), &[100, 200]);
    assert_eq!(source.frame_count(), 2);
    let first = source.current().jpeg_bytes().to_vec();

    assert!(matches!(source.refresh_if_changed(1_050).unwrap(), RefreshOutcome::Unchanged));
    assert!(matches!(source.refresh_if_changed(1_100).unwrap(), RefreshOutcome::ContentUpdated));
    assert_ne!(source.current().jpeg_bytes(), first.as_slice());
    // The second frame stays for its own 200 ms, then the first comes back.
    assert_eq!(source.advance(1_299), RefreshKind::Unchanged);
    assert_eq!(source.advance(1_300), RefreshKind::ContentUpdated);
    assert_eq!(source.current_frame().jpeg_bytes(), first.as_slice());
}

#[test]
fn overlay_slots_show_dashes_without_readings() {
    let slots = vec![
        slot("CPU", "usage", DashboardMetric::CpuUsagePercent),
        slot("TIME", "local", DashboardMetric::Time),
    ];
    let shown = overlay_slots(&slots, None);
    assert_eq!(shown.len(), 2);
    assert_eq!(shown[0].value, "--");
    assert_eq!(shown[1].title, "TIME");
    assert_eq!(shown[1].value, "--");

    let mut dashboard = DashboardConfig::default();
    dashboard.slots = slots.clone();
    let metrics = sample_metrics(&dashboard);
    let shown = overlay_slots(&slots, Some(&metrics));
    assert_eq!(shown[0].value, "51%");
    assert_eq!(shown[1].value, "09:07");
}

#[test]
fn resolve_screen_keeps_the_background_and_the_slot_order() {
    let mut dashboard = DashboardConfig::default();
    dashboard.slots = vec![
        slot("MEM", "used", DashboardMetric::MemoryUsedPercent),
        slot("CPU", "temp", DashboardMetric::CpuTemperature),
    ];
    let metrics = sample_metrics(&dashboard);
    let screen = resolve_screen("/srv/bg.png".to_string(), &dashboard, &metrics);
    assert_eq!(screen.background_path, "/srv/bg.png");
    assert_eq!(screen.slots.len(), 2);
    assert_eq!(screen.slots[0].value, "24%");
    assert_eq!(screen.slots[1].value, "63C");
}
