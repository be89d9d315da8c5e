use config::{Config, File, FileFormat};
use lcdd::config::{
    base_dir_mode, config_file_candidates, default_config_path, explicit_config_path, export_args,
    load_config, resolve_base_dir, resolve_path_from_base, AppConfig,
    BaseDir, ConfigError, DashboardConfig, DashboardLayout, DashboardMetric, DashboardSlot,
    DeviceConfig, LevelFilter, LogLevel, LoggingConfig, ProtocolConfig, RefreshConfig,
    SourceConfig, TemperatureUnit, TimeFormat,
};

fn slot(title: &str, subtitle: &str, metric: DashboardMetric) -> DashboardSlot {
    DashboardSlot {
        title: title.to_string(),
        subtitle: subtitle.to_string(),
        metric,
    }
}

fn dashboard_with(slots: Vec<DashboardSlot>) -> DashboardConfig {
    DashboardConfig {
        render_interval_ms: 1000,
        layout: DashboardLayout::Stack,
        time_format: TimeFormat::TwentyFourHour,
        temperature_unit: TemperatureUnit::Celsius,
        font_path: None,
        font_family: None,
        debug_output_path: None,
        slots,
    }
}

fn parse_toml(text: &str) -> Config {
    Config::builder()
        .add_source(File::from_str(text, FileFormat::Toml))
        .build()
        .unwrap()
}

#[test]
fn source_rotation_defaults_to_zero_degrees() {
    let source = SourceConfig {
        path: "image.png".to_string(),
        rotate_degrees: 0,
    };
    assert_eq!(source.rotation().unwrap().degrees(), 0);
}

#[test]
fn source_rotation_accepts_supported_angles() {
    for degrees in [0u16, 90, 180, 270] {
        let source = SourceConfig {
            path: "image.png".to_string(),
            rotate_degrees: degrees,
        };
        assert_eq!(source.rotation().unwrap().degrees(), degrees);
    }
}

#[test]
fn source_rotation_rejects_invalid_angles() {
    let source = SourceConfig {
        path: "image.png".to_string(),
        rotate_degrees: 45,
    };
    assert!(source.rotation().is_err());
    assert_eq!(source.rotation(), Err(ConfigError::InvalidRotation { degrees: 45 }));
}

#[test]
fn logging_config_defaults_to_info_with_color() {
    let logging = LoggingConfig::default();

    assert_eq!(logging.level.into_level_filter(), LevelFilter::Info);
    assert!(logging.color);
}

#[test]
fn log_level_deserializes_standard_values() {
    let parsed = parse_toml("level = \"debug\"\ncolor = false\n");
    let level = LogLevel::parse(&parsed.get_string("level").unwrap()).unwrap();
    let color = parsed.get_bool("color").unwrap();

    assert_eq!(level.into_level_filter(), LevelFilter::Debug);
    assert!(!color);
}

#[test]
fn log_level_rejects_invalid_values() {
    let parsed = parse_toml("level = \"verbose\"\n");
    let level = LogLevel::parse(&parsed.get_string("level").unwrap());

    assert!(level.is_err());
}

#[test]
fn log_level_names_are_trimmed_and_case_insensitive() {
    assert_eq!(LogLevel::parse(" TRACE ").unwrap().into_level_filter(), LevelFilter::Trace);
    assert_eq!(LogLevel::parse("Off").unwrap().into_level_filter(), LevelFilter::Off);
    assert_eq!(LogLevel::parse("warn").unwrap().into_level_filter(), LevelFilter::Warn);
    assert_eq!(LogLevel::parse("error").unwrap().into_level_filter(), LevelFilter::Error);
    assert_eq!(LogLevel::parse("warning"), Err(ConfigError::UnsupportedLogLevel));
    assert_eq!(LogLevel::from(LevelFilter::Debug).into_level_filter(), LevelFilter::Debug);
}

#[test]
fn dashboard_defaults_to_empty_slot_list() {
    let dashboard = DashboardConfig::default();

    assert_eq!(dashboard.render_interval_ms, 1000);
    assert_eq!(dashboard.layout, DashboardLayout::Stack);
    assert_eq!(dashboard.time_format, TimeFormat::TwentyFourHour);
    assert_eq!(dashboard.temperature_unit, TemperatureUnit::Celsius);
    assert_eq!(dashboard.font_path, None);
    assert_eq!(dashboard.font_family, None);
    assert_eq!(dashboard.debug_output_path, None);
    assert!(dashboard.slots.is_empty());
    assert!(dashboard.validate().is_ok());
}

#[test]
fn dashboard_accepts_zero_slots() {
    let dashboard = dashboard_with(Vec::new());

    assert!(dashboard.validate().is_ok());
}

#[test]
fn dashboard_accepts_partial_slot_list() {
    let dashboard = dashboard_with(vec![
        slot("CPU", "usage", DashboardMetric::CpuUsagePercent),
        slot("CPU", "temp", DashboardMetric::CpuTemperature),
        slot("MEM", "used", DashboardMetric::MemoryUsedPercent),
    ]);

    assert!(dashboard.validate().is_ok());
}

#[test]
fn dashboard_rejects_more_than_four_slots() {
    let dashboard = dashboard_with(vec![
        slot("CPU", "usage", DashboardMetric::CpuUsagePercent),
        slot("CPU", "temp", DashboardMetric::CpuTemperature),
        slot("MEM", "used", DashboardMetric::MemoryUsedPercent),
        slot("TIME", "local", DashboardMetric::Time),
        slot("CPU", "usage", DashboardMetric::CpuUsagePercent),
    ]);

    assert!(dashboard.validate().is_err());
    assert_eq!(
        dashboard.validate(),
        Err(ConfigError::TooManySlots { layout: DashboardLayout::Stack, count: 5 })
    );
}

#[test]
fn dashboard_accepts_supported_configuration() {
    let dashboard = dashboard_with(vec![
        slot("CPU", "usage", DashboardMetric::CpuUsagePercent),
        slot("CPU", "temp", DashboardMetric::CpuTemperature),
        slot("MEM", "used", DashboardMetric::MemoryUsedPercent),
        slot("TIME", "local", DashboardMetric::Time),
    ]);

    assert!(dashboard.validate().is_ok());
}

#[test]
fn dashboard_accepts_font_family() {
    let mut dashboard = dashboard_with(vec![slot("CPU", "usage", DashboardMetric::CpuUsagePercent)]);
    dashboard.font_family = Some("Noto Sans".to_string());

    assert!(dashboard.validate().is_ok());
}

#[test]
fn dashboard_accepts_font_path() {
    let mut dashboard = dashboard_with(vec![slot("CPU", "usage", DashboardMetric::CpuUsagePercent)]);
    dashboard.font_path = Some("/tmp/font.ttf".to_string());

    assert!(dashboard.validate().is_ok());
}

#[test]
fn dashboard_rejects_empty_font_family() {
    let mut dashboard = dashboard_with(vec![slot("CPU", "usage", DashboardMetric::CpuUsagePercent)]);
    dashboard.font_family = Some("   ".to_string());

    assert!(dashboard.validate().is_err());
    assert_eq!(dashboard.validate(), Err(ConfigError::EmptyFontFamily));
}

#[test]
fn dashboard_accepts_debug_output_path() {
    let mut dashboard = dashboard_with(vec![slot("CPU", "usage", DashboardMetric::CpuUsagePercent)]);
    dashboard.debug_output_path = Some("/tmp/dashboard-debug.png".to_string());

    assert!(dashboard.validate().is_ok());
}

#[test]
fn dashboard_accepts_grid_2x2_layout() {
    let parsed = parse_toml(
        r#"
[source]
path = "/tmp/image.jpg"

[dashboard]
layout = "grid_2x2"
"#,
    );
    let layout = DashboardLayout::from_config_name(&parsed.get_string("dashboard.layout").unwrap());

    assert_eq!(layout, Ok(DashboardLayout::Grid2x2));
}

#[test]
fn dashboard_rejects_invalid_layout() {
    let parsed = parse_toml(
        r#"
[source]
path = "/tmp/image.jpg"

[dashboard]
layout = "masonry"
"#,
    );
    let layout = DashboardLayout::from_config_name(&parsed.get_string("dashboard.layout").unwrap());

    assert!(layout.is_err());
}

#[test]
fn dashboard_grid_2x2_accepts_partial_slot_list() {
    let mut dashboard = dashboard_with(vec![
        slot("CPU", "usage", DashboardMetric::CpuUsagePercent),
        slot("TIME", "local", DashboardMetric::Time),
        slot("MEM", "used", DashboardMetric::MemoryUsedPercent),
    ]);
    dashboard.layout = DashboardLayout::Grid2x2;

    assert!(dashboard.validate().is_ok());
}

#[test]
fn dashboard_reports_the_first_blank_slot_and_a_zero_interval() {
    let mut dashboard = dashboard_with(vec![
        slot("CPU", "usage", DashboardMetric::CpuUsagePercent),
        slot("MEM", " \t", DashboardMetric::MemoryUsedPercent),
        slot("", "local", DashboardMetric::Time),
    ]);
    assert_eq!(dashboard.validate(), Err(ConfigError::EmptySlotSubtitle { index: 1 }));
    dashboard.slots.remove(1);
    assert_eq!(dashboard.validate(), Err(ConfigError::EmptySlotTitle { index: 1 }));
    dashboard.render_interval_ms = 0;
    assert_eq!(dashboard.validate(), Err(ConfigError::RenderIntervalZero));
}

#[test]
fn enumerated_names_follow_the_configuration_vocabulary() {
    assert_eq!(DashboardLayout::from_config_name("stack"), Ok(DashboardLayout::Stack));
    assert_eq!(DashboardMetric::from_config_name("cpu_usage_percent"), Ok(DashboardMetric::CpuUsagePercent));
    assert_eq!(DashboardMetric::from_config_name("cpu_temperature"), Ok(DashboardMetric::CpuTemperature));
    assert_eq!(DashboardMetric::from_config_name("memory_used_percent"), Ok(DashboardMetric::MemoryUsedPercent));
    assert_eq!(DashboardMetric::from_config_name("time"), Ok(DashboardMetric::Time));
    assert_eq!(TimeFormat::from_config_name("24h"), Ok(TimeFormat::TwentyFourHour));
    assert_eq!(TemperatureUnit::from_config_name("celsius"), Ok(TemperatureUnit::Celsius));
    assert_eq!(DashboardMetric::from_config_name("gpu"), Err(ConfigError::UnknownName));
}

fn sample_config(source_path: &str) -> AppConfig {
    AppConfig {
        device: DeviceConfig::default(),
        logging: LoggingConfig::default(),
        basedir: None,
        source: SourceConfig {
            path: source_path.to_string(),
            rotate_degrees: 0,
        },
        dashboard: DashboardConfig::default(),
        refresh: RefreshConfig::default(),
        protocol: ProtocolConfig::default(),
    }
}

#[test]
fn defaults_match_the_documented_values() {
    let device = DeviceConfig::default();
    assert_eq!((device.vendor_id, device.product_id), (0x0b05, 0x1ca9));
    assert_eq!((device.interface_init, device.interface_bulk), (0, 1));
    assert_eq!(device.serial, None);
    let refresh = RefreshConfig::default();
    assert_eq!(refresh.interval_ms, 0);
    assert_eq!(refresh.ack_timeout_ms, 2000);
    assert_eq!(refresh.retry_delay_ms, 1000);
    assert_eq!(refresh.reload_check_interval_ms, 500);
    assert!(ProtocolConfig::default().init_on_connect);
}

#[test]
fn relative_paths_resolve_against_the_base_directory() {
    assert_eq!(resolve_path_from_base("/etc/lcdd", "./image.jpg"), "/etc/lcdd/./image.jpg");
    assert_eq!(resolve_path_from_base("/etc/lcdd/", "image.jpg"), "/etc/lcdd/image.jpg");
    assert_eq!(resolve_path_from_base("/etc/lcdd", "/srv/image.jpg"), "/srv/image.jpg");
    assert_eq!(resolve_path_from_base("", "image.jpg"), "image.jpg");

    let mut config = sample_config("./image.jpg");
    config.dashboard.font_path = Some("./font.ttf".to_string());
    config.dashboard.debug_output_path = Some("/abs/out.png".to_string());
    config.basedir = Some("config_dir".to_string());
    let loaded = load_config(config, "/home/user/config/config.toml", "/cwd", None).unwrap();
    assert_eq!(loaded.source.path, "/home/user/config/./image.jpg");
    assert_eq!(loaded.dashboard.font_path.as_deref(), Some("/home/user/config/./font.ttf"));
    assert_eq!(loaded.dashboard.debug_output_path.as_deref(), Some("/abs/out.png"));

    // Resolving an already resolved path changes nothing.
    let again = resolve_path_from_base("/other", &loaded.source.path);
    assert_eq!(again, loaded.source.path);
}

#[test]
fn loading_rejects_an_invalid_rotation() {
    let mut config = sample_config("/tmp/image.jpg");
    config.source.rotate_degrees = 45;
    assert_eq!(
        load_config(config.clone(), "/tmp/config.toml", "/tmp", None).err(),
        Some(ConfigError::InvalidRotation { degrees: 45 })
    );
    assert_eq!(config.validate(), Err(ConfigError::InvalidRotation { degrees: 45 }));
}

#[test]
fn basedir_modes_are_recognized() {
    assert!(matches!(base_dir_mode(None), Ok(BaseDir::Cwd)));
    assert!(matches!(base_dir_mode(Some("cwd")), Ok(BaseDir::Cwd)));
    assert!(matches!(base_dir_mode(Some("config_dir")), Ok(BaseDir::ConfigDir)));
    assert!(matches!(base_dir_mode(Some("config_dir_real")), Ok(BaseDir::ConfigDirReal)));
    match base_dir_mode(Some("/srv/assets")) {
        Ok(BaseDir::Absolute(path)) => assert_eq!(path, "/srv/assets"),
        other => panic!("unexpected basedir: {other:?}"),
    }
    assert!(matches!(base_dir_mode(Some("assets")), Err(ConfigError::RelativeBasedir)));
}

fn args(list: &[&str]) -> Vec<String> {
    list.iter().map(|s| s.to_string()).collect()
}

#[test]
fn command_line_names_the_configuration_file() {
    assert_eq!(explicit_config_path(&args(&["lcdd"])), Ok(None));
    assert_eq!(
        explicit_config_path(&args(&["lcdd", "--config", "/etc/lcdd.toml"])),
        Ok(Some("/etc/lcdd.toml".to_string()))
    );
    assert_eq!(
        explicit_config_path(&args(&["lcdd", "--config=a.toml", "--config", "b.toml"])),
        Ok(Some("b.toml".to_string()))
    );
    assert_eq!(
        explicit_config_path(&args(&["lcdd", "--config"])),
        Err(ConfigError::MissingConfigValue)
    );
    assert_eq!(
        explicit_config_path(&args(&["lcdd", "--verbose"])),
        Err(ConfigError::UnsupportedArgument { index: 1 })
    );
}

#[test]
fn config_file_candidates_prefer_toml_then_ron_then_corn() {
    assert_eq!(config_file_candidates(), vec!["config.toml", "config.ron", "config.corn"]);
}

#[test]
fn export_tools_take_a_config_and_an_output_path() {
    let parsed = export_args(&args(&["lcdd-egl-export", "--config", "c.toml", "--output=frame.png"])).unwrap();
    assert_eq!(parsed.config_path.as_deref(), Some("c.toml"));
    assert_eq!(parsed.output_path.as_deref(), Some("frame.png"));

    let parsed = export_args(&args(&["lcdd-egl-export", "--output", "a.png", "--config=x.toml", "--output", "b.png"])).unwrap();
    assert_eq!(parsed.config_path.as_deref(), Some("x.toml"));
    assert_eq!(parsed.output_path.as_deref(), Some("b.png"));

    let parsed = export_args(&args(&["lcdd-egl-export"])).unwrap();
    assert_eq!(parsed.config_path, None);
    assert_eq!(parsed.output_path, None);

    assert!(matches!(
        export_args(&args(&["lcdd-egl-export", "--output"])),
        Err(ConfigError::MissingOutputValue)
    ));
    assert!(matches!(
        export_args(&args(&["lcdd-egl-export", "--config"])),
        Err(ConfigError::MissingConfigValue)
    ));
    assert!(matches!(
        export_args(&args(&["lcdd-egl-export", "--output=o.png", "--size", "3"])),
        Err(ConfigError::UnsupportedArgument { index: 2 })
    ));
}

#[test]
fn resolve_base_dir_uses_dot_when_config_has_no_parent() {
    assert_eq!(resolve_base_dir(Some("config_dir"), "config.toml", "/cwd", None), Ok(String::new()));
}

#[test]
fn base_directories_follow_the_basedir_setting() {
    assert_eq!(resolve_base_dir(None, "/etc/lcdd/config.toml", "/home/me", None), Ok("/home/me".to_string()));
    assert_eq!(resolve_base_dir(Some("cwd"), "/etc/lcdd/config.toml", "/home/me", None), Ok("/home/me".to_string()));
    assert_eq!(
        resolve_base_dir(Some("config_dir"), "/etc/lcdd/config.toml", "/home/me", None),
        Ok("/etc/lcdd".to_string())
    );
    assert_eq!(resolve_base_dir(Some("config_dir"), "/", "/home/me", None), Ok(".".to_string()));
    assert_eq!(
        resolve_base_dir(Some("config_dir_real"), "/etc/lcdd/config.toml", "/home/me", Some("/srv/real/config.toml")),
        Ok("/srv/real".to_string())
    );
    assert_eq!(
        resolve_base_dir(Some("config_dir_real"), "/etc/lcdd/config.toml", "/home/me", None),
        Err(ConfigError::UnresolvedConfigPath)
    );
    assert_eq!(resolve_base_dir(Some("/srv/assets"), "config.toml", "/home/me", None), Ok("/srv/assets".to_string()));
    assert_eq!(resolve_base_dir(Some("assets"), "config.toml", "/home/me", None), Err(ConfigError::RelativeBasedir));
}

#[test]
fn load_config_resolves_relative_paths_from_the_chosen_base() {
    let mut config = sample_config("./image.jpg");
    config.dashboard.font_path = Some("./font.ttf".to_string());
    config.dashboard.debug_output_path = Some("./out/dashboard-debug.png".to_string());
    let loaded = load_config(config.clone(), "/etc/lcdd/config.toml", "/work", None).unwrap();
    assert_eq!(loaded.source.path, "/work/./image.jpg");
    assert_eq!(loaded.dashboard.font_path.as_deref(), Some("/work/./font.ttf"));
    assert_eq!(loaded.dashboard.debug_output_path.as_deref(), Some("/work/./out/dashboard-debug.png"));

    config.basedir = Some("/srv/lcdd".to_string());
    config.source.path = "/abs/image.jpg".to_string();
    let loaded = load_config(config.clone(), "/etc/lcdd/config.toml", "/work", None).unwrap();
    assert_eq!(loaded.source.path, "/abs/image.jpg");
    assert_eq!(loaded.dashboard.font_path.as_deref(), Some("/srv/lcdd/./font.ttf"));

    config.basedir = Some("assets".to_string());
    assert_eq!(
        load_config(config, "/etc/lcdd/config.toml", "/work", None).err(),
        Some(ConfigError::RelativeBasedir)
    );
}

#[test]
fn default_config_path_prefers_toml_then_ron_then_corn() {
    let names = |list: &[&str]| list.iter().map(|s| s.to_string()).collect::<Vec<_>>();
    assert_eq!(
        default_config_path("/work", &names(&["config.corn", "config.ron", "config.toml"])),
        Ok("/work/config.toml".to_string())
    );
    assert_eq!(
        default_config_path("/work", &names(&["config.corn", "config.ron"])),
        Ok("/work/config.ron".to_string())
    );
    assert_eq!(default_config_path("/work/", &names(&["config.corn"])), Ok("/work/config.corn".to_string()));
    assert_eq!(default_config_path("/work", &names(&["other.toml"])), Err(ConfigError::NoConfigFile));
}
