use lcdd::config::{
    AppConfig, DashboardConfig, DashboardMetric, DashboardSlot, DeviceConfig, LevelFilter,
    LogLevel, LoggingConfig, ProtocolConfig, RefreshConfig, SourceConfig,
};
use lcdd::config::ConfigError;
use lcdd::runtime::{
    configs_equal, describe_config_changes, plan_config_change, ConfigReloadOutcome, ReloadError,
    RuntimeState,
};
use lcdd::frame::PreparedImage;
use lcdd::source::{frame_delay_ms, AnimatedSource, FrameSource, RefreshKind, RefreshSchedule};

fn config_with_source(path: &str) -> AppConfig {
    AppConfig {
        device: DeviceConfig::default(),
        logging: LoggingConfig::default(),
        basedir: None,
        source: SourceConfig {
            path: path.to_string(),
            rotate_degrees: 0,
        },
        dashboard: DashboardConfig::default(),
        refresh: RefreshConfig::default(),
        protocol: ProtocolConfig::default(),
    }
}

fn shown(path: &str) -> AnimatedSource {
    let image = PreparedImage::new(path.to_string(), vec![0xff, 0xd8, 0xff, 0xd9], vec![], 320, 320);
    AnimatedSource::from_frames(vec![image], vec![100], 0).unwrap()
}

fn path_of(runtime: &RuntimeState<AnimatedSource>) -> &str {
    runtime.source().current().source_path()
}

fn state(config: AppConfig) -> RuntimeState<AnimatedSource> {
    let source = shown(&config.source.path);
    RuntimeState::new("config.toml".to_string(), config, b"first".to_vec(), source, 1_000).unwrap()
}

#[test]
fn applying_an_interval_change_keeps_the_session() {
    let mut runtime = state(config_with_source("image.jpg"));
    let mut next = runtime.config().clone();
    next.refresh.interval_ms = 25;
    next.refresh.retry_delay_ms = 3000;

    assert_eq!(runtime.apply_config(next, None, true, 2_000), Ok(ConfigReloadOutcome::Applied));
    assert_eq!(runtime.refresh_interval(), 25);
    assert_eq!(runtime.retry_delay(), 3000);
    assert!(!runtime.reconnect_required());
    assert_eq!(path_of(&runtime), "image.jpg");
}

#[test]
fn applying_an_ack_timeout_change_requires_reconnect() {
    let mut runtime = state(config_with_source("image.jpg"));
    let mut next = runtime.config().clone();
    next.refresh.ack_timeout_ms = 5000;

    assert_eq!(runtime.apply_config(next, None, true, 2_000), Ok(ConfigReloadOutcome::ReconnectRequired));
    assert!(runtime.reconnect_required());
    assert!(runtime.take_reconnect_required());
    assert!(!runtime.reconnect_required());
}

#[test]
fn applying_a_logging_change_keeps_the_session() {
    let mut runtime = state(config_with_source("image.jpg"));
    let mut next = runtime.config().clone();
    next.logging.level = LogLevel(LevelFilter::Debug);
    next.logging.color = false;
    let plan = runtime.plan_config(&next);
    assert!(plan.reload_logging);
    assert!(!plan.rebuild_source);
    assert!(!plan.reconnect_required);

    assert_eq!(runtime.apply_config(next, None, true, 2_000), Ok(ConfigReloadOutcome::Applied));
    assert_eq!(runtime.config().logging.level.into_level_filter(), LevelFilter::Debug);
    assert!(!runtime.config().logging.color);
}

#[test]
fn applying_a_source_change_rebuilds_the_source() {
    let mut runtime = state(config_with_source("first.jpg"));
    let next = config_with_source("second.jpg");
    let plan = runtime.plan_config(&next);
    assert!(plan.rebuild_source);

    assert_eq!(runtime.apply_config(next, Some(shown("second.jpg")), true, 2_000), Ok(ConfigReloadOutcome::Applied));
    assert_eq!(path_of(&runtime), "second.jpg");
    assert_eq!(runtime.config().source.path, "second.jpg");
}

#[test]
fn a_reload_with_the_same_settings_changes_nothing() {
    let mut runtime = state(config_with_source("image.jpg"));
    let same = runtime.config().clone();
    assert!(configs_equal(runtime.config(), &same));
    assert!(plan_config_change(runtime.config(), &same).unchanged);
    assert_eq!(runtime.apply_config(same.clone(), Some(shown("image.jpg")), true, 3_000), Ok(ConfigReloadOutcome::Unchanged));
    assert_eq!(path_of(&runtime), "image.jpg");
    // Applying the same update twice: the second time nothing is left to do.
    let mut next = same;
    next.protocol.init_on_connect = false;
    assert_eq!(runtime.apply_config(next.clone(), None, true, 4_000), Ok(ConfigReloadOutcome::ReconnectRequired));
    assert_eq!(runtime.apply_config(next, None, true, 5_000), Ok(ConfigReloadOutcome::Unchanged));
}

#[test]
fn reload_checks_follow_the_reload_interval() {
    let mut runtime = state(config_with_source("image.jpg"));
    assert_eq!(runtime.reload_interval(), 500);
    assert!(!runtime.config_check_due(1_499));
    assert!(runtime.config_check_due(1_500));
    runtime.schedule_next_config_check(2_000);
    assert!(!runtime.config_check_due(2_499));
    assert!(runtime.config_check_due(2_500));
    assert!(!runtime.note_config_bytes(b"first".to_vec()));
    assert!(runtime.note_config_bytes(b"second".to_vec()));
    assert!(!runtime.note_config_bytes(b"second".to_vec()));
    assert_eq!(runtime.config_path(), "config.toml");
}

#[test]
fn a_pending_reconnect_is_reported_after_the_next_reload_check() {
    let mut runtime = state(config_with_source("image.jpg"));
    let mut next = runtime.config().clone();
    next.device.serial = Some("ABC".to_string());
    assert_eq!(runtime.apply_config(next, None, true, 2_000), Ok(ConfigReloadOutcome::ReconnectRequired));
    assert!(runtime.reconnect_after_reload(ConfigReloadOutcome::Unchanged));
    assert!(!runtime.reconnect_after_reload(ConfigReloadOutcome::Applied));
    assert!(runtime.reconnect_after_reload(ConfigReloadOutcome::ReconnectRequired));
    runtime.clear_reconnect_required();
    assert!(!runtime.reconnect_required());
}

#[test]
fn describe_changes_names_each_changed_setting() {
    let current = config_with_source("image.jpg");
    let mut next = current.clone();
    next.logging.level = LogLevel(LevelFilter::Trace);
    next.logging.color = false;
    assert_eq!(describe_config_changes(&current, &next), vec!["logging.level", "logging.color"]);

    next.dashboard.slots.push(DashboardSlot {
        title: "CPU".to_string(),
        subtitle: "usage".to_string(),
        metric: DashboardMetric::CpuUsagePercent,
    });
    next.refresh.ack_timeout_ms = 10;
    next.device.vendor_id = 1;
    assert_eq!(
        describe_config_changes(&current, &next),
        vec!["device", "dashboard", "logging.level", "logging.color", "refresh.ack_timeout_ms"]
    );
    assert!(describe_config_changes(&current, &current.clone()).is_empty());
}

#[test]
fn dashboard_changes_rebuild_the_source() {
    let current = config_with_source("image.jpg");
    let mut next = current.clone();
    next.dashboard.render_interval_ms = 250;
    let plan = plan_config_change(&current, &next);
    assert!(plan.rebuild_source);
    assert!(!plan.reconnect_required);
    assert!(!plan.unchanged);
}

#[test]
fn refresh_schedule_tracks_background_checks_and_renders() {
    let mut schedule = RefreshSchedule::new(1_000, 500, 250, true);
    assert_eq!(schedule.next_background_check_at_ms, 1_500);
    assert_eq!(schedule.next_render_at_ms, Some(1_250));
    assert!(!schedule.take_background_check(1_400));
    assert!(schedule.take_background_check(1_500));
    assert_eq!(schedule.next_background_check_at_ms, 2_000);
    assert!(!schedule.render_due(false, 1_249));
    assert!(schedule.render_due(false, 1_250));
    assert!(schedule.render_due(true, 1_000));
    schedule.rendered(1_300, true);
    assert_eq!(schedule.next_render_at_ms, Some(1_550));

    let plain = RefreshSchedule::new(u64::MAX - 1, 500, 250, false);
    assert_eq!(plain.next_background_check_at_ms, u64::MAX);
    assert_eq!(plain.next_render_at_ms, None);
    assert!(!plain.render_due(false, u64::MAX));

    assert_eq!(RefreshSchedule::report(true, true), RefreshKind::SourceReloaded);
    assert_eq!(RefreshSchedule::report(false, true), RefreshKind::ContentUpdated);
    assert_eq!(RefreshSchedule::report(true, false), RefreshKind::Unchanged);
}

#[test]
fn short_animation_delays_fall_back_to_100_ms() {
    assert_eq!(frame_delay_ms(0), 100);
    assert_eq!(frame_delay_ms(10), 100);
    assert_eq!(frame_delay_ms(19), 100);
    assert_eq!(frame_delay_ms(20), 20);
    assert_eq!(frame_delay_ms(200), 200);
}

#[test]
fn config_checks_are_taken_once_per_reload_interval() {
    let mut runtime = state(config_with_source("image.jpg"));
    assert!(!runtime.take_config_check(1_499));
    assert!(runtime.take_config_check(1_500));
    assert!(!runtime.take_config_check(1_999));
    assert!(runtime.take_config_check(2_000));
}

#[test]
fn invalid_config_reload_keeps_last_valid_runtime() {
    let mut runtime = state(config_with_source("image.jpg"));
    let before = runtime.config().clone();
    let mut next = before.clone();
    next.source.rotate_degrees = 45;
    // The rotation is refused when the new source is built, so none comes back.
    assert!(runtime.plan_config(&next).rebuild_source);
    assert_eq!(runtime.apply_config(next.clone(), None, true, 2_000), Err(ReloadError::SourceUnavailable));
    assert!(configs_equal(runtime.config(), &before));
    assert_eq!(path_of(&runtime), "image.jpg");
    assert!(!runtime.config_check_due(1_499));
    assert!(runtime.config_check_due(1_500));
    assert_eq!(runtime.reload_config(Some(next), None, true, 2_000), ConfigReloadOutcome::Unchanged);
    assert_eq!(runtime.config().source.rotate_degrees, 0);
    // A file that did not parse changes nothing either.
    assert_eq!(runtime.reload_config(None, None, true, 2_000), ConfigReloadOutcome::Unchanged);
    assert_eq!(path_of(&runtime), "image.jpg");
}

#[test]
fn a_rejected_logging_change_keeps_the_running_config() {
    let mut runtime = state(config_with_source("image.jpg"));
    let mut next = runtime.config().clone();
    next.logging.color = false;
    next.refresh.ack_timeout_ms = 10;
    assert_eq!(runtime.apply_config(next.clone(), None, false, 2_000), Err(ReloadError::LoggingRejected));
    assert!(runtime.config().logging.color);
    assert!(!runtime.reconnect_required());
    assert_eq!(runtime.reload_config(Some(next), None, true, 2_000), ConfigReloadOutcome::ReconnectRequired);
    assert!(!runtime.config().logging.color);
}

#[test]
fn a_source_offered_for_an_unrelated_change_is_dropped() {
    let mut runtime = state(config_with_source("image.jpg"));
    let mut next = runtime.config().clone();
    next.refresh.retry_delay_ms = 7;
    assert_eq!(runtime.apply_config(next, Some(shown("image.jpg")), true, 2_000), Ok(ConfigReloadOutcome::Applied));
    assert_eq!(path_of(&runtime), "image.jpg");
    assert_eq!(runtime.retry_delay(), 7);
}

#[test]
fn a_state_is_refused_for_an_invalid_rotation() {
    let mut config = config_with_source("image.jpg");
    config.source.rotate_degrees = 45;
    assert_eq!(
        RuntimeState::new("config.toml".to_string(), config, Vec::new(), shown("image.jpg"), 0).err(),
        Some(ConfigError::InvalidRotation { degrees: 45 })
    );
    let mut ok =
        RuntimeState::new("config.toml".to_string(), config_with_source("image.jpg"), Vec::new(), shown("image.jpg"), 0)
            .unwrap();
    assert!(!ok.take_reconnect_required());
    assert_eq!(path_of(&ok), "image.jpg");
    assert_eq!((ok.source().current().width(), ok.source().current().height()), (320, 320));
}

#[test]
fn reapplying_an_applied_config_changes_nothing() {
    let mut runtime = state(config_with_source("image.jpg"));
    let mut next = runtime.config().clone();
    next.source.path = "second.jpg".to_string();
    next.device.product_id = 7;
    assert_eq!(
        runtime.apply_config(next.clone(), Some(shown("second.jpg")), true, 2_000),
        Ok(ConfigReloadOutcome::ReconnectRequired)
    );
    assert!(runtime.take_reconnect_required());
    assert_eq!(runtime.apply_config(next, Some(shown("second.jpg")), true, 3_000), Ok(ConfigReloadOutcome::Unchanged));
    assert_eq!(path_of(&runtime), "second.jpg");
    assert!(!runtime.reconnect_required());
}
