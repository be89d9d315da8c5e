use lcdd::config::{
    AppConfig, DashboardConfig, DeviceConfig, LoggingConfig, ProtocolConfig, RefreshConfig,
    SourceConfig,
};
use lcdd::frame::PreparedImage;
use lcdd::runtime::{ConfigReloadOutcome, RuntimeState};
use lcdd::source::AnimatedSource;
use lcdd::service::{ServiceAction, ServiceEvent, ServiceLoop, ServicePhase};

fn runtime(init_on_connect: bool, interval_ms: u64) -> RuntimeState<AnimatedSource> {
    let mut refresh = RefreshConfig::default();
    refresh.interval_ms = interval_ms;
    let config = AppConfig {
        device: DeviceConfig::default(),
        logging: LoggingConfig::default(),
        basedir: None,
        source: SourceConfig {
            path: "/tmp/image.jpg".to_string(),
            rotate_degrees: 0,
        },
        dashboard: DashboardConfig::default(),
        refresh,
        protocol: ProtocolConfig { init_on_connect },
    };
    let image = PreparedImage::new("/tmp/image.jpg".to_string(), vec![0xff, 0xd8, 0xff, 0xd9], vec![], 320, 320);
    let source = AnimatedSource::from_frames(vec![image], vec![100], 0).unwrap();
    RuntimeState::new("config.toml".to_string(), config, Vec::new(), source, 0).unwrap()
}

#[test]
fn a_session_checks_config_refreshes_and_uploads_in_turn() {
    let mut state = runtime(true, 0);
    let mut service = ServiceLoop::new();
    assert!(!service.session_open());
    assert_eq!(service.step(&mut state, ServiceEvent::Ready, false), ServiceAction::CheckConfig);
    assert_eq!(
        service.step(&mut state, ServiceEvent::ConfigChecked(ConfigReloadOutcome::Unchanged), false),
        ServiceAction::OpenDevice
    );
    assert_eq!(service.step(&mut state, ServiceEvent::DeviceOpened, false), ServiceAction::InitializeDevice);
    assert_eq!(service.step(&mut state, ServiceEvent::DeviceInitialized, false), ServiceAction::CheckConfig);
    assert!(service.session_open());
    assert_eq!(
        service.step(&mut state, ServiceEvent::ConfigChecked(ConfigReloadOutcome::Applied), false),
        ServiceAction::RefreshSource
    );
    assert_eq!(service.step(&mut state, ServiceEvent::SourceRefreshed, false), ServiceAction::Upload);
    // An interval of 0 re-uploads with no pause.
    assert_eq!(service.step(&mut state, ServiceEvent::Uploaded, false), ServiceAction::CheckConfig);
    assert_eq!(service.phase(), ServicePhase::CheckingConfig { connected: true });
}

#[test]
fn uploads_pause_for_the_refresh_interval() {
    let mut state = runtime(false, 250);
    let mut service = ServiceLoop::new();
    service.step(&mut state, ServiceEvent::Ready, false);
    service.step(&mut state, ServiceEvent::ConfigChecked(ConfigReloadOutcome::Unchanged), false);
    // Without init_on_connect the first round starts right away.
    assert_eq!(service.step(&mut state, ServiceEvent::DeviceOpened, false), ServiceAction::CheckConfig);
    service.step(&mut state, ServiceEvent::ConfigChecked(ConfigReloadOutcome::Unchanged), false);
    service.step(&mut state, ServiceEvent::SourceRefreshed, false);
    assert_eq!(service.step(&mut state, ServiceEvent::Uploaded, false), ServiceAction::Sleep { ms: 250 });
    assert!(service.session_open());
    assert_eq!(service.step(&mut state, ServiceEvent::Ready, false), ServiceAction::CheckConfig);
    assert!(service.session_open());
}

#[test]
fn failures_drop_the_session_and_wait_the_retry_delay() {
    let mut state = runtime(false, 0);
    let retry = state.retry_delay();
    let mut service = ServiceLoop::new();
    service.step(&mut state, ServiceEvent::Ready, false);
    service.step(&mut state, ServiceEvent::ConfigChecked(ConfigReloadOutcome::Unchanged), false);
    assert_eq!(service.step(&mut state, ServiceEvent::DeviceUnavailable, false), ServiceAction::Sleep { ms: retry });
    assert!(!service.session_open());
    assert_eq!(service.step(&mut state, ServiceEvent::Ready, false), ServiceAction::CheckConfig);
    service.step(&mut state, ServiceEvent::ConfigChecked(ConfigReloadOutcome::Unchanged), false);
    service.step(&mut state, ServiceEvent::DeviceOpened, false);
    service.step(&mut state, ServiceEvent::ConfigChecked(ConfigReloadOutcome::Unchanged), false);
    service.step(&mut state, ServiceEvent::SourceRefreshed, false);
    assert_eq!(service.step(&mut state, ServiceEvent::UploadFailed, false), ServiceAction::Sleep { ms: retry });
    assert_eq!(service.phase(), ServicePhase::Waiting { connected: false });
}

#[test]
fn a_device_settings_reload_reopens_the_session() {
    let mut state = runtime(false, 0);
    let mut service = ServiceLoop::new();
    service.step(&mut state, ServiceEvent::Ready, false);
    service.step(&mut state, ServiceEvent::ConfigChecked(ConfigReloadOutcome::Unchanged), false);
    service.step(&mut state, ServiceEvent::DeviceOpened, false);
    assert_eq!(
        service.step(&mut state, ServiceEvent::ConfigChecked(ConfigReloadOutcome::ReconnectRequired), false),
        ServiceAction::CheckConfig
    );
    assert!(!service.session_open());
    assert_eq!(
        service.step(&mut state, ServiceEvent::ConfigChecked(ConfigReloadOutcome::Unchanged), false),
        ServiceAction::OpenDevice
    );
    assert!(!state.reconnect_required());
}

#[test]
fn shutdown_and_config_read_failures_end_the_loop() {
    let mut state = runtime(false, 0);
    let mut service = ServiceLoop::new();
    assert_eq!(service.step(&mut state, ServiceEvent::Ready, true), ServiceAction::Stop { failed: false });
    assert_eq!(service.step(&mut state, ServiceEvent::Ready, false), ServiceAction::Stop { failed: false });

    let mut service = ServiceLoop::new();
    service.step(&mut state, ServiceEvent::Ready, false);
    assert_eq!(service.step(&mut state, ServiceEvent::ConfigCheckFailed, false), ServiceAction::Stop { failed: true });

    let mut service = ServiceLoop::new();
    assert_eq!(service.step(&mut state, ServiceEvent::Uploaded, false), ServiceAction::Stop { failed: true });
}
