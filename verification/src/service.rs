//! The service loop as a state machine: which step comes next, given what
//! the last step reported. The caller performs the steps (reading the
//! configuration file, talking to the cooler, sleeping) and reports back.
//!
//! While no device session is open the loop looks at the configuration, opens
//! the cooler and, when configured, initializes it. While a session is open it
//! looks at the configuration, refreshes the frame source and uploads the
//! current frame, pausing for the refresh interval between uploads. A failure
//! of the cooler or of the frame source drops the session and waits the retry
//! delay; a reload that changes the device session settings reopens the
//! session at once.

use vstd::prelude::*;

use crate::runtime::{ConfigReloadOutcome, RuntimeState};

verus! {

/// The step the service loop is waiting on.
#[derive(Debug, Clone, Copy, PartialEq, Eq, Structural)]
pub enum ServicePhase {
    /// Waiting to start, or for a pause to end; `connected` tells whether a
    /// device session is open.
    Waiting { connected: bool },
    /// Looking at the configuration file.
    CheckingConfig { connected: bool },
    /// Opening a device session.
    OpeningDevice,
    /// Sending the init packet on a new session.
    InitializingDevice,
    /// Refreshing the frame source.
    RefreshingSource,
    /// Uploading the current frame.
    Uploading,
    /// The loop has ended; `failed` when it ended on an error.
    Stopped { failed: bool },
}

/// What the caller observed after performing a step.
#[derive(Debug, Clone, Copy, PartialEq, Eq, Structural)]
pub enum ServiceEvent {
    /// The loop starts, or a pause has ended.
    Ready,
    /// The configuration check finished with this outcome.
    ConfigChecked(ConfigReloadOutcome),
    /// The configuration file could not be read.
    ConfigCheckFailed,
    /// A device session is open.
    DeviceOpened,
    /// The HID library or the cooler is not available.
    DeviceUnavailable,
    /// The init packet was sent.
    DeviceInitialized,
    /// The init packet could not be sent.
    DeviceInitFailed,
    /// The frame source was refreshed.
    SourceRefreshed,
    /// The frame source could not be refreshed.
    SourceFailed,
    /// The current frame was uploaded and acknowledged.
    Uploaded,
    /// The upload failed.
    UploadFailed,
}

/// The next step for the caller to perform.
#[derive(Debug, Clone, Copy, PartialEq, Eq, Structural)]
pub enum ServiceAction {
    /// Look at the configuration file (`RuntimeState::apply_config` and friends).
    CheckConfig,
    /// Open a device session.
    OpenDevice,
    /// Send the init packet.
    InitializeDevice,
    /// Refresh the frame source.
    RefreshSource,
    /// Upload the current frame.
    Upload,
    /// Pause for `ms` milliseconds (less if shutdown is requested), then report `Ready`.
    Sleep { ms: u64 },
    /// End the loop; `failed` when it ends on an error.
    Stop { failed: bool },
}

/// Whether a device session is open in `phase`.
pub open spec fn session_open(phase: ServicePhase) -> bool {
    match phase {
        ServicePhase::Waiting { connected } => connected,
        ServicePhase::CheckingConfig { connected } => connected,
        ServicePhase::OpeningDevice => false,
        ServicePhase::InitializingDevice => true,
        ServicePhase::RefreshingSource => true,
        ServicePhase::Uploading => true,
        ServicePhase::Stopped { .. } => false,
    }
}

/// The start of a round with an open session: stop on shutdown, otherwise
/// look at the configuration.
pub open spec fn connected_round(shutdown: bool) -> (ServicePhase, ServiceAction) {
    if shutdown {
        (ServicePhase::Stopped { failed: false }, ServiceAction::Stop { failed: false })
    } else {
        (ServicePhase::CheckingConfig { connected: true }, ServiceAction::CheckConfig)
    }
}

/// A failed step drops the session and waits the retry delay.
pub open spec fn back_off(retry_ms: u64) -> (ServicePhase, ServiceAction) {
    (ServicePhase::Waiting { connected: false }, ServiceAction::Sleep { ms: retry_ms })
}

/// The next phase and action, and whether a reconnect is still pending, after
/// `event` in `phase`. `pending` is the reconnect request left by earlier
/// reloads; `init_on_connect`, `retry_ms` and `interval_ms` come from the
/// configuration in force. An event that does not answer the step the loop is
/// waiting on stops it with a failure.
pub open spec fn service_transition(
    phase: ServicePhase,
    event: ServiceEvent,
    shutdown: bool,
    init_on_connect: bool,
    retry_ms: u64,
    interval_ms: u64,
    pending: bool,
) -> (ServicePhase, ServiceAction, bool) {
    let stop_failed = (ServicePhase::Stopped { failed: true }, ServiceAction::Stop { failed: true }, pending);
    match phase {
        ServicePhase::Stopped { failed } => (phase, ServiceAction::Stop { failed }, pending),
        ServicePhase::Waiting { connected } => match event {
            ServiceEvent::Ready => if shutdown {
                (ServicePhase::Stopped { failed: false }, ServiceAction::Stop { failed: false }, pending)
            } else {
                (ServicePhase::CheckingConfig { connected }, ServiceAction::CheckConfig, pending)
            },
            _ => stop_failed,
        },
        ServicePhase::CheckingConfig { connected } => match event {
            ServiceEvent::ConfigChecked(outcome) => if !connected {
                (ServicePhase::OpeningDevice, ServiceAction::OpenDevice, false)
            } else if outcome == ConfigReloadOutcome::ReconnectRequired || pending {
                let still_pending = outcome == ConfigReloadOutcome::ReconnectRequired && pending;
                if shutdown {
                    (ServicePhase::Stopped { failed: false }, ServiceAction::Stop { failed: false }, still_pending)
                } else {
                    (ServicePhase::CheckingConfig { connected: false }, ServiceAction::CheckConfig, still_pending)
                }
            } else {
                (ServicePhase::RefreshingSource, ServiceAction::RefreshSource, false)
            },
            ServiceEvent::ConfigCheckFailed => if !connected {
                (ServicePhase::Stopped { failed: true }, ServiceAction::Stop { failed: true }, pending)
            } else {
                (back_off(retry_ms).0, back_off(retry_ms).1, pending)
            },
            _ => stop_failed,
        },
        ServicePhase::OpeningDevice => match event {
            ServiceEvent::DeviceOpened => if init_on_connect {
                (ServicePhase::InitializingDevice, ServiceAction::InitializeDevice, pending)
            } else {
                (connected_round(shutdown).0, connected_round(shutdown).1, pending)
            },
            ServiceEvent::DeviceUnavailable => (back_off(retry_ms).0, back_off(retry_ms).1, pending),
            _ => stop_failed,
        },
        ServicePhase::InitializingDevice => match event {
            ServiceEvent::DeviceInitialized => (connected_round(shutdown).0, connected_round(shutdown).1, pending),
            ServiceEvent::DeviceInitFailed => (back_off(retry_ms).0, back_off(retry_ms).1, pending),
            _ => stop_failed,
        },
        ServicePhase::RefreshingSource => match event {
            ServiceEvent::SourceRefreshed => (ServicePhase::Uploading, ServiceAction::Upload, pending),
            ServiceEvent::SourceFailed => (back_off(retry_ms).0, back_off(retry_ms).1, pending),
            _ => stop_failed,
        },
        ServicePhase::Uploading => match event {
            ServiceEvent::Uploaded => if shutdown {
                (ServicePhase::Stopped { failed: false }, ServiceAction::Stop { failed: false }, pending)
            } else if interval_ms == 0 {
                (ServicePhase::CheckingConfig { connected: true }, ServiceAction::CheckConfig, pending)
            } else {
                (ServicePhase::Waiting { connected: true }, ServiceAction::Sleep { ms: interval_ms }, pending)
            },
            ServiceEvent::UploadFailed => (back_off(retry_ms).0, back_off(retry_ms).1, pending),
            _ => stop_failed,
        },
    }
}

/// A failure of the cooler, of its init packet, of the frame source, or of
/// the configuration check while a session is open drops the session and
/// waits the retry delay before the next attempt.
pub proof fn lemma_failures_drop_the_session_and_back_off(
    phase: ServicePhase,
    event: ServiceEvent,
    shutdown: bool,
    init_on_connect: bool,
    retry_ms: u64,
    interval_ms: u64,
    pending: bool,
)
    requires
        (phase == ServicePhase::OpeningDevice && event == ServiceEvent::DeviceUnavailable) || (phase
            == ServicePhase::InitializingDevice && event == ServiceEvent::DeviceInitFailed) || (
        phase == ServicePhase::RefreshingSource && event == ServiceEvent::SourceFailed) || (phase
            == ServicePhase::Uploading && event == ServiceEvent::UploadFailed) || (phase
            == ServicePhase::CheckingConfig { connected: true } && event
            == ServiceEvent::ConfigCheckFailed),
    ensures
        ({
            let t = service_transition(phase, event, shutdown, init_on_connect, retry_ms, interval_ms, pending);
            &&& t.0 == ServicePhase::Waiting { connected: false }
            &&& t.1 == ServiceAction::Sleep { ms: retry_ms }
            &&& !session_open(t.0)
        }),
{
}

/// A frame is uploaded only right after the frame source was refreshed, while
/// a device session is open.
pub proof fn lemma_uploads_follow_a_refresh_in_a_session(
    phase: ServicePhase,
    event: ServiceEvent,
    shutdown: bool,
    init_on_connect: bool,
    retry_ms: u64,
    interval_ms: u64,
    pending: bool,
)
    ensures
        service_transition(phase, event, shutdown, init_on_connect, retry_ms, interval_ms, pending).1
            == ServiceAction::Upload ==> {
            &&& phase == ServicePhase::RefreshingSource
            &&& event == ServiceEvent::SourceRefreshed
            &&& session_open(phase)
            &&& session_open(
                service_transition(phase, event, shutdown, init_on_connect, retry_ms, interval_ms, pending).0,
            )
        },
{
}

/// A reload that changes the device session settings, or an earlier one that
/// did, ends the open session before anything more is uploaded: the next step
/// looks at the configuration without a session (or stops on shutdown).
pub proof fn lemma_session_changes_reopen_the_device(
    outcome: ConfigReloadOutcome,
    shutdown: bool,
    init_on_connect: bool,
    retry_ms: u64,
    interval_ms: u64,
    pending: bool,
)
    requires
        outcome == ConfigReloadOutcome::ReconnectRequired || pending,
    ensures
        ({
            let t = service_transition(
                ServicePhase::CheckingConfig { connected: true },
                ServiceEvent::ConfigChecked(outcome),
                shutdown,
                init_on_connect,
                retry_ms,
                interval_ms,
                pending,
            );
            &&& !session_open(t.0)
            &&& !shutdown ==> t.1 == ServiceAction::CheckConfig
            &&& shutdown ==> t.1 == (ServiceAction::Stop { failed: false })
        }),
{
}

/// A new session sends the init packet first when `init_on_connect` is set,
/// and goes straight to its first round otherwise.
pub proof fn lemma_new_sessions_initialize_when_configured(
    shutdown: bool,
    init_on_connect: bool,
    retry_ms: u64,
    interval_ms: u64,
    pending: bool,
)
    ensures
        ({
            let t = service_transition(
                ServicePhase::OpeningDevice,
                ServiceEvent::DeviceOpened,
                shutdown,
                init_on_connect,
                retry_ms,
                interval_ms,
                pending,
            );
            &&& init_on_connect ==> t.1 == ServiceAction::InitializeDevice
            &&& !init_on_connect && !shutdown ==> t.1 == ServiceAction::CheckConfig && session_open(t.0)
        }),
{
}

/// After an upload the loop pauses for the refresh interval, except that an
/// interval of 0 re-uploads at once, and a requested shutdown ends the loop.
pub proof fn lemma_refresh_interval_paces_uploads(
    shutdown: bool,
    init_on_connect: bool,
    retry_ms: u64,
    interval_ms: u64,
    pending: bool,
)
    ensures
        ({
            let t = service_transition(
                ServicePhase::Uploading,
                ServiceEvent::Uploaded,
                shutdown,
                init_on_connect,
                retry_ms,
                interval_ms,
                pending,
            );
            &&& shutdown ==> t.1 == (ServiceAction::Stop { failed: false })
            &&& !shutdown && interval_ms == 0 ==> t.1 == ServiceAction::CheckConfig
            &&& !shutdown && interval_ms > 0 ==> t.1 == (ServiceAction::Sleep { ms: interval_ms })
            &&& !shutdown ==> session_open(t.0)
        }),
{
}

/// The init packet is sent once per connection: only right after a session
/// was opened, and only when `init_on_connect` is set.
pub proof fn lemma_init_only_on_a_new_session(
    phase: ServicePhase,
    event: ServiceEvent,
    shutdown: bool,
    init_on_connect: bool,
    retry_ms: u64,
    interval_ms: u64,
    pending: bool,
)
    ensures
        service_transition(phase, event, shutdown, init_on_connect, retry_ms, interval_ms, pending).1
            == ServiceAction::InitializeDevice ==> {
            &&& phase == ServicePhase::OpeningDevice
            &&& event == ServiceEvent::DeviceOpened
            &&& init_on_connect
        },
{
}

/// After the retry delay, a loop without a session looks at the configuration
/// and then opens the cooler again, whatever the check reported (unless
/// shutdown was requested).
pub proof fn lemma_backing_off_leads_to_reopening(
    outcome: ConfigReloadOutcome,
    init_on_connect: bool,
    retry_ms: u64,
    interval_ms: u64,
    pending: bool,
)
    ensures
        ({
            let woken = service_transition(
                ServicePhase::Waiting { connected: false },
                ServiceEvent::Ready,
                false,
                init_on_connect,
                retry_ms,
                interval_ms,
                pending,
            );
            let checked = service_transition(
                woken.0,
                ServiceEvent::ConfigChecked(outcome),
                false,
                init_on_connect,
                retry_ms,
                interval_ms,
                woken.2,
            );
            &&& woken.1 == ServiceAction::CheckConfig
            &&& checked.0 == ServicePhase::OpeningDevice
            &&& checked.1 == ServiceAction::OpenDevice
            &&& !checked.2
        }),
{
}

/// Once stopped, the loop stays stopped; and a requested shutdown stops it at
/// the start of every round.
pub proof fn lemma_shutdown_ends_the_loop(
    phase: ServicePhase,
    event: ServiceEvent,
    connected: bool,
    init_on_connect: bool,
    retry_ms: u64,
    interval_ms: u64,
    pending: bool,
)
    ensures
        phase is Stopped ==> service_transition(phase, event, true, init_on_connect, retry_ms, interval_ms, pending).0
            == phase,
        service_transition(
            ServicePhase::Waiting { connected },
            ServiceEvent::Ready,
            true,
            init_on_connect,
            retry_ms,
            interval_ms,
            pending,
        ).1 == (ServiceAction::Stop { failed: false }),
{
}

/// The service loop's position.
pub struct ServiceLoop {
    phase: ServicePhase,
}

impl ServiceLoop {
    pub closed spec fn spec_phase(&self) -> ServicePhase {
        self.phase
    }

    /// A loop about to start, with no device session; report `Ready` first.
    pub fn new() -> (s: ServiceLoop)
        ensures
            s.spec_phase() == (ServicePhase::Waiting { connected: false }),
    {
        ServiceLoop { phase: ServicePhase::Waiting { connected: false } }
    }

    /// The step the loop is waiting on.
    pub fn phase(&self) -> (p: ServicePhase)
        ensures
            p == self.spec_phase(),
    {
        self.phase
    }

    /// Whether a device session is open; when it is not, the caller holds none.
    pub fn session_open(&self) -> (r: bool)
        ensures
            r == session_open(self.spec_phase()),
    {
        match self.phase {
            ServicePhase::Waiting { connected } => connected,
            ServicePhase::CheckingConfig { connected } => connected,
            ServicePhase::OpeningDevice => false,
            ServicePhase::InitializingDevice => true,
            ServicePhase::RefreshingSource => true,
            ServicePhase::Uploading => true,
            ServicePhase::Stopped { .. } => false,
        }
    }

    /// Takes what the last step reported, with whether shutdown has been
    /// requested, and gives the next step. A configuration check clears the
    /// reconnect request in `state` once it has been acted on.
    pub fn step<S>(&mut self, state: &mut RuntimeState<S>, event: ServiceEvent, shutdown: bool) -> (action: ServiceAction)
        ensures
            ({
                let t = service_transition(
                    old(self).spec_phase(),
                    event,
                    shutdown,
                    old(state).spec_config().protocol.init_on_connect,
                    old(state).spec_config().refresh.retry_delay_ms,
                    old(state).spec_config().refresh.interval_ms,
                    old(state).spec_reconnect_required(),
                );
                &&& final(self).spec_phase() == t.0
                &&& action == t.1
                &&& final(state).spec_reconnect_required() == t.2
            }),
            final(state).spec_config() == old(state).spec_config(),
            final(state).spec_source() == old(state).spec_source(),
            final(state).spec_config_path() == old(state).spec_config_path(),
            final(state).spec_last_seen_bytes() == old(state).spec_last_seen_bytes(),
            final(state).spec_next_check_at() == old(state).spec_next_check_at(),
    {
        let retry_ms = state.retry_delay();
        let interval_ms = state.refresh_interval();
        let init_on_connect = state.config().protocol.init_on_connect;
        let (phase, action) = match self.phase {
            ServicePhase::Stopped { failed } => (self.phase, ServiceAction::Stop { failed }),
            ServicePhase::Waiting { connected } => match event {
                ServiceEvent::Ready => if shutdown {
                    (ServicePhase::Stopped { failed: false }, ServiceAction::Stop { failed: false })
                } else {
                    (ServicePhase::CheckingConfig { connected }, ServiceAction::CheckConfig)
                },
                _ => (ServicePhase::Stopped { failed: true }, ServiceAction::Stop { failed: true }),
            },
            ServicePhase::CheckingConfig { connected } => match event {
                ServiceEvent::ConfigChecked(outcome) => if !connected {
                    state.clear_reconnect_required();
                    (ServicePhase::OpeningDevice, ServiceAction::OpenDevice)
                } else if state.reconnect_after_reload(outcome) {
                    if shutdown {
                        (ServicePhase::Stopped { failed: false }, ServiceAction::Stop { failed: false })
                    } else {
                        (ServicePhase::CheckingConfig { connected: false }, ServiceAction::CheckConfig)
                    }
                } else {
                    (ServicePhase::RefreshingSource, ServiceAction::RefreshSource)
                },
                ServiceEvent::ConfigCheckFailed => if !connected {
                    (ServicePhase::Stopped { failed: true }, ServiceAction::Stop { failed: true })
                } else {
                    (ServicePhase::Waiting { connected: false }, ServiceAction::Sleep { ms: retry_ms })
                },
                _ => (ServicePhase::Stopped { failed: true }, ServiceAction::Stop { failed: true }),
            },
            ServicePhase::OpeningDevice => match event {
                ServiceEvent::DeviceOpened => if init_on_connect {
                    (ServicePhase::InitializingDevice, ServiceAction::InitializeDevice)
                } else {
                    Self::connected_round(shutdown)
                },
                ServiceEvent::DeviceUnavailable => (
                    ServicePhase::Waiting { connected: false },
                    ServiceAction::Sleep { ms: retry_ms },
                ),
                _ => (ServicePhase::Stopped { failed: true }, ServiceAction::Stop { failed: true }),
            },
            ServicePhase::InitializingDevice => match event {
                ServiceEvent::DeviceInitialized => Self::connected_round(shutdown),
                ServiceEvent::DeviceInitFailed => (
                    ServicePhase::Waiting { connected: false },
                    ServiceAction::Sleep { ms: retry_ms },
                ),
                _ => (ServicePhase::Stopped { failed: true }, ServiceAction::Stop { failed: true }),
            },
            ServicePhase::RefreshingSource => match event {
                ServiceEvent::SourceRefreshed => (ServicePhase::Uploading, ServiceAction::Upload),
                ServiceEvent::SourceFailed => (
                    ServicePhase::Waiting { connected: false },
                    ServiceAction::Sleep { ms: retry_ms },
                ),
                _ => (ServicePhase::Stopped { failed: true }, ServiceAction::Stop { failed: true }),
            },
            ServicePhase::Uploading => match event {
                ServiceEvent::Uploaded => if shutdown {
                    (ServicePhase::Stopped { failed: false }, ServiceAction::Stop { failed: false })
                } else if interval_ms == 0 {
                    (ServicePhase::CheckingConfig { connected: true }, ServiceAction::CheckConfig)
                } else {
                    (ServicePhase::Waiting { connected: true }, ServiceAction::Sleep { ms: interval_ms })
                },
                ServiceEvent::UploadFailed => (
                    ServicePhase::Waiting { connected: false },
                    ServiceAction::Sleep { ms: retry_ms },
                ),
                _ => (ServicePhase::Stopped { failed: true }, ServiceAction::Stop { failed: true }),
            },
        };
        self.phase = phase;
        action
    }

    fn connected_round(shutdown: bool) -> (r: (ServicePhase, ServiceAction))
        ensures
            r == connected_round(shutdown),
    {
        if shutdown {
            (ServicePhase::Stopped { failed: false }, ServiceAction::Stop { failed: false })
        } else {
            (ServicePhase::CheckingConfig { connected: true }, ServiceAction::CheckConfig)
        }
    }
}

} // verus!
