//! The running service's configuration state: which differences between two
//! configurations matter, what a reload changes, and when the device session
//! has to be reopened.

use vstd::prelude::*;

use crate::config::{
    AppConfig, ConfigError, DashboardConfig, DashboardSlot, DeviceConfig, LoggingConfig,
    SourceConfig, config_check,
};
use crate::frame::PreparedImage;
use crate::source::FrameSource;

verus! {

/// What a configuration reload did.
#[derive(Debug, Clone, Copy, PartialEq, Eq, Structural)]
pub enum ConfigReloadOutcome {
    /// Nothing changed, or the update was ignored.
    Unchanged,
    /// The update was applied and the device session can stay open.
    Applied,
    /// The update was applied and the device session must be reopened.
    ReconnectRequired,
}

/// Two optional texts hold the same characters.
pub open spec fn opt_text_same(a: Option<String>, b: Option<String>) -> bool {
    match (a, b) {
        (Some(x), Some(y)) => x@ == y@,
        (None, None) => true,
        _ => false,
    }
}

pub open spec fn slot_same(a: DashboardSlot, b: DashboardSlot) -> bool {
    a.title@ == b.title@ && a.subtitle@ == b.subtitle@ && a.metric == b.metric
}

pub open spec fn slots_same(a: Seq<DashboardSlot>, b: Seq<DashboardSlot>) -> bool {
    a.len() == b.len() && forall|i: int| 0 <= i < a.len() ==> slot_same(#[trigger] a[i], b[i])
}

pub open spec fn device_same(a: DeviceConfig, b: DeviceConfig) -> bool {
    &&& a.vendor_id == b.vendor_id
    &&& a.product_id == b.product_id
    &&& a.interface_init == b.interface_init
    &&& a.interface_bulk == b.interface_bulk
    &&& opt_text_same(a.serial, b.serial)
}

pub open spec fn source_same(a: SourceConfig, b: SourceConfig) -> bool {
    a.path@ == b.path@ && a.rotate_degrees == b.rotate_degrees
}

pub open spec fn dashboard_same(a: DashboardConfig, b: DashboardConfig) -> bool {
    &&& a.render_interval_ms == b.render_interval_ms
    &&& a.layout == b.layout
    &&& a.time_format == b.time_format
    &&& a.temperature_unit == b.temperature_unit
    &&& opt_text_same(a.font_path, b.font_path)
    &&& opt_text_same(a.font_family, b.font_family)
    &&& opt_text_same(a.debug_output_path, b.debug_output_path)
    &&& slots_same(a.slots@, b.slots@)
}

/// Two configurations hold the same settings.
pub open spec fn config_same(a: AppConfig, b: AppConfig) -> bool {
    &&& device_same(a.device, b.device)
    &&& a.logging == b.logging
    &&& opt_text_same(a.basedir, b.basedir)
    &&& source_same(a.source, b.source)
    &&& dashboard_same(a.dashboard, b.dashboard)
    &&& a.refresh == b.refresh
    &&& a.protocol == b.protocol
}

/// A change that only a new device session can apply: the device selection,
/// the protocol options, or the ack timeout.
pub open spec fn needs_reconnect(a: AppConfig, b: AppConfig) -> bool {
    !device_same(a.device, b.device) || a.protocol != b.protocol || a.refresh.ack_timeout_ms
        != b.refresh.ack_timeout_ms
}

/// A change that needs the frame source rebuilt: the source, the dashboard or
/// the reload polling interval.
pub open spec fn needs_source_rebuild(a: AppConfig, b: AppConfig) -> bool {
    !source_same(a.source, b.source) || !dashboard_same(a.dashboard, b.dashboard)
        || a.refresh.reload_check_interval_ms != b.refresh.reload_check_interval_ms
}

/// What reloading from configuration `current` to `next` reports.
pub open spec fn reload_outcome(current: AppConfig, next: AppConfig) -> ConfigReloadOutcome {
    if config_same(current, next) {
        ConfigReloadOutcome::Unchanged
    } else if needs_reconnect(current, next) {
        ConfigReloadOutcome::ReconnectRequired
    } else {
        ConfigReloadOutcome::Applied
    }
}

/// `seq![name]` when `changed`, else nothing.
pub open spec fn mention(changed: bool, name: &'static str) -> Seq<&'static str> {
    if changed {
        seq![name]
    } else {
        Seq::empty()
    }
}

/// The names of the settings that differ between `current` and `next`, in a
/// fixed order.
pub open spec fn config_changes(current: AppConfig, next: AppConfig) -> Seq<&'static str> {
    mention(!device_same(current.device, next.device), "device") + mention(
        !source_same(current.source, next.source),
        "source",
    ) + mention(!dashboard_same(current.dashboard, next.dashboard), "dashboard") + mention(
        current.logging.level != next.logging.level,
        "logging.level",
    ) + mention(current.logging.color != next.logging.color, "logging.color") + mention(
        current.refresh.interval_ms != next.refresh.interval_ms,
        "refresh.interval_ms",
    ) + mention(current.refresh.ack_timeout_ms != next.refresh.ack_timeout_ms, "refresh.ack_timeout_ms")
        + mention(current.refresh.retry_delay_ms != next.refresh.retry_delay_ms, "refresh.retry_delay_ms")
        + mention(
        current.refresh.reload_check_interval_ms != next.refresh.reload_check_interval_ms,
        "refresh.reload_check_interval_ms",
    ) + mention(current.protocol != next.protocol, "protocol")
}

fn opt_text_eq(a: &Option<String>, b: &Option<String>) -> (r: bool)
    ensures
        r == opt_text_same(*a, *b),
{
    match (a, b) {
        (Some(x), Some(y)) => *x == *y,
        (None, None) => true,
        _ => false,
    }
}

fn slots_eq(a: &Vec<DashboardSlot>, b: &Vec<DashboardSlot>) -> (r: bool)
    ensures
        r == slots_same(a@, b@),
{
    if a.len() != b.len() {
        return false;
    }
    let mut i: usize = 0;
    while i < a.len()
        invariant
            a@.len() == b@.len(),
            i <= a@.len(),
            forall|k: int| 0 <= k < i ==> slot_same(#[trigger] a@[k], b@[k]),
        decreases a@.len() - i,
    {
        let x = &a[i];
        let y = &b[i];
        if !(x.title == y.title && x.subtitle == y.subtitle && x.metric == y.metric) {
            return false;
        }
        i = i + 1;
    }
    true
}

fn device_eq(a: &DeviceConfig, b: &DeviceConfig) -> (r: bool)
    ensures
        r == device_same(*a, *b),
{
    a.vendor_id == b.vendor_id && a.product_id == b.product_id && a.interface_init
        == b.interface_init && a.interface_bulk == b.interface_bulk && opt_text_eq(
        &a.serial,
        &b.serial,
    )
}

fn source_eq(a: &SourceConfig, b: &SourceConfig) -> (r: bool)
    ensures
        r == source_same(*a, *b),
{
    a.path == b.path && a.rotate_degrees == b.rotate_degrees
}

fn dashboard_eq(a: &DashboardConfig, b: &DashboardConfig) -> (r: bool)
    ensures
        r == dashboard_same(*a, *b),
{
    a.render_interval_ms == b.render_interval_ms && a.layout == b.layout && a.time_format
        == b.time_format && a.temperature_unit == b.temperature_unit && opt_text_eq(
        &a.font_path,
        &b.font_path,
    ) && opt_text_eq(&a.font_family, &b.font_family) && opt_text_eq(
        &a.debug_output_path,
        &b.debug_output_path,
    ) && slots_eq(&a.slots, &b.slots)
}

/// Whether two configurations hold the same settings.
pub fn configs_equal(a: &AppConfig, b: &AppConfig) -> (r: bool)
    ensures
        r == config_same(*a, *b),
{
    device_eq(&a.device, &b.device) && a.logging == b.logging && opt_text_eq(
        &a.basedir,
        &b.basedir,
    ) && source_eq(&a.source, &b.source) && dashboard_eq(&a.dashboard, &b.dashboard)
        && a.refresh == b.refresh && a.protocol == b.protocol
}

fn mention_if(changed: &mut Vec<&'static str>, differs: bool, name: &'static str)
    ensures
        final(changed)@ == old(changed)@ + mention(differs, name),
{
    if differs {
        changed.push(name);
    }
    assert(final(changed)@ =~= old(changed)@ + mention(differs, name));
}

/// The names of the settings that differ, for the reload log line.
pub fn describe_config_changes(current: &AppConfig, next: &AppConfig) -> (changed: Vec<&'static str>)
    ensures
        changed@ == config_changes(*current, *next),
{
    let mut changed: Vec<&'static str> = Vec::new();
    let device = !device_eq(&current.device, &next.device);
    let source = !source_eq(&current.source, &next.source);
    let dashboard = !dashboard_eq(&current.dashboard, &next.dashboard);
    mention_if(&mut changed, device, "device");
    mention_if(&mut changed, source, "source");
    mention_if(&mut changed, dashboard, "dashboard");
    mention_if(&mut changed, current.logging.level != next.logging.level, "logging.level");
    mention_if(&mut changed, current.logging.color != next.logging.color, "logging.color");
    mention_if(
        &mut changed,
        current.refresh.interval_ms != next.refresh.interval_ms,
        "refresh.interval_ms",
    );
    mention_if(
        &mut changed,
        current.refresh.ack_timeout_ms != next.refresh.ack_timeout_ms,
        "refresh.ack_timeout_ms",
    );
    mention_if(
        &mut changed,
        current.refresh.retry_delay_ms != next.refresh.retry_delay_ms,
        "refresh.retry_delay_ms",
    );
    mention_if(
        &mut changed,
        current.refresh.reload_check_interval_ms != next.refresh.reload_check_interval_ms,
        "refresh.reload_check_interval_ms",
    );
    mention_if(&mut changed, current.protocol != next.protocol, "protocol");
    assert(Seq::<&'static str>::empty() + mention(device, "device") == mention(device, "device"));
    changed
}

/// The steps a reload from the current configuration to a new one takes.
#[derive(Debug, Clone, Copy, PartialEq, Eq, Structural)]
pub struct ConfigChangePlan {
    /// The new configuration holds the same settings: nothing to do.
    pub unchanged: bool,
    /// The frame source has to be rebuilt from the new configuration.
    pub rebuild_source: bool,
    /// The logger has to be reconfigured.
    pub reload_logging: bool,
    /// The device session has to be reopened.
    pub reconnect_required: bool,
}

/// Works out what moving from `current` to `next` involves.
pub fn plan_config_change(current: &AppConfig, next: &AppConfig) -> (plan: ConfigChangePlan)
    ensures
        plan.unchanged == config_same(*current, *next),
        plan.rebuild_source == needs_source_rebuild(*current, *next),
        plan.reload_logging == (current.logging != next.logging),
        plan.reconnect_required == needs_reconnect(*current, *next),
{
    ConfigChangePlan {
        unchanged: configs_equal(current, next),
        rebuild_source: !source_eq(&current.source, &next.source) || !dashboard_eq(
            &current.dashboard,
            &next.dashboard,
        ) || current.refresh.reload_check_interval_ms != next.refresh.reload_check_interval_ms,
        reload_logging: current.logging != next.logging,
        reconnect_required: !device_eq(&current.device, &next.device) || current.protocol
            != next.protocol || current.refresh.ack_timeout_ms != next.refresh.ack_timeout_ms,
    }
}

/// The running service state: the configuration in force, the file it came
/// from, the frame source built from it, and the reload bookkeeping. Times are
/// milliseconds on the caller's monotonic clock.
pub struct RuntimeState<S> {
    config_path: String,
    config: AppConfig,
    last_seen_config_bytes: Vec<u8>,
    next_config_check_at_ms: u64,
    reconnect_required: bool,
    source: S,
}

impl<S> RuntimeState<S> {
    pub closed spec fn spec_config_path(&self) -> Seq<char> {
        self.config_path@
    }

    pub closed spec fn spec_config(&self) -> AppConfig {
        self.config
    }

    pub closed spec fn spec_last_seen_bytes(&self) -> Seq<u8> {
        self.last_seen_config_bytes@
    }

    pub closed spec fn spec_next_check_at(&self) -> u64 {
        self.next_config_check_at_ms
    }

    pub closed spec fn spec_reconnect_required(&self) -> bool {
        self.reconnect_required
    }

    pub closed spec fn spec_source(&self) -> S {
        self.source
    }

    /// The configuration file being watched.
    pub fn config_path(&self) -> (p: &String)
        ensures
            p@ == self.spec_config_path(),
    {
        &self.config_path
    }

    /// The configuration in force.
    pub fn config(&self) -> (c: &AppConfig)
        ensures
            *c == self.spec_config(),
    {
        &self.config
    }

    /// The frame source built from the configuration in force.
    pub fn source(&self) -> (s: &S)
        ensures
            *s == self.spec_source(),
    {
        &self.source
    }

    /// The frame source, for refreshing it.
    pub fn source_mut(&mut self) -> (s: &mut S)
        ensures
            *s == old(self).spec_source(),
            final(self).spec_source() == *final(s),
            final(self).spec_config() == old(self).spec_config(),
            final(self).spec_config_path() == old(self).spec_config_path(),
            final(self).spec_last_seen_bytes() == old(self).spec_last_seen_bytes(),
            final(self).spec_next_check_at() == old(self).spec_next_check_at(),
            final(self).spec_reconnect_required() == old(self).spec_reconnect_required(),
    {
        &mut self.source
    }

    /// The pause between uploads, in milliseconds; 0 means continuous.
    pub fn refresh_interval(&self) -> (ms: u64)
        ensures
            ms == self.spec_config().refresh.interval_ms,
    {
        self.config.refresh.interval_ms
    }

    /// The pause before retrying a failed device step, in milliseconds.
    pub fn retry_delay(&self) -> (ms: u64)
        ensures
            ms == self.spec_config().refresh.retry_delay_ms,
    {
        self.config.refresh.retry_delay_ms
    }

    /// The pause between two looks at the configuration file, in milliseconds.
    pub fn reload_interval(&self) -> (ms: u64)
        ensures
            ms == self.spec_config().refresh.reload_check_interval_ms,
    {
        self.config.refresh.reload_check_interval_ms
    }

    /// Whether an applied reload asked for a new device session.
    pub fn reconnect_required(&self) -> (r: bool)
        ensures
            r == self.spec_reconnect_required(),
    {
        self.reconnect_required
    }

    /// Forgets a pending reconnect request.
    pub fn clear_reconnect_required(&mut self)
        ensures
            !final(self).spec_reconnect_required(),
            final(self).spec_config() == old(self).spec_config(),
            final(self).spec_source() == old(self).spec_source(),
            final(self).spec_config_path() == old(self).spec_config_path(),
            final(self).spec_last_seen_bytes() == old(self).spec_last_seen_bytes(),
            final(self).spec_next_check_at() == old(self).spec_next_check_at(),
    {
        self.reconnect_required = false;
    }

    /// Reports whether a reconnect was requested, and forgets the request.
    pub fn take_reconnect_required(&mut self) -> (r: bool)
        ensures
            r == old(self).spec_reconnect_required(),
            !final(self).spec_reconnect_required(),
            final(self).spec_config() == old(self).spec_config(),
            final(self).spec_source() == old(self).spec_source(),
            final(self).spec_config_path() == old(self).spec_config_path(),
            final(self).spec_last_seen_bytes() == old(self).spec_last_seen_bytes(),
            final(self).spec_next_check_at() == old(self).spec_next_check_at(),
    {
        let reconnect_required = self.reconnect_required;
        self.reconnect_required = false;
        reconnect_required
    }

    /// Whether the open device session has to be given up after a reload
    /// check that reported `outcome`: the reload itself asked for it, or an
    /// earlier reload did (that request is then taken and forgotten).
    pub fn reconnect_after_reload(&mut self, outcome: ConfigReloadOutcome) -> (r: bool)
        ensures
            outcome == ConfigReloadOutcome::ReconnectRequired ==> r,
            outcome == ConfigReloadOutcome::ReconnectRequired ==> final(self).spec_reconnect_required()
                == old(self).spec_reconnect_required(),
            outcome != ConfigReloadOutcome::ReconnectRequired ==> r == old(self).spec_reconnect_required(),
            outcome != ConfigReloadOutcome::ReconnectRequired ==> !final(self).spec_reconnect_required(),
            final(self).spec_config() == old(self).spec_config(),
            final(self).spec_source() == old(self).spec_source(),
            final(self).spec_config_path() == old(self).spec_config_path(),
            final(self).spec_last_seen_bytes() == old(self).spec_last_seen_bytes(),
            final(self).spec_next_check_at() == old(self).spec_next_check_at(),
    {
        outcome == ConfigReloadOutcome::ReconnectRequired || self.take_reconnect_required()
    }

    /// Whether the configuration file is due for another look at `now_ms`.
    pub fn config_check_due(&self, now_ms: u64) -> (due: bool)
        ensures
            due == (now_ms >= self.spec_next_check_at()),
    {
        now_ms >= self.next_config_check_at_ms
    }

    /// Schedules the next look at the configuration file one reload interval
    /// after `now_ms`.
    pub fn schedule_next_config_check(&mut self, now_ms: u64)
        ensures
            final(self).spec_next_check_at() == now_ms.saturating_add(
                old(self).spec_config().refresh.reload_check_interval_ms,
            ),
            final(self).spec_config() == old(self).spec_config(),
            final(self).spec_source() == old(self).spec_source(),
            final(self).spec_config_path() == old(self).spec_config_path(),
            final(self).spec_last_seen_bytes() == old(self).spec_last_seen_bytes(),
            final(self).spec_reconnect_required() == old(self).spec_reconnect_required(),
    {
        self.next_config_check_at_ms = now_ms.saturating_add(
            self.config.refresh.reload_check_interval_ms,
        );
    }

    /// Whether the configuration file is due for a look at `now_ms`; when it
    /// is, the next look is scheduled one reload interval later.
    pub fn take_config_check(&mut self, now_ms: u64) -> (due: bool)
        ensures
            due == (now_ms >= old(self).spec_next_check_at()),
            due ==> final(self).spec_next_check_at() == now_ms.saturating_add(
                old(self).spec_config().refresh.reload_check_interval_ms,
            ),
            !due ==> final(self).spec_next_check_at() == old(self).spec_next_check_at(),
            final(self).spec_config() == old(self).spec_config(),
            final(self).spec_source() == old(self).spec_source(),
            final(self).spec_config_path() == old(self).spec_config_path(),
            final(self).spec_last_seen_bytes() == old(self).spec_last_seen_bytes(),
            final(self).spec_reconnect_required() == old(self).spec_reconnect_required(),
    {
        if !self.config_check_due(now_ms) {
            return false;
        }
        self.schedule_next_config_check(now_ms);
        true
    }

    /// Records the bytes just read from the configuration file; reports whether
    /// they differ from the bytes seen last.
    pub fn note_config_bytes(&mut self, candidate: Vec<u8>) -> (changed: bool)
        ensures
            changed == (candidate@ != old(self).spec_last_seen_bytes()),
            final(self).spec_last_seen_bytes() == candidate@,
            final(self).spec_config() == old(self).spec_config(),
            final(self).spec_source() == old(self).spec_source(),
            final(self).spec_config_path() == old(self).spec_config_path(),
            final(self).spec_next_check_at() == old(self).spec_next_check_at(),
            final(self).spec_reconnect_required() == old(self).spec_reconnect_required(),
    {
        let changed = !bytes_equal(&candidate, &self.last_seen_config_bytes);
        self.last_seen_config_bytes = candidate;
        changed
    }

    /// Works out what a reload to `next` involves.
    pub fn plan_config(&self, next: &AppConfig) -> (plan: ConfigChangePlan)
        ensures
            plan.unchanged == config_same(self.spec_config(), *next),
            plan.rebuild_source == needs_source_rebuild(self.spec_config(), *next),
            plan.reload_logging == (self.spec_config().logging != next.logging),
            plan.reconnect_required == needs_reconnect(self.spec_config(), *next),
    {
        plan_config_change(&self.config, next)
    }

}

impl<S: FrameSource> RuntimeState<S> {
    /// The state for a freshly loaded configuration whose file held
    /// `config_bytes`, with the frame source built from it; the first reload
    /// check is due one reload interval after `now_ms`; the source shows the
    /// configured image. A configuration that
    /// fails validation (an unsupported rotation, a bad dashboard) is refused
    /// with the reason.
    pub fn new(config_path: String, config: AppConfig, config_bytes: Vec<u8>, source: S, now_ms: u64) -> (r: Result<Self, ConfigError>)
        requires
            shows_source(source.spec_current(), config.source),
        ensures
            config_check(config) matches Err(e) ==> r == Err::<Self, ConfigError>(e),
            config_check(config) is Ok ==> (r matches Ok(state) && {
                &&& state.spec_config_path() == config_path@
                &&& state.spec_config() == config
                &&& state.spec_last_seen_bytes() == config_bytes@
                &&& state.spec_next_check_at() == now_ms.saturating_add(
                    config.refresh.reload_check_interval_ms,
                )
                &&& !state.spec_reconnect_required()
                &&& state.spec_source() == source
            }),
    {
        config.validate()?;
        let next = now_ms.saturating_add(config.refresh.reload_check_interval_ms);
        Ok(
            RuntimeState {
                config_path,
                config,
                last_seen_config_bytes: config_bytes,
                next_config_check_at_ms: next,
                reconnect_required: false,
                source,
            },
        )
    }

    /// Puts `next` in force. A configuration with the same settings changes
    /// nothing. Otherwise the update needs a new frame source when the
    /// source, the dashboard or the reload interval changed (`next_source`,
    /// built by the caller from `next`; a source given for any other update
    /// is dropped), and the logger has to have taken new logging settings
    /// (`logging_applied`). When either is missing the update is refused and
    /// the state is left exactly as it was. An accepted update replaces the
    /// configuration, requests a reconnect when the device session settings
    /// changed, and schedules the next reload check one reload interval after
    /// `now_ms`.
    pub fn apply_config(&mut self, next: AppConfig, next_source: Option<S>, logging_applied: bool, now_ms: u64) -> (r: Result<ConfigReloadOutcome, ReloadError>)
        requires
            next_source matches Some(src) ==> shows_source(src.spec_current(), next.source),
        ensures
            r == apply_result(old(self).spec_config(), next, next_source is Some, logging_applied),
            r is Err ==> *final(self) == *old(self),
            r is Ok ==> config_same(final(self).spec_config(), next),
            r matches Ok(o) && o != ConfigReloadOutcome::Unchanged && needs_source_rebuild(
                old(self).spec_config(),
                next,
            ) ==> shows_source(final(self).spec_source().spec_current(), next.source),
            config_same(old(self).spec_config(), next) ==> {
                &&& final(self).spec_config() == old(self).spec_config()
                &&& final(self).spec_source() == old(self).spec_source()
                &&& final(self).spec_reconnect_required() == old(self).spec_reconnect_required()
                &&& final(self).spec_next_check_at() == now_ms.saturating_add(
                    old(self).spec_config().refresh.reload_check_interval_ms,
                )
            },
            r matches Ok(o) && o != ConfigReloadOutcome::Unchanged ==> {
                &&& final(self).spec_config() == next
                &&& needs_source_rebuild(old(self).spec_config(), next) ==> next_source == Some(
                    final(self).spec_source(),
                )
                &&& !needs_source_rebuild(old(self).spec_config(), next) ==> final(self).spec_source()
                    == old(self).spec_source()
                &&& final(self).spec_reconnect_required() == (old(self).spec_reconnect_required()
                    || needs_reconnect(old(self).spec_config(), next))
                &&& final(self).spec_next_check_at() == now_ms.saturating_add(
                    next.refresh.reload_check_interval_ms,
                )
            },
            final(self).spec_config_path() == old(self).spec_config_path(),
            final(self).spec_last_seen_bytes() == old(self).spec_last_seen_bytes(),
    {
        let plan = plan_config_change(&self.config, &next);
        if plan.unchanged {
            self.schedule_next_config_check(now_ms);
            return Ok(ConfigReloadOutcome::Unchanged);
        }
        if plan.rebuild_source && next_source.is_none() {
            return Err(ReloadError::SourceUnavailable);
        }
        if plan.reload_logging && !logging_applied {
            return Err(ReloadError::LoggingRejected);
        }
        self.config = next;
        if plan.rebuild_source {
            if let Some(source) = next_source {
                self.source = source;
            }
        }
        self.schedule_next_config_check(now_ms);
        self.reconnect_required = self.reconnect_required || plan.reconnect_required;
        if plan.reconnect_required {
            Ok(ConfigReloadOutcome::ReconnectRequired)
        } else {
            Ok(ConfigReloadOutcome::Applied)
        }
    }

    /// Finishes a reload check whose file held changed bytes: `next` is the
    /// configuration read from them, or `None` when they did not parse or
    /// validate; `next_source` and `logging_applied` are as for
    /// `apply_config`. An update that cannot be put in force is ignored: the
    /// running configuration, frame source and reconnect request stay as they
    /// were and the check reports `Unchanged`.
    pub fn reload_config(&mut self, next: Option<AppConfig>, next_source: Option<S>, logging_applied: bool, now_ms: u64) -> (outcome: ConfigReloadOutcome)
        requires
            next_source matches Some(src) ==> (next matches Some(n) && shows_source(
                src.spec_current(),
                n.source,
            )),
        ensures
            next is None ==> outcome == ConfigReloadOutcome::Unchanged && *final(self) == *old(self),
            next matches Some(n) ==> match apply_result(
                old(self).spec_config(),
                n,
                next_source is Some,
                logging_applied,
            ) {
                Ok(o) => outcome == o,
                Err(_) => outcome == ConfigReloadOutcome::Unchanged && *final(self) == *old(self),
            },
            next matches Some(n) ==> outcome != ConfigReloadOutcome::Unchanged ==> {
                &&& final(self).spec_config() == n
                &&& needs_source_rebuild(old(self).spec_config(), n) ==> next_source == Some(
                    final(self).spec_source(),
                )
                &&& !needs_source_rebuild(old(self).spec_config(), n) ==> final(self).spec_source()
                    == old(self).spec_source()
                &&& final(self).spec_reconnect_required() == (old(self).spec_reconnect_required()
                    || needs_reconnect(old(self).spec_config(), n))
            },
            outcome == ConfigReloadOutcome::Unchanged ==> {
                &&& final(self).spec_config() == old(self).spec_config()
                &&& final(self).spec_source() == old(self).spec_source()
                &&& final(self).spec_reconnect_required() == old(self).spec_reconnect_required()
            },
            final(self).spec_config_path() == old(self).spec_config_path(),
            final(self).spec_last_seen_bytes() == old(self).spec_last_seen_bytes(),
    {
        match next {
            None => ConfigReloadOutcome::Unchanged,
            Some(next) => match self.apply_config(next, next_source, logging_applied, now_ms) {
                Ok(outcome) => outcome,
                Err(_) => ConfigReloadOutcome::Unchanged,
            },
        }
    }
}

/// `img` shows the image configured in `source`: it was made from the
/// configured file and is a 320x320 JPEG.
pub open spec fn shows_source(img: PreparedImage, source: SourceConfig) -> bool {
    &&& img.spec_source_path() == source.path@
    &&& img.spec_width() == 320
    &&& img.spec_height() == 320
}

/// Why a configuration update was not put in force.
#[derive(Debug, Clone, Copy, PartialEq, Eq, Structural)]
pub enum ReloadError {
    /// The update needs a new frame source and none could be built.
    SourceUnavailable,
    /// The logger did not take the new logging settings.
    LoggingRejected,
}

/// What applying `next` over `current` reports, given whether a new frame
/// source was built and whether the logger took the new logging settings.
pub open spec fn apply_result(current: AppConfig, next: AppConfig, source_built: bool, logging_applied: bool) -> Result<ConfigReloadOutcome, ReloadError> {
    if config_same(current, next) {
        Ok(ConfigReloadOutcome::Unchanged)
    } else if needs_source_rebuild(current, next) && !source_built {
        Err(ReloadError::SourceUnavailable)
    } else if current.logging != next.logging && !logging_applied {
        Err(ReloadError::LoggingRejected)
    } else {
        Ok(reload_outcome(current, next))
    }
}

/// Holding the same settings is an equivalence: reflexive, symmetric and
/// transitive.
pub proof fn lemma_config_same_is_equivalence(a: AppConfig, b: AppConfig, c: AppConfig)
    ensures
        config_same(a, a),
        config_same(a, b) ==> config_same(b, a),
        config_same(a, b) && config_same(b, c) ==> config_same(a, c),
{
    if config_same(a, b) {
        assert forall|i: int| 0 <= i < b.dashboard.slots@.len() implies slot_same(
            #[trigger] b.dashboard.slots@[i],
            a.dashboard.slots@[i],
        ) by {
            assert(slot_same(a.dashboard.slots@[i], b.dashboard.slots@[i]));
        }
    }
    if config_same(a, b) && config_same(b, c) {
        assert forall|i: int| 0 <= i < a.dashboard.slots@.len() implies slot_same(
            #[trigger] a.dashboard.slots@[i],
            c.dashboard.slots@[i],
        ) by {
            assert(slot_same(a.dashboard.slots@[i], b.dashboard.slots@[i]));
            assert(slot_same(b.dashboard.slots@[i], c.dashboard.slots@[i]));
        }
    }
}

/// A reload to settings already in force reports `Unchanged`; in particular,
/// once a configuration has been applied, reloading it again changes nothing.
pub proof fn lemma_reload_is_idempotent(current: AppConfig, next: AppConfig)
    ensures
        config_same(current, next) ==> reload_outcome(current, next) == ConfigReloadOutcome::Unchanged,
        reload_outcome(next, next) == ConfigReloadOutcome::Unchanged,
{
    lemma_config_same_is_equivalence(next, next, next);
}

/// Re-applying a configuration that an update has just put in force (or any
/// copy of it with the same settings) reports `Unchanged`, whatever source or
/// logger result comes with it, so the second application leaves the
/// configuration, the source and the reconnect request as they were.
pub proof fn lemma_reapplying_changes_nothing(
    in_force: AppConfig,
    applied: AppConfig,
    again: AppConfig,
    source_built: bool,
    logging_applied: bool,
)
    requires
        config_same(in_force, applied),
        config_same(applied, again),
    ensures
        apply_result(in_force, again, source_built, logging_applied) == Ok::<
            ConfigReloadOutcome,
            ReloadError,
        >(ConfigReloadOutcome::Unchanged),
{
    lemma_config_same_is_equivalence(in_force, applied, again);
}

/// The frame source is rebuilt exactly when something it is built from
/// changed: the image file or its rotation, any dashboard setting (the
/// layout, the number of slots, any slot's title, subtitle or metric, the
/// render interval, time format, temperature unit, font or debug output), or
/// the reload interval.
pub proof fn lemma_rebuild_follows_view_settings(a: AppConfig, b: AppConfig, i: int)
    ensures
        a.source.path@ != b.source.path@ ==> needs_source_rebuild(a, b),
        a.source.rotate_degrees != b.source.rotate_degrees ==> needs_source_rebuild(a, b),
        a.dashboard.layout != b.dashboard.layout ==> needs_source_rebuild(a, b),
        a.dashboard.slots@.len() != b.dashboard.slots@.len() ==> needs_source_rebuild(a, b),
        0 <= i < a.dashboard.slots@.len() && i < b.dashboard.slots@.len() && (
        a.dashboard.slots@[i].metric != b.dashboard.slots@[i].metric
            || a.dashboard.slots@[i].title@ != b.dashboard.slots@[i].title@
            || a.dashboard.slots@[i].subtitle@ != b.dashboard.slots@[i].subtitle@) ==> needs_source_rebuild(
            a,
            b,
        ),
        a.dashboard.render_interval_ms != b.dashboard.render_interval_ms ==> needs_source_rebuild(a, b),
        a.dashboard.time_format != b.dashboard.time_format ==> needs_source_rebuild(a, b),
        a.dashboard.temperature_unit != b.dashboard.temperature_unit ==> needs_source_rebuild(a, b),
        !opt_text_same(a.dashboard.font_path, b.dashboard.font_path) ==> needs_source_rebuild(a, b),
        !opt_text_same(a.dashboard.font_family, b.dashboard.font_family) ==> needs_source_rebuild(a, b),
        !opt_text_same(a.dashboard.debug_output_path, b.dashboard.debug_output_path)
            ==> needs_source_rebuild(a, b),
        a.refresh.reload_check_interval_ms != b.refresh.reload_check_interval_ms
            ==> needs_source_rebuild(a, b),
        !needs_source_rebuild(a, b) ==> {
            &&& a.source.path@ == b.source.path@
            &&& a.source.rotate_degrees == b.source.rotate_degrees
            &&& a.dashboard.layout == b.dashboard.layout
            &&& a.dashboard.slots@.len() == b.dashboard.slots@.len()
            &&& a.dashboard.render_interval_ms == b.dashboard.render_interval_ms
            &&& a.refresh.reload_check_interval_ms == b.refresh.reload_check_interval_ms
            &&& 0 <= i < a.dashboard.slots@.len() ==> {
                &&& a.dashboard.slots@[i].metric == b.dashboard.slots@[i].metric
                &&& a.dashboard.slots@[i].title@ == b.dashboard.slots@[i].title@
                &&& a.dashboard.slots@[i].subtitle@ == b.dashboard.slots@[i].subtitle@
            }
        },
{
    if 0 <= i < a.dashboard.slots@.len() && i < b.dashboard.slots@.len() && slots_same(
        a.dashboard.slots@,
        b.dashboard.slots@,
    ) {
        assert(slot_same(a.dashboard.slots@[i], b.dashboard.slots@[i]));
    }
}

/// Changes that leave the device selection, the protocol options and the ack
/// timeout alone (upload pacing, retry delay, logging, source, dashboard,
/// reload polling) never require a new device session.
pub proof fn lemma_session_settings_decide_reconnect(current: AppConfig, next: AppConfig)
    ensures
        reload_outcome(current, next) == ConfigReloadOutcome::ReconnectRequired <==> (!config_same(
            current,
            next,
        ) && needs_reconnect(current, next)),
        device_same(current.device, next.device) && current.protocol == next.protocol
            && current.refresh.ack_timeout_ms == next.refresh.ack_timeout_ms ==> reload_outcome(
            current,
            next,
        ) != ConfigReloadOutcome::ReconnectRequired,
{
}

/// The change list names every difference except `basedir`: it is empty
/// exactly when all other settings agree.
pub proof fn lemma_changes_name_every_difference(current: AppConfig, next: AppConfig)
    ensures
        config_changes(current, next).len() == 0 <==> {
            &&& device_same(current.device, next.device)
            &&& source_same(current.source, next.source)
            &&& dashboard_same(current.dashboard, next.dashboard)
            &&& current.logging == next.logging
            &&& current.refresh == next.refresh
            &&& current.protocol == next.protocol
        },
        config_changes(current, next).len() == 0 && opt_text_same(current.basedir, next.basedir)
            <==> config_same(current, next),
{
}

pub(crate) fn bytes_equal(a: &Vec<u8>, b: &Vec<u8>) -> (r: bool)
    ensures
        r == (a@ == b@),
{
    if a.len() != b.len() {
        return false;
    }
    let mut i: usize = 0;
    while i < a.len()
        invariant
            a@.len() == b@.len(),
            i <= a@.len(),
            forall|k: int| 0 <= k < i ==> a@[k] == b@[k],
        decreases a@.len() - i,
    {
        if a[i] != b[i] {
            return false;
        }
        i = i + 1;
    }
    assert(a@ =~= b@);
    true
}

} // verus!
