//! The service configuration: its typed schema, defaults, validation, the
//! vocabulary of its enumerated values, relative-path resolution and the
//! command-line choice of the configuration file.

use vstd::prelude::*;

use crate::protocol::{
    DEFAULT_ACK_TIMEOUT_MS, DEFAULT_BULK_INTERFACE, DEFAULT_INIT_INTERFACE, DEFAULT_PRODUCT_ID,
    DEFAULT_REFRESH_INTERVAL_MS, DEFAULT_RELOAD_CHECK_INTERVAL_MS, DEFAULT_RETRY_DELAY_MS,
    DEFAULT_VENDOR_ID,
};
use crate::rotation::{Rotation, rotation_from_degrees_spec};
use crate::text::{ascii_lower, blank, chars_equal, is_blank, occurs_at, starts_with_chars, trim, trimmed_lower};
use vstd::string::*;

verus! {

/// Why a configuration, or one of its values, was rejected.
#[derive(Debug, Clone, Copy, PartialEq, Eq, Structural)]
pub enum ConfigError {
    /// `source.rotate_degrees` is not 0, 90, 180 or 270.
    InvalidRotation { degrees: u16 },
    /// `logging.level` is not a known level name.
    UnsupportedLogLevel,
    /// A name of an enumerated value is not known.
    UnknownName,
    /// `dashboard.render_interval_ms` is 0.
    RenderIntervalZero,
    /// More than four `dashboard.slots`.
    TooManySlots { layout: DashboardLayout, count: usize },
    /// `dashboard.slots[index].title` is blank.
    EmptySlotTitle { index: usize },
    /// `dashboard.slots[index].subtitle` is blank.
    EmptySlotSubtitle { index: usize },
    /// `dashboard.font_family` is set but blank.
    EmptyFontFamily,
    /// `basedir` is neither a known mode nor an absolute path.
    RelativeBasedir,
    /// `--config` is the last argument, with no path after it.
    MissingConfigValue,
    /// `--output` is the last argument, with no path after it.
    MissingOutputValue,
    /// The real location of the configuration file is needed but was not given.
    UnresolvedConfigPath,
    /// None of `config.toml`, `config.ron`, `config.corn` is in the directory.
    NoConfigFile,
    /// The command-line argument at `index` is not `--config`.
    UnsupportedArgument { index: usize },
}

/// The most verbose level of log records that is shown.
#[derive(Debug, Clone, Copy, PartialEq, Eq, Structural)]
pub enum LevelFilter {
    Off,
    Error,
    Warn,
    Info,
    Debug,
    Trace,
}

/// The `logging.level` value.
#[derive(Debug, Clone, Copy, PartialEq, Eq, Structural)]
pub struct LogLevel(pub LevelFilter);

/// The level that a level name names; names are matched after trimming and
/// ASCII lower-casing.
pub open spec fn level_from_name(name: Seq<char>) -> Option<LevelFilter> {
    if name == seq!['o', 'f', 'f'] {
        Some(LevelFilter::Off)
    } else if name == seq!['e', 'r', 'r', 'o', 'r'] {
        Some(LevelFilter::Error)
    } else if name == seq!['w', 'a', 'r', 'n'] {
        Some(LevelFilter::Warn)
    } else if name == seq!['i', 'n', 'f', 'o'] {
        Some(LevelFilter::Info)
    } else if name == seq!['d', 'e', 'b', 'u', 'g'] {
        Some(LevelFilter::Debug)
    } else if name == seq!['t', 'r', 'a', 'c', 'e'] {
        Some(LevelFilter::Trace)
    } else {
        None
    }
}

/// The level a `logging.level` text selects, if any.
pub open spec fn parse_level_spec(text: Seq<char>) -> Option<LevelFilter> {
    level_from_name(ascii_lower(trim(text)))
}

impl LogLevel {
    /// The level this value holds.
    pub open spec fn spec_level(self) -> LevelFilter {
        self.0
    }

    /// The level filter for the logger.
    pub fn into_level_filter(self) -> (level: LevelFilter)
        ensures
            level == self.spec_level(),
    {
        self.0
    }

    /// Parses a level name such as `info`, `DEBUG` or ` trace `.
    pub fn parse(value: &str) -> (result: Result<LogLevel, ConfigError>)
        ensures
            parse_level_spec(value@) is None ==> result == Err::<LogLevel, ConfigError>(
                ConfigError::UnsupportedLogLevel,
            ),
            parse_level_spec(value@) matches Some(level) ==> result matches Ok(l)
                && l.spec_level() == level,
    {
        let name = trimmed_lower(value);
        let name = name.as_slice();
        let level = if chars_equal(name, ['o', 'f', 'f'].as_slice()) {
            LevelFilter::Off
        } else if chars_equal(name, ['e', 'r', 'r', 'o', 'r'].as_slice()) {
            LevelFilter::Error
        } else if chars_equal(name, ['w', 'a', 'r', 'n'].as_slice()) {
            LevelFilter::Warn
        } else if chars_equal(name, ['i', 'n', 'f', 'o'].as_slice()) {
            LevelFilter::Info
        } else if chars_equal(name, ['d', 'e', 'b', 'u', 'g'].as_slice()) {
            LevelFilter::Debug
        } else if chars_equal(name, ['t', 'r', 'a', 'c', 'e'].as_slice()) {
            LevelFilter::Trace
        } else {
            return Err(ConfigError::UnsupportedLogLevel);
        };
        Ok(LogLevel(level))
    }
}

impl Default for LogLevel {
    fn default() -> (l: LogLevel)
        ensures
            l.spec_level() == LevelFilter::Info,
    {
        LogLevel(LevelFilter::Info)
    }
}

impl From<LevelFilter> for LogLevel {
    fn from(level: LevelFilter) -> (l: LogLevel) {
        LogLevel(level)
    }
}

impl vstd::std_specs::convert::FromSpecImpl<LevelFilter> for LogLevel {
    open spec fn obeys_from_spec() -> bool {
        true
    }

    open spec fn from_spec(level: LevelFilter) -> LogLevel {
        LogLevel(level)
    }
}

/// The `[logging]` table.
#[derive(Debug, Clone, PartialEq, Eq, Structural)]
pub struct LoggingConfig {
    pub level: LogLevel,
    pub color: bool,
}

impl Default for LoggingConfig {
    fn default() -> (c: LoggingConfig)
        ensures
            c.level.spec_level() == LevelFilter::Info,
            c.color,
    {
        LoggingConfig { level: LogLevel::default(), color: default_true() }
    }
}

/// The `[device]` table: which cooler and which of its HID interfaces to use.
#[derive(Debug, Clone)]
pub struct DeviceConfig {
    pub vendor_id: u16,
    pub product_id: u16,
    pub interface_init: i32,
    pub interface_bulk: i32,
    pub serial: Option<String>,
}

impl Default for DeviceConfig {
    fn default() -> (c: DeviceConfig)
        ensures
            c.vendor_id == DEFAULT_VENDOR_ID,
            c.product_id == DEFAULT_PRODUCT_ID,
            c.interface_init == DEFAULT_INIT_INTERFACE,
            c.interface_bulk == DEFAULT_BULK_INTERFACE,
            c.serial is None,
    {
        DeviceConfig {
            vendor_id: default_vendor_id(),
            product_id: default_product_id(),
            interface_init: default_init_interface(),
            interface_bulk: default_bulk_interface(),
            serial: None,
        }
    }
}

/// The `[source]` table: the background image and its rotation.
#[derive(Debug, Clone)]
pub struct SourceConfig {
    pub path: String,
    pub rotate_degrees: u16,
}

impl SourceConfig {
    /// The rotation that `rotate_degrees` names.
    pub fn rotation(&self) -> (r: Result<Rotation, ConfigError>)
        ensures
            rotation_from_degrees_spec(self.rotate_degrees) matches Ok(rot) ==> r == Ok::<
                Rotation,
                ConfigError,
            >(rot),
            rotation_from_degrees_spec(self.rotate_degrees) is Err ==> r == Err::<
                Rotation,
                ConfigError,
            >(ConfigError::InvalidRotation { degrees: self.rotate_degrees }),
    {
        match Rotation::from_degrees(self.rotate_degrees) {
            Ok(rotation) => Ok(rotation),
            Err(e) => Err(ConfigError::InvalidRotation { degrees: e.degrees }),
        }
    }

    fn validate(&self) -> (r: Result<(), ConfigError>)
        ensures
            r == source_check(*self),
    {
        match self.rotation() {
            Ok(_) => Ok(()),
            Err(e) => Err(e),
        }
    }
}

/// The validation of the `[source]` table.
pub open spec fn source_check(s: SourceConfig) -> Result<(), ConfigError> {
    if rotation_from_degrees_spec(s.rotate_degrees) is Ok {
        Ok(())
    } else {
        Err(ConfigError::InvalidRotation { degrees: s.rotate_degrees })
    }
}

/// How the dashboard slots are arranged.
#[derive(Debug, Clone, Copy, PartialEq, Eq, Structural)]
pub enum DashboardLayout {
    /// Four rows stacked from the top.
    Stack,
    /// Two rows of two cards.
    Grid2x2,
}

/// A built-in metric a dashboard slot shows.
#[derive(Debug, Clone, Copy, PartialEq, Eq, Structural)]
pub enum DashboardMetric {
    CpuUsagePercent,
    CpuTemperature,
    MemoryUsedPercent,
    Time,
}

/// How the time metric is written.
#[derive(Debug, Clone, Copy, PartialEq, Eq, Structural)]
pub enum TimeFormat {
    TwentyFourHour,
}

/// The unit of the temperature metric.
#[derive(Debug, Clone, Copy, PartialEq, Eq, Structural)]
pub enum TemperatureUnit {
    Celsius,
}

impl Default for DashboardLayout {
    fn default() -> (l: DashboardLayout)
        ensures
            l == DashboardLayout::Stack,
    {
        DashboardLayout::Stack
    }
}

impl Default for DashboardMetric {
    fn default() -> (m: DashboardMetric)
        ensures
            m == DashboardMetric::CpuUsagePercent,
    {
        DashboardMetric::CpuUsagePercent
    }
}

impl Default for TimeFormat {
    fn default() -> (f: TimeFormat)
        ensures
            f == TimeFormat::TwentyFourHour,
    {
        TimeFormat::TwentyFourHour
    }
}

impl Default for TemperatureUnit {
    fn default() -> (u: TemperatureUnit)
        ensures
            u == TemperatureUnit::Celsius,
    {
        TemperatureUnit::Celsius
    }
}

/// The configuration names of the layouts: `stack` and `grid_2x2`.
pub open spec fn layout_from_name(name: Seq<char>) -> Option<DashboardLayout> {
    if name == seq!['s', 't', 'a', 'c', 'k'] {
        Some(DashboardLayout::Stack)
    } else if name == seq!['g', 'r', 'i', 'd', '_', '2', 'x', '2'] {
        Some(DashboardLayout::Grid2x2)
    } else {
        None
    }
}

/// The configuration names of the metrics.
pub open spec fn metric_from_name(name: Seq<char>) -> Option<DashboardMetric> {
    if name == seq!['c', 'p', 'u', '_', 'u', 's', 'a', 'g', 'e', '_', 'p', 'e', 'r', 'c', 'e', 'n', 't'] {
        Some(DashboardMetric::CpuUsagePercent)
    } else if name == seq!['c', 'p', 'u', '_', 't', 'e', 'm', 'p', 'e', 'r', 'a', 't', 'u', 'r', 'e'] {
        Some(DashboardMetric::CpuTemperature)
    } else if name == seq![
        'm', 'e', 'm', 'o', 'r', 'y', '_', 'u', 's', 'e', 'd', '_', 'p', 'e', 'r', 'c', 'e', 'n', 't',
    ] {
        Some(DashboardMetric::MemoryUsedPercent)
    } else if name == seq!['t', 'i', 'm', 'e'] {
        Some(DashboardMetric::Time)
    } else {
        None
    }
}

impl DashboardLayout {
    /// The layout a configuration name selects.
    pub fn from_config_name(name: &str) -> (r: Result<DashboardLayout, ConfigError>)
        ensures
            layout_from_name(name@) matches Some(l) ==> r == Ok::<DashboardLayout, ConfigError>(l),
            layout_from_name(name@) is None ==> r == Err::<DashboardLayout, ConfigError>(
                ConfigError::UnknownName,
            ),
    {
        let chars = crate::text::chars_of(name);
        let chars = chars.as_slice();
        if chars_equal(chars, ['s', 't', 'a', 'c', 'k'].as_slice()) {
            Ok(DashboardLayout::Stack)
        } else if chars_equal(chars, ['g', 'r', 'i', 'd', '_', '2', 'x', '2'].as_slice()) {
            Ok(DashboardLayout::Grid2x2)
        } else {
            Err(ConfigError::UnknownName)
        }
    }
}

impl DashboardMetric {
    /// The metric a configuration name selects.
    pub fn from_config_name(name: &str) -> (r: Result<DashboardMetric, ConfigError>)
        ensures
            metric_from_name(name@) matches Some(m) ==> r == Ok::<DashboardMetric, ConfigError>(m),
            metric_from_name(name@) is None ==> r == Err::<DashboardMetric, ConfigError>(
                ConfigError::UnknownName,
            ),
    {
        let chars = crate::text::chars_of(name);
        let chars = chars.as_slice();
        if chars_equal(
            chars,
            ['c', 'p', 'u', '_', 'u', 's', 'a', 'g', 'e', '_', 'p', 'e', 'r', 'c', 'e', 'n', 't'].as_slice(),
        ) {
            Ok(DashboardMetric::CpuUsagePercent)
        } else if chars_equal(
            chars,
            ['c', 'p', 'u', '_', 't', 'e', 'm', 'p', 'e', 'r', 'a', 't', 'u', 'r', 'e'].as_slice(),
        ) {
            Ok(DashboardMetric::CpuTemperature)
        } else if chars_equal(
            chars,
            [
                'm', 'e', 'm', 'o', 'r', 'y', '_', 'u', 's', 'e', 'd', '_', 'p', 'e', 'r', 'c', 'e', 'n', 't',
            ].as_slice(),
        ) {
            Ok(DashboardMetric::MemoryUsedPercent)
        } else if chars_equal(chars, ['t', 'i', 'm', 'e'].as_slice()) {
            Ok(DashboardMetric::Time)
        } else {
            Err(ConfigError::UnknownName)
        }
    }
}

impl TimeFormat {
    /// The time format a configuration name selects; only `24h` is known.
    pub fn from_config_name(name: &str) -> (r: Result<TimeFormat, ConfigError>)
        ensures
            name@ == seq!['2', '4', 'h'] ==> r == Ok::<TimeFormat, ConfigError>(
                TimeFormat::TwentyFourHour,
            ),
            name@ != seq!['2', '4', 'h'] ==> r == Err::<TimeFormat, ConfigError>(
                ConfigError::UnknownName,
            ),
    {
        let chars = crate::text::chars_of(name);
        if chars_equal(chars.as_slice(), ['2', '4', 'h'].as_slice()) {
            Ok(TimeFormat::TwentyFourHour)
        } else {
            Err(ConfigError::UnknownName)
        }
    }
}

impl TemperatureUnit {
    /// The unit a configuration name selects; only `celsius` is known.
    pub fn from_config_name(name: &str) -> (r: Result<TemperatureUnit, ConfigError>)
        ensures
            name@ == seq!['c', 'e', 'l', 's', 'i', 'u', 's'] ==> r == Ok::<
                TemperatureUnit,
                ConfigError,
            >(TemperatureUnit::Celsius),
            name@ != seq!['c', 'e', 'l', 's', 'i', 'u', 's'] ==> r == Err::<
                TemperatureUnit,
                ConfigError,
            >(ConfigError::UnknownName),
    {
        let chars = crate::text::chars_of(name);
        if chars_equal(chars.as_slice(), ['c', 'e', 'l', 's', 'i', 'u', 's'].as_slice()) {
            Ok(TemperatureUnit::Celsius)
        } else {
            Err(ConfigError::UnknownName)
        }
    }
}

/// One dashboard slot: a title and subtitle on the left, a metric on the right.
#[derive(Debug, Clone)]
pub struct DashboardSlot {
    pub title: String,
    pub subtitle: String,
    pub metric: DashboardMetric,
}

/// The `[dashboard]` table.
#[derive(Debug, Clone)]
pub struct DashboardConfig {
    pub render_interval_ms: u64,
    pub layout: DashboardLayout,
    pub time_format: TimeFormat,
    pub temperature_unit: TemperatureUnit,
    pub font_path: Option<String>,
    pub font_family: Option<String>,
    pub debug_output_path: Option<String>,
    pub slots: Vec<DashboardSlot>,
}

/// The first slot, from index `from` on, with a blank title or subtitle, and
/// the error it gives.
pub open spec fn first_slot_error(slots: Seq<DashboardSlot>, from: int) -> Option<ConfigError>
    decreases slots.len() - from,
{
    if from < 0 || from >= slots.len() {
        None
    } else if is_blank(slots[from].title@) {
        Some(ConfigError::EmptySlotTitle { index: from as usize })
    } else if is_blank(slots[from].subtitle@) {
        Some(ConfigError::EmptySlotSubtitle { index: from as usize })
    } else {
        first_slot_error(slots, from + 1)
    }
}

/// The validation of the `[dashboard]` table, checks in order: a positive
/// render interval, at most four slots, no blank slot title or subtitle, and
/// no blank font family.
pub open spec fn dashboard_check(d: DashboardConfig) -> Result<(), ConfigError> {
    if d.render_interval_ms == 0 {
        Err(ConfigError::RenderIntervalZero)
    } else if d.slots@.len() > 4 {
        Err(ConfigError::TooManySlots { layout: d.layout, count: d.slots@.len() as usize })
    } else if first_slot_error(d.slots@, 0) is Some {
        Err(first_slot_error(d.slots@, 0)->0)
    } else if d.font_family matches Some(f) && is_blank(f@) {
        Err(ConfigError::EmptyFontFamily)
    } else {
        Ok(())
    }
}

impl DashboardConfig {
    /// Checks the dashboard settings.
    pub fn validate(&self) -> (r: Result<(), ConfigError>)
        ensures
            r == dashboard_check(*self),
    {
        if self.render_interval_ms == 0 {
            return Err(ConfigError::RenderIntervalZero);
        }
        if self.slots.len() > 4 {
            return Err(ConfigError::TooManySlots { layout: self.layout, count: self.slots.len() });
        }
        let mut index: usize = 0;
        while index < self.slots.len()
            invariant
                index <= self.slots@.len(),
                self.render_interval_ms != 0,
                self.slots@.len() <= 4,
                first_slot_error(self.slots@, 0) == first_slot_error(self.slots@, index as int),
            decreases self.slots@.len() - index,
        {
            let slot = &self.slots[index];
            if blank(slot.title.as_str()) {
                return Err(ConfigError::EmptySlotTitle { index });
            }
            if blank(slot.subtitle.as_str()) {
                return Err(ConfigError::EmptySlotSubtitle { index });
            }
            index = index + 1;
        }
        if let Some(font_family) = &self.font_family {
            if blank(font_family.as_str()) {
                return Err(ConfigError::EmptyFontFamily);
            }
        }
        Ok(())
    }
}

impl Default for DashboardConfig {
    fn default() -> (d: DashboardConfig)
        ensures
            d.render_interval_ms == 1000,
            d.layout == DashboardLayout::Stack,
            d.time_format == TimeFormat::TwentyFourHour,
            d.temperature_unit == TemperatureUnit::Celsius,
            d.font_path is None,
            d.font_family is None,
            d.debug_output_path is None,
            d.slots@.len() == 0,
    {
        DashboardConfig {
            render_interval_ms: default_dashboard_render_interval_ms(),
            layout: DashboardLayout::default(),
            time_format: TimeFormat::default(),
            temperature_unit: TemperatureUnit::default(),
            font_path: None,
            font_family: None,
            debug_output_path: None,
            slots: Vec::new(),
        }
    }
}

/// The `[refresh]` table: upload pacing, ack timeout and reload polling.
#[derive(Debug, Clone, Copy, PartialEq, Eq, Structural)]
pub struct RefreshConfig {
    pub interval_ms: u64,
    pub ack_timeout_ms: i32,
    pub retry_delay_ms: u64,
    pub reload_check_interval_ms: u64,
}

impl Default for RefreshConfig {
    fn default() -> (r: RefreshConfig)
        ensures
            r.interval_ms == DEFAULT_REFRESH_INTERVAL_MS,
            r.ack_timeout_ms == DEFAULT_ACK_TIMEOUT_MS,
            r.retry_delay_ms == DEFAULT_RETRY_DELAY_MS,
            r.reload_check_interval_ms == DEFAULT_RELOAD_CHECK_INTERVAL_MS,
    {
        RefreshConfig {
            interval_ms: default_refresh_interval_ms(),
            ack_timeout_ms: default_ack_timeout_ms(),
            retry_delay_ms: default_retry_delay_ms(),
            reload_check_interval_ms: default_reload_check_interval_ms(),
        }
    }
}

/// The `[protocol]` table.
#[derive(Debug, Clone, Copy, PartialEq, Eq, Structural)]
pub struct ProtocolConfig {
    /// Whether the init packet is sent after each connection.
    pub init_on_connect: bool,
}

impl Default for ProtocolConfig {
    /// Sending the init packet on each connection is the default and expected mode.
    fn default() -> (p: ProtocolConfig)
        ensures
            p.init_on_connect,
    {
        ProtocolConfig { init_on_connect: default_true() }
    }
}

/// The whole configuration file.
#[derive(Debug, Clone)]
pub struct AppConfig {
    pub device: DeviceConfig,
    pub logging: LoggingConfig,
    pub basedir: Option<String>,
    pub source: SourceConfig,
    pub dashboard: DashboardConfig,
    pub refresh: RefreshConfig,
    pub protocol: ProtocolConfig,
}

/// The validation of a whole configuration: the source first, then the dashboard.
pub open spec fn config_check(c: AppConfig) -> Result<(), ConfigError> {
    match source_check(c.source) {
        Err(e) => Err(e),
        Ok(()) => dashboard_check(c.dashboard),
    }
}

impl AppConfig {
    /// Checks the source and dashboard settings.
    pub fn validate(&self) -> (r: Result<(), ConfigError>)
        ensures
            r == config_check(*self),
    {
        self.source.validate()?;
        self.dashboard.validate()?;
        Ok(())
    }
}

/// A Unix path is absolute when it starts at the root `/`.
pub open spec fn is_absolute_path(p: Seq<char>) -> bool {
    p.len() > 0 && p[0] == '/'
}

/// `Path::join` on Unix: an absolute `p` replaces `base`; otherwise `p` is
/// appended, with a `/` in between unless `base` is empty or already ends in one.
pub open spec fn path_join(base: Seq<char>, p: Seq<char>) -> Seq<char> {
    if is_absolute_path(p) {
        p
    } else if base.len() == 0 || base.last() == '/' {
        base + p
    } else {
        base + seq!['/'] + p
    }
}

/// A configured path resolved against the base directory: absolute paths are
/// kept as they are, relative ones are joined onto the base.
pub open spec fn resolve_path_spec(base: Seq<char>, p: Seq<char>) -> Seq<char> {
    if is_absolute_path(p) {
        p
    } else {
        path_join(base, p)
    }
}

/// Absolute paths are kept whatever the base; a path resolved against an
/// absolute base is itself absolute, so resolving it again changes nothing.
pub proof fn lemma_path_resolution_is_idempotent(base: Seq<char>, p: Seq<char>)
    ensures
        is_absolute_path(p) ==> resolve_path_spec(base, p) == p,
        is_absolute_path(base) ==> is_absolute_path(resolve_path_spec(base, p)),
        is_absolute_path(base) ==> resolve_path_spec(base, resolve_path_spec(base, p))
            == resolve_path_spec(base, p),
{
    if is_absolute_path(base) && !is_absolute_path(p) {
        if base.last() == '/' {
            assert((base + p)[0] == base[0]);
        } else {
            assert((base + seq!['/'] + p)[0] == base[0]);
        }
    }
}

/// Whether `path` is absolute.
pub fn path_is_absolute(path: &str) -> (r: bool)
    ensures
        r == is_absolute_path(path@),
{
    path.unicode_len() > 0 && path.get_char(0) == '/'
}

/// Resolves `path` against `base_dir` as the configuration does for its paths.
pub fn resolve_path_from_base(base_dir: &str, path: &str) -> (r: String)
    ensures
        r@ == resolve_path_spec(base_dir@, path@),
{
    proof {
        reveal_strlit("/");
        assert(seq!['/'] =~= "/"@);
    }
    if path_is_absolute(path) {
        return String::from_str(path);
    }
    let mut joined = String::from_str(base_dir);
    let n = base_dir.unicode_len();
    if n > 0 && base_dir.get_char(n - 1) != '/' {
        joined.append("/");
    }
    joined.append(path);
    joined
}

fn resolve_optional_path(base_dir: &str, path: &Option<String>) -> (r: Option<String>)
    ensures
        path is None ==> r is None,
        path matches Some(p) ==> r matches Some(q) && q@ == resolve_path_spec(base_dir@, p@),
{
    match path {
        Some(p) => Some(resolve_path_from_base(base_dir, p.as_str())),
        None => None,
    }
}

/// Where relative configuration paths are resolved from.
#[derive(Debug, Clone)]
pub enum BaseDir {
    /// The working directory of the process.
    Cwd,
    /// The directory holding the configuration file as it was named.
    ConfigDir,
    /// The directory holding the configuration file after following symlinks.
    ConfigDirReal,
    /// An absolute directory given in the configuration.
    Absolute(String),
}

/// Whether `r` is the absolute base directory `b`.
pub open spec fn is_absolute_base(r: Result<BaseDir, ConfigError>, b: Seq<char>) -> bool {
    match r {
        Ok(BaseDir::Absolute(p)) => p@ == b,
        _ => false,
    }
}

/// Whether `r` is the base-directory choice that the `basedir` setting `b`
/// makes.
pub open spec fn base_dir_choice(b: Option<Seq<char>>, r: Result<BaseDir, ConfigError>) -> bool {
    match b {
        None => r matches Ok(BaseDir::Cwd),
        Some(b) => if b == seq!['c', 'w', 'd'] {
            r matches Ok(BaseDir::Cwd)
        } else if b == seq!['c', 'o', 'n', 'f', 'i', 'g', '_', 'd', 'i', 'r'] {
            r matches Ok(BaseDir::ConfigDir)
        } else if b == seq!['c', 'o', 'n', 'f', 'i', 'g', '_', 'd', 'i', 'r', '_', 'r', 'e', 'a', 'l'] {
            r matches Ok(BaseDir::ConfigDirReal)
        } else if is_absolute_path(b) {
            is_absolute_base(r, b)
        } else {
            r == Err::<BaseDir, ConfigError>(ConfigError::RelativeBasedir)
        },
    }
}

/// The `basedir` setting: absent or `cwd`, `config_dir`, `config_dir_real`, or
/// an absolute directory. Anything else is refused.
pub fn base_dir_mode(basedir: Option<&str>) -> (r: Result<BaseDir, ConfigError>)
    ensures
        base_dir_choice(
            match basedir {
                Some(b) => Some(b@),
                None => None,
            },
            r,
        ),
{
    match basedir {
        None => Ok(BaseDir::Cwd),
        Some(b) => {
            let chars = crate::text::chars_of(b);
            let chars = chars.as_slice();
            if chars_equal(chars, ['c', 'w', 'd'].as_slice()) {
                Ok(BaseDir::Cwd)
            } else if chars_equal(chars, ['c', 'o', 'n', 'f', 'i', 'g', '_', 'd', 'i', 'r'].as_slice()) {
                Ok(BaseDir::ConfigDir)
            } else if chars_equal(
                chars,
                ['c', 'o', 'n', 'f', 'i', 'g', '_', 'd', 'i', 'r', '_', 'r', 'e', 'a', 'l'].as_slice(),
            ) {
                Ok(BaseDir::ConfigDirReal)
            } else if path_is_absolute(b) {
                Ok(BaseDir::Absolute(String::from_str(b)))
            } else {
                Err(ConfigError::RelativeBasedir)
            }
        },
    }
}

impl AppConfig {
    /// Resolves `source.path`, `dashboard.font_path` and
    /// `dashboard.debug_output_path` against `base_dir`; nothing else changes.
    pub fn resolve_relative_paths(&mut self, base_dir: &str)
        ensures
            final(self).source.path@ == resolve_path_spec(base_dir@, old(self).source.path@),
            final(self).source.rotate_degrees == old(self).source.rotate_degrees,
            old(self).dashboard.font_path is None ==> final(self).dashboard.font_path is None,
            old(self).dashboard.font_path matches Some(p) ==> final(self).dashboard.font_path matches Some(q)
                && q@ == resolve_path_spec(base_dir@, p@),
            old(self).dashboard.debug_output_path is None
                ==> final(self).dashboard.debug_output_path is None,
            old(self).dashboard.debug_output_path matches Some(p)
                ==> final(self).dashboard.debug_output_path matches Some(q) && q@ == resolve_path_spec(
                base_dir@,
                p@,
            ),
            final(self).dashboard.render_interval_ms == old(self).dashboard.render_interval_ms,
            final(self).dashboard.layout == old(self).dashboard.layout,
            final(self).dashboard.time_format == old(self).dashboard.time_format,
            final(self).dashboard.temperature_unit == old(self).dashboard.temperature_unit,
            final(self).dashboard.font_family == old(self).dashboard.font_family,
            final(self).dashboard.slots == old(self).dashboard.slots,
            final(self).device == old(self).device,
            final(self).logging == old(self).logging,
            final(self).basedir == old(self).basedir,
            final(self).refresh == old(self).refresh,
            final(self).protocol == old(self).protocol,
    {
        let source_path = resolve_path_from_base(base_dir, self.source.path.as_str());
        self.source.path = source_path;
        let font_path = resolve_optional_path(base_dir, &self.dashboard.font_path);
        self.dashboard.font_path = font_path;
        let debug_output_path = resolve_optional_path(base_dir, &self.dashboard.debug_output_path);
        self.dashboard.debug_output_path = debug_output_path;
    }

}

/// `new` is `old` with `source.path`, `dashboard.font_path` and
/// `dashboard.debug_output_path` resolved against `base`, and nothing else changed.
pub open spec fn paths_resolved(old: AppConfig, new: AppConfig, base: Seq<char>) -> bool {
    &&& new.source.path@ == resolve_path_spec(base, old.source.path@)
    &&& new.source.rotate_degrees == old.source.rotate_degrees
    &&& match (old.dashboard.font_path, new.dashboard.font_path) {
        (Some(p), Some(q)) => q@ == resolve_path_spec(base, p@),
        (None, None) => true,
        _ => false,
    }
    &&& match (old.dashboard.debug_output_path, new.dashboard.debug_output_path) {
        (Some(p), Some(q)) => q@ == resolve_path_spec(base, p@),
        (None, None) => true,
        _ => false,
    }
    &&& new.dashboard.render_interval_ms == old.dashboard.render_interval_ms
    &&& new.dashboard.layout == old.dashboard.layout
    &&& new.dashboard.time_format == old.dashboard.time_format
    &&& new.dashboard.temperature_unit == old.dashboard.temperature_unit
    &&& new.dashboard.font_family == old.dashboard.font_family
    &&& new.dashboard.slots == old.dashboard.slots
    &&& new.device == old.device
    &&& new.logging == old.logging
    &&& new.basedir == old.basedir
    &&& new.refresh == old.refresh
    &&& new.protocol == old.protocol
}

/// What `Path::parent` gives for `path`.
pub uninterp spec fn path_parent(path: Seq<char>) -> Option<Seq<char>>;

/// `Path::parent`: the path without its last component, or nothing for a
/// root or empty path.
#[verifier::external_body]
fn parent_of(path: &str) -> (r: Option<String>)
    ensures
        match (r, path_parent(path@)) {
            (Some(p), Some(q)) => p@ == q,
            (None, None) => true,
            _ => false,
        },
{
    let parent = std::path::Path::new(path).parent()?;
    Some(parent.to_string_lossy().into_owned())
}

/// An optional text as an optional character sequence.
pub open spec fn opt_view(s: Option<&str>) -> Option<Seq<char>> {
    match s {
        Some(t) => Some(t@),
        None => None,
    }
}

/// The directory relative configuration paths are resolved from, for the
/// `basedir` setting: the working directory `cwd` when it is absent or `cwd`;
/// the directory of the configuration file (`.` when it has none) for
/// `config_dir`; the directory of its real location `real_config_path` (empty
/// when it has none) for `config_dir_real`; or the absolute directory given.
pub open spec fn base_dir_spec(
    basedir: Option<Seq<char>>,
    config_path: Seq<char>,
    cwd: Seq<char>,
    real_config_path: Option<Seq<char>>,
) -> Result<Seq<char>, ConfigError> {
    match basedir {
        None => Ok(cwd),
        Some(b) => if b == seq!['c', 'w', 'd'] {
            Ok(cwd)
        } else if b == seq!['c', 'o', 'n', 'f', 'i', 'g', '_', 'd', 'i', 'r'] {
            Ok(
                match path_parent(config_path) {
                    Some(p) => p,
                    None => seq!['.'],
                },
            )
        } else if b == seq!['c', 'o', 'n', 'f', 'i', 'g', '_', 'd', 'i', 'r', '_', 'r', 'e', 'a', 'l'] {
            match real_config_path {
                Some(resolved) => Ok(
                    match path_parent(resolved) {
                        Some(p) => p,
                        None => Seq::empty(),
                    },
                ),
                None => Err(ConfigError::UnresolvedConfigPath),
            }
        } else if is_absolute_path(b) {
            Ok(b)
        } else {
            Err(ConfigError::RelativeBasedir)
        },
    }
}

/// Works out the base directory for relative configuration paths. The caller
/// gives the working directory and, for `config_dir_real`, the configuration
/// file's location with symlinks followed.
pub fn resolve_base_dir(basedir: Option<&str>, config_path: &str, cwd: &str, real_config_path: Option<&str>) -> (r: Result<String, ConfigError>)
    ensures
        match (r, base_dir_spec(opt_view(basedir), config_path@, cwd@, opt_view(real_config_path))) {
            (Ok(d), Ok(e)) => d@ == e,
            (Err(a), Err(b)) => a == b,
            _ => false,
        },
{
    proof {
        reveal_strlit(".");
        reveal_strlit("");
        assert(seq!['.'] =~= "."@);
    }
    match base_dir_mode(basedir) {
        Ok(BaseDir::Cwd) => Ok(String::from_str(cwd)),
        Ok(BaseDir::ConfigDir) => match parent_of(config_path) {
            Some(parent) => Ok(parent),
            None => Ok(String::from_str(".")),
        },
        Ok(BaseDir::ConfigDirReal) => match real_config_path {
            Some(resolved) => match parent_of(resolved) {
                Some(parent) => Ok(parent),
                None => Ok(String::new()),
            },
            None => Err(ConfigError::UnresolvedConfigPath),
        },
        Ok(BaseDir::Absolute(dir)) => Ok(dir),
        Err(e) => Err(e),
    }
}

/// Finishes a configuration parsed from the file at `config_path`: resolves
/// its relative paths against the base directory its `basedir` setting
/// selects (see `resolve_base_dir`), then validates it.
pub fn load_config(parsed: AppConfig, config_path: &str, cwd: &str, real_config_path: Option<&str>) -> (r: Result<AppConfig, ConfigError>)
    ensures
        ({
            let b = match parsed.basedir {
                Some(s) => Some(s@),
                None => None,
            };
            match base_dir_spec(b, config_path@, cwd@, opt_view(real_config_path)) {
                Err(e) => r == Err::<AppConfig, ConfigError>(e),
                Ok(base) => {
                    &&& r is Ok <==> config_check(parsed) is Ok
                    &&& r matches Err(e) ==> config_check(parsed) == Err::<(), ConfigError>(e)
                    &&& r matches Ok(c) ==> paths_resolved(parsed, c, base)
                },
            }
        }),
{
    let base_dir = match &parsed.basedir {
        Some(b) => resolve_base_dir(Some(b.as_str()), config_path, cwd, real_config_path),
        None => resolve_base_dir(None, config_path, cwd, real_config_path),
    };
    let base_dir = base_dir?;
    let mut config = parsed;
    config.resolve_relative_paths(base_dir.as_str());
    config.validate()?;
    Ok(config)
}

/// The file names `default_config_path` looks for, in order of preference.
pub open spec fn config_name(k: int) -> Seq<char> {
    if k == 0 {
        seq!['c', 'o', 'n', 'f', 'i', 'g', '.', 't', 'o', 'm', 'l']
    } else if k == 1 {
        seq!['c', 'o', 'n', 'f', 'i', 'g', '.', 'r', 'o', 'n']
    } else {
        seq!['c', 'o', 'n', 'f', 'i', 'g', '.', 'c', 'o', 'r', 'n']
    }
}

/// Whether `files` names `name`.
pub open spec fn names(files: Seq<String>, name: Seq<char>) -> bool {
    exists|i: int| 0 <= i < files.len() && (#[trigger] files[i])@ == name
}

/// The preferred configuration file name among `files`, if any.
pub open spec fn preferred_config_name(files: Seq<String>) -> Option<Seq<char>> {
    if names(files, config_name(0)) {
        Some(config_name(0))
    } else if names(files, config_name(1)) {
        Some(config_name(1))
    } else if names(files, config_name(2)) {
        Some(config_name(2))
    } else {
        None
    }
}

fn has_name(files: &Vec<String>, name: &[char]) -> (r: bool)
    ensures
        r == names(files@, name@),
{
    let mut i: usize = 0;
    while i < files.len()
        invariant
            i <= files@.len(),
            forall|k: int| 0 <= k < i ==> (#[trigger] files@[k])@ != name@,
        decreases files@.len() - i,
    {
        let chars = crate::text::chars_of(files[i].as_str());
        if chars_equal(chars.as_slice(), name) {
            return true;
        }
        i = i + 1;
    }
    false
}

/// The configuration file to use when none is named on the command line:
/// `config.toml`, else `config.ron`, else `config.corn`, in `cwd`. The caller
/// lists which of these names are files there.
pub fn default_config_path(cwd: &str, files: &Vec<String>) -> (r: Result<String, ConfigError>)
    ensures
        preferred_config_name(files@) matches Some(n) ==> (r matches Ok(p) && p@ == path_join(cwd@, n)),
        preferred_config_name(files@) is None ==> r == Err::<String, ConfigError>(ConfigError::NoConfigFile),
{
    proof {
        reveal_strlit("config.toml");
        reveal_strlit("config.ron");
        reveal_strlit("config.corn");
    }
    let toml = ['c', 'o', 'n', 'f', 'i', 'g', '.', 't', 'o', 'm', 'l'];
    let ron = ['c', 'o', 'n', 'f', 'i', 'g', '.', 'r', 'o', 'n'];
    let corn = ['c', 'o', 'n', 'f', 'i', 'g', '.', 'c', 'o', 'r', 'n'];
    assert(toml@ =~= config_name(0));
    assert(ron@ =~= config_name(1));
    assert(corn@ =~= config_name(2));
    assert("config.toml"@ =~= config_name(0));
    assert("config.ron"@ =~= config_name(1));
    assert("config.corn"@ =~= config_name(2));
    if has_name(files, toml.as_slice()) {
        Ok(resolve_path_from_base(cwd, "config.toml"))
    } else if has_name(files, ron.as_slice()) {
        Ok(resolve_path_from_base(cwd, "config.ron"))
    } else if has_name(files, corn.as_slice()) {
        Ok(resolve_path_from_base(cwd, "config.corn"))
    } else {
        Err(ConfigError::NoConfigFile)
    }
}

/// The `--config` flag.
pub open spec fn config_flag() -> Seq<char> {
    seq!['-', '-', 'c', 'o', 'n', 'f', 'i', 'g']
}

/// The command-line scan from argument `i` on, with `found` the path given so
/// far: `--config <path>` and `--config=<path>` set the path (the last one
/// wins); any other argument is refused.
pub open spec fn scan_args(args: Seq<Seq<char>>, i: int, found: Option<Seq<char>>) -> Result<
    Option<Seq<char>>,
    ConfigError,
>
    decreases args.len() - i,
{
    if i < 0 || i >= args.len() {
        Ok(found)
    } else if args[i] == config_flag() {
        if i + 1 >= args.len() {
            Err(ConfigError::MissingConfigValue)
        } else {
            scan_args(args, i + 2, Some(args[i + 1]))
        }
    } else if occurs_at(args[i], config_flag() + seq!['='], 0) {
        scan_args(args, i + 1, Some(args[i].subrange(9, args[i].len() as int)))
    } else {
        Err(ConfigError::UnsupportedArgument { index: i as usize })
    }
}

/// A scan that accepts the arguments from `i` up to the last one (exclusive)
/// reaches the last one with the path it found, whatever the last one is.
proof fn lemma_scan_reaches_last(args: Seq<Seq<char>>, i: int, found: Option<Seq<char>>)
    requires
        args.len() >= 1,
        0 <= i <= args.len() - 1,
        scan_args(args.drop_last(), i, found) is Ok,
    ensures
        scan_args(args, i, found) == scan_args(
            args,
            args.len() - 1,
            scan_args(args.drop_last(), i, found)->Ok_0,
        ),
    decreases args.len() - i,
{
    let prefix = args.drop_last();
    let last = args.len() - 1;
    if i < last {
        assert(prefix[i] == args[i]);
        if args[i] == config_flag() {
            assert(i + 1 < last);
            assert(prefix[i + 1] == args[i + 1]);
            lemma_scan_reaches_last(args, i + 2, Some(args[i + 1]));
        } else if occurs_at(args[i], config_flag() + seq!['='], 0) {
            lemma_scan_reaches_last(args, i + 1, Some(args[i].subrange(9, args[i].len() as int)));
        }
    }
}

/// An argument `--config=P` names the configuration file `P`: on a command
/// line whose earlier arguments are accepted and whose last argument is
/// `--config=P`, the path found is `P`.
pub proof fn lemma_config_equals_names_the_file(args: Seq<Seq<char>>, p: Seq<char>)
    requires
        args.len() >= 2,
        args.last() == config_flag() + seq!['='] + p,
        scan_args(args.drop_last(), 1, None) is Ok,
    ensures
        scan_args(args, 1, None) == Ok::<Option<Seq<char>>, ConfigError>(Some(p)),
{
    lemma_scan_reaches_last(args, 1, None);
    let last = args.len() - 1;
    let arg = args[last];
    let prefix = config_flag() + seq!['='];
    assert(arg.len() == 9 + p.len());
    assert(arg != config_flag());
    assert(arg.subrange(0, 9) =~= prefix);
    assert(occurs_at(arg, prefix, 0));
    assert(arg.subrange(9, arg.len() as int) =~= p);
    let g = scan_args(args.drop_last(), 1, None)->Ok_0;
    assert(scan_args(args, last + 1, Some(p)) == Ok::<Option<Seq<char>>, ConfigError>(Some(p)));
    assert(scan_args(args, last, g) == scan_args(args, last + 1, Some(p)));
}

/// The views of a list of strings.
pub open spec fn views_of(args: Seq<String>) -> Seq<Seq<char>> {
    args.map_values(|a: String| a@)
}

/// The configuration file the command line names, if it names one. The first
/// argument is the program name and is skipped.
pub fn explicit_config_path(args: &Vec<String>) -> (r: Result<Option<String>, ConfigError>)
    ensures
        scan_args(views_of(args@), 1, None) matches Ok(found) ==> r matches Ok(o) && (match (
            o,
            found,
        ) {
            (Some(p), Some(q)) => p@ == q,
            (None, None) => true,
            _ => false,
        }),
        scan_args(views_of(args@), 1, None) matches Err(e) ==> r == Err::<Option<String>, ConfigError>(
            e,
        ),
{
    let ghost views = views_of(args@);
    let mut explicit: Option<String> = None;
    let mut i: usize = 1;
    while i < args.len()
        invariant
            views == views_of(args@),
            1 <= i,
            i <= args@.len() + 1,
            scan_args(views, 1, None) == scan_args(
                views,
                i as int,
                match explicit {
                    Some(p) => Some(p@),
                    None => None,
                },
            ),
        decreases args@.len() + 1 - i,
    {
        let arg = args[i].as_str();
        let chars = crate::text::chars_of(arg);
        assert(views[i as int] == args@[i as int]@);
        assert(['-', '-', 'c', 'o', 'n', 'f', 'i', 'g', '=']@ =~= config_flag() + seq!['=']);
        assert(['-', '-', 'o', 'u', 't', 'p', 'u', 't', '=']@ =~= output_flag() + seq!['=']);
        if chars_equal(chars.as_slice(), ['-', '-', 'c', 'o', 'n', 'f', 'i', 'g'].as_slice()) {
            if i + 1 >= args.len() {
                return Err(ConfigError::MissingConfigValue);
            }
            assert(views[i + 1] == args@[i + 1]@);
            explicit = Some(args[i + 1].clone());
            i = i + 2;
        } else if starts_with_chars(
            chars.as_slice(),
            ['-', '-', 'c', 'o', 'n', 'f', 'i', 'g', '='].as_slice(),
        ) {
            let n = arg.unicode_len();
            let value = arg.substring_char(9, n);
            explicit = Some(String::from_str(value));
            i = i + 1;
        } else {
            return Err(ConfigError::UnsupportedArgument { index: i });
        }
    }
    Ok(explicit)
}

/// The `--output` flag of the frame export tools.
pub open spec fn output_flag() -> Seq<char> {
    seq!['-', '-', 'o', 'u', 't', 'p', 'u', 't']
}

/// The command-line scan of a frame export tool from argument `i` on, with
/// the configuration file and output path given so far: `--config <path>`,
/// `--config=<path>`, `--output <path>` and `--output=<path>` set them (the
/// last one of each wins); any other argument is refused.
pub open spec fn scan_export_args(
    args: Seq<Seq<char>>,
    i: int,
    config: Option<Seq<char>>,
    output: Option<Seq<char>>,
) -> Result<(Option<Seq<char>>, Option<Seq<char>>), ConfigError>
    decreases args.len() - i,
{
    if i < 0 || i >= args.len() {
        Ok((config, output))
    } else if args[i] == config_flag() {
        if i + 1 >= args.len() {
            Err(ConfigError::MissingConfigValue)
        } else {
            scan_export_args(args, i + 2, Some(args[i + 1]), output)
        }
    } else if occurs_at(args[i], config_flag() + seq!['='], 0) {
        scan_export_args(args, i + 1, Some(args[i].subrange(9, args[i].len() as int)), output)
    } else if args[i] == output_flag() {
        if i + 1 >= args.len() {
            Err(ConfigError::MissingOutputValue)
        } else {
            scan_export_args(args, i + 2, config, Some(args[i + 1]))
        }
    } else if occurs_at(args[i], output_flag() + seq!['='], 0) {
        scan_export_args(args, i + 1, config, Some(args[i].subrange(9, args[i].len() as int)))
    } else {
        Err(ConfigError::UnsupportedArgument { index: i as usize })
    }
}

/// What the command line of a frame export tool names: the configuration
/// file, if given, and the output file, if given.
#[derive(Debug, Clone)]
pub struct ExportArgs {
    pub config_path: Option<String>,
    pub output_path: Option<String>,
}

/// An optional text and an optional character sequence hold the same characters.
pub open spec fn same_text(a: Option<String>, b: Option<Seq<char>>) -> bool {
    match (a, b) {
        (Some(x), Some(y)) => x@ == y,
        (None, None) => true,
        _ => false,
    }
}

/// Reads the command line of a frame export tool. The first argument is the
/// program name and is skipped.
pub fn export_args(args: &Vec<String>) -> (r: Result<ExportArgs, ConfigError>)
    ensures
        scan_export_args(views_of(args@), 1, None, None) matches Ok((c, o)) ==> (r matches Ok(e)
            && same_text(e.config_path, c) && same_text(e.output_path, o)),
        scan_export_args(views_of(args@), 1, None, None) matches Err(err) ==> r == Err::<
            ExportArgs,
            ConfigError,
        >(err),
{
    let ghost views = views_of(args@);
    let mut config_path: Option<String> = None;
    let mut output_path: Option<String> = None;
    let mut i: usize = 1;
    while i < args.len()
        invariant
            views == views_of(args@),
            1 <= i,
            i <= args@.len() + 1,
            scan_export_args(views, 1, None, None) == scan_export_args(
                views,
                i as int,
                match config_path {
                    Some(p) => Some(p@),
                    None => None,
                },
                match output_path {
                    Some(p) => Some(p@),
                    None => None,
                },
            ),
        decreases args@.len() + 1 - i,
    {
        let arg = args[i].as_str();
        let chars = crate::text::chars_of(arg);
        assert(views[i as int] == args@[i as int]@);
        assert(['-', '-', 'c', 'o', 'n', 'f', 'i', 'g', '=']@ =~= config_flag() + seq!['=']);
        assert(['-', '-', 'o', 'u', 't', 'p', 'u', 't', '=']@ =~= output_flag() + seq!['=']);
        if chars_equal(chars.as_slice(), ['-', '-', 'c', 'o', 'n', 'f', 'i', 'g'].as_slice()) {
            if i + 1 >= args.len() {
                return Err(ConfigError::MissingConfigValue);
            }
            assert(views[i + 1] == args@[i + 1]@);
            config_path = Some(args[i + 1].clone());
            i = i + 2;
        } else if starts_with_chars(
            chars.as_slice(),
            ['-', '-', 'c', 'o', 'n', 'f', 'i', 'g', '='].as_slice(),
        ) {
            let n = arg.unicode_len();
            config_path = Some(String::from_str(arg.substring_char(9, n)));
            i = i + 1;
        } else if chars_equal(chars.as_slice(), ['-', '-', 'o', 'u', 't', 'p', 'u', 't'].as_slice()) {
            if i + 1 >= args.len() {
                return Err(ConfigError::MissingOutputValue);
            }
            assert(views[i + 1] == args@[i + 1]@);
            output_path = Some(args[i + 1].clone());
            i = i + 2;
        } else if starts_with_chars(
            chars.as_slice(),
            ['-', '-', 'o', 'u', 't', 'p', 'u', 't', '='].as_slice(),
        ) {
            let n = arg.unicode_len();
            output_path = Some(String::from_str(arg.substring_char(9, n)));
            i = i + 1;
        } else {
            return Err(ConfigError::UnsupportedArgument { index: i });
        }
    }
    Ok(ExportArgs { config_path, output_path })
}

/// The configuration file names looked for in the working directory, in order
/// of preference.
pub fn config_file_candidates() -> (names: Vec<&'static str>)
    ensures
        names@.len() == 3,
        names@[0]@ == seq!['c', 'o', 'n', 'f', 'i', 'g', '.', 't', 'o', 'm', 'l'],
        names@[1]@ == seq!['c', 'o', 'n', 'f', 'i', 'g', '.', 'r', 'o', 'n'],
        names@[2]@ == seq!['c', 'o', 'n', 'f', 'i', 'g', '.', 'c', 'o', 'r', 'n'],
{
    proof {
        reveal_strlit("config.toml");
        reveal_strlit("config.ron");
        reveal_strlit("config.corn");
    }
    let names = vec!["config.toml", "config.ron", "config.corn"];
    assert("config.toml"@ =~= seq!['c', 'o', 'n', 'f', 'i', 'g', '.', 't', 'o', 'm', 'l']);
    assert("config.ron"@ =~= seq!['c', 'o', 'n', 'f', 'i', 'g', '.', 'r', 'o', 'n']);
    assert("config.corn"@ =~= seq!['c', 'o', 'n', 'f', 'i', 'g', '.', 'c', 'o', 'r', 'n']);
    names
}

pub fn default_vendor_id() -> (v: u16)
    ensures
        v == DEFAULT_VENDOR_ID,
{
    DEFAULT_VENDOR_ID
}

pub fn default_product_id() -> (v: u16)
    ensures
        v == DEFAULT_PRODUCT_ID,
{
    DEFAULT_PRODUCT_ID
}

pub fn default_init_interface() -> (v: i32)
    ensures
        v == DEFAULT_INIT_INTERFACE,
{
    DEFAULT_INIT_INTERFACE
}

pub fn default_bulk_interface() -> (v: i32)
    ensures
        v == DEFAULT_BULK_INTERFACE,
{
    DEFAULT_BULK_INTERFACE
}

pub fn default_refresh_interval_ms() -> (v: u64)
    ensures
        v == DEFAULT_REFRESH_INTERVAL_MS,
{
    DEFAULT_REFRESH_INTERVAL_MS
}

pub fn default_ack_timeout_ms() -> (v: i32)
    ensures
        v == DEFAULT_ACK_TIMEOUT_MS,
{
    DEFAULT_ACK_TIMEOUT_MS
}

pub fn default_retry_delay_ms() -> (v: u64)
    ensures
        v == DEFAULT_RETRY_DELAY_MS,
{
    DEFAULT_RETRY_DELAY_MS
}

pub fn default_reload_check_interval_ms() -> (v: u64)
    ensures
        v == DEFAULT_RELOAD_CHECK_INTERVAL_MS,
{
    DEFAULT_RELOAD_CHECK_INTERVAL_MS
}

pub fn default_true() -> (v: bool)
    ensures
        v,
{
    true
}

pub fn default_dashboard_render_interval_ms() -> (v: u64)
    ensures
        v == 1000,
{
    1000
}

} // verus!
