//! The data side of the dashboard overlay: the metric texts of a render, the
//! slots resolved against them, the stacked row height, and the cache of the
//! composited background.

use vstd::prelude::*;

use crate::config::{DashboardConfig, DashboardMetric, DashboardSlot, TemperatureUnit, TimeFormat};
use crate::format::{
    format_percent, format_temperature, format_temperature_with_degree_sign, format_time,
    percent_text, temperature_text, temperature_text_with_degree_sign, time_text,
};
use crate::frame::RenderedFrame;
use crate::text::{ascii_lower, contains_chars, contains_seq, lower_chars};
use vstd::string::*;

verus! {

/// Margin around the stacked panels, in pixels.
pub const PANEL_MARGIN: u32 = 10;
/// Gap between two stacked panels, in pixels.
pub const PANEL_GAP: u32 = 6;

/// The height of one of the four stacked rows in a frame of `height` pixels:
/// what is left after the margins and the three gaps, split in four.
pub open spec fn row_height_spec(height: u32) -> u32 {
    let after_margins: int = if height >= 2 * PANEL_MARGIN {
        height - 2 * PANEL_MARGIN
    } else {
        0
    };
    let after_gaps: int = if after_margins >= 3 * PANEL_GAP {
        after_margins - 3 * PANEL_GAP
    } else {
        0
    };
    (after_gaps / 4) as u32
}

/// The height of one of the four stacked dashboard rows.
pub fn row_height_for(height: u32) -> (h: u32)
    ensures
        h == row_height_spec(height),
{
    height.saturating_sub(PANEL_MARGIN * 2).saturating_sub(PANEL_GAP * 3) / 4
}

/// Four stacked rows, with their margins and gaps, never overflow the frame.
pub proof fn lemma_stacked_rows_fit(height: u32)
    ensures
        height >= 2 * PANEL_MARGIN + 3 * PANEL_GAP ==> 2 * PANEL_MARGIN + 3 * PANEL_GAP + 4
            * row_height_spec(height) <= height,
{
}

/// The metric values of one render, as text.
#[derive(Debug, Clone)]
pub struct DashboardMetrics {
    pub cpu_usage_percent: String,
    pub cpu_temperature: String,
    pub memory_used_percent: String,
    pub time: String,
}

/// The text of `metric` among the values of a render.
pub open spec fn metric_text(m: DashboardMetrics, metric: DashboardMetric) -> Seq<char> {
    match metric {
        DashboardMetric::CpuUsagePercent => m.cpu_usage_percent@,
        DashboardMetric::CpuTemperature => m.cpu_temperature@,
        DashboardMetric::MemoryUsedPercent => m.memory_used_percent@,
        DashboardMetric::Time => m.time@,
    }
}

impl DashboardMetrics {
    /// The texts of one set of readings: whole-number percentages and
    /// temperature (`--` when unknown), and the time of day.
    pub fn from_readings(
        cpu_usage_percent: Option<i32>,
        cpu_temperature_c: Option<i32>,
        memory_used_percent: Option<i32>,
        hour: u32,
        minute: u32,
        temperature_unit: TemperatureUnit,
        time_format: TimeFormat,
    ) -> (m: DashboardMetrics)
        ensures
            m.cpu_usage_percent@ == percent_text(cpu_usage_percent),
            m.cpu_temperature@ == temperature_text_with_degree_sign(
                cpu_temperature_c,
                temperature_unit,
            ),
            m.memory_used_percent@ == percent_text(memory_used_percent),
            m.time@ == time_text(hour, minute, time_format),
    {
        DashboardMetrics {
            cpu_usage_percent: format_percent(cpu_usage_percent),
            cpu_temperature: format_temperature_with_degree_sign(cpu_temperature_c, temperature_unit),
            memory_used_percent: format_percent(memory_used_percent),
            time: format_time(hour, minute, time_format),
        }
    }

    /// The text shown for `metric`.
    pub fn value_for(&self, metric: DashboardMetric) -> (s: &str)
        ensures
            s@ == metric_text(*self, metric),
    {
        match metric {
            DashboardMetric::CpuUsagePercent => self.cpu_usage_percent.as_str(),
            DashboardMetric::CpuTemperature => self.cpu_temperature.as_str(),
            DashboardMetric::MemoryUsedPercent => self.memory_used_percent.as_str(),
            DashboardMetric::Time => self.time.as_str(),
        }
    }
}

/// A dashboard slot with its value filled in.
#[derive(Debug, Clone)]
pub struct ResolvedSlot {
    pub title: String,
    pub subtitle: String,
    pub value: String,
}

/// A screen ready to draw: the background and the filled-in slots.
#[derive(Debug, Clone)]
pub struct ResolvedScreen {
    pub background_path: String,
    pub slots: Vec<ResolvedSlot>,
}

/// The screen-listing texts of one set of readings: like the dashboard's,
/// except that temperatures read `63C`.
pub fn screen_metrics(
    cpu_usage_percent: Option<i32>,
    cpu_temperature_c: Option<i32>,
    memory_used_percent: Option<i32>,
    hour: u32,
    minute: u32,
    dashboard: &DashboardConfig,
) -> (m: DashboardMetrics)
    ensures
        m.cpu_usage_percent@ == percent_text(cpu_usage_percent),
        m.cpu_temperature@ == temperature_text(cpu_temperature_c, dashboard.temperature_unit),
        m.memory_used_percent@ == percent_text(memory_used_percent),
        m.time@ == time_text(hour, minute, dashboard.time_format),
{
    DashboardMetrics {
        cpu_usage_percent: format_percent(cpu_usage_percent),
        cpu_temperature: format_temperature(cpu_temperature_c, dashboard.temperature_unit),
        memory_used_percent: format_percent(memory_used_percent),
        time: format_time(hour, minute, dashboard.time_format),
    }
}

/// The text a slot shows for `metric`: its reading, or `--` when no readings
/// were taken.
pub open spec fn shown_text(metrics: Option<DashboardMetrics>, metric: DashboardMetric) -> Seq<char> {
    match metrics {
        Some(m) => metric_text(m, metric),
        None => seq!['-', '-'],
    }
}

/// The slots as the overlay shows them: every configured slot, in order, with
/// the text of its metric, or `--` when no readings were taken.
pub fn overlay_slots(slots: &Vec<DashboardSlot>, metrics: Option<&DashboardMetrics>) -> (out: Vec<ResolvedSlot>)
    ensures
        out@.len() == slots@.len(),
        forall|i: int|
            0 <= i < out@.len() ==> {
                &&& (#[trigger] out@[i]).title@ == slots@[i].title@
                &&& out@[i].subtitle@ == slots@[i].subtitle@
                &&& out@[i].value@ == shown_text(
                    match metrics {
                        Some(m) => Some(*m),
                        None => None,
                    },
                    slots@[i].metric,
                )
            },
{
    let ghost shown = match metrics {
        Some(m) => Some(*m),
        None => None,
    };
    let mut out: Vec<ResolvedSlot> = Vec::new();
    let mut i: usize = 0;
    proof {
        reveal_strlit("--");
        assert("--"@ =~= seq!['-', '-']);
    }
    while i < slots.len()
        invariant
            i <= slots@.len(),
            out@.len() == i,
            "--"@ == seq!['-', '-'],
            shown == match metrics {
                Some(m) => Some(*m),
                None => None,
            },
            forall|k: int|
                0 <= k < i ==> {
                    &&& (#[trigger] out@[k]).title@ == slots@[k].title@
                    &&& out@[k].subtitle@ == slots@[k].subtitle@
                    &&& out@[k].value@ == shown_text(shown, slots@[k].metric)
                },
        decreases slots@.len() - i,
    {
        let slot: &DashboardSlot = &slots[i];
        let value = match metrics {
            Some(m) => m.value_for(slot.metric),
            None => "--",
        };
        out.push(
            ResolvedSlot {
                title: slot.title.clone(),
                subtitle: slot.subtitle.clone(),
                value: String::from_str(value),
            },
        );
        i = i + 1;
    }
    out
}

/// Fills in every configured slot, in order, with the text of its metric.
pub fn resolve_slots(dashboard: &DashboardConfig, metrics: &DashboardMetrics) -> (slots: Vec<ResolvedSlot>)
    ensures
        slots@.len() == dashboard.slots@.len(),
        forall|i: int|
            0 <= i < slots@.len() ==> {
                &&& (#[trigger] slots@[i]).title@ == dashboard.slots@[i].title@
                &&& slots@[i].subtitle@ == dashboard.slots@[i].subtitle@
                &&& slots@[i].value@ == metric_text(*metrics, dashboard.slots@[i].metric)
            },
{
    overlay_slots(&dashboard.slots, Some(metrics))
}

/// The screen for a background and the readings of one moment: every
/// configured slot filled in, in order.
pub fn resolve_screen(background_path: String, dashboard: &DashboardConfig, metrics: &DashboardMetrics) -> (screen: ResolvedScreen)
    ensures
        screen.background_path@ == background_path@,
        screen.slots@.len() == dashboard.slots@.len(),
        forall|i: int|
            0 <= i < screen.slots@.len() ==> {
                &&& (#[trigger] screen.slots@[i]).title@ == dashboard.slots@[i].title@
                &&& screen.slots@[i].subtitle@ == dashboard.slots@[i].subtitle@
                &&& screen.slots@[i].value@ == metric_text(*metrics, dashboard.slots@[i].metric)
            },
{
    let slots = resolve_slots(dashboard, metrics);
    ResolvedScreen { background_path, slots }
}

/// A frame for the offscreen rendering experiments: the resolved screen and
/// its rendered pixels.
#[derive(Debug, Clone)]
pub struct ExperimentFrame {
    pub screen: ResolvedScreen,
    pub frame: RenderedFrame,
}

/// A sensor label that names the CPU package or the CPU.
pub open spec fn is_cpu_label(label: Seq<char>) -> bool {
    contains_seq(ascii_lower(label), seq!['p', 'a', 'c', 'k', 'a', 'g', 'e']) || contains_seq(
        ascii_lower(label),
        seq!['c', 'p', 'u'],
    )
}

/// Whether `r` is the sensor chosen among `labels`: the first with a CPU
/// label, else the first one; none only when there is no sensor.
pub open spec fn is_cpu_sensor_choice(labels: Seq<String>, r: Option<usize>) -> bool {
    match r {
        None => labels.len() == 0,
        Some(i) => 0 <= i < labels.len() && if is_cpu_label(labels[i as int]@) {
            forall|j: int| 0 <= j < i ==> !is_cpu_label(#[trigger] labels[j]@)
        } else {
            i == 0 && forall|j: int| 0 <= j < labels.len() ==> !is_cpu_label(#[trigger] labels[j]@)
        },
    }
}

/// Which temperature sensor stands for the CPU: the first whose label names
/// the package or the CPU, otherwise the first sensor, if there is one.
pub fn pick_cpu_sensor(labels: &Vec<String>) -> (r: Option<usize>)
    ensures
        is_cpu_sensor_choice(labels@, r),
{
    let mut i: usize = 0;
    while i < labels.len()
        invariant
            i <= labels@.len(),
            forall|j: int| 0 <= j < i ==> !is_cpu_label(#[trigger] labels@[j]@),
        decreases labels@.len() - i,
    {
        let lower = lower_chars(labels[i].as_str());
        if contains_chars(lower.as_slice(), ['p', 'a', 'c', 'k', 'a', 'g', 'e'].as_slice())
            || contains_chars(lower.as_slice(), ['c', 'p', 'u'].as_slice()) {
            return Some(i);
        }
        i = i + 1;
    }
    if labels.len() > 0 {
        Some(0)
    } else {
        None
    }
}

/// The composited background of the last render, kept while the background
/// stays the same (recognized by its hash).
pub struct AcrylicFrameCache {
    background_hash: Option<u64>,
    frame: Option<RenderedFrame>,
}

impl AcrylicFrameCache {
    pub closed spec fn spec_hash(&self) -> Option<u64> {
        self.background_hash
    }

    pub closed spec fn spec_frame(&self) -> Option<RenderedFrame> {
        self.frame
    }

    /// The frame a lookup with `hash` finds.
    pub open spec fn hit(&self, hash: u64) -> Option<RenderedFrame> {
        if self.spec_hash() == Some(hash) {
            self.spec_frame()
        } else {
            None
        }
    }

    /// An empty cache.
    pub fn new() -> (c: AcrylicFrameCache)
        ensures
            forall|hash: u64| #[trigger] c.hit(hash) is None,
    {
        AcrylicFrameCache { background_hash: None, frame: None }
    }

    /// The cached frame, when it was built from a background with hash `hash`.
    pub fn lookup(&self, hash: u64) -> (f: Option<&RenderedFrame>)
        ensures
            self.hit(hash) is None ==> f is None,
            self.hit(hash) matches Some(frame) ==> f == Some(&frame),
    {
        match (&self.background_hash, &self.frame) {
            (Some(h), Some(frame)) => if *h == hash {
                Some(frame)
            } else {
                None
            },
            _ => None,
        }
    }

    /// Keeps `frame` as the composite of the background with hash `hash`.
    pub fn store(&mut self, hash: u64, frame: RenderedFrame)
        ensures
            final(self).hit(hash) == Some(frame),
            forall|other: u64| other != hash ==> #[trigger] final(self).hit(other) is None,
    {
        self.background_hash = Some(hash);
        self.frame = Some(frame);
    }
}

/// The two offscreen rendering paths of the EGL experiment.
#[derive(Debug, Clone, Copy, PartialEq, Eq, Structural)]
pub enum OffscreenPath {
    Surfaceless,
    Pbuffer,
}

impl OffscreenPath {
    /// The name of the path, for log lines.
    pub fn as_str(self) -> (s: &'static str)
        ensures
            self == OffscreenPath::Surfaceless ==> s@ == seq![
                's', 'u', 'r', 'f', 'a', 'c', 'e', 'l', 'e', 's', 's',
            ],
            self == OffscreenPath::Pbuffer ==> s@ == seq!['p', 'b', 'u', 'f', 'f', 'e', 'r'],
    {
        proof {
            reveal_strlit("surfaceless");
            reveal_strlit("pbuffer");
        }
        match self {
            OffscreenPath::Surfaceless => {
                assert("surfaceless"@ =~= seq!['s', 'u', 'r', 'f', 'a', 'c', 'e', 'l', 'e', 's', 's']);
                "surfaceless"
            },
            OffscreenPath::Pbuffer => {
                assert("pbuffer"@ =~= seq!['p', 'b', 'u', 'f', 'f', 'e', 'r']);
                "pbuffer"
            },
        }
    }
}

} // verus!
