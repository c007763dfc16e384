//! Runtime telemetry dashboard: validated metrics, tabs and key bindings.
//! Ratios, severities and drawing work on floating-point values and are
//! left to the terminal front end.

use vstd::prelude::*;
use core::time::Duration;
use std::collections::VecDeque;
use crate::text::{is_blank, str_is_blank};
use crate::time::{duration_as_nanos, duration_nanos};

verus! {

broadcast use vstd::string::group_string_axioms;

#[derive(Debug, Clone, PartialEq, Eq)]
pub enum DashboardError {
    ZeroRefreshRate,
    ZeroDimension,
    InvalidPercentage,
    InvalidMetric,
    EmptyProfile,
    Terminal(String),
}

/// How often the dashboard refreshes: a positive duration.
#[derive(Debug, Clone, Copy, PartialEq, Eq)]
pub struct RefreshRate(Duration);

impl RefreshRate {
    /// Refuses a zero duration.
    pub fn new(value: Duration) -> (r: Result<Self, DashboardError>)
        ensures
            duration_as_nanos(value) == 0 ==> r == Err::<Self, DashboardError>(
                DashboardError::ZeroRefreshRate,
            ),
            duration_as_nanos(value) != 0 ==> (r matches Ok(rate) && rate.value() == value),
    {
        if duration_nanos(&value) == 0 {
            return Err(DashboardError::ZeroRefreshRate);
        }
        Ok(Self(value))
    }

    /// The refresh interval.
    pub closed spec fn value(self) -> Duration {
        self.0
    }

    pub fn duration(self) -> (r: Duration)
        ensures
            r == self.value(),
            duration_as_nanos(r) != 0,
    {
        proof { use_type_invariant(&self); }
        self.0
    }

    #[verifier::type_invariant]
    spec fn positive(self) -> bool {
        duration_as_nanos(self.0) != 0
    }
}

/// Terminal cells available to the dashboard, both positive.
#[derive(Debug, Clone, Copy, PartialEq, Eq, Structural)]
pub struct DashboardSize {
    pub width: u16,
    pub height: u16,
}

impl DashboardSize {
    pub fn new(width: u16, height: u16) -> (r: Result<Self, DashboardError>)
        ensures
            (width == 0 || height == 0) ==> r == Err::<Self, DashboardError>(
                DashboardError::ZeroDimension,
            ),
            (width != 0 && height != 0) ==> r == Ok::<Self, DashboardError>(
                DashboardSize { width, height },
            ),
    {
        if width == 0 || height == 0 {
            return Err(DashboardError::ZeroDimension);
        }
        Ok(Self { width, height })
    }
}

#[derive(Debug, Clone, Copy, PartialEq, Eq, Structural)]
pub struct MemoryBytes(pub u64);

/// Wired memory and OS cache, each within a positive total.
#[derive(Debug, Clone, Copy, PartialEq, Eq, Structural)]
pub struct MemoryTelemetry {
    pub wired: MemoryBytes,
    pub os_cache: MemoryBytes,
    pub total: MemoryBytes,
}

pub open spec fn valid_memory(wired: u64, os_cache: u64, total: u64) -> bool {
    total != 0 && wired <= total && os_cache <= total
}

impl MemoryTelemetry {
    pub fn new(wired: MemoryBytes, os_cache: MemoryBytes, total: MemoryBytes) -> (r: Result<Self, DashboardError>)
        ensures
            !valid_memory(wired.0, os_cache.0, total.0) ==> r == Err::<Self, DashboardError>(
                DashboardError::InvalidMetric,
            ),
            valid_memory(wired.0, os_cache.0, total.0) ==> r == Ok::<Self, DashboardError>(
                MemoryTelemetry { wired, os_cache, total },
            ),
    {
        if total.0 == 0 || wired.0 > total.0 || os_cache.0 > total.0 {
            return Err(DashboardError::InvalidMetric);
        }
        Ok(Self { wired, os_cache, total })
    }
}

/// Occupied KV-cache slots within a positive capacity.
#[derive(Debug, Clone, Copy, PartialEq, Eq, Structural)]
pub struct KvResidency {
    pub occupied: u16,
    pub capacity: u16,
}

impl KvResidency {
    pub fn new(occupied: u16, capacity: u16) -> (r: Result<Self, DashboardError>)
        ensures
            (capacity == 0 || occupied > capacity) ==> r == Err::<Self, DashboardError>(
                DashboardError::InvalidMetric,
            ),
            !(capacity == 0 || occupied > capacity) ==> r == Ok::<Self, DashboardError>(
                KvResidency { occupied, capacity },
            ),
    {
        if capacity == 0 || occupied > capacity {
            return Err(DashboardError::InvalidMetric);
        }
        Ok(Self { occupied, capacity })
    }
}

/// Name of the active runtime profile: any text that is not blank.
#[derive(Debug, Clone, PartialEq, Eq)]
pub struct ActiveProfile(String);

impl View for ActiveProfile {
    type V = Seq<char>;

    closed spec fn view(&self) -> Seq<char> {
        self.0@
    }
}

impl ActiveProfile {
    pub fn new(value: &str) -> (r: Result<Self, DashboardError>)
        ensures
            is_blank(value@) ==> r == Err::<Self, DashboardError>(DashboardError::EmptyProfile),
            !is_blank(value@) ==> (r matches Ok(p) && p@ == value@),
    {
        if str_is_blank(value) {
            return Err(DashboardError::EmptyProfile);
        }
        Ok(Self(value.to_owned()))
    }

    pub fn as_str(&self) -> (r: &str)
        ensures
            r@ == self@,
    {
        self.0.as_str()
    }
}

#[derive(Debug, Clone, Copy, PartialEq, Eq, Structural)]
pub enum DashboardTab {
    Overview,
    Memory,
    Compute,
}

pub open spec fn next_tab(tab: DashboardTab) -> DashboardTab {
    match tab {
        DashboardTab::Overview => DashboardTab::Memory,
        DashboardTab::Memory => DashboardTab::Compute,
        DashboardTab::Compute => DashboardTab::Overview,
    }
}

impl DashboardTab {
    /// Tabs cycle Overview, Memory, Compute.
    pub fn next(self) -> (r: Self)
        ensures
            r == next_tab(self),
    {
        match self {
            Self::Overview => Self::Memory,
            Self::Memory => Self::Compute,
            Self::Compute => Self::Overview,
        }
    }
}

/// Three presses of Tab come back to the same tab.
pub proof fn lemma_tabs_cycle(tab: DashboardTab)
    ensures
        next_tab(next_tab(next_tab(tab))) == tab,
        next_tab(tab) != tab,
{
}

#[derive(Debug, Clone, Copy, PartialEq, Eq, Structural)]
pub enum DashboardFocus {
    Metrics,
    History,
    Help,
}

#[derive(Debug, Clone, Copy, PartialEq, Eq, Structural)]
pub enum MetricSeverity {
    Normal,
    Warning,
    Critical,
}

#[derive(Debug, Clone, Copy, PartialEq, Eq, Structural)]
pub enum DashboardCommand {
    Quit,
    TogglePause,
    NextTab,
    Refresh,
    Ignore,
}

/// The keys the dashboard tells apart.
#[derive(Debug, Clone, Copy, PartialEq, Eq, Structural)]
pub enum DashboardKey {
    Char(char),
    Esc,
    Tab,
    Other,
}

pub open spec fn command_for(key: DashboardKey) -> DashboardCommand {
    match key {
        DashboardKey::Char('q') | DashboardKey::Esc => DashboardCommand::Quit,
        DashboardKey::Char(' ') => DashboardCommand::TogglePause,
        DashboardKey::Tab => DashboardCommand::NextTab,
        DashboardKey::Char('r') => DashboardCommand::Refresh,
        _ => DashboardCommand::Ignore,
    }
}

/// `q` or Esc quits, space pauses, Tab changes view, `r` refreshes.
pub fn map_key(key: DashboardKey) -> (r: DashboardCommand)
    ensures
        r == command_for(key),
{
    match key {
        DashboardKey::Char('q') | DashboardKey::Esc => DashboardCommand::Quit,
        DashboardKey::Char(' ') => DashboardCommand::TogglePause,
        DashboardKey::Tab => DashboardCommand::NextTab,
        DashboardKey::Char('r') => DashboardCommand::Refresh,
        _ => DashboardCommand::Ignore,
    }
}

/// Only key presses act; repeats and releases are ignored.
pub fn map_key_event(key: DashboardKey, is_press: bool) -> (r: DashboardCommand)
    ensures
        is_press ==> r == command_for(key),
        !is_press ==> r == DashboardCommand::Ignore,
{
    if is_press {
        map_key(key)
    } else {
        DashboardCommand::Ignore
    }
}

/// The part of the dashboard state that commands change.
#[derive(Debug, Clone, Copy, PartialEq, Eq, Structural)]
pub struct DashboardControls {
    pub tab: DashboardTab,
    pub paused: bool,
    pub quit: bool,
}

pub open spec fn apply_command(c: DashboardControls, command: DashboardCommand) -> DashboardControls {
    match command {
        DashboardCommand::Quit => DashboardControls { quit: true, ..c },
        DashboardCommand::TogglePause => DashboardControls { paused: !c.paused, ..c },
        DashboardCommand::NextTab => DashboardControls { tab: next_tab(c.tab), ..c },
        DashboardCommand::Refresh | DashboardCommand::Ignore => c,
    }
}

impl DashboardControls {
    /// A fresh dashboard shows the overview, live.
    pub fn new() -> (r: Self)
        ensures
            r == (DashboardControls { tab: DashboardTab::Overview, paused: false, quit: false }),
    {
        Self { tab: DashboardTab::Overview, paused: false, quit: false }
    }

    pub fn apply(&mut self, command: DashboardCommand)
        ensures
            *final(self) == apply_command(*old(self), command),
    {
        match command {
            DashboardCommand::Quit => self.quit = true,
            DashboardCommand::TogglePause => self.paused = !self.paused,
            DashboardCommand::NextTab => self.tab = self.tab.next(),
            DashboardCommand::Refresh | DashboardCommand::Ignore => {},
        }
    }

    /// Whether a refresh replaces the snapshot: only while live, unless forced.
    pub fn takes_refresh(&self, forced: bool) -> (r: bool)
        ensures
            r == (forced || !self.paused),
    {
        forced || !self.paused
    }
}

/// Pausing twice resumes; a quit dashboard stays quit.
pub proof fn lemma_pause_toggles(c: DashboardControls, command: DashboardCommand)
    ensures
        apply_command(apply_command(c, DashboardCommand::TogglePause), DashboardCommand::TogglePause)
            == c,
        c.quit ==> apply_command(c, command).quit,
{
}


/// The last `n` items of `s`, in order.
pub open spec fn last_n<T>(s: Seq<T>, n: nat) -> Seq<T> {
    if s.len() <= n {
        s
    } else {
        s.skip(s.len() - n)
    }
}

/// The recent history of the dashboard's series: generation rates and
/// wired-memory ratios of type `F`, performance-core load of type `G`.
/// The three series advance together and keep at most `capacity` samples,
/// the most recent ones.
#[derive(Debug, Clone, PartialEq)]
pub struct MetricHistory<F, G> {
    capacity: usize,
    token_rates: VecDeque<F>,
    wired_ratios: VecDeque<F>,
    performance_ratios: VecDeque<G>,
}

impl<F, G> MetricHistory<F, G> {
    pub closed spec fn capacity_spec(&self) -> nat {
        self.capacity as nat
    }

    pub closed spec fn token_rates_spec(&self) -> Seq<F> {
        self.token_rates@
    }

    pub closed spec fn wired_ratios_spec(&self) -> Seq<F> {
        self.wired_ratios@
    }

    pub closed spec fn performance_ratios_spec(&self) -> Seq<G> {
        self.performance_ratios@
    }

    /// A positive capacity, three series of one length within it.
    pub open spec fn well_formed(&self) -> bool {
        &&& self.capacity_spec() > 0
        &&& self.token_rates_spec().len() <= self.capacity_spec()
        &&& self.wired_ratios_spec().len() == self.token_rates_spec().len()
        &&& self.performance_ratios_spec().len() == self.token_rates_spec().len()
    }

    /// An empty history of `capacity` samples; a zero capacity is refused.
    pub fn new(capacity: usize) -> (r: Result<Self, DashboardError>)
        ensures
            capacity == 0 ==> r == Err::<Self, DashboardError>(DashboardError::InvalidMetric),
            capacity != 0 ==> (r matches Ok(h) && h.well_formed() && h.capacity_spec() == capacity
                && h.token_rates_spec().len() == 0),
    {
        if capacity == 0 {
            return Err(DashboardError::InvalidMetric);
        }
        Ok(Self {
            capacity,
            token_rates: VecDeque::new(),
            wired_ratios: VecDeque::new(),
            performance_ratios: VecDeque::new(),
        })
    }

    /// Appends one sample to each series; when full, the oldest samples
    /// leave first.
    pub fn record(&mut self, token_rate: F, wired_ratio: F, performance_ratio: G)
        requires
            old(self).well_formed(),
        ensures
            final(self).well_formed(),
            final(self).capacity_spec() == old(self).capacity_spec(),
            final(self).token_rates_spec() == last_n(
                old(self).token_rates_spec().push(token_rate),
                old(self).capacity_spec(),
            ),
            final(self).wired_ratios_spec() == last_n(
                old(self).wired_ratios_spec().push(wired_ratio),
                old(self).capacity_spec(),
            ),
            final(self).performance_ratios_spec() == last_n(
                old(self).performance_ratios_spec().push(performance_ratio),
                old(self).capacity_spec(),
            ),
    {
        broadcast use vstd::std_specs::vecdeque::group_vec_dequeue_axioms;

        if self.token_rates.len() == self.capacity {
            let _ = self.token_rates.pop_front();
            let _ = self.wired_ratios.pop_front();
            let _ = self.performance_ratios.pop_front();
        }
        self.token_rates.push_back(token_rate);
        self.wired_ratios.push_back(wired_ratio);
        self.performance_ratios.push_back(performance_ratio);
        proof {
            let n = old(self).capacity_spec();
            let t = old(self).token_rates_spec();
            if t.len() == n {
                assert(t.subrange(1, t.len() as int).push(token_rate) =~= t.push(token_rate).skip(1));
                let w = old(self).wired_ratios_spec();
                assert(w.subrange(1, w.len() as int).push(wired_ratio) =~= w.push(wired_ratio).skip(1));
                let p = old(self).performance_ratios_spec();
                assert(p.subrange(1, p.len() as int).push(performance_ratio) =~= p.push(
                    performance_ratio,
                ).skip(1));
            }
        }
    }

    pub fn token_rates(&self) -> (r: &VecDeque<F>)
        ensures
            r@ == self.token_rates_spec(),
    {
        &self.token_rates
    }

    pub fn wired_ratios(&self) -> (r: &VecDeque<F>)
        ensures
            r@ == self.wired_ratios_spec(),
    {
        &self.wired_ratios
    }

    pub fn performance_ratios(&self) -> (r: &VecDeque<G>)
        ensures
            r@ == self.performance_ratios_spec(),
    {
        &self.performance_ratios
    }
}

/// However many samples are recorded, a history holds at most its
/// capacity, and holds the latest of them in the order they came.
pub proof fn lemma_history_keeps_latest<T>(before: Seq<T>, sample: T, capacity: nat)
    requires
        capacity > 0,
        before.len() <= capacity,
    ensures
        last_n(before.push(sample), capacity).len() <= capacity,
        last_n(before.push(sample), capacity).last() == sample,
        before.len() < capacity ==> last_n(before.push(sample), capacity) == before.push(sample),
        before.len() == capacity ==> last_n(before.push(sample), capacity) == before.drop_first().push(
            sample,
        ),
{
    if before.len() == capacity {
        assert(before.push(sample).skip(1) =~= before.drop_first().push(sample));
    }
}

} // verus!
