//! Frame-rate monitoring: a history of frame rates, an alert once the rate
//! has stayed under a threshold long enough, and the status shown for it.
//! Frame rates are in thousandths of a frame per second, times in
//! milliseconds.
use vstd::prelude::*;
use crate::performance::{suggestions_for, suggested, CorrectiveAction};
use crate::bezel::{one_decimal, push_one_decimal};
use crate::text::{dec, push_str, push_u64, string_of};

verus! {

/// How the monitor judges frame rates.
#[derive(Debug, Clone, Copy, PartialEq, Eq)]
pub struct PerformanceConfig {
    pub target_fps_milli: u32,
    pub alert_threshold_fps_milli: u32,
    /// How long the rate must stay low before the alert
    pub alert_duration_ms: u64,
    pub show_suggestions: bool,
    pub max_history_samples: usize,
}

/// The default configuration.
pub open spec fn default_config() -> PerformanceConfig {
    PerformanceConfig {
        target_fps_milli: 60_000,
        alert_threshold_fps_milli: 30_000,
        alert_duration_ms: 2000,
        show_suggestions: true,
        max_history_samples: 300,
    }
}

impl PerformanceConfig {
    /// A 60 fps target, alerting after two seconds under 30 fps, with
    /// suggestions and five seconds of history at 60 fps.
    pub fn default() -> (c: PerformanceConfig)
        ensures
            c == default_config(),
    {
        PerformanceConfig {
            target_fps_milli: 60_000,
            alert_threshold_fps_milli: 30_000,
            alert_duration_ms: 2000,
            show_suggestions: true,
            max_history_samples: 300,
        }
    }
}

/// The monitor: its configuration, the rates of the last frames (oldest
/// first), and the alert.
#[derive(Debug, Clone)]
pub struct PerformanceMonitor {
    pub config: PerformanceConfig,
    pub history: Vec<u32>,
    /// Since when the rate has been under the threshold
    pub alert_start_ms: Option<u64>,
    pub alert_active: bool,
    pub last_alert_ms: Option<u64>,
    pub total_frames: u64,
    pub last_frame_ms: u64,
}

/// The time from `start` to `now`, none if `now` is earlier.
pub open spec fn since(start: u64, now: u64) -> u64 {
    if now >= start {
        (now - start) as u64
    } else {
        0
    }
}

/// The rate of a frame drawn at `now` after one at `last`: a thousand
/// frames per second per millisecond between them (the target when none
/// passed), held to 1..=999 fps.
pub open spec fn frame_rate(target: u32, last: u64, now: u64) -> u32 {
    let d = since(last, now);
    let f: int = if d > 0 { 1_000_000int / (d as int) } else { target as int };
    if f > 999_000 {
        999_000
    } else if f < 1000 {
        1000
    } else {
        f as u32
    }
}

/// The history with `fps` added, the oldest sample dropped past `max`.
pub open spec fn kept_history(h: Seq<u32>, fps: u32, max: usize) -> Seq<u32> {
    if h.push(fps).len() > max {
        h.push(fps).drop_first()
    } else {
        h.push(fps)
    }
}

/// The alert after a frame at `fps` at `now`, as (start of the low rate,
/// active, time of the last alert): under the threshold the low rate starts
/// or, once it has lasted the alert duration, the alert starts; at or over
/// it, the alert clears.
pub open spec fn alert_after(
    cfg: PerformanceConfig,
    start: Option<u64>,
    active: bool,
    last_alert: Option<u64>,
    now: u64,
    fps: u32,
) -> (Option<u64>, bool, Option<u64>) {
    if fps < cfg.alert_threshold_fps_milli {
        match start {
            None => (Some(now), active, last_alert),
            Some(s) => if since(s, now) >= cfg.alert_duration_ms && !active {
                (start, true, Some(now))
            } else {
                (start, active, last_alert)
            },
        }
    } else {
        (None, false, last_alert)
    }
}

/// The sum of a sequence of rates.
pub open spec fn rate_sum(s: Seq<u32>) -> nat
    decreases s.len(),
{
    if s.len() == 0 {
        0
    } else {
        rate_sum(s.drop_last()) + s.last() as nat
    }
}

/// The smallest of a non-empty sequence of rates.
pub open spec fn rate_min(s: Seq<u32>) -> u32
    decreases s.len(),
{
    if s.len() <= 1 {
        s[0]
    } else {
        let m = rate_min(s.drop_last());
        if s.last() < m {
            s.last()
        } else {
            m
        }
    }
}

/// The largest of a non-empty sequence of rates.
pub open spec fn rate_max(s: Seq<u32>) -> u32
    decreases s.len(),
{
    if s.len() <= 1 {
        s[0]
    } else {
        let m = rate_max(s.drop_last());
        if s.last() > m {
            s.last()
        } else {
            m
        }
    }
}

/// What the monitor shows.
#[derive(Debug, Clone, PartialEq, Eq)]
pub struct PerformanceStatus {
    pub current_fps_milli: u32,
    pub average_fps_milli: u32,
    pub min_fps_milli: u32,
    pub max_fps_milli: u32,
    pub alert_active: bool,
    /// How long the rate has been low, if it is
    pub alert_duration_ms: Option<u64>,
    pub suggestions: Vec<CorrectiveAction>,
}

/// The order of rates.
pub open spec fn rate_le() -> spec_fn(u32, u32) -> bool {
    |a: u32, b: u32| a <= b
}

/// The rates in increasing order.
pub open spec fn sorted_rates(h: Seq<u32>) -> Seq<u32> {
    h.sort_by(rate_le())
}

/// The 1% and 0.1% lows of a history of at least a hundred rates: the
/// rates at positions len/100 and max(len/1000, 1) in increasing order.
pub open spec fn percentile_lows_of(h: Seq<u32>) -> Option<(u32, u32)> {
    if h.len() < 100 {
        None
    } else {
        let t = sorted_rates(h);
        let i = h.len() / 100;
        let j: int = if h.len() / 1000 > 1 { (h.len() / 1000) as int } else { 1 };
        Some((t[i as int], t[j]))
    }
}

/// The average of the last sixty rates, once there are sixty.
pub open spec fn recent_avg(h: Seq<u32>) -> nat {
    if h.len() >= 60 {
        rate_sum(h.subrange(h.len() - 60, h.len() as int)) / 60
    } else {
        0
    }
}

/// The status at `now`, apart from the suggestions: the latest rate (the
/// target before any frame), the average (rounded down), least and
/// greatest rate of the history (each the latest rate when it is empty),
/// the alert, and how long the rate has been low.
pub open spec fn status_ok(m: PerformanceMonitor, now: u64, st: PerformanceStatus) -> bool {
    let h = m.history@;
    let cur = if h.len() > 0 { h.last() } else { m.config.target_fps_milli };
    &&& st.current_fps_milli == cur
    &&& h.len() == 0 ==> st.average_fps_milli == cur && st.min_fps_milli == cur && st.max_fps_milli == cur
    &&& h.len() > 0 ==> st.average_fps_milli == rate_sum(h) / h.len() && st.min_fps_milli == rate_min(h)
        && st.max_fps_milli == rate_max(h)
    &&& st.alert_active == m.alert_active
    &&& st.alert_duration_ms == (match m.alert_start_ms {
        Some(s) => Some(since(s, now)),
        None => None,
    })
    &&& forall|a: CorrectiveAction| #[trigger] st.suggestions@.contains(a) <==> (m.alert_active
        && m.config.show_suggestions && suggested(a, h.len() as usize, recent_avg(h) as u32))
    &&& forall|i: int, j: int|
        0 <= i < j < st.suggestions@.len() ==> st.suggestions@[i].spec_priority() < st.suggestions@[j].spec_priority()
}

proof fn lemma_sum_bound(s: Seq<u32>)
    ensures
        rate_sum(s) <= s.len() * 0xffff_ffff,
    decreases s.len(),
{
    if s.len() > 0 {
        lemma_sum_bound(s.drop_last());
    }
}

/// The sum of the rates at positions `lo..hi`.
fn sum_range(h: &Vec<u32>, lo: usize, hi: usize) -> (r: u128)
    requires
        lo <= hi <= h@.len(),
    ensures
        r == rate_sum(h@.subrange(lo as int, hi as int)),
{
    let mut sum: u128 = 0;
    let mut i: usize = lo;
    assert(h@.subrange(lo as int, lo as int) =~= Seq::<u32>::empty());
    while i < hi
        invariant
            lo <= i <= hi <= h@.len(),
            sum == rate_sum(h@.subrange(lo as int, i as int)),
        decreases hi - i,
    {
        proof {
            assert(h@.subrange(lo as int, i + 1).drop_last() =~= h@.subrange(lo as int, i as int));
            lemma_sum_bound(h@.subrange(lo as int, i as int));
            assert((i - lo) * 0xffff_ffff <= 0xffff_ffff_ffff_ffff * 0xffff_ffff) by (nonlinear_arith)
                requires
                    i - lo <= 0xffff_ffff_ffff_ffff,
            ;
        }
        sum = sum + h[i] as u128;
        i = i + 1;
    }
    sum
}

/// The least rate of a non-empty history.
fn least_rate(h: &Vec<u32>) -> (r: u32)
    requires
        h@.len() > 0,
    ensures
        r == rate_min(h@),
{
    let mut m: u32 = h[0];
    let mut i: usize = 1;
    assert(h@.subrange(0, 1) =~= seq![h@[0]]);
    while i < h.len()
        invariant
            1 <= i <= h@.len(),
            m == rate_min(h@.subrange(0, i as int)),
        decreases h@.len() - i,
    {
        assert(h@.subrange(0, i + 1).drop_last() =~= h@.subrange(0, i as int));
        if h[i] < m {
            m = h[i];
        }
        i = i + 1;
    }
    assert(h@.subrange(0, h@.len() as int) =~= h@);
    m
}

/// The greatest rate of a non-empty history.
fn greatest_rate(h: &Vec<u32>) -> (r: u32)
    requires
        h@.len() > 0,
    ensures
        r == rate_max(h@),
{
    let mut m: u32 = h[0];
    let mut i: usize = 1;
    assert(h@.subrange(0, 1) =~= seq![h@[0]]);
    while i < h.len()
        invariant
            1 <= i <= h@.len(),
            m == rate_max(h@.subrange(0, i as int)),
        decreases h@.len() - i,
    {
        assert(h@.subrange(0, i + 1).drop_last() =~= h@.subrange(0, i as int));
        if h[i] > m {
            m = h[i];
        }
        i = i + 1;
    }
    assert(h@.subrange(0, h@.len() as int) =~= h@);
    m
}

pub const OVERLAY_0: &'static str = "<div class=\"performance-overlay ";
pub const OVERLAY_1: &'static str = "\">\n                <div class=\"fps-display\">\n                    <span class=\"fps-value\">";
pub const OVERLAY_2: &'static str = "</span>\n                    <span class=\"fps-label\">FPS</span>\n                </div>\n                <div class=\"fps-stats\">\n                    <div>Target: ";
pub const OVERLAY_3: &'static str = "</div>\n                    <div>Avg: ";
pub const OVERLAY_4: &'static str = "</div>\n                    <div>Min: ";
pub const OVERLAY_5: &'static str = "</div>\n                    <div>Max: ";
pub const OVERLAY_6: &'static str = "</div>\n                </div>\n                ";
pub const OVERLAY_7: &'static str = "\n            </div>";
pub const SUGGESTIONS_0: &'static str = "<div class=\"suggestions\">\n                    <h4>Suggested Actions:</h4>\n                    <ul>";
pub const SUGGESTIONS_1: &'static str = "</ul>\n                </div>";
/// A value in thousandths printed with no decimals (`{:.0}`), rounded to
/// the nearest unit, ties to even.
pub open spec fn zero_decimals(m: nat) -> Seq<char> {
    let q = m / 1000;
    let r = m % 1000;
    dec(if r > 500 || (r == 500 && q % 2 == 1) { q + 1 } else { q })
}

/// The list items of the suggestions.
pub open spec fn suggestion_items(s: Seq<CorrectiveAction>) -> Seq<char>
    decreases s.len(),
{
    if s.len() == 0 {
        seq![]
    } else {
        suggestion_items(s.drop_last()) + "<li>"@ + s.last().spec_description() + "</li>"@
    }
}

/// The suggestions block: nothing without suggestions.
pub open spec fn suggestions_html(s: Seq<CorrectiveAction>) -> Seq<char> {
    if s.len() == 0 {
        seq![]
    } else {
        SUGGESTIONS_0@ + suggestion_items(s) + SUGGESTIONS_1@
    }
}

/// The overlay of a status with the target rate.
pub open spec fn overlay_html(st: PerformanceStatus, target: u32) -> Seq<char> {
    OVERLAY_0@ + (if st.alert_active { "performance-alert-active"@ } else { "performance-alert-inactive"@ }) + OVERLAY_1@
        + one_decimal(st.current_fps_milli as nat) + OVERLAY_2@ + zero_decimals(target as nat) + OVERLAY_3@
        + one_decimal(st.average_fps_milli as nat) + OVERLAY_4@ + one_decimal(st.min_fps_milli as nat) + OVERLAY_5@
        + one_decimal(st.max_fps_milli as nat) + OVERLAY_6@ + suggestions_html(st.suggestions@) + OVERLAY_7@
}

fn push_zero_decimals(out: &mut Vec<char>, m: u32)
    ensures
        final(out)@ == old(out)@ + zero_decimals(m as nat),
{
    let q = m / 1000;
    let r = m % 1000;
    let t: u32 = if r > 500 || (r == 500 && q % 2 == 1) {
        q + 1
    } else {
        q
    };
    push_u64(out, t as u64);
}

fn push_suggestions(out: &mut Vec<char>, s: &Vec<CorrectiveAction>)
    ensures
        final(out)@ == old(out)@ + suggestions_html(s@),
{
    if s.len() == 0 {
        assert(old(out)@ + suggestions_html(s@) =~= old(out)@);
        return;
    }
    let ghost start = out@;
    push_str(out, SUGGESTIONS_0);
    let mut i: usize = 0;
    while i < s.len()
        invariant
            0 <= i <= s@.len(),
            out@ == start + SUGGESTIONS_0@ + suggestion_items(s@.subrange(0, i as int)),
        decreases s@.len() - i,
    {
        assert(s@.subrange(0, i + 1).drop_last() =~= s@.subrange(0, i as int));
        push_str(out, "<li>");
        push_str(out, s[i].description());
        push_str(out, "</li>");
        assert(out@ =~= start + SUGGESTIONS_0@ + suggestion_items(s@.subrange(0, i + 1)));
        i = i + 1;
    }
    assert(s@.subrange(0, s@.len() as int) =~= s@);
    push_str(out, SUGGESTIONS_1);
    assert(out@ =~= start + suggestions_html(s@));
}

/// A frame at or above the alert threshold clears the alert and the low
/// rate's start.
pub proof fn law_good_frame_clears_alert(
    cfg: PerformanceConfig,
    start: Option<u64>,
    active: bool,
    last_alert: Option<u64>,
    now: u64,
    fps: u32,
)
    requires
        fps >= cfg.alert_threshold_fps_milli,
    ensures
        alert_after(cfg, start, active, last_alert, now, fps).0 is None,
        !alert_after(cfg, start, active, last_alert, now, fps).1,
{
}

/// An alert starts only on a frame under the threshold, once the low rate
/// has lasted the alert duration; it is then the time of the last alert.
pub proof fn law_alert_needs_sustained_low_rate(
    cfg: PerformanceConfig,
    start: Option<u64>,
    active: bool,
    last_alert: Option<u64>,
    now: u64,
    fps: u32,
)
    requires
        !active,
        alert_after(cfg, start, active, last_alert, now, fps).1,
    ensures
        fps < cfg.alert_threshold_fps_milli,
        start matches Some(s) && since(s, now) >= cfg.alert_duration_ms,
        alert_after(cfg, start, active, last_alert, now, fps).2 == Some(now),
{
}

proof fn lemma_rate_le_total()
    ensures
        vstd::relations::total_ordering(rate_le()),
{
}

/// `x` sorted, inserted into its place.
fn insert_sorted(v: &mut Vec<u32>, x: u32)
    requires
        vstd::relations::sorted_by(old(v)@, rate_le()),
    ensures
        vstd::relations::sorted_by(final(v)@, rate_le()),
        final(v)@.to_multiset() == old(v)@.to_multiset().insert(x),
{
    let mut j: usize = 0;
    while j < v.len() && v[j] <= x
        invariant
            0 <= j <= v@.len(),
            forall|k: int| 0 <= k < j ==> v@[k] <= x,
        decreases v@.len() - j,
    {
        j = j + 1;
    }
    proof {
        vstd::seq_lib::to_multiset_insert(v@, j as int, x);
    }
    let ghost v0 = v@;
    v.insert(j, x);
    assert forall|a: int, b: int| 0 <= a < b < v@.len() implies #[trigger] (rate_le())(v@[a], v@[b]) by {
        if a < j && b < j {
            assert((rate_le())(v0[a], v0[b]));
        } else if a < j && b == j {
        } else if a < j && b > j {
            assert((rate_le())(v0[a], v0[b - 1]));
        } else if a == j {
            assert((rate_le())(v0[j as int], v0[b - 1]) || b - 1 == j);
        } else {
            assert((rate_le())(v0[a - 1], v0[b - 1]));
        }
    }
}

/// The rates of `h` in increasing order.
fn sort_rates(h: &Vec<u32>) -> (v: Vec<u32>)
    ensures
        v@ == sorted_rates(h@),
        v@.len() == h@.len(),
{
    broadcast use vstd::seq_lib::group_to_multiset_ensures;

    let mut v: Vec<u32> = Vec::new();
    let mut i: usize = 0;
    assert(h@.subrange(0, 0) =~= Seq::<u32>::empty());
    assert(v@ =~= Seq::<u32>::empty());
    while i < h.len()
        invariant
            0 <= i <= h@.len(),
            vstd::relations::sorted_by(v@, rate_le()),
            v@.to_multiset() == h@.subrange(0, i as int).to_multiset(),
        decreases h@.len() - i,
    {
        insert_sorted(&mut v, h[i]);
        proof {
            assert(h@.subrange(0, i + 1) =~= h@.subrange(0, i as int).push(h@[i as int]));
            vstd::seq_lib::to_multiset_build(h@.subrange(0, i as int), h@[i as int]);
        }
        i = i + 1;
    }
    proof {
        assert(h@.subrange(0, h@.len() as int) =~= h@);
        lemma_rate_le_total();
        h@.lemma_sort_by_ensures(rate_le());
        vstd::seq_lib::lemma_sorted_unique(v@, h@.sort_by(rate_le()), rate_le());
        vstd::seq_lib::to_multiset_len(v@);
        vstd::seq_lib::to_multiset_len(h@);
    }
    v
}

impl PerformanceMonitor {
    /// A monitor with the default configuration whose last frame is at `now`.
    pub fn new(now: u64) -> (m: PerformanceMonitor)
        ensures
            m.config == default_config(),
            m.history@.len() == 0,
            m.alert_start_ms is None,
            !m.alert_active,
            m.last_alert_ms is None,
            m.total_frames == 0,
            m.last_frame_ms == now,
    {
        Self::with_config(PerformanceConfig::default(), now)
    }

    /// A monitor with `config` whose last frame is at `now`.
    pub fn with_config(config: PerformanceConfig, now: u64) -> (m: PerformanceMonitor)
        ensures
            m.config == config,
            m.history@.len() == 0,
            m.alert_start_ms is None,
            !m.alert_active,
            m.last_alert_ms is None,
            m.total_frames == 0,
            m.last_frame_ms == now,
    {
        PerformanceMonitor {
            config,
            history: Vec::new(),
            alert_start_ms: None,
            alert_active: false,
            last_alert_ms: None,
            total_frames: 0,
            last_frame_ms: now,
        }
    }

    /// Records a frame drawn at `now`; returns its rate.
    pub fn record_frame(&mut self, now: u64) -> (fps: u32)
        requires
            old(self).total_frames < u64::MAX,
        ensures
            fps == frame_rate(old(self).config.target_fps_milli, old(self).last_frame_ms, now),
            final(self).history@ == kept_history(old(self).history@, fps, old(self).config.max_history_samples),
            final(self).total_frames == old(self).total_frames + 1,
            final(self).last_frame_ms == now,
            final(self).config == old(self).config,
            (final(self).alert_start_ms, final(self).alert_active, final(self).last_alert_ms) == alert_after(
                old(self).config,
                old(self).alert_start_ms,
                old(self).alert_active,
                old(self).last_alert_ms,
                now,
                fps,
            ),
    {
        let delta: u64 = if now >= self.last_frame_ms {
            now - self.last_frame_ms
        } else {
            0
        };
        self.last_frame_ms = now;
        let raw: u64 = if delta > 0 {
            1_000_000 / delta
        } else {
            self.config.target_fps_milli as u64
        };
        let fps: u32 = if raw > 999_000 {
            999_000
        } else if raw < 1000 {
            1000
        } else {
            raw as u32
        };
        let ghost h0 = self.history@;
        self.history.push(fps);
        if self.history.len() > self.config.max_history_samples {
            self.history.remove(0);
        }
        assert(self.history@ =~= kept_history(h0, fps, self.config.max_history_samples));
        self.total_frames = self.total_frames + 1;
        self.update_alert_state(now, fps);
        fps
    }

    fn update_alert_state(&mut self, now: u64, fps: u32)
        ensures
            (final(self).alert_start_ms, final(self).alert_active, final(self).last_alert_ms) == alert_after(
                old(self).config,
                old(self).alert_start_ms,
                old(self).alert_active,
                old(self).last_alert_ms,
                now,
                fps,
            ),
            final(self).config == old(self).config,
            final(self).history@ == old(self).history@,
            final(self).total_frames == old(self).total_frames,
            final(self).last_frame_ms == old(self).last_frame_ms,
    {
        if fps < self.config.alert_threshold_fps_milli {
            match self.alert_start_ms {
                None => {
                    self.alert_start_ms = Some(now);
                },
                Some(s) => {
                    let d: u64 = if now >= s {
                        now - s
                    } else {
                        0
                    };
                    if d >= self.config.alert_duration_ms && !self.alert_active {
                        self.alert_active = true;
                        self.last_alert_ms = Some(now);
                    }
                },
            }
        } else {
            self.alert_start_ms = None;
            self.alert_active = false;
        }
    }

    pub fn is_alert_active(&self) -> (b: bool)
        ensures
            b == self.alert_active,
    {
        self.alert_active
    }

    /// The time since the last alert, at `now`.
    pub fn time_since_last_alert(&self, now: u64) -> (r: Option<u64>)
        ensures
            r == (match self.last_alert_ms {
                Some(t) => Some(since(t, now)),
                None => None,
            }),
    {
        match self.last_alert_ms {
            Some(t) => Some(if now >= t {
                now - t
            } else {
                0
            }),
            None => None,
        }
    }

    /// Dismisses the alert.
    pub fn dismiss_alert(&mut self)
        ensures
            *final(self) == (PerformanceMonitor { alert_active: false, alert_start_ms: None, ..*old(self) }),
    {
        self.alert_active = false;
        self.alert_start_ms = None;
    }

    /// Replaces the configuration.
    pub fn update_config(&mut self, config: PerformanceConfig)
        ensures
            *final(self) == (PerformanceMonitor { config, ..*old(self) }),
    {
        self.config = config;
    }

    pub fn config(&self) -> (c: &PerformanceConfig)
        ensures
            *c == self.config,
    {
        &self.config
    }

    pub fn total_frames(&self) -> (n: u64)
        ensures
            n == self.total_frames,
    {
        self.total_frames
    }

    /// The status at `now`.
    pub fn get_status(&self, now: u64) -> (st: PerformanceStatus)
        ensures
            status_ok(*self, now, st),
    {
        let n = self.history.len();
        let cur: u32 = if n > 0 {
            self.history[n - 1]
        } else {
            self.config.target_fps_milli
        };
        let (avg, min, max) = if n == 0 {
            (cur, cur, cur)
        } else {
            let sum = sum_range(&self.history, 0, n);
            proof {
                assert(self.history@.subrange(0, n as int) =~= self.history@);
                lemma_sum_bound(self.history@);
                assert(sum / (n as u128) <= 0xffff_ffff) by (nonlinear_arith)
                    requires
                        sum <= n * 0xffff_ffff,
                        n > 0,
                ;
            }
            ((sum / n as u128) as u32, least_rate(&self.history), greatest_rate(&self.history))
        };
        let alert_duration_ms = match self.alert_start_ms {
            Some(s) => Some(if now >= s {
                now - s
            } else {
                0
            }),
            None => None,
        };
        let recent: u32 = if n >= 60 {
            let r = sum_range(&self.history, n - 60, n);
            proof {
                lemma_sum_bound(self.history@.subrange(n - 60, n as int));
            }
            (r / 60) as u32
        } else {
            0
        };
        let suggestions = if self.alert_active && self.config.show_suggestions {
            suggestions_for(n, recent)
        } else {
            Vec::new()
        };
        PerformanceStatus {
            current_fps_milli: cur,
            average_fps_milli: avg,
            min_fps_milli: min,
            max_fps_milli: max,
            alert_active: self.alert_active,
            alert_duration_ms,
            suggestions,
        }
    }

    /// The overlay at `now`.
    pub fn render_overlay(&self, now: u64) -> (html: String)
        ensures
            exists|st: PerformanceStatus| #[trigger] status_ok(*self, now, st) && html@ == overlay_html(st, self.config.target_fps_milli),
    {
        let st = self.get_status(now);
        let mut out: Vec<char> = Vec::new();
        push_str(&mut out, OVERLAY_0);
        if st.alert_active {
            push_str(&mut out, "performance-alert-active");
        } else {
            push_str(&mut out, "performance-alert-inactive");
        }
        push_str(&mut out, OVERLAY_1);
        push_one_decimal(&mut out, st.current_fps_milli);
        push_str(&mut out, OVERLAY_2);
        push_zero_decimals(&mut out, self.config.target_fps_milli);
        push_str(&mut out, OVERLAY_3);
        push_one_decimal(&mut out, st.average_fps_milli);
        push_str(&mut out, OVERLAY_4);
        push_one_decimal(&mut out, st.min_fps_milli);
        push_str(&mut out, OVERLAY_5);
        push_one_decimal(&mut out, st.max_fps_milli);
        push_str(&mut out, OVERLAY_6);
        push_suggestions(&mut out, &st.suggestions);
        push_str(&mut out, OVERLAY_7);
        assert(out@ =~= overlay_html(st, self.config.target_fps_milli));
        string_of(&out)
    }

    /// The 1% and 0.1% lows, once there are a hundred samples.
    pub fn percentile_lows(&self) -> (r: Option<(u32, u32)>)
        ensures
            r == percentile_lows_of(self.history@),
    {
        if self.history.len() < 100 {
            return None;
        }
        let t = sort_rates(&self.history);
        let i = self.history.len() / 100;
        let j: usize = if self.history.len() / 1000 > 1 {
            self.history.len() / 1000
        } else {
            1
        };
        Some((t[i], t[j]))
    }
}

} // verus!
