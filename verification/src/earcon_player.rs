//! The earcon player's decisions: whether an earcon sounds (enabled,
//! debounced, within the concurrent limit) and how loud (master, category
//! and event volumes, attenuated by distance for spatial earcons).
//! Volumes and positions are thousandths; times are milliseconds supplied
//! by the caller. Producing the sound itself is the caller's work.
use vstd::prelude::*;
use crate::earcons::{admits, admits_sound, EarconCategory, EarconEvent};
use crate::reset::since;
use crate::themes::{category_index, category_slot, event_index, event_slot, lemma_event_slots};

verus! {

/// Position of a sound, in thousandths: `x` from left (-1000) to right
/// (1000), `y` from down to up, `z` from near (0) to far (1000).
#[derive(Debug, Clone, Copy, Default, PartialEq, Eq, Structural)]
pub struct SpatialPosition {
    pub x_milli: i32,
    pub y_milli: i32,
    pub z_milli: i32,
}

/// `v` held within `lo..=hi`.
pub open spec fn clamp_i32(v: i32, lo: i32, hi: i32) -> i32 {
    if v < lo {
        lo
    } else if v > hi {
        hi
    } else {
        v
    }
}

fn clamp(v: i32, lo: i32, hi: i32) -> (r: i32)
    ensures
        r == clamp_i32(v, lo, hi),
{
    if v < lo {
        lo
    } else if v > hi {
        hi
    } else {
        v
    }
}

impl SpatialPosition {
    /// The centre, near.
    pub fn center() -> (p: SpatialPosition)
        ensures
            p == (SpatialPosition { x_milli: 0, y_milli: 0, z_milli: 0 }),
    {
        SpatialPosition { x_milli: 0, y_milli: 0, z_milli: 0 }
    }

    /// A position from coordinates relative to a sector, each held to its
    /// range.
    pub fn from_sector_position(sector_x: i32, sector_y: i32, distance: i32) -> (p: SpatialPosition)
        ensures
            p == (SpatialPosition {
                x_milli: clamp_i32(sector_x, -1000i32, 1000i32),
                y_milli: clamp_i32(sector_y, -1000i32, 1000i32),
                z_milli: clamp_i32(distance, 0i32, 1000i32),
            }),
    {
        SpatialPosition {
            x_milli: clamp(sector_x, -1000, 1000),
            y_milli: clamp(sector_y, -1000, 1000),
            z_milli: clamp(distance, 0, 1000),
        }
    }

    /// Left/right pan.
    pub fn pan(&self) -> (p: i32)
        ensures
            p == self.x_milli,
    {
        self.x_milli
    }

    /// Volume factor for the distance: distant sounds lose up to half their
    /// volume (half the distance, rounded toward zero, is taken off).
    pub open spec fn spec_attenuation(self) -> int {
        if self.z_milli >= 0 {
            1000 - self.z_milli / 2
        } else {
            1000 + (-self.z_milli) / 2
        }
    }

    pub fn attenuation(&self) -> (a: i32)
        ensures
            a == self.spec_attenuation(),
    {
        1000 - self.z_milli / 2
    }
}

/// How one earcon plays.
#[derive(Debug, Clone, Copy, PartialEq, Eq, Structural)]
pub struct EarconConfig {
    pub event: EarconEvent,
    /// Volume multiplier, in thousandths
    pub volume_milli: u32,
    /// Whether the earcon is placed in space
    pub spatial: bool,
    /// Playback speed, in thousandths (1000 is normal)
    pub speed_milli: u32,
    /// Whether it may overlap itself
    pub allow_overlap: bool,
    /// Minimum time between two plays, in milliseconds
    pub debounce_ms: u64,
}

/// The configuration an event has until one is set: full volume, not
/// spatial, normal speed, overlapping, 50 ms apart.
pub open spec fn default_config(event: EarconEvent) -> EarconConfig {
    EarconConfig {
        event,
        volume_milli: 1000,
        spatial: false,
        speed_milli: 1000,
        allow_overlap: true,
        debounce_ms: 50,
    }
}

impl EarconConfig {
    /// The default configuration, for the command-accepted earcon.
    pub fn default() -> (c: EarconConfig)
        ensures
            c == default_config(EarconEvent::CommandAccepted),
    {
        EarconConfig::default_for(EarconEvent::CommandAccepted)
    }

    /// The default configuration of an event.
    pub fn default_for(event: EarconEvent) -> (c: EarconConfig)
        ensures
            c == default_config(event),
    {
        EarconConfig {
            event,
            volume_milli: 1000,
            spatial: false,
            speed_milli: 1000,
            allow_overlap: true,
            debounce_ms: 50,
        }
    }
}

/// The earcon player's settings and what it remembers of past plays.
/// Category volumes are kept by category and configurations and last play
/// times by event, in the order of `all_categories` and `all_events`.
#[derive(Debug, Clone)]
pub struct EarconPlayer {
    /// Master volume, in thousandths
    pub master_volume_milli: u32,
    pub category_volumes: Vec<u32>,
    pub event_configs: Vec<Option<EarconConfig>>,
    /// Last time each event was played, in milliseconds
    pub last_played: Vec<Option<u64>>,
    /// Sounds playing now
    pub active_sounds: Vec<EarconEvent>,
    pub max_concurrent: usize,
    pub enabled: bool,
    pub spatial_audio_enabled: bool,
}

pub struct PlayerView {
    pub master: u32,
    pub categories: Seq<u32>,
    pub configs: Seq<Option<EarconConfig>>,
    pub last_played: Seq<Option<u64>>,
    pub active: Seq<EarconEvent>,
    pub max_concurrent: usize,
    pub enabled: bool,
    pub spatial: bool,
}

impl View for EarconPlayer {
    type V = PlayerView;

    open spec fn view(&self) -> PlayerView {
        PlayerView {
            master: self.master_volume_milli,
            categories: self.category_volumes@,
            configs: self.event_configs@,
            last_played: self.last_played@,
            active: self.active_sounds@,
            max_concurrent: self.max_concurrent,
            enabled: self.enabled,
            spatial: self.spatial_audio_enabled,
        }
    }
}

impl PlayerView {
    /// A slot for each category and each event, and volumes of at most one.
    pub open spec fn wf(self) -> bool {
        &&& self.categories.len() == 5
        &&& self.configs.len() == 26
        &&& self.last_played.len() == 26
        &&& self.master <= 1000
        &&& forall|i: int| 0 <= i < 5 ==> #[trigger] self.categories[i] <= 1000
    }

    pub open spec fn category_volume(self, c: EarconCategory) -> u32 {
        self.categories[category_index(c)]
    }

    /// The configuration of an event, or its default.
    pub open spec fn config(self, e: EarconEvent) -> EarconConfig {
        match self.configs[event_index(e)] {
            Some(c) => c,
            None => default_config(e),
        }
    }

    /// The player with the event's configuration stored.
    pub open spec fn with_config(self, e: EarconEvent, c: EarconConfig) -> PlayerView {
        PlayerView { configs: self.configs.update(event_index(e), Some(c)), ..self }
    }

    /// Whether the event played less than its debounce time before `now`.
    pub open spec fn debounced(self, e: EarconEvent, now: u64) -> bool {
        match self.last_played[event_index(e)] {
            Some(t) => since(now, t) < self.config(e).debounce_ms,
            None => false,
        }
    }

    /// The volume of an event at a position: the product of the master,
    /// category and event volumes, attenuated by distance when both the
    /// player and the event are spatial, rounded down and held to 0..=1000.
    pub open spec fn volume(self, e: EarconEvent, pos: SpatialPosition) -> u32 {
        let cfg = self.config(e);
        let base = self.master * self.category_volume(e.spec_category()) * cfg.volume_milli;
        if self.spatial && cfg.spatial {
            let x = base * pos.spec_attenuation();
            if x <= 0 {
                0
            } else if x / 1_000_000_000 > 1000 {
                1000
            } else {
                (x / 1_000_000_000) as u32
            }
        } else if base / 1_000_000 > 1000 {
            1000
        } else {
            (base / 1_000_000) as u32
        }
    }

    /// The player after an event is asked to play at `now` (with its
    /// configuration stored), and the volume it sounds at, if it sounds:
    /// nothing happens while disabled; a debounced event, or one that does
    /// not outrank the playing sounds at the concurrent limit, is skipped;
    /// otherwise its play time is recorded.
    pub open spec fn played(self, e: EarconEvent, pos: SpatialPosition, now: u64) -> (PlayerView, Option<u32>) {
        if !self.enabled {
            (self, None)
        } else {
            let p = self.with_config(e, self.config(e));
            if self.debounced(e, now) || !admits(self.active, self.max_concurrent, e) {
                (p, None)
            } else {
                (
                    PlayerView { last_played: p.last_played.update(event_index(e), Some(now)), ..p },
                    Some(self.volume(e, pos)),
                )
            }
        }
    }
}

/// The default category volumes, in category order.
pub open spec fn default_category_volumes() -> Seq<u32> {
    seq![700u32, 800, 900, 600, 500]
}

/// The settings a player starts with.
pub open spec fn fresh_settings(p: PlayerView) -> bool {
    &&& p.master == 1000
    &&& p.categories == default_category_volumes()
    &&& p.configs == Seq::new(26, |i: int| None::<EarconConfig>)
    &&& p.enabled
}

fn default_categories() -> (v: Vec<u32>)
    ensures
        v@ == default_category_volumes(),
        forall|c: EarconCategory| #[trigger] v@[category_index(c)] == c.spec_default_volume_milli(),
{
    let mut v: Vec<u32> = Vec::new();
    v.push(EarconCategory::Navigation.default_volume_milli());
    v.push(EarconCategory::CommandFeedback.default_volume_milli());
    v.push(EarconCategory::SystemStatus.default_volume_milli());
    v.push(EarconCategory::Collaboration.default_volume_milli());
    v.push(EarconCategory::BezelUi.default_volume_milli());
    assert(v@ =~= default_category_volumes());
    v
}

fn no_configs() -> (v: Vec<Option<EarconConfig>>)
    ensures
        v@ == Seq::new(26, |i: int| None::<EarconConfig>),
{
    let mut v: Vec<Option<EarconConfig>> = Vec::new();
    let mut i: usize = 0;
    while i < 26
        invariant
            i <= 26,
            v@ == Seq::new(i as nat, |k: int| None::<EarconConfig>),
        decreases 26 - i,
    {
        v.push(None);
        i = i + 1;
        assert(v@ =~= Seq::new(i as nat, |k: int| None::<EarconConfig>));
    }
    v
}

fn no_times() -> (v: Vec<Option<u64>>)
    ensures
        v@ == Seq::new(26, |i: int| None::<u64>),
{
    let mut v: Vec<Option<u64>> = Vec::new();
    let mut i: usize = 0;
    while i < 26
        invariant
            i <= 26,
            v@ == Seq::new(i as nat, |k: int| None::<u64>),
        decreases 26 - i,
    {
        v.push(None);
        i = i + 1;
        assert(v@ =~= Seq::new(i as nat, |k: int| None::<u64>));
    }
    v
}

fn clamp_volume(volume: i32) -> (v: u32)
    ensures
        v == clamp_i32(volume, 0, 1000),
{
    if volume < 0 {
        0
    } else if volume > 1000 {
        1000
    } else {
        volume as u32
    }
}

impl EarconPlayer {
    /// A player at full master volume, default category volumes, no
    /// configured events, nothing played, at most eight sounds at once,
    /// enabled, with spatial audio.
    pub fn new() -> (p: EarconPlayer)
        ensures
            p@.wf(),
            fresh_settings(p@),
            p@.last_played == Seq::new(26, |i: int| None::<u64>),
            p@.active.len() == 0,
            p@.max_concurrent == 8,
            p@.spatial,
    {
        EarconPlayer {
            master_volume_milli: 1000,
            category_volumes: default_categories(),
            event_configs: no_configs(),
            last_played: no_times(),
            active_sounds: Vec::new(),
            max_concurrent: 8,
            enabled: true,
            spatial_audio_enabled: true,
        }
    }

    /// The configuration of an event, which is stored when it was not.
    fn get_config(&mut self, event: EarconEvent) -> (c: EarconConfig)
        requires
            old(self)@.wf(),
        ensures
            c == old(self)@.config(event),
            final(self)@ == old(self)@.with_config(event, c),
            final(self)@.wf(),
    {
        proof {
            lemma_event_slots();
        }
        let i = event_slot(event);
        let c = match self.event_configs[i] {
            Some(c) => c,
            None => EarconConfig::default_for(event),
        };
        self.event_configs.set(i, Some(c));
        c
    }

    /// The configuration of an event, or its default.
    fn get_config_immutable(&self, event: EarconEvent) -> (c: EarconConfig)
        requires
            self@.wf(),
        ensures
            c == self@.config(event),
    {
        proof {
            lemma_event_slots();
        }
        match self.event_configs[event_slot(event)] {
            Some(c) => c,
            None => EarconConfig::default_for(event),
        }
    }

    /// The volume an event sounds at, at a position.
    pub fn calculate_volume(&self, event: EarconEvent, position: &SpatialPosition) -> (v: u32)
        requires
            self@.wf(),
        ensures
            v == self@.volume(event, *position),
            v <= 1000,
    {
        proof {
            lemma_event_slots();
        }
        let config = self.get_config_immutable(event);
        let cat = self.category_volumes[category_slot(event.category())];
        let m = self.master_volume_milli as u64;
        let c = cat as u64;
        let e = config.volume_milli as u64;
        assert(m * c <= 1_000_000) by (nonlinear_arith)
            requires
                m <= 1000,
                c <= 1000,
        ;
        assert(m * c * e <= 1_000_000 * 0xffff_ffff) by (nonlinear_arith)
            requires
                m * c <= 1_000_000,
                e <= 0xffff_ffff,
        ;
        let base: u64 = m * c * e;
        if self.spatial_audio_enabled && config.spatial {
            let a = position.attenuation() as i128;
            assert(-0x8000_0000 <= a <= 0x8000_0000);
            let b = base as i128;
            assert(b * a <= 0x1_0000_0000_0000_0000_0000_0000) by (nonlinear_arith)
                requires
                    0 <= b <= 1_000_000 * 0xffff_ffff,
                    -0x8000_0000 <= a <= 0x8000_0000,
            ;
            assert(b * a >= -0x1_0000_0000_0000_0000_0000_0000) by (nonlinear_arith)
                requires
                    0 <= b <= 1_000_000 * 0xffff_ffff,
                    -0x8000_0000 <= a <= 0x8000_0000,
            ;
            let x: i128 = b * a;
            if x <= 0 {
                0
            } else {
                let q = x / 1_000_000_000;
                if q > 1000 {
                    1000
                } else {
                    q as u32
                }
            }
        } else {
            let q = base / 1_000_000;
            if q > 1000 {
                1000
            } else {
                q as u32
            }
        }
    }

    /// Asks for an earcon at a position at `now`; returns the volume it
    /// sounds at, or `None` when it is skipped.
    pub fn play_spatial(&mut self, event: EarconEvent, position: SpatialPosition, now: u64) -> (r: Option<u32>)
        requires
            old(self)@.wf(),
        ensures
            (final(self)@, r) == old(self)@.played(event, position, now),
            final(self)@.wf(),
    {
        if !self.enabled {
            return None;
        }
        proof {
            lemma_event_slots();
        }
        let ghost p0 = self@;
        let config = self.get_config(event);
        let i = event_slot(event);
        match self.last_played[i] {
            Some(last) => {
                let elapsed: u64 = if now >= last {
                    now - last
                } else {
                    0
                };
                if elapsed < config.debounce_ms {
                    return None;
                }
            },
            None => {},
        }
        if !admits_sound(&self.active_sounds, self.max_concurrent, event) {
            return None;
        }
        let volume = self.calculate_volume(event, &position);
        assert(self@.volume(event, position) == p0.volume(event, position));
        self.last_played.set(i, Some(now));
        Some(volume)
    }

    /// Asks for an earcon at the centre at `now`.
    pub fn play(&mut self, event: EarconEvent, now: u64) -> (r: Option<u32>)
        requires
            old(self)@.wf(),
        ensures
            (final(self)@, r) == old(self)@.played(event, SpatialPosition { x_milli: 0, y_milli: 0, z_milli: 0 }, now),
            final(self)@.wf(),
    {
        self.play_spatial(event, SpatialPosition::center(), now)
    }

    /// Sets the master volume, held to 0..=1000.
    pub fn set_master_volume(&mut self, volume: i32)
        requires
            old(self)@.wf(),
        ensures
            final(self)@ == (PlayerView { master: clamp_i32(volume, 0i32, 1000i32) as u32, ..old(self)@ }),
            final(self)@.wf(),
    {
        self.master_volume_milli = clamp_volume(volume);
    }

    pub fn master_volume(&self) -> (v: u32)
        ensures
            v == self@.master,
    {
        self.master_volume_milli
    }

    /// Sets a category's volume, held to 0..=1000.
    pub fn set_category_volume(&mut self, category: EarconCategory, volume: i32)
        requires
            old(self)@.wf(),
        ensures
            final(self)@ == (PlayerView {
                categories: old(self)@.categories.update(category_index(category), clamp_i32(volume, 0i32, 1000i32) as u32),
                ..old(self)@
            }),
            final(self)@.wf(),
    {
        proof {
            lemma_event_slots();
        }
        let i = category_slot(category);
        self.category_volumes.set(i, clamp_volume(volume));
    }

    pub fn category_volume(&self, category: EarconCategory) -> (v: u32)
        requires
            self@.wf(),
        ensures
            v == self@.category_volume(category),
    {
        proof {
            lemma_event_slots();
        }
        self.category_volumes[category_slot(category)]
    }

    /// Stores the configuration of its event.
    pub fn configure_event(&mut self, config: EarconConfig)
        requires
            old(self)@.wf(),
        ensures
            final(self)@ == old(self)@.with_config(config.event, config),
            final(self)@.wf(),
    {
        proof {
            lemma_event_slots();
        }
        self.event_configs.set(event_slot(config.event), Some(config));
    }

    pub fn set_enabled(&mut self, enabled: bool)
        ensures
            final(self)@ == (PlayerView { enabled, ..old(self)@ }),
    {
        self.enabled = enabled;
    }

    pub fn is_enabled(&self) -> (b: bool)
        ensures
            b == self@.enabled,
    {
        self.enabled
    }

    pub fn set_spatial_audio_enabled(&mut self, enabled: bool)
        ensures
            final(self)@ == (PlayerView { spatial: enabled, ..old(self)@ }),
    {
        self.spatial_audio_enabled = enabled;
    }

    pub fn is_spatial_audio_enabled(&self) -> (b: bool)
        ensures
            b == self@.spatial,
    {
        self.spatial_audio_enabled
    }

    /// Sets the concurrent limit, at least one.
    pub fn set_max_concurrent(&mut self, max: usize)
        ensures
            final(self)@ == (PlayerView { max_concurrent: if max < 1 { 1 } else { max }, ..old(self)@ }),
    {
        self.max_concurrent = if max < 1 {
            1
        } else {
            max
        };
    }

    pub fn clear_active_sounds(&mut self)
        ensures
            final(self)@ == (PlayerView { active: Seq::empty(), ..old(self)@ }),
    {
        self.active_sounds.clear();
    }

    pub fn active_sound_count(&self) -> (n: usize)
        ensures
            n == self@.active.len(),
    {
        self.active_sounds.len()
    }

    pub fn mute(&mut self)
        ensures
            final(self)@ == (PlayerView { enabled: false, ..old(self)@ }),
    {
        self.enabled = false;
    }

    pub fn unmute(&mut self)
        ensures
            final(self)@ == (PlayerView { enabled: true, ..old(self)@ }),
    {
        self.enabled = true;
    }

    pub fn zoom_in(&mut self, now: u64) -> (r: Option<u32>)
        requires
            old(self)@.wf(),
        ensures
            (final(self)@, r) == old(self)@.played(EarconEvent::ZoomIn, SpatialPosition { x_milli: 0, y_milli: 0, z_milli: 0 }, now),
            final(self)@.wf(),
    {
        self.play(EarconEvent::ZoomIn, now)
    }

    pub fn zoom_out(&mut self, now: u64) -> (r: Option<u32>)
        requires
            old(self)@.wf(),
        ensures
            (final(self)@, r) == old(self)@.played(EarconEvent::ZoomOut, SpatialPosition { x_milli: 0, y_milli: 0, z_milli: 0 }, now),
            final(self)@.wf(),
    {
        self.play(EarconEvent::ZoomOut, now)
    }

    pub fn command_accepted(&mut self, now: u64) -> (r: Option<u32>)
        requires
            old(self)@.wf(),
        ensures
            (final(self)@, r) == old(self)@.played(
                EarconEvent::CommandAccepted,
                SpatialPosition { x_milli: 0, y_milli: 0, z_milli: 0 },
                now,
            ),
            final(self)@.wf(),
    {
        self.play(EarconEvent::CommandAccepted, now)
    }

    pub fn command_error(&mut self, now: u64) -> (r: Option<u32>)
        requires
            old(self)@.wf(),
        ensures
            (final(self)@, r) == old(self)@.played(EarconEvent::CommandError, SpatialPosition { x_milli: 0, y_milli: 0, z_milli: 0 }, now),
            final(self)@.wf(),
    {
        self.play(EarconEvent::CommandError, now)
    }

    pub fn dangerous_command_warning(&mut self, now: u64) -> (r: Option<u32>)
        requires
            old(self)@.wf(),
        ensures
            (final(self)@, r) == old(self)@.played(
                EarconEvent::DangerousCommandWarning,
                SpatialPosition { x_milli: 0, y_milli: 0, z_milli: 0 },
                now,
            ),
            final(self)@.wf(),
    {
        self.play(EarconEvent::DangerousCommandWarning, now)
    }

    pub fn notification(&mut self, now: u64) -> (r: Option<u32>)
        requires
            old(self)@.wf(),
        ensures
            (final(self)@, r) == old(self)@.played(EarconEvent::Notification, SpatialPosition { x_milli: 0, y_milli: 0, z_milli: 0 }, now),
            final(self)@.wf(),
    {
        self.play(EarconEvent::Notification, now)
    }

    pub fn tactical_alert(&mut self, now: u64) -> (r: Option<u32>)
        requires
            old(self)@.wf(),
        ensures
            (final(self)@, r) == old(self)@.played(EarconEvent::TacticalAlert, SpatialPosition { x_milli: 0, y_milli: 0, z_milli: 0 }, now),
            final(self)@.wf(),
    {
        self.play(EarconEvent::TacticalAlert, now)
    }

    /// A participant joined, at a position if known (else the centre).
    pub fn user_joined(&mut self, position: Option<SpatialPosition>, now: u64) -> (r: Option<u32>)
        requires
            old(self)@.wf(),
        ensures
            (final(self)@, r) == old(self)@.played(
                EarconEvent::UserJoined,
                match position {
                    Some(p) => p,
                    None => SpatialPosition { x_milli: 0, y_milli: 0, z_milli: 0 },
                },
                now,
            ),
            final(self)@.wf(),
    {
        let pos = match position {
            Some(p) => p,
            None => SpatialPosition::center(),
        };
        self.play_spatial(EarconEvent::UserJoined, pos, now)
    }

    /// A participant left, at a position if known (else the centre).
    pub fn user_left(&mut self, position: Option<SpatialPosition>, now: u64) -> (r: Option<u32>)
        requires
            old(self)@.wf(),
        ensures
            (final(self)@, r) == old(self)@.played(
                EarconEvent::UserLeft,
                match position {
                    Some(p) => p,
                    None => SpatialPosition { x_milli: 0, y_milli: 0, z_milli: 0 },
                },
                now,
            ),
            final(self)@.wf(),
    {
        let pos = match position {
            Some(p) => p,
            None => SpatialPosition::center(),
        };
        self.play_spatial(EarconEvent::UserLeft, pos, now)
    }

    pub fn bezel_expand(&mut self, now: u64) -> (r: Option<u32>)
        requires
            old(self)@.wf(),
        ensures
            (final(self)@, r) == old(self)@.played(EarconEvent::BezelExpand, SpatialPosition { x_milli: 0, y_milli: 0, z_milli: 0 }, now),
            final(self)@.wf(),
    {
        self.play(EarconEvent::BezelExpand, now)
    }

    pub fn bezel_collapse(&mut self, now: u64) -> (r: Option<u32>)
        requires
            old(self)@.wf(),
        ensures
            (final(self)@, r) == old(self)@.played(
                EarconEvent::BezelCollapse,
                SpatialPosition { x_milli: 0, y_milli: 0, z_milli: 0 },
                now,
            ),
            final(self)@.wf(),
    {
        self.play(EarconEvent::BezelCollapse, now)
    }

    /// Every category with its volume, in category order.
    pub fn all_category_volumes(&self) -> (v: Vec<(EarconCategory, u32)>)
        requires
            self@.wf(),
        ensures
            v@.len() == 5,
            forall|i: int| 0 <= i < 5 ==> #[trigger] v@[i] == (crate::themes::all_categories_spec()[i], self@.categories[i]),
    {
        let cats = crate::themes::all_categories();
        let mut v: Vec<(EarconCategory, u32)> = Vec::new();
        let mut i: usize = 0;
        while i < 5
            invariant
                i <= 5,
                cats@ == crate::themes::all_categories_spec(),
                self@.wf(),
                v@.len() == i,
                forall|k: int| 0 <= k < i ==> #[trigger] v@[k] == (crate::themes::all_categories_spec()[k], self@.categories[k]),
            decreases 5 - i,
        {
            v.push((cats[i], self.category_volumes[i]));
            i = i + 1;
        }
        v
    }

    /// Back to the settings of a new player: full master volume, default
    /// category volumes, no configured events, at most eight sounds at once,
    /// enabled, with spatial audio. Play times and playing sounds are kept.
    pub fn reset_to_defaults(&mut self)
        requires
            old(self)@.wf(),
        ensures
            final(self)@.wf(),
            fresh_settings(final(self)@),
            final(self)@.spatial,
            final(self)@.last_played == old(self)@.last_played,
            final(self)@.active == old(self)@.active,
            final(self)@.max_concurrent == 8,
    {
        self.master_volume_milli = 1000;
        self.category_volumes = default_categories();
        self.event_configs = no_configs();
        self.enabled = true;
        self.spatial_audio_enabled = true;
        self.max_concurrent = 8;
    }
}

/// A disabled player stays silent and unchanged.
pub proof fn law_muted_player_is_silent(p: PlayerView, e: EarconEvent, pos: SpatialPosition, now: u64)
    requires
        !p.enabled,
    ensures
        p.played(e, pos, now) == (p, None::<u32>),
{
}

/// An earcon that sounded is debounced until its debounce time has passed.
pub proof fn law_played_earcon_is_debounced(p: PlayerView, e: EarconEvent, pos: SpatialPosition, now: u64, later: u64)
    requires
        p.wf(),
        p.played(e, pos, now).1 is Some,
        now <= later,
        later - now < p.config(e).debounce_ms,
    ensures
        p.played(e, pos, now).0.debounced(e, later),
        p.played(e, pos, now).0.played(e, pos, later).1 is None,
{
    lemma_event_slots();
    let q = p.played(e, pos, now).0;
    assert(q.config(e) == p.config(e));
}

/// Volumes never exceed full volume.
pub proof fn law_volume_at_most_full(p: PlayerView, e: EarconEvent, pos: SpatialPosition)
    ensures
        p.volume(e, pos) <= 1000,
{
}

} // verus!
