//! Background audio: the events that can be played, and the ambience each
//! sector plays. Playback itself runs outside this library.
use vstd::prelude::*;
use crate::idmap::IdMap;
use crate::text::{eq_str, lowercased, push_str, string_of, to_lowercase};

verus! {

/// Audio event types
#[derive(Debug, Clone, Copy, PartialEq, Eq, Structural, Hash)]
pub enum AudioEvent {
    AmbientHum,
    BridgeChirps,
    ComputerThinking,
    DataTransfer,
    SectorTransition,
    PortalHum,
    AlertBeep,
}

/// The event a play request names; other names give the alert beep.
pub open spec fn audio_event_named(s: Seq<char>) -> AudioEvent {
    if s == "AmbientHum"@ {
        AudioEvent::AmbientHum
    } else if s == "AlertBeep"@ {
        AudioEvent::AlertBeep
    } else if s == "SectorTransition"@ {
        AudioEvent::SectorTransition
    } else if s == "DataTransfer"@ {
        AudioEvent::DataTransfer
    } else {
        AudioEvent::AlertBeep
    }
}

/// The event a play request names.
pub fn audio_event_of(s: &[char]) -> (e: AudioEvent)
    ensures
        e == audio_event_named(s@),
{
    if eq_str(s, "AmbientHum") {
        AudioEvent::AmbientHum
    } else if eq_str(s, "AlertBeep") {
        AudioEvent::AlertBeep
    } else if eq_str(s, "SectorTransition") {
        AudioEvent::SectorTransition
    } else if eq_str(s, "DataTransfer") {
        AudioEvent::DataTransfer
    } else {
        AudioEvent::AlertBeep
    }
}

/// The name `{:?}` gives an event.
pub open spec fn audio_event_name(e: AudioEvent) -> Seq<char> {
    match e {
        AudioEvent::AmbientHum => "AmbientHum"@,
        AudioEvent::BridgeChirps => "BridgeChirps"@,
        AudioEvent::ComputerThinking => "ComputerThinking"@,
        AudioEvent::DataTransfer => "DataTransfer"@,
        AudioEvent::SectorTransition => "SectorTransition"@,
        AudioEvent::PortalHum => "PortalHum"@,
        AudioEvent::AlertBeep => "AlertBeep"@,
    }
}

fn audio_event_str(e: AudioEvent) -> (s: &'static str)
    ensures
        s@ == audio_event_name(e),
{
    match e {
        AudioEvent::AmbientHum => "AmbientHum",
        AudioEvent::BridgeChirps => "BridgeChirps",
        AudioEvent::ComputerThinking => "ComputerThinking",
        AudioEvent::DataTransfer => "DataTransfer",
        AudioEvent::SectorTransition => "SectorTransition",
        AudioEvent::PortalHum => "PortalHum",
        AudioEvent::AlertBeep => "AlertBeep",
    }
}

/// The sound file of an event under the home directory `home`: the whole
/// path in lower case.
pub open spec fn sound_path(home: Seq<char>, e: AudioEvent) -> Seq<char> {
    lowercased(home + "/.local/share/tos/audio/"@ + audio_event_name(e) + ".wav"@)
}

/// The sound file of an event under the home directory `home`.
pub fn sound_file(home: &str, e: AudioEvent) -> (p: String)
    ensures
        p@ == sound_path(home@, e),
{
    let mut v: Vec<char> = Vec::new();
    push_str(&mut v, home);
    push_str(&mut v, "/.local/share/tos/audio/");
    push_str(&mut v, audio_event_str(e));
    push_str(&mut v, ".wav");
    let raw = string_of(&v);
    to_lowercase(raw.as_str())
}

/// The loops of an ambience, as sound files with their volumes in
/// thousandths: the base loop at the profile's volume scaled by the global
/// volume, then each secondary layer at half that (rounded down).
pub open spec fn ambience_loops(profile: AmbienceProfile, volume: u32, home: Seq<char>) -> Seq<(Seq<char>, u64)> {
    seq![(sound_path(home, profile.base_loop), (profile.volume_milli * volume / 1000) as u64)]
        + profile.secondary_layers@.map_values(
        |e: AudioEvent| (sound_path(home, e), (profile.volume_milli * volume / 2000) as u64),
    )
}

pub open spec fn loop_views(v: Seq<(String, u64)>) -> Seq<(Seq<char>, u64)> {
    v.map_values(|p: (String, u64)| (p.0@, p.1))
}

/// Ambience profile for sectors: volume and pitch in thousandths.
#[derive(Debug, Clone, PartialEq, Eq)]
pub struct AmbienceProfile {
    pub base_loop: AudioEvent,
    pub secondary_layers: Vec<AudioEvent>,
    pub volume_milli: u32,
    pub pitch_milli: u32,
}

impl AmbienceProfile {
    /// The ambient hum with bridge chirps, at 0.3 volume and normal pitch.
    pub fn default() -> (p: AmbienceProfile)
        ensures
            p.base_loop == AudioEvent::AmbientHum,
            p.secondary_layers@ == seq![AudioEvent::BridgeChirps],
            p.volume_milli == 300,
            p.pitch_milli == 1000,
    {
        let mut layers: Vec<AudioEvent> = Vec::new();
        layers.push(AudioEvent::BridgeChirps);
        AmbienceProfile { base_loop: AudioEvent::AmbientHum, secondary_layers: layers, volume_milli: 300, pitch_milli: 1000 }
    }
}

/// The audio settings and the ambience of each sector.
#[derive(Debug)]
pub struct AudioManager {
    /// Active ambience per sector
    pub sector_ambience: IdMap<AmbienceProfile>,
    /// Global volume, in thousandths
    pub volume_milli: u32,
    /// Whether audio is muted
    pub muted: bool,
}

impl AudioManager {
    /// No ambience, 0.8 volume, not muted.
    pub fn new() -> (m: AudioManager)
        ensures
            m.sector_ambience@ == Map::<u128, AmbienceProfile>::empty(),
            m.volume_milli == 800,
            !m.muted,
    {
        AudioManager { sector_ambience: IdMap::new(), volume_milli: 800, muted: false }
    }

    /// Sets the ambience of a sector.
    pub fn set_sector_ambience(&mut self, sector_id: u128, profile: AmbienceProfile)
        ensures
            final(self).sector_ambience@ == old(self).sector_ambience@.insert(sector_id, profile),
            final(self).volume_milli == old(self).volume_milli,
            final(self).muted == old(self).muted,
    {
        self.sector_ambience.insert(sector_id, profile);
    }

    /// What an audio event plays, with the home directory `home`: its
    /// sound file at the global volume, or nothing while muted.
    pub fn play_event(&self, event: AudioEvent, home: &str) -> (r: Option<(String, u32)>)
        ensures
            self.muted ==> r is None,
            !self.muted ==> (r matches Some((p, v)) && p@ == sound_path(home@, event) && v == self.volume_milli),
    {
        if self.muted {
            return None;
        }
        Some((sound_file(home, event), self.volume_milli))
    }

    /// A spatial earcon plays as the event itself; its position (in
    /// thousandths) does not change the sound.
    pub fn play_spatial_earcon(&self, event: AudioEvent, x: i32, y: i32, z: i32, home: &str) -> (r: Option<(String, u32)>)
        ensures
            self.muted ==> r is None,
            !self.muted ==> (r matches Some((p, v)) && p@ == sound_path(home@, event) && v == self.volume_milli),
    {
        self.play_event(event, home)
    }

    /// The looping sounds a sector's ambience starts, with the home
    /// directory `home`: none while muted.
    pub fn update_ambience_sinks(&self, profile: &AmbienceProfile, home: &str) -> (v: Vec<(String, u64)>)
        ensures
            self.muted ==> v@.len() == 0,
            !self.muted ==> loop_views(v@) == ambience_loops(*profile, self.volume_milli, home@),
    {
        let mut v: Vec<(String, u64)> = Vec::new();
        if self.muted {
            return v;
        }
        let a = profile.volume_milli as u64;
        let b = self.volume_milli as u64;
        assert(a * b <= 0xffff_ffff * 0xffff_ffff) by (nonlinear_arith)
            requires
                a <= 0xffff_ffff,
                b <= 0xffff_ffff,
        ;
        let scaled: u64 = a * b;
        v.push((sound_file(home, profile.base_loop), scaled / 1000));
        let ghost want = ambience_loops(*profile, self.volume_milli, home@);
        let mut i: usize = 0;
        while i < profile.secondary_layers.len()
            invariant
                0 <= i <= profile.secondary_layers@.len(),
                scaled == profile.volume_milli * self.volume_milli,
                want == ambience_loops(*profile, self.volume_milli, home@),
                loop_views(v@) == want.take(i + 1),
            decreases profile.secondary_layers@.len() - i,
        {
            let e = profile.secondary_layers[i];
            let f = sound_file(home, e);
            assert(want[i + 1] == (f@, scaled / 2000));
            let ghost before = v@;
            v.push((f, scaled / 2000));
            assert(loop_views(v@) =~= loop_views(before).push((f@, scaled / 2000)));
            i = i + 1;
            assert(loop_views(v@) =~= want.take(i + 1));
        }
        assert(want.take(i + 1) =~= want);
        v
    }
}

} // verus!
