use tos_dream::audio::{AmbienceProfile, AudioEvent, AudioManager};
use tos_dream::dirsort::{shown_local_entries, LocalEntry};
use tos_dream::procstat::stats_from_status;

fn entry(name: &str, is_dir: bool, size: u64) -> LocalEntry {
    LocalEntry { name: name.to_string(), is_dir, size }
}

#[test]
fn files_sort_by_lowercased_name_and_hide_dotfiles() {
    let entries = vec![
        entry("beta.txt", false, 2),
        entry(".hidden", false, 1),
        entry("Alpha.txt", false, 3),
        entry("docs", true, 0),
    ];
    let files = shown_local_entries(&entries, false, false);
    let names: Vec<&str> = files.iter().map(|e| e.name.as_str()).collect();
    assert_eq!(names, vec!["Alpha.txt", "beta.txt"]);
    let all = shown_local_entries(&entries, true, false);
    let names: Vec<&str> = all.iter().map(|e| e.name.as_str()).collect();
    assert_eq!(names, vec![".hidden", "Alpha.txt", "beta.txt"]);
    let dirs = shown_local_entries(&entries, false, true);
    assert_eq!(dirs.len(), 1);
    assert_eq!(dirs[0].name, "docs");
}

#[test]
fn equal_names_keep_their_order() {
    let entries = vec![entry("a", false, 1), entry("A", false, 2)];
    let files = shown_local_entries(&entries, false, false);
    assert_eq!(files[0].size, 1);
    assert_eq!(files[1].size, 2);
}

#[test]
fn process_memory_from_status() {
    let status = "Name:\tbash\nVmPeak:\t 100 kB\nVmRSS:\t    2048 kB\nThreads:\t1\n";
    let stats = stats_from_status(42, status).unwrap();
    assert_eq!(stats.pid, 42);
    assert_eq!(stats.memory_bytes, 2048 * 1024);
    assert_eq!(stats.cpu_usage_tenths, 42);
    let none = stats_from_status(51, "Name:\tx\n").unwrap();
    assert_eq!(none.memory_bytes, 0);
    assert_eq!(none.cpu_usage_tenths, 1);
}

#[test]
fn process_memory_overflow_is_refused() {
    let status = "VmRSS:\t18446744073709551615 kB\n";
    assert!(stats_from_status(1, status).is_none());
}

#[test]
fn sound_paths_are_lower_case() {
    let m = AudioManager::new();
    let (path, volume) = m.play_event(AudioEvent::AlertBeep, "/home/User").unwrap();
    assert_eq!(path, "/home/user/.local/share/tos/audio/alertbeep.wav");
    assert_eq!(volume, 800);
    let mut muted = AudioManager::new();
    muted.muted = true;
    assert!(muted.play_event(AudioEvent::AlertBeep, "/home/user").is_none());
}

#[test]
fn ambience_loops_scale_with_volume() {
    let m = AudioManager::new();
    let loops = m.update_ambience_sinks(&AmbienceProfile::default(), "/h");
    assert_eq!(loops.len(), 2);
    assert_eq!(loops[0], ("/h/.local/share/tos/audio/ambienthum.wav".to_string(), 240));
    assert_eq!(loops[1], ("/h/.local/share/tos/audio/bridgechirps.wav".to_string(), 120));
}
