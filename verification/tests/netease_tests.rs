use desktop_lyrics::netease::{
    clock_address, clock_instruction_offset, current_position_ms, current_track,
    current_track_id, module_is_netease, module_size_is_scannable, nul_terminated_len,
    parse_history_track, playback_is_advancing, process_is_netease, ClockAction, ClockEvent,
    NeteaseClock, PlaybackSample, TrackMetadata, MAX_MODULE_BYTES,
};

#[test]
fn locates_netease_clock_instruction_and_resolves_its_address() {
    let mut image = vec![0u8; 64];
    image[20..32].copy_from_slice(&[
        0xf2, 0x0f, 0x11, 0x3d, 0x20, 0x00, 0x00, 0x00, 0xf2, 0x0f, 0x11, 0x35,
    ]);
    assert_eq!(clock_instruction_offset(&image), Some(20));
    assert_eq!(clock_address(0x1000, &image), Some(0x103c));
}

#[test]
fn rejects_images_without_the_netease_clock_instruction() {
    assert_eq!(clock_instruction_offset(&[0u8; 64]), None);
}

#[test]
fn parses_only_regular_tracks_from_netease_history() {
    let json = r#"{
      "id":1842801267,
      "name":"知我",
      "duration":277321,
      "artists":[{"name":"国风堂"},{"name":"哦漏"}],
      "album":{"name":"知我"}
    }"#;
    let track = parse_history_track("track", json).expect("track should parse");
    assert_eq!(track.track_id, "1842801267");
    assert_eq!(track.title, "知我");
    assert_eq!(track.artist, "国风堂/哦漏");
    assert_eq!(track.album, "知我");
    assert_eq!(track.duration_ms, 277_321);
    assert!(parse_history_track("voice", json).is_none());
}

#[test]
fn infers_pause_from_an_unchanged_private_clock() {
    let previous = PlaybackSample {
        title: "知我".to_string(),
        artist: "国风堂/哦漏".to_string(),
        position_ms: 12_000,
    };
    assert!(!playback_is_advancing(
        Some(&previous),
        "知我",
        "国风堂/哦漏",
        12_000
    ));
    assert!(playback_is_advancing(
        Some(&previous),
        "知我",
        "国风堂/哦漏",
        12_500
    ));
    assert!(playback_is_advancing(Some(&previous), "下一首", "歌手", 0));
}

#[test]
fn first_reading_counts_as_playing() {
    assert!(playback_is_advancing(None, "知我", "国风堂", 0));
}

#[test]
fn finds_the_first_of_several_clock_instructions() {
    let pattern = [0xf2, 0x0f, 0x11, 0x3d, 0xf0, 0xff, 0xff, 0xff, 0xf2, 0x0f, 0x11, 0x35];
    let mut image = vec![0x90u8; 80];
    image[5..17].copy_from_slice(&pattern);
    image[40..52].copy_from_slice(&pattern);
    assert_eq!(clock_instruction_offset(&image), Some(5));
    // 0x2000 + 5 + 8 - 16
    assert_eq!(clock_address(0x2000, &image), Some(0x2000 + 13 - 16));
    assert_eq!(clock_address(0, &image), None);
    assert_eq!(clock_address(usize::MAX - 4, &image), None);
    assert_eq!(clock_instruction_offset(&pattern), Some(0));
    assert_eq!(clock_instruction_offset(&pattern[..11]), None);
    assert_eq!(clock_instruction_offset(&[]), None);
}

#[test]
fn clock_pattern_needs_every_fixed_byte() {
    let mut image = [0xf2, 0x0f, 0x11, 0x3d, 1, 2, 3, 4, 0xf2, 0x0f, 0x11, 0x34];
    assert_eq!(clock_instruction_offset(&image), None);
    image[11] = 0x35;
    assert_eq!(clock_instruction_offset(&image), Some(0));
    assert_eq!(clock_address(0, &image), Some(8 + 0x0403_0201));
}

#[test]
fn recognises_the_netease_process_and_module() {
    let mut exe = [0u16; 260];
    for (i, unit) in "CloudMusic.EXE".encode_utf16().enumerate() {
        exe[i] = unit;
    }
    assert_eq!(nul_terminated_len(&exe), 14);
    assert!(process_is_netease(&exe));
    let full: Vec<u16> = "cloudmusic.exe".encode_utf16().collect();
    assert_eq!(nul_terminated_len(&full), 14);
    assert!(process_is_netease(&full));
    let other: Vec<u16> = "cloudmusic.exe.bak\0".encode_utf16().collect();
    assert!(!process_is_netease(&other));

    let mut name = [0u16; 260];
    for (i, unit) in "CLOUDMUSIC.dll".encode_utf16().enumerate() {
        name[i] = unit;
    }
    assert!(module_is_netease(&name, 14));
    assert!(!module_is_netease(&name, 13));
    assert!(!module_is_netease(&name, 0));
}

#[test]
fn only_reasonable_module_sizes_are_scanned() {
    assert!(!module_size_is_scannable(0));
    assert!(module_size_is_scannable(1));
    assert!(module_size_is_scannable(MAX_MODULE_BYTES));
    assert!(!module_size_is_scannable(MAX_MODULE_BYTES + 1));
}

#[test]
fn history_entries_without_title_or_artist_are_ignored() {
    assert!(parse_history_track("track", "{}").is_none());
    assert!(parse_history_track("track", "not json").is_none());
    assert!(parse_history_track("track", r#"{"name":"  ","artists":[{"name":"a"}]}"#).is_none());
    assert!(parse_history_track("track", r#"{"name":"歌","artists":[{"name":" "},{}]}"#).is_none());
    assert!(parse_history_track("track", r#"{"name":"歌","artists":{"name":"a"}}"#).is_none());
    assert!(parse_history_track("audio", r#"{"name":"歌","artists":[{"name":"a"}]}"#).is_none());
}

#[test]
fn history_entries_fill_defaults() {
    let track = parse_history_track(
        "track",
        r#"{"id":"abc","name":" 歌 名 ","artists":[{"name":" 甲 "},{"name":""},{"id":3},{"name":"乙"}],"duration":-5}"#,
    )
    .expect("track");
    assert_eq!(track.track_id, "abc");
    assert_eq!(track.title, "歌 名");
    assert_eq!(track.artist, " 甲 /乙");
    assert_eq!(track.album, "");
    assert_eq!(track.duration_ms, 0);
    let negative = parse_history_track("track", r#"{"id":-42,"name":"a","artists":[{"name":"b"}]}"#)
        .expect("track");
    assert_eq!(negative.track_id, "-42");
    let huge = parse_history_track("track", r#"{"id":18446744073709551615,"name":"a","artists":[{"name":"b"}]}"#)
        .expect("track");
    assert_eq!(huge.track_id, "");
}

fn metadata(track_id: &str, title: &str, artist: &str) -> TrackMetadata {
    TrackMetadata {
        track_id: track_id.to_string(),
        title: title.to_string(),
        artist: artist.to_string(),
        album: "知我".to_string(),
        duration_ms: 277_321,
    }
}

#[test]
fn track_id_only_for_the_matching_song() {
    let current = || Some(metadata("1842801267", "知我", "国风堂/哦漏"));
    assert_eq!(current_track_id("知我", "国风堂", current()), Some("1842801267".to_string()));
    assert_eq!(current_track_id("知 我!", "", current()), Some("1842801267".to_string()));
    assert_eq!(current_track_id("知我", "国风堂哦漏乐队", current()), Some("1842801267".to_string()));
    assert_eq!(current_track_id("另一首", "国风堂", current()), None);
    assert_eq!(current_track_id("知我", "别人", current()), None);
    assert_eq!(current_track_id("知我", "国风堂", None), None);
    assert_eq!(current_track_id("知我", "国风堂", Some(metadata("", "知我", "国风堂"))), None);
    assert_eq!(current_track_id("知我", "国风堂", Some(metadata("12a", "知我", "国风堂"))), None);
    assert_eq!(current_track_id("HELLO", "", Some(metadata("7", "hello", "x"))), Some("7".to_string()));
}

#[test]
fn current_track_remembers_the_reading() {
    let mut previous = None;
    let first = current_track(metadata("1", "知我", "国风堂"), 12_000, &mut previous);
    assert!(first.is_playing);
    assert_eq!(first.position_ms, 12_000);
    assert_eq!(first.duration_ms, 277_321);
    assert_eq!(first.track_id, "1");
    let again = current_track(metadata("1", "知我", "国风堂"), 12_000, &mut previous);
    assert!(!again.is_playing);
    let later = current_track(metadata("1", "知我", "国风堂"), 12_500, &mut previous);
    assert!(later.is_playing);
    let sample = previous.expect("sample");
    assert_eq!(sample.position_ms, 12_500);
    assert_eq!(sample.title, "知我");
}

#[test]
fn position_lookup_uses_a_remembered_clock_first() {
    let clock = NeteaseClock { process_id: 7, address: 0x1000 };
    let other = NeteaseClock { process_id: 8, address: 0x2000 };
    let mut cache = Some(clock);
    assert!(current_position_ms(&mut cache, ClockEvent::Start) == ClockAction::ReadCached(clock));
    assert!(current_position_ms(&mut cache, ClockEvent::CachedRead(Some(5))) == ClockAction::Finish(Some(5)));
    assert!(current_position_ms(&mut cache, ClockEvent::CachedRead(None)) == ClockAction::Scan);
    assert!(current_position_ms(&mut cache, ClockEvent::Scanned(Some(other))) == ClockAction::ReadFound(other));
    assert!(cache == Some(other));
    assert!(current_position_ms(&mut cache, ClockEvent::FreshRead(Some(9))) == ClockAction::Finish(Some(9)));
    assert!(current_position_ms(&mut cache, ClockEvent::Scanned(None)) == ClockAction::Finish(None));
    assert!(cache.is_none());
    assert!(current_position_ms(&mut cache, ClockEvent::Start) == ClockAction::Scan);
}
