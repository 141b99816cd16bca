use desktop_lyrics::media::{
    capture_stamp, is_music_candidate, media_action, needs_netease_clock, resolve_artist,
    select_session, snapshot_from_session, snapshot_without_session,
    source_is_supported_music_app, ticks_to_ms, timeline_timestamp_ms, MediaAction, MediaKind,
    SessionChoice, SessionFacts, SessionReading,
};
use desktop_lyrics::netease::TrackSnapshot;

#[test]
fn converts_winrt_timeline_timestamp_to_unix_milliseconds() {
    let unix_ms = 1_780_000_000_000;
    assert_eq!(
        timeline_timestamp_ms((unix_ms + 11_644_473_600_000) * 10_000),
        Some(unix_ms)
    );
    assert_eq!(timeline_timestamp_ms(0), None);
    assert_eq!(timeline_timestamp_ms(-1), None);
}

#[test]
fn accepts_supported_music_apps() {
    assert!(source_is_supported_music_app("QQMusic.exe"));
    assert!(source_is_supported_music_app("cloudmusic.exe"));
    assert!(source_is_supported_music_app("KuGou.exe"));
    assert!(source_is_supported_music_app("KuwoMusic.exe"));
    assert!(source_is_supported_music_app("Spotify.exe"));
    assert!(source_is_supported_music_app(
        "AppleInc.AppleMusicWin_nzyj5cx40ttqa!App"
    ));
    assert!(source_is_supported_music_app("汽水音乐.exe"));
}

#[test]
fn rejects_video_browsers_and_unknown_media_apps() {
    assert!(!source_is_supported_music_app("Douyin.exe"));
    assert!(!source_is_supported_music_app("抖音.exe"));
    assert!(!source_is_supported_music_app("Bilibili.exe"));
    assert!(!source_is_supported_music_app("chrome.exe"));
    assert!(!source_is_supported_music_app("msedge.exe"));
    assert!(!source_is_supported_music_app("UnknownPlayer.exe"));
}

#[test]
fn always_prefers_the_verified_private_netease_clock() {
    assert!(needs_netease_clock("cloudmusic.exe"));
    assert!(needs_netease_clock("CloudMusic.Desktop"));
    assert!(!needs_netease_clock("QQMusic.exe"));
}

#[test]
fn timestamp_just_after_the_unix_epoch_converts() {
    assert_eq!(timeline_timestamp_ms((11_644_473_600_000 + 1) * 10_000), Some(1));
    assert_eq!(timeline_timestamp_ms(11_644_473_600_000 * 10_000), None);
    assert_eq!(timeline_timestamp_ms(i64::MIN), None);
}

#[test]
fn music_app_detection_ignores_case_and_needs_a_marker() {
    assert!(source_is_supported_music_app("SPOTIFY"));
    assert!(source_is_supported_music_app("网易云音乐"));
    assert!(source_is_supported_music_app("Microsoft.ZuneMusic_8wekyb3d8bbwe!Microsoft.ZuneMusic"));
    assert!(!source_is_supported_music_app(""));
    assert!(!source_is_supported_music_app("Music"));
    assert!(!needs_netease_clock("neteasemusic"));
}

#[test]
fn video_and_image_sessions_are_no_music_candidates() {
    assert!(is_music_candidate("Spotify.exe", Some(MediaKind::Music)));
    assert!(is_music_candidate("Spotify.exe", Some(MediaKind::Unknown)));
    assert!(is_music_candidate("Spotify.exe", None));
    assert!(!is_music_candidate("Spotify.exe", Some(MediaKind::Video)));
    assert!(!is_music_candidate("Spotify.exe", Some(MediaKind::Image)));
    assert!(!is_music_candidate("chrome.exe", Some(MediaKind::Music)));
}

fn facts(is_music_candidate: bool, is_playing: bool) -> SessionFacts {
    SessionFacts { is_music_candidate, is_playing }
}

#[test]
fn prefers_a_playing_music_session() {
    let list = [facts(true, false), facts(false, true), facts(true, true), facts(true, true)];
    assert!(select_session(Some(facts(true, true)), &list) == SessionChoice::Current);
    assert!(select_session(Some(facts(true, false)), &list) == SessionChoice::Listed(2));
    assert!(select_session(None, &list) == SessionChoice::Listed(2));
}

#[test]
fn falls_back_to_a_paused_music_session() {
    let list = [facts(false, true), facts(true, false), facts(true, false)];
    assert!(select_session(Some(facts(true, false)), &list) == SessionChoice::Current);
    assert!(select_session(Some(facts(false, true)), &list) == SessionChoice::Listed(1));
    assert!(select_session(None, &[facts(false, true)]) == SessionChoice::NoSession);
    assert!(select_session(None, &[]) == SessionChoice::NoSession);
}

#[test]
fn maps_media_actions() {
    assert!(media_action("previous") == Some(MediaAction::Previous));
    assert!(media_action("toggle") == Some(MediaAction::TogglePlayPause));
    assert!(media_action("next") == Some(MediaAction::Next));
    assert!(media_action("Next").is_none());
    assert!(media_action("stop").is_none());
}

#[test]
fn converts_durations_and_capture_times() {
    assert_eq!(ticks_to_ms(123_456_789), 12_345);
    assert_eq!(ticks_to_ms(9_999), 0);
    assert_eq!(ticks_to_ms(-50_000), 0);
    assert_eq!(capture_stamp(1_700_000_000_000), Some(1_700_000_000_000));
    assert_eq!(capture_stamp(u128::MAX), None);
    assert_eq!(resolve_artist(String::new(), "专辑歌手".to_string()), "专辑歌手");
    assert_eq!(resolve_artist("歌手".to_string(), "专辑歌手".to_string()), "歌手");
}

fn reading(source: &str) -> SessionReading {
    SessionReading {
        source: source.to_string(),
        title: "知我".to_string(),
        artist: String::new(),
        album_artist: "国风堂".to_string(),
        album: "知我".to_string(),
        is_playing: true,
        position_ticks: 120_000_000,
        end_ticks: 2_773_210_000,
        last_updated_ticks: Some((1_700_000_000_000 + 11_644_473_600_000) * 10_000),
    }
}

#[test]
fn netease_clock_overrides_the_session_timeline() {
    let snapshot =
        snapshot_from_session(reading("cloudmusic.exe"), Some(15_500), Some("1842801267".to_string()), 1_800_000_000_000);
    assert!(snapshot.connected);
    assert_eq!(snapshot.position_ms, 15_500);
    assert_eq!(snapshot.duration_ms, 277_321);
    assert_eq!(snapshot.timeline_updated_at_ms, Some(1_800_000_000_000));
    assert_eq!(snapshot.track_id, "1842801267");
    assert_eq!(snapshot.artist, "国风堂");

    let unread = snapshot_from_session(reading("cloudmusic.exe"), None, None, 1_800_000_000_000);
    assert_eq!(unread.position_ms, 12_000);
    assert_eq!(unread.timeline_updated_at_ms, Some(1_700_000_000_000));
    assert_eq!(unread.track_id, "");

    let other = snapshot_from_session(reading("Spotify.exe"), Some(15_500), Some("1".to_string()), 1_800_000_000_000);
    assert_eq!(other.position_ms, 12_000);
    assert_eq!(other.track_id, "");
    assert_eq!(other.source, "Spotify.exe");
}

#[test]
fn without_a_session_the_netease_track_is_reported() {
    let track = TrackSnapshot {
        track_id: "1842801267".to_string(),
        title: "知我".to_string(),
        artist: "国风堂/哦漏".to_string(),
        album: "知我".to_string(),
        position_ms: 12_000,
        duration_ms: 277_321,
        is_playing: false,
    };
    let snapshot = snapshot_without_session(1_800_000_000_000, Some(track));
    assert!(snapshot.connected);
    assert_eq!(snapshot.source, "cloudmusic.exe");
    assert_eq!(snapshot.artist, "国风堂/哦漏");
    assert!(!snapshot.is_playing);
    assert_eq!(snapshot.timeline_updated_at_ms, Some(1_800_000_000_000));

    let empty = snapshot_without_session(1_800_000_000_000, None);
    assert!(!empty.connected);
    assert_eq!(empty.source, "");
    assert_eq!(empty.timeline_updated_at_ms, None);
    assert_eq!(empty.captured_at_ms, 1_800_000_000_000);
}
