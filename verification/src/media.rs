use vstd::prelude::*;

use crate::netease::{TrackSnapshot, TrackSnapshotView};
use crate::text::{
    ascii_lowercase, chars_ascii_lowercase, lemma_ascii_lowercase_idempotent, chars_contain, has_substring, owned, str_chars, str_eq,
};

verus! {

/// Number of 100 ns ticks in one millisecond.
pub const TICKS_PER_MS: i64 = 10_000;

/// Milliseconds between 1601-01-01 (the WinRT epoch) and 1970-01-01 (the Unix epoch).
pub const WINRT_TO_UNIX_MS: i64 = 11_644_473_600_000;

/// The Unix time in milliseconds of a WinRT timestamp (100 ns ticks since 1601), where it
/// lies after the Unix epoch.
pub open spec fn spec_timeline_timestamp_ms(winrt_ticks: i64) -> Option<i64> {
    if winrt_ticks >= 0 && winrt_ticks / TICKS_PER_MS > WINRT_TO_UNIX_MS {
        Some((winrt_ticks / TICKS_PER_MS - WINRT_TO_UNIX_MS) as i64)
    } else {
        None
    }
}

/// Converts a WinRT timestamp to Unix milliseconds; timestamps at or before the Unix epoch
/// give `None`.
pub fn timeline_timestamp_ms(winrt_ticks: i64) -> (r: Option<i64>)
    ensures
        r == spec_timeline_timestamp_ms(winrt_ticks),
{
    let unix_ms: i64 = winrt_ticks / TICKS_PER_MS - WINRT_TO_UNIX_MS;
    if unix_ms > 0 {
        Some(unix_ms)
    } else {
        None
    }
}

/// A Unix time in milliseconds after the epoch, written as WinRT ticks, converts back to
/// itself.
pub proof fn lemma_timeline_timestamp_round_trip(unix_ms: i64)
    requires
        0 < unix_ms,
        (unix_ms + WINRT_TO_UNIX_MS) * TICKS_PER_MS <= i64::MAX,
    ensures
        spec_timeline_timestamp_ms(((unix_ms + WINRT_TO_UNIX_MS) * TICKS_PER_MS) as i64) == Some(
            unix_ms,
        ),
{
    let t: int = (unix_ms + WINRT_TO_UNIX_MS) * TICKS_PER_MS;
    assert(t / (TICKS_PER_MS as int) == unix_ms + WINRT_TO_UNIX_MS) by (nonlinear_arith)
        requires
            t == (unix_ms + WINRT_TO_UNIX_MS) * TICKS_PER_MS,
    ;
}

/// Milliseconds of a WinRT duration in 100 ns ticks, negative durations counted as zero.
pub open spec fn spec_ticks_to_ms(ticks: i64) -> i64 {
    if ticks >= 0 {
        (ticks / TICKS_PER_MS) as i64
    } else {
        0
    }
}

/// Converts a WinRT duration to milliseconds, never below zero.
pub fn ticks_to_ms(ticks: i64) -> (r: i64)
    ensures
        r == spec_ticks_to_ms(ticks),
{
    let ms: i64 = ticks / TICKS_PER_MS;
    if ms > 0 {
        ms
    } else {
        0
    }
}

/// A capture time in Unix milliseconds as `i64`, where it fits (`i64::try_from`).
pub open spec fn spec_capture_stamp(captured_at_ms: u128) -> Option<i64> {
    if captured_at_ms <= i64::MAX {
        Some(captured_at_ms as i64)
    } else {
        None
    }
}

/// The capture time as `i64`, where it fits.
pub fn capture_stamp(captured_at_ms: u128) -> (r: Option<i64>)
    ensures
        r == spec_capture_stamp(captured_at_ms),
{
    if captured_at_ms <= 9223372036854775807 {
        Some(captured_at_ms as i64)
    } else {
        None
    }
}

/// The markers that the application ids of the supported music players hold, in lower case.
pub open spec fn music_app_markers() -> Seq<Seq<char>> {
    seq![
        "qqmusic"@,
        "qq音乐"@,
        "cloudmusic"@,
        "neteasemusic"@,
        "网易云音乐"@,
        "kugou"@,
        "酷狗音乐"@,
        "kuwomusic"@,
        "kuwo"@,
        "酷我音乐"@,
        "qishuimusic"@,
        "qishui"@,
        "汽水音乐"@,
        "spotify"@,
        "applemusic"@,
        "itunes"@,
        "amazonmusic"@,
        "deezer"@,
        "tidal"@,
        "zunemusic"@,
        "musicbee"@,
    ]
}

/// A media source is a supported music player: its application id, ASCII capitals lowered,
/// holds one of the markers.
pub open spec fn spec_is_supported_music_app(source: Seq<char>) -> bool {
    exists|k: int|
        0 <= k < music_app_markers().len() && has_substring(
            ascii_lowercase(source),
            #[trigger] music_app_markers()[k],
        )
}

/// Whether a media session comes from a supported music player; video apps, browsers and
/// unknown players are not.
pub fn source_is_supported_music_app(source: &str) -> (r: bool)
    ensures
        r == spec_is_supported_music_app(source@),
{
    let markers: [&str; 21] = [
        "qqmusic",
        "qq音乐",
        "cloudmusic",
        "neteasemusic",
        "网易云音乐",
        "kugou",
        "酷狗音乐",
        "kuwomusic",
        "kuwo",
        "酷我音乐",
        "qishuimusic",
        "qishui",
        "汽水音乐",
        "spotify",
        "applemusic",
        "itunes",
        "amazonmusic",
        "deezer",
        "tidal",
        "zunemusic",
        "musicbee",
    ];
    assert(markers@.map_values(|m: &str| m@) =~= music_app_markers());
    let lowered: Vec<char> = chars_ascii_lowercase(str_chars(source).as_slice());
    let mut i: usize = 0;
    while i < 21
        invariant
            i <= 21,
            markers@.map_values(|m: &str| m@) == music_app_markers(),
            lowered@ == ascii_lowercase(source@),
            forall|k: int|
                0 <= k < i ==> !has_substring(ascii_lowercase(source@), #[trigger] music_app_markers()[k]),
        decreases 21 - i,
    {
        let marker: Vec<char> = str_chars(markers[i]);
        assert(marker@ == music_app_markers()[i as int]) by {
            assert(markers@.map_values(|m: &str| m@)[i as int] == markers@[i as int]@);
        }
        if chars_contain(lowered.as_slice(), marker.as_slice()) {
            return true;
        }
        i += 1;
    }
    false
}

/// Each of the supported players' markers, ASCII capitals in the id lowered, makes a source
/// supported; a supported source holds one of them.
pub proof fn lemma_music_app_markers(source: Seq<char>)
    ensures
        ({
            let s = ascii_lowercase(source);
            &&& has_substring(s, "qqmusic"@) ==> spec_is_supported_music_app(source)
            &&& has_substring(s, "qq音乐"@) ==> spec_is_supported_music_app(source)
            &&& has_substring(s, "cloudmusic"@) ==> spec_is_supported_music_app(source)
            &&& has_substring(s, "neteasemusic"@) ==> spec_is_supported_music_app(source)
            &&& has_substring(s, "网易云音乐"@) ==> spec_is_supported_music_app(source)
            &&& has_substring(s, "kugou"@) ==> spec_is_supported_music_app(source)
            &&& has_substring(s, "酷狗音乐"@) ==> spec_is_supported_music_app(source)
            &&& has_substring(s, "kuwomusic"@) ==> spec_is_supported_music_app(source)
            &&& has_substring(s, "kuwo"@) ==> spec_is_supported_music_app(source)
            &&& has_substring(s, "酷我音乐"@) ==> spec_is_supported_music_app(source)
            &&& has_substring(s, "qishuimusic"@) ==> spec_is_supported_music_app(source)
            &&& has_substring(s, "qishui"@) ==> spec_is_supported_music_app(source)
            &&& has_substring(s, "汽水音乐"@) ==> spec_is_supported_music_app(source)
            &&& has_substring(s, "spotify"@) ==> spec_is_supported_music_app(source)
            &&& has_substring(s, "applemusic"@) ==> spec_is_supported_music_app(source)
            &&& has_substring(s, "itunes"@) ==> spec_is_supported_music_app(source)
            &&& has_substring(s, "amazonmusic"@) ==> spec_is_supported_music_app(source)
            &&& has_substring(s, "deezer"@) ==> spec_is_supported_music_app(source)
            &&& has_substring(s, "tidal"@) ==> spec_is_supported_music_app(source)
            &&& has_substring(s, "zunemusic"@) ==> spec_is_supported_music_app(source)
            &&& has_substring(s, "musicbee"@) ==> spec_is_supported_music_app(source)
            &&& spec_is_supported_music_app(source) ==> {
                ||| has_substring(s, "qqmusic"@)
                ||| has_substring(s, "qq音乐"@)
                ||| has_substring(s, "cloudmusic"@)
                ||| has_substring(s, "neteasemusic"@)
                ||| has_substring(s, "网易云音乐"@)
                ||| has_substring(s, "kugou"@)
                ||| has_substring(s, "酷狗音乐"@)
                ||| has_substring(s, "kuwomusic"@)
                ||| has_substring(s, "kuwo"@)
                ||| has_substring(s, "酷我音乐"@)
                ||| has_substring(s, "qishuimusic"@)
                ||| has_substring(s, "qishui"@)
                ||| has_substring(s, "汽水音乐"@)
                ||| has_substring(s, "spotify"@)
                ||| has_substring(s, "applemusic"@)
                ||| has_substring(s, "itunes"@)
                ||| has_substring(s, "amazonmusic"@)
                ||| has_substring(s, "deezer"@)
                ||| has_substring(s, "tidal"@)
                ||| has_substring(s, "zunemusic"@)
                ||| has_substring(s, "musicbee"@)
            }
        }),
{
    let m = music_app_markers();
    assert(m[0] == "qqmusic"@);
    assert(m[1] == "qq音乐"@);
    assert(m[2] == "cloudmusic"@);
    assert(m[3] == "neteasemusic"@);
    assert(m[4] == "网易云音乐"@);
    assert(m[5] == "kugou"@);
    assert(m[6] == "酷狗音乐"@);
    assert(m[7] == "kuwomusic"@);
    assert(m[8] == "kuwo"@);
    assert(m[9] == "酷我音乐"@);
    assert(m[10] == "qishuimusic"@);
    assert(m[11] == "qishui"@);
    assert(m[12] == "汽水音乐"@);
    assert(m[13] == "spotify"@);
    assert(m[14] == "applemusic"@);
    assert(m[15] == "itunes"@);
    assert(m[16] == "amazonmusic"@);
    assert(m[17] == "deezer"@);
    assert(m[18] == "tidal"@);
    assert(m[19] == "zunemusic"@);
    assert(m[20] == "musicbee"@);
    assert(m.len() == 21);
}

/// A media source whose position comes from the NetEase player's own clock: its
/// application id, ASCII capitals lowered, holds `cloudmusic`.
pub open spec fn spec_needs_netease_clock(source: Seq<char>) -> bool {
    has_substring(ascii_lowercase(source), "cloudmusic"@)
}

/// Whether the position of a media session is read from the NetEase player's clock, which is
/// more precise than the one the player reports to the system.
pub fn needs_netease_clock(source: &str) -> (r: bool)
    ensures
        r == spec_needs_netease_clock(source@),
{
    let lowered: Vec<char> = chars_ascii_lowercase(str_chars(source).as_slice());
    let marker: Vec<char> = str_chars("cloudmusic");
    chars_contain(lowered.as_slice(), marker.as_slice())
}

/// Every source read through the NetEase clock is a supported music player.
pub proof fn lemma_netease_clock_sources_are_supported(source: Seq<char>)
    ensures
        spec_needs_netease_clock(source) ==> spec_is_supported_music_app(source),
{
    assert(music_app_markers()[2] == "cloudmusic"@);
}

/// Recognising a music player ignores ASCII case: an application id is supported exactly
/// when its lowercase form is.
pub proof fn lemma_music_app_detection_ignores_case(source: Seq<char>)
    ensures
        spec_is_supported_music_app(source) == spec_is_supported_music_app(ascii_lowercase(source)),
        spec_needs_netease_clock(source) == spec_needs_netease_clock(ascii_lowercase(source)),
{
    lemma_ascii_lowercase_idempotent(source);
}

/// What a media session says it plays (`MediaPlaybackType`).
#[derive(Clone, Copy, PartialEq, Eq, Structural)]
pub enum MediaKind {
    Unknown,
    Music,
    Video,
    Image,
}

/// A session is a candidate for lyrics: it comes from a supported music player and does not
/// say it plays video or images.
pub open spec fn spec_is_music_candidate(source: Seq<char>, kind: Option<MediaKind>) -> bool {
    spec_is_supported_music_app(source) && kind != Some(MediaKind::Video) && kind != Some(
        MediaKind::Image,
    )
}

/// Whether a media session, from its application id and playback type (`None` where the
/// session does not tell), is a candidate for lyrics.
pub fn is_music_candidate(source: &str, kind: Option<MediaKind>) -> (r: bool)
    ensures
        r == spec_is_music_candidate(source@, kind),
{
    if !source_is_supported_music_app(source) {
        return false;
    }
    match kind {
        Some(MediaKind::Video) => false,
        Some(MediaKind::Image) => false,
        _ => true,
    }
}

/// What is known of one media session.
#[derive(Clone, Copy, PartialEq, Eq, Structural)]
pub struct SessionFacts {
    pub is_music_candidate: bool,
    pub is_playing: bool,
}

/// The session that lyrics follow.
#[derive(Clone, Copy, PartialEq, Eq, Structural)]
pub enum SessionChoice {
    /// The session the system calls current.
    Current,
    /// The session at this index of the system's session list.
    Listed(usize),
    /// No session qualifies.
    NoSession,
}

/// A session is a music candidate and, where `need_playing`, is playing.
pub open spec fn session_fits(f: SessionFacts, need_playing: bool) -> bool {
    f.is_music_candidate && (!need_playing || f.is_playing)
}

pub open spec fn current_fits(current: Option<SessionFacts>, need_playing: bool) -> bool {
    match current {
        Some(f) => session_fits(f, need_playing),
        None => false,
    }
}

pub open spec fn any_fits(sessions: Seq<SessionFacts>, need_playing: bool) -> bool {
    exists|i: int| 0 <= i < sessions.len() && session_fits(#[trigger] sessions[i], need_playing)
}

/// `i` is the first index of a fitting session.
pub open spec fn first_fitting(sessions: Seq<SessionFacts>, need_playing: bool, i: int) -> bool {
    &&& 0 <= i < sessions.len()
    &&& session_fits(sessions[i], need_playing)
    &&& forall|j: int| 0 <= j < i ==> !session_fits(#[trigger] sessions[j], need_playing)
}

/// The session lyrics follow: the current one where it is a playing music candidate, else
/// the first playing candidate of the list, else the current one where it is a candidate,
/// else the first candidate of the list.
pub open spec fn spec_session_choice(
    current: Option<SessionFacts>,
    sessions: Seq<SessionFacts>,
    r: SessionChoice,
) -> bool {
    match r {
        SessionChoice::Current => current_fits(current, true) || (!any_fits(sessions, true)
            && current_fits(current, false)),
        SessionChoice::Listed(i) => !current_fits(current, true) && (first_fitting(
            sessions,
            true,
            i as int,
        ) || (!any_fits(sessions, true) && !current_fits(current, false) && first_fitting(
            sessions,
            false,
            i as int,
        ))),
        SessionChoice::NoSession => !current_fits(current, false) && !any_fits(sessions, false),
    }
}

/// Whether the current session is a playing music candidate, which is chosen without looking
/// at the session list.
pub fn prefers_current_session(current: Option<SessionFacts>) -> (r: bool)
    ensures
        r == current_fits(current, true),
{
    match current {
        Some(f) => f.is_music_candidate && f.is_playing,
        None => false,
    }
}

fn first_fitting_index(sessions: &[SessionFacts], need_playing: bool) -> (r: Option<usize>)
    ensures
        match r {
            Some(i) => first_fitting(sessions@, need_playing, i as int),
            None => !any_fits(sessions@, need_playing),
        },
{
    let mut i: usize = 0;
    while i < sessions.len()
        invariant
            i <= sessions@.len(),
            forall|j: int| 0 <= j < i ==> !session_fits(#[trigger] sessions@[j], need_playing),
        decreases sessions@.len() - i,
    {
        let f: SessionFacts = sessions[i];
        if f.is_music_candidate && (!need_playing || f.is_playing) {
            return Some(i);
        }
        i += 1;
    }
    None
}

/// Chooses the media session that lyrics follow.
pub fn select_session(current: Option<SessionFacts>, sessions: &[SessionFacts]) -> (r:
    SessionChoice)
    ensures
        spec_session_choice(current, sessions@, r),
{
    if prefers_current_session(current) {
        return SessionChoice::Current;
    }
    if let Some(i) = first_fitting_index(sessions, true) {
        return SessionChoice::Listed(i);
    }
    let current_candidate: bool = match current {
        Some(f) => f.is_music_candidate,
        None => false,
    };
    if current_candidate {
        return SessionChoice::Current;
    }
    match first_fitting_index(sessions, false) {
        Some(i) => SessionChoice::Listed(i),
        None => SessionChoice::NoSession,
    }
}

/// The choice is a music candidate whenever there is one, and a playing one whenever one
/// plays; no session is chosen only when no session is a music candidate.
pub proof fn lemma_session_choice_prefers_playing_music(
    current: Option<SessionFacts>,
    sessions: Seq<SessionFacts>,
    r: SessionChoice,
)
    requires
        spec_session_choice(current, sessions, r),
    ensures
        r == SessionChoice::NoSession <==> (!current_fits(current, false) && !any_fits(
            sessions,
            false,
        )),
        (current_fits(current, true) || any_fits(sessions, true)) ==> match r {
            SessionChoice::Current => current_fits(current, true),
            SessionChoice::Listed(i) => session_fits(sessions[i as int], true),
            SessionChoice::NoSession => false,
        },
        match r {
            SessionChoice::Current => current_fits(current, false),
            SessionChoice::Listed(i) => 0 <= i < sessions.len() && session_fits(
                sessions[i as int],
                false,
            ),
            SessionChoice::NoSession => true,
        },
{
    if current_fits(current, true) {
    }
    if any_fits(sessions, true) {
        let k: int = choose|k: int| 0 <= k < sessions.len() && session_fits(sessions[k], true);
        assert(session_fits(sessions[k], false));
    }
    match r {
        SessionChoice::NoSession => {},
        _ => {},
    }
}

/// A playback control that the lyrics window offers.
#[derive(Clone, Copy, PartialEq, Eq, Structural)]
pub enum MediaAction {
    Previous,
    TogglePlayPause,
    Next,
}

/// The control an action name asks for: `previous`, `toggle` or `next`; any other name is
/// not supported.
pub fn media_action(action: &str) -> (r: Option<MediaAction>)
    ensures
        r == (if action@ == "previous"@ {
            Some(MediaAction::Previous)
        } else if action@ == "toggle"@ {
            Some(MediaAction::TogglePlayPause)
        } else if action@ == "next"@ {
            Some(MediaAction::Next)
        } else {
            None
        }),
{
    if str_eq(action, "previous") {
        Some(MediaAction::Previous)
    } else if str_eq(action, "toggle") {
        Some(MediaAction::TogglePlayPause)
    } else if str_eq(action, "next") {
        Some(MediaAction::Next)
    } else {
        None
    }
}

/// What the system tells about the chosen media session.
pub struct SessionReading {
    /// The application id of the player.
    pub source: String,
    pub title: String,
    pub artist: String,
    pub album_artist: String,
    pub album: String,
    pub is_playing: bool,
    /// The position on the timeline, in 100 ns ticks.
    pub position_ticks: i64,
    /// The end of the timeline, in 100 ns ticks.
    pub end_ticks: i64,
    /// When the timeline was last updated, as a WinRT timestamp, where the session tells.
    pub last_updated_ticks: Option<i64>,
}

/// What the lyrics window is told about playback.
pub struct MediaSnapshot {
    pub connected: bool,
    pub source: String,
    pub track_id: String,
    pub title: String,
    pub artist: String,
    pub album: String,
    pub is_playing: bool,
    pub position_ms: i64,
    pub duration_ms: i64,
    pub timeline_updated_at_ms: Option<i64>,
    pub captured_at_ms: u128,
}

pub struct MediaSnapshotView {
    pub connected: bool,
    pub source: Seq<char>,
    pub track_id: Seq<char>,
    pub title: Seq<char>,
    pub artist: Seq<char>,
    pub album: Seq<char>,
    pub is_playing: bool,
    pub position_ms: i64,
    pub duration_ms: i64,
    pub timeline_updated_at_ms: Option<i64>,
    pub captured_at_ms: u128,
}

impl View for MediaSnapshot {
    type V = MediaSnapshotView;

    open spec fn view(&self) -> MediaSnapshotView {
        MediaSnapshotView {
            connected: self.connected,
            source: self.source@,
            track_id: self.track_id@,
            title: self.title@,
            artist: self.artist@,
            album: self.album@,
            is_playing: self.is_playing,
            position_ms: self.position_ms,
            duration_ms: self.duration_ms,
            timeline_updated_at_ms: self.timeline_updated_at_ms,
            captured_at_ms: self.captured_at_ms,
        }
    }
}

/// The artist of a session: its track artist, or its album artist where the track artist is
/// empty.
pub open spec fn spec_resolved_artist(artist: Seq<char>, album_artist: Seq<char>) -> Seq<char> {
    if artist.len() == 0 {
        album_artist
    } else {
        artist
    }
}

/// The artist a session reports: the album artist stands in for an empty track artist.
pub fn resolve_artist(artist: String, album_artist: String) -> (r: String)
    ensures
        r@ == spec_resolved_artist(artist@, album_artist@),
{
    if artist.as_str().unicode_len() == 0 {
        album_artist
    } else {
        artist
    }
}

/// The snapshot of a media session. The NetEase player's clock, where the source needs it and
/// it could be read, gives the position, updated at capture time; otherwise the session's
/// timeline does. The NetEase track id counts only for a NetEase source.
pub open spec fn spec_session_snapshot(
    reading: SessionReading,
    netease_position_ms: Option<i64>,
    netease_track_id: Option<Seq<char>>,
    captured_at_ms: u128,
) -> MediaSnapshotView {
    let netease = spec_needs_netease_clock(reading.source@);
    let use_clock = netease && netease_position_ms is Some;
    MediaSnapshotView {
        connected: true,
        source: reading.source@,
        track_id: if netease {
            match netease_track_id {
                Some(id) => id,
                None => seq![],
            }
        } else {
            seq![]
        },
        title: reading.title@,
        artist: spec_resolved_artist(reading.artist@, reading.album_artist@),
        album: reading.album@,
        is_playing: reading.is_playing,
        position_ms: if use_clock {
            netease_position_ms->0
        } else {
            spec_ticks_to_ms(reading.position_ticks)
        },
        duration_ms: spec_ticks_to_ms(reading.end_ticks),
        timeline_updated_at_ms: if use_clock {
            spec_capture_stamp(captured_at_ms)
        } else {
            match reading.last_updated_ticks {
                Some(t) => spec_timeline_timestamp_ms(t),
                None => None,
            }
        },
        captured_at_ms,
    }
}

/// Builds the snapshot of a media session from what the system tells, the NetEase clock
/// reading and the NetEase track id (both `None` where not read or not found).
pub fn snapshot_from_session(
    reading: SessionReading,
    netease_position_ms: Option<i64>,
    netease_track_id: Option<String>,
    captured_at_ms: u128,
) -> (r: MediaSnapshot)
    ensures
        r@ == spec_session_snapshot(
            reading,
            netease_position_ms,
            match netease_track_id {
                Some(id) => Some(id@),
                None => None,
            },
            captured_at_ms,
        ),
{
    let netease: bool = needs_netease_clock(reading.source.as_str());
    let mut position_ms: i64 = ticks_to_ms(reading.position_ticks);
    let duration_ms: i64 = ticks_to_ms(reading.end_ticks);
    let mut timeline_updated_at_ms: Option<i64> = match reading.last_updated_ticks {
        Some(t) => timeline_timestamp_ms(t),
        None => None,
    };
    if netease {
        if let Some(p) = netease_position_ms {
            position_ms = p;
            timeline_updated_at_ms = capture_stamp(captured_at_ms);
        }
    }
    let track_id: String = if netease {
        match netease_track_id {
            Some(id) => id,
            None => String::new(),
        }
    } else {
        String::new()
    };
    let artist: String = resolve_artist(reading.artist, reading.album_artist);
    MediaSnapshot {
        connected: true,
        source: reading.source,
        track_id,
        title: reading.title,
        artist,
        album: reading.album,
        is_playing: reading.is_playing,
        position_ms,
        duration_ms,
        timeline_updated_at_ms,
        captured_at_ms,
    }
}

/// The snapshot where no media session qualifies: the NetEase player's own track where it
/// could be read (reported as coming from `cloudmusic.exe`, updated at capture time), else a
/// snapshot that is not connected.
pub open spec fn spec_sessionless_snapshot(
    captured_at_ms: u128,
    track: Option<TrackSnapshotView>,
) -> MediaSnapshotView {
    match track {
        Some(t) => MediaSnapshotView {
            connected: true,
            source: "cloudmusic.exe"@,
            track_id: t.track_id,
            title: t.title,
            artist: t.artist,
            album: t.album,
            is_playing: t.is_playing,
            position_ms: t.position_ms,
            duration_ms: t.duration_ms,
            timeline_updated_at_ms: spec_capture_stamp(captured_at_ms),
            captured_at_ms,
        },
        None => MediaSnapshotView {
            connected: false,
            source: seq![],
            track_id: seq![],
            title: seq![],
            artist: seq![],
            album: seq![],
            is_playing: false,
            position_ms: 0,
            duration_ms: 0,
            timeline_updated_at_ms: None,
            captured_at_ms,
        },
    }
}

/// Builds the snapshot for when no media session qualifies.
pub fn snapshot_without_session(captured_at_ms: u128, track: Option<TrackSnapshot>) -> (r:
    MediaSnapshot)
    ensures
        r@ == spec_sessionless_snapshot(
            captured_at_ms,
            match track {
                Some(t) => Some(t@),
                None => None,
            },
        ),
{
    match track {
        Some(t) => MediaSnapshot {
            connected: true,
            source: owned("cloudmusic.exe"),
            track_id: t.track_id,
            title: t.title,
            artist: t.artist,
            album: t.album,
            is_playing: t.is_playing,
            position_ms: t.position_ms,
            duration_ms: t.duration_ms,
            timeline_updated_at_ms: capture_stamp(captured_at_ms),
            captured_at_ms,
        },
        None => MediaSnapshot {
            connected: false,
            source: String::new(),
            track_id: String::new(),
            title: String::new(),
            artist: String::new(),
            album: String::new(),
            is_playing: false,
            position_ms: 0,
            duration_ms: 0,
            timeline_updated_at_ms: None,
            captured_at_ms,
        },
    }
}

/// The snapshot of a session keeps what the session reports: it is connected, and its source,
/// title, album, playing state and capture time are the session's, whatever the NetEase clock
/// reading; the length is the timeline's end in milliseconds (negative counted as zero). The
/// position is the NetEase clock reading where the source is a NetEase one and the clock was
/// read, and the timeline position in milliseconds otherwise.
pub proof fn lemma_session_snapshot_keeps_the_session(
    reading: SessionReading,
    netease_position_ms: Option<i64>,
    netease_track_id: Option<Seq<char>>,
    captured_at_ms: u128,
)
    ensures
        ({
            let r = spec_session_snapshot(
                reading,
                netease_position_ms,
                netease_track_id,
                captured_at_ms,
            );
            &&& r.connected
            &&& r.is_playing == reading.is_playing
            &&& r.source == reading.source@
            &&& r.title == reading.title@
            &&& r.album == reading.album@
            &&& r.captured_at_ms == captured_at_ms
            &&& r.duration_ms == (if reading.end_ticks >= 0 {
                reading.end_ticks / 10000
            } else {
                0
            })
            &&& (has_substring(ascii_lowercase(reading.source@), "cloudmusic"@)
                && netease_position_ms is Some) ==> r.position_ms == netease_position_ms->0
            &&& !(has_substring(ascii_lowercase(reading.source@), "cloudmusic"@)
                && netease_position_ms is Some) ==> r.position_ms == (if reading.position_ticks
                >= 0 {
                reading.position_ticks / 10000
            } else {
                0
            })
            &&& !has_substring(ascii_lowercase(reading.source@), "cloudmusic"@) ==> r.track_id.len()
                == 0
            &&& has_substring(ascii_lowercase(reading.source@), "cloudmusic"@) ==> r.track_id
                == match netease_track_id {
                Some(id) => id,
                None => Seq::<char>::empty(),
            }
            &&& (has_substring(ascii_lowercase(reading.source@), "cloudmusic"@)
                && netease_position_ms is Some) ==> r.timeline_updated_at_ms == (if captured_at_ms
                <= i64::MAX {
                Some(captured_at_ms as i64)
            } else {
                None
            })
            &&& reading.artist@.len() > 0 ==> r.artist == reading.artist@
            &&& reading.artist@.len() == 0 ==> r.artist == reading.album_artist@
        }),
{
}

/// Without a session, a NetEase track is reported as it was read: connected, from
/// `cloudmusic.exe`, with the track's id, title, artist, album, position, length and playing
/// state; without a track the snapshot is not connected, at position zero.
pub proof fn lemma_sessionless_snapshot_keeps_the_track(
    captured_at_ms: u128,
    track: Option<TrackSnapshotView>,
)
    ensures
        ({
            let r = spec_sessionless_snapshot(captured_at_ms, track);
            &&& r.captured_at_ms == captured_at_ms
            &&& track is Some ==> {
                let t = track->0;
                &&& r.connected
                &&& r.source == "cloudmusic.exe"@
                &&& r.track_id == t.track_id
                &&& r.title == t.title
                &&& r.artist == t.artist
                &&& r.album == t.album
                &&& r.position_ms == t.position_ms
                &&& r.duration_ms == t.duration_ms
                &&& r.is_playing == t.is_playing
            }
            &&& track is None ==> !r.connected && r.position_ms == 0 && !r.is_playing
                && r.title.len() == 0
        }),
{
}

} // verus!
