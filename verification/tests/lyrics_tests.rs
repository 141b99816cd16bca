use desktop_lyrics::lyrics::{
    after_netease_lyrics, after_search, begin_lyrics, candidate_score, decode_entities,
    rank_candidates, search_query, CandidateStep, LyricCandidate, LyricsError, LyricsQueue,
    LyricsRequest, LyricsStart, NeteaseOutcome,
};
use desktop_lyrics::text::normalize;

fn song(name: &str, singers: &[&str], interval: Option<i64>) -> LyricCandidate {
    LyricCandidate {
        song_name: Some(name.to_string()),
        album_name: None,
        singers: Some(singers.iter().map(|s| s.to_string()).collect()),
        interval,
        song_mid: None,
    }
}

#[test]
fn rejects_wrong_artist_and_different_recording_duration() {
    let song = song("我要的", &["歌手甲"], Some(240));
    assert!(candidate_score(&song, "我要的", "歌手乙", "", 240000) < 0);
    assert!(candidate_score(&song, "我要的", "歌手甲", "", 180000) < 0);
    assert!(candidate_score(&song, "我要的", "歌手甲", "", 241000) >= 220);
}

#[test]
fn rejects_empty_metadata_and_unrelated_titles() {
    let empty = LyricCandidate {
        song_name: Some(String::new()),
        album_name: None,
        singers: Some(Vec::new()),
        interval: None,
        song_mid: None,
    };
    assert!(candidate_score(&empty, "我要的", "歌手甲", "", 0) < 0);
    let other = song("另一首歌", &["歌手甲"], None);
    assert!(candidate_score(&other, "我要的", "歌手甲", "", 0) < 0);
}

#[test]
fn scores_add_up_as_documented() {
    let mut exact = song("Hello World", &["Adele", "Guest"], Some(295));
    exact.album_name = Some("25".to_string());
    // 220 (title) + 90 (artist) + 35 (album) + 50 (within 2.5 s)
    assert_eq!(candidate_score(&exact, "hello world", "ADELE", "25", 296_000), 395);
    // within 6 s
    assert_eq!(candidate_score(&exact, "hello world", "adele", "", 300_000), 330);
    // between 6 s and 15 s
    assert_eq!(candidate_score(&exact, "hello world", "adele", "", 305_000), 260);
    // more than 15 s
    assert_eq!(candidate_score(&exact, "hello world", "adele", "", 311_000), -1);
    // unknown duration, no artist wanted
    assert_eq!(candidate_score(&exact, "Hello-World!", "", "", 0), 220);
    // title contained in the other
    assert_eq!(candidate_score(&exact, "Hello", "", "", 0), 110);
    // no singer list while an artist is wanted
    let mut lonely = song("Hello", &[], None);
    lonely.singers = None;
    assert_eq!(candidate_score(&lonely, "Hello", "Adele", "", 0), -1);
    assert_eq!(candidate_score(&lonely, "Hello", "", "", 0), 220);
    let mut nameless = song("", &[], None);
    nameless.song_name = None;
    assert_eq!(candidate_score(&nameless, "Hello", "", "", 0), -1);
}

#[test]
fn normalize_keeps_lowercase_letters_and_digits() {
    assert_eq!(normalize("Hello, World 2!"), "helloworld2");
    assert_eq!(normalize("知 我（Live）"), "知我live");
    assert_eq!(normalize("ÀB"), "àb");
    assert_eq!(normalize("  ...  "), "");
}

#[test]
fn ranks_the_best_three_with_ties_in_list_order() {
    assert_eq!(rank_candidates(&vec![100, 300, 220, 300, 395, 219]), vec![4, 1, 3]);
    assert_eq!(rank_candidates(&vec![220, -1, 221]), vec![2, 0]);
    assert_eq!(rank_candidates(&vec![-1, 219]), Vec::<usize>::new());
    assert_eq!(rank_candidates(&vec![]), Vec::<usize>::new());
    assert_eq!(rank_candidates(&vec![250, 250, 250, 250]), vec![0, 1, 2]);
}

#[test]
fn decodes_html_entities() {
    assert_eq!(decode_entities("[00:01]Don&#39;t &quot;stop&quot; &lt;3 &amp;&gt;"), "[00:01]Don't \"stop\" <3 &>");
    assert_eq!(decode_entities("&amp;lt;"), "&lt;");
    assert_eq!(decode_entities("&apos;"), "'");
    assert_eq!(decode_entities("plain lyrics"), "plain lyrics");
    assert_eq!(decode_entities(""), "");
}

fn request(title: &str, source: &str, track_id: &str) -> LyricsRequest {
    LyricsRequest {
        title: title.to_string(),
        artist: " 国风堂 ".to_string(),
        album: "知我".to_string(),
        duration_ms: 277_321,
        source: source.to_string(),
        track_id: track_id.to_string(),
    }
}

#[test]
fn lyrics_search_begins_as_the_source_allows() {
    assert!(matches!(begin_lyrics(&request("  ", "cloudmusic.exe", "1")), LyricsStart::Failed(LyricsError::MissingTitle)));
    match begin_lyrics(&request("知我", "cloudmusic.exe", "1842801267")) {
        LyricsStart::FetchNetease(id) => assert_eq!(id, "1842801267"),
        _ => panic!("expected the NetEase service"),
    }
    match begin_lyrics(&request(" 知我 ", "cloudmusic.exe", "")) {
        LyricsStart::Search(q) => assert_eq!(q, "知我 国风堂"),
        _ => panic!("expected a search"),
    }
    match begin_lyrics(&request("知我", "QQMusic.exe", "1842801267")) {
        LyricsStart::Search(q) => assert_eq!(q, "知我 国风堂"),
        _ => panic!("expected a search"),
    }
    assert_eq!(search_query(&request("a", "", "")), "a 国风堂");
}

#[test]
fn netease_lyrics_are_used_when_present() {
    let req = request("知我", "cloudmusic.exe", "1842801267");
    match after_netease_lyrics(&req, Some("[00:00]知我".to_string())) {
        NeteaseOutcome::Found(found) => {
            assert_eq!(found.lrc, "[00:00]知我");
            assert_eq!(found.song_mid, "netease:1842801267");
            assert_eq!(found.matched_title, "知我");
            assert_eq!(found.matched_artist, " 国风堂 ");
        }
        _ => panic!("expected lyrics"),
    }
    assert!(matches!(after_netease_lyrics(&req, Some(" \n".to_string())), NeteaseOutcome::Search(_)));
    assert!(matches!(after_netease_lyrics(&req, None), NeteaseOutcome::Search(_)));
}

fn keyed(name: &str, singers: &[&str], mid: Option<&str>) -> LyricCandidate {
    let mut c = song(name, singers, Some(277));
    c.song_mid = mid.map(|m| m.to_string());
    c
}

#[test]
fn tries_ranked_results_until_lyrics_are_found() {
    let req = request("知我", "QQMusic.exe", "");
    assert!(matches!(after_search(&req, None), Err(LyricsError::NoCandidates)));
    let list = vec![
        keyed("别的歌", &["国风堂"], Some("x")),
        keyed("知我", &["国风堂", "哦漏"], Some("first")),
        keyed("知我 (伴奏)", &["国风堂"], Some("second")),
    ];
    let mut queue: LyricsQueue = after_search(&req, Some(list)).ok().expect("queue");
    assert_eq!(queue.order, vec![1, 2]);
    match queue.next_step() {
        CandidateStep::Fetch(mid) => assert_eq!(mid, "first"),
        _ => panic!("expected a fetch"),
    }
    assert!(queue.accept("知我", Some("   ".to_string())).is_none());
    match queue.next_step() {
        CandidateStep::Fetch(mid) => assert_eq!(mid, "second"),
        _ => panic!("expected a fetch"),
    }
    let found = queue.accept("知我", Some("Rock &amp; roll".to_string())).expect("lyrics");
    assert_eq!(found.lrc, "Rock & roll");
    assert_eq!(found.song_mid, "second");
    assert_eq!(found.matched_title, "知我 (伴奏)");
    assert_eq!(found.matched_artist, "国风堂");
}

#[test]
fn stops_on_results_without_key_or_lyrics() {
    let req = request("知我", "QQMusic.exe", "");
    let mut queue = after_search(&req, Some(vec![keyed("知我", &["国风堂"], Some("mid"))])).ok().expect("queue");
    assert!(queue.accept("知我", None).is_none());
    assert!(matches!(queue.next_step(), CandidateStep::Failed(LyricsError::NoUsableLyrics)));

    let queue = after_search(&req, Some(vec![keyed("知我", &["国风堂", "哦漏"], Some(""))])).ok().expect("queue");
    assert!(matches!(queue.next_step(), CandidateStep::Failed(LyricsError::MissingSongMid)));
    let mut queue = after_search(&req, Some(vec![keyed("知我", &["国风堂"], None)])).ok().expect("queue");
    assert!(matches!(queue.next_step(), CandidateStep::Failed(LyricsError::MissingSongMid)));
    let mut unnamed = keyed("知我", &["国风堂", "哦漏"], Some("m"));
    unnamed.song_name = Some("知我".to_string());
    unnamed.singers = Some(vec!["国风堂".to_string(), "哦漏".to_string()]);
    queue = after_search(&req, Some(vec![unnamed])).ok().expect("queue");
    let found = queue.accept("知我", Some("x".to_string())).expect("lyrics");
    assert_eq!(found.matched_artist, "国风堂 / 哦漏");

    let empty = after_search(&req, Some(Vec::new())).ok().expect("queue");
    assert!(matches!(empty.next_step(), CandidateStep::Failed(LyricsError::NoUsableLyrics)));
}

#[test]
fn error_messages_match_the_user_interface() {
    assert_eq!(LyricsError::MissingTitle.message(), "当前播放器暂未提供歌曲名称");
    assert_eq!(LyricsError::NoCandidates.message(), "没有找到匹配歌曲");
    assert_eq!(LyricsError::MissingSongMid.message(), "匹配歌曲缺少歌词标识");
    assert_eq!(LyricsError::NoUsableLyrics.message(), "没有找到版本匹配且可用的歌词");
}
