use vstd::prelude::*;

use crate::media::{needs_netease_clock, spec_needs_netease_clock};
use crate::text::{
    chars_contain, chars_equal, has_substring, is_blank, is_digit_string, is_digits,
    join_strings, joined, normalize_chars, normalized, owned, replace_chars, replaced, str_chars,
    string_from_chars, string_views, trim_chars, trimmed,
};

verus! {

broadcast use vstd::string::group_string_axioms;

/// A song that the lyrics search offers, with the members of its JSON entry that matching
/// reads. A member that is missing or of another kind is `None`.
pub struct LyricCandidate {
    /// `songname`, where it is a string.
    pub song_name: Option<String>,
    /// `albumname`, where it is a string.
    pub album_name: Option<String>,
    /// `singer`, where it is an array: the `name` of each element that is a string.
    pub singers: Option<Vec<String>>,
    /// `interval` (the length in seconds), where it is an integer that fits in `i64`.
    pub interval: Option<i64>,
    /// `songmid` (the key for the song's lyrics), where it is a string.
    pub song_mid: Option<String>,
}

pub struct LyricCandidateView {
    pub song_name: Option<Seq<char>>,
    pub album_name: Option<Seq<char>>,
    pub singers: Option<Seq<Seq<char>>>,
    pub interval: Option<i64>,
    pub song_mid: Option<Seq<char>>,
}

pub open spec fn opt_text(s: Option<String>) -> Option<Seq<char>> {
    match s {
        Some(t) => Some(t@),
        None => None,
    }
}

impl View for LyricCandidate {
    type V = LyricCandidateView;

    open spec fn view(&self) -> LyricCandidateView {
        LyricCandidateView {
            song_name: opt_text(self.song_name),
            album_name: opt_text(self.album_name),
            singers: match self.singers {
                Some(v) => Some(string_views(v@)),
                None => None,
            },
            interval: self.interval,
            song_mid: opt_text(self.song_mid),
        }
    }
}

pub open spec fn text_or_empty(s: Option<Seq<char>>) -> Seq<char> {
    match s {
        Some(t) => t,
        None => seq![],
    }
}

/// The singers of a candidate joined with `sep`; empty where the candidate has no singer list.
pub open spec fn singer_text(c: LyricCandidateView, sep: Seq<char>) -> Seq<char> {
    match c.singers {
        Some(v) => joined(v, sep),
        None => seq![],
    }
}

/// The candidate's length in milliseconds (zero where unknown) fits in `i64`.
pub open spec fn interval_fits(c: LyricCandidateView) -> bool {
    match c.interval {
        Some(i) => i64::MIN <= i * 1000 <= i64::MAX,
        None => true,
    }
}

pub open spec fn abs(x: int) -> int {
    if x < 0 {
        -x
    } else {
        x
    }
}

/// How well a search result matches the song being played, or `-1` where it must not be used.
/// After `normalize`: the titles must be equal (220 points) or one must contain the other
/// (110); a known artist must overlap the candidate's singers (90); an equal known album adds
/// 35. Where both lengths are known, a difference of at most 2.5 s adds 50, of at most 6 s
/// adds 20, of more than 15 s rejects the candidate, and otherwise takes 50 away.
pub open spec fn spec_candidate_score(
    c: LyricCandidateView,
    title: Seq<char>,
    artist: Seq<char>,
    album: Seq<char>,
    duration_ms: i64,
) -> int {
    let wanted_title = normalized(title);
    let found_title = normalized(text_or_empty(c.song_name));
    let wanted_artist = normalized(artist);
    let found_artist = normalized(singer_text(c, " "@));
    let wanted_album = normalized(album);
    let found_album = normalized(text_or_empty(c.album_name));
    if wanted_title.len() == 0 || found_title.len() == 0 {
        -1
    } else if found_title != wanted_title && !has_substring(found_title, wanted_title)
        && !has_substring(wanted_title, found_title) {
        -1
    } else if wanted_artist.len() > 0 && (found_artist.len() == 0 || !(has_substring(
        found_artist,
        wanted_artist,
    ) || has_substring(wanted_artist, found_artist))) {
        -1
    } else {
        let base: int = (if found_title == wanted_title {
            220int
        } else {
            110int
        }) + (if wanted_artist.len() > 0 {
            90int
        } else {
            0int
        }) + (if wanted_album.len() > 0 && found_album == wanted_album {
            35int
        } else {
            0int
        });
        let found_duration: int = match c.interval {
            Some(i) => i * 1000,
            None => 0,
        };
        if duration_ms > 0 && found_duration > 0 {
            let difference: int = abs(found_duration - duration_ms);
            if difference <= 2500 {
                base + 50
            } else if difference <= 6000 {
                base + 20
            } else if difference > 15000 {
                -1
            } else {
                base - 50
            }
        } else {
            base
        }
    }
}

fn optional_chars(s: &Option<String>) -> (r: Vec<char>)
    ensures
        r@ == text_or_empty(opt_text(*s)),
{
    match s {
        Some(t) => str_chars(t.as_str()),
        None => Vec::new(),
    }
}

fn candidate_singers(c: &LyricCandidate, sep: &str) -> (r: String)
    ensures
        r@ == singer_text(c@, sep@),
{
    match &c.singers {
        Some(v) => join_strings(v, sep),
        None => String::new(),
    }
}

/// Scores a search result against the song being played (see `spec_candidate_score`).
pub fn candidate_score(
    candidate: &LyricCandidate,
    title: &str,
    artist: &str,
    album: &str,
    duration_ms: i64,
) -> (r: i64)
    requires
        interval_fits(candidate@),
    ensures
        r as int == spec_candidate_score(candidate@, title@, artist@, album@, duration_ms),
{
    let singers: String = candidate_singers(candidate, " ");
    let wanted_title: Vec<char> = normalize_chars(str_chars(title).as_slice());
    let found_title: Vec<char> = normalize_chars(optional_chars(&candidate.song_name).as_slice());
    let wanted_artist: Vec<char> = normalize_chars(str_chars(artist).as_slice());
    let found_artist: Vec<char> = normalize_chars(str_chars(singers.as_str()).as_slice());
    let wanted_album: Vec<char> = normalize_chars(str_chars(album).as_slice());
    let found_album: Vec<char> = normalize_chars(optional_chars(&candidate.album_name).as_slice());
    let mut score: i64 = 0;
    if wanted_title.len() == 0 || found_title.len() == 0 {
        return -1;
    }
    let same_title: bool = chars_equal(found_title.as_slice(), wanted_title.as_slice());
    if same_title {
        score += 220;
    } else if chars_contain(found_title.as_slice(), wanted_title.as_slice()) || chars_contain(
        wanted_title.as_slice(),
        found_title.as_slice(),
    ) {
        score += 110;
    } else {
        return -1;
    }
    if wanted_artist.len() > 0 {
        if found_artist.len() == 0 || !(chars_contain(
            found_artist.as_slice(),
            wanted_artist.as_slice(),
        ) || chars_contain(wanted_artist.as_slice(), found_artist.as_slice())) {
            return -1;
        }
        score += 90;
    }
    if wanted_album.len() > 0 && chars_equal(found_album.as_slice(), wanted_album.as_slice()) {
        score += 35;
    }
    let found_duration: i64 = match candidate.interval {
        Some(i) => i * 1000,
        None => 0,
    };
    if duration_ms > 0 && found_duration > 0 {
        let difference: i64 = if found_duration >= duration_ms {
            found_duration - duration_ms
        } else {
            duration_ms - found_duration
        };
        if difference <= 2500 {
            score += 50;
        } else if difference <= 6000 {
            score += 20;
        } else if difference > 15000 {
            return -1;
        } else {
            score -= 50;
        }
    }
    score
}

/// Lowest score with which a search result is tried.
pub const MIN_SCORE: i64 = 220;

/// Most search results whose lyrics are fetched.
pub const MAX_TRIED: usize = 3;

/// Result `a` is tried before result `b`: it scores higher, or as high and comes first.
pub open spec fn ranks_before(scores: Seq<int>, a: int, b: int) -> bool {
    scores[a] > scores[b] || (scores[a] == scores[b] && a < b)
}

/// Result `i` scores high enough to be tried.
pub open spec fn is_eligible(scores: Seq<int>, i: int) -> bool {
    0 <= i < scores.len() && scores[i] >= MIN_SCORE
}

/// `order` lists the results to try: the best eligible ones by score, at most three, higher
/// scores first and ties in list order (a stable sort by descending score, then the first
/// three).
pub open spec fn is_top_ranking(scores: Seq<int>, order: Seq<usize>) -> bool {
    &&& order.len() <= MAX_TRIED
    &&& forall|k: int| 0 <= k < order.len() ==> is_eligible(scores, #[trigger] order[k] as int)
    &&& forall|j: int, k: int|
        0 <= j < k < order.len() ==> ranks_before(scores, order[j] as int, order[k] as int)
    &&& forall|i: int|
        is_eligible(scores, i) && (forall|k: int| 0 <= k < order.len() ==> order[k] != i) ==> {
            &&& order.len() == MAX_TRIED
            &&& forall|k: int| 0 <= k < order.len() ==> ranks_before(scores, order[k] as int, i)
        }
}

/// The scores of all results.
pub open spec fn candidate_scores(
    candidates: Seq<LyricCandidateView>,
    title: Seq<char>,
    artist: Seq<char>,
    album: Seq<char>,
    duration_ms: i64,
) -> Seq<int> {
    Seq::new(
        candidates.len(),
        |i: int| spec_candidate_score(candidates[i], title, artist, album, duration_ms),
    )
}

pub open spec fn candidate_views(candidates: Seq<LyricCandidate>) -> Seq<LyricCandidateView> {
    candidates.map_values(|c: LyricCandidate| c@)
}

fn position_in(order: &Vec<usize>, i: usize) -> (r: bool)
    ensures
        r == (exists|k: int| 0 <= k < order@.len() && order@[k] == i),
{
    let mut k: usize = 0;
    while k < order.len()
        invariant
            k <= order@.len(),
            forall|m: int| 0 <= m < k ==> order@[m] != i,
        decreases order@.len() - k,
    {
        if order[k] == i {
            return true;
        }
        k += 1;
    }
    false
}

/// The indices of the results to try, in the order to try them.
pub fn rank_candidates(scores: &Vec<i64>) -> (r: Vec<usize>)
    ensures
        is_top_ranking(scores@.map_values(|s: i64| s as int), r@),
{
    let ghost sc: Seq<int> = scores@.map_values(|s: i64| s as int);
    let n: usize = scores.len();
    let mut order: Vec<usize> = Vec::new();
    let mut exhausted: bool = false;
    while order.len() < MAX_TRIED && !exhausted
        invariant
            n == scores@.len(),
            sc == scores@.map_values(|s: i64| s as int),
            order@.len() <= MAX_TRIED,
            forall|k: int| 0 <= k < order@.len() ==> is_eligible(sc, #[trigger] order@[k] as int),
            forall|j: int, k: int|
                0 <= j < k < order@.len() ==> ranks_before(sc, order@[j] as int, order@[k] as int),
            forall|i: int|
                is_eligible(sc, i) && (forall|k: int| 0 <= k < order@.len() ==> order@[k] != i)
                    ==> {
                    &&& !exhausted
                    &&& forall|k: int|
                        0 <= k < order@.len() ==> ranks_before(sc, order@[k] as int, i)
                },
        decreases MAX_TRIED - order@.len(), if exhausted { 0int } else { 1int },
    {
        let mut best: Option<usize> = None;
        let mut i: usize = 0;
        while i < n
            invariant
                n == scores@.len(),
                sc == scores@.map_values(|s: i64| s as int),
                i <= n,
                match best {
                    Some(b) => {
                        &&& b < i
                        &&& is_eligible(sc, b as int)
                        &&& forall|k: int| 0 <= k < order@.len() ==> order@[k] != b
                        &&& forall|m: int|
                            0 <= m < i && is_eligible(sc, m) && (forall|k: int|
                                0 <= k < order@.len() ==> order@[k] != m) ==> m == b
                                || ranks_before(sc, b as int, m)
                    },
                    None => forall|m: int|
                        0 <= m < i && is_eligible(sc, m) ==> exists|k: int|
                            0 <= k < order@.len() && order@[k] == m,
                },
            decreases n - i,
        {
            if scores[i] >= MIN_SCORE && !position_in(&order, i) {
                let better: bool = match best {
                    None => true,
                    Some(b) => scores[i] > scores[b],
                };
                if better {
                    best = Some(i);
                }
            }
            i += 1;
        }
        match best {
            None => {
                exhausted = true;
            },
            Some(b) => {
                let ghost before = order@;
                order.push(b);
                assert forall|i: int|
                    is_eligible(sc, i) && (forall|k: int|
                        0 <= k < order@.len() ==> order@[k] != i) implies forall|k: int|
                    0 <= k < order@.len() ==> ranks_before(sc, order@[k] as int, i) by {
                    assert(forall|k: int| 0 <= k < before.len() ==> before[k] == order@[k]);
                    assert(order@[before.len() as int] == b);
                }
            },
        }
    }
    order
}

/// `s` with the HTML entities that the lyrics service writes (`&#39;`, `&apos;`, `&quot;`,
/// `&lt;`, `&gt;`, `&amp;`) decoded, replaced one kind after another in that order.
pub open spec fn spec_decode_entities(s: Seq<char>) -> Seq<char> {
    replaced(
        replaced(
            replaced(
                replaced(replaced(replaced(s, "&#39;"@, "'"@), "&apos;"@, "'"@), "&quot;"@, "\""@),
                "&lt;"@,
                "<"@,
            ),
            "&gt;"@,
            ">"@,
        ),
        "&amp;"@,
        "&"@,
    )
}

fn replace_literal(s: Vec<char>, from: &str, to: &str) -> (r: Vec<char>)
    requires
        from@.len() > 0,
    ensures
        r@ == replaced(s@, from@, to@),
{
    let f: Vec<char> = str_chars(from);
    let t: Vec<char> = str_chars(to);
    replace_chars(s.as_slice(), f.as_slice(), t.as_slice())
}

/// Decodes the HTML entities in lyrics text.
pub fn decode_entities(value: &str) -> (r: String)
    ensures
        r@ == spec_decode_entities(value@),
{
    proof {
        reveal_strlit("&#39;");
        reveal_strlit("&apos;");
        reveal_strlit("&quot;");
        reveal_strlit("&lt;");
        reveal_strlit("&gt;");
        reveal_strlit("&amp;");
    }
    let mut s: Vec<char> = str_chars(value);
    s = replace_literal(s, "&#39;", "'");
    s = replace_literal(s, "&apos;", "'");
    s = replace_literal(s, "&quot;", "\"");
    s = replace_literal(s, "&lt;", "<");
    s = replace_literal(s, "&gt;", ">");
    s = replace_literal(s, "&amp;", "&");
    string_from_chars(s.as_slice())
}

/// Replacing a pattern that begins with `&` leaves text without `&` as it is.
proof fn lemma_replace_without_ampersand(s: Seq<char>, from: Seq<char>, to: Seq<char>)
    requires
        from.len() > 0,
        from[0] == '&',
        forall|i: int| 0 <= i < s.len() ==> s[i] != '&',
    ensures
        replaced(s, from, to) == s,
    decreases s.len(),
{
    if s.len() > 0 {
        let rest = s.subrange(1, s.len() as int);
        if from.len() <= s.len() && s.subrange(0, from.len() as int) == from {
            assert(s.subrange(0, from.len() as int)[0] == s[0]);
        }
        lemma_replace_without_ampersand(rest, from, to);
        assert(seq![s[0]] + rest =~= s);
    }
}

/// Lyrics text without `&` holds no entity, and decoding leaves it as it is.
pub proof fn lemma_decode_keeps_plain_text(s: Seq<char>)
    requires
        forall|i: int| 0 <= i < s.len() ==> s[i] != '&',
    ensures
        spec_decode_entities(s) == s,
{
    reveal_strlit("&#39;");
    reveal_strlit("&apos;");
    reveal_strlit("&quot;");
    reveal_strlit("&lt;");
    reveal_strlit("&gt;");
    reveal_strlit("&amp;");
    lemma_replace_without_ampersand(s, "&#39;"@, "'"@);
    lemma_replace_without_ampersand(s, "&apos;"@, "'"@);
    lemma_replace_without_ampersand(s, "&quot;"@, "\""@);
    lemma_replace_without_ampersand(s, "&lt;"@, "<"@);
    lemma_replace_without_ampersand(s, "&gt;"@, ">"@);
    lemma_replace_without_ampersand(s, "&amp;"@, "&"@);
}

/// What the lyrics window asks lyrics for.
pub struct LyricsRequest {
    pub title: String,
    pub artist: String,
    pub album: String,
    pub duration_ms: i64,
    /// The application id of the player.
    pub source: String,
    /// The NetEase track id, where known.
    pub track_id: String,
}

/// Lyrics found for a request.
pub struct LyricsResult {
    pub lrc: String,
    pub song_mid: String,
    pub matched_title: String,
    pub matched_artist: String,
}

pub struct LyricsResultView {
    pub lrc: Seq<char>,
    pub song_mid: Seq<char>,
    pub matched_title: Seq<char>,
    pub matched_artist: Seq<char>,
}

impl View for LyricsResult {
    type V = LyricsResultView;

    open spec fn view(&self) -> LyricsResultView {
        LyricsResultView {
            lrc: self.lrc@,
            song_mid: self.song_mid@,
            matched_title: self.matched_title@,
            matched_artist: self.matched_artist@,
        }
    }
}

/// Why no lyrics were found.
#[derive(Clone, Copy, PartialEq, Eq, Structural)]
pub enum LyricsError {
    /// The player gave no title.
    MissingTitle,
    /// The search answer held no song list.
    NoCandidates,
    /// A result to be tried has no lyrics key.
    MissingSongMid,
    /// No tried result had lyrics.
    NoUsableLyrics,
}

impl LyricsError {
    /// The message shown to the user.
    pub open spec fn spec_message(self) -> Seq<char> {
        match self {
            LyricsError::MissingTitle => "当前播放器暂未提供歌曲名称"@,
            LyricsError::NoCandidates => "没有找到匹配歌曲"@,
            LyricsError::MissingSongMid => "匹配歌曲缺少歌词标识"@,
            LyricsError::NoUsableLyrics => "没有找到版本匹配且可用的歌词"@,
        }
    }

    /// The message shown to the user.
    pub fn message(&self) -> (r: String)
        ensures
            r@ == self.spec_message(),
    {
        match self {
            LyricsError::MissingTitle => owned("当前播放器暂未提供歌曲名称"),
            LyricsError::NoCandidates => owned("没有找到匹配歌曲"),
            LyricsError::MissingSongMid => owned("匹配歌曲缺少歌词标识"),
            LyricsError::NoUsableLyrics => owned("没有找到版本匹配且可用的歌词"),
        }
    }
}

/// Lyrics text that can be shown: it holds more than whitespace.
pub open spec fn usable_lyrics(lrc: Option<Seq<char>>) -> bool {
    match lrc {
        Some(l) => trimmed(l).len() > 0,
        None => false,
    }
}

/// The NetEase lyrics service is asked first for a NetEase source with a track id of digits.
pub open spec fn asks_netease(request: LyricsRequest) -> bool {
    spec_needs_netease_clock(request.source@) && is_digit_string(request.track_id@)
}

/// The search text: the trimmed title and the trimmed artist, with a space between.
pub open spec fn spec_search_query(request: LyricsRequest) -> Seq<char> {
    trimmed(request.title@) + " "@ + trimmed(request.artist@)
}

/// How finding lyrics begins.
pub enum LyricsStart {
    /// No lyrics can be looked for.
    Failed(LyricsError),
    /// Ask the NetEase lyrics service for this track id.
    FetchNetease(String),
    /// Search the lyrics catalogue for this text.
    Search(String),
}

/// The search text for a request.
pub fn search_query(request: &LyricsRequest) -> (r: String)
    ensures
        r@ == spec_search_query(*request),
{
    let mut text: Vec<char> = trim_chars(str_chars(request.title.as_str()).as_slice());
    let mut space: Vec<char> = str_chars(" ");
    let mut artist: Vec<char> = trim_chars(str_chars(request.artist.as_str()).as_slice());
    text.append(&mut space);
    text.append(&mut artist);
    string_from_chars(text.as_slice())
}

/// The first step of finding lyrics: a request without a title fails; a NetEase track is
/// asked of the NetEase service; anything else is searched for.
pub fn begin_lyrics(request: &LyricsRequest) -> (r: LyricsStart)
    ensures
        match r {
            LyricsStart::Failed(e) => trimmed(request.title@).len() == 0 && e
                == LyricsError::MissingTitle,
            LyricsStart::FetchNetease(id) => trimmed(request.title@).len() > 0 && asks_netease(
                *request,
            ) && id@ == request.track_id@,
            LyricsStart::Search(q) => trimmed(request.title@).len() > 0 && !asks_netease(*request)
                && q@ == spec_search_query(*request),
        },
{
    if is_blank(request.title.as_str()) {
        return LyricsStart::Failed(LyricsError::MissingTitle);
    }
    if needs_netease_clock(request.source.as_str()) && is_digits(request.track_id.as_str()) {
        LyricsStart::FetchNetease(request.track_id.clone())
    } else {
        LyricsStart::Search(search_query(request))
    }
}

/// What the NetEase lyrics service's answer leads to.
pub enum NeteaseOutcome {
    /// The lyrics, matched to the request's own title and artist.
    Found(LyricsResult),
    /// Search the lyrics catalogue for this text.
    Search(String),
}

/// Takes the NetEase service's lyrics (`None` where the request failed or the answer held
/// none): usable lyrics are the result, keyed `netease:` and the track id; otherwise the
/// catalogue is searched.
pub fn after_netease_lyrics(request: &LyricsRequest, lrc: Option<String>) -> (r: NeteaseOutcome)
    ensures
        match r {
            NeteaseOutcome::Found(found) => usable_lyrics(opt_text(lrc)) && found@ == (
            LyricsResultView {
                lrc: lrc->0@,
                song_mid: "netease:"@ + request.track_id@,
                matched_title: request.title@,
                matched_artist: request.artist@,
            }),
            NeteaseOutcome::Search(q) => !usable_lyrics(opt_text(lrc)) && q@ == spec_search_query(
                *request,
            ),
        },
{
    match lrc {
        Some(l) => {
            if !is_blank(l.as_str()) {
                let mut key: Vec<char> = str_chars("netease:");
                let mut id: Vec<char> = str_chars(request.track_id.as_str());
                key.append(&mut id);
                return NeteaseOutcome::Found(
                    LyricsResult {
                        lrc: l,
                        song_mid: string_from_chars(key.as_slice()),
                        matched_title: request.title.clone(),
                        matched_artist: request.artist.clone(),
                    },
                );
            }
            NeteaseOutcome::Search(search_query(request))
        },
        None => NeteaseOutcome::Search(search_query(request)),
    }
}

/// The search results that are tried, in order, and how far trying has come.
pub struct LyricsQueue {
    pub candidates: Vec<LyricCandidate>,
    /// Indices into `candidates`, best first.
    pub order: Vec<usize>,
    /// How many of `order` have been tried.
    pub next: usize,
}

impl LyricsQueue {
    pub open spec fn wf(&self) -> bool {
        &&& self.order@.len() <= MAX_TRIED
        &&& self.next <= self.order@.len()
        &&& forall|k: int|
            0 <= k < self.order@.len() ==> #[trigger] self.order@[k] < self.candidates@.len()
    }

    /// The result at position `k` of the order.
    pub open spec fn ranked(&self, k: int) -> LyricCandidateView {
        self.candidates@[self.order@[k] as int]@
    }
}

/// Ranks the search results (`None` where the answer held no song list) into the queue of
/// results to try.
pub fn after_search(request: &LyricsRequest, candidates: Option<Vec<LyricCandidate>>) -> (r:
    Result<LyricsQueue, LyricsError>)
    requires
        match candidates {
            Some(v) => forall|i: int| 0 <= i < v@.len() ==> interval_fits(#[trigger] v@[i]@),
            None => true,
        },
    ensures
        match r {
            Ok(queue) => {
                &&& candidates is Some
                &&& queue.wf()
                &&& queue.next == 0
                &&& candidate_views(queue.candidates@) == candidate_views(candidates->0@)
                &&& is_top_ranking(
                    candidate_scores(
                        candidate_views(queue.candidates@),
                        request.title@,
                        request.artist@,
                        request.album@,
                        request.duration_ms,
                    ),
                    queue.order@,
                )
            },
            Err(e) => candidates is None && e == LyricsError::NoCandidates,
        },
{
    let list: Vec<LyricCandidate> = match candidates {
        Some(v) => v,
        None => return Err(LyricsError::NoCandidates),
    };
    let ghost views: Seq<LyricCandidateView> = candidate_views(list@);
    let ghost target: Seq<int> = candidate_scores(
        views,
        request.title@,
        request.artist@,
        request.album@,
        request.duration_ms,
    );
    let mut scores: Vec<i64> = Vec::new();
    let mut i: usize = 0;
    while i < list.len()
        invariant
            i <= list@.len(),
            views == candidate_views(list@),
            target == candidate_scores(
                views,
                request.title@,
                request.artist@,
                request.album@,
                request.duration_ms,
            ),
            forall|j: int| 0 <= j < list@.len() ==> interval_fits(#[trigger] list@[j]@),
            scores@.len() == i,
            forall|j: int| 0 <= j < i ==> scores@[j] as int == target[j],
        decreases list@.len() - i,
    {
        let score: i64 = candidate_score(
            &list[i],
            request.title.as_str(),
            request.artist.as_str(),
            request.album.as_str(),
            request.duration_ms,
        );
        scores.push(score);
        i += 1;
    }
    assert(scores@.map_values(|s: i64| s as int) =~= target);
    let order: Vec<usize> = rank_candidates(&scores);
    Ok(LyricsQueue { candidates: list, order, next: 0 })
}

/// What to do with the next result in the queue.
pub enum CandidateStep {
    /// Fetch the lyrics with this key.
    Fetch(String),
    /// Stop: no lyrics are found.
    Failed(LyricsError),
}

/// The result that accepting usable lyrics `lrc` for a ranked search result gives: the decoded
/// lyrics, the result's key, its title (the request's where it has none) and its singers
/// joined with ` / `.
pub open spec fn spec_candidate_result(
    c: LyricCandidateView,
    lrc: Seq<char>,
    title: Seq<char>,
) -> LyricsResultView {
    LyricsResultView {
        lrc: spec_decode_entities(lrc),
        song_mid: text_or_empty(c.song_mid),
        matched_title: match c.song_name {
            Some(n) => n,
            None => title,
        },
        matched_artist: singer_text(c, " / "@),
    }
}

impl LyricsQueue {
    /// The next result to try: when all were tried, no lyrics are found; a result without
    /// a non-empty key stops the search.
    pub fn next_step(&self) -> (r: CandidateStep)
        requires
            self.wf(),
        ensures
            match r {
                CandidateStep::Fetch(mid) => self.next < self.order@.len() && self.ranked(
                    self.next as int,
                ).song_mid == Some(mid@) && mid@.len() > 0,
                CandidateStep::Failed(e) => if self.next >= self.order@.len() {
                    e == LyricsError::NoUsableLyrics
                } else {
                    e == LyricsError::MissingSongMid && text_or_empty(
                        self.ranked(self.next as int).song_mid,
                    ).len() == 0
                },
            },
    {
        if self.next >= self.order.len() {
            return CandidateStep::Failed(LyricsError::NoUsableLyrics);
        }
        let candidate: &LyricCandidate = &self.candidates[self.order[self.next]];
        match &candidate.song_mid {
            Some(mid) => {
                if mid.as_str().unicode_len() > 0 {
                    CandidateStep::Fetch(mid.clone())
                } else {
                    CandidateStep::Failed(LyricsError::MissingSongMid)
                }
            },
            None => CandidateStep::Failed(LyricsError::MissingSongMid),
        }
    }

    /// Takes the lyrics fetched for the next result (`None` where the answer held none):
    /// usable lyrics give the result; otherwise the queue moves on to the following result.
    pub fn accept(&mut self, title: &str, lrc: Option<String>) -> (r: Option<LyricsResult>)
        requires
            old(self).wf(),
            old(self).next < old(self).order@.len(),
        ensures
            final(self).wf(),
            final(self).candidates == old(self).candidates,
            final(self).order == old(self).order,
            match r {
                Some(found) => usable_lyrics(opt_text(lrc)) && final(self).next == old(self).next
                    && found@ == spec_candidate_result(
                    old(self).ranked(old(self).next as int),
                    lrc->0@,
                    title@,
                ),
                None => !usable_lyrics(opt_text(lrc)) && final(self).next == old(self).next + 1,
            },
    {
        let usable: bool = match &lrc {
            Some(l) => !is_blank(l.as_str()),
            None => false,
        };
        if !usable {
            self.next = self.next + 1;
            return None;
        }
        let l: String = match lrc {
            Some(l) => l,
            None => String::new(),
        };
        let candidate: &LyricCandidate = &self.candidates[self.order[self.next]];
        let song_mid: String = match &candidate.song_mid {
            Some(m) => m.clone(),
            None => String::new(),
        };
        let matched_title: String = match &candidate.song_name {
            Some(n) => n.clone(),
            None => owned(title),
        };
        Some(
            LyricsResult {
                lrc: decode_entities(l.as_str()),
                song_mid,
                matched_title,
                matched_artist: candidate_singers(candidate, " / "),
            },
        )
    }
}

/// A search result is never used when the titles are empty or unrelated, when the singers
/// do not overlap a known artist, or when both lengths are known and differ by more than
/// 15 s; a result scoring high enough to be tried has related titles and, for a known
/// artist, overlapping singers.
pub proof fn lemma_score_rejects_mismatches(
    c: LyricCandidateView,
    title: Seq<char>,
    artist: Seq<char>,
    album: Seq<char>,
    duration_ms: i64,
)
    ensures
        ({
            let wt = normalized(title);
            let ft = normalized(text_or_empty(c.song_name));
            let wa = normalized(artist);
            let fa = normalized(singer_text(c, " "@));
            let score: int = spec_candidate_score(c, title, artist, album, duration_ms);
            &&& (wt.len() == 0 || ft.len() == 0) ==> score == -1
            &&& (ft != wt && !has_substring(ft, wt) && !has_substring(wt, ft)) ==> score == -1
            &&& (wa.len() > 0 && (fa.len() == 0 || !(has_substring(fa, wa) || has_substring(
                wa,
                fa,
            )))) ==> score == -1
            &&& (match c.interval {
                Some(i) => duration_ms > 0 && i * 1000 > 0 && abs(i * 1000 - duration_ms)
                    > 15000,
                None => false,
            }) ==> score == -1
            &&& score >= MIN_SCORE ==> {
                &&& wt.len() > 0 && ft.len() > 0
                &&& ft == wt || has_substring(ft, wt) || has_substring(wt, ft)
                &&& wa.len() > 0 ==> fa.len() > 0 && (has_substring(fa, wa) || has_substring(
                    wa,
                    fa,
                ))
            }
        }),
{
}

/// The title part of the score: with no artist, album or length to compare, a result whose
/// normalized title equals the wanted one scores 220, and one whose normalized title contains
/// the wanted one or is contained in it (either way round) scores 110.
pub proof fn lemma_title_containment_either_way_scores(
    c: LyricCandidateView,
    title: Seq<char>,
    artist: Seq<char>,
    album: Seq<char>,
    duration_ms: i64,
)
    requires
        normalized(title).len() > 0,
        normalized(text_or_empty(c.song_name)).len() > 0,
        has_substring(normalized(title), normalized(text_or_empty(c.song_name))) || has_substring(
            normalized(text_or_empty(c.song_name)),
            normalized(title),
        ),
        normalized(artist).len() == 0,
        normalized(album).len() == 0,
        duration_ms <= 0,
    ensures
        spec_candidate_score(c, title, artist, album, duration_ms) == (if normalized(
            text_or_empty(c.song_name),
        ) == normalized(title) {
            220int
        } else {
            110int
        }),
{
}

/// A known artist that overlaps the result's singers (either containing the other) adds 90
/// to the score the result gets when no artist is known.
pub proof fn lemma_overlapping_artist_adds_ninety(
    c: LyricCandidateView,
    title: Seq<char>,
    artist: Seq<char>,
    no_artist: Seq<char>,
    album: Seq<char>,
    duration_ms: i64,
)
    requires
        normalized(no_artist).len() == 0,
        normalized(artist).len() > 0,
        normalized(singer_text(c, " "@)).len() > 0,
        has_substring(normalized(singer_text(c, " "@)), normalized(artist)) || has_substring(
            normalized(artist),
            normalized(singer_text(c, " "@)),
        ),
        spec_candidate_score(c, title, no_artist, album, duration_ms) >= 0,
    ensures
        spec_candidate_score(c, title, artist, album, duration_ms) == spec_candidate_score(
            c,
            title,
            no_artist,
            album,
            duration_ms,
        ) + 90,
{
}

/// A known length within 2.5 s of the result's length adds 50 to the score the result gets
/// when the length is unknown.
pub proof fn lemma_close_length_adds_fifty(
    c: LyricCandidateView,
    title: Seq<char>,
    artist: Seq<char>,
    album: Seq<char>,
    duration_ms: i64,
)
    requires
        duration_ms > 0,
        c.interval is Some,
        c.interval->0 * 1000 > 0,
        -2500 <= c.interval->0 * 1000 - duration_ms <= 2500,
        spec_candidate_score(c, title, artist, album, 0) >= 0,
    ensures
        spec_candidate_score(c, title, artist, album, duration_ms) == spec_candidate_score(
            c,
            title,
            artist,
            album,
            0,
        ) + 50,
{
}

/// A known album equal to the result's album (after `normalize`) adds 35 to the score the
/// result gets when no album is known.
pub proof fn lemma_equal_album_adds_thirty_five(
    c: LyricCandidateView,
    title: Seq<char>,
    artist: Seq<char>,
    album: Seq<char>,
    no_album: Seq<char>,
    duration_ms: i64,
)
    requires
        normalized(no_album).len() == 0,
        normalized(album).len() > 0,
        normalized(album) == normalized(text_or_empty(c.album_name)),
        spec_candidate_score(c, title, artist, no_album, duration_ms) >= 0,
    ensures
        spec_candidate_score(c, title, artist, album, duration_ms) == spec_candidate_score(
            c,
            title,
            artist,
            no_album,
            duration_ms,
        ) + 35,
{
}

/// Where both lengths are known, the score moves from the one with an unknown length by +20
/// for a difference above 2.5 s up to 6 s, by -50 for one above 6 s up to 15 s, and the result
/// is rejected beyond 15 s.
pub proof fn lemma_length_difference_bands(
    c: LyricCandidateView,
    title: Seq<char>,
    artist: Seq<char>,
    album: Seq<char>,
    duration_ms: i64,
)
    requires
        duration_ms > 0,
        c.interval is Some,
        c.interval->0 * 1000 > 0,
        spec_candidate_score(c, title, artist, album, 0) >= 0,
    ensures
        ({
            let d: int = c.interval->0 * 1000 - duration_ms;
            let known = spec_candidate_score(c, title, artist, album, duration_ms);
            let unknown = spec_candidate_score(c, title, artist, album, 0);
            &&& (2500 < d <= 6000 || -6000 <= d < -2500) ==> known == unknown + 20
            &&& (6000 < d <= 15000 || -15000 <= d < -6000) ==> known == unknown - 50
            &&& (d > 15000 || d < -15000) ==> known == -1
        }),
{
}

} // verus!
