use vstd::prelude::*;

use crate::text::{
    ascii_lowercase, chars_contain, chars_eq_ignore_ascii_case, chars_equal, decimal,
    has_substring, i64_to_decimal, is_blank, is_digit_string, is_digits, join_strings, joined,
    normalize_chars, normalized, str_chars, str_eq, string_from_chars, string_from_utf16_lossy,
    string_views, trim_chars, trimmed, utf16_lossy,
};

verus! {

/// Largest module image, in bytes, that is read whole to look for the playback clock.
pub const MAX_MODULE_BYTES: usize = 128 * 1024 * 1024;

/// Number of bytes in the instruction pattern that stores the playback clock.
pub const CLOCK_PATTERN_LEN: usize = 12;

/// The two `movsd` stores that write the playback clock; `None` stands for any byte (the
/// 32-bit displacement of the first store).
pub open spec fn spec_clock_pattern() -> Seq<Option<u8>> {
    seq![
        Some(0xf2u8),
        Some(0x0fu8),
        Some(0x11u8),
        Some(0x3du8),
        None,
        None,
        None,
        None,
        Some(0xf2u8),
        Some(0x0fu8),
        Some(0x11u8),
        Some(0x35u8),
    ]
}

/// The clock pattern, as an array.
pub fn clock_pattern() -> (r: [Option<u8>; 12])
    ensures
        r@ == spec_clock_pattern(),
{
    let r: [Option<u8>; 12] = [
        Some(0xf2),
        Some(0x0f),
        Some(0x11),
        Some(0x3d),
        None,
        None,
        None,
        None,
        Some(0xf2),
        Some(0x0f),
        Some(0x11),
        Some(0x35),
    ];
    assert(r@ =~= spec_clock_pattern());
    r
}

/// A pattern byte accepts a module byte.
pub open spec fn byte_fits(expected: Option<u8>, actual: u8) -> bool {
    match expected {
        Some(value) => value == actual,
        None => true,
    }
}

/// The clock pattern stands in `module` from offset `i` on.
pub open spec fn clock_pattern_at(module: Seq<u8>, i: int) -> bool {
    &&& 0 <= i
    &&& i + 12 <= module.len()
    &&& forall|k: int| 0 <= k < 12 ==> byte_fits(spec_clock_pattern()[k], #[trigger] module[i + k])
}

/// `i` is the first offset at which the clock pattern stands in `module`.
pub open spec fn is_first_clock_offset(module: Seq<u8>, i: int) -> bool {
    clock_pattern_at(module, i) && forall|j: int| 0 <= j < i ==> !clock_pattern_at(module, j)
}

/// The clock pattern stands somewhere in `module`.
pub open spec fn has_clock_pattern(module: Seq<u8>) -> bool {
    exists|i: int| clock_pattern_at(module, i)
}

proof fn lemma_first_clock_offset_below(module: Seq<u8>, w: int)
    requires
        clock_pattern_at(module, w),
    ensures
        exists|i: int| 0 <= i <= w && is_first_clock_offset(module, i),
    decreases w,
{
    if exists|j: int| 0 <= j < w && clock_pattern_at(module, j) {
        let j: int = choose|j: int| 0 <= j < w && clock_pattern_at(module, j);
        lemma_first_clock_offset_below(module, j);
    } else {
        assert(is_first_clock_offset(module, w));
    }
}

/// Wherever the clock pattern stands in a module, it has a first place, so the address that
/// `clock_address` gives is always the one at that place.
pub proof fn lemma_first_clock_offset_exists(module: Seq<u8>)
    requires
        has_clock_pattern(module),
    ensures
        exists|i: int| is_first_clock_offset(module, i),
{
    let w: int = choose|w: int| clock_pattern_at(module, w);
    lemma_first_clock_offset_below(module, w);
}

fn pattern_at(module: &[u8], pattern: &[Option<u8>; 12], i: usize) -> (r: bool)
    requires
        i + 12 <= module@.len(),
        pattern@ == spec_clock_pattern(),
    ensures
        r == clock_pattern_at(module@, i as int),
{
    let n: usize = module.len();
    let mut k: usize = 0;
    while k < CLOCK_PATTERN_LEN
        invariant
            n == module@.len(),
            i + 12 <= module@.len(),
            pattern@ == spec_clock_pattern(),
            k <= 12,
            forall|j: int| 0 <= j < k ==> byte_fits(spec_clock_pattern()[j], #[trigger] module@[i + j]),
        decreases 12 - k,
    {
        let fits: bool = match pattern[k] {
            Some(value) => module[i + k] == value,
            None => true,
        };
        if !fits {
            assert(!byte_fits(spec_clock_pattern()[k as int], module@[i + k]));
            return false;
        }
        k += 1;
    }
    true
}

/// Offset of the first place in a module image where the instructions that store the
/// playback clock stand, or `None` where they stand nowhere.
pub fn clock_instruction_offset(module: &[u8]) -> (r: Option<usize>)
    ensures
        match r {
            Some(i) => is_first_clock_offset(module@, i as int),
            None => !has_clock_pattern(module@),
        },
{
    let pattern: [Option<u8>; 12] = clock_pattern();
    let n: usize = module.len();
    if n < CLOCK_PATTERN_LEN {
        return None;
    }
    let mut i: usize = 0;
    while i <= n - CLOCK_PATTERN_LEN
        invariant
            n == module@.len(),
            n >= 12,
            i <= n - 11,
            pattern@ == spec_clock_pattern(),
            forall|j: int| 0 <= j < i ==> !clock_pattern_at(module@, j),
        decreases n - i,
    {
        if pattern_at(module, &pattern, i) {
            return Some(i);
        }
        i += 1;
    }
    None
}

/// The signed 32-bit little-endian number in four bytes (`i32::from_le_bytes`).
pub open spec fn le_i32(b0: u8, b1: u8, b2: u8, b3: u8) -> int {
    let raw: int = b0 + 256 * b1 + 65536 * b2 + 16777216 * b3;
    if raw >= 0x8000_0000 {
        raw - 0x1_0000_0000
    } else {
        raw
    }
}

/// The address that the clock store found at offset `i` of a module loaded at
/// `module_base` writes to: the end of the instruction (`module_base + i + 8`) plus its
/// displacement, `None` where either sum leaves the range of `usize`.
pub open spec fn resolved_clock_address(module_base: usize, module: Seq<u8>, i: int) -> Option<
    usize,
> {
    let end: int = module_base + i + 8;
    let target: int = end + le_i32(module[i + 4], module[i + 5], module[i + 6], module[i + 7]);
    if end > usize::MAX {
        None
    } else if 0 <= target <= usize::MAX {
        Some(target as usize)
    } else {
        None
    }
}

/// The four displacement bytes as a signed number.
fn read_le_i32(b0: u8, b1: u8, b2: u8, b3: u8) -> (r: i32)
    ensures
        r as int == le_i32(b0, b1, b2, b3),
{
    let raw: u32 = (b0 as u32) + 256 * (b1 as u32) + 65536 * (b2 as u32) + 16777216 * (b3 as u32);
    if raw >= 0x8000_0000 {
        let low: u32 = raw - 0x8000_0000;
        (low as i32) - 0x4000_0000 - 0x4000_0000
    } else {
        raw as i32
    }
}

/// Address of the playback clock in the NetEase player's memory, from the image of its
/// module and the address at which the module is loaded.
pub fn clock_address(module_base: usize, module: &[u8]) -> (r: Option<usize>)
    ensures
        !has_clock_pattern(module@) ==> r is None,
        forall|i: int| #[trigger]
            is_first_clock_offset(module@, i) ==> r == resolved_clock_address(
                module_base,
                module@,
                i,
            ),
{
    let instruction: usize = match clock_instruction_offset(module) {
        Some(i) => i,
        None => return None,
    };
    let n: usize = module.len();
    assert(instruction + 12 <= n);
    proof {
        assert forall|i: int| #[trigger] is_first_clock_offset(module@, i) implies i
            == instruction by {
            if i < instruction {
            } else if i > instruction {
            }
        }
    }
    let displacement: i32 = read_le_i32(
        module[instruction + 4],
        module[instruction + 5],
        module[instruction + 6],
        module[instruction + 7],
    );
    let end: usize = match module_base.checked_add(instruction + 8) {
        Some(end) => end,
        None => return None,
    };
    end.checked_add_signed(displacement as isize)
}

/// Length of a NUL-terminated UTF-16 buffer: the index of its first zero unit, or the
/// whole buffer where it holds none.
pub open spec fn spec_nul_terminated_len(units: Seq<u16>) -> int {
    if exists|i: int| 0 <= i < units.len() && units[i] == 0 {
        choose|i: int| 0 <= i < units.len() && units[i] == 0 && forall|j: int|
            0 <= j < i ==> units[j] != 0
    } else {
        units.len() as int
    }
}

/// Index of the first zero unit of a NUL-terminated UTF-16 buffer, or its length.
pub fn nul_terminated_len(units: &[u16]) -> (r: usize)
    ensures
        r <= units@.len(),
        forall|j: int| 0 <= j < r ==> units@[j] != 0,
        r < units@.len() ==> units@[r as int] == 0,
        r as int == spec_nul_terminated_len(units@),
{
    let mut i: usize = 0;
    while i < units.len()
        invariant
            i <= units@.len(),
            forall|j: int| 0 <= j < i ==> units@[j] != 0,
        decreases units@.len() - i,
    {
        if units[i] == 0 {
            proof {
                let k: int = choose|k: int| 0 <= k < units@.len() && units@[k] == 0 && forall|j: int|
                    0 <= j < k ==> units@[j] != 0;
                assert(0 <= i < units@.len() && units@[i as int] == 0 && forall|j: int|
                    0 <= j < i ==> units@[j] != 0);
                if k < i {
                } else if k > i {
                }
                assert(k == i);
            }
            return i;
        }
        i += 1;
    }
    i
}

/// The name a UTF-16 buffer holds reads, ignoring ASCII case, as `expected`.
pub open spec fn utf16_name_is(units: Seq<u16>, expected: Seq<char>) -> bool {
    ascii_lowercase(utf16_lossy(units)) == ascii_lowercase(expected)
}

/// Whether a process executable name, as the NUL-terminated UTF-16 buffer of a process
/// entry, is the NetEase Cloud Music player `cloudmusic.exe` (ASCII case ignored).
pub fn process_is_netease(exe_file: &[u16]) -> (r: bool)
    ensures
        r == utf16_name_is(
            exe_file@.take(spec_nul_terminated_len(exe_file@)),
            "cloudmusic.exe"@,
        ),
{
    let len: usize = nul_terminated_len(exe_file);
    let mut units: Vec<u16> = Vec::new();
    let mut i: usize = 0;
    while i < len
        invariant
            len <= exe_file@.len(),
            i <= len,
            units@ == exe_file@.take(i as int),
        decreases len - i,
    {
        units.push(exe_file[i]);
        assert(exe_file@.take(i + 1) == exe_file@.take(i as int).push(exe_file@[i as int]));
        i += 1;
    }
    let name: String = string_from_utf16_lossy(units.as_slice());
    let name_chars: Vec<char> = str_chars(name.as_str());
    let expected: Vec<char> = str_chars("cloudmusic.exe");
    chars_eq_ignore_ascii_case(name_chars.as_slice(), expected.as_slice())
}

/// Whether the first `name_len` units of a module name buffer name the player's main
/// library `cloudmusic.dll` (ASCII case ignored); an empty name never does.
pub fn module_is_netease(name: &[u16], name_len: usize) -> (r: bool)
    requires
        name_len <= name@.len(),
    ensures
        r == (name_len > 0 && utf16_name_is(name@.take(name_len as int), "cloudmusic.dll"@)),
{
    if name_len == 0 {
        return false;
    }
    let mut units: Vec<u16> = Vec::new();
    let mut i: usize = 0;
    while i < name_len
        invariant
            name_len <= name@.len(),
            i <= name_len,
            units@ == name@.take(i as int),
        decreases name_len - i,
    {
        units.push(name[i]);
        assert(name@.take(i + 1) == name@.take(i as int).push(name@[i as int]));
        i += 1;
    }
    let text: String = string_from_utf16_lossy(units.as_slice());
    let text_chars: Vec<char> = str_chars(text.as_str());
    let expected: Vec<char> = str_chars("cloudmusic.dll");
    chars_eq_ignore_ascii_case(text_chars.as_slice(), expected.as_slice())
}

/// Whether a module of `size` bytes is read whole and searched for the clock: it must be
/// non-empty and at most `MAX_MODULE_BYTES` long.
pub fn module_size_is_scannable(size: usize) -> (r: bool)
    ensures
        r == (0 < size && size <= MAX_MODULE_BYTES),
{
    size != 0 && size <= MAX_MODULE_BYTES
}

/// The `id` member of a history entry, as the player writes it.
pub enum JsonId {
    /// An integer that fits in `i64`.
    Number(i64),
    /// A string.
    Text(String),
    /// Missing, or of another kind.
    Absent,
}

pub enum JsonIdView {
    Number(i64),
    Text(Seq<char>),
    Absent,
}

impl View for JsonId {
    type V = JsonIdView;

    open spec fn view(&self) -> JsonIdView {
        match self {
            JsonId::Number(n) => JsonIdView::Number(*n),
            JsonId::Text(s) => JsonIdView::Text(s@),
            JsonId::Absent => JsonIdView::Absent,
        }
    }
}

/// The members of a history entry (the JSON text the player stores for each played track)
/// that a track is built from. A member that is missing or of another kind is `None`.
pub struct HistoryTrackFields {
    pub id: JsonId,
    /// `name`, where it is a string.
    pub name: Option<String>,
    /// `artists`, where it is an array: the `name` of each element, where that is a string.
    pub artists: Option<Vec<Option<String>>>,
    /// `album.name`, where it is a string.
    pub album_name: Option<String>,
    /// `duration`, where it is an integer that fits in `i64`.
    pub duration: Option<i64>,
}

pub struct HistoryTrackFieldsView {
    pub id: JsonIdView,
    pub name: Option<Seq<char>>,
    pub artists: Option<Seq<Option<Seq<char>>>>,
    pub album_name: Option<Seq<char>>,
    pub duration: Option<i64>,
}

pub open spec fn opt_string_view(s: Option<String>) -> Option<Seq<char>> {
    match s {
        Some(t) => Some(t@),
        None => None,
    }
}

pub open spec fn artist_list_view(a: Seq<Option<String>>) -> Seq<Option<Seq<char>>> {
    a.map_values(|x: Option<String>| opt_string_view(x))
}

impl View for HistoryTrackFields {
    type V = HistoryTrackFieldsView;

    open spec fn view(&self) -> HistoryTrackFieldsView {
        HistoryTrackFieldsView {
            id: self.id@,
            name: opt_string_view(self.name),
            artists: match self.artists {
                Some(a) => Some(artist_list_view(a@)),
                None => None,
            },
            album_name: opt_string_view(self.album_name),
            duration: self.duration,
        }
    }
}

/// Name for the members that `serde_json::from_str` finds in a history entry's JSON text;
/// `None` where the text is not JSON.
pub uninterp spec fn history_fields(json: Seq<char>) -> Option<HistoryTrackFieldsView>;

pub open spec fn opt_fields_view(f: Option<HistoryTrackFields>) -> Option<HistoryTrackFieldsView> {
    match f {
        Some(x) => Some(x@),
        None => None,
    }
}

/// `serde_json::from_str` into a `serde_json::Value`, then its members: the result is named.
#[verifier::external_body]
fn read_history_fields(json: &str) -> (r: Option<HistoryTrackFields>)
    ensures
        opt_fields_view(r) == history_fields(json@),
{
    let track: serde_json::Value = serde_json::from_str(json).ok()?;
    let text = |v: &serde_json::Value| v.as_str().map(String::from);
    let id = &track["id"];
    Some(HistoryTrackFields {
        id: match (id.as_i64(), id.as_str()) {
            (Some(n), _) => JsonId::Number(n),
            (None, Some(s)) => JsonId::Text(String::from(s)),
            (None, None) => JsonId::Absent,
        },
        name: text(&track["name"]),
        artists: track["artists"].as_array().map(|a| a.iter().map(|x| text(&x["name"])).collect()),
        album_name: text(&track["album"]["name"]),
        duration: track["duration"].as_i64(),
    })
}

/// A track as the player's play history records it.
pub struct TrackMetadata {
    pub track_id: String,
    pub title: String,
    pub artist: String,
    pub album: String,
    pub duration_ms: i64,
}

pub struct TrackMetadataView {
    pub track_id: Seq<char>,
    pub title: Seq<char>,
    pub artist: Seq<char>,
    pub album: Seq<char>,
    pub duration_ms: i64,
}

impl View for TrackMetadata {
    type V = TrackMetadataView;

    open spec fn view(&self) -> TrackMetadataView {
        TrackMetadataView {
            track_id: self.track_id@,
            title: self.title@,
            artist: self.artist@,
            album: self.album@,
            duration_ms: self.duration_ms,
        }
    }
}

/// The artist names that are kept: those present and not blank, in order.
pub open spec fn kept_artist_names(a: Seq<Option<Seq<char>>>) -> Seq<Seq<char>>
    decreases a.len(),
{
    if a.len() == 0 {
        seq![]
    } else {
        let rest = kept_artist_names(a.drop_last());
        match a.last() {
            Some(n) => if trimmed(n).len() > 0 {
                rest.push(n)
            } else {
                rest
            },
            None => rest,
        }
    }
}

/// The track id as text: an integer in decimal, a string as it is, nothing as empty.
pub open spec fn id_text(id: JsonIdView) -> Seq<char> {
    match id {
        JsonIdView::Number(n) => decimal(n as int),
        JsonIdView::Text(s) => s,
        JsonIdView::Absent => seq![],
    }
}

/// The track that a history entry's members describe: the name trimmed as title, the kept
/// artist names joined with `/`; no track where the name or the artist list is missing, or
/// the title or the artist comes out empty. A missing album is empty; a missing or negative
/// duration is zero.
pub open spec fn spec_track_from_fields(f: HistoryTrackFieldsView) -> Option<TrackMetadataView> {
    match (f.name, f.artists) {
        (Some(name), Some(artists)) => {
            let title = trimmed(name);
            let artist = joined(kept_artist_names(artists), "/"@);
            if title.len() == 0 || artist.len() == 0 {
                None
            } else {
                Some(
                    TrackMetadataView {
                        track_id: id_text(f.id),
                        title: title,
                        artist: artist,
                        album: match f.album_name {
                            Some(a) => a,
                            None => seq![],
                        },
                        duration_ms: match f.duration {
                            Some(d) => if d > 0 {
                                d
                            } else {
                                0
                            },
                            None => 0,
                        },
                    },
                )
            }
        },
        _ => None,
    }
}

fn copy_string(s: &String) -> (r: String)
    ensures
        r@ == s@,
{
    s.clone()
}

fn optional_text(s: &Option<String>) -> (r: String)
    ensures
        r@ == match opt_string_view(*s) {
            Some(t) => t,
            None => seq![],
        },
{
    match s {
        Some(t) => copy_string(t),
        None => String::new(),
    }
}

/// Builds a track from the members of a history entry.
pub fn track_from_fields(fields: &HistoryTrackFields) -> (r: Option<TrackMetadata>)
    ensures
        match r {
            Some(t) => spec_track_from_fields(fields@) == Some(t@),
            None => spec_track_from_fields(fields@) is None,
        },
{
    let name: &String = match &fields.name {
        Some(n) => n,
        None => return None,
    };
    let artists: &Vec<Option<String>> = match &fields.artists {
        Some(a) => a,
        None => return None,
    };
    let name_chars: Vec<char> = str_chars(name.as_str());
    let title_chars: Vec<char> = trim_chars(name_chars.as_slice());
    let ghost av: Seq<Option<Seq<char>>> = artist_list_view(artists@);
    let mut kept: Vec<String> = Vec::new();
    let mut i: usize = 0;
    while i < artists.len()
        invariant
            i <= artists@.len(),
            av == artist_list_view(artists@),
            string_views(kept@) == kept_artist_names(av.take(i as int)),
        decreases artists@.len() - i,
    {
        assert(av.take(i + 1).drop_last() =~= av.take(i as int));
        match &artists[i] {
            Some(n) => {
                if !is_blank(n.as_str()) {
                    let ghost before = kept@;
                    kept.push(copy_string(n));
                    assert(string_views(kept@) =~= string_views(before).push(n@));
                }
            },
            None => {},
        }
        i += 1;
    }
    assert(av.take(artists@.len() as int) =~= av);
    let artist: String = join_strings(&kept, "/");
    if title_chars.len() == 0 || artist.as_str().unicode_len() == 0 {
        return None;
    }
    let track_id: String = match &fields.id {
        JsonId::Number(n) => i64_to_decimal(*n),
        JsonId::Text(s) => copy_string(s),
        JsonId::Absent => String::new(),
    };
    let duration_ms: i64 = match fields.duration {
        Some(d) => if d > 0 {
            d
        } else {
            0
        },
        None => 0,
    };
    Some(
        TrackMetadata {
            track_id,
            title: string_from_chars(title_chars.as_slice()),
            artist,
            album: optional_text(&fields.album_name),
            duration_ms,
        },
    )
}

/// The track that a play-history row describes: only rows of kind `track` (not voice
/// programs or other audio) whose JSON text describes a track with a title and an artist.
pub fn parse_history_track(kind: &str, json: &str) -> (r: Option<TrackMetadata>)
    ensures
        kind@ != "track"@ ==> r is None,
        kind@ == "track"@ ==> match r {
            Some(t) => match history_fields(json@) {
                Some(f) => spec_track_from_fields(f) == Some(t@),
                None => false,
            },
            None => match history_fields(json@) {
                Some(f) => spec_track_from_fields(f) is None,
                None => true,
            },
        },
{
    if !str_eq(kind, "track") {
        return None;
    }
    let fields: HistoryTrackFields = match read_history_fields(json) {
        Some(f) => f,
        None => return None,
    };
    track_from_fields(&fields)
}

/// Titles or artists agree once normalized: the wanted artist is empty, or one of the two
/// contains the other.
pub open spec fn names_overlap(wanted: Seq<char>, found: Seq<char>) -> bool {
    wanted.len() == 0 || has_substring(found, wanted) || has_substring(wanted, found)
}

/// The NetEase id of the track being played: given by the latest history track where its
/// title and artist match the ones the media session reports (after `normalize`) and its id
/// is a non-empty string of ASCII digits.
pub open spec fn spec_current_track_id(
    title: Seq<char>,
    artist: Seq<char>,
    current: Option<TrackMetadataView>,
) -> Option<Seq<char>> {
    match current {
        None => None,
        Some(t) => if normalized(t.title) == normalized(title) && names_overlap(
            normalized(artist),
            normalized(t.artist),
        ) && is_digit_string(t.track_id) {
            Some(t.track_id)
        } else {
            None
        },
    }
}

/// The NetEase track id for the song a media session reports, given the player's latest
/// history track (`None` where there is none).
pub fn current_track_id(title: &str, artist: &str, current: Option<TrackMetadata>) -> (r: Option<
    String,
>)
    ensures
        match r {
            Some(id) => spec_current_track_id(
                title@,
                artist@,
                match current {
                    Some(t) => Some(t@),
                    None => None,
                },
            ) == Some(id@),
            None => spec_current_track_id(
                title@,
                artist@,
                match current {
                    Some(t) => Some(t@),
                    None => None,
                },
            ) is None,
        },
{
    let track: TrackMetadata = match current {
        Some(t) => t,
        None => return None,
    };
    let wanted_artist: Vec<char> = normalize_chars(str_chars(artist).as_slice());
    let found_artist: Vec<char> = normalize_chars(str_chars(track.artist.as_str()).as_slice());
    let wanted_title: Vec<char> = normalize_chars(str_chars(title).as_slice());
    let found_title: Vec<char> = normalize_chars(str_chars(track.title.as_str()).as_slice());
    let matches: bool = chars_equal(found_title.as_slice(), wanted_title.as_slice()) && (
    wanted_artist.len() == 0 || chars_contain(found_artist.as_slice(), wanted_artist.as_slice())
        || chars_contain(wanted_artist.as_slice(), found_artist.as_slice()));
    if matches && is_digits(track.track_id.as_str()) {
        Some(track.track_id)
    } else {
        None
    }
}

/// A track id is given only for a history track whose normalized title equals the session's
/// normalized title and whose artist overlaps a known session artist; it is then that track's
/// id, made of ASCII digits. A history track with the same normalized title, a digit id and
/// no session artist to compare always gives its id.
pub proof fn lemma_track_id_needs_equal_titles(
    title: Seq<char>,
    artist: Seq<char>,
    current: Option<TrackMetadataView>,
)
    ensures
        spec_current_track_id(title, artist, current) is Some ==> {
            &&& current is Some
            &&& normalized(current->0.title) == normalized(title)
            &&& (normalized(artist).len() == 0 || has_substring(
                normalized(current->0.artist),
                normalized(artist),
            ) || has_substring(normalized(artist), normalized(current->0.artist)))
            &&& spec_current_track_id(title, artist, current) == Some(current->0.track_id)
            &&& current->0.track_id.len() > 0
            &&& forall|i: int|
                0 <= i < current->0.track_id.len() ==> 48 <= (#[trigger] current->0.track_id[i]
                    as u32) <= 57
        },
        (current is Some && normalized(current->0.title) == normalized(title) && normalized(
            artist,
        ).len() == 0 && current->0.track_id.len() > 0 && forall|i: int|
            0 <= i < current->0.track_id.len() ==> 48 <= (#[trigger] current->0.track_id[i]
                as u32) <= 57) ==> spec_current_track_id(title, artist, current) == Some(
            current->0.track_id,
        ),
{
}

/// The last reading of the player's clock, with the track it was taken for.
pub struct PlaybackSample {
    pub title: String,
    pub artist: String,
    pub position_ms: i64,
}

pub struct PlaybackSampleView {
    pub title: Seq<char>,
    pub artist: Seq<char>,
    pub position_ms: i64,
}

impl View for PlaybackSample {
    type V = PlaybackSampleView;

    open spec fn view(&self) -> PlaybackSampleView {
        PlaybackSampleView { title: self.title@, artist: self.artist@, position_ms: self.position_ms }
    }
}

pub open spec fn opt_sample_view(s: Option<PlaybackSample>) -> Option<PlaybackSampleView> {
    match s {
        Some(x) => Some(x@),
        None => None,
    }
}

/// Playback is taken to be advancing unless the previous reading was of the same track at
/// the same position (the player's clock stands still while it is paused).
pub open spec fn spec_playback_is_advancing(
    previous: Option<PlaybackSampleView>,
    title: Seq<char>,
    artist: Seq<char>,
    position_ms: i64,
) -> bool {
    match previous {
        None => true,
        Some(s) => s.title != title || s.artist != artist || s.position_ms != position_ms,
    }
}

/// Whether a new clock reading shows playback advancing since the previous reading.
pub fn playback_is_advancing(
    previous: Option<&PlaybackSample>,
    title: &str,
    artist: &str,
    position_ms: i64,
) -> (r: bool)
    ensures
        r == spec_playback_is_advancing(
            match previous {
                Some(s) => Some(s@),
                None => None,
            },
            title@,
            artist@,
            position_ms,
        ),
{
    match previous {
        None => true,
        Some(sample) => !str_eq(sample.title.as_str(), title) || !str_eq(
            sample.artist.as_str(),
            artist,
        ) || sample.position_ms != position_ms,
    }
}

/// What the player is playing, as read from its history and its clock.
pub struct TrackSnapshot {
    pub track_id: String,
    pub title: String,
    pub artist: String,
    pub album: String,
    pub position_ms: i64,
    pub duration_ms: i64,
    pub is_playing: bool,
}

pub struct TrackSnapshotView {
    pub track_id: Seq<char>,
    pub title: Seq<char>,
    pub artist: Seq<char>,
    pub album: Seq<char>,
    pub position_ms: i64,
    pub duration_ms: i64,
    pub is_playing: bool,
}

impl View for TrackSnapshot {
    type V = TrackSnapshotView;

    open spec fn view(&self) -> TrackSnapshotView {
        TrackSnapshotView {
            track_id: self.track_id@,
            title: self.title@,
            artist: self.artist@,
            album: self.album@,
            position_ms: self.position_ms,
            duration_ms: self.duration_ms,
            is_playing: self.is_playing,
        }
    }
}

/// The sample that a reading of `metadata` at `position_ms` leaves behind.
pub open spec fn sample_of(metadata: TrackMetadataView, position_ms: i64) -> PlaybackSampleView {
    PlaybackSampleView { title: metadata.title, artist: metadata.artist, position_ms }
}

/// The snapshot for a reading of `metadata` at `position_ms` after the sample `previous`.
pub open spec fn spec_track_snapshot(
    metadata: TrackMetadataView,
    position_ms: i64,
    previous: Option<PlaybackSampleView>,
) -> TrackSnapshotView {
    TrackSnapshotView {
        track_id: metadata.track_id,
        title: metadata.title,
        artist: metadata.artist,
        album: metadata.album,
        position_ms,
        duration_ms: metadata.duration_ms,
        is_playing: spec_playback_is_advancing(
            previous,
            metadata.title,
            metadata.artist,
            position_ms,
        ),
    }
}

/// The snapshot of the player's current track, from its latest history track and a clock
/// reading; the reading replaces `previous`, against which the next one is compared.
pub fn current_track(
    metadata: TrackMetadata,
    position_ms: i64,
    previous: &mut Option<PlaybackSample>,
) -> (r: TrackSnapshot)
    ensures
        r@ == spec_track_snapshot(metadata@, position_ms, opt_sample_view(*old(previous))),
        opt_sample_view(*final(previous)) == Some(sample_of(metadata@, position_ms)),
{
    let is_playing: bool = playback_is_advancing(
        previous.as_ref(),
        metadata.title.as_str(),
        metadata.artist.as_str(),
        position_ms,
    );
    *previous = Some(
        PlaybackSample {
            title: copy_string(&metadata.title),
            artist: copy_string(&metadata.artist),
            position_ms,
        },
    );
    TrackSnapshot {
        track_id: metadata.track_id,
        title: metadata.title,
        artist: metadata.artist,
        album: metadata.album,
        position_ms,
        duration_ms: metadata.duration_ms,
        is_playing,
    }
}

/// A second reading of the same track at the same position finds playback paused; a
/// reading at another position, or of another track, finds it advancing.
pub proof fn lemma_unchanged_clock_means_paused(
    metadata: TrackMetadataView,
    position_ms: i64,
    next: TrackMetadataView,
    next_position_ms: i64,
)
    ensures
        !spec_track_snapshot(metadata, position_ms, Some(sample_of(metadata, position_ms))).is_playing,
        (next.title != metadata.title || next.artist != metadata.artist || next_position_ms
            != position_ms) ==> spec_track_snapshot(
            next,
            next_position_ms,
            Some(sample_of(metadata, position_ms)),
        ).is_playing,
{
}

/// Where the player keeps its playback clock.
#[derive(Clone, Copy, PartialEq, Eq, Structural)]
pub struct NeteaseClock {
    pub process_id: u32,
    pub address: usize,
}

/// What came of the last thing done while finding the playback position.
pub enum ClockEvent {
    /// Nothing yet.
    Start,
    /// The remembered clock was read (`None`: the read failed or gave no valid position).
    CachedRead(Option<i64>),
    /// The player's memory was searched for the clock.
    Scanned(Option<NeteaseClock>),
    /// The clock just found was read.
    FreshRead(Option<i64>),
}

/// What to do next while finding the playback position.
#[derive(PartialEq, Eq, Structural)]
pub enum ClockAction {
    /// Read the remembered clock and report `CachedRead`.
    ReadCached(NeteaseClock),
    /// Search the player's memory for the clock and report `Scanned`.
    Scan,
    /// Read the clock just found and report `FreshRead`.
    ReadFound(NeteaseClock),
    /// The position in milliseconds, or `None` where it cannot be read.
    Finish(Option<i64>),
}

/// One step of finding the playback position: a remembered clock is read first; where
/// there is none or it cannot be read, the player's memory is searched again, the result
/// remembered and read.
pub fn current_position_ms(cache: &mut Option<NeteaseClock>, event: ClockEvent) -> (r: ClockAction)
    ensures
        match event {
            ClockEvent::Start => *final(cache) == *old(cache) && r == match *old(cache) {
                Some(clock) => ClockAction::ReadCached(clock),
                None => ClockAction::Scan,
            },
            ClockEvent::CachedRead(reading) => *final(cache) == *old(cache) && r == match reading {
                Some(position) => ClockAction::Finish(Some(position)),
                None => ClockAction::Scan,
            },
            ClockEvent::Scanned(found) => *final(cache) == found && r == match found {
                Some(clock) => ClockAction::ReadFound(clock),
                None => ClockAction::Finish(None),
            },
            ClockEvent::FreshRead(reading) => *final(cache) == *old(cache) && r
                == ClockAction::Finish(reading),
        },
{
    match event {
        ClockEvent::Start => match *cache {
            Some(clock) => ClockAction::ReadCached(clock),
            None => ClockAction::Scan,
        },
        ClockEvent::CachedRead(reading) => match reading {
            Some(position) => ClockAction::Finish(Some(position)),
            None => ClockAction::Scan,
        },
        ClockEvent::Scanned(found) => {
            *cache = found;
            match found {
                Some(clock) => ClockAction::ReadFound(clock),
                None => ClockAction::Finish(None),
            }
        },
        ClockEvent::FreshRead(reading) => ClockAction::Finish(reading),
    }
}

} // verus!
