//! Songs: lyrics parsing, the request types of the music endpoints and the
//! plans of their list queries.

use vstd::prelude::*;
use vstd::string::*;
use crate::entities::{ScrobbleRow, SongRow};
use crate::error::{AppError, ErrorKind};
use crate::handlers::paging::{
    artist_and_year_range, artist_and_years, artist_only, clamp, page_limit, page_offset,
    ListFilter,
};
use crate::text::{
    chars_of, find_char, index_of, lemma_index_of_at, line_bounds, lines_of, parse_i64, parse_i64_in, str_equals,
    trim, trim_bounds,
};

verus! {

// ---------------------------------------------------------------------------
// Lyrics
// ---------------------------------------------------------------------------

/// One line of lyrics, with its start time when the lyrics are synced.
#[derive(Debug)]
pub struct LyricLine {
    pub start_ms: Option<i64>,
    pub text: String,
}

impl View for LyricLine {
    type V = (Option<i64>, Seq<char>);

    open spec fn view(&self) -> Self::V {
        (self.start_ms, self.text@)
    }
}

/// The model of a list of lyric lines.
pub open spec fn lines_view(v: Seq<LyricLine>) -> Seq<(Option<i64>, Seq<char>)> {
    v.map_values(|l: LyricLine| l@)
}

/// The milliseconds of an LRC timestamp `mm:ss.xx` or `mm:ss`: minutes,
/// seconds and hundredths each parsed as `i64`, combined with wrapping
/// arithmetic.
pub open spec fn lrc_timestamp(ts: Seq<char>) -> Option<i64> {
    match index_of(ts, ':') {
        None => None,
        Some(i) => {
            let sec = ts.skip(i + 1);
            match parse_i64(ts.take(i)) {
                None => None,
                Some(m) => match index_of(sec, '.') {
                    Some(j) => match (parse_i64(sec.take(j)), parse_i64(sec.skip(j + 1))) {
                        (Some(s), Some(c)) => Some(
                            m.wrapping_mul(60000).wrapping_add(s.wrapping_mul(1000)).wrapping_add(
                                c.wrapping_mul(10),
                            ),
                        ),
                        _ => None,
                    },
                    None => match parse_i64(sec) {
                        Some(s) => Some(m.wrapping_mul(60000).wrapping_add(s.wrapping_mul(1000))),
                        None => None,
                    },
                },
            }
        },
    }
}

/// What one raw LRC line contributes: nothing when it is blank; a timed line
/// when, once trimmed, it opens with `[`, holds a `]` and the text between is
/// a timestamp; otherwise an untimed line with the trimmed text.
pub open spec fn lrc_entry(raw: Seq<char>) -> Option<(Option<i64>, Seq<char>)> {
    let line = trim(raw);
    if line.len() == 0 {
        None
    } else if line[0] == '[' {
        let rest = line.drop_first();
        match index_of(rest, ']') {
            Some(k) => match lrc_timestamp(rest.take(k)) {
                Some(ms) => Some((Some(ms), trim(rest.skip(k + 1)))),
                None => Some((None, line)),
            },
            None => Some((None, line)),
        }
    } else {
        Some((None, line))
    }
}

/// The timed lines of LRC lyrics given as raw lines.
pub open spec fn lrc_entries(ls: Seq<Seq<char>>) -> Seq<(Option<i64>, Seq<char>)>
    decreases ls.len(),
{
    if ls.len() == 0 {
        Seq::empty()
    } else {
        lrc_entries(ls.drop_last()) + match lrc_entry(ls.last()) {
            Some(e) => seq![e],
            None => Seq::empty(),
        }
    }
}

/// The lines that are not blank, in order.
pub open spec fn non_blank_lines(ls: Seq<Seq<char>>) -> Seq<Seq<char>> {
    ls.filter(|l: Seq<char>| trim(l).len() > 0)
}

/// How one line of LRC lyrics reads: a blank line gives nothing; a line
/// `[t]r` whose tag `t` is a timestamp of `ms` milliseconds gives the timed
/// text `r`, trimmed, whatever it is (an empty text clears the display); any
/// other line gives its trimmed text without a time.
pub proof fn lemma_lrc_line(raw: Seq<char>, t: Seq<char>, r: Seq<char>, ms: i64)
    ensures
        trim(raw).len() == 0 ==> lrc_entry(raw) is None,
        trim(raw) == seq!['['] + t + seq![']'] + r && !t.contains(']') && lrc_timestamp(t) == Some(
            ms,
        ) ==> lrc_entry(raw) == Some((Some(ms), trim(r))),
        trim(raw).len() > 0 && trim(raw)[0] != '[' ==> lrc_entry(raw) == Some(
            (None::<i64>, trim(raw)),
        ),
{
    let line = trim(raw);
    if line == seq!['['] + t + seq![']'] + r && !t.contains(']') && lrc_timestamp(t) == Some(ms) {
        let rest = line.drop_first();
        assert(rest =~= t + seq![']'] + r);
        assert forall|j: int| 0 <= j < t.len() implies rest[j] != ']' by {
            assert(rest[j] == t[j]);
            if t[j] == ']' {
                assert(t.contains(']'));
            }
        }
        assert(rest[t.len() as int] == ']');
        lemma_index_of_at(rest, ']', t.len() as int);
        assert(rest.take(t.len() as int) =~= t);
        assert(rest.skip(t.len() as int + 1) =~= r);
    }
}

/// LRC lyrics give exactly one timed line per non-blank line, in order: the
/// reading of that line.
pub proof fn lemma_lrc_one_entry_per_line(ls: Seq<Seq<char>>)
    ensures
        lrc_entries(ls).len() == non_blank_lines(ls).len(),
        forall|i: int|
            0 <= i < lrc_entries(ls).len() ==> Some(#[trigger] lrc_entries(ls)[i]) == lrc_entry(
                non_blank_lines(ls)[i],
            ),
    decreases ls.len(),
{
    reveal(Seq::filter);
    if ls.len() > 0 {
        let pre = ls.drop_last();
        lemma_lrc_one_entry_per_line(pre);
        let last = ls.last();
        assert(non_blank_lines(ls) == if trim(last).len() > 0 {
            non_blank_lines(pre).push(last)
        } else {
            non_blank_lines(pre)
        });
        let added = match lrc_entry(last) {
            Some(e) => seq![e],
            None => Seq::<(Option<i64>, Seq<char>)>::empty(),
        };
        assert(lrc_entries(ls) == lrc_entries(pre) + added);
        assert(lrc_entry(last) is Some <==> trim(last).len() > 0);
        assert forall|i: int|
            0 <= i < lrc_entries(ls).len() implies Some(#[trigger] lrc_entries(ls)[i]) == lrc_entry(
            non_blank_lines(ls)[i],
        ) by {
            if i < lrc_entries(pre).len() {
                assert(lrc_entries(ls)[i] == lrc_entries(pre)[i]);
                assert(non_blank_lines(ls)[i] == non_blank_lines(pre)[i]);
            } else {
                assert(lrc_entries(ls)[i] == added[0]);
                assert(non_blank_lines(ls)[i] == last);
            }
        }
    }
}

/// The lines of unsynced lyrics given as raw lines: each trimmed, blank ones
/// dropped.
pub open spec fn unsynced_entries(ls: Seq<Seq<char>>) -> Seq<(Option<i64>, Seq<char>)>
    decreases ls.len(),
{
    if ls.len() == 0 {
        Seq::empty()
    } else {
        unsynced_entries(ls.drop_last()) + if trim(ls.last()).len() == 0 {
            Seq::empty()
        } else {
            seq![(None::<i64>, trim(ls.last()))]
        }
    }
}

/// The LRC timestamp held in `v[from..to]`.
fn timestamp_in(v: &Vec<char>, from: usize, to: usize) -> (r: Option<i64>)
    requires
        from <= to <= v@.len(),
    ensures
        r == lrc_timestamp(v@.subrange(from as int, to as int)),
{
    let ghost ts = v@.subrange(from as int, to as int);
    let colon = match find_char(v, ':', from, to) {
        Some(i) => i,
        None => return None,
    };
    assert(ts.take(colon - from) =~= v@.subrange(from as int, colon as int));
    assert(ts.skip(colon - from + 1) =~= v@.subrange(colon + 1, to as int));
    let minutes = match parse_i64_in(v, from, colon) {
        Some(m) => m,
        None => return None,
    };
    let ghost sec = v@.subrange(colon + 1, to as int);
    match find_char(v, '.', colon + 1, to) {
        Some(j) => {
            assert(sec.take(j - (colon + 1)) =~= v@.subrange(colon + 1, j as int));
            assert(sec.skip(j - (colon + 1) + 1) =~= v@.subrange(j + 1, to as int));
            let seconds = match parse_i64_in(v, colon + 1, j) {
                Some(s) => s,
                None => return None,
            };
            let centis = match parse_i64_in(v, j + 1, to) {
                Some(c) => c,
                None => return None,
            };
            Some(
                minutes.wrapping_mul(60000).wrapping_add(seconds.wrapping_mul(1000)).wrapping_add(
                    centis.wrapping_mul(10),
                ),
            )
        },
        None => {
            let seconds = match parse_i64_in(v, colon + 1, to) {
                Some(s) => s,
                None => return None,
            };
            Some(minutes.wrapping_mul(60000).wrapping_add(seconds.wrapping_mul(1000)))
        },
    }
}

/// Parses a single LRC timestamp `mm:ss.xx` or `mm:ss` into milliseconds.
pub fn parse_lrc_timestamp(ts: &str) -> (r: Option<i64>)
    ensures
        r == lrc_timestamp(ts@),
{
    let v = chars_of(ts);
    assert(v@.subrange(0, v@.len() as int) =~= v@);
    timestamp_in(&v, 0, v.len())
}

/// Parses LRC-formatted lyrics into a list of timed lines.
pub fn parse_lrc(content: &str) -> (lines: Vec<LyricLine>)
    ensures
        lines_view(lines@) == lrc_entries(lines_of(content@)),
{
    let v = chars_of(content);
    let bounds = line_bounds(&v);
    let ghost ls = lines_of(v@);
    let mut out: Vec<LyricLine> = Vec::new();
    let mut k: usize = 0;
    while k < bounds.len()
        invariant
            v@ == content@,
            ls == lines_of(v@),
            bounds@.len() == ls.len(),
            forall|i: int|
                0 <= i < bounds@.len() ==> (#[trigger] bounds@[i]).0 <= bounds@[i].1 <= v@.len()
                    && v@.subrange(bounds@[i].0 as int, bounds@[i].1 as int) == ls[i],
            k <= bounds@.len(),
            lines_view(out@) == lrc_entries(ls.take(k as int)),
        decreases bounds@.len() - k,
    {
        let (a, b) = bounds[k];
        let ghost raw = ls[k as int];
        assert(ls.take(k as int + 1).drop_last() =~= ls.take(k as int));
        assert(ls.take(k as int + 1).last() == raw);
        let (a2, b2) = trim_bounds(&v, a, b);
        let ghost line = v@.subrange(a2 as int, b2 as int);
        assert(line == trim(raw));
        let ghost before = out@;
        if a2 == b2 {
            assert(lrc_entry(raw) is None);
            k += 1;
            continue;
        }
        let mut timed = false;
        if v[a2] == '[' {
            let ghost rest = v@.subrange(a2 + 1, b2 as int);
            assert(line.drop_first() =~= rest);
            match find_char(&v, ']', a2 + 1, b2) {
                Some(c) => {
                    assert(rest.take(c - (a2 + 1)) =~= v@.subrange(a2 + 1, c as int));
                    assert(rest.skip(c - (a2 + 1) + 1) =~= v@.subrange(c + 1, b2 as int));
                    match timestamp_in(&v, a2 + 1, c) {
                        Some(ms) => {
                            let (t1, t2) = trim_bounds(&v, c + 1, b2);
                            let text = content.substring_char(t1, t2).to_owned();
                            out.push(LyricLine { start_ms: Some(ms), text });
                            assert(lrc_entry(raw) == Some((Some(ms), text@)));
                            timed = true;
                        },
                        None => {},
                    }
                },
                None => {},
            }
        }
        if !timed {
            let text = content.substring_char(a2, b2).to_owned();
            assert(lrc_entry(raw) == Some((None::<i64>, text@)));
            out.push(LyricLine { start_ms: None, text });
        }
        assert(lines_view(out@) =~= lines_view(before) + seq![lrc_entry(raw).unwrap()]);
        k += 1;
    }
    assert(ls.take(bounds@.len() as int) =~= ls);
    out
}

/// Converts plain unsynced lyrics into the line format: each line trimmed,
/// blank lines dropped.
pub fn parse_unsynced(content: &str) -> (lines: Vec<LyricLine>)
    ensures
        lines_view(lines@) == unsynced_entries(lines_of(content@)),
{
    let v = chars_of(content);
    let bounds = line_bounds(&v);
    let ghost ls = lines_of(v@);
    let mut out: Vec<LyricLine> = Vec::new();
    let mut k: usize = 0;
    while k < bounds.len()
        invariant
            v@ == content@,
            ls == lines_of(v@),
            bounds@.len() == ls.len(),
            forall|i: int|
                0 <= i < bounds@.len() ==> (#[trigger] bounds@[i]).0 <= bounds@[i].1 <= v@.len()
                    && v@.subrange(bounds@[i].0 as int, bounds@[i].1 as int) == ls[i],
            k <= bounds@.len(),
            lines_view(out@) == unsynced_entries(ls.take(k as int)),
        decreases bounds@.len() - k,
    {
        let (a, b) = bounds[k];
        let ghost raw = ls[k as int];
        assert(ls.take(k as int + 1).drop_last() =~= ls.take(k as int));
        assert(ls.take(k as int + 1).last() == raw);
        let (a2, b2) = trim_bounds(&v, a, b);
        let ghost before = out@;
        if a2 < b2 {
            let text = content.substring_char(a2, b2).to_owned();
            out.push(LyricLine { start_ms: None, text });
            assert(lines_view(out@) =~= lines_view(before) + seq![(None::<i64>, trim(raw))]);
        } else {
            assert(lines_view(out@) =~= lines_view(before));
        }
        k += 1;
    }
    assert(ls.take(bounds@.len() as int) =~= ls);
    out
}

/// The lines served for stored lyrics: LRC parsing for `"synced"` lyrics,
/// plain lines otherwise.
pub fn lyrics_lines(kind: &str, content: &str) -> (lines: Vec<LyricLine>)
    ensures
        lines_view(lines@) == (if kind@ == "synced"@ {
            lrc_entries(lines_of(content@))
        } else {
            unsynced_entries(lines_of(content@))
        }),
{
    if str_equals(kind, "synced") {
        parse_lrc(content)
    } else {
        parse_unsynced(content)
    }
}

// ---------------------------------------------------------------------------
// Request types
// ---------------------------------------------------------------------------

/// A song id.
#[derive(Debug)]
pub struct IdRequest {
    pub id: i32,
}

/// A stream request.
#[derive(Debug)]
pub struct StreamQuery {
    pub id: i32,
    pub max_bit_rate: Option<i32>,
}

/// A song id given in the query string.
#[derive(Debug)]
pub struct IdOnlyQuery {
    pub id: i32,
}

/// A request for random songs.
#[derive(Debug)]
pub struct RandRequest {
    pub size: Option<i32>,
    pub year_from: Option<i32>,
    pub year_to: Option<i32>,
}

/// A request without parameters.
#[derive(Debug)]
pub struct EmptyRequest {}

/// A request for a song listing; `list_type` is the `type` field.
#[derive(Debug)]
pub struct MusicListRequest {
    pub list_type: String,
    pub artist_id: Option<i32>,
    pub year_from: Option<i32>,
    pub year_to: Option<i32>,
    pub offset: Option<i32>,
    pub limit: Option<i32>,
}

/// A cover request.
#[derive(Debug)]
pub struct CoverQuery {
    pub id: i32,
    pub size: Option<i32>,
}

// ---------------------------------------------------------------------------
// Response types
// ---------------------------------------------------------------------------

/// Everything known about one song.
#[derive(Debug)]
pub struct MusicInfoResponse {
    pub id: i32,
    pub title: String,
    pub artist_id: i32,
    pub artist_name: String,
    pub album_id: Option<i32>,
    pub album_name: Option<String>,
    pub track_number: Option<i32>,
    pub disc_number: Option<i32>,
    pub duration_secs: i32,
    pub bit_rate: Option<i32>,
    pub size_bytes: Option<i64>,
    pub file_format: Option<String>,
    pub content_type: Option<String>,
    pub year: Option<i32>,
    pub has_cover_art: i32,
    pub file_path: String,
    pub play_count: i64,
    pub starred: Option<i64>,
    pub created_at: i64,
}

/// A song as listed.
#[derive(Debug)]
pub struct SongDetail {
    pub id: i32,
    pub title: String,
    pub artist_id: i32,
    pub artist_name: Option<String>,
    pub album_id: Option<i32>,
    pub album_name: Option<String>,
    pub track_number: Option<i32>,
    pub disc_number: Option<i32>,
    pub duration_secs: i32,
    pub bit_rate: Option<i32>,
    pub size_bytes: Option<i64>,
    pub file_format: Option<String>,
    pub content_type: Option<String>,
    pub year: Option<i32>,
    pub has_cover_art: i32,
    pub starred: Option<i64>,
    pub play_count: i64,
}

/// Lyrics of a song; `kind` is the `type` field (`"synced"` or not).
#[derive(Debug)]
pub struct LyricsResponse {
    pub kind: String,
    pub lines: Vec<LyricLine>,
}

/// A song the user is playing now.
#[derive(Debug)]
pub struct NowPlayingEntry {
    pub song_id: i32,
    pub title: String,
    pub artist_name: String,
    pub device_id: Option<String>,
    pub minutes_ago: i64,
    pub username: String,
}

/// The view of an optional owned string.
pub open spec fn opt_str_view(o: Option<String>) -> Option<Seq<char>> {
    match o {
        Some(s) => Some(s@),
        None => None,
    }
}

/// A copy of an optional string.
pub fn copy_opt(o: &Option<String>) -> (r: Option<String>)
    ensures
        opt_str_view(r) == opt_str_view(*o),
{
    match o {
        Some(s) => Some(s.clone()),
        None => None,
    }
}

/// The info of a song row with its artist and album names, play count and
/// the time the user starred it.
pub fn music_info_response(
    song: &SongRow,
    artist_name: String,
    album_name: Option<String>,
    play_count: i64,
    starred: Option<i64>,
) -> (r: MusicInfoResponse)
    ensures
        r.id == song.id && r.title@ == song.title@ && r.artist_id == song.artist_id,
        r.artist_name@ == artist_name@ && opt_str_view(r.album_name) == opt_str_view(album_name),
        r.album_id == song.album_id && r.track_number == song.track_number && r.disc_number
            == song.disc_number,
        r.duration_secs == song.duration_secs && r.bit_rate == song.bit_rate && r.size_bytes
            == song.size_bytes,
        opt_str_view(r.file_format) == opt_str_view(song.file_format),
        opt_str_view(r.content_type) == opt_str_view(song.content_type),
        r.year == song.year && r.has_cover_art == song.has_cover_art,
        r.file_path@ == song.file_path@ && r.created_at == song.created_at,
        r.play_count == play_count && r.starred == starred,
{
    MusicInfoResponse {
        id: song.id,
        title: song.title.clone(),
        artist_id: song.artist_id,
        artist_name,
        album_id: song.album_id,
        album_name,
        track_number: song.track_number,
        disc_number: song.disc_number,
        duration_secs: song.duration_secs,
        bit_rate: song.bit_rate,
        size_bytes: song.size_bytes,
        file_format: copy_opt(&song.file_format),
        content_type: copy_opt(&song.content_type),
        year: song.year,
        has_cover_art: song.has_cover_art,
        file_path: song.file_path.clone(),
        play_count,
        starred,
        created_at: song.created_at,
    }
}

/// A listed song: the row with its artist and album names (when found), play
/// count and the time the user starred it.
pub fn song_detail(
    song: &SongRow,
    artist_name: Option<String>,
    album_name: Option<String>,
    play_count: i64,
    starred: Option<i64>,
) -> (r: SongDetail)
    ensures
        r.id == song.id && r.title@ == song.title@ && r.artist_id == song.artist_id,
        opt_str_view(r.artist_name) == opt_str_view(artist_name),
        opt_str_view(r.album_name) == opt_str_view(album_name),
        r.album_id == song.album_id && r.track_number == song.track_number && r.disc_number
            == song.disc_number,
        r.duration_secs == song.duration_secs && r.bit_rate == song.bit_rate && r.size_bytes
            == song.size_bytes,
        opt_str_view(r.file_format) == opt_str_view(song.file_format),
        opt_str_view(r.content_type) == opt_str_view(song.content_type),
        r.year == song.year && r.has_cover_art == song.has_cover_art,
        r.play_count == play_count && r.starred == starred,
{
    SongDetail {
        id: song.id,
        title: song.title.clone(),
        artist_id: song.artist_id,
        artist_name,
        album_id: song.album_id,
        album_name,
        track_number: song.track_number,
        disc_number: song.disc_number,
        duration_secs: song.duration_secs,
        bit_rate: song.bit_rate,
        size_bytes: song.size_bytes,
        file_format: copy_opt(&song.file_format),
        content_type: copy_opt(&song.content_type),
        year: song.year,
        has_cover_art: song.has_cover_art,
        starred,
        play_count,
    }
}

/// Whole minutes from `played_at` to `now`, rounded toward zero; 0 when
/// the play carries no time.
pub open spec fn minutes_between(now: i64, played_at: i64) -> int {
    if played_at > 0 {
        let d = now - played_at;
        if d >= 0 {
            d / 60000
        } else {
            -((-d) / 60000)
        }
    } else {
        0
    }
}

/// Minutes since a play started.
pub fn minutes_ago(now: i64, played_at: i64) -> (m: i64)
    requires
        now >= 0,
    ensures
        m == minutes_between(now, played_at),
{
    if played_at > 0 {
        let d = now - played_at;
        if d >= 0 {
            d / 60000
        } else {
            -((-d) / 60000)
        }
    } else {
        0
    }
}

/// A now-playing entry for a play of a song by `username`.
pub fn now_playing_entry(
    play: &ScrobbleRow,
    title: String,
    artist_name: Option<String>,
    username: String,
    now: i64,
) -> (e: NowPlayingEntry)
    requires
        now >= 0,
    ensures
        e.song_id == play.song_id,
        e.title@ == title@,
        e.artist_name@ == (match artist_name {
            Some(a) => a@,
            None => Seq::<char>::empty(),
        }),
        e.device_id is None,
        e.minutes_ago == minutes_between(now, play.played_at),
        e.username@ == username@,
{
    NowPlayingEntry {
        song_id: play.song_id,
        title,
        artist_name: match artist_name {
            Some(a) => a,
            None => String::new(),
        },
        device_id: None,
        minutes_ago: minutes_ago(now, play.played_at),
        username,
    }
}

/// How many random songs are served: the requested size (default 10)
/// clamped to `[1, 100]`.
pub fn rand_size(req: &RandRequest) -> (n: u64)
    ensures
        n as int == clamp(
            match req.size {
                Some(s) => s as int,
                None => 10,
            },
            1,
            100,
        ),
{
    page_limit(req.size, 10, 100)
}

/// The year bounds a random pick honours.
pub fn rand_filter(req: &RandRequest) -> (f: ListFilter)
    ensures
        f.artist_id is None && f.year_min == req.year_from && f.year_max == req.year_to,
{
    artist_and_years(None, req.year_from, req.year_to)
}

// ---------------------------------------------------------------------------
// Song listings
// ---------------------------------------------------------------------------

/// The song listings.
#[derive(Clone, Copy, Debug, PartialEq, Eq, Structural)]
pub enum MusicListKind {
    /// Most recently added first.
    Newest,
    /// Most recently played first.
    Recent,
    /// Most played first.
    Frequent,
    /// Random order.
    Random,
    /// Songs the user starred, most recently starred first.
    Starred,
    /// Songs in a year range, newest year first.
    ByYear,
}

/// The listing a `type` names.
pub open spec fn music_kind_of(t: Seq<char>) -> Option<MusicListKind> {
    if t == "newest"@ {
        Some(MusicListKind::Newest)
    } else if t == "recent"@ {
        Some(MusicListKind::Recent)
    } else if t == "frequent"@ {
        Some(MusicListKind::Frequent)
    } else if t == "random"@ {
        Some(MusicListKind::Random)
    } else if t == "starred"@ {
        Some(MusicListKind::Starred)
    } else if t == "byYear"@ {
        Some(MusicListKind::ByYear)
    } else {
        None
    }
}

/// The `type` name of each listing.
pub open spec fn music_kind_name(k: MusicListKind) -> Seq<char> {
    match k {
        MusicListKind::Newest => "newest"@,
        MusicListKind::Recent => "recent"@,
        MusicListKind::Frequent => "frequent"@,
        MusicListKind::Random => "random"@,
        MusicListKind::Starred => "starred"@,
        MusicListKind::ByYear => "byYear"@,
    }
}

/// A `type` names a listing exactly when it is that listing's own name: each
/// name picks its own listing, no two names pick the same one, and any other
/// text picks none.
pub proof fn lemma_music_kind_of_names(t: Seq<char>, k: MusicListKind)
    ensures
        music_kind_of(t) == Some(k) <==> t == music_kind_name(k),
        music_kind_of(t) is None <==> forall|j: MusicListKind| t != #[trigger] music_kind_name(j),
{
    reveal_strlit("newest");
    reveal_strlit("recent");
    reveal_strlit("frequent");
    reveal_strlit("random");
    reveal_strlit("starred");
    reveal_strlit("byYear");
    assert("newest"@[0] != "recent"@[0]);
    assert("newest"@.len() != "frequent"@.len());
    assert("newest"@[0] != "random"@[0]);
    assert("newest"@.len() != "starred"@.len());
    assert("newest"@[0] != "byYear"@[0]);
    assert("recent"@.len() != "frequent"@.len());
    assert("recent"@[1] != "random"@[1]);
    assert("recent"@.len() != "starred"@.len());
    assert("recent"@[0] != "byYear"@[0]);
    assert("frequent"@.len() != "random"@.len());
    assert("frequent"@.len() != "starred"@.len());
    assert("frequent"@.len() != "byYear"@.len());
    assert("random"@.len() != "starred"@.len());
    assert("random"@[0] != "byYear"@[0]);
    assert("starred"@.len() != "byYear"@.len());
    assert(music_kind_name(MusicListKind::Newest) == "newest"@);
    assert(music_kind_of("newest"@) == Some(MusicListKind::Newest));
    assert(music_kind_name(MusicListKind::Recent) == "recent"@);
    assert(music_kind_of("recent"@) == Some(MusicListKind::Recent));
    assert(music_kind_name(MusicListKind::Frequent) == "frequent"@);
    assert(music_kind_of("frequent"@) == Some(MusicListKind::Frequent));
    assert(music_kind_name(MusicListKind::Random) == "random"@);
    assert(music_kind_of("random"@) == Some(MusicListKind::Random));
    assert(music_kind_name(MusicListKind::Starred) == "starred"@);
    assert(music_kind_of("starred"@) == Some(MusicListKind::Starred));
    assert(music_kind_name(MusicListKind::ByYear) == "byYear"@);
    assert(music_kind_of("byYear"@) == Some(MusicListKind::ByYear));
    assert forall|j: MusicListKind| music_kind_of(t) is None implies t != #[trigger] music_kind_name(j) by {
        if t == music_kind_name(j) {
            assert(music_kind_of(t) == Some(j));
        }
    }
    if music_kind_of(t) == Some(k) {
        match k {
            MusicListKind::Newest => {},
            MusicListKind::Recent => {},
            MusicListKind::Frequent => {},
            MusicListKind::Random => {},
            MusicListKind::Starred => {},
            MusicListKind::ByYear => {},
        }
    }
}


/// Reads the listing a `type` names.
pub fn music_kind(t: &str) -> (k: Option<MusicListKind>)
    ensures
        k == music_kind_of(t@),
{
    if str_equals(t, "newest") {
        Some(MusicListKind::Newest)
    } else if str_equals(t, "recent") {
        Some(MusicListKind::Recent)
    } else if str_equals(t, "frequent") {
        Some(MusicListKind::Frequent)
    } else if str_equals(t, "random") {
        Some(MusicListKind::Random)
    } else if str_equals(t, "starred") {
        Some(MusicListKind::Starred)
    } else if str_equals(t, "byYear") {
        Some(MusicListKind::ByYear)
    } else {
        None
    }
}

/// What a song listing queries: the listing, the page, the songs it selects
/// and the songs its total counts (the total of a starred listing counts the
/// user's starred songs instead).
#[derive(Debug)]
pub struct MusicListPlan {
    pub kind: MusicListKind,
    pub limit: u64,
    pub offset: u64,
    pub items: ListFilter,
    pub count: ListFilter,
}

/// Plans a song listing: page size from `limit` (default 50, clamped to
/// `[1, 500]`), offset from `offset` (default 0, at least 0); the newest and
/// random listings filter by artist and years, the recent and frequent ones by
/// artist only, the by-year one by artist and a year range defaulting to
/// `[0, 9999]`; the total counts songs by artist and requested years. An
/// unknown `type` is a validation error.
pub fn plan_music_list(req: &MusicListRequest) -> (r: Result<MusicListPlan, AppError>)
    ensures
        music_kind_of(req.list_type@) is None <==> r is Err,
        r matches Err(e) ==> e.kind == ErrorKind::ValidationError && e.message@ == "Unknown music list type: "@
            + req.list_type@,
        r matches Ok(p) ==> {
            &&& Some(p.kind) == music_kind_of(req.list_type@)
            &&& p.limit as int == clamp(
                match req.limit {
                    Some(l) => l as int,
                    None => 50,
                },
                1,
                500,
            )
            &&& p.offset as int == (match req.offset {
                Some(o) => if o < 0 {
                    0
                } else {
                    o as int
                },
                None => 0,
            })
            &&& p.items.artist_id == req.artist_id
            &&& (p.kind == MusicListKind::Newest || p.kind == MusicListKind::Random) ==> (
            p.items.year_min == req.year_from && p.items.year_max == req.year_to)
            &&& (p.kind == MusicListKind::Recent || p.kind == MusicListKind::Frequent
                || p.kind == MusicListKind::Starred) ==> (p.items.year_min is None
                && p.items.year_max is None)
            &&& p.kind == MusicListKind::ByYear ==> (p.items.year_min == Some(
                match req.year_from {
                    Some(y) => y,
                    None => 0i32,
                },
            ) && p.items.year_max == Some(
                match req.year_to {
                    Some(y) => y,
                    None => 9999i32,
                },
            ))
            &&& p.count.artist_id == req.artist_id
            &&& p.count.year_min == req.year_from
            &&& p.count.year_max == req.year_to
        },
{
    let kind = match music_kind(req.list_type.as_str()) {
        Some(k) => k,
        None => {
            let msg = crate::error::text("Unknown music list type: ").concat(
                req.list_type.as_str(),
            );
            return Err(AppError::validation_error(msg));
        },
    };
    let limit = page_limit(req.limit, 50, 500);
    let offset = page_offset(req.offset);
    let items = match kind {
        MusicListKind::Newest | MusicListKind::Random => artist_and_years(
            req.artist_id,
            req.year_from,
            req.year_to,
        ),
        MusicListKind::Recent | MusicListKind::Frequent | MusicListKind::Starred => artist_only(
            req.artist_id,
        ),
        MusicListKind::ByYear => artist_and_year_range(req.artist_id, req.year_from, req.year_to),
    };
    let count = artist_and_years(req.artist_id, req.year_from, req.year_to);
    Ok(MusicListPlan { kind, limit, offset, items, count })
}

} // verus!
