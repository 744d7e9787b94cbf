//! Per-track orchestration pieces: the fatal-error taxonomy, filename
//! sanitization, the search query and plan for one track, the conversion
//! request and response, and the model of the streamed output file.

use vstd::prelude::*;
use crate::spotify::Artist;
use crate::spotify::Item;
use crate::spotify::Track;
use crate::strutil::dec_digit;
use crate::strutil::push_char;

verus! {

/// The fatal errors the downloader can decide on; each aborts the run.
#[derive(Debug, Clone, Copy, PartialEq, Eq, Structural)]
pub enum DownloadError {
    /// A playlist entry's track carries no name.
    MissingTrackName,
    /// A playlist entry's track carries no artist list.
    MissingArtists,
    /// An artist in the track's artist list carries no name.
    MissingArtistName,
    /// The playlist page carries no total count.
    MissingTotal,
    /// The search returned no candidates.
    NoSearchResults,
    /// The conversion response carries no string `url` field.
    MissingDownloadUrl,
}

/// A character the output filename may not contain: the filesystem-special
/// set, ASCII control characters, and Latin-1 control characters.
pub open spec fn forbidden_char(c: char) -> bool {
    c == '/' || c == '?' || c == '<' || c == '>' || c == '\\' || c == ':' || c == '*' || c == '|'
        || c == '"' || (c as u32) < 0x20 || c as u32 == 0x7f || (0x80 <= c as u32 && c as u32
        <= 0x9f)
}

/// A forbidden character becomes an underscore; every other character stays.
pub open spec fn replace_char(c: char) -> char {
    if forbidden_char(c) {
        '_'
    } else {
        c
    }
}

pub open spec fn sanitize_seq(s: Seq<char>) -> Seq<char> {
    s.map_values(|c: char| replace_char(c))
}

/// The title cut down to at most 36 characters (characters, not bytes).
pub open spec fn truncated_title(title: Seq<char>) -> Seq<char> {
    if title.len() <= 36 {
        title
    } else {
        title.take(36)
    }
}

/// The output filename for a track title: the title truncated to 36
/// characters, the audio extension appended, and every forbidden character
/// replaced by an underscore.
pub open spec fn sanitized_filename_spec(title: Seq<char>) -> Seq<char> {
    sanitize_seq(truncated_title(title) + ".m4a"@)
}

pub fn is_forbidden_char(c: char) -> (b: bool)
    ensures
        b == forbidden_char(c),
{
    let u: u32 = c as u32;
    c == '/' || c == '?' || c == '<' || c == '>' || c == '\\' || c == ':' || c == '*' || c == '|'
        || c == '"' || u < 0x20 || u == 0x7f || (0x80 <= u && u <= 0x9f)
}

/// Builds the sanitized output filename for a track title.
pub fn sanitized_filename(title: &str) -> (r: String)
    ensures
        r@ == sanitized_filename_spec(title@),
{
    let len = title.unicode_len();
    let k = if len <= 36 {
        len
    } else {
        36
    };
    let base = title.substring_char(0, k);
    let mut name = String::from_str(base);
    name.append(".m4a");
    proof {
        assert(name@ =~= truncated_title(title@) + ".m4a"@);
    }
    let n = name.as_str().unicode_len();
    let mut out = String::new();
    let mut i: usize = 0;
    while i < n
        invariant
            n == name@.len(),
            i <= n,
            name@ == truncated_title(title@) + ".m4a"@,
            out@.len() == i,
            forall|j: int| 0 <= j < i ==> out@[j] == replace_char(name@[j]),
        decreases n - i,
    {
        let c = name.as_str().get_char(i);
        let rc = if is_forbidden_char(c) {
            '_'
        } else {
            c
        };
        push_char(&mut out, rc);
        i = i + 1;
    }
    proof {
        assert(out@ =~= sanitize_seq(name@));
    }
    out
}

/// Law (filename sanitization): for every candidate title, the sanitized
/// filename contains no forbidden character, and its length is that of the
/// title's character sequence truncated to at most 36 units, plus the four
/// characters of the audio extension. Being a function of the title alone,
/// the name is deterministic: equal titles give equal filenames.
pub proof fn lemma_sanitized_filename_safe(title: Seq<char>)
    ensures
        forall|i: int|
            0 <= i < sanitized_filename_spec(title).len() ==> !forbidden_char(
                #[trigger] sanitized_filename_spec(title)[i],
            ),
        sanitized_filename_spec(title).len() == (if title.len() <= 36 {
            title.len()
        } else {
            36nat
        }) + 4,
{
    reveal_strlit(".m4a");
    assert forall|i: int|
        0 <= i < sanitized_filename_spec(title).len() implies !forbidden_char(
        sanitized_filename_spec(title)[i],
    ) by {
        let full = truncated_title(title) + ".m4a"@;
        assert(sanitized_filename_spec(title)[i] == replace_char(full[i]));
        assert(!forbidden_char('_'));
    }
}

/// The artists' names joined with a comma separator: `"A, B, C"`.
pub open spec fn joined_artists(names: Seq<Seq<char>>) -> Seq<char>
    decreases names.len(),
{
    if names.len() == 0 {
        Seq::empty()
    } else if names.len() == 1 {
        names[0]
    } else {
        joined_artists(names.drop_last()) + ", "@ + names.last()
    }
}

/// The search query for a track: the joined artist names, a dash, the title.
pub open spec fn search_query_spec(artist_names: Seq<Seq<char>>, title: Seq<char>) -> Seq<char> {
    joined_artists(artist_names) + " - "@ + title
}

fn join_artist_names(names: &Vec<String>) -> (r: String)
    ensures
        r@ == joined_artists(names@.map_values(|s: String| s@)),
{
    let ghost vnames: Seq<Seq<char>> = names@.map_values(|s: String| s@);
    let mut r = String::new();
    let mut i: usize = 0;
    while i < names.len()
        invariant
            vnames == names@.map_values(|s: String| s@),
            vnames.len() == names@.len(),
            i <= names@.len(),
            r@ == joined_artists(vnames.take(i as int)),
        decreases names@.len() - i,
    {
        if i > 0 {
            r.append(", ");
        }
        r.append(names[i].as_str());
        proof {
            assert(vnames.take(i + 1).drop_last() =~= vnames.take(i as int));
            assert(vnames.take(i + 1).last() == vnames[i as int]);
        }
        i = i + 1;
    }
    proof {
        assert(vnames.take(names@.len() as int) =~= vnames);
    }
    r
}

/// Everything the downloader decides about one track before any network
/// call: the search query and the sanitized output filename.
#[derive(Debug, Clone, PartialEq)]
pub struct TrackPlan {
    pub query: String,
    pub filename: String,
}

/// The artists' name sequences; meaningful when every artist has a name.
pub open spec fn artist_name_seqs(artists: Seq<Artist>) -> Seq<Seq<char>> {
    artists.map_values(|a: Artist| a.name.unwrap()@)
}

/// Builds the plan for one track, or the fatal error the run aborts with:
/// a track without a name or artist list, or an artist without a name.
pub fn plan_track(track: &Track) -> (r: Result<TrackPlan, DownloadError>)
    ensures
        track.name is None ==> r == Err::<TrackPlan, DownloadError>(
            DownloadError::MissingTrackName,
        ),
        track.name is Some && track.artists is None ==> r == Err::<TrackPlan, DownloadError>(
            DownloadError::MissingArtists,
        ),
        track.name is Some && track.artists is Some && (exists|j: int|
            0 <= j < track.artists.unwrap()@.len() && track.artists.unwrap()@[j].name is None)
            ==> r == Err::<TrackPlan, DownloadError>(DownloadError::MissingArtistName),
        track.name is Some && track.artists is Some && (forall|j: int|
            0 <= j < track.artists.unwrap()@.len() ==> track.artists.unwrap()@[j].name is Some)
            ==> (r matches Ok(p) && p.query@ == search_query_spec(
            artist_name_seqs(track.artists.unwrap()@),
            track.name.unwrap()@,
        ) && p.filename@ == sanitized_filename_spec(track.name.unwrap()@)),
{
    let name = match &track.name {
        Some(n) => n,
        None => {
            return Err(DownloadError::MissingTrackName);
        },
    };
    let artists = match &track.artists {
        Some(a) => a,
        None => {
            return Err(DownloadError::MissingArtists);
        },
    };
    let mut names: Vec<String> = Vec::new();
    let mut i: usize = 0;
    while i < artists.len()
        invariant
            track.name is Some,
            track.artists is Some,
            name@ == track.name.unwrap()@,
            artists@ == track.artists.unwrap()@,
            i <= artists@.len(),
            names@.len() == i,
            forall|j: int| 0 <= j < i ==> (#[trigger] artists@[j]).name is Some,
            forall|j: int| 0 <= j < i ==> (#[trigger] names@[j])@ == artists@[j].name.unwrap()@,
        decreases artists@.len() - i,
    {
        match &artists[i].name {
            Some(n) => {
                names.push(n.clone());
            },
            None => {
                return Err(DownloadError::MissingArtistName);
            },
        }
        i = i + 1;
    }
    let mut query = join_artist_names(&names);
    proof {
        assert(names@.map_values(|s: String| s@) =~= artist_name_seqs(artists@));
    }
    query.append(" - ");
    query.append(name.as_str());
    let filename = sanitized_filename(name.as_str());
    Ok(TrackPlan { query, filename })
}

/// Decides one playlist entry. An entry without a track — a local-only
/// placeholder — is passed over: no plan, no error, and no iteration is
/// recorded for it. An entry with a track gets that track's plan, or its
/// fatal error.
pub fn plan_item(item: &Item) -> (r: Result<Option<TrackPlan>, DownloadError>)
    ensures
        item.track is None ==> r == Ok::<Option<TrackPlan>, DownloadError>(None),
        item.track is Some && item.track.unwrap().name is None ==> r == Err::<
            Option<TrackPlan>,
            DownloadError,
        >(DownloadError::MissingTrackName),
        item.track is Some && item.track.unwrap().name is Some && item.track.unwrap().artists
            is None ==> r == Err::<Option<TrackPlan>, DownloadError>(DownloadError::MissingArtists),
        item.track is Some && item.track.unwrap().name is Some && item.track.unwrap().artists
            is Some && (exists|j: int|
            0 <= j < item.track.unwrap().artists.unwrap()@.len()
                && item.track.unwrap().artists.unwrap()@[j].name is None) ==> r == Err::<
            Option<TrackPlan>,
            DownloadError,
        >(DownloadError::MissingArtistName),
        item.track is Some && item.track.unwrap().name is Some && item.track.unwrap().artists
            is Some && (forall|j: int|
            0 <= j < item.track.unwrap().artists.unwrap()@.len()
                ==> item.track.unwrap().artists.unwrap()@[j].name is Some) ==> (r matches Ok(op)
            && op matches Some(p) && p.query@ == search_query_spec(
            artist_name_seqs(item.track.unwrap().artists.unwrap()@),
            item.track.unwrap().name.unwrap()@,
        ) && p.filename@ == sanitized_filename_spec(item.track.unwrap().name.unwrap()@)),
{
    match &item.track {
        Some(t) => match plan_track(t) {
            Ok(p) => Ok(Some(p)),
            Err(e) => Err(e),
        },
        None => Ok(None),
    }
}

/// The hexadecimal digit character for `d` (meaningful for `0 <= d <= 15`).
pub open spec fn hex_digit(d: int) -> char {
    if d < 10 {
        dec_digit(d)
    } else if d == 10 {
        'a'
    } else if d == 11 {
        'b'
    } else if d == 12 {
        'c'
    } else if d == 13 {
        'd'
    } else if d == 14 {
        'e'
    } else {
        'f'
    }
}

/// How one character appears inside a JSON string literal: quote and
/// backslash escaped, the short control escapes, and `\u00XX` for the
/// remaining control characters.
pub open spec fn json_escaped_char(c: char) -> Seq<char> {
    if c == '"' {
        seq!['\\', '"']
    } else if c == '\\' {
        seq!['\\', '\\']
    } else if c == '\u{8}' {
        seq!['\\', 'b']
    } else if c == '\t' {
        seq!['\\', 't']
    } else if c == '\n' {
        seq!['\\', 'n']
    } else if c == '\u{c}' {
        seq!['\\', 'f']
    } else if c == '\r' {
        seq!['\\', 'r']
    } else if (c as u32) < 0x20 {
        seq!['\\', 'u', '0', '0', hex_digit((c as u32) as int / 16), hex_digit((c as u32) as int % 16)]
    } else {
        seq![c]
    }
}

/// A whole string as it appears inside a JSON string literal.
pub open spec fn json_escaped(s: Seq<char>) -> Seq<char>
    decreases s.len(),
{
    if s.len() == 0 {
        Seq::empty()
    } else {
        json_escaped(s.drop_last()) + json_escaped_char(s.last())
    }
}

fn hex_digit_exec(d: u32) -> (c: char)
    requires
        d <= 15,
    ensures
        c == hex_digit(d as int),
{
    if d == 0 {
        '0'
    } else if d == 1 {
        '1'
    } else if d == 2 {
        '2'
    } else if d == 3 {
        '3'
    } else if d == 4 {
        '4'
    } else if d == 5 {
        '5'
    } else if d == 6 {
        '6'
    } else if d == 7 {
        '7'
    } else if d == 8 {
        '8'
    } else if d == 9 {
        '9'
    } else if d == 10 {
        'a'
    } else if d == 11 {
        'b'
    } else if d == 12 {
        'c'
    } else if d == 13 {
        'd'
    } else if d == 14 {
        'e'
    } else {
        'f'
    }
}

fn push_json_escaped(out: &mut String, s: &str)
    ensures
        final(out)@ == old(out)@ + json_escaped(s@),
{
    let n = s.unicode_len();
    let mut i: usize = 0;
    while i < n
        invariant
            n == s@.len(),
            i <= n,
            out@ == old(out)@ + json_escaped(s@.take(i as int)),
        decreases n - i,
    {
        let c = s.get_char(i);
        if c == '"' {
            push_char(out, '\\');
            push_char(out, '"');
        } else if c == '\\' {
            push_char(out, '\\');
            push_char(out, '\\');
        } else if c == '\u{8}' {
            push_char(out, '\\');
            push_char(out, 'b');
        } else if c == '\t' {
            push_char(out, '\\');
            push_char(out, 't');
        } else if c == '\n' {
            push_char(out, '\\');
            push_char(out, 'n');
        } else if c == '\u{c}' {
            push_char(out, '\\');
            push_char(out, 'f');
        } else if c == '\r' {
            push_char(out, '\\');
            push_char(out, 'r');
        } else {
            let u: u32 = c as u32;
            if u < 0x20 {
                push_char(out, '\\');
                push_char(out, 'u');
                push_char(out, '0');
                push_char(out, '0');
                push_char(out, hex_digit_exec(u / 16));
                push_char(out, hex_digit_exec(u % 16));
            } else {
                push_char(out, c);
            }
        }
        proof {
            assert(s@.take(i + 1).drop_last() =~= s@.take(i as int));
            assert(s@.take(i + 1).last() == s@[i as int]);
            assert(out@ =~= old(out)@ + json_escaped(s@.take(i + 1)));
        }
        i = i + 1;
    }
    proof {
        assert(s@.take(n as int) =~= s@);
    }
}

/// The JSON body POSTed to the conversion endpoint for one video URL,
/// requesting audio-only output.
pub open spec fn conversion_body_spec(video_url: Seq<char>) -> Seq<char> {
    "{\"url\":\""@ + json_escaped(video_url) + "\",\"isAudioOnly\":\"true\"}"@
}

/// Builds the conversion request body for a video URL.
pub fn conversion_request_body(video_url: &str) -> (r: String)
    ensures
        r@ == conversion_body_spec(video_url@),
{
    let mut r = String::from_str("{\"url\":\"");
    push_json_escaped(&mut r, video_url);
    r.append("\",\"isAudioOnly\":\"true\"}");
    r
}

/// The fixed conversion endpoint.
pub fn conversion_endpoint() -> (r: String)
    ensures
        r@ == "https://co.wuk.sh/api/json"@,
{
    String::from_str("https://co.wuk.sh/api/json")
}

/// What the conversion proxy's response body carries in its `url` field:
/// the field's string value, when the body parses as JSON and holds one.
pub uninterp spec fn url_field_of(body: Seq<char>) -> Option<Seq<char>>;

/// Relies on `serde_json::from_str`, `Value::get` and `Value::as_str`:
/// parses the response body and hands out its string `url` field, if any.
#[verifier::external_body]
fn json_url_field(body: &str) -> (r: Option<String>)
    ensures
        r is Some <==> url_field_of(body@) is Some,
        r is Some ==> r.unwrap()@ == url_field_of(body@).unwrap(),
{
    match serde_json::from_str::<serde_json::Value>(body) {
        Ok(v) => v.get("url").and_then(|u| u.as_str()).map(|s| s.to_string()),
        Err(_) => None,
    }
}

/// Reads the direct-download link out of a conversion response body; a body
/// without a string `url` field is the fatal error the run aborts with.
pub fn resolve_download_url(body: &str) -> (r: Result<String, DownloadError>)
    ensures
        url_field_of(body@) is Some ==> (r matches Ok(u) && u@ == url_field_of(body@).unwrap()),
        url_field_of(body@) is None ==> r == Err::<String, DownloadError>(
            DownloadError::MissingDownloadUrl,
        ),
{
    match json_url_field(body) {
        Some(u) => Ok(u),
        None => Err(DownloadError::MissingDownloadUrl),
    }
}

/// A model of the destination file: opened empty (create-or-truncate) and
/// appended to one chunk at a time, in arrival order, never buffering the
/// whole body.
pub struct FileSink {
    bytes: Vec<u8>,
}

impl FileSink {
    /// The bytes written so far.
    pub closed spec fn contents(&self) -> Seq<u8> {
        self.bytes@
    }

    /// Opens the model file empty, as create-or-truncate does.
    pub fn create() -> (r: FileSink)
        ensures
            r.contents() == Seq::<u8>::empty(),
    {
        FileSink { bytes: Vec::new() }
    }

    /// Appends one arriving chunk at the end of the file.
    pub fn write_chunk(&mut self, chunk: &Vec<u8>)
        ensures
            final(self).contents() == old(self).contents() + chunk@,
    {
        self.bytes.extend_from_slice(chunk.as_slice());
    }

    /// Hands the finished file's bytes out.
    pub fn into_bytes(self) -> (r: Vec<u8>)
        ensures
            r@ == self.contents(),
    {
        self.bytes
    }
}

/// The concatenation of `chunks` in delivery order.
pub open spec fn concat_chunks(chunks: Seq<Seq<u8>>) -> Seq<u8>
    decreases chunks.len(),
{
    if chunks.len() == 0 {
        Seq::empty()
    } else {
        concat_chunks(chunks.drop_last()) + chunks.last()
    }
}

/// Streams a whole body: every chunk is written as it arrives, in delivery
/// order, so the file's content ends as exactly the concatenation of the
/// chunks.
pub fn stream_chunks(sink: &mut FileSink, chunks: &Vec<Vec<u8>>)
    ensures
        final(sink).contents() == old(sink).contents() + concat_chunks(
            chunks@.map_values(|c: Vec<u8>| c@),
        ),
{
    let ghost vchunks: Seq<Seq<u8>> = chunks@.map_values(|c: Vec<u8>| c@);
    let mut i: usize = 0;
    while i < chunks.len()
        invariant
            vchunks == chunks@.map_values(|c: Vec<u8>| c@),
            vchunks.len() == chunks@.len(),
            i <= chunks@.len(),
            sink.contents() == old(sink).contents() + concat_chunks(vchunks.take(i as int)),
        decreases chunks@.len() - i,
    {
        sink.write_chunk(&chunks[i]);
        proof {
            assert(vchunks.take(i + 1).drop_last() =~= vchunks.take(i as int));
            assert(vchunks.take(i + 1).last() == vchunks[i as int]);
            assert(sink.contents() =~= old(sink).contents() + concat_chunks(vchunks.take(i + 1)));
        }
        i = i + 1;
    }
    proof {
        assert(vchunks.take(chunks@.len() as int) =~= vchunks);
    }
}

} // verus!
