//! Songs, their streaming and download URLs, song lists, and lyrics.
use vstd::prelude::*;
use crate::artist::{cover_art_request, cover_request};
use crate::client::{spec_url, valid_base, Client, Request};
use crate::error::Error;
use crate::json::{
    bool_field, member, opt_bool_field, opt_id, opt_str_field, opt_u64_field, parse_optional_id,
    str_field, u64_field, Json,
};
use crate::query::{list_pairs, opt_decimal, opt_decimal_view, opt_view, Query};
use crate::text::{decimal, spec_decimal, spec_parse_id};

verus! {

/// Audio encoding formats: the server's default transcoding targets.
#[derive(Debug, Clone, Copy, PartialEq, Eq)]
pub enum AudioFormat {
    Aac,
    Aif,
    Aiff,
    Ape,
    Flac,
    Flv,
    M4a,
    Mp3,
    Mpc,
    Oga,
    Ogg,
    Ogx,
    Opus,
    Shn,
    Wav,
    Wma,
    Raw,
}

/// The lower-case name of a format, as the server writes it.
pub open spec fn format_name(f: AudioFormat) -> Seq<char> {
    match f {
        AudioFormat::Aac => "aac"@,
        AudioFormat::Aif => "aif"@,
        AudioFormat::Aiff => "aiff"@,
        AudioFormat::Ape => "ape"@,
        AudioFormat::Flac => "flac"@,
        AudioFormat::Flv => "flv"@,
        AudioFormat::M4a => "m4a"@,
        AudioFormat::Mp3 => "mp3"@,
        AudioFormat::Mpc => "mpc"@,
        AudioFormat::Oga => "oga"@,
        AudioFormat::Ogg => "ogg"@,
        AudioFormat::Ogx => "ogx"@,
        AudioFormat::Opus => "opus"@,
        AudioFormat::Shn => "shn"@,
        AudioFormat::Wav => "wav"@,
        AudioFormat::Wma => "wma"@,
        AudioFormat::Raw => "raw"@,
    }
}

impl AudioFormat {
    /// The lower-case name of the format.
    pub fn name(&self) -> (r: &'static str)
        ensures
            r@ == format_name(*self),
    {
        match self {
            AudioFormat::Aac => "aac",
            AudioFormat::Aif => "aif",
            AudioFormat::Aiff => "aiff",
            AudioFormat::Ape => "ape",
            AudioFormat::Flac => "flac",
            AudioFormat::Flv => "flv",
            AudioFormat::M4a => "m4a",
            AudioFormat::Mp3 => "mp3",
            AudioFormat::Mpc => "mpc",
            AudioFormat::Oga => "oga",
            AudioFormat::Ogg => "ogg",
            AudioFormat::Ogx => "ogx",
            AudioFormat::Opus => "opus",
            AudioFormat::Shn => "shn",
            AudioFormat::Wav => "wav",
            AudioFormat::Wma => "wma",
            AudioFormat::Raw => "raw",
        }
    }

    /// The name as an owned string.
    pub fn to_string(&self) -> (r: String)
        ensures
            r@ == format_name(*self),
    {
        String::from_str(self.name())
    }
}

/// A song exactly as the server writes it.
#[derive(Debug)]
pub struct SongWire {
    pub id: String,
    pub parent: String,
    pub is_dir: bool,
    pub title: String,
    pub album: Option<String>,
    pub artist: Option<String>,
    pub track: Option<u64>,
    pub year: Option<u64>,
    pub genre: Option<String>,
    pub cover_art: Option<String>,
    pub size: u64,
    pub content_type: String,
    pub suffix: String,
    pub duration: u64,
    pub bit_rate: u64,
    pub path: String,
    pub is_video: Option<bool>,
    pub play_count: u64,
    pub disc_number: Option<u64>,
    pub created: String,
    pub album_id: Option<String>,
    pub artist_id: Option<String>,
    pub media_type: String,
}

/// A song.
#[derive(Debug)]
pub struct Song {
    pub id: u64,
    pub title: String,
    pub album: Option<String>,
    pub album_id: Option<u64>,
    pub artist: Option<String>,
    pub artist_id: Option<u64>,
    pub track: Option<u64>,
    pub year: Option<u64>,
    pub genre: Option<String>,
    pub cover_id: Option<u64>,
    pub size: u64,
    pub duration: u64,
    pub path: String,
    pub media_type: String,
}

pub open spec fn song_wire_ok(j: Json) -> bool {
    &&& str_field(j, "id"@) is Some
    &&& str_field(j, "parent"@) is Some
    &&& bool_field(j, "isDir"@) is Some
    &&& str_field(j, "title"@) is Some
    &&& opt_str_field(j, "album"@) is Some
    &&& opt_str_field(j, "artist"@) is Some
    &&& opt_u64_field(j, "track"@) is Some
    &&& opt_u64_field(j, "year"@) is Some
    &&& opt_str_field(j, "genre"@) is Some
    &&& opt_str_field(j, "coverArt"@) is Some
    &&& u64_field(j, "size"@) is Some
    &&& str_field(j, "contentType"@) is Some
    &&& str_field(j, "suffix"@) is Some
    &&& u64_field(j, "duration"@) is Some
    &&& u64_field(j, "bitRate"@) is Some
    &&& str_field(j, "path"@) is Some
    &&& opt_bool_field(j, "isVideo"@) is Some
    &&& u64_field(j, "playCount"@) is Some
    &&& opt_u64_field(j, "discNumber"@) is Some
    &&& str_field(j, "created"@) is Some
    &&& opt_str_field(j, "albumId"@) is Some
    &&& opt_str_field(j, "artistId"@) is Some
    &&& str_field(j, "type"@) is Some
}

/// The wire shape of a song object: every field present with its type, or `InvalidField`.
pub open spec fn spec_song_wire(j: Json) -> Result<SongWire, Error> {
    if song_wire_ok(j) {
        Ok(
            SongWire {
                id: str_field(j, "id"@)->0,
                parent: str_field(j, "parent"@)->0,
                is_dir: bool_field(j, "isDir"@)->0,
                title: str_field(j, "title"@)->0,
                album: opt_str_field(j, "album"@)->0,
                artist: opt_str_field(j, "artist"@)->0,
                track: opt_u64_field(j, "track"@)->0,
                year: opt_u64_field(j, "year"@)->0,
                genre: opt_str_field(j, "genre"@)->0,
                cover_art: opt_str_field(j, "coverArt"@)->0,
                size: u64_field(j, "size"@)->0,
                content_type: str_field(j, "contentType"@)->0,
                suffix: str_field(j, "suffix"@)->0,
                duration: u64_field(j, "duration"@)->0,
                bit_rate: u64_field(j, "bitRate"@)->0,
                path: str_field(j, "path"@)->0,
                is_video: opt_bool_field(j, "isVideo"@)->0,
                play_count: u64_field(j, "playCount"@)->0,
                disc_number: opt_u64_field(j, "discNumber"@)->0,
                created: str_field(j, "created"@)->0,
                album_id: opt_str_field(j, "albumId"@)->0,
                artist_id: opt_str_field(j, "artistId"@)->0,
                media_type: str_field(j, "type"@)->0,
            },
        )
    } else {
        Err(Error::InvalidField)
    }
}

/// The song that a wire shape denotes: its identifiers parsed, or `InvalidId`.
pub open spec fn spec_song_from_wire(w: SongWire) -> Result<Song, Error> {
    if spec_parse_id(w.id@) is Some && opt_id(w.album_id) is Some && opt_id(w.artist_id) is Some
        && opt_id(w.cover_art) is Some {
        Ok(
            Song {
                id: spec_parse_id(w.id@)->0,
                title: w.title,
                album: w.album,
                album_id: opt_id(w.album_id)->0,
                artist: w.artist,
                artist_id: opt_id(w.artist_id)->0,
                track: w.track,
                year: w.year,
                genre: w.genre,
                cover_id: opt_id(w.cover_art)->0,
                size: w.size,
                duration: w.duration,
                path: w.path,
                media_type: w.media_type,
            },
        )
    } else {
        Err(Error::InvalidId)
    }
}

/// The song that a JSON value denotes.
pub open spec fn spec_song(j: Json) -> Result<Song, Error> {
    match spec_song_wire(j) {
        Ok(w) => spec_song_from_wire(w),
        Err(e) => Err(e),
    }
}

impl SongWire {
    /// Reads the wire shape of a song.
    pub fn from_json(j: &Json) -> (r: Result<SongWire, Error>)
        ensures
            r == spec_song_wire(*j),
    {
        let id = j.str_field("id")?;
        let parent = j.str_field("parent")?;
        let is_dir = j.bool_field("isDir")?;
        let title = j.str_field("title")?;
        let album = j.opt_str_field("album")?;
        let artist = j.opt_str_field("artist")?;
        let track = j.opt_u64_field("track")?;
        let year = j.opt_u64_field("year")?;
        let genre = j.opt_str_field("genre")?;
        let cover_art = j.opt_str_field("coverArt")?;
        let size = j.u64_field("size")?;
        let content_type = j.str_field("contentType")?;
        let suffix = j.str_field("suffix")?;
        let duration = j.u64_field("duration")?;
        let bit_rate = j.u64_field("bitRate")?;
        let path = j.str_field("path")?;
        let is_video = j.opt_bool_field("isVideo")?;
        let play_count = j.u64_field("playCount")?;
        let disc_number = j.opt_u64_field("discNumber")?;
        let created = j.str_field("created")?;
        let album_id = j.opt_str_field("albumId")?;
        let artist_id = j.opt_str_field("artistId")?;
        let media_type = j.str_field("type")?;
        Ok(
            SongWire {
                id,
                parent,
                is_dir,
                title,
                album,
                artist,
                track,
                year,
                genre,
                cover_art,
                size,
                content_type,
                suffix,
                duration,
                bit_rate,
                path,
                is_video,
                play_count,
                disc_number,
                created,
                album_id,
                artist_id,
                media_type,
            },
        )
    }
}

/// The parameters of a streaming URL.
pub open spec fn stream_pairs(id: u64, bitrate: Option<u64>, format: Option<AudioFormat>) -> Seq<
    (Seq<char>, Seq<char>),
> {
    seq![("id"@, spec_decimal(id as nat))] + match opt_decimal_view(bitrate) {
        Some(b) => seq![("maxBitRate"@, b)],
        None => Seq::empty(),
    } + match format {
        Some(f) => seq![("format"@, format_name(f))],
        None => Seq::empty(),
    }
}

impl Song {
    /// Validates a wire shape.
    pub fn from_wire(w: SongWire) -> (r: Result<Song, Error>)
        ensures
            r == spec_song_from_wire(w),
    {
        let id = match crate::text::parse_id(w.id.as_str()) {
            Some(n) => n,
            None => return Err(Error::InvalidId),
        };
        let album_id = parse_optional_id(&w.album_id)?;
        let artist_id = parse_optional_id(&w.artist_id)?;
        let cover_id = parse_optional_id(&w.cover_art)?;
        Ok(
            Song {
                id,
                title: w.title,
                album: w.album,
                album_id,
                artist: w.artist,
                artist_id,
                track: w.track,
                year: w.year,
                genre: w.genre,
                cover_id,
                size: w.size,
                duration: w.duration,
                path: w.path,
                media_type: w.media_type,
            },
        )
    }

    /// Decodes a song object.
    pub fn from_json(j: &Json) -> (r: Result<Song, Error>)
        ensures
            r == spec_song(*j),
    {
        match SongWire::from_json(j) {
            Ok(w) => Song::from_wire(w),
            Err(e) => Err(e),
        }
    }

    /// Decodes the payload of a `getSong` reply; an absent payload is `InvalidField`.
    pub fn from_payload(p: &Option<Json>) -> (r: Result<Song, Error>)
        ensures
            r == match *p {
                Some(j) => spec_song(j),
                None => Err(Error::InvalidField),
            },
    {
        match p {
            Some(j) => Song::from_json(j),
            None => Err(Error::InvalidField),
        }
    }

    /// The request for this song's cover art, scaled to `size` where given;
    /// `None` when the song has no cover.
    pub fn cover_art(&self, size: Option<u64>) -> (r: Option<Request>)
        ensures
            match r {
                Some(q) => self.cover_id is Some && q@ == cover_request(
                    spec_decimal(self.cover_id->0 as nat),
                    size,
                ),
                None => self.cover_id is None,
            },
    {
        match self.cover_id {
            Some(c) => Some(cover_art_request(decimal(c), size)),
            None => None,
        }
    }

    /// The parameters of a streaming URL for this song.
    pub fn stream_query(&self, bitrate: Option<u64>, format: Option<AudioFormat>) -> (r: Query)
        ensures
            r@ == stream_pairs(self.id, bitrate, format),
    {
        let f = match format {
            Some(f) => Some(f.to_string()),
            None => None,
        };
        let r = Query::new().arg("id", decimal(self.id)).maybe_arg(
            "maxBitRate",
            opt_decimal(bitrate),
        ).maybe_arg("format", f);
        assert(r@ =~= stream_pairs(self.id, bitrate, format));
        r
    }

    /// The URL that streams this song, transcoded to `format` at most at
    /// `bitrate` where these are given.
    pub fn stream_url(&self, client: &Client, bitrate: Option<u64>, format: Option<AudioFormat>) -> (r:
        Result<String, Error>)
        ensures
            match r {
                Ok(u) => valid_base(client.base_url@) && u@ == spec_url(
                    *client,
                    "stream"@,
                    stream_pairs(self.id, bitrate, format),
                ),
                Err(e) => !valid_base(client.base_url@) && e == Error::UrlConstruction,
            },
    {
        client.build_url("stream", self.stream_query(bitrate, format).build())
    }

    /// The URL that downloads this song as it is stored.
    pub fn download_url(&self, client: &Client) -> (r: Result<String, Error>)
        ensures
            match r {
                Ok(u) => valid_base(client.base_url@) && u@ == spec_url(
                    *client,
                    "download"@,
                    seq![("id"@, spec_decimal(self.id as nat))],
                ),
                Err(e) => !valid_base(client.base_url@) && e == Error::UrlConstruction,
            },
    {
        client.build_url("download", Query::with("id", decimal(self.id)).build())
    }

    /// The request for an HLS playlist of this song, at the given bitrates.
    pub fn hls(&self, bitrates: Option<Vec<u64>>) -> (r: Request)
        ensures
            r@.0 == "hls"@,
            r@.1 == seq![("id"@, spec_decimal(self.id as nat))] + match bitrates {
                Some(b) => list_pairs("bitrate"@, b@),
                None => Seq::empty(),
            },
    {
        let q = Query::new().arg("id", decimal(self.id)).maybe_arg_list("bitrate", bitrates);
        Request::new("hls", q)
    }
}

/// The request for a song.
pub fn get_song(id: u64) -> (r: Request)
    ensures
        r@ == ("getSong"@, seq![("id"@, spec_decimal(id as nat))]),
{
    Request::new("getSong", Query::with("id", decimal(id)))
}

/// The number of songs asked for when the caller names none.
pub const DEFAULT_RANDOM_COUNT: u64 = 10;

/// A window into a long result: `count` items starting at `offset`.
#[derive(Debug, Clone, Copy, PartialEq, Eq)]
pub struct SearchPage {
    pub count: u64,
    pub offset: u64,
}

pub open spec fn opt_str_view(v: Option<&str>) -> Option<Seq<char>> {
    match v {
        Some(s) => Some(s@),
        None => None,
    }
}

fn owned(v: Option<&str>) -> (r: Option<String>)
    ensures
        opt_view(r) == opt_str_view(v),
{
    match v {
        Some(s) => Some(String::from_str(s)),
        None => None,
    }
}

/// The pair for an optional value: one pair when it is given, none otherwise.
pub open spec fn maybe_pair(key: Seq<char>, v: Option<Seq<char>>) -> Seq<(Seq<char>, Seq<char>)> {
    match v {
        Some(t) => seq![(key, t)],
        None => Seq::empty(),
    }
}

/// The request for random songs; `size` defaults to `DEFAULT_RANDOM_COUNT`.
pub fn get_random_songs(
    size: Option<u64>,
    genre: Option<&str>,
    from_year: Option<u64>,
    to_year: Option<u64>,
    folder_id: Option<u64>,
) -> (r: Request)
    ensures
        r@.0 == "getRandomSongs"@,
        r@.1 == seq![
            ("size"@, spec_decimal(
                match size {
                    Some(n) => n,
                    None => DEFAULT_RANDOM_COUNT,
                } as nat,
            )),
        ] + maybe_pair("genre"@, opt_str_view(genre)) + maybe_pair(
            "fromYear"@,
            opt_decimal_view(from_year),
        ) + maybe_pair("toYear"@, opt_decimal_view(to_year)) + maybe_pair(
            "musicFolderId"@,
            opt_decimal_view(folder_id),
        ),
{
    let n = match size {
        Some(n) => n,
        None => DEFAULT_RANDOM_COUNT,
    };
    let q = Query::new().arg("size", decimal(n)).maybe_arg("genre", owned(genre)).maybe_arg(
        "fromYear",
        opt_decimal(from_year),
    ).maybe_arg("toYear", opt_decimal(to_year)).maybe_arg(
        "musicFolderId",
        opt_decimal(folder_id),
    );
    let r = Request::new("getRandomSongs", q);
    assert(r@.1 =~= seq![("size"@, spec_decimal(n as nat))] + maybe_pair(
        "genre"@,
        opt_str_view(genre),
    ) + maybe_pair("fromYear"@, opt_decimal_view(from_year)) + maybe_pair(
        "toYear"@,
        opt_decimal_view(to_year),
    ) + maybe_pair("musicFolderId"@, opt_decimal_view(folder_id)));
    r
}

/// The request for one page of the songs in a genre.
pub fn get_songs_in_genre(genre: &str, page: SearchPage, folder_id: Option<u64>) -> (r: Request)
    ensures
        r@.0 == "getSongsByGenre"@,
        r@.1 == seq![
            ("genre"@, genre@),
            ("count"@, spec_decimal(page.count as nat)),
            ("offset"@, spec_decimal(page.offset as nat)),
        ] + maybe_pair("musicFolderId"@, opt_decimal_view(folder_id)),
{
    let q = Query::with("genre", String::from_str(genre)).arg("count", decimal(page.count)).arg(
        "offset",
        decimal(page.offset),
    ).maybe_arg("musicFolderId", opt_decimal(folder_id));
    let r = Request::new("getSongsByGenre", q);
    assert(r@.1 =~= seq![
        ("genre"@, genre@),
        ("count"@, spec_decimal(page.count as nat)),
        ("offset"@, spec_decimal(page.offset as nat)),
    ] + maybe_pair("musicFolderId"@, opt_decimal_view(folder_id)));
    r
}

/// The songs that a sequence of song objects denotes; the first failure otherwise.
pub open spec fn spec_songs(items: Seq<Json>) -> Result<Seq<Song>, Error>
    decreases items.len(),
{
    if items.len() == 0 {
        Ok(Seq::empty())
    } else {
        match spec_songs(items.drop_last()) {
            Ok(s) => match spec_song(items.last()) {
                Ok(a) => Ok(s.push(a)),
                Err(e) => Err(e),
            },
            Err(e) => Err(e),
        }
    }
}

/// The songs of a song-list payload: its `song` list, empty when the payload or
/// the list is absent; `InvalidField` for any value but an array.
pub open spec fn spec_song_list(p: Option<Json>) -> Result<Seq<Song>, Error> {
    match p {
        None => Ok(Seq::empty()),
        Some(j) => match member(j, "song"@) {
            None => Ok(Seq::empty()),
            Some(Json::Array(items)) => spec_songs(items@),
            _ => Err(Error::InvalidField),
        },
    }
}

proof fn lemma_songs_failure_stays(items: Seq<Json>, i: int)
    requires
        0 <= i <= items.len(),
        spec_songs(items.subrange(0, i)) is Err,
    ensures
        spec_songs(items) == spec_songs(items.subrange(0, i)),
    decreases items.len() - i,
{
    if i < items.len() {
        assert(items.subrange(0, i + 1).drop_last() =~= items.subrange(0, i));
        lemma_songs_failure_stays(items, i + 1);
    } else {
        assert(items.subrange(0, i) =~= items);
    }
}

/// Decodes a list of song objects, stopping at the first failure.
pub fn songs_from_json(items: &Vec<Json>) -> (r: Result<Vec<Song>, Error>)
    ensures
        match (r, spec_songs(items@)) {
            (Ok(v), Ok(s)) => v@ == s,
            (Err(e), Err(f)) => e == f,
            _ => false,
        },
{
    let mut out: Vec<Song> = Vec::new();
    let mut i: usize = 0;
    while i < items.len()
        invariant
            i <= items@.len(),
            spec_songs(items@.subrange(0, i as int)) == Ok::<Seq<Song>, Error>(out@),
        decreases items.len() - i,
    {
        assert(items@.subrange(0, i + 1).drop_last() =~= items@.subrange(0, i as int));
        match Song::from_json(&items[i]) {
            Ok(a) => out.push(a),
            Err(e) => {
                proof {
                    lemma_songs_failure_stays(items@, i as int + 1);
                }
                return Err(e);
            },
        }
        i = i + 1;
    }
    assert(items@.subrange(0, items@.len() as int) =~= items@);
    Ok(out)
}

/// Decodes the payload of a song-list reply (random songs, songs by genre).
pub fn songs_from_payload(p: &Option<Json>) -> (r: Result<Vec<Song>, Error>)
    ensures
        match (r, spec_song_list(*p)) {
            (Ok(v), Ok(s)) => v@ == s,
            (Err(e), Err(f)) => e == f,
            _ => false,
        },
{
    match p {
        None => Ok(Vec::new()),
        Some(j) => match j.member("song") {
            None => Ok(Vec::new()),
            Some(Json::Array(items)) => songs_from_json(items),
            _ => Err(Error::InvalidField),
        },
    }
}

/// Lyrics of a song.
#[derive(Debug)]
pub struct Lyrics {
    pub title: String,
    pub artist: String,
    pub value: String,
}

/// The lyrics that a reply holds: none when it has no `value`; otherwise its
/// title, artist and text, all strings, or `InvalidField`.
pub open spec fn spec_lyrics(p: Option<Json>) -> Result<Option<Lyrics>, Error> {
    match p {
        None => Ok(None),
        Some(j) => if member(j, "value"@) is None {
            Ok(None)
        } else if str_field(j, "title"@) is Some && str_field(j, "artist"@) is Some && str_field(
            j,
            "value"@,
        ) is Some {
            Ok(
                Some(
                    Lyrics {
                        title: str_field(j, "title"@)->0,
                        artist: str_field(j, "artist"@)->0,
                        value: str_field(j, "value"@)->0,
                    },
                ),
            )
        } else {
            Err(Error::InvalidField)
        },
    }
}

impl Lyrics {
    /// Decodes the payload of a lyrics reply.
    pub fn from_payload(p: &Option<Json>) -> (r: Result<Option<Lyrics>, Error>)
        ensures
            r == spec_lyrics(*p),
    {
        match p {
            None => Ok(None),
            Some(j) => {
                if j.member("value").is_none() {
                    return Ok(None);
                }
                let title = j.str_field("title")?;
                let artist = j.str_field("artist")?;
                let value = j.str_field("value")?;
                Ok(Some(Lyrics { title, artist, value }))
            },
        }
    }
}

/// The request for the lyrics that match an artist and a title.
pub fn get_lyrics(artist: Option<&str>, title: Option<&str>) -> (r: Request)
    ensures
        r@.0 == "getLyrics"@,
        r@.1 == maybe_pair("artist"@, opt_str_view(artist)) + maybe_pair(
            "title"@,
            opt_str_view(title),
        ),
{
    let q = Query::new().maybe_arg("artist", owned(artist)).maybe_arg("title", owned(title));
    let r = Request::new("getLyrics", q);
    assert(r@.1 =~= maybe_pair("artist"@, opt_str_view(artist)) + maybe_pair(
        "title"@,
        opt_str_view(title),
    ));
    r
}


/// A streaming URL asked for without bitrate or format carries the song's
/// identifier and neither a `maxBitRate` nor a `format` parameter.
pub proof fn lemma_plain_stream_pairs(id: u64)
    ensures
        stream_pairs(id, None, None) == seq![("id"@, spec_decimal(id as nat))],
        forall|i: int|
            0 <= i < stream_pairs(id, None, None).len() ==> #[trigger] stream_pairs(
                id,
                None,
                None,
            )[i].0 != "maxBitRate"@ && stream_pairs(id, None, None)[i].0 != "format"@,
{
    assert(stream_pairs(id, None, None) =~= seq![("id"@, spec_decimal(id as nat))]);
    assert("id"@ != "maxBitRate"@) by {
        reveal_strlit("id");
        reveal_strlit("maxBitRate");
        assert("id"@.len() != "maxBitRate"@.len());
    }
    assert("id"@ != "format"@) by {
        reveal_strlit("id");
        reveal_strlit("format");
        assert("id"@.len() != "format"@.len());
    }
}

/// A song object whose fields all have their wire types (the optional ones absent,
/// null, or of their type) and whose identifiers are decimal decodes, and each
/// field of the song is the wire value, identifiers parsed.
pub proof fn lemma_valid_song_decodes(j: Json)
    requires
        song_wire_ok(j),
        spec_parse_id(str_field(j, "id"@)->0@) is Some,
        opt_id(opt_str_field(j, "albumId"@)->0) is Some,
        opt_id(opt_str_field(j, "artistId"@)->0) is Some,
        opt_id(opt_str_field(j, "coverArt"@)->0) is Some,
    ensures
        spec_song(j) == Ok::<Song, Error>(
            Song {
                id: spec_parse_id(str_field(j, "id"@)->0@)->0,
                title: str_field(j, "title"@)->0,
                album: opt_str_field(j, "album"@)->0,
                album_id: opt_id(opt_str_field(j, "albumId"@)->0)->0,
                artist: opt_str_field(j, "artist"@)->0,
                artist_id: opt_id(opt_str_field(j, "artistId"@)->0)->0,
                track: opt_u64_field(j, "track"@)->0,
                year: opt_u64_field(j, "year"@)->0,
                genre: opt_str_field(j, "genre"@)->0,
                cover_id: opt_id(opt_str_field(j, "coverArt"@)->0)->0,
                size: u64_field(j, "size"@)->0,
                duration: u64_field(j, "duration"@)->0,
                path: str_field(j, "path"@)->0,
                media_type: str_field(j, "type"@)->0,
            },
        ),
{
}

/// A song object whose `id` is not decimal fails with `InvalidId`, never with a
/// default identifier.
pub proof fn lemma_song_bad_id(j: Json)
    requires
        song_wire_ok(j),
        spec_parse_id(str_field(j, "id"@)->0@) is None,
    ensures
        spec_song(j) == Err::<Song, Error>(Error::InvalidId),
{
}

} // verus!
