//! Albums, as they are embedded in an artist.
use vstd::prelude::*;
use crate::error::Error;
use crate::json::{
    opt_id, opt_str_field, opt_u64_field, parse_optional_id, parse_required_id, str_field,
    u64_field, Json,
};
use crate::text::spec_parse_id;

verus! {

/// An album exactly as the server writes it.
#[derive(Debug)]
pub struct AlbumWire {
    pub id: String,
    pub name: String,
    pub artist: Option<String>,
    pub artist_id: Option<String>,
    pub cover_art: Option<String>,
    pub song_count: u64,
    pub duration: u64,
    pub year: Option<u64>,
    pub genre: Option<String>,
}

/// An album.
#[derive(Debug)]
pub struct Album {
    pub id: u64,
    pub name: String,
    pub artist: Option<String>,
    pub artist_id: Option<u64>,
    pub cover_id: Option<String>,
    pub song_count: u64,
    pub duration: u64,
    pub year: Option<u64>,
    pub genre: Option<String>,
}

pub open spec fn album_wire_ok(j: Json) -> bool {
    &&& str_field(j, "id"@) is Some
    &&& str_field(j, "name"@) is Some
    &&& opt_str_field(j, "artist"@) is Some
    &&& opt_str_field(j, "artistId"@) is Some
    &&& opt_str_field(j, "coverArt"@) is Some
    &&& u64_field(j, "songCount"@) is Some
    &&& u64_field(j, "duration"@) is Some
    &&& opt_u64_field(j, "year"@) is Some
    &&& opt_str_field(j, "genre"@) is Some
}

/// The wire shape of an album object: every field present with its type, or
/// `InvalidField`.
pub open spec fn spec_album_wire(j: Json) -> Result<AlbumWire, Error> {
    if album_wire_ok(j) {
        Ok(
            AlbumWire {
                id: str_field(j, "id"@)->0,
                name: str_field(j, "name"@)->0,
                artist: opt_str_field(j, "artist"@)->0,
                artist_id: opt_str_field(j, "artistId"@)->0,
                cover_art: opt_str_field(j, "coverArt"@)->0,
                song_count: u64_field(j, "songCount"@)->0,
                duration: u64_field(j, "duration"@)->0,
                year: opt_u64_field(j, "year"@)->0,
                genre: opt_str_field(j, "genre"@)->0,
            },
        )
    } else {
        Err(Error::InvalidField)
    }
}

/// The album that a wire shape denotes: its identifiers parsed, or `InvalidId`.
pub open spec fn spec_album_from_wire(w: AlbumWire) -> Result<Album, Error> {
    if spec_parse_id(w.id@) is Some && opt_id(w.artist_id) is Some {
        Ok(
            Album {
                id: spec_parse_id(w.id@)->0,
                name: w.name,
                artist: w.artist,
                artist_id: opt_id(w.artist_id)->0,
                cover_id: w.cover_art,
                song_count: w.song_count,
                duration: w.duration,
                year: w.year,
                genre: w.genre,
            },
        )
    } else {
        Err(Error::InvalidId)
    }
}

/// The album that a JSON value denotes.
pub open spec fn spec_album(j: Json) -> Result<Album, Error> {
    match spec_album_wire(j) {
        Ok(w) => spec_album_from_wire(w),
        Err(e) => Err(e),
    }
}

impl AlbumWire {
    /// Reads the wire shape of an album.
    pub fn from_json(j: &Json) -> (r: Result<AlbumWire, Error>)
        ensures
            r == spec_album_wire(*j),
    {
        let id = j.str_field("id");
        let name = j.str_field("name");
        let artist = j.opt_str_field("artist");
        let artist_id = j.opt_str_field("artistId");
        let cover_art = j.opt_str_field("coverArt");
        let song_count = j.u64_field("songCount");
        let duration = j.u64_field("duration");
        let year = j.opt_u64_field("year");
        let genre = j.opt_str_field("genre");
        match (id, name, artist, artist_id, cover_art, song_count, duration, year, genre) {
            (
                Ok(id),
                Ok(name),
                Ok(artist),
                Ok(artist_id),
                Ok(cover_art),
                Ok(song_count),
                Ok(duration),
                Ok(year),
                Ok(genre),
            ) => Ok(
                AlbumWire {
                    id,
                    name,
                    artist,
                    artist_id,
                    cover_art,
                    song_count,
                    duration,
                    year,
                    genre,
                },
            ),
            _ => Err(Error::InvalidField),
        }
    }
}

impl Album {
    /// Validates a wire shape.
    pub fn from_wire(w: AlbumWire) -> (r: Result<Album, Error>)
        ensures
            r == spec_album_from_wire(w),
    {
        let id = parse_required_id(&w.id);
        let artist_id = parse_optional_id(&w.artist_id);
        match (id, artist_id) {
            (Ok(id), Ok(artist_id)) => Ok(
                Album {
                    id,
                    name: w.name,
                    artist: w.artist,
                    artist_id,
                    cover_id: w.cover_art,
                    song_count: w.song_count,
                    duration: w.duration,
                    year: w.year,
                    genre: w.genre,
                },
            ),
            _ => Err(Error::InvalidId),
        }
    }

    /// Decodes an album object.
    pub fn from_json(j: &Json) -> (r: Result<Album, Error>)
        ensures
            r == spec_album(*j),
    {
        match AlbumWire::from_json(j) {
            Ok(w) => Album::from_wire(w),
            Err(e) => Err(e),
        }
    }

    /// A copy of this album.
    pub fn duplicate(&self) -> (r: Album)
        ensures
            r == *self,
    {
        Album {
            id: self.id,
            name: self.name.clone(),
            artist: match &self.artist {
                Some(s) => Some(s.clone()),
                None => None,
            },
            artist_id: self.artist_id,
            cover_id: match &self.cover_id {
                Some(s) => Some(s.clone()),
                None => None,
            },
            song_count: self.song_count,
            duration: self.duration,
            year: self.year,
            genre: match &self.genre {
                Some(s) => Some(s.clone()),
                None => None,
            },
        }
    }
}

} // verus!
