//! Artists, their embedded albums, and artist information.
use vstd::prelude::*;
use crate::album::{spec_album, Album};
use crate::client::Request;
use crate::error::Error;
use crate::json::{member, opt_str_field, str_field, u64_field, Json};
use crate::query::{bool_text, opt_bool, opt_decimal, opt_decimal_view, Query};
use crate::text::{decimal, spec_decimal, spec_parse_id};

verus! {

/// The albums that a sequence of album objects denotes; the first failure otherwise.
pub open spec fn spec_albums(items: Seq<Json>) -> Result<Seq<Album>, Error>
    decreases items.len(),
{
    if items.len() == 0 {
        Ok(Seq::empty())
    } else {
        match spec_albums(items.drop_last()) {
            Ok(s) => match spec_album(items.last()) {
                Ok(a) => Ok(s.push(a)),
                Err(e) => Err(e),
            },
            Err(e) => Err(e),
        }
    }
}

/// The `album` list of an artist object: empty when the key is absent; any
/// value but an array, `null` included, is `InvalidField`.
pub open spec fn spec_album_list(j: Json) -> Result<Seq<Album>, Error> {
    match member(j, "album"@) {
        None => Ok(Seq::empty()),
        Some(Json::Array(items)) => spec_albums(items@),
        _ => Err(Error::InvalidField),
    }
}

/// An artist exactly as the server writes it.
#[derive(Debug)]
pub struct ArtistWire {
    pub id: String,
    pub name: String,
    pub cover_art: Option<String>,
    pub album_count: u64,
    pub album: Vec<Album>,
}

/// An artist, with the albums the server embedded and the number it has in all.
#[derive(Debug)]
pub struct Artist {
    pub id: u64,
    pub name: String,
    pub cover_id: Option<String>,
    pub albums: Vec<Album>,
    pub album_count: u64,
}

/// What an artist is, with its albums as a sequence.
pub ghost struct ArtistModel {
    pub id: u64,
    pub name: String,
    pub cover_id: Option<String>,
    pub albums: Seq<Album>,
    pub album_count: u64,
}

/// What an artist's wire shape is, with its albums as a sequence.
pub ghost struct ArtistWireModel {
    pub id: String,
    pub name: String,
    pub cover_art: Option<String>,
    pub album_count: u64,
    pub album: Seq<Album>,
}

impl View for Artist {
    type V = ArtistModel;

    open spec fn view(&self) -> ArtistModel {
        ArtistModel {
            id: self.id,
            name: self.name,
            cover_id: self.cover_id,
            albums: self.albums@,
            album_count: self.album_count,
        }
    }
}

impl View for ArtistWire {
    type V = ArtistWireModel;

    open spec fn view(&self) -> ArtistWireModel {
        ArtistWireModel {
            id: self.id,
            name: self.name,
            cover_art: self.cover_art,
            album_count: self.album_count,
            album: self.album@,
        }
    }
}

pub open spec fn artist_fields_ok(j: Json) -> bool {
    &&& str_field(j, "id"@) is Some
    &&& str_field(j, "name"@) is Some
    &&& opt_str_field(j, "coverArt"@) is Some
    &&& u64_field(j, "albumCount"@) is Some
}

/// The wire shape of an artist object: its own fields first, then its albums,
/// each decoded in full.
pub open spec fn spec_artist_wire(j: Json) -> Result<ArtistWireModel, Error> {
    if !artist_fields_ok(j) {
        Err(Error::InvalidField)
    } else {
        match spec_album_list(j) {
            Ok(albums) => Ok(
                ArtistWireModel {
                    id: str_field(j, "id"@)->0,
                    name: str_field(j, "name"@)->0,
                    cover_art: opt_str_field(j, "coverArt"@)->0,
                    album_count: u64_field(j, "albumCount"@)->0,
                    album: albums,
                },
            ),
            Err(e) => Err(e),
        }
    }
}

/// The artist that a wire shape denotes.
pub open spec fn spec_artist_from_wire(w: ArtistWireModel) -> Result<ArtistModel, Error> {
    match spec_parse_id(w.id@) {
        Some(id) => Ok(
            ArtistModel {
                id,
                name: w.name,
                cover_id: w.cover_art,
                albums: w.album,
                album_count: w.album_count,
            },
        ),
        None => Err(Error::InvalidId),
    }
}

/// The artist that a JSON value denotes.
pub open spec fn spec_artist(j: Json) -> Result<ArtistModel, Error> {
    match spec_artist_wire(j) {
        Ok(w) => spec_artist_from_wire(w),
        Err(e) => Err(e),
    }
}

/// Decodes a list of album objects, stopping at the first failure.
pub fn albums_from_json(items: &Vec<Json>) -> (r: Result<Vec<Album>, Error>)
    ensures
        match (r, spec_albums(items@)) {
            (Ok(v), Ok(s)) => v@ == s,
            (Err(e), Err(f)) => e == f,
            _ => false,
        },
{
    let mut out: Vec<Album> = Vec::new();
    let mut i: usize = 0;
    while i < items.len()
        invariant
            i <= items@.len(),
            spec_albums(items@.subrange(0, i as int)) == Ok::<Seq<Album>, Error>(out@),
        decreases items.len() - i,
    {
        assert(items@.subrange(0, i + 1).drop_last() =~= items@.subrange(0, i as int));
        match Album::from_json(&items[i]) {
            Ok(a) => out.push(a),
            Err(e) => {
                proof {
                    lemma_albums_failure_stays(items@, i as int + 1);
                }
                return Err(e);
            },
        }
        i = i + 1;
    }
    assert(items@.subrange(0, items@.len() as int) =~= items@);
    Ok(out)
}

/// A failure on a prefix of the items is the failure of the whole sequence.
proof fn lemma_albums_failure_stays(items: Seq<Json>, i: int)
    requires
        0 <= i <= items.len(),
        spec_albums(items.subrange(0, i)) is Err,
    ensures
        spec_albums(items) == spec_albums(items.subrange(0, i)),
    decreases items.len() - i,
{
    if i < items.len() {
        assert(items.subrange(0, i + 1).drop_last() =~= items.subrange(0, i));
        lemma_albums_failure_stays(items, i + 1);
    } else {
        assert(items.subrange(0, i) =~= items);
    }
}

fn album_list_from_json(j: &Json) -> (r: Result<Vec<Album>, Error>)
    ensures
        match (r, spec_album_list(*j)) {
            (Ok(v), Ok(s)) => v@ == s,
            (Err(e), Err(f)) => e == f,
            _ => false,
        },
{
    match j.member("album") {
        None => Ok(Vec::new()),
        Some(Json::Array(items)) => albums_from_json(items),
        _ => Err(Error::InvalidField),
    }
}

impl ArtistWire {
    /// Reads the wire shape of an artist.
    pub fn from_json(j: &Json) -> (r: Result<ArtistWire, Error>)
        ensures
            match (r, spec_artist_wire(*j)) {
                (Ok(w), Ok(m)) => w@ == m,
                (Err(e), Err(f)) => e == f,
                _ => false,
            },
    {
        let id = j.str_field("id");
        let name = j.str_field("name");
        let cover_art = j.opt_str_field("coverArt");
        let album_count = j.u64_field("albumCount");
        match (id, name, cover_art, album_count) {
            (Ok(id), Ok(name), Ok(cover_art), Ok(album_count)) => match album_list_from_json(j) {
                Ok(album) => Ok(ArtistWire { id, name, cover_art, album_count, album }),
                Err(e) => Err(e),
            },
            _ => Err(Error::InvalidField),
        }
    }
}

/// What accessing an artist's full album list calls for.
pub enum AlbumSource {
    /// The embedded list is complete.
    Embedded(Vec<Album>),
    /// The embedded list is incomplete: the artist must be fetched again with this request.
    Fetch(Request),
}

/// The request that fetches an artist.
pub open spec fn artist_request(id: u64) -> (Seq<char>, Seq<(Seq<char>, Seq<char>)>) {
    ("getArtist"@, seq![("id"@, spec_decimal(id as nat))])
}

/// Whether an artist's embedded albums are complete, by their count.
pub open spec fn albums_complete(a: ArtistModel) -> bool {
    a.albums.len() == a.album_count
}

/// The request for a cover image.
pub open spec fn cover_request(id: Seq<char>, size: Option<u64>) -> (
    Seq<char>,
    Seq<(Seq<char>, Seq<char>)>,
) {
    (
        "getCoverArt"@,
        seq![("id"@, id)] + match opt_decimal_view(size) {
            Some(s) => seq![("size"@, s)],
            None => Seq::empty(),
        },
    )
}

/// The request for the cover image `id`, scaled to `size` where given.
pub fn cover_art_request(id: String, size: Option<u64>) -> (r: Request)
    ensures
        r@ == cover_request(id@, size),
{
    let q = Query::with("id", id).maybe_arg("size", opt_decimal(size));
    let r = Request::new("getCoverArt", q);
    assert(r@.1 =~= cover_request(id@, size).1);
    r
}

/// The request for an artist.
pub fn get_artist(id: u64) -> (r: Request)
    ensures
        r@ == artist_request(id),
{
    Request::new("getArtist", Query::with("id", decimal(id)))
}

impl Artist {
    /// Validates a wire shape.
    pub fn from_wire(w: ArtistWire) -> (r: Result<Artist, Error>)
        ensures
            match (r, spec_artist_from_wire(w@)) {
                (Ok(a), Ok(m)) => a@ == m,
                (Err(e), Err(f)) => e == f,
                _ => false,
            },
    {
        match crate::text::parse_id(w.id.as_str()) {
            Some(id) => Ok(
                Artist {
                    id,
                    name: w.name,
                    cover_id: w.cover_art,
                    albums: w.album,
                    album_count: w.album_count,
                },
            ),
            None => Err(Error::InvalidId),
        }
    }

    /// Decodes an artist object.
    pub fn from_json(j: &Json) -> (r: Result<Artist, Error>)
        ensures
            match (r, spec_artist(*j)) {
                (Ok(a), Ok(m)) => a@ == m,
                (Err(e), Err(f)) => e == f,
                _ => false,
            },
    {
        match ArtistWire::from_json(j) {
            Ok(w) => Artist::from_wire(w),
            Err(e) => Err(e),
        }
    }

    /// Decodes the payload of a `getArtist` reply; an absent payload is `InvalidField`.
    pub fn from_payload(p: &Option<Json>) -> (r: Result<Artist, Error>)
        ensures
            match (r, *p) {
                (Ok(a), Some(j)) => spec_artist(j) == Ok::<ArtistModel, Error>(a@),
                (Err(e), Some(j)) => spec_artist(j) == Err::<ArtistModel, Error>(e),
                (Err(e), None) => e == Error::InvalidField,
                (Ok(_), None) => false,
            },
    {
        match p {
            Some(j) => Artist::from_json(j),
            None => Err(Error::InvalidField),
        }
    }

    /// The artist's full album list: the embedded albums when their number equals
    /// `album_count`; otherwise a fresh fetch of the artist is called for.
    pub fn albums(&self) -> (r: AlbumSource)
        ensures
            match r {
                AlbumSource::Embedded(v) => albums_complete(self@) && v@ == self.albums@,
                AlbumSource::Fetch(q) => !albums_complete(self@) && q@ == artist_request(self.id),
            },
    {
        if self.albums.len() as u64 == self.album_count {
            let mut out: Vec<Album> = Vec::new();
            let mut i: usize = 0;
            while i < self.albums.len()
                invariant
                    i <= self.albums@.len(),
                    out@ == self.albums@.subrange(0, i as int),
                decreases self.albums.len() - i,
            {
                out.push(self.albums[i].duplicate());
                assert(out@ =~= self.albums@.subrange(0, i + 1));
                i = i + 1;
            }
            assert(out@ =~= self.albums@);
            AlbumSource::Embedded(out)
        } else {
            AlbumSource::Fetch(get_artist(self.id))
        }
    }

    /// The albums of a re-fetched artist: the result that completes `albums`
    /// when it called for a fetch.
    pub fn fetched_albums(p: &Option<Json>) -> (r: Result<Vec<Album>, Error>)
        ensures
            match (r, *p) {
                (Ok(v), Some(j)) => spec_artist(j) is Ok && v@ == spec_artist(j)->Ok_0.albums,
                (Err(e), Some(j)) => spec_artist(j) == Err::<ArtistModel, Error>(e),
                (Err(e), None) => e == Error::InvalidField,
                (Ok(_), None) => false,
            },
    {
        match Artist::from_payload(p) {
            Ok(a) => Ok(a.albums),
            Err(e) => Err(e),
        }
    }

    /// The request for this artist's cover art, scaled to `size` where given;
    /// `None` when the artist has no cover.
    pub fn cover_art(&self, size: Option<u64>) -> (r: Option<Request>)
        ensures
            match r {
                Some(q) => self.cover_id is Some && q@ == cover_request(
                    self.cover_id->0@,
                    size,
                ),
                None => self.cover_id is None,
            },
    {
        match &self.cover_id {
            Some(c) => Some(cover_art_request(c.clone(), size)),
            None => None,
        }
    }

    /// The request for this artist's information.
    pub fn info(&self, count: Option<u64>, include_not_present: Option<bool>) -> (r: Request)
        ensures
            r@.0 == "getArtistInfo"@,
            r@.1 == seq![("id"@, spec_decimal(self.id as nat))] + match opt_decimal_view(count) {
                Some(c) => seq![("count"@, c)],
                None => Seq::empty(),
            } + match include_not_present {
                Some(b) => seq![("includeNotPresent"@, bool_text(b))],
                None => Seq::empty(),
            },
    {
        let q = Query::with("id", decimal(self.id)).maybe_arg("count", opt_decimal(count)).maybe_arg(
            "includeNotPresent",
            opt_bool(include_not_present),
        );
        let r = Request::new("getArtistInfo", q);
        assert(r@.1 =~= seq![("id"@, spec_decimal(self.id as nat))] + match opt_decimal_view(
            count,
        ) {
            Some(c) => seq![("count"@, c)],
            None => Seq::empty(),
        } + match include_not_present {
            Some(b) => seq![("includeNotPresent"@, bool_text(b))],
            None => Seq::empty(),
        });
        r
    }
}

/// Information about an artist.
#[derive(Debug)]
pub struct ArtistInfo {
    pub biography: String,
    pub musicbrainz_id: String,
    pub lastfm_url: String,
    /// Small, medium and large image URLs.
    pub image_urls: (String, String, String),
    /// Identifier and name of each similar artist, in the server's order.
    pub similar_artists: Vec<(u64, String)>,
}

/// What artist information is, with the similar artists as a sequence.
pub ghost struct ArtistInfoModel {
    pub biography: String,
    pub musicbrainz_id: String,
    pub lastfm_url: String,
    pub image_urls: (String, String, String),
    pub similar_artists: Seq<(u64, String)>,
}

impl View for ArtistInfo {
    type V = ArtistInfoModel;

    open spec fn view(&self) -> ArtistInfoModel {
        ArtistInfoModel {
            biography: self.biography,
            musicbrainz_id: self.musicbrainz_id,
            lastfm_url: self.lastfm_url,
            image_urls: self.image_urls,
            similar_artists: self.similar_artists@,
        }
    }
}

/// One similar artist: a decimal identifier and a name.
pub open spec fn spec_similar(j: Json) -> Result<(u64, String), Error> {
    if str_field(j, "id"@) is Some && str_field(j, "name"@) is Some {
        match spec_parse_id(str_field(j, "id"@)->0@) {
            Some(id) => Ok((id, str_field(j, "name"@)->0)),
            None => Err(Error::InvalidId),
        }
    } else {
        Err(Error::InvalidField)
    }
}

/// The similar artists that a sequence of objects denotes; the first failure otherwise.
pub open spec fn spec_similars(items: Seq<Json>) -> Result<Seq<(u64, String)>, Error>
    decreases items.len(),
{
    if items.len() == 0 {
        Ok(Seq::empty())
    } else {
        match spec_similars(items.drop_last()) {
            Ok(s) => match spec_similar(items.last()) {
                Ok(a) => Ok(s.push(a)),
                Err(e) => Err(e),
            },
            Err(e) => Err(e),
        }
    }
}

pub open spec fn info_fields_ok(j: Json) -> bool {
    &&& str_field(j, "biography"@) is Some
    &&& str_field(j, "musicBrainzId"@) is Some
    &&& str_field(j, "lastFmUrl"@) is Some
    &&& str_field(j, "smallImageUrl"@) is Some
    &&& str_field(j, "mediumImageUrl"@) is Some
    &&& str_field(j, "largeImageUrl"@) is Some
}

/// The artist information that a payload denotes. The `similarArtist` list is
/// empty when the key is absent, `InvalidField` for any value but an array; one similar artist with a non-decimal identifier
/// fails the whole decode.
pub open spec fn spec_artist_info(p: Option<Json>) -> Result<ArtistInfoModel, Error> {
    match p {
        None => Err(Error::InvalidField),
        Some(j) => if !info_fields_ok(j) {
            Err(Error::InvalidField)
        } else {
            let similar = match member(j, "similarArtist"@) {
                None => Ok(Seq::empty()),
                Some(Json::Array(items)) => spec_similars(items@),
                _ => Err(Error::InvalidField),
            };
            match similar {
                Ok(s) => Ok(
                    ArtistInfoModel {
                        biography: str_field(j, "biography"@)->0,
                        musicbrainz_id: str_field(j, "musicBrainzId"@)->0,
                        lastfm_url: str_field(j, "lastFmUrl"@)->0,
                        image_urls: (
                            str_field(j, "smallImageUrl"@)->0,
                            str_field(j, "mediumImageUrl"@)->0,
                            str_field(j, "largeImageUrl"@)->0,
                        ),
                        similar_artists: s,
                    },
                ),
                Err(e) => Err(e),
            }
        },
    }
}

fn similar_from_json(j: &Json) -> (r: Result<(u64, String), Error>)
    ensures
        r == spec_similar(*j),
{
    let id = j.str_field("id");
    let name = j.str_field("name");
    match (id, name) {
        (Ok(id), Ok(name)) => match crate::text::parse_id(id.as_str()) {
            Some(n) => Ok((n, name)),
            None => Err(Error::InvalidId),
        },
        _ => Err(Error::InvalidField),
    }
}

proof fn lemma_similars_failure_stays(items: Seq<Json>, i: int)
    requires
        0 <= i <= items.len(),
        spec_similars(items.subrange(0, i)) is Err,
    ensures
        spec_similars(items) == spec_similars(items.subrange(0, i)),
    decreases items.len() - i,
{
    if i < items.len() {
        assert(items.subrange(0, i + 1).drop_last() =~= items.subrange(0, i));
        lemma_similars_failure_stays(items, i + 1);
    } else {
        assert(items.subrange(0, i) =~= items);
    }
}

fn similars_from_json(items: &Vec<Json>) -> (r: Result<Vec<(u64, String)>, Error>)
    ensures
        match (r, spec_similars(items@)) {
            (Ok(v), Ok(s)) => v@ == s,
            (Err(e), Err(f)) => e == f,
            _ => false,
        },
{
    let mut out: Vec<(u64, String)> = Vec::new();
    let mut i: usize = 0;
    while i < items.len()
        invariant
            i <= items@.len(),
            spec_similars(items@.subrange(0, i as int)) == Ok::<Seq<(u64, String)>, Error>(out@),
        decreases items.len() - i,
    {
        assert(items@.subrange(0, i + 1).drop_last() =~= items@.subrange(0, i as int));
        match similar_from_json(&items[i]) {
            Ok(a) => out.push(a),
            Err(e) => {
                proof {
                    lemma_similars_failure_stays(items@, i as int + 1);
                }
                return Err(e);
            },
        }
        i = i + 1;
    }
    assert(items@.subrange(0, items@.len() as int) =~= items@);
    Ok(out)
}

impl ArtistInfo {
    /// Decodes the payload of a `getArtistInfo` reply.
    pub fn from_payload(p: &Option<Json>) -> (r: Result<ArtistInfo, Error>)
        ensures
            match (r, spec_artist_info(*p)) {
                (Ok(a), Ok(m)) => a@ == m,
                (Err(e), Err(f)) => e == f,
                _ => false,
            },
    {
        let j = match p {
            Some(j) => j,
            None => return Err(Error::InvalidField),
        };
        let biography = j.str_field("biography");
        let musicbrainz_id = j.str_field("musicBrainzId");
        let lastfm_url = j.str_field("lastFmUrl");
        let small = j.str_field("smallImageUrl");
        let medium = j.str_field("mediumImageUrl");
        let large = j.str_field("largeImageUrl");
        match (biography, musicbrainz_id, lastfm_url, small, medium, large) {
            (Ok(biography), Ok(musicbrainz_id), Ok(lastfm_url), Ok(small), Ok(medium), Ok(large)) => {
                let similar = match j.member("similarArtist") {
                    None => Ok(Vec::new()),
                    Some(Json::Array(items)) => similars_from_json(items),
                    _ => Err(Error::InvalidField),
                };
                match similar {
                    Ok(similar_artists) => Ok(
                        ArtistInfo {
                            biography,
                            musicbrainz_id,
                            lastfm_url,
                            image_urls: (small, medium, large),
                            similar_artists,
                        },
                    ),
                    Err(e) => Err(e),
                }
            },
            _ => Err(Error::InvalidField),
        }
    }
}


/// An artist object whose fields have their wire types, whose albums decode and
/// whose identifier is decimal decodes to those values.
pub proof fn lemma_valid_artist_decodes(j: Json)
    requires
        artist_fields_ok(j),
        spec_album_list(j) is Ok,
        spec_parse_id(str_field(j, "id"@)->0@) is Some,
    ensures
        spec_artist(j) == Ok::<ArtistModel, Error>(
            ArtistModel {
                id: spec_parse_id(str_field(j, "id"@)->0@)->0,
                name: str_field(j, "name"@)->0,
                cover_id: opt_str_field(j, "coverArt"@)->0,
                albums: spec_album_list(j)->Ok_0,
                album_count: u64_field(j, "albumCount"@)->0,
            },
        ),
{
}

/// An artist object whose `id` is not decimal fails with `InvalidId`.
pub proof fn lemma_artist_bad_id(j: Json)
    requires
        artist_fields_ok(j),
        spec_album_list(j) is Ok,
        spec_parse_id(str_field(j, "id"@)->0@) is None,
    ensures
        spec_artist(j) == Err::<ArtistModel, Error>(Error::InvalidId),
{
}

} // verus!
