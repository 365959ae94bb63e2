use sunk::album::Album;
use sunk::artist::{AlbumSource, Artist, ArtistInfo};
use sunk::error::Error;
use sunk::json::Json;
use sunk::song::{Lyrics, Song};

fn text(v: &str) -> Json {
    Json::Str(v.to_string())
}

fn obj(fields: Vec<(&str, Json)>) -> Json {
    Json::Object(fields.into_iter().map(|(k, v)| (k.to_string(), v)).collect())
}

fn raw_album() -> Json {
    obj(vec![
        ("id", text("1")),
        ("name", text("Bellevue")),
        ("artist", text("Misteur Valaire")),
        ("artistId", text("1")),
        ("coverArt", text("al-1")),
        ("songCount", Json::UInt(9)),
        ("duration", Json::UInt(1920)),
        ("playCount", Json::UInt(2223)),
        ("created", text("2017-03-12T11:07:25.000Z")),
        ("genre", text("(255)")),
    ])
}

fn raw_artist() -> Json {
    obj(vec![
        ("id", text("1")),
        ("name", text("Misteur Valaire")),
        ("coverArt", text("ar-1")),
        ("albumCount", Json::UInt(1)),
        ("album", Json::Array(vec![raw_album()])),
    ])
}

fn raw_song_fields() -> Vec<(&'static str, Json)> {
    vec![
        ("id", text("27")),
        ("parent", text("25")),
        ("isDir", Json::Bool(false)),
        ("title", text("Bellevue Avenue")),
        ("album", text("Bellevue")),
        ("artist", text("Misteur Valaire")),
        ("track", Json::UInt(1)),
        ("genre", text("(255)")),
        ("coverArt", text("25")),
        ("size", Json::UInt(5400185)),
        ("contentType", text("audio/mpeg")),
        ("suffix", text("mp3")),
        ("duration", Json::UInt(198)),
        ("bitRate", Json::UInt(216)),
        ("path", text("Misteur Valaire/Bellevue/01 - Misteur Valaire - Bellevue Avenue.mp3")),
        ("averageRating", Json::Fraction),
        ("playCount", Json::UInt(706)),
        ("created", text("2017-03-12T11:07:27.000Z")),
        ("starred", text("2017-06-01T19:48:25.635Z")),
        ("albumId", text("1")),
        ("artistId", text("1")),
        ("type", text("music")),
    ]
}

fn raw_song() -> Json {
    obj(raw_song_fields())
}

fn with_field(mut fields: Vec<(&'static str, Json)>, key: &'static str, v: Json) -> Json {
    for f in fields.iter_mut() {
        if f.0 == key {
            f.1 = v;
            return obj(fields);
        }
    }
    fields.push((key, v));
    obj(fields)
}

#[test]
fn parse_artist() {
    let parsed = Artist::from_json(&raw_artist()).unwrap();

    assert_eq!(parsed.id, 1);
    assert_eq!(parsed.name, String::from("Misteur Valaire"));
    assert_eq!(parsed.album_count, 1);
}

#[test]
fn parse_artist_deep() {
    let parsed = Artist::from_json(&raw_artist()).unwrap();

    assert_eq!(parsed.albums.len() as u64, parsed.album_count);
    assert_eq!(parsed.albums[0].id, 1);
    assert_eq!(parsed.albums[0].name, String::from("Bellevue"));
    assert_eq!(parsed.albums[0].song_count, 9);
}

#[test]
fn remote_artist_album_list() {
    let parsed = Artist::from_json(&raw_artist()).unwrap();
    let albums = match parsed.albums() {
        AlbumSource::Embedded(v) => v,
        AlbumSource::Fetch(_) => panic!("a complete album list needs no fetch"),
    };

    assert_eq!(albums[0].id, 1);
    assert_eq!(albums[0].name, String::from("Bellevue"));
    assert_eq!(albums[0].song_count, 9);
}

#[test]
fn parse_song() {
    let parsed = Song::from_json(&raw_song()).unwrap();

    assert_eq!(parsed.id, 27);
    assert_eq!(parsed.title, String::from("Bellevue Avenue"));
    assert_eq!(parsed.track, Some(1));
}

#[test]
fn song_optional_ids_parsed() {
    let parsed = Song::from_json(&raw_song()).unwrap();
    assert_eq!(parsed.album_id, Some(1));
    assert_eq!(parsed.artist_id, Some(1));
    assert_eq!(parsed.cover_id, Some(25));
    assert_eq!(parsed.year, None);
    assert_eq!(parsed.size, 5400185);
    assert_eq!(parsed.media_type, "music");
}

#[test]
fn artist_cover_id_kept() {
    let parsed = Artist::from_json(&raw_artist()).unwrap();
    assert_eq!(parsed.cover_id, Some(String::from("ar-1")));
}

#[test]
fn artist_without_album_list_has_none() {
    let j = obj(vec![
        ("id", text("4")),
        ("name", text("X")),
        ("albumCount", Json::UInt(2)),
    ]);
    let a = Artist::from_json(&j).unwrap();
    assert!(a.albums.is_empty());
    assert_eq!(a.cover_id, None);
}

#[test]
fn incomplete_albums_call_for_one_fetch() {
    let j = obj(vec![
        ("id", text("12")),
        ("name", text("X")),
        ("albumCount", Json::UInt(3)),
        ("album", Json::Array(vec![raw_album()])),
    ]);
    let a = Artist::from_json(&j).unwrap();
    match a.albums() {
        AlbumSource::Fetch(r) => {
            assert_eq!(r.operation, "getArtist");
            assert_eq!(r.query.pairs, vec![("id".to_string(), "12".to_string())]);
        }
        AlbumSource::Embedded(_) => panic!("an incomplete list must be fetched"),
    }
}

#[test]
fn artist_non_numeric_id_is_invalid_id() {
    let j = obj(vec![
        ("id", text("ar-1")),
        ("name", text("X")),
        ("albumCount", Json::UInt(0)),
    ]);
    assert_eq!(Artist::from_json(&j).unwrap_err(), Error::InvalidId);
}

#[test]
fn song_non_numeric_id_is_invalid_id() {
    let j = with_field(raw_song_fields(), "id", text("abc"));
    assert_eq!(Song::from_json(&j).unwrap_err(), Error::InvalidId);
    let j = with_field(raw_song_fields(), "albumId", text("1x"));
    assert_eq!(Song::from_json(&j).unwrap_err(), Error::InvalidId);
}

#[test]
fn song_id_beyond_u64_is_invalid_id() {
    let j = with_field(raw_song_fields(), "id", text("18446744073709551616"));
    assert_eq!(Song::from_json(&j).unwrap_err(), Error::InvalidId);
    let j = with_field(raw_song_fields(), "id", text("18446744073709551615"));
    assert_eq!(Song::from_json(&j).unwrap().id, u64::MAX);
}

#[test]
fn song_missing_field_is_invalid_field() {
    let fields: Vec<(&str, Json)> = raw_song_fields().into_iter().filter(|f| f.0 != "path").collect();
    assert_eq!(Song::from_json(&obj(fields)).unwrap_err(), Error::InvalidField);
    let j = with_field(raw_song_fields(), "size", text("12"));
    assert_eq!(Song::from_json(&j).unwrap_err(), Error::InvalidField);
}

#[test]
fn bad_embedded_album_fails_artist() {
    let bad_album = obj(vec![("id", text("x")), ("name", text("B")), ("songCount", Json::UInt(1)), ("duration", Json::UInt(1))]);
    let j = obj(vec![
        ("id", text("1")),
        ("name", text("X")),
        ("albumCount", Json::UInt(1)),
        ("album", Json::Array(vec![bad_album])),
    ]);
    assert_eq!(Artist::from_json(&j).unwrap_err(), Error::InvalidId);
}

#[test]
fn album_decodes_alone() {
    let a = Album::from_json(&raw_album()).unwrap();
    assert_eq!(a.artist_id, Some(1));
    assert_eq!(a.cover_id, Some(String::from("al-1")));
    assert_eq!(a.duration, 1920);
}

#[test]
fn lyrics_present_and_absent() {
    let p = Some(obj(vec![("artist", text("A")), ("title", text("T")), ("value", text("la la"))]));
    let l = Lyrics::from_payload(&p).unwrap().unwrap();
    assert_eq!(l.value, "la la");
    assert_eq!(l.title, "T");
    let p = Some(obj(vec![]));
    assert!(Lyrics::from_payload(&p).unwrap().is_none());
    let p = Some(obj(vec![("value", text("v"))]));
    assert_eq!(Lyrics::from_payload(&p).unwrap_err(), Error::InvalidField);
}

#[test]
fn artist_info_decodes_similar_artists() {
    let p = Some(obj(vec![
        ("biography", text("bio")),
        ("musicBrainzId", text("mb")),
        ("lastFmUrl", text("lf")),
        ("smallImageUrl", text("s")),
        ("mediumImageUrl", text("m")),
        ("largeImageUrl", text("l")),
        ("similarArtist", Json::Array(vec![obj(vec![("id", text("7")), ("name", text("Y"))])])),
    ]));
    let info = ArtistInfo::from_payload(&p).unwrap();
    assert_eq!(info.similar_artists, vec![(7, String::from("Y"))]);
    assert_eq!(info.image_urls.1, "m");
}

#[test]
fn artist_info_bad_similar_id() {
    let p = Some(obj(vec![
        ("biography", text("bio")),
        ("musicBrainzId", text("mb")),
        ("lastFmUrl", text("lf")),
        ("smallImageUrl", text("s")),
        ("mediumImageUrl", text("m")),
        ("largeImageUrl", text("l")),
        ("similarArtist", Json::Array(vec![obj(vec![("id", text("ar-7")), ("name", text("Y"))])])),
    ]));
    assert_eq!(ArtistInfo::from_payload(&p).unwrap_err(), Error::InvalidId);
}

#[test]
fn cover_art_requests() {
    let a = Artist::from_json(&raw_artist()).unwrap();
    let r = a.cover_art(Some(300)).unwrap();
    assert_eq!(r.operation, "getCoverArt");
    assert_eq!(r.query.pairs, vec![("id".to_string(), "ar-1".to_string()), ("size".to_string(), "300".to_string())]);
    let s = Song::from_json(&raw_song()).unwrap();
    let r = s.cover_art(None).unwrap();
    assert_eq!(r.query.pairs, vec![("id".to_string(), "25".to_string())]);
    let bare = Artist { id: 1, name: "X".to_string(), cover_id: None, albums: vec![], album_count: 0 };
    assert!(bare.cover_art(None).is_none());
}

#[test]
fn fetched_albums_from_payload() {
    let albums = Artist::fetched_albums(&Some(raw_artist())).unwrap();
    assert_eq!(albums.len(), 1);
    assert_eq!(albums[0].name, "Bellevue");
    assert_eq!(Artist::fetched_albums(&None).unwrap_err(), Error::InvalidField);
    assert_eq!(Song::from_payload(&None).unwrap_err(), Error::InvalidField);
    assert_eq!(Song::from_payload(&Some(raw_song())).unwrap().id, 27);
}

#[test]
fn null_album_list_is_invalid_field() {
    let j = obj(vec![
        ("id", text("1")),
        ("name", text("X")),
        ("albumCount", Json::UInt(0)),
        ("album", Json::Null),
    ]);
    assert_eq!(Artist::from_json(&j).unwrap_err(), Error::InvalidField);
}

#[test]
fn null_similar_artist_list_is_invalid_field() {
    let p = Some(obj(vec![
        ("biography", text("bio")),
        ("musicBrainzId", text("mb")),
        ("lastFmUrl", text("lf")),
        ("smallImageUrl", text("s")),
        ("mediumImageUrl", text("m")),
        ("largeImageUrl", text("l")),
        ("similarArtist", Json::Null),
    ]));
    assert_eq!(ArtistInfo::from_payload(&p).unwrap_err(), Error::InvalidField);
}
