use sunk::artist::{get_artist, Artist};
use sunk::client::Client;
use sunk::envelope::{decode, Envelope};
use sunk::error::Error;
use sunk::json::Json;
use sunk::query::{serialize_pairs, Query};
use sunk::song::{get_lyrics, get_random_songs, get_songs_in_genre, songs_from_payload, AudioFormat, SearchPage, Song};
use sunk::text::{decimal, parse_id};

fn text(v: &str) -> Json {
    Json::Str(v.to_string())
}

fn obj(fields: Vec<(&str, Json)>) -> Json {
    Json::Object(fields.into_iter().map(|(k, v)| (k.to_string(), v)).collect())
}

fn client(base: &str) -> Client {
    Client {
        base_url: base.to_string(),
        user: "admin".to_string(),
        password: "p w".to_string(),
        version: "1.14.0".to_string(),
        client_name: "sunk".to_string(),
    }
}

fn pairs(v: &[(&str, &str)]) -> Vec<(String, String)> {
    v.iter().map(|(k, x)| (k.to_string(), x.to_string())).collect()
}

fn song_with_id(id: u64) -> Song {
    Song {
        id,
        title: "T".to_string(),
        album: None,
        album_id: None,
        artist: None,
        artist_id: None,
        track: None,
        year: None,
        genre: None,
        cover_id: None,
        size: 0,
        duration: 0,
        path: "p".to_string(),
        media_type: "music".to_string(),
    }
}

#[test]
fn decimal_text() {
    assert_eq!(decimal(0), "0");
    assert_eq!(decimal(27), "27");
    assert_eq!(decimal(u64::MAX), "18446744073709551615");
}

#[test]
fn parse_id_cases() {
    assert_eq!(parse_id("27"), Some(27));
    assert_eq!(parse_id("007"), Some(7));
    assert_eq!(parse_id(""), None);
    assert_eq!(parse_id("-1"), None);
    assert_eq!(parse_id("1 "), None);
    assert_eq!(parse_id("99999999999999999999"), None);
}

#[test]
fn maybe_arg_none_adds_nothing() {
    let q = Query::new().arg("id", "1".to_string()).maybe_arg("format", None).build();
    assert_eq!(q, pairs(&[("id", "1")]));
}

#[test]
fn maybe_arg_some_adds_one_pair() {
    let q = Query::new().maybe_arg("format", Some("mp3".to_string())).build();
    assert_eq!(q, pairs(&[("format", "mp3")]));
}

#[test]
fn maybe_arg_list_repeats_key_in_order() {
    let q = Query::with("id", "3".to_string()).maybe_arg_list("bitrate", Some(vec![128, 64])).build();
    assert_eq!(q, pairs(&[("id", "3"), ("bitrate", "128"), ("bitrate", "64")]));
    let q = Query::new().maybe_arg_list("bitrate", Some(vec![])).maybe_arg_list("x", None).build();
    assert!(q.is_empty());
}

#[test]
fn building_twice_serializes_identically() {
    let make = || Query::new().arg("a", "1".to_string()).maybe_arg("b", Some("x y".to_string())).maybe_arg("c", None).build();
    assert_eq!(serialize_pairs(&make()), serialize_pairs(&make()));
    assert_eq!(serialize_pairs(&make()), "a=1&b=x%20y");
}

#[test]
fn serialize_encodes_reserved_characters() {
    assert_eq!(serialize_pairs(&pairs(&[("genre", "Rock & Roll"), ("q", "a=b")])), "genre=Rock%20%26%20Roll&q=a%3Db");
    assert_eq!(serialize_pairs(&pairs(&[])), "");
}

#[test]
fn stream_url_without_options() {
    let url = song_with_id(27).stream_url(&client("http://demo.org"), None, None).unwrap();
    assert_eq!(url, "http://demo.org/rest/stream?id=27&u=admin&p=p%20w&v=1.14.0&c=sunk&f=json");
    assert!(url.contains("id=27"));
    assert!(!url.contains("maxBitRate"));
    assert!(!url.contains("format"));
}

#[test]
fn stream_url_with_options() {
    let url = song_with_id(27)
        .stream_url(&client("https://demo.org/"), Some(320), Some(AudioFormat::Ogg))
        .unwrap();
    assert_eq!(url, "https://demo.org/rest/stream?id=27&maxBitRate=320&format=ogg&u=admin&p=p%20w&v=1.14.0&c=sunk&f=json");
}

#[test]
fn download_url_and_bad_base() {
    let url = song_with_id(5).download_url(&client("http://h")).unwrap();
    assert_eq!(url, "http://h/rest/download?id=5&u=admin&p=p%20w&v=1.14.0&c=sunk&f=json");
    assert_eq!(song_with_id(5).download_url(&client("demo.org")).unwrap_err(), Error::UrlConstruction);
    assert_eq!(song_with_id(5).download_url(&client("http://")).unwrap_err(), Error::UrlConstruction);
}

#[test]
fn hls_request() {
    let r = song_with_id(27).hls(Some(vec![1000, 500]));
    assert_eq!(r.operation, "hls");
    assert_eq!(r.query.pairs, pairs(&[("id", "27"), ("bitrate", "1000"), ("bitrate", "500")]));
    let r = song_with_id(27).hls(None);
    assert_eq!(r.query.pairs, pairs(&[("id", "27")]));
}

#[test]
fn audio_format_names() {
    assert_eq!(AudioFormat::M4a.to_string(), "m4a");
    assert_eq!(AudioFormat::Flac.name(), "flac");
}

#[test]
fn random_songs_request_defaults_size() {
    let r = get_random_songs(None, Some("Rock"), None, Some(2000), None);
    assert_eq!(r.operation, "getRandomSongs");
    assert_eq!(r.query.pairs, pairs(&[("size", "10"), ("genre", "Rock"), ("toYear", "2000")]));
}

#[test]
fn genre_and_lyrics_requests() {
    let r = get_songs_in_genre("Jazz", SearchPage { count: 20, offset: 40 }, Some(1));
    assert_eq!(r.query.pairs, pairs(&[("genre", "Jazz"), ("count", "20"), ("offset", "40"), ("musicFolderId", "1")]));
    let r = get_lyrics(None, Some("T"));
    assert_eq!(r.operation, "getLyrics");
    assert_eq!(r.query.pairs, pairs(&[("title", "T")]));
    let r = get_artist(9);
    assert_eq!(r.operation, "getArtist");
    assert_eq!(r.query.pairs, pairs(&[("id", "9")]));
}

#[test]
fn artist_info_request() {
    let a = Artist { id: 3, name: "X".to_string(), cover_id: None, albums: vec![], album_count: 0 };
    let r = a.info(Some(5), Some(true));
    assert_eq!(r.operation, "getArtistInfo");
    assert_eq!(r.query.pairs, pairs(&[("id", "3"), ("count", "5"), ("includeNotPresent", "true")]));
}

fn wrapped(inner: Vec<(&str, Json)>) -> Json {
    obj(vec![("subsonic-response", obj(inner))])
}

#[test]
fn envelope_success_with_payload() {
    let top = wrapped(vec![("status", text("ok")), ("version", text("1.14.0")), ("song", obj(vec![("id", text("1"))]))]);
    match decode(top).unwrap() {
        Envelope::Success(Some(Json::Object(f))) => assert_eq!(f[0].0, "id"),
        other => panic!("unexpected {:?}", other),
    }
}

#[test]
fn envelope_success_without_payload() {
    let top = wrapped(vec![("status", text("ok")), ("version", text("1.14.0"))]);
    assert!(matches!(decode(top).unwrap(), Envelope::Success(None)));
}

#[test]
fn envelope_failure_becomes_server_error() {
    let top = wrapped(vec![
        ("status", text("failed")),
        ("version", text("1.14.0")),
        ("error", obj(vec![("code", Json::UInt(40)), ("message", text("Wrong username or password"))])),
    ]);
    let env = decode(top).unwrap();
    assert_eq!(
        env.into_payload().unwrap_err(),
        Error::Server { code: 40, message: "Wrong username or password".to_string() }
    );
}

#[test]
fn envelope_malformed_shapes() {
    assert_eq!(decode(obj(vec![])).unwrap_err(), Error::MalformedEnvelope);
    assert_eq!(decode(Json::Null).unwrap_err(), Error::MalformedEnvelope);
    assert_eq!(decode(wrapped(vec![("status", text("maybe"))])).unwrap_err(), Error::MalformedEnvelope);
    assert_eq!(decode(wrapped(vec![("status", Json::Bool(true))])).unwrap_err(), Error::MalformedEnvelope);
    assert_eq!(decode(wrapped(vec![("status", text("failed"))])).unwrap_err(), Error::MalformedEnvelope);
}

#[test]
fn song_list_payloads() {
    assert!(songs_from_payload(&None).unwrap().is_empty());
    assert!(songs_from_payload(&Some(obj(vec![]))).unwrap().is_empty());
    assert_eq!(songs_from_payload(&Some(obj(vec![("song", text("x"))]))).unwrap_err(), Error::InvalidField);
}

#[test]
fn serialize_encodes_utf8_bytes() {
    assert_eq!(serialize_pairs(&pairs(&[("genre", "Électro")])), "genre=%C3%89lectro");
    assert_eq!(serialize_pairs(&pairs(&[("q", "€𝄞")])), "q=%E2%82%AC%F0%9D%84%9E");
}

#[test]
fn base_without_valid_host_is_refused() {
    for base in ["http:// ", "http:///x", "https://:8080", "http://ho st", "http://a\u{7}b", "ftp://h"] {
        assert_eq!(song_with_id(1).download_url(&client(base)).unwrap_err(), Error::UrlConstruction, "{}", base);
    }
}

#[test]
fn base_with_port_and_path_is_accepted() {
    let url = song_with_id(1).download_url(&client("http://localhost:4040/music/")).unwrap();
    assert_eq!(url, "http://localhost:4040/music/rest/download?id=1&u=admin&p=p%20w&v=1.14.0&c=sunk&f=json");
    assert!(song_with_id(1).download_url(&client("https://[::1]:443")).is_ok());
}

#[test]
fn null_song_list_is_invalid_field() {
    assert_eq!(songs_from_payload(&Some(obj(vec![("song", Json::Null)]))).unwrap_err(), Error::InvalidField);
}
