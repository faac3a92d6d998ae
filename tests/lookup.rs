use simplay::json::Json;
use simplay::matching::{best_match, match_score, normalize_name, pick_best};
use simplay::service::{
    album_songs_in, artist_album_ids_in, check_status, found_albums_in, parse_album_ids,
    parse_item, parse_items, parse_song, parse_song_list, playlists_in, random_songs_in,
    starred_songs_in,
};
use simplay::track::Item;

fn item(id: &str, name: &str) -> Item {
    Item { id: id.to_string(), name: name.to_string() }
}

fn s(t: &str) -> Json {
    Json::Str(t.to_string())
}

fn obj(members: Vec<(&str, Json)>) -> Json {
    Json::Object(members.into_iter().map(|(k, v)| (k.to_string(), v)).collect())
}

#[test]
fn exact_match_outranks_substring() {
    let items = vec![item("1", "Abbey Road"), item("2", "Abbey Road (Remastered)")];
    let best = best_match("abbey road", &items).unwrap();
    assert_eq!(best.name, "Abbey Road");
    assert_eq!(best.id, "1");
}

#[test]
fn first_of_equal_scores_wins() {
    let items = vec![item("1", "Road Trip"), item("2", "Long Road"), item("3", "Nothing")];
    assert_eq!(best_match("road", &items).unwrap().id, "1");
}

#[test]
fn no_match_and_empty_query() {
    let items = vec![item("1", "Help!")];
    assert!(best_match("revolver", &items).is_none());
    assert!(best_match("   ", &items).is_none());
    assert!(best_match("help", &[]).is_none());
}

#[test]
fn normalizing_drops_spaces_and_lowercases() {
    assert_eq!(normalize_name(" Abbey\tRoad "), "abbeyroad");
    assert_eq!(normalize_name("ÀB"), "àb");
}

#[test]
fn scores() {
    assert_eq!(match_score("abbeyroad", "abbeyroad"), 3);
    assert_eq!(match_score("abbeyroad", "abbeyroad(remastered)"), 2);
    assert_eq!(match_score("abbeyroad(live)", "abbeyroad"), 2);
    assert_eq!(match_score("help", "revolver"), 0);
}

#[test]
fn pick_best_on_normalized_names() {
    let names = vec!["abbeyroad(remastered)".to_string(), "abbeyroad".to_string()];
    assert_eq!(pick_best("abbeyroad", &names), Some(1));
    assert_eq!(pick_best("", &names), None);
    assert_eq!(pick_best("zzz", &names), None);
}

#[test]
fn song_record_with_defaults() {
    let v = obj(vec![("id", s("42")), ("duration", Json::Number(Some(181))), ("track", Json::Number(None))]);
    let song = parse_song(&v).unwrap();
    assert_eq!(song.id, "42");
    assert_eq!(song.title, "Unknown Title");
    assert_eq!(song.artist, "Unknown Artist");
    assert_eq!(song.album, "Unknown Album");
    assert_eq!(song.duration, Some(181));
    assert_eq!(song.track, None);
    assert_eq!(song.disc, None);
    assert!(parse_song(&obj(vec![("id", Json::Number(Some(1)))])).is_none());
}

#[test]
fn song_record_fields() {
    let v = obj(vec![
        ("id", s("1")),
        ("title", s("Come Together")),
        ("artist", s("The Beatles")),
        ("album", s("Abbey Road")),
        ("track", Json::Number(Some(1))),
        ("discNumber", Json::Number(Some(4_294_967_298))),
    ]);
    let song = parse_song(&v).unwrap();
    assert_eq!(song.title, "Come Together");
    assert_eq!(song.artist, "The Beatles");
    assert_eq!(song.album, "Abbey Road");
    assert_eq!(song.track, Some(1));
    assert_eq!(song.disc, Some(2));
}

#[test]
fn song_lists() {
    let list = Json::Array(vec![obj(vec![("id", s("a"))]), obj(vec![("title", s("x"))]), obj(vec![("id", s("b"))])]);
    let songs = parse_song_list(&list);
    assert_eq!(songs.iter().map(|s| s.id.clone()).collect::<Vec<_>>(), vec!["a", "b"]);
    assert_eq!(parse_song_list(&obj(vec![("id", s("c"))])).len(), 1);
    assert!(parse_song_list(&s("nope")).is_empty());
}

#[test]
fn item_names() {
    assert_eq!(parse_item(&obj(vec![("id", s("1")), ("name", s("Rock"))])).unwrap().name, "Rock");
    assert_eq!(parse_item(&obj(vec![("id", s("1")), ("title", s("Mix"))])).unwrap().name, "Mix");
    assert_eq!(
        parse_item(&obj(vec![("id", s("1")), ("name", Json::Null), ("title", s("Mix"))])).unwrap().name,
        "Unknown"
    );
    assert!(parse_item(&obj(vec![("name", s("x"))])).is_none());
    assert_eq!(parse_items(&Json::Array(vec![obj(vec![("id", s("1"))]), Json::Null])).len(), 1);
}

#[test]
fn album_ids() {
    let list = Json::Array(vec![obj(vec![("id", s("x"))]), obj(vec![("id", Json::Bool(true))]), obj(vec![("id", s("y"))])]);
    assert_eq!(parse_album_ids(&list), vec!["x".to_string(), "y".to_string()]);
    assert_eq!(parse_album_ids(&obj(vec![("id", s("z"))])), vec!["z".to_string()]);
    assert!(parse_album_ids(&Json::Null).is_empty());
}

fn answer(outer: &str, inner: &str, value: Json) -> Json {
    obj(vec![("subsonic-response", obj(vec![("status", s("ok")), (outer, obj(vec![(inner, value)]))]))])
}

#[test]
fn answers_by_endpoint() {
    let songs = Json::Array(vec![obj(vec![("id", s("1"))])]);
    assert_eq!(random_songs_in(&answer("randomSongs", "song", songs)).len(), 1);
    let songs = Json::Array(vec![obj(vec![("id", s("1"))]), obj(vec![("id", s("2"))])]);
    assert_eq!(album_songs_in(&answer("album", "song", songs)).len(), 2);
    assert!(starred_songs_in(&answer("album", "song", Json::Null)).is_empty());
    let albums = Json::Array(vec![obj(vec![("id", s("al")), ("name", s("Help!"))])]);
    assert_eq!(found_albums_in(&answer("searchResult3", "album", albums))[0].name, "Help!");
    let lists = obj(vec![("id", s("p1")), ("name", s("Chill"))]);
    assert_eq!(playlists_in(&answer("playlists", "playlist", lists))[0].id, "p1");
    let ids = Json::Array(vec![obj(vec![("id", s("a1"))])]);
    assert_eq!(artist_album_ids_in(&answer("artist", "album", ids)), vec!["a1".to_string()]);
}

#[test]
fn service_status() {
    assert!(check_status(&answer("x", "y", Json::Null)).is_ok());
    let failed = obj(vec![(
        "subsonic-response",
        obj(vec![("status", s("failed")), ("error", obj(vec![("message", s("Wrong username or password"))]))]),
    )]);
    assert_eq!(check_status(&failed).unwrap_err(), "Wrong username or password");
    assert_eq!(check_status(&Json::Null).unwrap_err(), "Unknown error");
}

#[test]
fn json_lookups() {
    let v = obj(vec![("a", s("x")), ("n", Json::Number(Some(3)))]);
    assert_eq!(v.get("a").and_then(|x| x.as_str()), Some("x"));
    assert_eq!(v.get("n").and_then(|x| x.as_u64()), Some(3));
    assert!(v.get("b").is_none());
    assert!(s("a").get("a").is_none());
}
