use simplay::cli::{build_request, decimal_text, split_param, Cli, CliError};
use simplay::command::{
    adjusted_volume, begin, parse_command, resume, Action, Command, Event, Flow, LibraryCall,
    Lookup, SongSource,
};
use simplay::config::{
    answer_or_default, bool_answer, normalize_url, number_answer, password_answer,
    required_answer, Config, ConfigFile, RequiredField,
};
use simplay::endpoint::{new_salt, token_for, ServiceSettings};
use simplay::player::{
    check_reply, end_file_event, keep_waiting_for_socket, property_ok, MpvEvent, ReplyCheck,
    RequestIds,
};
use simplay::service::next_album_page;
use simplay::protocol::{Request, Response};
use simplay::queue::{album_order, shuffled_queue};
use simplay::state::State;
use simplay::track::{Item, Song};

fn song(id: &str, disc: Option<u32>, track: Option<u32>) -> Song {
    Song {
        id: id.to_string(),
        title: id.to_string(),
        artist: "Artist".to_string(),
        album: "Album".to_string(),
        duration: None,
        track,
        disc,
    }
}

fn config() -> Config {
    Config::from_file(ConfigFile::default())
}

fn req(cmd: &str, arg: Option<&str>) -> Request {
    Request::new(cmd, arg.map(|a| a.to_string()))
}

fn reply(action: &Action) -> &Response {
    match action {
        Action::Reply(r) => r,
        other => panic!("expected a reply, got {:?}", other),
    }
}

#[test]
fn commands_and_their_arguments() {
    assert_eq!(parse_command(&req("shuffle", None)).unwrap(), Command::Shuffle);
    assert_eq!(
        parse_command(&req("shuffleartist", Some(" Queen "))).unwrap(),
        Command::ShuffleArtist(" Queen ".to_string())
    );
    assert_eq!(parse_command(&req("shuffleartist", Some("  "))).unwrap_err().message, "Artist name required");
    assert_eq!(parse_command(&req("shufflealbum", None)).unwrap_err().message, "Album name required");
    assert_eq!(parse_command(&req("playalbum", None)).unwrap_err().message, "Album name required");
    assert_eq!(parse_command(&req("shuffleplaylist", None)).unwrap_err().message, "Playlist name required");
    assert_eq!(parse_command(&req("deleteplaylist", Some(""))).unwrap_err().message, "Playlist name required");
    assert_eq!(parse_command(&req("rate", Some(" 4 "))).unwrap(), Command::Rate(4));
    assert_eq!(parse_command(&req("rate", Some("6"))).unwrap_err().message, "Rating must be 1-5");
    assert_eq!(parse_command(&req("rate", Some("x"))).unwrap_err().message, "Rating must be 1-5");
    assert_eq!(parse_command(&req("rate", None)).unwrap_err().message, "Rating required");
    let unknown = parse_command(&req("dance", None)).unwrap_err();
    assert!(!unknown.ok);
    assert_eq!(unknown.message, "Unknown command");
    assert_eq!(parse_command(&req("status", None)).unwrap(), Command::Status);
}

#[test]
fn status_command_reports_snapshot() {
    let mut st = State::new(500);
    st.load(vec![song("1", None, None)], false, false).unwrap();
    let step = begin(Command::Status, &mut st, &config());
    let r = reply(&step.action);
    assert!(r.ok);
    assert_eq!(r.message, "ok");
    assert_eq!(r.status.as_ref().unwrap().queue_len, 1);
    assert!(step.next.is_none());
}

#[test]
fn shuffle_album_runs_to_playback() {
    let mut st = State::new(500);
    let cfg = config();
    let step = begin(Command::ShuffleAlbum("abbey".to_string()), &mut st, &cfg);
    assert!(matches!(step.action, Action::Find(Lookup::Album, ref n) if n == "abbey"));
    let found = Event::Found(Ok(Some(Item { id: "al1".to_string(), name: "Abbey Road".to_string() })));
    let step = resume(step.next.unwrap(), found, &mut st, &cfg);
    assert!(matches!(step.action, Action::Fetch(SongSource::Album(ref id)) if id == "al1"));
    let songs = Event::Songs(Ok(vec![song("1", None, None), song("2", None, None)]));
    let step = resume(step.next.unwrap(), songs, &mut st, &cfg);
    let first = match &step.action {
        Action::Play(s) => s.id.clone(),
        other => panic!("expected play, got {:?}", other),
    };
    assert_eq!(st.current_song().unwrap().id, first);
    assert_eq!(st.status().queue_len, 2);
    let step = resume(step.next.unwrap(), Event::Done(Ok(())), &mut st, &cfg);
    let r = reply(&step.action);
    assert!(r.ok);
    assert_eq!(r.message, "Shuffling album Abbey Road");
}

#[test]
fn lookups_that_find_nothing() {
    let mut st = State::new(500);
    let cfg = config();
    let flow = Flow::Finding(Command::ShuffleArtist("x".to_string()));
    let step = resume(flow, Event::Found(Ok(None)), &mut st, &cfg);
    assert_eq!(reply(&step.action).message, "Artist not found");
    let flow = Flow::Finding(Command::DeletePlaylist("x".to_string()));
    let step = resume(flow, Event::Found(Ok(None)), &mut st, &cfg);
    assert_eq!(reply(&step.action).message, "Playlist not found");
    let flow = Flow::Fetching(Command::ShuffleLiked, None);
    let step = resume(flow, Event::Songs(Ok(Vec::new())), &mut st, &cfg);
    assert_eq!(reply(&step.action).message, "No liked songs found");
    let flow = Flow::Fetching(Command::Shuffle, None);
    let step = resume(flow, Event::Songs(Err("timeout".to_string())), &mut st, &cfg);
    assert_eq!(reply(&step.action).message, "timeout");
    let step = resume(Flow::Adjusting(5), Event::Done(Ok(())), &mut st, &cfg);
    assert_eq!(reply(&step.action).message, "Unexpected reply");
}

#[test]
fn play_album_keeps_album_order() {
    let mut st = State::new(500);
    let cfg = config();
    let flow = Flow::Fetching(Command::PlayAlbum("x".to_string()), Some("Help!".to_string()));
    let songs = vec![song("c", Some(2), Some(1)), song("b", Some(1), Some(2)), song("a", Some(1), Some(1))];
    let step = resume(flow, Event::Songs(Ok(songs)), &mut st, &cfg);
    assert!(matches!(step.action, Action::Play(ref s) if s.id == "a"));
    assert_eq!(st.advance(true, None).unwrap().unwrap().id, "b");
    assert_eq!(st.advance(true, None).unwrap().unwrap().id, "c");
    let step = resume(step.next.unwrap(), Event::Done(Ok(())), &mut st, &cfg);
    assert_eq!(reply(&step.action).message, "Playing album Help!");
}

#[test]
fn moves_and_player_commands() {
    let mut st = State::new(500);
    let cfg = config();
    let step = begin(Command::FastForward, &mut st, &cfg);
    assert_eq!(reply(&step.action).message, "Queue is empty");
    st.load(vec![song("1", None, None), song("2", None, None)], false, false).unwrap();
    let step = begin(Command::Rewind, &mut st, &cfg);
    assert_eq!(reply(&step.action).message, "At start of queue");
    let step = begin(Command::FastForward, &mut st, &cfg);
    assert!(matches!(step.action, Action::Play(ref s) if s.id == "2"));
    let step = begin(Command::Pause, &mut st, &cfg);
    assert!(matches!(step.action, Action::SetPause(true)));
    let step = resume(step.next.unwrap(), Event::Done(Ok(())), &mut st, &cfg);
    assert_eq!(reply(&step.action).message, "Paused");
    assert!(st.is_paused());
    let step = begin(Command::StartOver, &mut st, &cfg);
    let step = resume(step.next.unwrap(), Event::Done(Err("lost".to_string())), &mut st, &cfg);
    assert_eq!(reply(&step.action).message, "lost");
}

#[test]
fn commands_on_the_current_track() {
    let mut st = State::new(500);
    let cfg = config();
    let step = begin(Command::LikeSong, &mut st, &cfg);
    assert_eq!(reply(&step.action).message, "No song playing");
    st.load(vec![song("9", None, None)], false, false).unwrap();
    let step = begin(Command::Rate(4), &mut st, &cfg);
    assert!(matches!(step.action, Action::Call(LibraryCall::Rate(ref id, 4)) if id == "9"));
    let step = resume(step.next.unwrap(), Event::Done(Ok(())), &mut st, &cfg);
    assert_eq!(reply(&step.action).message, "Rated song 4");
    let step = begin(Command::AddSongToPlaylist("Chill".to_string()), &mut st, &cfg);
    let step = resume(step.next.unwrap(), Event::Found(Ok(None)), &mut st, &cfg);
    assert!(matches!(step.action, Action::Call(LibraryCall::CreatePlaylist(ref n, ref id)) if n == "Chill" && id == "9"));
    let step = resume(step.next.unwrap(), Event::Done(Ok(())), &mut st, &cfg);
    assert_eq!(reply(&step.action).message, "Created playlist Chill");
}

#[test]
fn volume_changes_are_clamped() {
    assert_eq!(adjusted_volume(98, 5), 100);
    assert_eq!(adjusted_volume(3, -5), 0);
    assert_eq!(adjusted_volume(50, 5), 55);
    let mut st = State::new(500);
    let cfg = config();
    let step = begin(Command::VolumeDown, &mut st, &cfg);
    assert!(matches!(step.action, Action::GetVolume));
    let step = resume(step.next.unwrap(), Event::Volume(Ok(40)), &mut st, &cfg);
    assert!(matches!(step.action, Action::SetVolume(35)));
    let step = resume(step.next.unwrap(), Event::Done(Ok(())), &mut st, &cfg);
    assert_eq!(reply(&step.action).message, "Volume 35");
}

#[test]
fn shuffle_limits() {
    let songs: Vec<Song> = (0..10).map(|i| song(&i.to_string(), None, None)).collect();
    assert_eq!(shuffled_queue(songs.clone(), 4).len(), 4);
    let mut all: Vec<String> = shuffled_queue(songs, 0).into_iter().map(|s| s.id).collect();
    all.sort();
    let mut expected: Vec<String> = (0..10).map(|i| i.to_string()).collect();
    expected.sort();
    assert_eq!(all, expected);
    let ordered = album_order(vec![song("b", None, Some(2)), song("a", None, None)]);
    assert_eq!(ordered[0].id, "a");
}

#[test]
fn cli_makes_one_request() {
    let mut cli = Cli {
        daemon: false, configure: false, shuffle: false, pause: false, play: false,
        fastforward: false, rewind: false, startover: false, likesong: false, unlikesong: false,
        rate: None, volumeup: false, volumedown: false, shuffleliked: false, status: false,
        shuffleartist: None, shufflealbum: None, shuffleplaylist: None, playalbum: None,
        addsongtoplaylist: None, deleteplaylist: None, api: None, param: Vec::new(),
    };
    assert_eq!(build_request(&cli).unwrap(), None);
    cli.rate = Some(3);
    assert_eq!(build_request(&cli).unwrap(), Some(req("rate", Some("3"))));
    cli.rate = Some(9);
    assert_eq!(build_request(&cli).unwrap_err(), CliError::RatingOutOfRange);
    assert_eq!(CliError::RatingOutOfRange.message(), "Rating must be between 1 and 5");
    cli.rate = None;
    cli.pause = true;
    cli.shuffleartist = Some("Queen".to_string());
    assert_eq!(build_request(&cli).unwrap_err(), CliError::TooManyActions);
    cli.pause = false;
    assert_eq!(build_request(&cli).unwrap(), Some(req("shuffleartist", Some("Queen"))));
    assert_eq!(decimal_text(255), "255");
    assert_eq!(decimal_text(0), "0");
}

#[test]
fn params_split_at_first_equals() {
    assert_eq!(split_param("a=b=c"), Some(("a".to_string(), "b=c".to_string())));
    assert_eq!(split_param("=b"), None);
    assert_eq!(split_param("a="), None);
    assert_eq!(split_param("ab"), None);
}

#[test]
fn settings_defaults_and_prompts() {
    let mut file = ConfigFile::default();
    assert_eq!(file.next_missing(), Some(RequiredField::ServerUrl));
    file.fill(RequiredField::ServerUrl, " http://music.local/ ".to_string());
    file.fill(RequiredField::Username, "me".to_string());
    assert_eq!(file.next_missing(), Some(RequiredField::Password));
    file.fill(RequiredField::Password, "pw".to_string());
    assert_eq!(file.next_missing(), None);
    let cfg = Config::from_file(file);
    assert_eq!(cfg.server_url, "http://music.local");
    assert_eq!(cfg.api_version, "1.16.1");
    assert_eq!(cfg.client_name, "simplay");
    assert_eq!(cfg.endpoint_suffix, "view");
    assert!(cfg.tls_verify);
    assert_eq!(cfg.max_shuffle(), 0);
    assert_eq!(cfg.volume_step(), 5);
    assert_eq!(cfg.end_grace_ms(), 500);
    assert_eq!(cfg.to_file().username, Some("me".to_string()));
    assert_eq!(normalize_url("  x//  "), "x");
    assert_eq!(required_answer("  "), None);
    assert_eq!(required_answer(" a b \n"), Some("a b".to_string()));
    assert_eq!(answer_or_default("\n", Some("old"), true), Some("old".to_string()));
    assert_eq!(answer_or_default("\n", None, true), None);
    assert_eq!(answer_or_default("\n", None, false), Some(String::new()));
    assert_eq!(password_answer("", None), None);
    assert_eq!(password_answer(" p ", None), Some(" p ".to_string()));
    assert!(bool_answer(" YES\n", false));
    assert!(!bool_answer("nope", true));
    assert!(bool_answer("\n", true));
    assert_eq!(number_answer(" 42\n", 7, 255), Ok(42));
    assert_eq!(number_answer("+8", 7, 255), Ok(8));
    assert_eq!(number_answer("\n", 7, 255), Ok(7));
    assert_eq!(number_answer("256", 7, 255), Err(()));
    assert_eq!(number_answer("-1", 7, 255), Err(()));
}

#[test]
fn service_addresses() {
    let mut file = ConfigFile::default();
    file.server_url = Some("http://music.local//".to_string());
    file.username = Some("me".to_string());
    file.password = Some("sesame".to_string());
    let settings = ServiceSettings::from_config(&Config::from_file(file));
    assert_eq!(settings.endpoint_url("getAlbum"), "http://music.local/rest/getAlbum.view");
    assert_eq!(token_for("sesame", "abcdefgh"), "afe7c733db5f843b187f83af314d29e0");
    let params = settings.query_params("abcdefgh", vec![("id".to_string(), "7".to_string())]);
    let keys: Vec<&str> = params.iter().map(|p| p.0.as_str()).collect();
    assert_eq!(keys, vec!["u", "t", "s", "v", "c", "f", "id"]);
    assert_eq!(params[1].1, "afe7c733db5f843b187f83af314d29e0");
    let url = settings.stream_url("a b", "abcdefgh").unwrap();
    assert_eq!(
        url,
        "http://music.local/rest/stream.view?u=me&t=afe7c733db5f843b187f83af314d29e0&s=abcdefgh&v=1.16.1&c=simplay&id=a+b"
    );
    let salt = new_salt();
    assert_eq!(salt.len(), 8);
    assert!(salt.chars().all(|c| c.is_ascii_alphanumeric()));
}

#[test]
fn player_channel_decisions() {
    assert_eq!(
        end_file_event(Some("end-file"), Some("eof")),
        Some(MpvEvent::EndFile { reason: Some("eof".to_string()) })
    );
    assert_eq!(end_file_event(Some("start-file"), None), None);
    assert_eq!(check_reply(0, None, 3), ReplyCheck::Closed);
    assert_eq!(check_reply(10, Some(3), 3), ReplyCheck::Matched);
    assert_eq!(check_reply(10, Some(2), 3), ReplyCheck::Skip);
    assert!(property_ok(None));
    assert!(!property_ok(Some("property unavailable")));
    assert!(keep_waiting_for_socket(40));
    assert!(!keep_waiting_for_socket(41));
    assert_eq!(next_album_page(0, 200), Some(200));
    assert_eq!(next_album_page(400, 3), Some(600));
    assert_eq!(next_album_page(400, 0), None);
    assert_eq!(next_album_page(usize::MAX - 10, 5), None);
    let mut ids = RequestIds::new();
    assert_eq!(ids.take(), 1);
    assert_eq!(ids.take(), 2);
}

#[test]
fn responses() {
    let ok = Response::ok("Paused");
    assert!(ok.ok && ok.message == "Paused" && ok.status.is_none());
    let err = Response::err("No song playing");
    assert!(!err.ok && err.message == "No song playing");
}
