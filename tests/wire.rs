use simplay::json::Json;
use simplay::protocol::{Request, Response, SongInfo, Status};
use simplay::wire::{decode_request, decode_response, encode_request, encode_response};

#[test]
fn request_round_trip() {
    for req in [Request::new("shuffleartist", Some("Queen".to_string())), Request::new("status", None)] {
        let back = decode_request(&encode_request(&req)).unwrap();
        assert_eq!(back, req);
    }
}

#[test]
fn response_round_trip() {
    let plain = Response::err("No song playing");
    assert_eq!(decode_response(&encode_response(&plain)).unwrap(), plain);
    let with_status = Response {
        ok: true,
        message: "ok".to_string(),
        status: Some(Status {
            song: Some(SongInfo {
                id: "1".to_string(),
                title: "Come Together".to_string(),
                artist: "The Beatles".to_string(),
                album: "Abbey Road".to_string(),
            }),
            paused: true,
            queue_len: 17,
            index: 3,
        }),
    };
    assert_eq!(decode_response(&encode_response(&with_status)).unwrap(), with_status);
    let idle = Response {
        ok: true,
        message: "ok".to_string(),
        status: Some(Status { song: None, paused: false, queue_len: 0, index: 0 }),
    };
    assert_eq!(decode_response(&encode_response(&idle)).unwrap(), idle);
}

#[test]
fn request_records_decode_leniently() {
    let missing_arg = Json::Object(vec![("cmd".to_string(), Json::Str("pause".to_string()))]);
    assert_eq!(decode_request(&missing_arg).unwrap(), Request::new("pause", None));
    let bad_arg = Json::Object(vec![
        ("cmd".to_string(), Json::Str("rate".to_string())),
        ("arg".to_string(), Json::Number(Some(3))),
    ]);
    assert!(decode_request(&bad_arg).is_none());
    assert!(decode_request(&Json::Null).is_none());
}
