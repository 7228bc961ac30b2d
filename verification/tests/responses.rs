use spotify_client::client::Spotify;
use spotify_client::dispatch::{call_outcome, text_to_decode, DispatchError};

fn client() -> Spotify {
    Spotify::default().access_token("test-access").build()
}

#[test]
fn success_statuses_give_the_body() {
    for status in [200u16, 201, 204, 250, 299] {
        match call_outcome(status, String::from("{\"id\": \"x\"}")) {
            Ok(body) => assert_eq!(body, "{\"id\": \"x\"}"),
            Err(e) => panic!("status {} was rejected: {:?}", status, e),
        }
    }
}

#[test]
fn other_statuses_give_status_and_body() {
    for status in [0u16, 100, 199, 300, 301, 400, 401, 404, 429, 500, 65535] {
        match call_outcome(status, String::from("{\"error\": \"no\"}")) {
            Err(DispatchError::Rejected { status: s, body }) => {
                assert_eq!(s, status);
                assert_eq!(body, "{\"error\": \"no\"}");
            }
            other => panic!("status {} gave {:?}", status, other),
        }
    }
}

#[test]
fn empty_body_is_kept() {
    assert_eq!(call_outcome(204, String::new()).unwrap(), "");
}

#[test]
fn a_failed_call_decodes_the_empty_text() {
    assert_eq!(text_to_decode(Ok(String::from("[1]"))), "[1]");
    assert_eq!(text_to_decode(call_outcome(404, String::from("gone"))), "");
    assert_eq!(
        text_to_decode(Err(DispatchError::Transport { detail: String::from("timed out") })),
        ""
    );
}

#[test]
fn decoded_value_is_handed_on() {
    let spotify = client();
    let decoded = spotify.convert_result(serde_json::from_str::<(String, u32)>("[\"Abbey Road\", 17]"));
    assert_eq!(decoded, Some((String::from("Abbey Road"), 17)));
    let map = spotify
        .convert_result(serde_json::from_str::<std::collections::BTreeMap<String, String>>(
            "{\"id\": \"2WX2uTcsvV5OnS0inACecP\", \"name\": \"Born Ruffians\"}",
        ))
        .unwrap();
    assert_eq!(map.get("id").unwrap(), "2WX2uTcsvV5OnS0inACecP");
    assert_eq!(map.get("name").unwrap(), "Born Ruffians");
    assert_eq!(map.len(), 2);
}

#[test]
fn body_that_does_not_decode_gives_nothing() {
    let spotify = client();
    // a part that the shape requires is missing
    assert_eq!(spotify.convert_result(serde_json::from_str::<(String, u32)>("[\"Abbey Road\"]")), None);
    // malformed
    assert_eq!(spotify.convert_result(serde_json::from_str::<(String, u32)>("[\"Abbey Road\", ")), None);
    // the empty text of a failed call
    let text = text_to_decode(call_outcome(500, String::from("oops")));
    assert_eq!(spotify.convert_result(serde_json::from_str::<Vec<String>>(&text)), None);
}
