use spotify_client::client::Spotify;
use spotify_client::ident::{kind_mismatches, read_form, Form};
use spotify_client::kind::{AlbumType, Type};

fn client() -> Spotify {
    Spotify::default().access_token("test-access").build()
}

#[test]
fn test_get_id() {
    // assert artist
    let spotify = Spotify::default().access_token("test-access").build();
    let mut artist_id = String::from("spotify:artist:2WX2uTcsvV5OnS0inACecP");
    let id = spotify.get_id(Type::Artist, &mut artist_id);
    assert_eq!("2WX2uTcsvV5OnS0inACecP", &id);
    // assert album
    let mut artist_id_a = String::from("spotify/album/2WX2uTcsvV5OnS0inACecP");
    assert_eq!(
        "2WX2uTcsvV5OnS0inACecP",
        &spotify.get_id(Type::Album, &mut artist_id_a)
    );

    // mismatch type
    let mut artist_id_b = String::from("spotify:album:2WX2uTcsvV5OnS0inACecP");
    assert_eq!(
        "spotify:album:2WX2uTcsvV5OnS0inACecP",
        &spotify.get_id(Type::Artist, &mut artist_id_b)
    );

    // could not split
    let mut artist_id_c = String::from("spotify-album-2WX2uTcsvV5OnS0inACecP");
    assert_eq!(
        "spotify-album-2WX2uTcsvV5OnS0inACecP",
        &spotify.get_id(Type::Artist, &mut artist_id_c)
    );

    let mut playlist_id = String::from("spotify:playlist:59ZbFPES4DQwEjBpWHzrtC");
    assert_eq!(
        "59ZbFPES4DQwEjBpWHzrtC",
        &spotify.get_id(Type::Playlist, &mut playlist_id)
    );
}

#[test]
fn kind_tokens() {
    assert_eq!(Type::Artist.as_str(), "artist");
    assert_eq!(Type::Album.as_str(), "album");
    assert_eq!(Type::Track.as_str(), "track");
    assert_eq!(Type::Playlist.as_str(), "playlist");
    assert_eq!(Type::User.as_str(), "user");
    assert_eq!(AlbumType::Album.as_str(), "album");
    assert_eq!(AlbumType::Single.as_str(), "single");
    assert_eq!(AlbumType::AppearsOn.as_str(), "appears_on");
    assert_eq!(AlbumType::Compilation.as_str(), "compilation");
}

#[test]
fn bare_id_is_returned_as_it_is() {
    let spotify = client();
    for kind in [Type::Artist, Type::Album, Type::Track, Type::Playlist, Type::User] {
        assert_eq!(spotify.get_id(kind, "6rqhFgbbKwnb9MLmUQDhG6"), "6rqhFgbbKwnb9MLmUQDhG6");
        assert_eq!(spotify.get_id(kind, ""), "");
    }
}

#[test]
fn uri_resolves_for_every_kind() {
    let spotify = client();
    for kind in [Type::Artist, Type::Album, Type::Track, Type::Playlist, Type::User] {
        let uri = format!("svc:{}:0OdUWJ0sBjDrqHygGUXeCF", kind.as_str());
        assert_eq!(spotify.get_id(kind, &uri), "0OdUWJ0sBjDrqHygGUXeCF");
    }
}

#[test]
fn url_resolves_for_every_kind() {
    let spotify = client();
    for kind in [Type::Artist, Type::Album, Type::Track, Type::Playlist, Type::User] {
        let url = format!("svc/{}/0OdUWJ0sBjDrqHygGUXeCF", kind.as_str());
        assert_eq!(spotify.get_id(kind, &url), "0OdUWJ0sBjDrqHygGUXeCF");
    }
    assert_eq!(
        spotify.get_id(Type::Track, "https://open.spotify.com/track/3n3Ppam7vgaVa1iaRUc9Lp"),
        "3n3Ppam7vgaVa1iaRUc9Lp"
    );
}

#[test]
fn only_the_last_two_segments_count() {
    let spotify = client();
    assert_eq!(spotify.get_id(Type::Playlist, "spotify:user:wizzler:playlist:59Zb"), "59Zb");
    assert_eq!(spotify.get_id(Type::User, "spotify:user:wizzler:playlist:59Zb"),
        "spotify:user:wizzler:playlist:59Zb");
}

#[test]
fn kind_mismatch_gives_the_input_back() {
    let spotify = client();
    assert_eq!(
        spotify.get_id(Type::Artist, "spotify:album:2WX2uTcsvV5OnS0inACecP"),
        "spotify:album:2WX2uTcsvV5OnS0inACecP"
    );
    assert_eq!(
        spotify.get_id(Type::Track, "spotify/album/2WX2uTcsvV5OnS0inACecP"),
        "spotify/album/2WX2uTcsvV5OnS0inACecP"
    );
}

#[test]
fn mismatched_uri_falls_through_to_the_url_form() {
    let spotify = client();
    assert_eq!(spotify.get_id(Type::Artist, "spotify:album:x/artist/y"), "y");
}

#[test]
fn uri_form_is_tried_before_url_form() {
    let spotify = client();
    assert_eq!(spotify.get_id(Type::Track, "a/track/b:track:c"), "c");
}

#[test]
fn hyphens_do_not_delimit() {
    let spotify = client();
    assert_eq!(
        spotify.get_id(Type::Artist, "spotify-album-2WX2uTcsvV5OnS0inACecP"),
        "spotify-album-2WX2uTcsvV5OnS0inACecP"
    );
}

#[test]
fn fewer_than_three_segments_is_a_bare_id() {
    let spotify = client();
    assert_eq!(spotify.get_id(Type::Album, "album:2WX2uTcsvV5OnS0inACecP"), "album:2WX2uTcsvV5OnS0inACecP");
    assert_eq!(spotify.get_id(Type::Album, "album/2WX2uTcsvV5OnS0inACecP"), "album/2WX2uTcsvV5OnS0inACecP");
    assert_eq!(spotify.get_id(Type::Album, ":"), ":");
}

#[test]
fn empty_segments_are_segments() {
    let spotify = client();
    assert_eq!(spotify.get_id(Type::Track, "spotify:track:"), "");
    assert_eq!(spotify.get_id(Type::Track, ":track:abc"), "abc");
    assert_eq!(spotify.get_id(Type::Track, "::"), "::");
    assert_eq!(spotify.get_id(Type::Track, "/track/abc"), "abc");
}

#[test]
fn identifiers_outside_ascii() {
    let spotify = client();
    assert_eq!(spotify.get_id(Type::Artist, "sp\u{f6}tify:artist:bj\u{f6}rk"), "bj\u{f6}rk");
    assert_eq!(spotify.get_id(Type::Artist, "\u{65e5}\u{672c}/artist/\u{8a9e}"), "\u{8a9e}");
}

#[test]
fn read_form_tells_the_three_cases_apart() {
    assert!(matches!(read_form(Type::Artist, "abc", ':'), Form::Plain));
    assert!(matches!(read_form(Type::Artist, "artist:abc", ':'), Form::Plain));
    match read_form(Type::Artist, "spotify:artist:abc", ':') {
        Form::Tagged(id) => assert_eq!(id, "abc"),
        other => panic!("unexpected {:?}", other),
    }
    match read_form(Type::Artist, "spotify:album:abc", ':') {
        Form::Mismatched(tag) => assert_eq!(tag, "album"),
        other => panic!("unexpected {:?}", other),
    }
    match read_form(Type::Album, "spotify/album/abc", '/') {
        Form::Tagged(id) => assert_eq!(id, "abc"),
        other => panic!("unexpected {:?}", other),
    }
    assert!(matches!(read_form(Type::Album, "spotify/album/abc", ':'), Form::Plain));
}

#[test]
fn get_uri_writes_the_canonical_uri() {
    let spotify = client();
    assert_eq!(spotify.get_uri(Type::Track, "3n3Ppam7vgaVa1iaRUc9Lp"), "spotify:track:3n3Ppam7vgaVa1iaRUc9Lp");
    assert_eq!(
        spotify.get_uri(Type::Track, "https://open.spotify.com/track/3n3Ppam7vgaVa1iaRUc9Lp"),
        "spotify:track:3n3Ppam7vgaVa1iaRUc9Lp"
    );
    assert_eq!(spotify.get_uri(Type::Album, "other:album:xyz"), "spotify:album:xyz");
}

#[test]
fn uri_round_trips_to_the_same_id() {
    let spotify = client();
    for raw in ["3n3Ppam7vgaVa1iaRUc9Lp", "spotify:track:3n3Ppam7vgaVa1iaRUc9Lp", "x/track/3n3Ppam7vgaVa1iaRUc9Lp"] {
        let uri = spotify.get_uri(Type::Track, raw);
        assert_eq!(spotify.get_id(Type::Track, &uri), spotify.get_id(Type::Track, raw));
        assert_eq!(spotify.get_id(Type::Track, &uri), "3n3Ppam7vgaVa1iaRUc9Lp");
    }
}

#[test]
fn no_mismatch_where_the_id_resolves_at_once() {
    assert!(kind_mismatches(Type::Artist, "2WX2uTcsvV5OnS0inACecP").is_empty());
    assert!(kind_mismatches(Type::Artist, "spotify:artist:2WX2uTcsvV5OnS0inACecP").is_empty());
    assert!(kind_mismatches(Type::Album, "spotify/album/2WX2uTcsvV5OnS0inACecP").is_empty());
    assert!(kind_mismatches(Type::Artist, "spotify-album-2WX2uTcsvV5OnS0inACecP").is_empty());
    assert!(kind_mismatches(Type::Artist, "album:2WX2uTcsvV5OnS0inACecP").is_empty());
    // the URI form gives the identifier: the URL form is not looked at
    assert!(kind_mismatches(Type::Track, "a/album/b:track:c").is_empty());
}

#[test]
fn mismatches_come_in_the_order_of_the_forms() {
    assert_eq!(kind_mismatches(Type::Artist, "spotify:album:2WX2uTcsvV5OnS0inACecP"), vec!["album"]);
    assert_eq!(kind_mismatches(Type::Track, "spotify/album/2WX2uTcsvV5OnS0inACecP"), vec!["album"]);
    // the URI form names another kind, the URL form the right one
    assert_eq!(kind_mismatches(Type::Artist, "spotify:album:x/artist/y"), vec!["album"]);
    // both forms name another kind
    assert_eq!(kind_mismatches(Type::Track, "a:album:b/playlist/c"), vec!["album", "playlist"]);
    assert_eq!(kind_mismatches(Type::Track, "::"), vec![""]);
}
