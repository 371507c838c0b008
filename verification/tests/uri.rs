use downonspot::uri::{ResolveRequest, Spotify, SpotifyError, WebUrl};

type Session = Spotify<u8>;

#[test]
fn parse_uri_keeps_spotify_uri() {
    assert_eq!(Session::parse_uri("spotify:track:abc").unwrap(), "spotify:track:abc");
    assert_eq!(Session::parse_uri("spotify:a:b:c").unwrap(), "spotify:a:b:c");
    assert_eq!(Session::parse_uri("spotify::").unwrap(), "spotify::");
}

#[test]
fn parse_uri_refuses_short_spotify_uri() {
    assert!(matches!(Session::parse_uri("spotify:track"), Err(SpotifyError::InvalidUri)));
    assert!(matches!(Session::parse_uri("spotify:"), Err(SpotifyError::InvalidUri)));
}

#[test]
fn parse_uri_reads_web_player_links() {
    assert_eq!(
        Session::parse_uri("https://open.spotify.com/track/4uLU6hMCjMI75M1A2tKUQC?si=abc").unwrap(),
        "spotify:track:4uLU6hMCjMI75M1A2tKUQC"
    );
    assert_eq!(
        Session::parse_uri("https://open.spotify.com/playlist/37i9dQZF1DXcBWIGoYBM5M/extra").unwrap(),
        "spotify:playlist:37i9dQZF1DXcBWIGoYBM5M"
    );
}

#[test]
fn parse_uri_refuses_other_links() {
    assert!(matches!(Session::parse_uri("https://example.com/track/abc"), Err(SpotifyError::InvalidUri)));
    assert!(matches!(Session::parse_uri("https://open.spotify.com/track"), Err(SpotifyError::InvalidUri)));
    assert!(matches!(Session::parse_uri("https://open.spotify.com"), Err(SpotifyError::InvalidUri)));
}

#[test]
fn parse_uri_reports_missing_path() {
    match Session::parse_uri("foo://open.spotify.com") {
        Err(SpotifyError::Error(m)) => assert_eq!(m, "Missing URL path"),
        other => panic!("unexpected {:?}", other),
    }
}

#[test]
fn parse_uri_reports_url_errors() {
    match Session::parse_uri("not a uri") {
        Err(SpotifyError::UrlParse(m)) => assert_eq!(m, "relative URL without a base"),
        other => panic!("unexpected {:?}", other),
    }
    match Session::parse_uri("https://open.spotify.com:99999/track/x") {
        Err(SpotifyError::UrlParse(m)) => assert_eq!(m, "invalid port number"),
        other => panic!("unexpected {:?}", other),
    }
}

#[test]
fn parse_uri_is_idempotent() {
    for input in ["https://open.spotify.com/album/1DFixLWuPkv3KT3TnV35m3", "spotify:artist:0OdUWJ0sBjDrqHygGUXeCF"] {
        let once = Session::parse_uri(input).unwrap();
        let twice = Session::parse_uri(&once).unwrap();
        assert_eq!(once, twice);
    }
}

#[test]
fn uri_from_web_url_uses_first_two_segments() {
    let url = WebUrl {
        host: Some("open.spotify.com".to_string()),
        path_segments: Some(vec!["album".to_string(), "x1".to_string(), "y".to_string()]),
    };
    assert_eq!(Session::uri_from_web_url(&url).unwrap(), "spotify:album:x1");
    let other_host = WebUrl { host: Some("spotify.com".to_string()), path_segments: Some(vec![]) };
    assert!(matches!(Session::uri_from_web_url(&other_host), Err(SpotifyError::InvalidUri)));
    let no_host = WebUrl { host: None, path_segments: None };
    assert!(matches!(Session::uri_from_web_url(&no_host), Err(SpotifyError::InvalidUri)));
    let no_path = WebUrl { host: Some("open.spotify.com".to_string()), path_segments: None };
    assert!(matches!(Session::uri_from_web_url(&no_path), Err(SpotifyError::Error(_))));
    let short = WebUrl { host: Some("open.spotify.com".to_string()), path_segments: Some(vec!["a".to_string()]) };
    assert!(matches!(Session::uri_from_web_url(&short), Err(SpotifyError::InvalidUri)));
}

#[test]
fn resolve_uri_picks_the_item_kind() {
    let s = Session { market: Some(7) };
    match s.resolve_uri("spotify:track:abc") {
        ResolveRequest::Track { id, market } => {
            assert_eq!(id, "abc");
            assert_eq!(market, Some(7));
        }
        other => panic!("unexpected {:?}", other),
    }
    match s.resolve_uri("spotify:playlist:p1") {
        ResolveRequest::Playlist { id, market } => {
            assert_eq!(id, "p1");
            assert_eq!(market, Some(7));
        }
        other => panic!("unexpected {:?}", other),
    }
    match s.resolve_uri("spotify:album:a1:extra") {
        ResolveRequest::Album { id, market } => {
            assert_eq!(id, "a1");
            assert_eq!(market, Some(7));
        }
        other => panic!("unexpected {:?}", other),
    }
    match s.resolve_uri("spotify:artist:z") {
        ResolveRequest::Artist { id } => assert_eq!(id, "z"),
        other => panic!("unexpected {:?}", other),
    }
    match s.resolve_uri("spotify:user:bob") {
        ResolveRequest::Other { uri } => assert_eq!(uri, "spotify:user:bob"),
        other => panic!("unexpected {:?}", other),
    }
}

#[test]
fn resolve_uri_of_web_link() {
    let s = Session { market: None };
    let uri = Session::parse_uri("https://open.spotify.com/artist/0OdUWJ0sBjDrqHygGUXeCF").unwrap();
    match s.resolve_uri(&uri) {
        ResolveRequest::Artist { id } => assert_eq!(id, "0OdUWJ0sBjDrqHygGUXeCF"),
        other => panic!("unexpected {:?}", other),
    }
}
