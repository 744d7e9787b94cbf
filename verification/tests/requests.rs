use playlistdl::download::conversion_endpoint;
use playlistdl::download::conversion_request_body;
use playlistdl::spotify::auth_header_value;
use playlistdl::spotify::playlist_tracks_url;
use playlistdl::spotify::token_endpoint;
use playlistdl::spotify::token_request_body;
use playlistdl::spotify::track_fields_filter;
use playlistdl::youtube::search_url;
use playlistdl::youtube::video_url;

#[test]
fn token_request_is_form_encoded() {
    assert_eq!(
        token_request_body("my-id", "my-secret"),
        "grant_type=client_credentials&client_id=my-id&client_secret=my-secret"
    );
    assert_eq!(token_endpoint(), "https://accounts.spotify.com/api/token");
}

#[test]
fn bearer_header() {
    assert_eq!(auth_header_value("tok123"), "Bearer tok123");
}

#[test]
fn fields_filter_requests_names_and_total() {
    assert_eq!(track_fields_filter(), "items(track(name,artists(name))),total");
}

#[test]
fn playlist_url_carries_offset_and_filter() {
    assert_eq!(
        playlist_tracks_url("pl42", 0, "items(track(name,artists(name))),total"),
        "https://api.spotify.com/v1/playlists/pl42/tracks?offset=0&filter=items(track(name,artists(name))),total"
    );
    assert_eq!(
        playlist_tracks_url("p", 10, "f"),
        "https://api.spotify.com/v1/playlists/p/tracks?offset=10&filter=f"
    );
    assert_eq!(
        playlist_tracks_url("p", 65535, "f"),
        "https://api.spotify.com/v1/playlists/p/tracks?offset=65535&filter=f"
    );
}

#[test]
fn search_url_carries_all_parameters() {
    assert_eq!(
        search_url("Band - Song", "relevance", "video"),
        "https://iv.ggtyler.dev/api/v1/search?q=Band - Song&sort_by=relevance&type=video"
    );
}

#[test]
fn video_url_is_canonical() {
    assert_eq!(video_url("abc123"), "https://youtu.be/abc123");
}

#[test]
fn conversion_request_is_audio_only_json() {
    assert_eq!(conversion_endpoint(), "https://co.wuk.sh/api/json");
    assert_eq!(
        conversion_request_body("https://youtu.be/abc123"),
        "{\"url\":\"https://youtu.be/abc123\",\"isAudioOnly\":\"true\"}"
    );
}

#[test]
fn conversion_request_escapes_the_url() {
    let body = conversion_request_body("a\"b\\c\nd\u{1}");
    assert_eq!(
        body,
        "{\"url\":\"a\\\"b\\\\c\\nd\\u0001\",\"isAudioOnly\":\"true\"}"
    );
    // The produced body must parse back to the same URL.
    let parsed: serde_json::Value = serde_json::from_str(&body).unwrap();
    assert_eq!(parsed["url"].as_str().unwrap(), "a\"b\\c\nd\u{1}");
    assert_eq!(parsed["isAudioOnly"].as_str().unwrap(), "true");
}
