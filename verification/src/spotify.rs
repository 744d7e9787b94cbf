//! Catalog-side data model and request builders: the client-credentials
//! token request, the playlist tracks page URL, and the bearer header.

use vstd::prelude::*;
use crate::strutil::dec_of;
use crate::strutil::push_dec;

verus! {

/// One page of a playlist's tracks, as the catalog returns it.
#[derive(Default, Debug, Clone, PartialEq)]
pub struct PlaylistItemsObject {
    pub href: Option<String>,
    pub limit: Option<i64>,
    pub next: Option<String>,
    pub offset: Option<i64>,
    pub previous: Option<String>,
    pub total: Option<u16>,
    pub items: Vec<Item>,
}

/// One playlist entry; `track` is absent for local-only placeholders.
#[derive(Default, Debug, Clone, PartialEq)]
pub struct Item {
    pub added_at: Option<String>,
    pub added_by: Option<AddedBy>,
    pub is_local: Option<bool>,
    pub track: Option<Track>,
}

/// Credentials from the client-credentials grant.
#[derive(Default, Debug, Clone, PartialEq)]
pub struct SpotifyCredentials {
    pub access_token: String,
    pub token_type: String,
    pub expires_in: u16,
}

/// The user that added an entry to the playlist.
#[derive(Default, Debug, Clone, PartialEq)]
pub struct AddedBy {
    pub external_urls: Option<ExternalUrls>,
    pub followers: Option<Followers>,
    pub href: Option<String>,
    pub id: Option<String>,
    pub type_field: Option<String>,
    pub uri: Option<String>,
}

#[derive(Default, Debug, Clone, PartialEq)]
pub struct ExternalUrls {
    pub spotify: Option<String>,
}

#[derive(Default, Debug, Clone, PartialEq)]
pub struct Followers {
    pub href: Option<String>,
    pub total: Option<u16>,
}

/// A track as the catalog describes it; the downloader reads only `name`
/// and the artists' names.
#[derive(Default, Debug, Clone, PartialEq)]
pub struct Track {
    pub album: Option<Album>,
    pub artists: Option<Vec<Artist>>,
    pub available_markets: Option<Vec<String>>,
    pub disc_number: Option<u8>,
    pub duration_ms: Option<u32>,
    pub explicit: Option<bool>,
    pub external_ids: Option<ExternalIds>,
    pub external_urls: Option<ExternalUrls>,
    pub href: Option<String>,
    pub id: Option<String>,
    pub is_playable: Option<bool>,
    pub linked_from: Option<LinkedFrom>,
    pub restrictions: Option<Restrictions>,
    pub name: Option<String>,
    pub popularity: Option<u8>,
    pub preview_url: Option<String>,
    pub track_number: Option<u16>,
    pub type_field: Option<String>,
    pub uri: Option<String>,
    pub is_local: Option<bool>,
}

#[derive(Default, Debug, Clone, PartialEq)]
pub struct Album {
    pub album_type: Option<String>,
    pub total_tracks: Option<u16>,
    pub available_markets: Option<Vec<String>>,
    pub external_urls: Option<ExternalUrls>,
    pub href: Option<String>,
    pub id: Option<String>,
    pub images: Option<Vec<Image>>,
    pub name: Option<String>,
    pub release_date: Option<String>,
    pub release_date_precision: Option<String>,
    pub restrictions: Option<Restrictions>,
    pub type_field: Option<String>,
    pub uri: Option<String>,
    pub artists: Option<Vec<Artist>>,
}

#[derive(Default, Debug, Clone, PartialEq)]
pub struct Image {
    pub url: Option<String>,
    pub height: Option<u16>,
    pub width: Option<u16>,
}

#[derive(Default, Debug, Clone, PartialEq)]
pub struct Restrictions {
    pub reason: Option<String>,
}

#[derive(Default, Debug, Clone, PartialEq)]
pub struct Artist {
    pub external_urls: Option<ExternalUrls>,
    pub followers: Option<Followers>,
    pub genres: Option<Vec<String>>,
    pub href: Option<String>,
    pub id: Option<String>,
    pub images: Option<Vec<Image>>,
    pub name: Option<String>,
    pub popularity: Option<u8>,
    pub type_field: Option<String>,
    pub uri: Option<String>,
}

#[derive(Default, Debug, Clone, PartialEq)]
pub struct ExternalIds {
    pub isrc: Option<String>,
    pub ean: Option<String>,
    pub upc: Option<String>,
}

#[derive(Default, Debug, Clone, PartialEq)]
pub struct LinkedFrom {
    external_urls: Option<ExternalUrls>,
}

/// The token endpoint of the catalog's account service.
pub fn token_endpoint() -> (r: String)
    ensures
        r@ == "https://accounts.spotify.com/api/token"@,
{
    String::from_str("https://accounts.spotify.com/api/token")
}

/// The form-encoded body of a client-credentials token request.
pub fn token_request_body(client_id: &str, client_secret: &str) -> (r: String)
    ensures
        r@ == "grant_type=client_credentials&client_id="@ + client_id@ + "&client_secret="@
            + client_secret@,
{
    let mut r = String::from_str("grant_type=client_credentials&client_id=");
    r.append(client_id);
    r.append("&client_secret=");
    r.append(client_secret);
    r
}

/// The `Authorization` header value carrying a bearer token.
pub fn auth_header_value(access_token: &str) -> (r: String)
    ensures
        r@ == "Bearer "@ + access_token@,
{
    let mut r = String::from_str("Bearer ");
    r.append(access_token);
    r
}

/// The field projection requested for every playlist page: track name,
/// artist names, and the total count.
pub fn track_fields_filter() -> (r: String)
    ensures
        r@ == "items(track(name,artists(name))),total"@,
{
    String::from_str("items(track(name,artists(name))),total")
}

/// URL of one page of a playlist's tracks, fetched at `offset` with the
/// field projection `filter`.
pub fn playlist_tracks_url(playlist_id: &str, offset: u16, filter: &str) -> (r: String)
    ensures
        r@ == "https://api.spotify.com/v1/playlists/"@ + playlist_id@ + "/tracks?offset="@
            + dec_of(offset as int) + "&filter="@ + filter@,
{
    let mut r = String::from_str("https://api.spotify.com/v1/playlists/");
    r.append(playlist_id);
    r.append("/tracks?offset=");
    push_dec(&mut r, offset);
    r.append("&filter=");
    r.append(filter);
    r
}

} // verus!
