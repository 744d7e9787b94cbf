//! One whole run against canned remote answers: two tracks over two pages,
//! one search candidate, one conversion answer, a three-byte body streamed
//! in two chunks.

use std::collections::HashMap;

use playlistdl::download::conversion_request_body;
use playlistdl::download::plan_item;
use playlistdl::download::resolve_download_url;
use playlistdl::download::stream_chunks;
use playlistdl::download::FileSink;
use playlistdl::engine::Paginator;
use playlistdl::engine::TrackStart;
use playlistdl::spotify::Artist;
use playlistdl::spotify::Item;
use playlistdl::spotify::Track;
use playlistdl::youtube::first_video_id;
use playlistdl::youtube::video_url;
use playlistdl::youtube::SearchResult;

fn one_track_item(name: &str) -> Item {
    Item {
        track: Some(Track {
            name: Some(name.to_string()),
            artists: Some(vec![Artist {
                name: Some("Band".to_string()),
                ..Default::default()
            }]),
            ..Default::default()
        }),
        ..Default::default()
    }
}

// One page per fetch; the first also carries a local-only placeholder
// entry without a track, which must be passed over without advancing.
fn fake_page(offset: u16) -> Vec<Item> {
    match offset {
        0 => vec![Item::default(), one_track_item("Song")],
        1 => vec![one_track_item("Tune")],
        _ => panic!("no page was expected at offset {offset}"),
    }
}

fn fake_search(query: &str) -> Vec<SearchResult> {
    assert!(query == "Band - Song" || query == "Band - Tune");
    vec![SearchResult {
        title: "x".to_string(),
        video_id: "abc123".to_string(),
    }]
}

fn fake_convert(body: &str) -> String {
    assert_eq!(
        body,
        "{\"url\":\"https://youtu.be/abc123\",\"isAudioOnly\":\"true\"}"
    );
    "{\"url\":\"http://host/direct.m4a\"}".to_string()
}

fn fake_stream(url: &str) -> Vec<Vec<u8>> {
    assert_eq!(url, "http://host/direct.m4a");
    vec![vec![0u8], vec![1u8, 2u8]]
}

#[test]
fn two_track_playlist_end_to_end() {
    let mut files: HashMap<String, Vec<u8>> = HashMap::new();
    let mut pager = Paginator::start(Some(2)).unwrap();
    let mut network_calls: u32 = 0;

    while pager.should_fetch() {
        let page = fake_page(pager.next_fetch_offset());
        for item in page {
            let Some(plan) = plan_item(&item).unwrap() else { continue };
            let exists = files.contains_key(&plan.filename);
            match pager.begin_track(plan, exists) {
                TrackStart::Skip => {}
                TrackStart::Download(plan) => {
                    network_calls += 1;
                    let results = fake_search(&plan.query);
                    let id = first_video_id(&results).unwrap();
                    let url = video_url(&id);
                    let response = fake_convert(&conversion_request_body(&url));
                    let direct = resolve_download_url(&response).unwrap();
                    let mut sink = FileSink::create();
                    let chunks = fake_stream(&direct);
                    stream_chunks(&mut sink, &chunks);
                    files.insert(plan.filename, sink.into_bytes());
                    pager.record_track();
                }
            }
        }
    }

    assert_eq!(pager.offset, 2);
    assert_eq!(network_calls, 2);
    assert_eq!(files.len(), 2);
    assert_eq!(files["Song.m4a"], vec![0u8, 1u8, 2u8]);
    assert_eq!(files["Tune.m4a"], vec![0u8, 1u8, 2u8]);
}

#[test]
fn existing_file_makes_no_network_call() {
    let mut files: HashMap<String, Vec<u8>> = HashMap::new();
    files.insert("Song.m4a".to_string(), vec![42u8]);
    let mut pager = Paginator::start(Some(1)).unwrap();
    let mut network_calls: u32 = 0;

    while pager.should_fetch() {
        let page = fake_page(pager.next_fetch_offset());
        for item in page {
            let Some(plan) = plan_item(&item).unwrap() else { continue };
            let exists = files.contains_key(&plan.filename);
            match pager.begin_track(plan, exists) {
                TrackStart::Skip => {}
                TrackStart::Download(_) => {
                    network_calls += 1;
                    unreachable!("the existing file must be skipped");
                }
            }
        }
    }

    assert_eq!(pager.offset, 1);
    assert_eq!(network_calls, 0);
    assert_eq!(files["Song.m4a"], vec![42u8]);
}
