use radio_play::error::PlayError;
use radio_play::extract::{finish_extraction, plan_extraction, Extraction};
use radio_play::header::{check_stream_start, StreamStart};
use radio_play::meter::meter_cells;
use radio_play::redirect::RedirectFollower;
use radio_play::playlist::{first_entry, playlist_format, PlaylistFormat};
use radio_play::resolve::{Phase, Request, SearchHit, StationCandidate, Step, StreamResolver};

fn station(url: &str, playlist_type: Option<&str>) -> StationCandidate {
    StationCandidate {
        url: url.to_string(),
        playlist_type: playlist_type.map(|k| k.to_string()),
        media_type: "mp3".to_string(),
    }
}

fn hit(content_type: Option<&str>, guide_id: Option<&str>) -> SearchHit {
    SearchHit {
        content_type: content_type.map(|t| t.to_string()),
        guide_id: guide_id.map(|g| g.to_string()),
    }
}

fn resolved_url(step: &Step) -> Option<String> {
    match step {
        Step::Resolved(c) => Some(c.url.clone()),
        _ => None,
    }
}

#[test]
fn first_request_is_direct_lookup() {
    let r = StreamResolver::new("s12345".to_string());
    assert!(matches!(r.first_request(), Request::Lookup(id) if id == "s12345"));
    assert!(r.awaits_stations());
    assert!(!r.awaits_hits());
}

#[test]
fn direct_hit_selects_first_without_search() {
    let mut r = StreamResolver::new("s1".to_string());
    let step = r.on_stations(Ok(vec![
        station("http://a.example/one", None),
        station("http://b.example/two", Some("pls")),
    ]));
    assert_eq!(resolved_url(&step).as_deref(), Some("http://a.example/one"));
    assert!(r.phase == Phase::Finished);
}

#[test]
fn direct_hit_with_empty_url_is_not_found() {
    let mut r = StreamResolver::new("s1".to_string());
    let step = r.on_stations(Ok(vec![station("", None)]));
    assert!(matches!(step, Step::Failed(PlayError::NotFound)));
}

#[test]
fn non_audio_search_hit_is_not_found() {
    let mut r = StreamResolver::new("news".to_string());
    let step = r.on_stations(Ok(vec![]));
    assert!(matches!(step, Step::Issue(Request::Search(q)) if q == "news"));
    let step = r.on_hits(Ok(vec![hit(Some("link"), Some("c100")), hit(Some("audio"), Some("s9"))]));
    assert!(matches!(step, Step::Failed(PlayError::NotFound)));
    assert!(r.phase == Phase::Finished);
}

#[test]
fn search_hit_without_type_is_not_found() {
    let mut r = StreamResolver::new("news".to_string());
    r.on_stations(Ok(vec![]));
    let step = r.on_hits(Ok(vec![hit(None, Some("s9"))]));
    assert!(matches!(step, Step::Failed(PlayError::NotFound)));
}

#[test]
fn audio_hit_without_id_is_not_found() {
    let mut r = StreamResolver::new("news".to_string());
    r.on_stations(Ok(vec![]));
    let step = r.on_hits(Ok(vec![hit(Some("audio"), None)]));
    assert!(matches!(step, Step::Failed(PlayError::NotFound)));
}

#[test]
fn search_fallback_makes_one_secondary_lookup() {
    let mut r = StreamResolver::new("jazz".to_string());
    r.on_stations(Ok(vec![]));
    let step = r.on_hits(Ok(vec![hit(Some("audio"), Some("s33"))]));
    assert!(matches!(step, Step::Issue(Request::Lookup(id)) if id == "s33"));
    assert!(r.phase == Phase::Secondary);
    let step = r.on_stations(Ok(vec![station("http://jazz.example/s", Some("m3u"))]));
    assert_eq!(resolved_url(&step).as_deref(), Some("http://jazz.example/s"));
    assert!(r.phase == Phase::Finished);
}

#[test]
fn empty_secondary_lookup_is_not_found() {
    let mut r = StreamResolver::new("jazz".to_string());
    r.on_stations(Ok(vec![]));
    r.on_hits(Ok(vec![hit(Some("audio"), Some("s33"))]));
    let step = r.on_stations(Ok(vec![]));
    assert!(matches!(step, Step::Failed(PlayError::NotFound)));
    assert!(r.phase == Phase::Finished);
}

#[test]
fn transport_errors_are_lookup_failures() {
    let mut r = StreamResolver::new("x".to_string());
    let step = r.on_stations(Err("connection refused".to_string()));
    assert!(matches!(step, Step::Failed(PlayError::LookupFailed(m)) if m == "connection refused"));
    let mut r = StreamResolver::new("x".to_string());
    r.on_stations(Ok(vec![]));
    let step = r.on_hits(Err("timeout".to_string()));
    assert!(matches!(step, Step::Failed(PlayError::LookupFailed(m)) if m == "timeout"));
}

#[test]
fn unknown_identifier_is_not_found() {
    let mut r = StreamResolver::new("xyz".to_string());
    let step = r.on_stations(Ok(vec![]));
    assert!(matches!(step, Step::Issue(Request::Search(q)) if q == "xyz"));
    let step = r.on_hits(Ok(vec![]));
    assert!(matches!(step, Step::Failed(PlayError::NotFound)));
    assert!(r.phase == Phase::Finished);
}

#[test]
fn no_playlist_kind_keeps_url() {
    let e = plan_extraction("http://stream.example/live.mp3".to_string(), None);
    assert!(matches!(e, Extraction::Direct(u) if u == "http://stream.example/live.mp3"));
}

#[test]
fn playlist_kind_needs_fetch() {
    let e = plan_extraction("http://x.example/a.pls".to_string(), Some("pls".to_string()));
    assert!(matches!(e, Extraction::FetchPlaylist { url, kind } if url == "http://x.example/a.pls" && kind == "pls"));
}

#[test]
fn extraction_results() {
    let ok = finish_extraction(Ok(Some("http://s.example/x".to_string())));
    assert!(matches!(ok, Ok(u) if u == "http://s.example/x"));
    assert!(matches!(finish_extraction(Ok(None)), Err(PlayError::ExtractionFailed(_))));
    assert!(matches!(finish_extraction(Ok(Some(String::new()))), Err(PlayError::ExtractionFailed(_))));
    let failed = finish_extraction(Err("bad body".to_string()));
    assert!(matches!(failed, Err(PlayError::ExtractionFailed(m)) if m == "bad body"));
}

#[test]
fn three_redirect_chain_returns_second_hop() {
    // A -> B -> C -> D: the response of C is returned.
    let mut f = RedirectFollower::with_default_cap();
    assert_eq!(f.on_response(Some("B".to_string())).as_deref(), Some("B"));
    assert_eq!(f.on_response(Some("C".to_string())).as_deref(), Some("C"));
    assert_eq!(f.on_response(Some("D".to_string())), None);
    assert_eq!(f.hops(), 2);
}

#[test]
fn response_without_location_is_final() {
    let mut f = RedirectFollower::with_default_cap();
    assert_eq!(f.on_response(None), None);
    assert_eq!(f.hops(), 0);
    let mut f = RedirectFollower::new(0);
    assert_eq!(f.on_response(Some("B".to_string())), None);
}

#[test]
fn invalid_stream_start_fails_to_decode() {
    assert!(matches!(check_stream_start(&[]), Err(PlayError::DecodeFailed)));
    assert!(matches!(check_stream_start(&[0xFF, 0xFB]), Err(PlayError::DecodeFailed)));
    assert!(matches!(check_stream_start(b"<html>"), Err(PlayError::DecodeFailed)));
    // reserved layer bits
    assert!(matches!(check_stream_start(&[0xFF, 0xF9, 0x90, 0x64]), Err(PlayError::DecodeFailed)));
    // bad bitrate index
    assert!(matches!(check_stream_start(&[0xFF, 0xFB, 0xF0, 0x64]), Err(PlayError::DecodeFailed)));
}

#[test]
fn valid_stream_starts() {
    assert!(matches!(check_stream_start(&[0xFF, 0xFB, 0x90, 0x64, 0x00]), Ok(StreamStart::FrameHeader)));
    assert!(matches!(check_stream_start(b"ID3\x04\x00"), Ok(StreamStart::Id3Tag)));
}

#[test]
fn meter_rows() {
    let zero = meter_cells(0);
    assert_eq!(zero.len(), 20);
    assert_eq!(zero.iter().filter(|c| **c).count(), 1);
    assert!(meter_cells(1000).iter().all(|c| *c));
    let mid = meter_cells(525);
    assert_eq!(mid.iter().filter(|c| **c).count(), 11);
    assert!(mid[10] && !mid[11]);
}

#[test]
fn error_messages() {
    assert_eq!(PlayError::NotFound.message(), "No station found");
    assert_eq!(PlayError::FetchFailed("refused".to_string()).message(), "refused");
}

#[test]
fn jazz24_plays_its_direct_stream() {
    let mut r = StreamResolver::new("jazz24".to_string());
    let step = r.on_stations(Ok(vec![station("http://stream.example/live.mp3", None)]));
    let candidate = match step {
        Step::Resolved(c) => c,
        _ => panic!("not resolved"),
    };
    let url = match plan_extraction(candidate.url, candidate.playlist_type) {
        Extraction::Direct(u) => u,
        _ => panic!("playlist fetch not expected"),
    };
    assert_eq!(url, "http://stream.example/live.mp3");
    let mut f = RedirectFollower::with_default_cap();
    assert_eq!(f.on_response(None), None);
    assert!(matches!(check_stream_start(&[0xFF, 0xFB, 0x90, 0x64]), Ok(StreamStart::FrameHeader)));
}

#[test]
fn m3u_first_entry_skips_comments() {
    let body = b"#EXTM3U\r\n#EXTINF:-1,Jazz\r\nhttp://s.example/a.mp3\r\nhttp://s.example/b.mp3\n";
    let e = first_entry(PlaylistFormat::M3u, body);
    assert_eq!(e.as_deref(), Some(&b"http://s.example/a.mp3"[..]));
    assert_eq!(first_entry(PlaylistFormat::M3u, b"#only\n\n"), None);
    assert_eq!(first_entry(PlaylistFormat::M3u, b""), None);
}

#[test]
fn pls_first_entry_reads_file_line() {
    let body = b"[playlist]\nNumberOfEntries=1\nFile1=http://s.example/live\nTitle1=Live\n";
    let e = first_entry(PlaylistFormat::Pls, body);
    assert_eq!(e.as_deref(), Some(&b"http://s.example/live"[..]));
    assert_eq!(first_entry(PlaylistFormat::Pls, b"[playlist]\nFile1=\n"), None);
}

#[test]
fn playlist_kind_names_format() {
    assert!(playlist_format(&"pls".to_string()) == PlaylistFormat::Pls);
    assert!(playlist_format(&"m3u".to_string()) == PlaylistFormat::M3u);
}
