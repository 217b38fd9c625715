use csh_jukebox::fingerprint::acoustid::{
    best_index, lookup_by_fingerprint, outranks, push_decimal, select_best, AcoustIDResponse,
    AcoustIDResult, Artist, PrimaryType, Recording, ReleaseGroup,
};
use csh_jukebox::fingerprint::artwork::{
    first_image, resolve_art, ArtStep, CoverArtArchiveResponse, CoverArtImage,
};
use csh_jukebox::fingerprint::catalog::{
    disambiguate, find_type, has_typed_group, primary_artist, ArtistCredit, CanonicalRecording,
    Release,
};
use csh_jukebox::fingerprint::chromaprint::{
    calculate_fingerprint, read_fingerprint, FingerprintData, FingerprintRun,
};
use csh_jukebox::fingerprint::error::{push_signed, ResolveError};
use csh_jukebox::fingerprint::{accepts, lookup_song, Action, Event, SongMetadata, Stage};

fn candidate(id: &str, score: f64, recordings: Option<Vec<Recording>>) -> AcoustIDResult {
    AcoustIDResult { id: id.to_string(), score_bits: score.to_bits(), recordings }
}

fn recording(id: &str) -> Recording {
    Recording { id: id.to_string(), duration: Some(215), release_groups: None, artists: None }
}

fn group(id: &str, kind: Option<PrimaryType>, title: &str) -> ReleaseGroup {
    ReleaseGroup { id: id.to_string(), release_type: kind, title: title.to_string() }
}

fn release(id: &str, kind: Option<PrimaryType>, title: &str) -> Release {
    Release { release_group: Some(group(id, kind, title)) }
}

fn recording_with(releases: Option<Vec<Release>>) -> CanonicalRecording {
    CanonicalRecording { title: "Song A".to_string(), artist_credit: None, releases }
}

fn ok_response(results: Vec<AcoustIDResult>) -> AcoustIDResponse {
    AcoustIDResponse { status: "ok".to_string(), results }
}

fn art(urls: &[&str]) -> CoverArtArchiveResponse {
    CoverArtArchiveResponse {
        images: urls.iter().map(|u| CoverArtImage { image: u.to_string() }).collect(),
        release: "https://musicbrainz.org/release/g1".to_string(),
    }
}

fn finished(action: Action) -> Result<SongMetadata, ResolveError> {
    match action {
        Action::Finish(result) => result,
        other => panic!("the resolution goes on: {:?}", other),
    }
}

#[test]
fn select_best_takes_the_highest_score() {
    let list = vec![candidate("a", 0.2, None), candidate("b", 0.9, None), candidate("c", 0.5, None)];
    let best = select_best(list).unwrap();
    assert_eq!(best.id, "b");
    assert_eq!(best.score_bits, 0.9f64.to_bits());
}

#[test]
fn select_best_of_one_is_that_one() {
    let best = select_best(vec![candidate("only", 0.0, None)]).unwrap();
    assert_eq!(best.id, "only");
}

#[test]
fn select_best_breaks_ties_by_position() {
    let list = vec![
        candidate("low", 0.1, None),
        candidate("first", 0.7, None),
        candidate("second", 0.7, None),
        candidate("third", 0.7, None),
    ];
    assert_eq!(best_index(&list), 1);
    assert_eq!(select_best(list).unwrap().id, "first");
}

#[test]
fn select_best_keeps_the_linked_recordings() {
    let list = vec![
        candidate("a", 0.3, None),
        candidate("b", 0.8, Some(vec![recording("r1"), recording("r2")])),
    ];
    let best = select_best(list).unwrap();
    let recordings = best.recordings.unwrap();
    assert_eq!(recordings.len(), 2);
    assert_eq!(recordings[0].id, "r1");
}

#[test]
fn select_best_of_nothing_fails() {
    assert!(matches!(select_best(Vec::new()), Err(ResolveError::NoCandidates)));
}

#[test]
fn scores_follow_the_total_order() {
    let bits = |x: f64| x.to_bits();
    assert!(outranks(bits(0.9), bits(0.5)));
    assert!(!outranks(bits(0.5), bits(0.9)));
    assert!(!outranks(bits(0.5), bits(0.5)));
    assert!(outranks(bits(0.0), bits(-0.0)));
    assert!(outranks(bits(-1.0), bits(-2.0)));
    assert!(!outranks(bits(-2.0), bits(-1.0)));
    assert!(outranks(bits(0.1), bits(-3.0)));
    assert!(outranks(bits(f64::INFINITY), bits(1.0)));
    assert!(outranks(bits(f64::NAN), bits(f64::INFINITY)));
    assert!(outranks(bits(-1.0), bits(f64::NEG_INFINITY)));
}

#[test]
fn scores_order_as_the_numbers_do() {
    let values = [-2.5f64, -1.0, -0.0, 0.0, 1e-9, 0.25, 0.5, 0.999, 1.0, 7.0];
    for a in values {
        for b in values {
            let above = a.total_cmp(&b) == std::cmp::Ordering::Greater;
            assert_eq!(outranks(a.to_bits(), b.to_bits()), above);
        }
    }
}

#[test]
fn first_recording_is_the_one_listed_first() {
    let best = candidate("a", 0.9, Some(vec![recording("r1"), recording("r2")]));
    assert_eq!(best.first_recording().unwrap().id, "r1");
}

#[test]
fn candidate_without_recordings_is_reported_as_such() {
    assert!(matches!(
        candidate("a", 0.9, None).first_recording(),
        Err(ResolveError::NoRecordings)
    ));
    assert!(matches!(
        candidate("a", 0.9, Some(Vec::new())).first_recording(),
        Err(ResolveError::NoRecordings)
    ));
}

#[test]
fn response_hands_its_candidates_on_in_order() {
    let response = ok_response(vec![candidate("a", 0.1, None), candidate("b", 0.9, None)]);
    let list = response.candidates().unwrap();
    assert_eq!(list.len(), 2);
    assert_eq!(list[0].id, "a");
    assert_eq!(list[1].id, "b");
}

#[test]
fn success_without_candidates_breaks_the_protocol() {
    assert!(matches!(ok_response(Vec::new()).candidates(), Err(ResolveError::ProtocolViolation)));
}

#[test]
fn failure_status_is_an_error() {
    let response =
        AcoustIDResponse { status: "error".to_string(), results: vec![candidate("a", 0.9, None)] };
    match response.candidates() {
        Err(ResolveError::LookupFailed(status)) => assert_eq!(status, "error"),
        other => panic!("unexpected: {:?}", other),
    }
}

#[test]
fn numbers_are_written_in_decimal() {
    for (n, text) in [(0usize, "0"), (7, "7"), (10, "10"), (215, "215"), (1000, "1000"), (90210, "90210")]
    {
        let mut out = String::new();
        push_decimal(&mut out, n);
        assert_eq!(out, text);
    }
    let mut out = String::from("t=");
    push_decimal(&mut out, usize::MAX);
    assert_eq!(out, format!("t={}", usize::MAX));
}

#[test]
fn lookup_request_names_client_duration_and_fingerprint() {
    let fp = FingerprintData { duration_bits: 215.73f64.to_bits(), fp: "AQADtEmi".to_string() };
    let request = lookup_by_fingerprint("my-client", &fp, 215);
    assert_eq!(
        request.url,
        "https://api.acoustid.org/v2/lookup?meta=recordings+releasegroups+compress"
    );
    let expected = [
        ("format", "json"),
        ("client", "my-client"),
        ("duration", "215"),
        ("fingerprint", "AQADtEmi"),
    ];
    assert_eq!(request.query.len(), expected.len());
    for (got, want) in request.query.iter().zip(expected.iter()) {
        assert_eq!(got.0, want.0);
        assert_eq!(got.1, want.1);
    }
}

#[test]
fn disambiguate_release_without_group_gives_none() {
    let rec = recording_with(Some(vec![Release { release_group: None }]));
    let choice = disambiguate(&rec);
    assert_eq!(choice.album_title, "None");
    assert_eq!(choice.album_id, None);
}

#[test]
fn disambiguate_empty_release_list_gives_none() {
    let choice = disambiguate(&recording_with(Some(Vec::new())));
    assert_eq!(choice.album_title, "None");
    assert_eq!(choice.album_id, None);
}

#[test]
fn disambiguate_group_without_type_gives_none() {
    let choice = disambiguate(&recording_with(Some(vec![release("g1", None, "Untyped")])));
    assert_eq!(choice.album_title, "None");
    assert_eq!(choice.album_id, None);
}

#[test]
fn disambiguate_without_releases_finds_nothing() {
    let choice = disambiguate(&recording_with(None));
    assert_eq!(choice.album_title, "Not Found");
    assert_eq!(choice.album_id, None);
}

#[test]
fn disambiguate_album_gives_its_title_and_id() {
    let rec = recording_with(Some(vec![release("a1", Some(PrimaryType::Album), "X")]));
    let choice = disambiguate(&rec);
    assert_eq!(choice.album_title, "X");
    assert_eq!(choice.album_id.as_deref(), Some("a1"));
}

#[test]
fn disambiguate_ep_gives_its_title_and_id() {
    let rec = recording_with(Some(vec![release("e1", Some(PrimaryType::Ep), "Short")]));
    let choice = disambiguate(&rec);
    assert_eq!(choice.album_title, "Short");
    assert_eq!(choice.album_id.as_deref(), Some("e1"));
}

#[test]
fn disambiguate_single_replaces_the_title_and_keeps_the_id() {
    let rec = recording_with(Some(vec![release("s1", Some(PrimaryType::Single), "Own Title")]));
    let choice = disambiguate(&rec);
    assert_eq!(choice.album_title, "Single");
    assert_eq!(choice.album_id.as_deref(), Some("s1"));
}

#[test]
fn disambiguate_other_types_are_unrecognized() {
    for kind in [PrimaryType::Broadcast, PrimaryType::Other, PrimaryType::Unrecognized] {
        let rec = recording_with(Some(vec![release("b1", Some(kind), "Show")]));
        let choice = disambiguate(&rec);
        assert_eq!(choice.album_title, "Unrecognized Release Type");
        assert_eq!(choice.album_id, None);
    }
}

#[test]
fn disambiguate_prefers_album_over_ep_over_single() {
    let rec = recording_with(Some(vec![
        release("s1", Some(PrimaryType::Single), "S"),
        Release { release_group: None },
        release("e1", Some(PrimaryType::Ep), "E"),
        release("o1", Some(PrimaryType::Other), "O"),
        release("a1", Some(PrimaryType::Album), "A"),
    ]));
    let choice = disambiguate(&rec);
    assert_eq!(choice.album_title, "A");
    assert_eq!(choice.album_id.as_deref(), Some("a1"));

    let rec = recording_with(Some(vec![
        release("s1", Some(PrimaryType::Single), "S"),
        release("u1", None, "U"),
        release("e1", Some(PrimaryType::Ep), "E"),
    ]));
    let choice = disambiguate(&rec);
    assert_eq!(choice.album_title, "E");
    assert_eq!(choice.album_id.as_deref(), Some("e1"));
}

#[test]
fn disambiguate_takes_the_first_of_several_albums() {
    let rec = recording_with(Some(vec![
        release("e1", Some(PrimaryType::Ep), "E"),
        release("a1", Some(PrimaryType::Album), "First"),
        release("a2", Some(PrimaryType::Album), "Second"),
    ]));
    let choice = disambiguate(&rec);
    assert_eq!(choice.album_title, "First");
    assert_eq!(choice.album_id.as_deref(), Some("a1"));
}

#[test]
fn find_type_skips_releases_of_other_types() {
    let releases = vec![
        Release { release_group: None },
        release("u1", None, "U"),
        release("s1", Some(PrimaryType::Single), "S"),
        release("s2", Some(PrimaryType::Single), "T"),
    ];
    assert_eq!(find_type(&releases, PrimaryType::Single).unwrap().id, "s1");
    assert!(find_type(&releases, PrimaryType::Album).is_none());
    assert!(has_typed_group(&releases));
    assert!(!has_typed_group(&releases[..2].to_vec()));
}

#[test]
fn primary_artist_is_the_first_credit() {
    let mut rec = recording_with(None);
    assert_eq!(primary_artist(&rec), "Not Found");
    rec.artist_credit = Some(Vec::new());
    assert_eq!(primary_artist(&rec), "Not Found");
    rec.artist_credit = Some(vec![
        ArtistCredit { name: "Artist A".to_string() },
        ArtistCredit { name: "Artist B".to_string() },
    ]);
    assert_eq!(primary_artist(&rec), "Artist A");
}

#[test]
fn resolve_art_without_album_asks_nothing() {
    assert!(matches!(resolve_art(None), ArtStep::Settled(None)));
}

#[test]
fn resolve_art_asks_by_the_album_id() {
    match resolve_art(Some("a1".to_string())) {
        ArtStep::Fetch(url) => assert_eq!(url, "https://coverartarchive.org/release/a1"),
        other => panic!("unexpected: {:?}", other),
    }
}

#[test]
fn first_image_is_the_artwork() {
    let found = first_image(Ok(art(&["http://x/1.jpg", "http://x/2.jpg"]))).unwrap();
    assert_eq!(found.as_deref(), Some("http://x/1.jpg"));
}

#[test]
fn failed_artwork_call_is_an_error() {
    match first_image(Err("connection reset".to_string())) {
        Err(ResolveError::Transport(message)) => assert_eq!(message, "connection reset"),
        other => panic!("unexpected: {:?}", other),
    }
}

#[test]
fn resolution_end_to_end() {
    let duration = 215.73f64;
    let (stage, action) = lookup_song(Stage::Idle, Event::Start("a.flac".to_string()));
    assert!(matches!(stage, Stage::Fingerprinting));
    match action {
        Action::ComputeFingerprint(command) => {
            assert_eq!(command.program, "fpcalc");
            assert_eq!(command.args, ["-json", "a.flac"]);
        },
        other => panic!("unexpected: {:?}", other),
    }

    let fp = FingerprintData { duration_bits: duration.to_bits(), fp: "AQADtEmi".to_string() };
    let run = FingerprintRun { exit_code: Some(0), output: Ok(fp) };
    let (stage, action) = lookup_song(stage, Event::Fingerprint(Ok(run)));
    assert!(matches!(stage, Stage::Identifying { duration_bits } if duration_bits == duration.to_bits()));
    assert!(matches!(action, Action::LookupIdentity(ref fp) if fp.fp == "AQADtEmi"));

    let response = ok_response(vec![candidate("t1", 0.9, Some(vec![recording("r1")]))]);
    let (stage, action) = lookup_song(stage, Event::Identity(Ok(response)));
    assert!(matches!(stage, Stage::Enriching { .. }));
    assert!(matches!(action, Action::FetchRecording(ref id) if id == "r1"));

    let rec = CanonicalRecording {
        title: "Song A".to_string(),
        artist_credit: Some(vec![ArtistCredit { name: "Artist A".to_string() }]),
        releases: Some(vec![release("g1", Some(PrimaryType::Album), "Album A")]),
    };
    let (stage, action) = lookup_song(stage, Event::Recording(Ok(rec)));
    assert!(matches!(stage, Stage::FetchingArt { .. }));
    assert!(
        matches!(action, Action::FetchArtwork(ref url) if url == "https://coverartarchive.org/release/g1")
    );

    let (stage, action) = lookup_song(stage, Event::Artwork(Ok(art(&["http://x/1.jpg"]))));
    assert!(matches!(stage, Stage::Finished));
    let meta = finished(action).unwrap();
    assert_eq!(meta.title, "Song A");
    assert_eq!(meta.artist, "Artist A");
    assert_eq!(meta.album, "Album A");
    assert_eq!(meta.album_art.as_deref(), Some("http://x/1.jpg"));
    assert_eq!(f64::from_bits(meta.duration_bits), duration);
}

#[test]
fn empty_success_aborts_before_the_catalog() {
    let stage = Stage::Identifying { duration_bits: 3.0f64.to_bits() };
    let (stage, action) = lookup_song(stage, Event::Identity(Ok(ok_response(Vec::new()))));
    assert!(matches!(stage, Stage::Finished));
    assert!(matches!(finished(action), Err(ResolveError::ProtocolViolation)));
}

#[test]
fn failure_status_aborts_the_resolution() {
    let stage = Stage::Identifying { duration_bits: 3.0f64.to_bits() };
    let response = AcoustIDResponse { status: "error".to_string(), results: Vec::new() };
    let (stage, action) = lookup_song(stage, Event::Identity(Ok(response)));
    assert!(matches!(stage, Stage::Finished));
    assert!(matches!(finished(action), Err(ResolveError::LookupFailed(ref s)) if s == "error"));
}

#[test]
fn best_candidate_without_recordings_aborts() {
    let stage = Stage::Identifying { duration_bits: 3.0f64.to_bits() };
    let response = ok_response(vec![
        candidate("low", 0.2, Some(vec![recording("r1")])),
        candidate("high", 0.8, None),
    ]);
    let (stage, action) = lookup_song(stage, Event::Identity(Ok(response)));
    assert!(matches!(stage, Stage::Finished));
    assert!(matches!(finished(action), Err(ResolveError::NoRecordings)));
}

#[test]
fn recording_of_the_best_candidate_is_fetched() {
    let stage = Stage::Identifying { duration_bits: 3.0f64.to_bits() };
    let response = ok_response(vec![
        candidate("low", 0.2, Some(vec![recording("r1")])),
        candidate("high", 0.8, Some(vec![recording("r2"), recording("r3")])),
        candidate("tie", 0.8, Some(vec![recording("r4")])),
    ]);
    let (_, action) = lookup_song(stage, Event::Identity(Ok(response)));
    assert!(matches!(action, Action::FetchRecording(ref id) if id == "r2"));
}

#[test]
fn transport_failure_aborts_at_every_stage() {
    let d = 3.0f64.to_bits();
    let found = SongMetadata {
        title: "t".to_string(),
        artist: "a".to_string(),
        album: "b".to_string(),
        album_art: None,
        duration_bits: d,
    };
    let cases = vec![
        (Stage::Fingerprinting, Event::Fingerprint(Err("no fpcalc".to_string())), "no fpcalc"),
        (Stage::Identifying { duration_bits: d }, Event::Identity(Err("503".to_string())), "503"),
        (Stage::Enriching { duration_bits: d }, Event::Recording(Err("timeout".to_string())), "timeout"),
        (Stage::FetchingArt { found }, Event::Artwork(Err("404".to_string())), "404"),
    ];
    for (stage, event, text) in cases {
        assert!(accepts(&stage, &event));
        let (stage, action) = lookup_song(stage, event);
        assert!(matches!(stage, Stage::Finished));
        assert!(matches!(finished(action), Err(ResolveError::Transport(ref m)) if m == text));
    }
}

#[test]
fn missing_album_and_artist_degrade_to_placeholders() {
    let d = 61.5f64.to_bits();
    let rec = CanonicalRecording { title: "Song B".to_string(), artist_credit: None, releases: None };
    let (stage, action) = lookup_song(Stage::Enriching { duration_bits: d }, Event::Recording(Ok(rec)));
    assert!(matches!(stage, Stage::Finished));
    let meta = finished(action).unwrap();
    assert_eq!(meta.title, "Song B");
    assert_eq!(meta.artist, "Not Found");
    assert_eq!(meta.album, "Not Found");
    assert_eq!(meta.album_art, None);
    assert_eq!(meta.duration_bits, d);
}

#[test]
fn missing_artist_does_not_block_the_album() {
    let d = 61.5f64.to_bits();
    let rec = CanonicalRecording {
        title: "Song C".to_string(),
        artist_credit: None,
        releases: Some(vec![release("o1", Some(PrimaryType::Other), "Odd")]),
    };
    let (stage, action) = lookup_song(Stage::Enriching { duration_bits: d }, Event::Recording(Ok(rec)));
    assert!(matches!(stage, Stage::Finished));
    let meta = finished(action).unwrap();
    assert_eq!(meta.artist, "Not Found");
    assert_eq!(meta.album, "Unrecognized Release Type");
    assert_eq!(meta.album_art, None);
}

#[test]
fn single_keeps_its_id_for_the_artwork() {
    let d = 1.0f64.to_bits();
    let rec = CanonicalRecording {
        title: "Song D".to_string(),
        artist_credit: Some(vec![ArtistCredit { name: "Artist D".to_string() }]),
        releases: Some(vec![release("s1", Some(PrimaryType::Single), "Own Title")]),
    };
    let (stage, action) = lookup_song(Stage::Enriching { duration_bits: d }, Event::Recording(Ok(rec)));
    assert!(
        matches!(action, Action::FetchArtwork(ref url) if url == "https://coverartarchive.org/release/s1")
    );
    match stage {
        Stage::FetchingArt { found } => {
            assert_eq!(found.album, "Single");
            assert_eq!(found.artist, "Artist D");
            assert_eq!(found.album_art, None);
        },
        other => panic!("unexpected: {:?}", other),
    }
}

#[test]
fn accepts_only_the_answer_that_is_waited_for() {
    let d = 1.0f64.to_bits();
    assert!(accepts(&Stage::Idle, &Event::Start("a".to_string())));
    assert!(!accepts(&Stage::Fingerprinting, &Event::Start("a".to_string())));
    assert!(!accepts(&Stage::Idle, &Event::Identity(Err("x".to_string()))));
    assert!(!accepts(&Stage::Finished, &Event::Artwork(Err("x".to_string()))));
    assert!(!accepts(&Stage::Enriching { duration_bits: d }, &Event::Identity(Err("x".to_string()))));
    let found = SongMetadata {
        title: "t".to_string(),
        artist: "a".to_string(),
        album: "b".to_string(),
        album_art: None,
        duration_bits: d,
    };
    let waiting = Stage::FetchingArt { found };
    assert!(accepts(&waiting, &Event::Artwork(Ok(art(&["http://x/1.jpg"])))));
    assert!(accepts(&waiting, &Event::Artwork(Ok(art(&[])))));
    assert!(accepts(&waiting, &Event::Artwork(Err("x".to_string()))));
    assert!(!accepts(&waiting, &Event::Recording(Err("x".to_string()))));
}

#[test]
fn artist_names_are_plain_values() {
    let artist = Artist { id: "ar1".to_string(), name: "Artist A".to_string() };
    let rec = Recording {
        id: "r1".to_string(),
        duration: None,
        release_groups: Some(vec![group("g1", Some(PrimaryType::Album), "Album A")]),
        artists: Some(vec![artist.clone()]),
    };
    assert_eq!(rec.artists.unwrap()[0].name, artist.name);
}

#[test]
fn fingerprint_command_asks_for_json() {
    let command = calculate_fingerprint("/music/My Song.flac");
    assert_eq!(command.program, "fpcalc");
    assert_eq!(command.args, ["-json", "/music/My Song.flac"]);
}

fn sample() -> FingerprintData {
    FingerprintData { duration_bits: 12.5f64.to_bits(), fp: "AQAA".to_string() }
}

fn found() -> SongMetadata {
    SongMetadata {
        title: "Song A".to_string(),
        artist: "Artist A".to_string(),
        album: "Album A".to_string(),
        album_art: None,
        duration_bits: 12.5f64.to_bits(),
    }
}

#[test]
fn first_image_of_an_empty_list_is_none() {
    assert_eq!(first_image(Ok(art(&[]))).unwrap(), None);
}

#[test]
fn artwork_without_images_completes_the_metadata() {
    let stage = Stage::FetchingArt { found: found() };
    let event = Event::Artwork(Ok(art(&[])));
    assert!(accepts(&stage, &event));
    let (stage, action) = lookup_song(stage, event);
    assert!(matches!(stage, Stage::Finished));
    let meta = finished(action).unwrap();
    assert_eq!(meta.title, "Song A");
    assert_eq!(meta.artist, "Artist A");
    assert_eq!(meta.album, "Album A");
    assert_eq!(meta.album_art, None);
    assert_eq!(meta.duration_bits, 12.5f64.to_bits());
}

#[test]
fn successful_run_gives_its_fingerprint() {
    let data = read_fingerprint(FingerprintRun { exit_code: Some(0), output: Ok(sample()) }).unwrap();
    assert_eq!(data.fp, "AQAA");
    assert_eq!(f64::from_bits(data.duration_bits), 12.5);
}

#[test]
fn nonzero_exit_fails_whatever_was_printed() {
    for code in [1, 2, -1, 127, i32::MAX, i32::MIN] {
        let run = FingerprintRun { exit_code: Some(code), output: Ok(sample()) };
        assert!(
            matches!(read_fingerprint(run), Err(ResolveError::FingerprintFailed(Some(c))) if c == code)
        );
        let run = FingerprintRun { exit_code: Some(code), output: Err("no json".to_string()) };
        assert!(
            matches!(read_fingerprint(run), Err(ResolveError::FingerprintFailed(Some(c))) if c == code)
        );
    }
}

#[test]
fn run_ended_by_a_signal_fails() {
    let run = FingerprintRun { exit_code: None, output: Ok(sample()) };
    assert!(matches!(read_fingerprint(run), Err(ResolveError::FingerprintFailed(None))));
}

#[test]
fn unreadable_output_fails() {
    let run = FingerprintRun { exit_code: Some(0), output: Err("expected value".to_string()) };
    assert!(
        matches!(read_fingerprint(run), Err(ResolveError::Transport(ref m)) if m == "expected value")
    );
}

#[test]
fn nonzero_exit_aborts_before_the_identity_lookup() {
    let run = FingerprintRun { exit_code: Some(1), output: Ok(sample()) };
    let (stage, action) = lookup_song(Stage::Fingerprinting, Event::Fingerprint(Ok(run)));
    assert!(matches!(stage, Stage::Finished));
    assert!(matches!(finished(action), Err(ResolveError::FingerprintFailed(Some(1)))));
}

#[test]
fn unreadable_output_aborts_the_resolution() {
    let run = FingerprintRun { exit_code: Some(0), output: Err("eof".to_string()) };
    let (stage, action) = lookup_song(Stage::Fingerprinting, Event::Fingerprint(Ok(run)));
    assert!(matches!(stage, Stage::Finished));
    assert!(matches!(finished(action), Err(ResolveError::Transport(ref m)) if m == "eof"));
}

#[test]
fn whole_numbers_are_written_with_their_sign() {
    for n in [0, 1, -1, 42, -42, 127, i32::MAX, i32::MIN] {
        let mut out = String::from("x");
        push_signed(&mut out, n);
        assert_eq!(out, format!("x{}", n));
    }
}

#[test]
fn errors_are_worded_apart() {
    assert_eq!(ResolveError::Transport("connection reset".to_string()).message(), "connection reset");
    assert_eq!(
        ResolveError::FingerprintFailed(Some(1)).message(),
        "fpcalc failed with exit status 1"
    );
    assert_eq!(
        ResolveError::FingerprintFailed(Some(-9)).message(),
        "fpcalc failed with exit status -9"
    );
    assert_eq!(ResolveError::FingerprintFailed(None).message(), "fpcalc was ended by a signal");
    assert_eq!(
        ResolveError::LookupFailed("error".to_string()).message(),
        "AcoustID Lookup failed with status error"
    );
    assert_eq!(
        ResolveError::ProtocolViolation.message(),
        "AcoustID Lookup was successful but contained no results (should NEVER happen)"
    );
    assert_eq!(
        ResolveError::NoCandidates.message(),
        "AcoustID Lookup gave no result to choose from"
    );
    assert_eq!(
        ResolveError::NoRecordings.message(),
        "AcoustID Result contained no recording information (was meta=recordingids included in fingerprint query?)"
    );
    assert_ne!(ResolveError::ProtocolViolation.message(), ResolveError::NoCandidates.message());
}
