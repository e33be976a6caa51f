use voicebot::error::YtdlError;
use voicebot::json::JsonMember;
use voicebot::ytdl::{
    metadata, metadata_args, record_from, records_from, search, search_args, stream_url,
    tool_name, map_ytdl_spawn_err, PipelineFailure, Stage, ToolFailure, ToolOutput, YtdlMetadata,
};

const DESCRIPTION: &str = "Track 2 of Exit Plan: https://fearofdark.bandcamp.com/album/exit-plan\n\nFeatures a guitar solo from Danimal Cannon.";

/// The tool's output for the item at
/// https://www.youtube.com/watch?v=CGw0juHIoh4, with a few of the many
/// members that the tool prints beside those of a record.
fn reference_output() -> String {
    let mut text = String::new();
    text.push_str("{\"id\": \"CGw0juHIoh4\", ");
    text.push_str("\"uploader\": \"Fearofdark\", ");
    text.push_str("\"uploader_id\": \"fodsteve1\", ");
    text.push_str("\"uploader_url\": \"http://www.youtube.com/user/fodsteve1\", ");
    text.push_str("\"upload_date\": \"20200503\", ");
    text.push_str("\"license\": null, ");
    text.push_str("\"title\": \"Fearofdark - Exit Plan - 02 The Coffee Zone\", ");
    text.push_str("\"fulltitle\": \"Fearofdark - Exit Plan - 02 The Coffee Zone\", ");
    text.push_str("\"thumbnail\": \"https://i.ytimg.com/vi/CGw0juHIoh4/maxresdefault.jpg\", ");
    text.push_str("\"description\": \"Track 2 of Exit Plan: https://fearofdark.bandcamp.com/album/exit-plan\\n\\nFeatures a guitar solo from Danimal Cannon.\", ");
    text.push_str("\"categories\": [\"Music\"], ");
    text.push_str("\"duration\": 191, ");
    text.push_str("\"age_limit\": 0, ");
    text.push_str("\"webpage_url\": \"https://www.youtube.com/watch?v=CGw0juHIoh4\", ");
    text.push_str("\"view_count\": 48213, ");
    text.push_str("\"average_rating\": 4.9861112, ");
    text.push_str("\"formats\": [{\"format_id\": \"249\", \"abr\": 50}], ");
    text.push_str("\"is_live\": false}\n");
    text
}

fn finished(stdout: &str) -> Result<ToolOutput, ToolFailure> {
    Ok(ToolOutput { success: true, stdout: stdout.to_string(), stderr: String::new() })
}

fn failed(stderr: &str) -> Result<ToolOutput, ToolFailure> {
    Ok(ToolOutput { success: false, stdout: reference_output(), stderr: stderr.to_string() })
}

/// A record's JSON with `field` left out, one member per entry.
fn record_without(field: &str) -> String {
    let members = [
        ("upload_date", "\"20200503\""),
        ("title", "\"a title\""),
        ("fulltitle", "\"a full title\""),
        ("view_count", "7"),
        ("description", "\"\""),
        ("uploader", "\"someone\""),
        ("thumbnail", "\"https://example.org/t.jpg\""),
        ("webpage_url", "\"https://example.org/watch\""),
        ("uploader_url", "\"https://example.org/someone\""),
        ("duration", "12"),
    ];
    let mut text = String::from("{");
    let mut first = true;
    for (name, value) in members {
        if name == field {
            continue;
        }
        if !first {
            text.push(',');
        }
        first = false;
        text.push_str(&format!("\"{}\":{}", name, value));
    }
    text.push('}');
    text
}

/// A record's JSON with `field` holding `value`.
fn record_with(field: &str, value: &str) -> String {
    let mut text = record_without(field);
    text.pop();
    text.push_str(&format!(",\"{}\":{}}}", field, value));
    text
}

fn is_malformed<T>(outcome: Result<T, YtdlError>) -> bool {
    matches!(outcome, Err(YtdlError::MalformedOutput))
}

#[test]
fn ytdl_meta() {
    let meta = metadata(finished(&reference_output()));
    assert!(meta.is_ok());
    let meta = meta.unwrap();

    assert_eq!(meta.description, "Track 2 of Exit Plan: https://fearofdark.bandcamp.com/album/exit-plan\n\nFeatures a guitar solo from Danimal Cannon.");
    assert_eq!(meta.duration, 191);
    assert_eq!(
        meta.thumbnail,
        "https://i.ytimg.com/vi/CGw0juHIoh4/maxresdefault.jpg"
    );
    assert_eq!(meta.title, meta.fulltitle);
    assert_eq!(meta.upload_date, "20200503");
    assert_eq!(meta.uploader_url, "http://www.youtube.com/user/fodsteve1");
    assert_eq!(meta.uploader, "Fearofdark");
    assert_eq!(
        meta.webpage_url,
        "https://www.youtube.com/watch?v=CGw0juHIoh4"
    );
}

#[test]
fn reference_record_has_every_field() {
    let meta = metadata(finished(&reference_output())).unwrap();
    assert_eq!(meta.description, DESCRIPTION);
    assert_eq!(meta.title, "Fearofdark - Exit Plan - 02 The Coffee Zone");
    assert_eq!(meta.view_count, 48213);
    assert_eq!(meta.upload_date.len(), 8);
    assert!(meta.upload_date.chars().all(|digit| digit.is_ascii_digit()));
}

#[test]
fn metadata_reads_an_object_over_several_lines() {
    let text = record_without("").replace(',', ",\n  ");
    let meta = metadata(finished(&text)).unwrap();
    assert_eq!(meta.title, "a title");
    assert_eq!(meta.fulltitle, "a full title");
    assert_eq!(meta.view_count, 7);
    assert_eq!(meta.description, "");
    assert_eq!(meta.uploader, "someone");
    assert_eq!(meta.thumbnail, "https://example.org/t.jpg");
    assert_eq!(meta.webpage_url, "https://example.org/watch");
    assert_eq!(meta.uploader_url, "https://example.org/someone");
    assert_eq!(meta.duration, 12);
    assert_eq!(meta.upload_date, "20200503");
}

#[test]
fn metadata_needs_every_field() {
    let fields = [
        "upload_date",
        "title",
        "fulltitle",
        "view_count",
        "description",
        "uploader",
        "thumbnail",
        "webpage_url",
        "uploader_url",
        "duration",
    ];
    for field in fields {
        assert!(is_malformed(metadata(finished(&record_without(field)))), "{}", field);
    }
    assert!(metadata(finished(&record_without("no such field"))).is_ok());
}

#[test]
fn metadata_needs_each_field_in_its_type() {
    assert!(is_malformed(metadata(finished(&record_with("duration", "\"191\"")))));
    assert!(is_malformed(metadata(finished(&record_with("duration", "191.0")))));
    assert!(is_malformed(metadata(finished(&record_with("duration", "-1")))));
    assert!(is_malformed(metadata(finished(&record_with("duration", "null")))));
    assert!(is_malformed(metadata(finished(&record_with("view_count", "4294967296")))));
    assert!(is_malformed(metadata(finished(&record_with("title", "12")))));
    assert!(is_malformed(metadata(finished(&record_with("uploader", "null")))));
    assert!(is_malformed(metadata(finished(&record_with("thumbnail", "[\"a\"]")))));

    let most = metadata(finished(&record_with("view_count", "4294967295"))).unwrap();
    assert_eq!(most.view_count, 4294967295);
    let none = metadata(finished(&record_with("duration", "0"))).unwrap();
    assert_eq!(none.duration, 0);
}

#[test]
fn a_repeated_member_counts_with_its_last_value() {
    let mut twice = record_without("");
    twice.pop();
    twice.push_str(",\"title\":\"the later title\"}");
    assert_eq!(twice.matches("\"title\":").count(), 2);
    assert_eq!(metadata(finished(&twice)).unwrap().title, "the later title");
}

#[test]
fn metadata_wants_exactly_one_object() {
    let record = record_without("");
    assert!(is_malformed(metadata(finished(""))));
    assert!(is_malformed(metadata(finished("\n"))));
    assert!(is_malformed(metadata(finished("not json"))));
    assert!(is_malformed(metadata(finished("{"))));
    assert!(is_malformed(metadata(finished("[]"))));
    assert!(is_malformed(metadata(finished("12"))));
    assert!(is_malformed(metadata(finished(&format!("[{}]", record)))));
    assert!(is_malformed(metadata(finished(&format!("{}\n{}\n", record, record)))));
    assert!(is_malformed(metadata(finished(&format!("{},{}", record, record)))));
    assert!(is_malformed(metadata(finished(&format!("{}],[{}", record, record)))));
    assert!(is_malformed(metadata(finished(&format!("{} trailing", record)))));
    assert!(metadata(finished(&format!("  {}  \n", record))).is_ok());
}

#[test]
fn missing_tool_is_not_installed() {
    assert!(matches!(metadata(Err(ToolFailure::NotFound)), Err(YtdlError::NotInstalled)));
    assert!(matches!(search(Err(ToolFailure::NotFound)), Err(YtdlError::NotInstalled)));
    assert!(matches!(map_ytdl_spawn_err(ToolFailure::NotFound), YtdlError::NotInstalled));
}

#[test]
fn other_failure_to_run_keeps_its_detail() {
    let denied = "Permission denied (os error 13)";
    match metadata(Err(ToolFailure::Io(denied.to_string()))) {
        Err(YtdlError::Io(detail)) => assert_eq!(detail, denied),
        other => panic!("{:?}", other),
    }
    match search(Err(ToolFailure::Io(denied.to_string()))) {
        Err(YtdlError::Io(detail)) => assert_eq!(detail, denied),
        other => panic!("{:?}", other),
    }
    match map_ytdl_spawn_err(ToolFailure::Io(denied.to_string())) {
        YtdlError::Io(detail) => assert_eq!(detail, denied),
        other => panic!("{:?}", other),
    }
}

#[test]
fn failure_status_carries_standard_error_unchanged() {
    match metadata(failed("X")) {
        Err(YtdlError::Runtime(detail)) => assert_eq!(detail, "X"),
        other => panic!("{:?}", other),
    }
    let long = "ERROR: CGw0juHIoh4: YouTube said: Unable to extract video data\n  caf\u{e9} \n";
    match metadata(failed(long)) {
        Err(YtdlError::Runtime(detail)) => assert_eq!(detail, long),
        other => panic!("{:?}", other),
    }
    match search(failed(long)) {
        Err(YtdlError::Runtime(detail)) => assert_eq!(detail, long),
        other => panic!("{:?}", other),
    }
    match search(failed("")) {
        Err(YtdlError::Runtime(detail)) => assert_eq!(detail, ""),
        other => panic!("{:?}", other),
    }
}

#[test]
fn search_without_match_is_empty() {
    assert_eq!(search(finished("")).unwrap().len(), 0);
    assert_eq!(search(finished("\n")).unwrap().len(), 0);
    assert_eq!(search(finished("\n\n\n")).unwrap().len(), 0);
}

#[test]
fn search_reads_one_record_per_line() {
    let first = record_with("title", "\"first, with a comma\"");
    let second = record_with("title", "\"second\"");
    let third = reference_output();

    let one = search(finished(&format!("{}\n", first))).unwrap();
    assert_eq!(one.len(), 1);
    assert_eq!(one[0].title, "first, with a comma");

    let all = search(finished(&format!("{}\n{}\n{}", first, second, third))).unwrap();
    assert_eq!(all.len(), 3);
    assert_eq!(all[0].title, "first, with a comma");
    assert_eq!(all[1].title, "second");
    assert_eq!(all[2].uploader, "Fearofdark");
    assert_eq!(all[2].duration, 191);

    let spaced = search(finished(&format!("\n{}\n\n\n{}", first, second))).unwrap();
    assert_eq!(spaced.len(), 2);
    assert_eq!(spaced[1].title, "second");
}

#[test]
fn search_rejects_what_is_no_record() {
    let record = record_without("");
    assert!(is_malformed(search(finished("not json\n"))));
    assert!(is_malformed(search(finished(&format!("{}\n12\n", record)))));
    assert!(is_malformed(search(finished(&format!("{}\n{}\n", record, record_without("title"))))));
    assert!(is_malformed(search(finished(&format!("{} {}\n", record, record)))));
    assert!(is_malformed(search(finished(&format!("{}\n \n{}\n", record, record)))));
}

#[test]
fn pipeline_failures_name_the_stage() {
    let missing = |stage| PipelineFailure { stage, failure: ToolFailure::NotFound };
    assert!(matches!(
        stream_url::<u8>(Err(missing(Stage::Transcoder))),
        Err(YtdlError::NotInstalledFfmpeg)
    ));
    assert!(matches!(
        stream_url::<u8>(Err(missing(Stage::Extractor))),
        Err(YtdlError::NotInstalled)
    ));
    let broken = PipelineFailure {
        stage: Stage::Transcoder,
        failure: ToolFailure::Io("Broken pipe".to_string()),
    };
    match stream_url::<u8>(Err(broken)) {
        Err(YtdlError::Io(detail)) => assert_eq!(detail, "Broken pipe"),
        other => panic!("{:?}", other),
    }
}

#[test]
fn started_pipeline_hands_its_source_on() {
    assert!(matches!(stream_url(Ok(17u8)), Ok(17)));
    assert_eq!(stream_url(Ok(vec![1u8, 2, 3])).unwrap(), vec![1u8, 2, 3]);
}

#[test]
fn the_tool_is_called_with_these_arguments() {
    assert_eq!(tool_name(), "youtube-dl");
    assert_eq!(
        metadata_args("https://www.youtube.com/watch?v=CGw0juHIoh4"),
        vec!["-j", "--no-playlist", "--ignore-config", "https://www.youtube.com/watch?v=CGw0juHIoh4"]
    );
    assert_eq!(metadata_args(""), vec!["-j", "--no-playlist", "--ignore-config", ""]);
    assert_eq!(
        search_args("exit plan", 1),
        vec!["-j", "--no-playlist", "--ignore-config", "ytsearch1:exit plan"]
    );
}

#[test]
fn the_search_query_counts_in_decimal() {
    let query = |max_results| search_args("caf\u{e9}", max_results).pop().unwrap();
    assert_eq!(query(0), "ytsearch0:caf\u{e9}");
    assert_eq!(query(1), "ytsearch1:caf\u{e9}");
    assert_eq!(query(9), "ytsearch9:caf\u{e9}");
    assert_eq!(query(10), "ytsearch10:caf\u{e9}");
    assert_eq!(query(42), "ytsearch42:caf\u{e9}");
    assert_eq!(query(99), "ytsearch99:caf\u{e9}");
    assert_eq!(query(100), "ytsearch100:caf\u{e9}");
    assert_eq!(query(105), "ytsearch105:caf\u{e9}");
    assert_eq!(query(255), "ytsearch255:caf\u{e9}");
    for max_results in 0..=255u8 {
        assert_eq!(query(max_results), format!("ytsearch{}:caf\u{e9}", max_results));
    }
}

fn text_member(name: &str, text: &str) -> JsonMember {
    JsonMember { name: name.to_string(), text: Some(text.to_string()), count: None }
}

fn count_member(name: &str, count: u64) -> JsonMember {
    JsonMember { name: name.to_string(), text: None, count: Some(count) }
}

fn members() -> Vec<JsonMember> {
    vec![
        text_member("upload_date", "20200503"),
        text_member("title", "a title"),
        text_member("fulltitle", "a full title"),
        count_member("view_count", 7),
        text_member("description", "about"),
        text_member("uploader", "someone"),
        text_member("thumbnail", "https://example.org/t.jpg"),
        text_member("webpage_url", "https://example.org/watch"),
        text_member("uploader_url", "https://example.org/someone"),
        count_member("duration", 12),
    ]
}

#[test]
fn a_record_is_built_from_its_members() {
    let record = YtdlMetadata::from_members(&members()).unwrap();
    assert_eq!(record.upload_date, "20200503");
    assert_eq!(record.title, "a title");
    assert_eq!(record.fulltitle, "a full title");
    assert_eq!(record.view_count, 7);
    assert_eq!(record.description, "about");
    assert_eq!(record.uploader, "someone");
    assert_eq!(record.thumbnail, "https://example.org/t.jpg");
    assert_eq!(record.webpage_url, "https://example.org/watch");
    assert_eq!(record.uploader_url, "https://example.org/someone");
    assert_eq!(record.duration, 12);
}

#[test]
fn a_record_takes_the_first_member_of_a_name() {
    let mut twice = members();
    twice.push(text_member("title", "another title"));
    twice.insert(0, JsonMember { name: "id".to_string(), text: None, count: None });
    assert_eq!(YtdlMetadata::from_members(&twice).unwrap().title, "a title");

    let mut hidden = members();
    hidden.insert(0, count_member("title", 3));
    assert!(YtdlMetadata::from_members(&hidden).is_none());
}

#[test]
fn a_record_needs_counts_of_32_bits() {
    let mut large = members();
    large[9] = count_member("duration", 4294967296);
    assert!(YtdlMetadata::from_members(&large).is_none());
    large[9] = count_member("duration", 4294967295);
    assert_eq!(YtdlMetadata::from_members(&large).unwrap().duration, 4294967295);
    large[9] = count_member("duration", u64::MAX);
    assert!(YtdlMetadata::from_members(&large).is_none());
    assert!(YtdlMetadata::from_members(&Vec::new()).is_none());
}

#[test]
fn one_record_is_wanted_of_a_parsed_output() {
    assert_eq!(record_from(Ok(vec![members()])).unwrap().title, "a title");
    assert!(is_malformed(record_from(Ok(vec![]))));
    assert!(is_malformed(record_from(Ok(vec![members(), members()]))));
    assert!(is_malformed(record_from(Ok(vec![vec![]]))));
    let refused = serde_json::from_str::<u8>("?").unwrap_err();
    assert!(is_malformed(record_from(Err(refused))));
}

#[test]
fn every_record_is_wanted_of_a_parsed_output() {
    assert_eq!(records_from(Ok(vec![])).unwrap().len(), 0);
    let two = records_from(Ok(vec![members(), members()])).unwrap();
    assert_eq!(two.len(), 2);
    assert_eq!(two[1].uploader, "someone");
    assert!(is_malformed(records_from(Ok(vec![members(), vec![]]))));
    assert!(is_malformed(records_from(Ok(vec![vec![], members()]))));
    let refused = serde_json::from_str::<u8>("?").unwrap_err();
    assert!(is_malformed(records_from(Err(refused))));
}

#[test]
fn every_failure_has_its_sentence() {
    assert_eq!(
        YtdlError::NotInstalled.message(),
        "Failed to start youtube-dl. is it installed?"
    );
    assert_eq!(
        YtdlError::NotInstalledFfmpeg.message(),
        "Failed to start youtube-dl or ffmpeg. are they installed?"
    );
    assert_eq!(
        YtdlError::Runtime("X".to_string()).message(),
        "Encountered an error while running youtube-dl: X"
    );
    assert_eq!(
        YtdlError::Runtime(String::new()).message(),
        "Encountered an error while running youtube-dl: "
    );
    assert_eq!(YtdlError::MalformedOutput.message(), "Failed to read the output of youtube-dl");
    assert_eq!(YtdlError::ConnectionFailure.message(), "Error joining the channel");
    assert_eq!(YtdlError::Io("Broken pipe".to_string()).message(), "Broken pipe");
}
