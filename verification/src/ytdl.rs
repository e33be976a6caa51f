//! The protocol to the media extraction tool.
//!
//! Running the tool is the caller's part. This module says how to call it,
//! and what a finished run means: which failure it is, or which records its
//! output holds.

pub use crate::error::YtdlError;
pub use crate::record::YtdlMetadata;

use crate::decimal::{decimal, push_decimal};
use crate::error::{viewed, ErrorView};
use crate::framing::{frame, framed, law_frame_of_nothing};
use crate::json::{json_records, parse_records, JsonMember, MemberView};
use crate::record::{record_of, MetadataView};
use vstd::prelude::*;
use vstd::string::StringExecFns;

verus! {

/// Why a program did not run to its end.
#[derive(Debug)]
pub enum ToolFailure {
    /// It could not be started, because no such program was found.
    NotFound,
    /// Starting it, waiting for it or reading what it wrote failed in another
    /// way. The detail is the system's description of the failure.
    Io(String),
}

/// What a program left behind when it ran to its end.
#[derive(Debug)]
pub struct ToolOutput {
    /// Whether it reported success by its exit status.
    pub success: bool,
    /// What it wrote to its standard output.
    pub stdout: String,
    /// What it wrote to its standard error.
    pub stderr: String,
}

/// The two programs of the streaming pipeline.
#[derive(Clone, Copy, Debug, PartialEq, Eq, Structural)]
pub enum Stage {
    /// The extraction tool, which fetches the media.
    Extractor,
    /// The transcoder, which turns it into audio frames.
    Transcoder,
}

/// The streaming pipeline could not be started.
#[derive(Debug)]
pub struct PipelineFailure {
    /// The program that failed to start.
    pub stage: Stage,
    /// Why it failed.
    pub failure: ToolFailure,
}

/// The error that stands for a failure to run the extraction tool.
pub open spec fn spawn_error(failure: ToolFailure) -> ErrorView {
    match failure {
        ToolFailure::NotFound => ErrorView::NotInstalled,
        ToolFailure::Io(detail) => ErrorView::Io(detail@),
    }
}

/// Names the failure to run the extraction tool: a tool that was not found
/// is not installed, and any other failure is passed on with its detail.
pub fn map_ytdl_spawn_err(failure: ToolFailure) -> (error: YtdlError)
    ensures
        error@ == spawn_error(failure),
{
    match failure {
        ToolFailure::NotFound => YtdlError::NotInstalled,
        ToolFailure::Io(detail) => YtdlError::Io(detail),
    }
}

/// The error that stands for a failure to start the streaming pipeline. A
/// program that was not found is named by its stage.
pub open spec fn pipeline_error(failure: PipelineFailure) -> ErrorView {
    match failure.failure {
        ToolFailure::NotFound => match failure.stage {
            Stage::Extractor => ErrorView::NotInstalled,
            Stage::Transcoder => ErrorView::NotInstalledFfmpeg,
        },
        ToolFailure::Io(detail) => ErrorView::Io(detail@),
    }
}

/// Judges the start of the streaming pipeline: the audio source where it
/// started, else the error that names the failure.
pub fn stream_url<S>(launch: Result<S, PipelineFailure>) -> (outcome: Result<S, YtdlError>)
    ensures
        match launch {
            Ok(source) => outcome == Ok::<S, YtdlError>(source),
            Err(failure) => outcome matches Err(error) && error@ == pipeline_error(failure),
        },
        launch matches Err(failure) && failure.stage == Stage::Transcoder && failure.failure
            is NotFound ==> outcome matches Err(YtdlError::NotInstalledFfmpeg),
{
    match launch {
        Ok(source) => Ok(source),
        Err(failure) => match failure.failure {
            ToolFailure::NotFound => match failure.stage {
                Stage::Extractor => Err(YtdlError::NotInstalled),
                Stage::Transcoder => Err(YtdlError::NotInstalledFfmpeg),
            },
            ToolFailure::Io(detail) => Err(YtdlError::Io(detail)),
        },
    }
}

/// The query that asks the tool for up to `max_results` matches of `term`.
pub open spec fn search_query(term: Seq<char>, max_results: u8) -> Seq<char> {
    "ytsearch"@ + decimal(max_results as nat) + seq![':'] + term
}

/// The arguments with which the tool describes `target`, a URL or a search
/// query, as JSON.
pub open spec fn tool_args(target: Seq<char>) -> Seq<Seq<char>> {
    seq!["-j"@, "--no-playlist"@, "--ignore-config"@, target]
}

/// The name of the extraction tool's program.
pub fn tool_name() -> (name: &'static str)
    ensures
        name@ == "youtube-dl"@,
{
    "youtube-dl"
}

fn args_for(target: String) -> (args: Vec<String>)
    ensures
        args.deep_view() == tool_args(target@),
{
    let mut args: Vec<String> = Vec::new();
    args.push(String::from_str("-j"));
    args.push(String::from_str("--no-playlist"));
    args.push(String::from_str("--ignore-config"));
    args.push(target);
    assert(args.deep_view() =~= tool_args(target@));
    args
}

/// The arguments with which the tool describes the item at `url`.
pub fn metadata_args(url: &str) -> (args: Vec<String>)
    ensures
        args.deep_view() == tool_args(url@),
{
    args_for(String::from_str(url))
}

/// The arguments with which the tool describes up to `max_results` matches
/// of `term`.
pub fn search_args(term: &str, max_results: u8) -> (args: Vec<String>)
    ensures
        args.deep_view() == tool_args(search_query(term@, max_results)),
{
    let mut query = String::from_str("ytsearch");
    push_decimal(&mut query, max_results as u64);
    query.push(':');
    query.append(term);
    assert(query@ =~= search_query(term@, max_results));
    args_for(query)
}

/// `text` between square brackets: the JSON array of the one value that
/// `text` is.
pub open spec fn bracketed(text: Seq<char>) -> Seq<char> {
    seq!['['] + text + seq![']']
}

fn bracket(text: &str) -> (array: String)
    ensures
        array@ == bracketed(text@),
{
    let mut array = String::from_str("[");
    proof {
        reveal_strlit("[");
        assert("["@ =~= seq!['[']);
    }
    array.append(text);
    array.push(']');
    assert(array@ =~= bracketed(text@));
    array
}

/// The record that a parsed output describes, where it holds exactly one
/// object and that object is a record.
pub open spec fn single_record(parsed: Option<Seq<Seq<MemberView>>>) -> Result<
    MetadataView,
    ErrorView,
> {
    match parsed {
        Some(objects) => if objects.len() == 1 && record_of(objects[0]) is Some {
            Ok(record_of(objects[0])->0)
        } else {
            Err(ErrorView::MalformedOutput)
        },
        None => Err(ErrorView::MalformedOutput),
    }
}

/// The records that a parsed output describes, in its order, where every
/// object in it is a record.
pub open spec fn every_record(parsed: Option<Seq<Seq<MemberView>>>) -> Result<
    Seq<MetadataView>,
    ErrorView,
> {
    match parsed {
        Some(objects) => if forall|at: int|
            0 <= at < objects.len() ==> (#[trigger] record_of(objects[at])) is Some {
            Ok(Seq::new(objects.len(), |at: int| record_of(objects[at])->0))
        } else {
            Err(ErrorView::MalformedOutput)
        },
        None => Err(ErrorView::MalformedOutput),
    }
}

/// The parser's outcome, as contracts see it.
pub open spec fn parsed_view(parsed: Result<Vec<Vec<JsonMember>>, serde_json::Error>) -> Option<
    Seq<Seq<MemberView>>,
> {
    match parsed {
        Ok(objects) => Some(objects.deep_view()),
        Err(_) => None,
    }
}

/// Builds the one record of a parsed output. Anything but exactly one
/// object that is a record is malformed output.
pub fn record_from(parsed: Result<Vec<Vec<JsonMember>>, serde_json::Error>) -> (outcome: Result<
    YtdlMetadata,
    YtdlError,
>)
    ensures
        viewed(outcome) == single_record(parsed_view(parsed)),
{
    match parsed {
        Ok(objects) => {
            if objects.len() != 1 {
                return Err(YtdlError::MalformedOutput);
            }
            match YtdlMetadata::from_members(&objects[0]) {
                Some(record) => Ok(record),
                None => Err(YtdlError::MalformedOutput),
            }
        },
        Err(_) => Err(YtdlError::MalformedOutput),
    }
}

/// Builds the records of a parsed output, in its order. An object that is
/// no record makes the whole output malformed.
pub fn records_from(parsed: Result<Vec<Vec<JsonMember>>, serde_json::Error>) -> (outcome: Result<
    Vec<YtdlMetadata>,
    YtdlError,
>)
    ensures
        viewed(outcome) == every_record(parsed_view(parsed)),
{
    match parsed {
        Ok(objects) => {
            let ghost all = objects.deep_view();
            let mut found: Vec<YtdlMetadata> = Vec::new();
            let mut at: usize = 0;
            while at < objects.len()
                invariant
                    at <= objects.len(),
                    all == objects.deep_view(),
                    parsed_view(parsed) == Some(all),
                    found.len() == at,
                    forall|seen: int|
                        0 <= seen < at ==> (#[trigger] record_of(all[seen])) == Some(
                            found[seen].deep_view(),
                        ),
                decreases objects.len() - at,
            {
                match YtdlMetadata::from_members(&objects[at]) {
                    Some(record) => found.push(record),
                    None => {
                        assert(at < all.len() && record_of(all[at as int]) is None);
                        return Err(YtdlError::MalformedOutput);
                    },
                }
                at += 1;
            }
            assert(found.deep_view() =~= Seq::new(all.len(), |at: int| record_of(all[at])->0));
            Ok(found)
        },
        Err(_) => Err(YtdlError::MalformedOutput),
    }
}

/// What a run of the tool in metadata mode means.
///
/// A run that failed is the error of its failure. A run that ended with a
/// failure status is a runtime error with the standard error as its detail.
/// Otherwise the standard output is read as one JSON object, which is the
/// record or else malformed.
pub open spec fn metadata_outcome(run: Result<ToolOutput, ToolFailure>) -> Result<
    MetadataView,
    ErrorView,
> {
    match run {
        Err(failure) => Err(spawn_error(failure)),
        Ok(output) => if !output.success {
            Err(ErrorView::Runtime(output.stderr@))
        } else {
            single_record(json_records(bracketed(output.stdout@)))
        },
    }
}

/// What a run of the tool in search mode means: as in metadata mode, but
/// the standard output holds one JSON object per line, and each is a record.
pub open spec fn search_outcome(run: Result<ToolOutput, ToolFailure>) -> Result<
    Seq<MetadataView>,
    ErrorView,
> {
    match run {
        Err(failure) => Err(spawn_error(failure)),
        Ok(output) => if !output.success {
            Err(ErrorView::Runtime(output.stderr@))
        } else {
            every_record(json_records(framed(output.stdout@)))
        },
    }
}

/// A search that prints nothing has found nothing, which is no error: the
/// output frames to the empty array, and an array without objects holds no
/// record.
pub proof fn law_no_match_is_no_error(output: ToolOutput)
    requires
        output.success,
        output.stdout@.len() == 0,
    ensures
        search_outcome(Ok(output)) == every_record(json_records(seq!['[', ']'])),
        every_record(Some(Seq::empty())) == Ok::<Seq<MetadataView>, ErrorView>(Seq::empty()),
{
    law_frame_of_nothing();
    assert(output.stdout@ =~= Seq::empty());
    assert(Seq::new(0, |at: int| record_of(Seq::<Seq<MemberView>>::empty()[at])->0)
        =~= Seq::<MetadataView>::empty());
}

/// Reads the record of a media item from a run of the tool with
/// [`metadata_args`].
pub fn metadata(run: Result<ToolOutput, ToolFailure>) -> (outcome: Result<YtdlMetadata, YtdlError>)
    ensures
        viewed(outcome) == metadata_outcome(run),
        run matches Err(ToolFailure::NotFound) ==> outcome matches Err(YtdlError::NotInstalled),
        run matches Ok(output) ==> (!output.success ==> (outcome matches Err(
            YtdlError::Runtime(detail),
        ) && detail@ == output.stderr@)),
{
    match run {
        Err(failure) => Err(map_ytdl_spawn_err(failure)),
        Ok(output) => {
            if !output.success {
                return Err(YtdlError::Runtime(output.stderr));
            }
            let array = bracket(output.stdout.as_str());
            record_from(parse_records(array.as_str()))
        },
    }
}

/// Reads the records of the matches from a run of the tool with
/// [`search_args`]. No match is no error: the sequence is then empty.
pub fn search(run: Result<ToolOutput, ToolFailure>) -> (outcome: Result<
    Vec<YtdlMetadata>,
    YtdlError,
>)
    ensures
        viewed(outcome) == search_outcome(run),
        run matches Err(ToolFailure::NotFound) ==> outcome matches Err(YtdlError::NotInstalled),
        run matches Ok(output) ==> (!output.success ==> (outcome matches Err(
            YtdlError::Runtime(detail),
        ) && detail@ == output.stderr@)),
{
    match run {
        Err(failure) => Err(map_ytdl_spawn_err(failure)),
        Ok(output) => {
            if !output.success {
                return Err(YtdlError::Runtime(output.stderr));
            }
            let array = frame(output.stdout.as_str());
            records_from(parse_records(array.as_str()))
        },
    }
}

} // verus!
