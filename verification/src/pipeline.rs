use vstd::prelude::*;

use vstd::utf8::is_ascii_chars;

use crate::error::YouDlError;
use crate::metadata::{
    body_decodes, decode_player_response, json_valid, metadata_url, query_field, record_adaptive,
    record_formats, record_title, spec_metadata_url,
};
use crate::models::PlayerResponse;
use crate::options::{
    options_match, spec_candidates, spec_unsupported_message, DownloadOption, DownloadOptions,
};
use crate::video_id::{extract_video_id, spec_extract_video_id};

verus! {

/// Where one URL's pipeline stands. Every stage can move directly to the
/// terminal `Failed` state; there is no retry transition and no cancellation
/// transition once the transfer has begun.
pub enum PipelineState {
    UrlGiven { url: String },
    IdExtracted { video_id: String },
    MetadataFetched { response: PlayerResponse },
    OptionsBuilt { options: DownloadOptions },
    OptionSelected { option: DownloadOption },
    Downloading,
    Completed,
    Failed { error: YouDlError },
}

/// What the pipeline learns from outside: `Advance` drives a stage that
/// needs no outside work, the metadata request ends in a body or a failure,
/// the format selector returns the chosen index, and the transfer ends in
/// success or failure.
pub enum PipelineEvent {
    Advance,
    MetadataBody { body: String },
    MetadataFailed { detail: String },
    FormatChosen { index: usize },
    DownloadCompleted,
    DownloadFailed { error: YouDlError },
}

/// What the caller must do next: issue the metadata request, drive the next
/// pure stage, present the labeled options and report the chosen index, run
/// the transfer of the handed-over option, or stop — reporting success
/// (`Done`) or the error recorded in the `Failed` state (`Surface`).
pub enum PipelineAction {
    FetchMetadata { url: String },
    Continue,
    ChooseFormat,
    StartDownload { option: DownloadOption },
    Done,
    Surface,
}

/// One URL's resolution-and-streaming pipeline, with the explicit policy of
/// whether adaptive (audio-only or video-only) streams count as candidates
/// beside progressive ones.
pub struct Pipeline {
    pub state: PipelineState,
    pub include_adaptive: bool,
}

/// Which events can arrive in which state; the two terminal states accept
/// none.
pub open spec fn event_fits_pipeline(p: Pipeline, e: PipelineEvent) -> bool {
    match e {
        PipelineEvent::Advance => p.state is UrlGiven || p.state is MetadataFetched
            || p.state is OptionSelected,
        PipelineEvent::MetadataBody { .. } => p.state is IdExtracted,
        PipelineEvent::MetadataFailed { .. } => p.state is IdExtracted,
        PipelineEvent::FormatChosen { index } => match p.state {
            PipelineState::OptionsBuilt { options } => index < options.0.len(),
            _ => false,
        },
        PipelineEvent::DownloadCompleted => p.state is Downloading,
        PipelineEvent::DownloadFailed { .. } => p.state is Downloading,
    }
}

impl Pipeline {
    /// A fresh pipeline for one URL under the given inclusion policy.
    pub fn launch(url: String, include_adaptive: bool) -> (p: Pipeline)
        ensures
            p.state matches PipelineState::UrlGiven { url: u } && u@ == url@,
            p.include_adaptive == include_adaptive,
    {
        Pipeline { state: PipelineState::UrlGiven { url }, include_adaptive }
    }

    /// Advances the pipeline by one event and says what to do next.
    ///
    /// - In `UrlGiven`, extraction runs: a recognized URL moves to
    ///   `IdExtracted` and asks for the metadata request on the endpoint URL
    ///   derived from the identifier; any other fails with `InvalidUrl`.
    /// - In `IdExtracted`, the metadata body is decoded: both decode stages'
    ///   failures, and the request's own failure, classify as
    ///   `InvalidResponse`.
    /// - In `MetadataFetched`, the option list is built under the inclusion
    ///   policy; an empty candidate list fails with `Unsupported`.
    /// - In `OptionsBuilt`, the chosen option is removed from the list.
    /// - In `OptionSelected`, the chosen option is handed over for transfer.
    /// - In `Downloading`, the transfer's outcome is recorded as reported.
    pub fn step(self, e: PipelineEvent) -> (r: (Pipeline, PipelineAction))
        requires
            event_fits_pipeline(self, e),
        ensures
            r.0.include_adaptive == self.include_adaptive,
            (self.state matches PipelineState::UrlGiven { url } ==> ((
            spec_extract_video_id(url@) matches Some(id) ==> ((r.0.state
                matches PipelineState::IdExtracted { video_id } && video_id@ == id) && (r.1
                matches PipelineAction::FetchMetadata { url: mu } && mu@ == spec_metadata_url(
                id,
            )))) && (spec_extract_video_id(url@) is None ==> ((r.0.state
                matches PipelineState::Failed { error } && error == YouDlError::InvalidUrl) && r.1
                is Surface)))),
            (e matches PipelineEvent::MetadataBody { body } ==> ((r.0.state is MetadataFetched
                || r.0.state is Failed) && (r.0.state matches PipelineState::Failed { error } ==> (
            error matches YouDlError::InvalidResponse(_) && r.1 is Surface)) && (r.0.state
                is MetadataFetched ==> r.1 is Continue) && (r.0.state is MetadataFetched
                <==> body_decodes(body@)) && (is_ascii_chars(body@) ==> (query_field(
                body@,
                "player_response"@,
            ) matches Some(q) ==> (json_valid(q) ==> (r.0.state
                matches PipelineState::MetadataFetched { response } && response.title@
                == record_title(q) && response.formats@ == record_formats(q)
                && response.adaptive_formats@ == record_adaptive(q))))))),
            (e matches PipelineEvent::MetadataFailed { detail } ==> (r.0.state
                matches PipelineState::Failed { error } && error == YouDlError::InvalidResponse(
                detail,
            ) && r.1 is Surface)),
            (self.state matches PipelineState::MetadataFetched { response } ==> ((spec_candidates(
                response,
                self.include_adaptive,
            ).len() > 0 ==> ((r.0.state matches PipelineState::OptionsBuilt { options }
                && options_match(
                options.0@,
                spec_candidates(response, self.include_adaptive),
                response.title@,
            )) && r.1 is ChooseFormat)) && (spec_candidates(
                response,
                self.include_adaptive,
            ).len() == 0 ==> ((r.0.state matches PipelineState::Failed { error } && (error
                matches YouDlError::Unsupported(m) && m@ == spec_unsupported_message(
                response.title@,
            ))) && r.1 is Surface)))),
            (e matches PipelineEvent::FormatChosen { index } ==> (self.state
                matches PipelineState::OptionsBuilt { options } ==> (r.0.state
                matches PipelineState::OptionSelected { option } && option == options.0@[index as int]
                && r.1 is Continue))),
            (self.state matches PipelineState::OptionSelected { option } ==> (r.0.state
                is Downloading && (r.1 matches PipelineAction::StartDownload { option: o } && o
                == option))),
            (e is DownloadCompleted ==> (r.0.state is Completed && r.1 is Done)),
            (e matches PipelineEvent::DownloadFailed { error } ==> (r.0.state
                matches PipelineState::Failed { error: err } && err == error && r.1 is Surface)),
    {
        let include_adaptive = self.include_adaptive;
        match (self.state, e) {
            (PipelineState::UrlGiven { url }, PipelineEvent::Advance) => {
                match extract_video_id(url.as_str()) {
                    Ok(id) => {
                        let endpoint = metadata_url(id.as_str());
                        (
                            Pipeline {
                                state: PipelineState::IdExtracted { video_id: id },
                                include_adaptive,
                            },
                            PipelineAction::FetchMetadata { url: endpoint },
                        )
                    },
                    Err(error) => (
                        Pipeline { state: PipelineState::Failed { error }, include_adaptive },
                        PipelineAction::Surface,
                    ),
                }
            },
            (PipelineState::IdExtracted { video_id: _ }, PipelineEvent::MetadataBody { body }) => {
                match decode_player_response(body.as_str()) {
                    Ok(response) => (
                        Pipeline {
                            state: PipelineState::MetadataFetched { response },
                            include_adaptive,
                        },
                        PipelineAction::Continue,
                    ),
                    Err(error) => (
                        Pipeline { state: PipelineState::Failed { error }, include_adaptive },
                        PipelineAction::Surface,
                    ),
                }
            },
            (PipelineState::IdExtracted { video_id: _ }, PipelineEvent::MetadataFailed { detail }) => (
                Pipeline {
                    state: PipelineState::Failed { error: YouDlError::InvalidResponse(detail) },
                    include_adaptive,
                },
                PipelineAction::Surface,
            ),
            (PipelineState::MetadataFetched { response }, PipelineEvent::Advance) => {
                match DownloadOptions::build(&response, include_adaptive) {
                    Ok(options) => (
                        Pipeline { state: PipelineState::OptionsBuilt { options }, include_adaptive },
                        PipelineAction::ChooseFormat,
                    ),
                    Err(error) => (
                        Pipeline { state: PipelineState::Failed { error }, include_adaptive },
                        PipelineAction::Surface,
                    ),
                }
            },
            (PipelineState::OptionsBuilt { options }, PipelineEvent::FormatChosen { index }) => {
                let mut remaining = options;
                let option = remaining.remove_chosen(index);
                (
                    Pipeline { state: PipelineState::OptionSelected { option }, include_adaptive },
                    PipelineAction::Continue,
                )
            },
            (PipelineState::OptionSelected { option }, PipelineEvent::Advance) => (
                Pipeline { state: PipelineState::Downloading, include_adaptive },
                PipelineAction::StartDownload { option },
            ),
            (PipelineState::Downloading, PipelineEvent::DownloadCompleted) => (
                Pipeline { state: PipelineState::Completed, include_adaptive },
                PipelineAction::Done,
            ),
            (PipelineState::Downloading, PipelineEvent::DownloadFailed { error }) => (
                Pipeline { state: PipelineState::Failed { error }, include_adaptive },
                PipelineAction::Surface,
            ),
            _ => {
                proof {
                    assert(false);
                }
                (
                    Pipeline { state: PipelineState::Completed, include_adaptive },
                    PipelineAction::Done,
                )
            },
        }
    }
}

} // verus!
