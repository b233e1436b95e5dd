//! Progress events emitted while one upload is ingested.
//!
//! The orchestrator produces [`VideoUploadEvent`]s; the response-streaming
//! collaborator consumes them as [`FormatedEvent`]s, one JSON object per
//! event. Within one ingestion the `progress` values never decrease, and
//! the terminal event's state is `already_existed`, `ok` or `error`.

use vstd::prelude::*;

verus! {

use vstd::string::StringExecFns;
use crate::decimal::{i64_to_string, spec_dec};
use crate::id::Id;
use crate::json::{append_json_escaped, json_escaped};

/// One progress event of one ingestion, tagged by stage.
#[derive(Debug)]
pub enum VideoUploadEvent {
    /// The uploaded bytes were already committed under this identifier;
    /// nothing further runs.
    Existed { id: Id },
    /// Work in progress, at the given percentage (0 to 100).
    Progress { id: Id, progress: u16 },
    /// All stages and the metadata commit finished.
    Done { id: Id },
    /// A stage failed; `progress` is the percentage reached before the
    /// failure.
    Failed { id: Id, progress: u16 },
}

impl VideoUploadEvent {
    /// The terminal event for an upload whose bytes were already stored.
    pub fn existed(id: &Id) -> (r: VideoUploadEvent)
        ensures
            r matches VideoUploadEvent::Existed { id: i } && i@ == id@,
    {
        VideoUploadEvent::Existed { id: Id(id.0.clone()) }
    }

    /// A work-in-progress event at the given percentage.
    pub fn wip(id: &Id, progress: u16) -> (r: VideoUploadEvent)
        requires
            progress <= 100,
        ensures
            r matches VideoUploadEvent::Progress { id: i, progress: p } && i@ == id@ && p
                == progress,
    {
        VideoUploadEvent::Progress { id: Id(id.0.clone()), progress }
    }

    /// The terminal success event.
    pub fn ok(id: &Id) -> (r: VideoUploadEvent)
        ensures
            r matches VideoUploadEvent::Done { id: i } && i@ == id@,
    {
        VideoUploadEvent::Done { id: Id(id.0.clone()) }
    }

    /// The terminal failure event, carrying the percentage reached.
    pub fn error(id: &Id, progress: u16) -> (r: VideoUploadEvent)
        requires
            progress <= 100,
        ensures
            r matches VideoUploadEvent::Failed { id: i, progress: p } && i@ == id@ && p
                == progress,
    {
        VideoUploadEvent::Failed { id: Id(id.0.clone()), progress }
    }

    /// Well-formedness: a percentage never exceeds 100.
    pub open spec fn wf(&self) -> bool {
        match self {
            VideoUploadEvent::Progress { progress, .. } => *progress <= 100,
            VideoUploadEvent::Failed { progress, .. } => *progress <= 100,
            _ => true,
        }
    }

    /// The identifier the event speaks of.
    pub open spec fn spec_id(&self) -> Seq<char> {
        match self {
            VideoUploadEvent::Existed { id } => id@,
            VideoUploadEvent::Progress { id, .. } => id@,
            VideoUploadEvent::Done { id } => id@,
            VideoUploadEvent::Failed { id, .. } => id@,
        }
    }

    /// The `progress` field of the event's wire form: `-1` marks
    /// "not applicable" on an `already_existed` event, success reports
    /// `100`, and the other stages report their percentage.
    pub open spec fn spec_progress(&self) -> int {
        match self {
            VideoUploadEvent::Existed { .. } => -1,
            VideoUploadEvent::Progress { progress, .. } => *progress as int,
            VideoUploadEvent::Done { .. } => 100,
            VideoUploadEvent::Failed { progress, .. } => *progress as int,
        }
    }

    /// The `state` field of the event's wire form.
    pub open spec fn spec_state(&self) -> Seq<char> {
        match self {
            VideoUploadEvent::Existed { .. } => "already_existed"@,
            VideoUploadEvent::Progress { .. } => "wip"@,
            VideoUploadEvent::Done { .. } => "ok"@,
            VideoUploadEvent::Failed { .. } => "error"@,
        }
    }

    /// Flatten the event into its wire form.
    pub fn formated(&self) -> (r: FormatedEvent)
        requires
            self.wf(),
        ensures
            r.id@ == self.spec_id(),
            r.progress as int == self.spec_progress(),
            r.state@ == self.spec_state(),
    {
        match self {
            VideoUploadEvent::Existed { id } => FormatedEvent {
                id: id.0.clone(),
                progress: -1,
                state: String::from_str("already_existed"),
            },
            VideoUploadEvent::Progress { id, progress } => FormatedEvent {
                id: id.0.clone(),
                progress: *progress as i16,
                state: String::from_str("wip"),
            },
            VideoUploadEvent::Done { id } => FormatedEvent {
                id: id.0.clone(),
                progress: 100,
                state: String::from_str("ok"),
            },
            VideoUploadEvent::Failed { id, progress } => FormatedEvent {
                id: id.0.clone(),
                progress: *progress as i16,
                state: String::from_str("error"),
            },
        }
    }
}

/// The wire form of one progress event: the JSON object
/// `{"id": ..., "progress": ..., "state": ...}`.
#[derive(Debug)]
pub struct FormatedEvent {
    /// Identifier of the record the ingestion concerns.
    pub id: String,
    /// Percentage reached, or `-1` when not applicable.
    pub progress: i16,
    /// One of `already_existed`, `wip`, `ok`, `error`.
    pub state: String,
}

/// The exact JSON rendering of one event.
pub open spec fn spec_event_json(id: Seq<char>, progress: int, state: Seq<char>) -> Seq<char> {
    "{\"id\":\""@ + json_escaped(id) + "\",\"progress\":"@ + spec_dec(progress) + ",\"state\":\""@
        + json_escaped(state) + "\"}"@
}

impl FormatedEvent {
    /// Serialize the event as one JSON object, with the fields in the
    /// order `id`, `progress`, `state` and no interior whitespace.
    pub fn to_json(&self) -> (r: String)
        ensures
            r@ == spec_event_json(self.id@, self.progress as int, self.state@),
    {
        let mut out = String::from_str("{\"id\":\"");
        append_json_escaped(&mut out, self.id.as_str());
        out.append("\",\"progress\":");
        out.append(i64_to_string(self.progress as i64).as_str());
        out.append(",\"state\":\"");
        append_json_escaped(&mut out, self.state.as_str());
        out.append("\"}");
        proof {
            assert(out@ =~= spec_event_json(self.id@, self.progress as int, self.state@));
        }
        out
    }
}

} // verus!
