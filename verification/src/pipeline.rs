//! The ingestion orchestrator, as a state machine.
//!
//! One upload is driven through the stages
//! `Storing -> Thumbnailing -> Slicing -> Committing -> Done`, or to
//! `Failed` from any stage. The orchestrator decides; its caller performs
//! the blocking work (storing bytes, running the transcoder, committing
//! metadata) and feeds the outcome back as an [`UploadSignal`]. Each
//! accepted signal yields the progress event to emit and the next action
//! to run. Within one ingestion the emitted `progress` values never
//! decrease, and the terminal event is `already_existed`, `ok` or `error`;
//! both facts are proved below over the pure transition function.

use vstd::prelude::*;

verus! {

use crate::event::{FormatedEvent, VideoUploadEvent};
use crate::id::Id;
use crate::storage::SavedId;

/// Stage of one upload.
#[derive(Clone, Copy, Debug, PartialEq, Eq, Structural)]
pub enum UploadStage {
    /// Waiting for the blob store's outcome.
    Storing,
    /// Waiting for the thumbnail extraction.
    Thumbnailing,
    /// Consuming the transcoder's event stream.
    Slicing,
    /// Waiting for the metadata commit.
    Committing,
    /// Terminal: the upload is fully ingested or was a duplicate.
    Done,
    /// Terminal: a stage failed.
    Failed,
}

/// Outcome of one piece of outside work, fed back to the orchestrator.
#[derive(Clone, Copy, Debug, PartialEq, Eq, Structural)]
pub enum UploadSignal {
    /// The blob store finished the save with this outcome.
    Stored(SavedId),
    /// The thumbnail was extracted.
    ThumbnailDone,
    /// The thumbnail extraction failed (probe or transcoder error).
    ThumbnailFailed,
    /// The transcoder reported one progress line.
    SliceWip,
    /// The transcoder finished and the master playlist was written.
    SliceDone,
    /// The transcoder failed.
    SliceFailed,
    /// The metadata row was committed.
    CommitDone,
    /// The metadata commit failed.
    CommitFailed,
}

/// What the caller must run next.
#[derive(Clone, Copy, Debug, PartialEq, Eq, Structural)]
pub enum UploadAction {
    /// Extract the thumbnail from the stored payload.
    ExtractThumbnail,
    /// Start the transcoder and stream its events.
    Transcode,
    /// Keep consuming transcoder events.
    Continue,
    /// Build the metadata record and commit it.
    CommitMetadata,
    /// Close the event stream; the ingestion is over.
    Finish,
}

/// The kind of one emitted event.
#[derive(Clone, Copy, Debug, PartialEq, Eq, Structural)]
pub enum EventKind {
    AlreadyExisted,
    Wip,
    Completed,
    Error,
}

/// Ghost description of one emitted event: its wire `progress` value and
/// its kind.
pub struct EventModel {
    /// The event's `progress` field.
    pub progress: int,
    /// The event's `state` field, as a kind.
    pub kind: EventKind,
}

/// Ghost state of the orchestrator: the stage, and (while slicing) the
/// percentage the next transcoder progress line will be reported as.
pub struct IngestModel {
    /// Current stage.
    pub stage: UploadStage,
    /// Slicing percentage counter; meaningful only in `Slicing`.
    pub progress: int,
}

impl IngestModel {
    /// Well-formedness: the slicing counter stays within its band.
    pub open spec fn wf(&self) -> bool {
        self.stage is Slicing ==> 26 <= self.progress <= 75
    }
}

/// The orchestrator's initial state.
pub open spec fn init_model() -> IngestModel {
    IngestModel { stage: UploadStage::Storing, progress: 0 }
}

/// Which signals a stage accepts.
pub open spec fn spec_accepts(m: IngestModel, s: UploadSignal) -> bool {
    match m.stage {
        UploadStage::Storing => s is Stored,
        UploadStage::Thumbnailing => s is ThumbnailDone || s is ThumbnailFailed,
        UploadStage::Slicing => s is SliceWip || s is SliceDone || s is SliceFailed,
        UploadStage::Committing => s is CommitDone || s is CommitFailed,
        UploadStage::Done => false,
        UploadStage::Failed => false,
    }
}

/// The transition function: next state, the event to emit, and the next
/// action. An unaccepted signal changes nothing.
pub open spec fn spec_step(m: IngestModel, s: UploadSignal) -> (
    IngestModel,
    Option<EventModel>,
    UploadAction,
) {
    if m.stage is Storing && s matches UploadSignal::Stored(SavedId::Existed) {
        (
            IngestModel { stage: UploadStage::Done, progress: 0 },
            Some(EventModel { progress: -1, kind: EventKind::AlreadyExisted }),
            UploadAction::Finish,
        )
    } else if m.stage is Storing && s matches UploadSignal::Stored(SavedId::New) {
        (
            IngestModel { stage: UploadStage::Thumbnailing, progress: 0 },
            Some(EventModel { progress: 15, kind: EventKind::Wip }),
            UploadAction::ExtractThumbnail,
        )
    } else if m.stage is Thumbnailing && s is ThumbnailDone {
        (
            IngestModel { stage: UploadStage::Slicing, progress: 26 },
            Some(EventModel { progress: 25, kind: EventKind::Wip }),
            UploadAction::Transcode,
        )
    } else if m.stage is Thumbnailing && s is ThumbnailFailed {
        (
            IngestModel { stage: UploadStage::Failed, progress: 0 },
            Some(EventModel { progress: 15, kind: EventKind::Error }),
            UploadAction::Finish,
        )
    } else if m.stage is Slicing && s is SliceWip {
        (
            IngestModel {
                stage: UploadStage::Slicing,
                progress: if m.progress < 75 {
                    m.progress + 1
                } else {
                    m.progress
                },
            },
            Some(EventModel { progress: m.progress, kind: EventKind::Wip }),
            UploadAction::Continue,
        )
    } else if m.stage is Slicing && s is SliceDone {
        (
            IngestModel { stage: UploadStage::Committing, progress: 0 },
            Some(EventModel { progress: 75, kind: EventKind::Wip }),
            UploadAction::CommitMetadata,
        )
    } else if m.stage is Slicing && s is SliceFailed {
        (
            IngestModel { stage: UploadStage::Failed, progress: 0 },
            Some(EventModel { progress: m.progress, kind: EventKind::Error }),
            UploadAction::Finish,
        )
    } else if m.stage is Committing && s is CommitDone {
        (
            IngestModel { stage: UploadStage::Done, progress: 0 },
            Some(EventModel { progress: 100, kind: EventKind::Completed }),
            UploadAction::Finish,
        )
    } else if m.stage is Committing && s is CommitFailed {
        (
            IngestModel { stage: UploadStage::Failed, progress: 0 },
            Some(EventModel { progress: 75, kind: EventKind::Error }),
            UploadAction::Finish,
        )
    } else {
        (m, None, UploadAction::Finish)
    }
}

/// A script is valid when each signal in turn is accepted.
pub open spec fn spec_valid(m: IngestModel, script: Seq<UploadSignal>) -> bool
    decreases script.len(),
{
    script.len() > 0 ==> spec_accepts(m, script.first()) && spec_valid(
        spec_step(m, script.first()).0,
        script.drop_first(),
    )
}

/// The events of one optional emission.
pub open spec fn opt_seq(o: Option<EventModel>) -> Seq<EventModel> {
    match o {
        Option::None => Seq::empty(),
        Option::Some(e) => seq![e],
    }
}

/// Run a whole script: the final state and everything emitted, in order.
pub open spec fn spec_run(m: IngestModel, script: Seq<UploadSignal>) -> (
    IngestModel,
    Seq<EventModel>,
)
    decreases script.len(),
{
    if script.len() == 0 {
        (m, Seq::empty())
    } else {
        let st = spec_step(m, script.first());
        let rest = spec_run(st.0, script.drop_first());
        (rest.0, opt_seq(st.1) + rest.1)
    }
}

/// No event of a stage is ever emitted below this bound; every event
/// already emitted on the way into the stage is at or below it.
pub open spec fn stage_floor(m: IngestModel) -> int {
    match m.stage {
        UploadStage::Storing => -1,
        UploadStage::Thumbnailing => 15,
        UploadStage::Slicing => m.progress,
        UploadStage::Committing => 75,
        UploadStage::Done => 101,
        UploadStage::Failed => 101,
    }
}

/// A sequence of events whose `progress` values never decrease.
pub open spec fn events_monotone(out: Seq<EventModel>) -> bool {
    forall|i: int, j: int|
        0 <= i <= j < out.len() ==> out[i].progress <= out[j].progress
}

/// Progress monotonicity along any valid run: every emitted event is at
/// or above the stage's floor, the emitted sequence never decreases, and
/// the final state is well-formed.
pub proof fn lemma_run_monotone(m: IngestModel, script: Seq<UploadSignal>)
    requires
        m.wf(),
        spec_valid(m, script),
    ensures
        spec_run(m, script).0.wf(),
        events_monotone(spec_run(m, script).1),
        forall|i: int|
            0 <= i < spec_run(m, script).1.len() ==> spec_run(m, script).1[i].progress
                >= stage_floor(m),
    decreases script.len(),
{
    if script.len() > 0 {
        let st = spec_step(m, script.first());
        lemma_run_monotone(st.0, script.drop_first());
        let rest = spec_run(st.0, script.drop_first());
        assert(events_monotone(spec_run(m, script).1));
    }
}

/// Terminal events: a run that ends in `Done` ended with a single
/// `already_existed` event or with the `ok` event; a run that ends in
/// `Failed` ended with the `error` event. A terminal stage accepts no
/// further signal, so the terminal event is the last one.
pub proof fn lemma_run_terminal(m: IngestModel, script: Seq<UploadSignal>)
    requires
        spec_valid(m, script),
        !(m.stage is Done),
        !(m.stage is Failed),
    ensures
        spec_run(m, script).0.stage is Done ==> spec_run(m, script).1.len() > 0 && (spec_run(
            m,
            script,
        ).1.last().kind is AlreadyExisted || spec_run(m, script).1.last().kind is Completed),
        spec_run(m, script).0.stage is Failed ==> spec_run(m, script).1.len() > 0 && spec_run(
            m,
            script,
        ).1.last().kind is Error,
    decreases script.len(),
{
    if script.len() > 0 {
        let st = spec_step(m, script.first());
        let rest = script.drop_first();
        if st.0.stage is Done || st.0.stage is Failed {
            lemma_terminal_stays(st.0, rest);
        } else {
            lemma_run_terminal(st.0, rest);
        }
    }
}

/// A terminal stage accepts nothing, so a valid script from it is empty.
proof fn lemma_terminal_stays(m: IngestModel, script: Seq<UploadSignal>)
    requires
        spec_valid(m, script),
        m.stage is Done || m.stage is Failed,
    ensures
        spec_run(m, script).0 == m,
        spec_run(m, script).1 =~= Seq::<EventModel>::empty(),
{
    assert(script.len() == 0);
}

/// The progress-monotonicity law for one whole ingestion: along any valid
/// run from the initial state, the emitted `progress` values never
/// decrease, and if the run reached a terminal stage, its final event's
/// state is exactly `already_existed`, `ok` (terminal success) or `error`.
pub proof fn lemma_upload_progress(script: Seq<UploadSignal>)
    requires
        spec_valid(init_model(), script),
    ensures
        events_monotone(spec_run(init_model(), script).1),
        spec_run(init_model(), script).0.stage is Done ==> spec_run(
            init_model(),
            script,
        ).1.len() > 0 && (spec_run(init_model(), script).1.last().kind is AlreadyExisted
            || spec_run(init_model(), script).1.last().kind is Completed),
        spec_run(init_model(), script).0.stage is Failed ==> spec_run(
            init_model(),
            script,
        ).1.len() > 0 && spec_run(init_model(), script).1.last().kind is Error,
{
    lemma_run_monotone(init_model(), script);
    lemma_run_terminal(init_model(), script);
}

/// The model of one exec event.
pub open spec fn ev_model(e: VideoUploadEvent) -> EventModel {
    EventModel {
        progress: e.spec_progress(),
        kind: match e {
            VideoUploadEvent::Existed { .. } => EventKind::AlreadyExisted,
            VideoUploadEvent::Progress { .. } => EventKind::Wip,
            VideoUploadEvent::Done { .. } => EventKind::Completed,
            VideoUploadEvent::Failed { .. } => EventKind::Error,
        },
    }
}

/// The models of an optional exec event.
pub open spec fn opt_ev_model(o: Option<VideoUploadEvent>) -> Option<EventModel> {
    match o {
        Option::None => Option::None,
        Option::Some(e) => Option::Some(ev_model(e)),
    }
}

/// How one wire event realizes one event of the model: it carries the
/// ingestion's identifier, the model's `progress` value, and the state
/// string of the model's kind.
pub open spec fn event_matches(fe: FormatedEvent, id: Seq<char>, em: EventModel) -> bool {
    fe.id@ == id && fe.progress as int == em.progress && fe.state@ == kind_state(em.kind)
}

/// The `state` string of one event kind.
pub open spec fn kind_state(k: EventKind) -> Seq<char> {
    match k {
        EventKind::AlreadyExisted => "already_existed"@,
        EventKind::Wip => "wip"@,
        EventKind::Completed => "ok"@,
        EventKind::Error => "error"@,
    }
}

/// One upload being ingested: its identifier and the orchestrator state.
pub struct Ingest {
    /// Identifier of the record the upload is stored under.
    pub id: Id,
    stage: UploadStage,
    progress: u16,
}

impl Ingest {
    /// The ghost state of the orchestrator.
    pub closed spec fn model(&self) -> IngestModel {
        IngestModel { stage: self.stage, progress: self.progress as int }
    }

    /// The identifier of the upload being ingested.
    pub closed spec fn spec_id(&self) -> Seq<char> {
        self.id@
    }

    /// A fresh ingestion for one upload, waiting for the store's outcome.
    pub fn new(id: Id) -> (r: Ingest)
        ensures
            r.model() == init_model(),
            r.spec_id() == id@,
    {
        Ingest { id, stage: UploadStage::Storing, progress: 0 }
    }

    /// Feed one outcome in; get the event to emit and the action to run.
    pub fn handle(&mut self, signal: UploadSignal) -> (r: (Option<VideoUploadEvent>, UploadAction))
        requires
            spec_accepts(old(self).model(), signal),
            old(self).model().wf(),
        ensures
            final(self).model() == spec_step(old(self).model(), signal).0,
            final(self).spec_id() == old(self).spec_id(),
            opt_ev_model(r.0) == spec_step(old(self).model(), signal).1,
            r.1 == spec_step(old(self).model(), signal).2,
            r.0 matches Some(e) ==> (e.spec_id() == old(self).spec_id() && e.wf()),
    {
        match signal {
            UploadSignal::Stored(SavedId::Existed) => {
                self.stage = UploadStage::Done;
                self.progress = 0;
                (Some(VideoUploadEvent::existed(&self.id)), UploadAction::Finish)
            },
            UploadSignal::Stored(SavedId::New) => {
                self.stage = UploadStage::Thumbnailing;
                self.progress = 0;
                (Some(VideoUploadEvent::wip(&self.id, 15)), UploadAction::ExtractThumbnail)
            },
            UploadSignal::ThumbnailDone => {
                self.stage = UploadStage::Slicing;
                self.progress = 26;
                (Some(VideoUploadEvent::wip(&self.id, 25)), UploadAction::Transcode)
            },
            UploadSignal::ThumbnailFailed => {
                self.stage = UploadStage::Failed;
                self.progress = 0;
                (Some(VideoUploadEvent::error(&self.id, 15)), UploadAction::Finish)
            },
            UploadSignal::SliceWip => {
                let at = self.progress;
                if self.progress < 75 {
                    self.progress = self.progress + 1;
                }
                (Some(VideoUploadEvent::wip(&self.id, at)), UploadAction::Continue)
            },
            UploadSignal::SliceDone => {
                self.stage = UploadStage::Committing;
                self.progress = 0;
                (Some(VideoUploadEvent::wip(&self.id, 75)), UploadAction::CommitMetadata)
            },
            UploadSignal::SliceFailed => {
                let at = self.progress;
                self.stage = UploadStage::Failed;
                self.progress = 0;
                (Some(VideoUploadEvent::error(&self.id, at)), UploadAction::Finish)
            },
            UploadSignal::CommitDone => {
                self.stage = UploadStage::Done;
                self.progress = 0;
                (Some(VideoUploadEvent::ok(&self.id)), UploadAction::Finish)
            },
            UploadSignal::CommitFailed => {
                self.stage = UploadStage::Failed;
                self.progress = 0;
                (Some(VideoUploadEvent::error(&self.id, 75)), UploadAction::Finish)
            },
        }
    }

    /// Drive one whole ingestion through a script of outcomes, collecting
    /// the wire events in emission order. Each event carries the upload's
    /// identifier, and its `progress` and `state` are exactly those of the
    /// run of the transition function.
    pub fn run(id: Id, script: &Vec<UploadSignal>) -> (events: Vec<FormatedEvent>)
        requires
            spec_valid(init_model(), script@),
        ensures
            events@.len() == spec_run(init_model(), script@).1.len(),
            forall|k: int|
                0 <= k < events@.len() ==> event_matches(
                    #[trigger] events@[k],
                    id@,
                    spec_run(init_model(), script@).1[k],
                ),
    {
        let ghost whole = spec_run(init_model(), script@);
        let mut ingest = Ingest::new(id);
        let mut events: Vec<FormatedEvent> = Vec::new();
        let ghost mut emitted: Seq<EventModel> = Seq::empty();
        let mut i: usize = 0;
        proof {
            lemma_run_monotone(init_model(), script@);
            assert(script@.skip(0) =~= script@);
        }
        while i < script.len()
            invariant
                i <= script.len(),
                ingest.spec_id() == id@,
                ingest.model().wf(),
                spec_valid(ingest.model(), script@.skip(i as int)),
                whole == spec_run(init_model(), script@),
                whole.1 =~= emitted + spec_run(ingest.model(), script@.skip(i as int)).1,
                events@.len() == emitted.len(),
                forall|k: int|
                    0 <= k < events@.len() ==> event_matches(#[trigger] events@[k], id@, emitted[k]),
            decreases script.len() - i,
        {
            let ghost pre = ingest.model();
            let ghost suffix = script@.skip(i as int);
            proof {
                assert(suffix.len() > 0);
                assert(suffix.first() == script@[i as int]);
                assert(suffix.drop_first() =~= script@.skip(i as int + 1));
            }
            let signal = script[i];
            let (ev, _action) = ingest.handle(signal);
            proof {
                lemma_run_monotone(pre, suffix);
            }
            match ev {
                Some(e) => {
                    let fe = e.formated();
                    proof {
                        assert(fe.state@ == kind_state(ev_model(e).kind));
                        assert(event_matches(fe, id@, ev_model(e)));
                        emitted = emitted.push(ev_model(e));
                    }
                    events.push(fe);
                },
                None => {
                },
            }
            i = i + 1;
            proof {
                assert(whole.1 =~= emitted + spec_run(ingest.model(), script@.skip(i as int)).1);
            }
        }
        proof {
            assert(script@.skip(script@.len() as int) =~= Seq::<UploadSignal>::empty());
            assert(emitted =~= whole.1);
        }
        events
    }
}

} // verus!
