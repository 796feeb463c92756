//! Downloading the speech models, with progress reports.
use crate::json::{json_of, Json, ObjectBuilder};
use crate::model::{reazon_model_complete, ModelFiles};
use vstd::prelude::*;
use vstd::string::*;

verus! {

/// Bytes that go by between two progress reports, at least.
pub const REPORT_STEP: u64 = 2_000_000;

/// The event under which progress is reported.
pub const PROGRESS_EVENT: &'static str = "model-progress";

/// Where the Whisper model comes from.
pub const WHISPER_URL: &'static str = "https://huggingface.co/ggerganov/whisper.cpp/resolve/main/ggml-small.bin";

/// The Whisper model's file.
pub const WHISPER_FILE: &'static str = "ggml-small.bin";

/// The Whisper model's file while it is being received.
pub const WHISPER_PART_FILE: &'static str = "ggml-small.bin.part";

/// Where the ReazonSpeech model comes from.
pub const REAZON_URL: &'static str = "https://github.com/k2-fsa/sherpa-onnx/releases/download/asr-models/sherpa-onnx-zipformer-ja-reazonspeech-2024-08-01.tar.bz2";

/// The ReazonSpeech model's archive while it is being received and unpacked.
pub const REAZON_ARCHIVE_FILE: &'static str = "reazon.tar.bz2";

/// Before the status of a refused download of the Whisper model.
pub const WHISPER_REFUSED: &'static str = "ダウンロード失敗: ";

/// Before the status of a refused download of the ReazonSpeech model.
pub const REAZON_REFUSED: &'static str = "DL失敗: ";

/// The error of an archive that lacks a file of the model.
pub const REAZON_INCOMPLETE: &'static str = "モデル展開に失敗（必要ファイルが見つかりません）";

/// The models that can be downloaded.
pub enum Model {
    Whisper,
    Reazon,
}

/// A progress report.
pub struct Report {
    pub downloaded: u64,
    pub total: u64,
    /// The model is there.
    pub done: bool,
}

/// What a report says in JSON: `done` is given only with the last one.
pub open spec fn report_json(r: Report) -> Json {
    let counts = Map::<Seq<char>, Json>::empty().insert(
        "downloaded"@,
        Json::Whole(r.downloaded),
    ).insert("total"@, Json::Whole(r.total));
    Json::Object(
        if r.done {
            counts.insert("done"@, Json::Bool(true))
        } else {
            counts
        },
    )
}

impl Report {
    /// The report as it is emitted.
    pub fn payload(&self) -> (r: serde_json::Value)
        ensures
            json_of(r) == report_json(*self),
    {
        let mut body: ObjectBuilder = ObjectBuilder::new();
        body.set_whole("downloaded", self.downloaded);
        body.set_whole("total", self.total);
        if self.done {
            body.set_bool("done", true);
        }
        body.build()
    }
}

/// A download under way.
pub struct Download {
    pub model: Model,
    /// The bytes to come in all, 0 if the server does not say.
    pub total: u64,
    /// The bytes that came.
    pub downloaded: u64,
    /// The bytes that had come at the last report.
    pub reported: u64,
}

/// What happened during a download.
pub enum DownloadEvent {
    /// The command was given; the model is there already or not.
    Begin { present: bool },
    /// The server answered.
    Response { success: bool, status: String, length: Option<u64> },
    /// A chunk of this length came and was written.
    Chunk(usize),
    /// All chunks came.
    Ended,
    /// The file was renamed.
    Renamed,
    /// The archive was unpacked, and these files of the model are now there.
    Unpacked { files: ModelFiles },
    /// Something went wrong.
    Failed(String),
}

/// What to do next.
pub enum DownloadAction {
    /// Ask the server.
    Fetch,
    /// Create the file and receive the first chunk.
    Receive,
    /// Emit the report and receive the next chunk.
    Report(Report),
    /// Receive the next chunk.
    Continue,
    /// Put the Whisper model in place by renaming the file.
    Rename,
    /// Put the ReazonSpeech model in place by unpacking the archive.
    Unpack,
    /// Emit the report and answer the command with success.
    Announce(Report),
    /// Answer the command.
    Answer(Result<(), String>),
}

/// Before the status of a refused download.
pub open spec fn refusal_text(model: Model) -> Seq<char> {
    match model {
        Model::Whisper => WHISPER_REFUSED@,
        Model::Reazon => REAZON_REFUSED@,
    }
}

impl Download {
    /// Less than a step was received since the last report.
    pub open spec fn wf(self) -> bool {
        self.reported <= self.downloaded < self.reported + REPORT_STEP
    }
}

/// The model is there: the last report, with all bytes.
pub open spec fn announcement(d: Download) -> DownloadAction {
    DownloadAction::Announce(Report { downloaded: d.total, total: d.total, done: true })
}

/// The state and the action that follow an event.
pub open spec fn downloads(
    before: Download,
    event: DownloadEvent,
    after: Download,
    action: DownloadAction,
) -> bool {
    match event {
        DownloadEvent::Begin { present } => {
            &&& after == before
            &&& if present {
                action == DownloadAction::Answer(Ok(()))
            } else {
                action is Fetch
            }
        },
        DownloadEvent::Response { success, status, length } => if success {
            &&& action is Receive
            &&& after == Download {
                model: before.model,
                total: match length {
                    Some(n) => n,
                    None => 0,
                },
                downloaded: 0,
                reported: 0,
            }
        } else {
            &&& after == before
            &&& action matches DownloadAction::Answer(Err(e)) && e@ == refusal_text(before.model)
                + status@
        },
        DownloadEvent::Chunk(len) => {
            &&& after.model == before.model
            &&& after.total == before.total
            &&& after.downloaded == before.downloaded + len
            &&& if after.downloaded - before.reported >= REPORT_STEP {
                &&& after.reported == after.downloaded
                &&& action == DownloadAction::Report(
                    Report { downloaded: after.downloaded, total: before.total, done: false },
                )
            } else {
                &&& after.reported == before.reported
                &&& action is Continue
            }
        },
        DownloadEvent::Ended => {
            &&& after == before
            &&& match before.model {
                Model::Whisper => action is Rename,
                Model::Reazon => action is Unpack,
            }
        },
        DownloadEvent::Renamed => after == before && action == announcement(before),
        DownloadEvent::Unpacked { files } => {
            &&& after == before
            &&& if files.complete() {
                action == announcement(before)
            } else {
                action matches DownloadAction::Answer(Err(e)) && e@ == REAZON_INCOMPLETE@
            }
        },
        DownloadEvent::Failed(e) => after == before && action == DownloadAction::Answer(Err(e)),
    }
}

impl Download {
    /// A download that has not begun.
    pub fn new(model: Model) -> (r: Download)
        ensures
            r.wf(),
            r == (Download { model, total: 0, downloaded: 0, reported: 0 }),
    {
        Download { model, total: 0, downloaded: 0, reported: 0 }
    }

    fn announce(&self) -> (r: DownloadAction)
        ensures
            r == announcement(*self),
    {
        DownloadAction::Announce(
            Report { downloaded: self.total, total: self.total, done: true },
        )
    }

    /// Takes the download one event further.
    pub fn step(&mut self, event: DownloadEvent) -> (r: DownloadAction)
        requires
            old(self).wf(),
            event matches DownloadEvent::Chunk(len) ==> old(self).downloaded + len <= u64::MAX,
        ensures
            final(self).wf(),
            downloads(*old(self), event, *final(self), r),
    {
        match event {
            DownloadEvent::Begin { present } => if present {
                DownloadAction::Answer(Ok(()))
            } else {
                DownloadAction::Fetch
            },
            DownloadEvent::Response { success, status, length } => if success {
                self.total = match length {
                    Some(n) => n,
                    None => 0,
                };
                self.downloaded = 0;
                self.reported = 0;
                DownloadAction::Receive
            } else {
                let mut e: String = match self.model {
                    Model::Whisper => WHISPER_REFUSED.to_string(),
                    Model::Reazon => REAZON_REFUSED.to_string(),
                };
                e.append(status.as_str());
                DownloadAction::Answer(Err(e))
            },
            DownloadEvent::Chunk(len) => {
                self.downloaded = self.downloaded + len as u64;
                if self.downloaded - self.reported >= REPORT_STEP {
                    self.reported = self.downloaded;
                    DownloadAction::Report(
                        Report { downloaded: self.downloaded, total: self.total, done: false },
                    )
                } else {
                    DownloadAction::Continue
                }
            },
            DownloadEvent::Ended => match self.model {
                Model::Whisper => DownloadAction::Rename,
                Model::Reazon => DownloadAction::Unpack,
            },
            DownloadEvent::Renamed => self.announce(),
            DownloadEvent::Unpacked { files } => if reazon_model_complete(&files) {
                self.announce()
            } else {
                DownloadAction::Answer(Err(REAZON_INCOMPLETE.to_string()))
            },
            DownloadEvent::Failed(e) => DownloadAction::Answer(Err(e)),
        }
    }
}

/// The sum of chunk lengths.
pub open spec fn sum(chunks: Seq<usize>) -> int
    decreases chunks.len(),
{
    if chunks.len() == 0 {
        0
    } else {
        sum(chunks.drop_last()) + chunks.last()
    }
}

/// `states` is how a download goes through `chunks`, with `actions` following
/// them, from the point where the first chunk is awaited.
pub open spec fn is_transfer(
    states: Seq<Download>,
    chunks: Seq<usize>,
    actions: Seq<DownloadAction>,
) -> bool {
    &&& states.len() == chunks.len() + 1
    &&& actions.len() == chunks.len()
    &&& states[0].downloaded == 0
    &&& states[0].reported == 0
    &&& forall|i: int|
        0 <= i < chunks.len() ==> downloads(
            states[i],
            DownloadEvent::Chunk(#[trigger] chunks[i]),
            states[i + 1],
            actions[i],
        )
}

proof fn lemma_transfer_prefix(
    states: Seq<Download>,
    chunks: Seq<usize>,
    actions: Seq<DownloadAction>,
    i: int,
)
    requires
        is_transfer(states, chunks, actions),
        0 <= i <= chunks.len(),
    ensures
        states[i].wf(),
        states[i].downloaded == sum(chunks.take(i)),
        states[i].total == states[0].total,
    decreases i,
{
    if i > 0 {
        lemma_transfer_prefix(states, chunks, actions, i - 1);
        assert(downloads(
            states[i - 1],
            DownloadEvent::Chunk(chunks[i - 1]),
            states[i],
            actions[i - 1],
        ));
        assert(chunks.take(i).drop_last() =~= chunks.take(i - 1));
    } else {
        assert(chunks.take(0).len() == 0);
    }
}

proof fn lemma_reported_grows(
    states: Seq<Download>,
    chunks: Seq<usize>,
    actions: Seq<DownloadAction>,
    i: int,
    j: int,
)
    requires
        is_transfer(states, chunks, actions),
        0 <= i <= j <= chunks.len(),
    ensures
        states[i].reported <= states[j].reported,
    decreases j - i,
{
    if i < j {
        lemma_reported_grows(states, chunks, actions, i, j - 1);
        lemma_transfer_prefix(states, chunks, actions, j - 1);
        assert(downloads(
            states[j - 1],
            DownloadEvent::Chunk(chunks[j - 1]),
            states[j],
            actions[j - 1],
        ));
    }
}

/// A report tells how many bytes have come, chunks summed up.
pub proof fn law_report_tells_the_sum(
    states: Seq<Download>,
    chunks: Seq<usize>,
    actions: Seq<DownloadAction>,
    i: int,
)
    requires
        is_transfer(states, chunks, actions),
        0 <= i < chunks.len(),
    ensures
        actions[i] matches DownloadAction::Report(r) ==> r.downloaded == sum(chunks.take(i + 1))
            && r.total == states[0].total && !r.done,
{
    lemma_transfer_prefix(states, chunks, actions, i);
    lemma_transfer_prefix(states, chunks, actions, i + 1);
    assert(downloads(states[i], DownloadEvent::Chunk(chunks[i]), states[i + 1], actions[i]));
}

/// Two reports are at least a step apart.
pub proof fn law_reports_are_spaced(
    states: Seq<Download>,
    chunks: Seq<usize>,
    actions: Seq<DownloadAction>,
    i: int,
    j: int,
)
    requires
        is_transfer(states, chunks, actions),
        0 <= i < j < chunks.len(),
    ensures
        actions[i] matches DownloadAction::Report(a) ==> actions[j] matches DownloadAction::Report(
            b,
        ) ==> a.downloaded + REPORT_STEP <= b.downloaded,
{
    lemma_reported_grows(states, chunks, actions, i + 1, j);
    assert(downloads(states[i], DownloadEvent::Chunk(chunks[i]), states[i + 1], actions[i]));
    assert(downloads(states[j], DownloadEvent::Chunk(chunks[j]), states[j + 1], actions[j]));
}

/// At any time less than a step has come since the last report.
pub proof fn law_reports_keep_up(
    states: Seq<Download>,
    chunks: Seq<usize>,
    actions: Seq<DownloadAction>,
    i: int,
)
    requires
        is_transfer(states, chunks, actions),
        0 <= i <= chunks.len(),
    ensures
        states[i].reported <= sum(chunks.take(i)) < states[i].reported + REPORT_STEP,
{
    lemma_transfer_prefix(states, chunks, actions, i);
}

/// The events that an action can lead to.
pub open spec fn leads_to(action: DownloadAction, event: DownloadEvent) -> bool {
    match action {
        DownloadAction::Fetch => event is Response || event is Failed,
        DownloadAction::Receive | DownloadAction::Report(_) | DownloadAction::Continue => {
            event is Chunk || event is Ended || event is Failed
        },
        DownloadAction::Rename => event is Renamed || event is Failed,
        DownloadAction::Unpack => event is Unpacked || event is Failed,
        DownloadAction::Announce(_) | DownloadAction::Answer(_) => false,
    }
}

/// `events`, with the `states` between them and the `actions` that follow
/// them, are one run of the command from its beginning on.
pub open spec fn is_download_run(
    states: Seq<Download>,
    events: Seq<DownloadEvent>,
    actions: Seq<DownloadAction>,
) -> bool {
    &&& events.len() > 0
    &&& states.len() == events.len() + 1
    &&& actions.len() == events.len()
    &&& events[0] is Begin
    &&& forall|i: int|
        0 <= i < events.len() ==> downloads(
            states[i],
            #[trigger] events[i],
            states[i + 1],
            actions[i],
        )
    &&& forall|i: int| 0 < i < events.len() ==> leads_to(actions[i - 1], #[trigger] events[i])
}

/// The command was answered with success.
pub open spec fn succeeds(action: DownloadAction) -> bool {
    action is Announce || action == DownloadAction::Answer(Ok(()))
}

proof fn lemma_model_stays(
    states: Seq<Download>,
    events: Seq<DownloadEvent>,
    actions: Seq<DownloadAction>,
    n: int,
)
    requires
        is_download_run(states, events, actions),
        0 <= n <= events.len(),
    ensures
        states[n].model == states[0].model,
    decreases n,
{
    if n > 0 {
        lemma_model_stays(states, events, actions, n - 1);
        assert(downloads(states[n - 1], events[n - 1], states[n], actions[n - 1]));
    }
}

/// A download of the ReazonSpeech model that finds it missing succeeds only
/// once all four of its files are there.
pub proof fn law_reazon_success_means_all_files(
    states: Seq<Download>,
    events: Seq<DownloadEvent>,
    actions: Seq<DownloadAction>,
    file: crate::model::ModelFile,
)
    requires
        is_download_run(states, events, actions),
        states[0].model is Reazon,
        events[0] == (DownloadEvent::Begin { present: false }),
        succeeds(actions.last()),
    ensures
        events.last() matches DownloadEvent::Unpacked { files } && files.has(file),
{
    let n = events.len() - 1;
    lemma_model_stays(states, events, actions, n);
    assert(downloads(states[n], events[n], states[n + 1], actions[n]));
    if n > 0 {
        lemma_model_stays(states, events, actions, n - 1);
        assert(downloads(states[n - 1], events[n - 1], states[n], actions[n - 1]));
        assert(leads_to(actions[n - 1], events[n]));
    }
}

/// A model that is there is not fetched: the command ends at once, with success.
pub proof fn law_present_model_is_not_fetched(
    states: Seq<Download>,
    events: Seq<DownloadEvent>,
    actions: Seq<DownloadAction>,
)
    requires
        is_download_run(states, events, actions),
        events[0] == (DownloadEvent::Begin { present: true }),
    ensures
        events.len() == 1,
        actions[0] == DownloadAction::Answer(Ok(())),
{
    assert(downloads(states[0], events[0], states[1], actions[0]));
    if events.len() > 1 {
        assert(leads_to(actions[0], events[1]));
    }
}

/// The bytes that came with the chunks among the first `n` events.
pub open spec fn received(events: Seq<DownloadEvent>, n: int) -> int
    decreases n,
{
    if n <= 0 {
        0
    } else {
        received(events, n - 1) + match events[n - 1] {
            DownloadEvent::Chunk(len) => len as int,
            _ => 0,
        }
    }
}

/// The bytes that the latest report among the first `n` actions tells of, 0
/// before the first report.
pub open spec fn last_told(actions: Seq<DownloadAction>, n: int) -> int
    decreases n,
{
    if n <= 0 {
        0
    } else {
        match actions[n - 1] {
            DownloadAction::Report(r) => r.downloaded as int,
            _ => last_told(actions, n - 1),
        }
    }
}

/// The length that the server stated in its answer, 0 if it stated none.
pub open spec fn stated_length(events: Seq<DownloadEvent>) -> int {
    match events[1] {
        DownloadEvent::Response { length: Some(n), .. } => n as int,
        _ => 0,
    }
}

proof fn lemma_download_counts(
    states: Seq<Download>,
    events: Seq<DownloadEvent>,
    actions: Seq<DownloadAction>,
    n: int,
)
    requires
        is_download_run(states, events, actions),
        2 <= n < events.len(),
    ensures
        events[1] is Response,
        states[n].total == stated_length(events),
        states[n].downloaded == received(events, n),
        states[n].reported == last_told(actions, n),
        forall|i: int| 2 <= i <= n ==> !(#[trigger] events[i] is Begin || events[i] is Response),
    decreases n,
{
    assert(downloads(states[0], events[0], states[1], actions[0]));
    assert(leads_to(actions[0], events[1]));
    assert(downloads(states[1], events[1], states[2], actions[1]));
    assert(leads_to(actions[1], events[2]));
    if n > 2 {
        lemma_download_counts(states, events, actions, n - 1);
        assert(downloads(states[n - 1], events[n - 1], states[n], actions[n - 1]));
        assert(leads_to(actions[n - 1], events[n]));
    } else {
        reveal_with_fuel(received, 3);
        reveal_with_fuel(last_told, 3);
    }
}

/// What a download does at each point, from what has happened up to there:
///
/// - A model that is there is not fetched, and one that is missing is.
/// - A server that refuses is answered with its status.
/// - A chunk is reported on exactly if two million bytes or more have come since
///   the last report, with the bytes that came and the length that was stated.
/// - What was received whole is put in place: renamed, or unpacked.
/// - A model that is in place is announced, with the stated length, unless a
///   file of it is missing.
/// - What fails is answered with why.
pub proof fn law_download_run(
    states: Seq<Download>,
    events: Seq<DownloadEvent>,
    actions: Seq<DownloadAction>,
    i: int,
)
    requires
        is_download_run(states, events, actions),
        0 <= i < events.len(),
    ensures
        match events[i] {
            DownloadEvent::Begin { present } => i == 0 && if present {
                actions[i] == DownloadAction::Answer(Ok(()))
            } else {
                actions[i] is Fetch
            },
            DownloadEvent::Response { success, status, length } => i == 1 && if success {
                actions[i] is Receive
            } else {
                actions[i] matches DownloadAction::Answer(Err(e)) && e@ == (
                if states[0].model is Whisper {
                    "ダウンロード失敗: "@
                } else {
                    "DL失敗: "@
                }) + status@
            },
            DownloadEvent::Chunk(_) => i >= 2 && if received(events, i + 1) - last_told(actions, i)
                >= 2_000_000 {
                actions[i] matches DownloadAction::Report(r) && r.downloaded == received(
                    events,
                    i + 1,
                ) && r.total == stated_length(events) && !r.done
            } else {
                actions[i] is Continue
            },
            DownloadEvent::Ended => i >= 2 && if states[0].model is Whisper {
                actions[i] is Rename
            } else {
                actions[i] is Unpack
            },
            DownloadEvent::Renamed => states[0].model is Whisper && (actions[i] matches
                DownloadAction::Announce(r) && r.downloaded == stated_length(events) && r.total
                == stated_length(events) && r.done),
            DownloadEvent::Unpacked { files } => states[0].model is Reazon && if files.encoder
                && files.decoder && files.joiner && files.tokens {
                actions[i] matches DownloadAction::Announce(r) && r.downloaded == stated_length(
                    events,
                ) && r.total == stated_length(events) && r.done
            } else {
                actions[i] matches DownloadAction::Answer(Err(e)) && e@
                    == "モデル展開に失敗（必要ファイルが見つかりません）"@
            },
            DownloadEvent::Failed(e) => actions[i] == DownloadAction::Answer(Err(e)),
        },
{
    assert(downloads(states[0], events[0], states[1], actions[0]));
    if events.len() > 1 {
        assert(leads_to(actions[0], events[1]));
        assert(downloads(states[1], events[1], states[2], actions[1]));
    }
    assert(downloads(states[i], events[i], states[i + 1], actions[i]));
    lemma_model_stays(states, events, actions, i);
    if i >= 2 {
        lemma_download_counts(states, events, actions, i);
        lemma_model_stays(states, events, actions, i - 1);
        assert(leads_to(actions[i - 1], events[i]));
        assert(downloads(states[i - 1], events[i - 1], states[i], actions[i - 1]));
        if let DownloadEvent::Unpacked { files } = events[i] {
            assert(files.has(crate::model::ModelFile::Encoder) == files.encoder);
            assert(files.has(crate::model::ModelFile::Decoder) == files.decoder);
            assert(files.has(crate::model::ModelFile::Joiner) == files.joiner);
            assert(files.has(crate::model::ModelFile::Tokens) == files.tokens);
        }
    }
}

/// A download of the Whisper model that finds it missing succeeds exactly if it
/// ends with the received file renamed into place, and then that is announced.
pub proof fn law_whisper_success_means_renamed(
    states: Seq<Download>,
    events: Seq<DownloadEvent>,
    actions: Seq<DownloadAction>,
)
    requires
        is_download_run(states, events, actions),
        states[0].model is Whisper,
        events[0] == (DownloadEvent::Begin { present: false }),
    ensures
        succeeds(actions.last()) <==> events.last() is Renamed,
        actions.last() != DownloadAction::Answer(Ok(())),
        actions.last() matches DownloadAction::Announce(r) ==> r.done && r.downloaded == r.total
            && r.total == stated_length(events),
        events.last() is Renamed ==> events.len() >= 4 && events[events.len() - 2] is Ended
            && actions[events.len() - 2] is Rename,
{
    let n = events.len() - 1;
    law_download_run(states, events, actions, n);
    if n > 0 {
        law_download_run(states, events, actions, n - 1);
        assert(leads_to(actions[n - 1], events[n]));
    }
}

/// A download of the ReazonSpeech model that finds it missing succeeds exactly
/// if it ends with an archive unpacked that held all four files, and then that
/// is announced.
pub proof fn law_reazon_success_means_unpacked(
    states: Seq<Download>,
    events: Seq<DownloadEvent>,
    actions: Seq<DownloadAction>,
)
    requires
        is_download_run(states, events, actions),
        states[0].model is Reazon,
        events[0] == (DownloadEvent::Begin { present: false }),
    ensures
        succeeds(actions.last()) <==> (events.last() matches DownloadEvent::Unpacked { files }
            && files.encoder && files.decoder && files.joiner && files.tokens),
        actions.last() != DownloadAction::Answer(Ok(())),
        actions.last() matches DownloadAction::Announce(r) ==> r.done && r.downloaded == r.total
            && r.total == stated_length(events),
        events.last() is Unpacked ==> events.len() >= 4 && events[events.len() - 2] is Ended
            && actions[events.len() - 2] is Unpack,
{
    let n = events.len() - 1;
    law_download_run(states, events, actions, n);
    if n > 0 {
        law_download_run(states, events, actions, n - 1);
        assert(leads_to(actions[n - 1], events[n]));
    }
}

/// What is decided at each point is what a call decides.
pub proof fn law_step_downloads(d: &mut Download, event: DownloadEvent, r: DownloadAction)
    requires
        call_ensures(Download::step, (d, event), r),
    ensures
        downloads(*old(d), event, *final(d), r),
{
}

/// Whatever a download has been through, what was received whole is put in
/// place in the way of its model, and what was put in place is announced.
pub proof fn law_step_puts_in_place(
    d: &mut Download,
    ended: DownloadAction,
    e: &mut Download,
    renamed: DownloadAction,
)
    requires
        call_ensures(Download::step, (d, DownloadEvent::Ended), ended),
        *old(e) == *final(d),
        call_ensures(Download::step, (e, DownloadEvent::Renamed), renamed),
    ensures
        old(d).model is Whisper ==> ended is Rename,
        old(d).model is Reazon ==> ended is Unpack,
        renamed matches DownloadAction::Announce(r) && r.done && r.total == old(d).total
            && r.downloaded == old(d).total,
        *final(e) == *old(d),
{
}

/// A download begins with nothing received.
pub proof fn law_new_download(model: Model, r: Download)
    requires
        call_ensures(Download::new, (model,), r),
    ensures
        r.model == model,
        r.total == 0 && r.downloaded == 0 && r.reported == 0,
{
}

/// A report says how many bytes came and how many there are, and that the model
/// is there only once it is; and it says nothing else.
pub proof fn law_report_payload(report: Report, r: serde_json::Value)
    requires
        call_ensures(Report::payload, (&report,), r),
    ensures
        json_of(r) matches Json::Object(m) && {
            &&& m.dom().contains("downloaded"@) && m["downloaded"@] == Json::Whole(
                report.downloaded,
            )
            &&& m.dom().contains("total"@) && m["total"@] == Json::Whole(report.total)
            &&& m.dom().contains("done"@) <==> report.done
            &&& report.done ==> m["done"@] == Json::Bool(true)
            &&& forall|name: Seq<char>| #[trigger]
                m.dom().contains(name) ==> name == "downloaded"@ || name == "total"@ || name
                    == "done"@
        },
{
    reveal_strlit("downloaded");
    reveal_strlit("total");
    reveal_strlit("done");
    assert("downloaded"@.len() == 10 && "total"@.len() == 5 && "done"@.len() == 4);
}

/// Every event is taken, as long as the bytes that came can be counted and less
/// than a step came since the last report, which every step leaves so.
pub proof fn law_every_event_is_taken(d: &mut Download, event: DownloadEvent, r: DownloadAction)
    requires
        old(d).reported <= old(d).downloaded < old(d).reported + 2_000_000,
    ensures
        (event matches DownloadEvent::Chunk(len) ==> old(d).downloaded + len <= u64::MAX)
            ==> call_requires(Download::step, (d, event)),
        call_ensures(Download::step, (d, event), r) ==> final(d).reported <= final(d).downloaded
            < final(d).reported + 2_000_000,
{
}

/// The Whisper model is kept under the name that it has at its source, and
/// under another while it is being received.
pub proof fn law_whisper_files()
    ensures
        WHISPER_URL@ == "https://huggingface.co/ggerganov/whisper.cpp/resolve/main/"@ + WHISPER_FILE@,
        WHISPER_PART_FILE@ == WHISPER_FILE@ + ".part"@,
{
    reveal_strlit("https://huggingface.co/ggerganov/whisper.cpp/resolve/main/ggml-small.bin");
    reveal_strlit("https://huggingface.co/ggerganov/whisper.cpp/resolve/main/");
    reveal_strlit("ggml-small.bin");
    reveal_strlit("ggml-small.bin.part");
    reveal_strlit(".part");
    assert(WHISPER_PART_FILE@ =~= WHISPER_FILE@ + ".part"@);
    assert(WHISPER_URL@ =~= "https://huggingface.co/ggerganov/whisper.cpp/resolve/main/"@
        + WHISPER_FILE@);
}

}
