//! Speech recognition with Whisper: one run per recording, or a server that
//! stays.
use crate::license::{require_license, Licensed, UNLICENSED};
use crate::text::{
    decimal, decimal_text, decode_lossy, is_white_space, lossy_utf8, trimmed, views,
};
use crate::wav::{encode_wav, fits_wav, hound_writes, wav_file, SAMPLE_RATE};
use vstd::prelude::*;
use vstd::string::*;

verus! {

/// The port of the Whisper server.
pub const WHISPER_PORT: u16 = 8765;

/// The answer to a command that needs the Whisper model while it is missing.
pub const MODEL_MISSING: &'static str = "model_missing";

/// The file that a recording is handed over in.
pub const RECORDING_FILE: &'static str = "rec.wav";

/// The program that recognises one recording.
pub const WHISPER_CLI: &'static str = "whisper-cli";

/// The program that stays and recognises one recording after the other.
pub const WHISPER_SERVER: &'static str = "whisper-server";

/// A server process that runs or does not.
pub struct ServerSlot<C> {
    pub child: Option<C>,
}

impl<C> ServerSlot<C> {
    /// No server runs.
    pub fn new() -> (r: ServerSlot<C>)
        ensures
            r.child is None,
    {
        ServerSlot { child: None }
    }

    /// Tells whether a server runs.
    pub fn is_running(&self) -> (r: bool)
        ensures
            r == (self.child is Some),
    {
        self.child.is_some()
    }

    /// Keeps the process of a server that was started.
    pub fn started(&mut self, child: C)
        ensures
            final(self).child == Some(child),
    {
        self.child = Some(child);
    }

    /// Gives the process up, if there is one. It is then to be killed.
    pub fn stop(&mut self) -> (r: Option<C>)
        ensures
            r == old(self).child,
            final(self).child is None,
    {
        self.child.take()
    }
}

/// The arguments for the recognition of one recording: Japanese, only the
/// text, without time stamps, in four threads.
pub open spec fn cli_args(
    model: Seq<char>,
    recording: Seq<char>,
    prompt: Seq<char>,
) -> Seq<Seq<char>> {
    seq![
        "-m"@,
        model,
        "-f"@,
        recording,
        "-l"@,
        "ja"@,
        "--prompt"@,
        prompt,
        "-np"@,
        "-nt"@,
        "-t"@,
        "4"@,
    ]
}

/// Builds [`cli_args`].
pub fn transcribe_args(model: &str, recording: &str, prompt: &str) -> (r: Vec<String>)
    ensures
        views(r@) == cli_args(model@, recording@, prompt@),
{
    let mut r: Vec<String> = Vec::new();
    r.push("-m".to_string());
    r.push(model.to_string());
    r.push("-f".to_string());
    r.push(recording.to_string());
    r.push("-l".to_string());
    r.push("ja".to_string());
    r.push("--prompt".to_string());
    r.push(prompt.to_string());
    r.push("-np".to_string());
    r.push("-nt".to_string());
    r.push("-t".to_string());
    r.push("4".to_string());
    proof {
        assert(views(r@) =~= cli_args(model@, recording@, prompt@));
    }
    r
}

/// The text of a recognised recording: decoded output without the white space
/// around it.
pub fn transcript(output: &Vec<u8>) -> (r: String)
    ensures
        r@ == trimmed(lossy_utf8(output@)),
        vstd::utf8::valid_utf8(output@) ==> r@ == trimmed(vstd::utf8::decode_utf8(output@)),
{
    clean_transcript(decode_lossy(output.as_slice()).as_str())
}

/// The text without the white space around it.
pub fn clean_transcript(text: &str) -> (r: String)
    ensures
        r@ == trimmed(text@),
{
    text.trim().to_string()
}

/// A recording that is to be recognised by one run of the program.
pub struct TranscribeJob {
    /// Where the model is.
    pub model: String,
    /// Where the recording is handed over.
    pub recording: String,
    pub prompt: String,
    pub samples: Vec<i16>,
}

/// What happened while a recording is being recognised.
pub enum TranscribeEvent {
    /// The command was given; the model is there or not.
    Begin { model_present: bool },
    /// The recording was written.
    Saved(Result<(), String>),
    /// The program ran, and this is its output.
    Finished(Result<Vec<u8>, String>),
}

/// What to do next.
pub enum TranscribeAction {
    /// Write this file where the recording is handed over.
    Save(Vec<u8>),
    /// Run the program with these arguments.
    Run(Vec<String>),
    /// Answer the command.
    Answer(Result<String, String>),
}

/// The text for an output of the program.
pub open spec fn is_transcript(text: Seq<char>, output: Seq<u8>) -> bool {
    &&& text == trimmed(lossy_utf8(output))
    &&& vstd::utf8::valid_utf8(output) ==> text == trimmed(vstd::utf8::decode_utf8(output))
}

/// The action that follows an event.
pub open spec fn transcribes(
    licensed: bool,
    job: TranscribeJob,
    event: TranscribeEvent,
    action: TranscribeAction,
) -> bool {
    match event {
        TranscribeEvent::Begin { model_present } => if !licensed {
            action matches TranscribeAction::Answer(Err(e)) && e@ == UNLICENSED@
        } else if !model_present {
            action matches TranscribeAction::Answer(Err(e)) && e@ == MODEL_MISSING@
        } else if hound_writes(job.samples@) {
            action matches TranscribeAction::Save(file) && file@ == wav_file(
                SAMPLE_RATE as int,
                job.samples@,
            )
        } else {
            action matches TranscribeAction::Answer(Err(_))
        },
        TranscribeEvent::Saved(Ok(_)) => {
            action matches TranscribeAction::Run(args) && views(args@) == cli_args(
                job.model@,
                job.recording@,
                job.prompt@,
            )
        },
        TranscribeEvent::Saved(Err(e)) => action == TranscribeAction::Answer(Err(e)),
        TranscribeEvent::Finished(Ok(output)) => {
            action matches TranscribeAction::Answer(Ok(text)) && is_transcript(text@, output@)
        },
        TranscribeEvent::Finished(Err(e)) => action == TranscribeAction::Answer(Err(e)),
    }
}

/// Recognises a recording step by step. It is refused without a license and,
/// next, without the model.
pub fn transcribe(licensed: &Licensed, job: &TranscribeJob, event: TranscribeEvent) -> (r:
    TranscribeAction)
    requires
        licensed.0 && event == (TranscribeEvent::Begin { model_present: true }) ==> fits_wav(
            job.samples@.len(),
        ),
    ensures
        transcribes(licensed.0, *job, event, r),
{
    match event {
        TranscribeEvent::Begin { model_present } => match require_license(licensed) {
            Ok(()) => if model_present {
                match encode_wav(&job.samples) {
                    Ok(file) => TranscribeAction::Save(file),
                    Err(e) => TranscribeAction::Answer(Err(e)),
                }
            } else {
                TranscribeAction::Answer(Err(MODEL_MISSING.to_string()))
            },
            Err(e) => TranscribeAction::Answer(Err(e)),
        },
        TranscribeEvent::Saved(Ok(_)) => TranscribeAction::Run(
            transcribe_args(job.model.as_str(), job.recording.as_str(), job.prompt.as_str()),
        ),
        TranscribeEvent::Saved(Err(e)) => TranscribeAction::Answer(Err(e)),
        TranscribeEvent::Finished(Ok(output)) => TranscribeAction::Answer(Ok(transcript(&output))),
        TranscribeEvent::Finished(Err(e)) => TranscribeAction::Answer(Err(e)),
    }
}

/// `events` with the `actions` that follow them are one recognition of `job`.
pub open spec fn is_transcribe_run(
    licensed: bool,
    job: TranscribeJob,
    events: Seq<TranscribeEvent>,
    actions: Seq<TranscribeAction>,
) -> bool {
    &&& events.len() > 0
    &&& actions.len() == events.len()
    &&& events[0] is Begin
    &&& forall|i: int|
        0 <= i < events.len() ==> transcribes(licensed, job, #[trigger] events[i], actions[i])
    &&& forall|i: int|
        0 < i < events.len() ==> match actions[i - 1] {
            TranscribeAction::Save(_) => (#[trigger] events[i]) is Saved,
            TranscribeAction::Run(_) => events[i] is Finished,
            TranscribeAction::Answer(_) => false,
        }
}

/// Without a license or without the model nothing is written or run. A text is
/// answered only after the recording was written and the program was run on it,
/// and is the text of the program's output.
pub proof fn law_transcribe_run(
    licensed: bool,
    job: TranscribeJob,
    events: Seq<TranscribeEvent>,
    actions: Seq<TranscribeAction>,
)
    requires
        is_transcribe_run(licensed, job, events, actions),
    ensures
        events.len() <= 3,
        !licensed || events[0] == (TranscribeEvent::Begin { model_present: false })
            ==> events.len() == 1 && actions[0] matches TranscribeAction::Answer(Err(_)),
        actions.last() matches TranscribeAction::Answer(Ok(text)) ==> {
            &&& licensed
            &&& events.len() == 3
            &&& actions[0] matches TranscribeAction::Save(file) && file@ == wav_file(
                SAMPLE_RATE as int,
                job.samples@,
            )
            &&& actions[1] matches TranscribeAction::Run(args) && views(args@) == cli_args(
                job.model@,
                job.recording@,
                job.prompt@,
            )
            &&& events[2] matches TranscribeEvent::Finished(Ok(output)) && is_transcript(
                text@,
                output@,
            )
        },
{
    assert(transcribes(licensed, job, events[0], actions[0]));
    if events.len() > 1 {
        assert(events[1] is Saved);
        assert(transcribes(licensed, job, events[1], actions[1]));
    }
    if events.len() > 2 {
        assert(events[2] is Finished);
        assert(transcribes(licensed, job, events[2], actions[2]));
    }
    if events.len() > 3 {
        assert(events[3] is Finished);
    }
}

/// The arguments of the server: on this machine's port, eight threads, one
/// beam, one candidate, Japanese.
pub open spec fn server_args(model: Seq<char>) -> Seq<Seq<char>> {
    seq![
        "-m"@,
        model,
        "--host"@,
        "127.0.0.1"@,
        "--port"@,
        decimal(WHISPER_PORT as int),
        "-t"@,
        "8"@,
        "-bs"@,
        "1"@,
        "-bo"@,
        "1"@,
        "-l"@,
        "ja"@,
    ]
}

/// Begins to start the server: nothing is to be done if it runs (`Ok(None)`),
/// and otherwise it is to be spawned with these arguments, if its model is
/// there.
pub fn start_whisper<C>(slot: &ServerSlot<C>, model_present: bool, model: &str) -> (r: Result<
    Option<Vec<String>>,
    String,
>)
    ensures
        match r {
            Ok(None) => slot.child is Some,
            Ok(Some(args)) => slot.child is None && model_present && views(args@) == server_args(
                model@,
            ),
            Err(e) => slot.child is None && !model_present && e@ == MODEL_MISSING@,
        },
{
    if slot.child.is_some() {
        return Ok(None);
    }
    if !model_present {
        return Err(MODEL_MISSING.to_string());
    }
    let mut args: Vec<String> = Vec::new();
    args.push("-m".to_string());
    args.push(model.to_string());
    args.push("--host".to_string());
    args.push("127.0.0.1".to_string());
    args.push("--port".to_string());
    args.push(decimal_text(WHISPER_PORT as u64));
    args.push("-t".to_string());
    args.push("8".to_string());
    args.push("-bs".to_string());
    args.push("1".to_string());
    args.push("-bo".to_string());
    args.push("1".to_string());
    args.push("-l".to_string());
    args.push("ja".to_string());
    proof {
        assert(views(args@) =~= server_args(model@));
    }
    Ok(Some(args))
}

/// Where the server recognises recordings.
pub fn inference_url() -> (r: String)
    ensures
        r@ == "http://127.0.0.1:"@ + decimal(WHISPER_PORT as int) + "/inference"@,
{
    let mut r: String = "http://127.0.0.1:".to_string();
    r.append(decimal_text(WHISPER_PORT as u64).as_str());
    r.append("/inference");
    r
}

/// A form that is sent to the server: text fields, then the recording.
pub struct InferenceForm {
    /// Names and values of the text fields.
    pub fields: Vec<(String, String)>,
    /// The field of the recording, its file name and its media type.
    pub file_field: String,
    pub file_name: String,
    pub media_type: String,
    /// The recording.
    pub file: Vec<u8>,
}

/// What the text fields hold.
pub open spec fn field_views(fields: Seq<(String, String)>) -> Seq<(Seq<char>, Seq<char>)> {
    fields.map_values(|f: (String, String)| (f.0@, f.1@))
}

/// The form for a recording: Japanese, answered in plain text, with a prompt.
pub open spec fn is_form(r: InferenceForm, prompt: Seq<char>, recording: Seq<u8>) -> bool {
    &&& field_views(r.fields@) == seq![
        ("language"@, "ja"@),
        ("response_format"@, "text"@),
        ("prompt"@, prompt),
    ]
    &&& r.file_field@ == "file"@
    &&& r.file_name@ == "a.wav"@
    &&& r.media_type@ == "audio/wav"@
    &&& r.file@ == recording
}

/// Builds the form for a recording.
pub fn inference_form(prompt: &str, recording: Vec<u8>) -> (r: InferenceForm)
    ensures
        is_form(r, prompt@, recording@),
{
    let mut fields: Vec<(String, String)> = Vec::new();
    fields.push(("language".to_string(), "ja".to_string()));
    fields.push(("response_format".to_string(), "text".to_string()));
    fields.push(("prompt".to_string(), prompt.to_string()));
    proof {
        assert(field_views(fields@) =~= seq![
            ("language"@, "ja"@),
            ("response_format"@, "text"@),
            ("prompt"@, prompt@),
        ]);
    }
    InferenceForm {
        fields,
        file_field: "file".to_string(),
        file_name: "a.wav".to_string(),
        media_type: "audio/wav".to_string(),
        file: recording,
    }
}

/// What happened while the server recognises a recording.
pub enum ChunkEvent {
    /// The command was given.
    Begin,
    /// The server answered with a text, or could not be asked.
    Replied(Result<String, String>),
}

/// What to do next.
pub enum ChunkAction {
    /// Send this form to the server.
    Send(InferenceForm),
    /// Answer the command.
    Answer(Result<String, String>),
}

/// The action that follows an event.
pub open spec fn transcribes_chunk(
    licensed: bool,
    samples: Seq<i16>,
    prompt: Seq<char>,
    event: ChunkEvent,
    action: ChunkAction,
) -> bool {
    match event {
        ChunkEvent::Begin => if !licensed {
            action matches ChunkAction::Answer(Err(e)) && e@ == UNLICENSED@
        } else if hound_writes(samples) {
            action matches ChunkAction::Send(form) && is_form(
                form,
                prompt,
                wav_file(SAMPLE_RATE as int, samples),
            )
        } else {
            action matches ChunkAction::Answer(Err(_))
        },
        ChunkEvent::Replied(Ok(reply)) => {
            action matches ChunkAction::Answer(Ok(text)) && text@ == trimmed(reply@)
        },
        ChunkEvent::Replied(Err(e)) => action == ChunkAction::Answer(Err(e)),
    }
}

/// Has the server recognise a recording step by step. It is refused without a
/// license.
pub fn transcribe_chunk(
    licensed: &Licensed,
    samples: &Vec<i16>,
    prompt: &str,
    event: ChunkEvent,
) -> (r: ChunkAction)
    requires
        licensed.0 && event is Begin ==> fits_wav(samples@.len()),
    ensures
        transcribes_chunk(licensed.0, samples@, prompt@, event, r),
{
    match event {
        ChunkEvent::Begin => match require_license(licensed) {
            Ok(()) => match encode_wav(samples) {
                Ok(file) => ChunkAction::Send(inference_form(prompt, file)),
                Err(e) => ChunkAction::Answer(Err(e)),
            },
            Err(e) => ChunkAction::Answer(Err(e)),
        },
        ChunkEvent::Replied(Ok(reply)) => ChunkAction::Answer(Ok(clean_transcript(reply.as_str()))),
        ChunkEvent::Replied(Err(e)) => ChunkAction::Answer(Err(e)),
    }
}

/// `events` with the `actions` that follow them are one recognition by the
/// server.
pub open spec fn is_chunk_run(
    licensed: bool,
    samples: Seq<i16>,
    prompt: Seq<char>,
    events: Seq<ChunkEvent>,
    actions: Seq<ChunkAction>,
) -> bool {
    &&& events.len() > 0
    &&& actions.len() == events.len()
    &&& events[0] is Begin
    &&& forall|i: int|
        0 <= i < events.len() ==> transcribes_chunk(
            licensed,
            samples,
            prompt,
            #[trigger] events[i],
            actions[i],
        )
    &&& forall|i: int|
        0 < i < events.len() ==> actions[i - 1] is Send && (#[trigger] events[i]) is Replied
}

/// Without a license nothing is sent. A text is answered only after the
/// recording was sent, and is the server's reply without the white space around
/// it.
pub proof fn law_chunk_run(
    licensed: bool,
    samples: Seq<i16>,
    prompt: Seq<char>,
    events: Seq<ChunkEvent>,
    actions: Seq<ChunkAction>,
)
    requires
        is_chunk_run(licensed, samples, prompt, events, actions),
    ensures
        events.len() <= 2,
        !licensed ==> events.len() == 1 && actions[0] matches ChunkAction::Answer(Err(_)),
        actions.last() matches ChunkAction::Answer(Ok(text)) ==> {
            &&& licensed
            &&& events.len() == 2
            &&& actions[0] matches ChunkAction::Send(form) && is_form(
                form,
                prompt,
                wav_file(SAMPLE_RATE as int, samples),
            )
            &&& events[1] matches ChunkEvent::Replied(Ok(reply)) && text@ == trimmed(reply@)
        },
{
    assert(transcribes_chunk(licensed, samples, prompt, events[0], actions[0]));
    if events.len() > 1 {
        assert(events[1] is Replied);
        assert(transcribes_chunk(licensed, samples, prompt, events[1], actions[1]));
    }
    if events.len() > 2 {
        assert(events[2] is Replied);
    }
}

/// A text is answered without the white space around it, and otherwise as it
/// is.
pub proof fn law_clean_transcript(
    front: Seq<char>,
    middle: Seq<char>,
    back: Seq<char>,
    text: &str,
    r: String,
)
    requires
        forall|i: int| 0 <= i < front.len() ==> is_white_space(#[trigger] front[i]),
        forall|i: int| 0 <= i < back.len() ==> is_white_space(#[trigger] back[i]),
        middle.len() > 0 ==> !is_white_space(middle[0]) && !is_white_space(middle.last()),
        text@ == front + middle + back,
        call_ensures(clean_transcript, (text,), r),
    ensures
        r@ == middle,
{
    crate::text::law_trimmed_between(front, middle, back);
}

/// The text of an output is what it decodes to, without the white space around
/// it: valid UTF-8 decodes to the characters that it encodes, and anything else
/// to what `String::from_utf8_lossy` makes of it.
pub proof fn law_transcript(
    front: Seq<char>,
    middle: Seq<char>,
    back: Seq<char>,
    output: Vec<u8>,
    r: String,
)
    requires
        forall|i: int| 0 <= i < front.len() ==> is_white_space(#[trigger] front[i]),
        forall|i: int| 0 <= i < back.len() ==> is_white_space(#[trigger] back[i]),
        middle.len() > 0 ==> !is_white_space(middle[0]) && !is_white_space(middle.last()),
        call_ensures(transcript, (&output,), r),
    ensures
        lossy_utf8(output@) == front + middle + back ==> r@ == middle,
        vstd::utf8::valid_utf8(output@) && vstd::utf8::decode_utf8(output@) == front + middle + back
            ==> r@ == middle,
{
    crate::text::law_trimmed_between(front, middle, back);
}

/// The program is run on the recording with the model, in Japanese, with the
/// prompt, printing only the text and no time stamps, in four threads.
pub proof fn law_transcribe_args(model: &str, recording: &str, prompt: &str, r: Vec<String>)
    requires
        call_ensures(transcribe_args, (model, recording, prompt), r),
    ensures
        r@.len() == 12,
        r@[0]@ == "-m"@ && r@[1]@ == model@,
        r@[2]@ == "-f"@ && r@[3]@ == recording@,
        r@[4]@ == "-l"@ && r@[5]@ == "ja"@,
        r@[6]@ == "--prompt"@ && r@[7]@ == prompt@,
        r@[8]@ == "-np"@ && r@[9]@ == "-nt"@,
        r@[10]@ == "-t"@ && r@[11]@ == "4"@,
{
    assert(views(r@).len() == 12);
    assert(forall|i: int| 0 <= i < 12 ==> r@[i]@ == #[trigger] views(r@)[i]);
}

/// A recognition begins in one of three ways: without a license it is refused,
/// next without the model, and otherwise the recording is saved as the file
/// that [`encode_wav`] makes of it, or what keeps it from being made is answered.
pub proof fn law_transcribe_begins(
    licensed: Licensed,
    job: TranscribeJob,
    model_present: bool,
    encoded: Result<Vec<u8>, String>,
    r: TranscribeAction,
)
    requires
        call_ensures(transcribe, (&licensed, &job, TranscribeEvent::Begin { model_present }), r),
        call_ensures(encode_wav, (&job.samples,), encoded),
    ensures
        !licensed.0 ==> (r matches TranscribeAction::Answer(Err(e)) && e@
            == "ライセンスが有効ではありません"@),
        licensed.0 && !model_present ==> (r matches TranscribeAction::Answer(Err(e)) && e@
            == "model_missing"@),
        licensed.0 && model_present ==> match encoded {
            Ok(made) => r matches TranscribeAction::Save(file) && file@ == made@,
            Err(_) => r matches TranscribeAction::Answer(Err(_)),
        },
{
}

/// A recording that was saved is always handed to the program, with the job's
/// model, place and prompt.
pub proof fn law_transcribe_runs(
    licensed: Licensed,
    job: TranscribeJob,
    model: &str,
    recording: &str,
    prompt: &str,
    args: Vec<String>,
    r: TranscribeAction,
)
    requires
        call_ensures(transcribe, (&licensed, &job, TranscribeEvent::Saved(Ok(()))), r),
        model@ == job.model@,
        recording@ == job.recording@,
        prompt@ == job.prompt@,
        call_ensures(transcribe_args, (model, recording, prompt), args),
    ensures
        r matches TranscribeAction::Run(run) && views(run@) == views(args@),
{
}

/// An output of the program is always answered with its text, whatever the
/// license, the job and the output are.
pub proof fn law_output_is_answered(
    front: Seq<char>,
    middle: Seq<char>,
    back: Seq<char>,
    licensed: Licensed,
    job: TranscribeJob,
    output: Vec<u8>,
    r: TranscribeAction,
)
    requires
        forall|i: int| 0 <= i < front.len() ==> is_white_space(#[trigger] front[i]),
        forall|i: int| 0 <= i < back.len() ==> is_white_space(#[trigger] back[i]),
        middle.len() > 0 ==> !is_white_space(middle[0]) && !is_white_space(middle.last()),
        lossy_utf8(output@) == front + middle + back || (vstd::utf8::valid_utf8(output@)
            && vstd::utf8::decode_utf8(output@) == front + middle + back),
        call_ensures(transcribe, (&licensed, &job, TranscribeEvent::Finished(Ok(output))), r),
    ensures
        r matches TranscribeAction::Answer(Ok(text)) && text@ == middle,
{
    crate::text::law_trimmed_between(front, middle, back);
}

/// A recording that could not be saved and a program that could not be run are
/// answered with what went wrong.
pub proof fn law_transcribe_failures(
    licensed: Licensed,
    job: TranscribeJob,
    e: String,
    saved: TranscribeAction,
    finished: TranscribeAction,
)
    requires
        call_ensures(transcribe, (&licensed, &job, TranscribeEvent::Saved(Err(e))), saved),
        call_ensures(transcribe, (&licensed, &job, TranscribeEvent::Finished(Err(e))), finished),
    ensures
        saved == TranscribeAction::Answer(Err(e)),
        finished == TranscribeAction::Answer(Err(e)),
{
}

/// How a whole recognition ends is decided by what happened last: an output is
/// answered with its text, what failed is answered with why, and while nothing
/// has failed the recognition goes on. No text is lost on the way.
pub proof fn law_transcribe_outcome(
    licensed: bool,
    job: TranscribeJob,
    events: Seq<TranscribeEvent>,
    actions: Seq<TranscribeAction>,
)
    requires
        is_transcribe_run(licensed, job, events, actions),
    ensures
        events.last() matches TranscribeEvent::Finished(Ok(output)) ==> actions.last() matches
            TranscribeAction::Answer(Ok(text)) && text@ == trimmed(lossy_utf8(output@)) && (
        vstd::utf8::valid_utf8(output@) ==> text@ == trimmed(vstd::utf8::decode_utf8(output@))),
        (actions.last() matches TranscribeAction::Answer(Ok(_))) <==> (events.last() matches
            TranscribeEvent::Finished(Ok(_))),
        actions.last() is Run <==> (events.last() matches TranscribeEvent::Saved(Ok(_))),
        events.last() matches TranscribeEvent::Saved(Err(e)) ==> actions.last()
            == TranscribeAction::Answer(Err(e)),
        events.last() matches TranscribeEvent::Finished(Err(e)) ==> actions.last()
            == TranscribeAction::Answer(Err(e)),
        licensed && events[0] == (TranscribeEvent::Begin { model_present: true }) && hound_writes(
            job.samples@,
        ) ==> actions[0] is Save,
{
    law_transcribe_run(licensed, job, events, actions);
    assert(transcribes(licensed, job, events[0], actions[0]));
    let n = events.len() - 1;
    assert(transcribes(licensed, job, events[n], actions[n]));
}

/// What is decided at each point is what a call decides.
pub proof fn law_transcribe_transcribes(
    licensed: Licensed,
    job: TranscribeJob,
    event: TranscribeEvent,
    r: TranscribeAction,
)
    requires
        call_ensures(transcribe, (&licensed, &job, event), r),
    ensures
        transcribes(licensed.0, job, event, r),
{
}

proof fn lemma_whisper_port()
    ensures
        decimal(8765) == "8765"@,
{
    reveal_with_fuel(decimal, 5);
    reveal_strlit("8765");
    assert(decimal(8765) =~= seq!['8', '7', '6', '5']);
    assert("8765"@ =~= seq!['8', '7', '6', '5']);
}

/// A server is started exactly if none runs and the model is there. It is given
/// the model, listens on this machine's port 8765 alone, and recognises
/// Japanese, in eight threads with one beam and one candidate.
pub proof fn law_start_whisper<C>(
    slot: ServerSlot<C>,
    model_present: bool,
    model: &str,
    r: Result<Option<Vec<String>>, String>,
)
    requires
        call_ensures(start_whisper::<C>, (&slot, model_present, model), r),
    ensures
        slot.child is Some <==> r == Ok::<Option<Vec<String>>, String>(None),
        slot.child is None && !model_present <==> r is Err,
        r matches Err(e) ==> e@ == "model_missing"@,
        r matches Ok(Some(args)) ==> {
            &&& args@.len() == 14
            &&& args@[0]@ == "-m"@ && args@[1]@ == model@
            &&& args@[2]@ == "--host"@ && args@[3]@ == "127.0.0.1"@
            &&& args@[4]@ == "--port"@ && args@[5]@ == "8765"@
            &&& args@[6]@ == "-t"@ && args@[7]@ == "8"@
            &&& args@[8]@ == "-bs"@ && args@[9]@ == "1"@
            &&& args@[10]@ == "-bo"@ && args@[11]@ == "1"@
            &&& args@[12]@ == "-l"@ && args@[13]@ == "ja"@
        },
{
    lemma_whisper_port();
    if let Ok(Some(args)) = r {
        assert(views(args@).len() == 14);
        assert(forall|i: int| 0 <= i < 14 ==> args@[i]@ == #[trigger] views(args@)[i]);
    }
}

/// Recordings are sent to the port that the server listens on.
pub proof fn law_inference_url(r: String)
    requires
        call_ensures(inference_url, (), r),
    ensures
        r@ == "http://127.0.0.1:"@ + "8765"@ + "/inference"@,
{
    lemma_whisper_port();
}

/// A process that was put into a slot is the one that comes out of it, once.
pub proof fn law_slot_gives_back_its_process<C>(
    slot: &mut ServerSlot<C>,
    child: C,
    kept: &mut ServerSlot<C>,
    out: Option<C>,
    emptied: ServerSlot<C>,
    running: bool,
    fresh: ServerSlot<C>,
)
    requires
        call_ensures(ServerSlot::<C>::started, (slot, child), ()),
        *old(kept) == *final(slot),
        call_ensures(ServerSlot::<C>::stop, (kept,), out),
        *final(kept) == emptied,
        call_ensures(ServerSlot::<C>::is_running, (&emptied,), running),
        call_ensures(ServerSlot::<C>::new, (), fresh),
    ensures
        out == Some(child),
        !running,
        emptied.child is None,
        fresh.child is None,
{
}

/// Stopping hands out whatever runs, and then nothing runs.
pub proof fn law_stop<C>(slot: &mut ServerSlot<C>, before: bool, out: Option<C>, after: bool)
    requires
        call_ensures(ServerSlot::<C>::is_running, (&*old(slot),), before),
        call_ensures(ServerSlot::<C>::stop, (slot,), out),
        call_ensures(ServerSlot::<C>::is_running, (&*final(slot),), after),
    ensures
        before <==> out is Some,
        out == old(slot).child,
        !after,
{
}

/// The values of the fields of that name, in order.
pub open spec fn values_of(fields: Seq<(String, String)>, name: Seq<char>) -> Seq<Seq<char>>
    decreases fields.len(),
{
    if fields.len() == 0 {
        Seq::empty()
    } else {
        let before = values_of(fields.drop_last(), name);
        if fields.last().0@ == name {
            before.push(fields.last().1@)
        } else {
            before
        }
    }
}

proof fn lemma_form_fields(fields: Seq<(String, String)>, prompt: Seq<char>, name: Seq<char>)
    requires
        field_views(fields) == seq![
            ("language"@, "ja"@),
            ("response_format"@, "text"@),
            ("prompt"@, prompt),
        ],
    ensures
        name == "language"@ ==> values_of(fields, name) == seq!["ja"@],
        name == "response_format"@ ==> values_of(fields, name) == seq!["text"@],
        name == "prompt"@ ==> values_of(fields, name) == seq![prompt],
        name != "language"@ && name != "response_format"@ && name != "prompt"@ ==> values_of(
            fields,
            name,
        ).len() == 0,
{
    reveal_strlit("language");
    reveal_strlit("response_format");
    reveal_strlit("prompt");
    assert("language"@.len() == 8 && "response_format"@.len() == 15 && "prompt"@.len() == 6);
    let views = field_views(fields);
    let told = seq![("language"@, "ja"@), ("response_format"@, "text"@), ("prompt"@, prompt)];
    assert(told.len() == 3);
    assert(views.len() == fields.len());
    assert(views[0] == (fields[0].0@, fields[0].1@) && views[0] == told[0]);
    assert(views[1] == (fields[1].0@, fields[1].1@) && views[1] == told[1]);
    assert(views[2] == (fields[2].0@, fields[2].1@) && views[2] == told[2]);
    let two = fields.drop_last();
    let one = two.drop_last();
    let none = one.drop_last();
    assert(none.len() == 0);
    assert(values_of(none, name) =~= Seq::empty());
    assert(one.last() == fields[0] && two.last() == fields[1] && fields.last() == fields[2]);
    let w0 = values_of(one, name);
    let w1 = values_of(two, name);
    assert(w0 == if fields[0].0@ == name {
        Seq::<Seq<char>>::empty().push(fields[0].1@)
    } else {
        Seq::<Seq<char>>::empty()
    });
    assert(w1 == if fields[1].0@ == name {
        w0.push(fields[1].1@)
    } else {
        w0
    });
    assert(values_of(fields, name) == if fields[2].0@ == name {
        w1.push(fields[2].1@)
    } else {
        w1
    });
    if name == "language"@ {
        assert(values_of(fields, name) =~= seq!["ja"@]);
    }
    if name == "response_format"@ {
        assert(values_of(fields, name) =~= seq!["text"@]);
    }
    if name == "prompt"@ {
        assert(values_of(fields, name) =~= seq![prompt]);
    }
}

/// A form asks, whatever the prompt and the recording are, for Japanese once,
/// for a plain text once, gives the prompt once, and gives no other field; and
/// it carries the recording.
pub proof fn law_form_fields(prompt: &str, recording: Vec<u8>, r: InferenceForm, other: Seq<char>)
    requires
        call_ensures(inference_form, (prompt, recording), r),
    ensures
        values_of(r.fields@, "language"@) == seq!["ja"@],
        values_of(r.fields@, "response_format"@) == seq!["text"@],
        values_of(r.fields@, "prompt"@) == seq![prompt@],
        other != "language"@ && other != "response_format"@ && other != "prompt"@ ==> values_of(
            r.fields@,
            other,
        ).len() == 0,
        r.file_field@ == "file"@,
        r.file_name@ == "a.wav"@,
        r.media_type@ == "audio/wav"@,
        r.file@ == recording@,
{
    lemma_form_fields(r.fields@, prompt@, "language"@);
    lemma_form_fields(r.fields@, prompt@, "response_format"@);
    lemma_form_fields(r.fields@, prompt@, "prompt"@);
    lemma_form_fields(r.fields@, prompt@, other);
}

/// What is sent to the server for a recording: without a license nothing, and
/// with one a form with the file that [`encode_wav`] makes of it, which asks
/// for Japanese in plain text and gives the prompt.
pub proof fn law_chunk_begins(
    licensed: Licensed,
    samples: Vec<i16>,
    prompt: &str,
    encoded: Result<Vec<u8>, String>,
    r: ChunkAction,
    other: Seq<char>,
)
    requires
        call_ensures(transcribe_chunk, (&licensed, &samples, prompt, ChunkEvent::Begin), r),
        call_ensures(encode_wav, (&samples,), encoded),
    ensures
        !licensed.0 ==> (r matches ChunkAction::Answer(Err(e)) && e@
            == "ライセンスが有効ではありません"@),
        licensed.0 ==> match encoded {
            Ok(made) => r matches ChunkAction::Send(form) && {
                &&& form.file@ == made@
                &&& values_of(form.fields@, "language"@) == seq!["ja"@]
                &&& values_of(form.fields@, "response_format"@) == seq!["text"@]
                &&& values_of(form.fields@, "prompt"@) == seq![prompt@]
                &&& other != "language"@ && other != "response_format"@ && other != "prompt"@
                    ==> values_of(form.fields@, other).len() == 0
                &&& form.file_field@ == "file"@
                &&& form.file_name@ == "a.wav"@
                &&& form.media_type@ == "audio/wav"@
            },
            Err(_) => r matches ChunkAction::Answer(Err(_)),
        },
{
    if let ChunkAction::Send(form) = r {
        if licensed.0 && encoded is Ok {
            lemma_form_fields(form.fields@, prompt@, "language"@);
            lemma_form_fields(form.fields@, prompt@, "response_format"@);
            lemma_form_fields(form.fields@, prompt@, "prompt"@);
            lemma_form_fields(form.fields@, prompt@, other);
        }
    }
}

/// A reply of the server is always answered without the white space around it,
/// and a failure with what went wrong.
pub proof fn law_reply_is_answered(
    front: Seq<char>,
    middle: Seq<char>,
    back: Seq<char>,
    licensed: Licensed,
    samples: Vec<i16>,
    prompt: &str,
    reply: Result<String, String>,
    r: ChunkAction,
)
    requires
        forall|i: int| 0 <= i < front.len() ==> is_white_space(#[trigger] front[i]),
        forall|i: int| 0 <= i < back.len() ==> is_white_space(#[trigger] back[i]),
        middle.len() > 0 ==> !is_white_space(middle[0]) && !is_white_space(middle.last()),
        call_ensures(
            transcribe_chunk,
            (&licensed, &samples, prompt, ChunkEvent::Replied(reply)),
            r,
        ),
    ensures
        reply matches Ok(told) ==> told@ == front + middle + back ==> (r matches ChunkAction::Answer(
            Ok(text),
        ) && text@ == middle),
        reply matches Err(e) ==> r == ChunkAction::Answer(Err(e)),
{
    crate::text::law_trimmed_between(front, middle, back);
}

/// How a whole recognition by the server ends is decided by what happened last:
/// a reply is answered with its text, and a failure with why.
pub proof fn law_chunk_outcome(
    licensed: bool,
    samples: Seq<i16>,
    prompt: Seq<char>,
    events: Seq<ChunkEvent>,
    actions: Seq<ChunkAction>,
)
    requires
        is_chunk_run(licensed, samples, prompt, events, actions),
    ensures
        events.last() matches ChunkEvent::Replied(Ok(reply)) ==> actions.last() matches
            ChunkAction::Answer(Ok(text)) && text@ == trimmed(reply@),
        events.last() matches ChunkEvent::Replied(Err(e)) ==> actions.last() == ChunkAction::Answer(
            Err(e),
        ),
        licensed && hound_writes(samples) ==> (actions[0] matches ChunkAction::Send(form)
            && values_of(form.fields@, "language"@) == seq!["ja"@] && values_of(
            form.fields@,
            "prompt"@,
        ) == seq![prompt]),
{
    assert(transcribes_chunk(licensed, samples, prompt, events[0], actions[0]));
    let n = events.len() - 1;
    assert(transcribes_chunk(licensed, samples, prompt, events[n], actions[n]));
    if let ChunkAction::Send(form) = actions[0] {
        if licensed && hound_writes(samples) {
            lemma_form_fields(form.fields@, prompt, "language"@);
            lemma_form_fields(form.fields@, prompt, "prompt"@);
        }
    }
}

/// What is decided at each point is what a call decides.
pub proof fn law_transcribe_chunk_transcribes(
    licensed: Licensed,
    samples: Vec<i16>,
    prompt: &str,
    event: ChunkEvent,
    r: ChunkAction,
)
    requires
        call_ensures(transcribe_chunk, (&licensed, &samples, prompt, event), r),
    ensures
        transcribes_chunk(licensed.0, samples@, prompt@, event, r),
{
}

/// Every recording whose file fits can be recognised, at every point.
pub proof fn law_every_recording_that_fits_is_recognised(
    licensed: Licensed,
    job: TranscribeJob,
    event: TranscribeEvent,
    samples: Vec<i16>,
    prompt: &str,
    chunk: ChunkEvent,
)
    ensures
        36 + 2 * job.samples@.len() <= u32::MAX && 44 + 2 * job.samples@.len() <= isize::MAX
            ==> call_requires(transcribe, (&licensed, &job, event)),
        36 + 2 * samples@.len() <= u32::MAX && 44 + 2 * samples@.len() <= isize::MAX
            ==> call_requires(transcribe_chunk, (&licensed, &samples, prompt, chunk)),
{
}

}
