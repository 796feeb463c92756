use kaikei_voice::license::Licensed;
use kaikei_voice::wav::encode_wav;
use kaikei_voice::whisper::{
    inference_url, start_whisper, transcribe, transcribe_args, transcribe_chunk, ChunkAction,
    ChunkEvent, ServerSlot, TranscribeAction, TranscribeEvent, TranscribeJob,
};

const REFUSED: &str = "ライセンスが有効ではありません";

fn job() -> TranscribeJob {
    TranscribeJob {
        model: "/m.bin".to_string(),
        recording: "/rec.wav".to_string(),
        prompt: "仕訳".to_string(),
        samples: vec![1, 2],
    }
}

fn begin(model_present: bool) -> TranscribeEvent {
    TranscribeEvent::Begin { model_present }
}

fn answer(action: TranscribeAction) -> Result<String, String> {
    match action {
        TranscribeAction::Answer(r) => r,
        _ => panic!("no answer"),
    }
}

fn chunk_answer(action: ChunkAction) -> Result<String, String> {
    match action {
        ChunkAction::Answer(r) => r,
        _ => panic!("no answer"),
    }
}

#[test]
fn one_recording_has_arguments() {
    assert_eq!(
        transcribe_args("/m.bin", "/rec.wav", "仕訳"),
        vec![
            "-m", "/m.bin", "-f", "/rec.wav", "-l", "ja", "--prompt", "仕訳", "-np", "-nt", "-t",
            "4",
        ]
    );
}

#[test]
fn server_is_started_once() {
    let mut slot: ServerSlot<u32> = ServerSlot::new();
    let args = start_whisper(&slot, true, "/m.bin").unwrap().unwrap();
    assert_eq!(
        args,
        vec![
            "-m", "/m.bin", "--host", "127.0.0.1", "--port", "8765", "-t", "8", "-bs", "1", "-bo",
            "1", "-l", "ja",
        ]
    );
    assert!(!slot.is_running());
    slot.started(17);
    assert!(slot.is_running());
    assert_eq!(start_whisper(&slot, true, "/m.bin"), Ok(None));
    assert_eq!(start_whisper(&slot, false, "/m.bin"), Ok(None));
    assert_eq!(slot.stop(), Some(17));
    assert_eq!(slot.stop(), None);
    assert!(start_whisper(&slot, true, "/m.bin").unwrap().is_some());
}

#[test]
fn server_needs_its_model() {
    let slot: ServerSlot<u32> = ServerSlot::new();
    assert_eq!(start_whisper(&slot, false, "/m.bin"), Err("model_missing".to_string()));
}

#[test]
fn server_has_an_address() {
    assert_eq!(inference_url(), "http://127.0.0.1:8765/inference");
}

#[test]
fn transcription_needs_license_then_model() {
    let (off, on) = (Licensed(false), Licensed(true));
    assert_eq!(answer(transcribe(&off, &job(), begin(false))).unwrap_err(), REFUSED);
    assert_eq!(answer(transcribe(&off, &job(), begin(true))).unwrap_err(), REFUSED);
    assert_eq!(answer(transcribe(&on, &job(), begin(false))).unwrap_err(), "model_missing");
}

#[test]
fn transcription_saves_runs_and_answers() {
    let on = Licensed(true);
    match transcribe(&on, &job(), begin(true)) {
        TranscribeAction::Save(file) => assert_eq!(file, encode_wav(&vec![1, 2]).unwrap()),
        _ => panic!("not saved"),
    }
    match transcribe(&on, &job(), TranscribeEvent::Saved(Ok(()))) {
        TranscribeAction::Run(args) => {
            assert_eq!(args, transcribe_args("/m.bin", "/rec.wav", "仕訳"));
        }
        _ => panic!("not run"),
    }
    let output = "\n 現金 \n".as_bytes().to_vec();
    let action = transcribe(&on, &job(), TranscribeEvent::Finished(Ok(output)));
    assert_eq!(answer(action), Ok("現金".to_string()));
    let action = transcribe(&on, &job(), TranscribeEvent::Finished(Ok(b" \xff\n".to_vec())));
    assert_eq!(answer(action), Ok("\u{fffd}".to_string()));
}

#[test]
fn transcription_tells_failures() {
    let on = Licensed(true);
    let action = transcribe(&on, &job(), TranscribeEvent::Saved(Err("disk full".to_string())));
    assert_eq!(answer(action), Err("disk full".to_string()));
    let action = transcribe(&on, &job(), TranscribeEvent::Finished(Err("no program".to_string())));
    assert_eq!(answer(action), Err("no program".to_string()));
}

#[test]
fn chunk_becomes_a_form() {
    let samples = vec![3, -3];
    let refused = transcribe_chunk(&Licensed(false), &samples, "p", ChunkEvent::Begin);
    assert_eq!(chunk_answer(refused).unwrap_err(), REFUSED);
    let form = match transcribe_chunk(&Licensed(true), &samples, "会計用語", ChunkEvent::Begin) {
        ChunkAction::Send(form) => form,
        _ => panic!("not sent"),
    };
    let fields: Vec<(&str, &str)> =
        form.fields.iter().map(|(n, v)| (n.as_str(), v.as_str())).collect();
    assert_eq!(
        fields,
        vec![("language", "ja"), ("response_format", "text"), ("prompt", "会計用語")]
    );
    assert_eq!(form.file_field, "file");
    assert_eq!(form.file_name, "a.wav");
    assert_eq!(form.media_type, "audio/wav");
    assert_eq!(form.file, encode_wav(&samples).unwrap());
}

#[test]
fn chunk_reply_is_answered() {
    let (on, none) = (Licensed(true), Vec::new());
    let event = ChunkEvent::Replied(Ok(" 売掛金\n".to_string()));
    let action = transcribe_chunk(&on, &none, "p", event);
    assert_eq!(chunk_answer(action), Ok("売掛金".to_string()));
    let event = ChunkEvent::Replied(Err("refused".to_string()));
    let action = transcribe_chunk(&on, &none, "p", event);
    assert_eq!(chunk_answer(action), Err("refused".to_string()));
}
