use kaikei_voice::export::{save_file, SaveAction, SaveEvent};
use kaikei_voice::license::{
    activate_license_at, check_license_from, CheckEvent, LicenseState, Licensed,
};
use kaikei_voice::reazon::{CallAction, CallEvent, ReazonCall};
use kaikei_voice::whisper::{
    transcribe, transcribe_chunk, ChunkAction, ChunkEvent, TranscribeAction, TranscribeEvent,
    TranscribeJob,
};

const REFUSED: &str = "ライセンスが有効ではありません";

fn refusals(licensed: &Licensed) -> [bool; 4] {
    let job = TranscribeJob {
        model: "/m.bin".to_string(),
        recording: "/rec.wav".to_string(),
        prompt: String::new(),
        samples: vec![5],
    };
    let begin = TranscribeEvent::Begin { model_present: true };
    [
        matches!(
            save_file(licensed, SaveEvent::Begin),
            SaveAction::Answer(Err(e)) if e == REFUSED
        ),
        matches!(
            transcribe(licensed, &job, begin),
            TranscribeAction::Answer(Err(e)) if e == REFUSED
        ),
        matches!(
            transcribe_chunk(licensed, &job.samples, "", ChunkEvent::Begin),
            ChunkAction::Answer(Err(e)) if e == REFUSED
        ),
        matches!(
            ReazonCall::new().step(licensed, &vec![1], CallEvent::Begin),
            CallAction::Answer(Err(e)) if e == REFUSED
        ),
    ]
}

#[test]
fn commands_wait_for_a_license() {
    let mut licensed = Licensed::new();
    assert_eq!(refusals(&licensed), [true; 4]);

    let st = LicenseState { key: "K".to_string(), last_ok_at: None };
    check_license_from(&mut licensed, &st, CheckEvent::Begin, 7);
    assert_eq!(refusals(&licensed), [true; 4]);
    let down = CheckEvent::Replied(Err("down".to_string()));
    check_license_from(&mut licensed, &st, down, 7);
    assert_eq!(refusals(&licensed), [true; 4]);
    let unknown = Ok((false, Some("unknown".to_string())));
    activate_license_at(&mut licensed, "X".to_string(), unknown, 8);
    assert_eq!(refusals(&licensed), [true; 4]);

    activate_license_at(&mut licensed, "K".to_string(), Ok((true, None)), 9);
    assert_eq!(refusals(&licensed), [false; 4]);
}

#[test]
fn passed_check_lifts_the_refusal() {
    let mut licensed = Licensed::new();
    let st = LicenseState { key: "K".to_string(), last_ok_at: None };
    let yes = CheckEvent::Replied(Ok((true, None)));
    check_license_from(&mut licensed, &st, yes, 7);
    assert_eq!(refusals(&licensed), [false; 4]);
}
