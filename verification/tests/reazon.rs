use kaikei_voice::license::Licensed;
use kaikei_voice::reazon::{
    answer_text, event_line, log_event, reazon_extract_text, reazon_give_up, reazon_log,
    reazon_payload, reazon_push_log, reazon_start_inner, reazon_url, unreachable_error, CallAction,
    CallEvent, Incoming, ReazonCall, ReazonPaths, ServerEvent, PAUSE_MILLIS,
};
use kaikei_voice::whisper::ServerSlot;

fn paths() -> ReazonPaths {
    ReazonPaths {
        encoder: "/d/encoder.onnx".to_string(),
        decoder: "/d/decoder.onnx".to_string(),
        joiner: "/d/joiner.onnx".to_string(),
        tokens: "/d/tokens.txt".to_string(),
    }
}

fn answer(action: CallAction) -> Result<String, String> {
    match action {
        CallAction::Answer(r) => r,
        _ => panic!("no answer"),
    }
}

fn closed_with(action: CallAction) -> String {
    match action {
        CallAction::Close(text) => text,
        _ => panic!("not closed"),
    }
}

#[test]
fn log_passes_over_empty_lines() {
    let mut log = Vec::new();
    reazon_push_log(&mut log, "".to_string());
    reazon_push_log(&mut log, "a".to_string());
    reazon_push_log(&mut log, "".to_string());
    reazon_push_log(&mut log, " ".to_string());
    assert_eq!(log, vec!["a", " "]);
}

#[test]
fn log_keeps_the_latest_lines() {
    let mut log = Vec::new();
    for i in 0..119 {
        reazon_push_log(&mut log, i.to_string());
    }
    assert_eq!(log.len(), 119);
    reazon_push_log(&mut log, "119".to_string());
    assert_eq!(log.len(), 120);
    assert_eq!(log[0], "0");
    for i in 120..300 {
        reazon_push_log(&mut log, i.to_string());
        assert_eq!(log.len(), 120);
    }
    let expected: Vec<String> = (180..300).map(|i| i.to_string()).collect();
    assert_eq!(log, expected);
}

#[test]
fn overlong_log_is_cut_to_the_latest_lines() {
    let mut log: Vec<String> = (0..200).map(|i| i.to_string()).collect();
    reazon_push_log(&mut log, "last".to_string());
    assert_eq!(log.len(), 120);
    assert_eq!(log[0], "81");
    assert_eq!(log[119], "last");
}

#[test]
fn events_become_lines() {
    let line = |e: ServerEvent| event_line(&e);
    assert_eq!(line(ServerEvent::Stdout(b" ready \r\n".to_vec())).unwrap(), " ready");
    assert_eq!(line(ServerEvent::Stderr(b"bad \xff\n".to_vec())).unwrap(), "bad \u{fffd}");
    assert_eq!(line(ServerEvent::Error("pipe".to_string())).unwrap(), "[error] pipe");
    assert_eq!(
        line(ServerEvent::Terminated { code: Some(-1), signal: None }).unwrap(),
        "[terminated] code=Some(-1) signal=None"
    );
    assert_eq!(
        line(ServerEvent::Terminated { code: None, signal: Some(9) }).unwrap(),
        "[terminated] code=None signal=Some(9)"
    );
    assert_eq!(line(ServerEvent::Other), None);
}

#[test]
fn events_are_logged() {
    let mut log = Vec::new();
    log_event(&mut log, &ServerEvent::Stdout(b"one\n".to_vec()));
    log_event(&mut log, &ServerEvent::Stdout(b"\n".to_vec()));
    log_event(&mut log, &ServerEvent::Other);
    log_event(&mut log, &ServerEvent::Error("two".to_string()));
    assert_eq!(reazon_log(&log), "one\n[error] two");
    assert_eq!(reazon_log(&Vec::new()), "");
}

#[test]
fn reazon_server_is_started_once() {
    let mut slot: ServerSlot<u8> = ServerSlot::new();
    let mut log = vec!["old".to_string()];
    let args = reazon_start_inner(&slot, &mut log, true, true, &paths()).unwrap().unwrap();
    assert_eq!(
        args,
        vec![
            "--port=8766",
            "--encoder=/d/encoder.onnx",
            "--decoder=/d/decoder.onnx",
            "--joiner=/d/joiner.onnx",
            "--tokens=/d/tokens.txt",
            "--num-threads=2",
        ]
    );
    assert!(log.is_empty());
    slot.started(1);
    log.push("new".to_string());
    assert_eq!(reazon_start_inner(&slot, &mut log, false, false, &paths()), Ok(None));
    assert_eq!(log, vec!["new"]);
}

#[test]
fn reazon_server_needs_its_model() {
    let slot: ServerSlot<u8> = ServerSlot::new();
    for (tokens, encoder) in [(false, true), (true, false), (false, false)] {
        let mut log = vec!["old".to_string()];
        assert_eq!(
            reazon_start_inner(&slot, &mut log, tokens, encoder, &paths()),
            Err("reazon_model_missing".to_string())
        );
        assert_eq!(log, vec!["old"]);
    }
}

#[test]
fn text_is_extracted() {
    assert_eq!(reazon_extract_text(" {\"text\": \"売 上 千円\"}\n"), "売上千円");
    assert_eq!(reazon_extract_text("\u{3000}{\"text\":\"\\u58f2 x\"}"), "売x");
    let v: serde_json::Value = serde_json::from_str("{\"text\":\" a b \"}").unwrap();
    assert_eq!(answer_text(&v), "ab");
}

#[test]
fn answer_without_text_is_empty() {
    for s in ["", "not json", "{}", "{\"text\":5}", "{\"text\":null}", "[\"text\"]", "\"text\"", "{\"text\":\"a\"} x"] {
        assert_eq!(reazon_extract_text(s), "", "{}", s);
    }
}

#[test]
fn payload_is_framed() {
    let samples = [0.0_f32, 1.0, -0.5];
    let bits: Vec<u32> = samples.iter().map(|s| s.to_bits()).collect();
    let mut expected = Vec::new();
    expected.extend_from_slice(&16000_i32.to_le_bytes());
    expected.extend_from_slice(&12_i32.to_le_bytes());
    for s in samples {
        expected.extend_from_slice(&s.to_le_bytes());
    }
    assert_eq!(reazon_payload(&bits), expected);
    assert_eq!(reazon_payload(&Vec::new()), vec![0x80, 0x3e, 0, 0, 0, 0, 0, 0]);
}

#[test]
fn payload_length_uses_all_bytes() {
    let p = reazon_payload(&vec![0x0403_0201; 70_000]);
    assert_eq!(p.len(), 280_008);
    assert_eq!(p[4..8], 280_000_i32.to_le_bytes());
    assert_eq!(p[8..12], [1, 2, 3, 4]);
}

#[test]
fn unreachable_server_is_explained() {
    assert_eq!(
        unreachable_error("refused", &vec!["a".to_string(), "b".to_string()]),
        "音声サーバーに接続できません: refused ｜ a / b"
    );
    assert_eq!(
        unreachable_error("refused", &Vec::new()),
        "音声サーバーに接続できません: refused ｜ (サイドカー出力なし＝起動に失敗の可能性)"
    );
}

#[test]
fn server_that_is_given_up_leaves_its_slot() {
    let mut slot: ServerSlot<u32> = ServerSlot::new();
    slot.started(17);
    let log = vec!["a".to_string(), "b".to_string()];
    let given_up = reazon_give_up(&mut slot, "refused", &log);
    assert_eq!(given_up.error, "音声サーバーに接続できません: refused ｜ a / b");
    assert_eq!(given_up.child, Some(17));
    assert!(!slot.is_running());
    assert_eq!(log, vec!["a", "b"]);
    let given_up = reazon_give_up(&mut slot, "refused", &log);
    assert_eq!(given_up.error, unreachable_error("refused", &log));
    assert_eq!(given_up.child, None);
}

#[test]
fn reazon_server_has_an_address() {
    assert_eq!(reazon_url(), "ws://127.0.0.1:8766");
}

#[test]
fn unlicensed_call_is_refused() {
    let mut call = ReazonCall::new();
    assert_eq!(
        answer(call.step(&Licensed(false), &vec![1], CallEvent::Begin)),
        Err("ライセンスが有効ではありません".to_string())
    );
}

#[test]
fn empty_recording_is_an_empty_text() {
    let on = Licensed(true);
    let none = Vec::new();
    let mut call = ReazonCall::new();
    assert!(matches!(call.step(&on, &none, CallEvent::Begin), CallAction::Start));
    assert_eq!(answer(call.step(&on, &none, CallEvent::Started(Ok(())))), Ok(String::new()));
}

#[test]
fn failed_start_is_answered() {
    let mut call = ReazonCall::new();
    let failed = CallEvent::Started(Err("reazon_model_missing".to_string()));
    assert_eq!(
        answer(call.step(&Licensed(true), &Vec::new(), failed)),
        Err("reazon_model_missing".to_string())
    );
}

#[test]
fn recording_is_sent_and_recognised() {
    let on = Licensed(true);
    let samples = vec![1, 2];
    let mut call = ReazonCall::new();
    call.step(&on, &samples, CallEvent::Begin);
    assert!(matches!(
        call.step(&on, &samples, CallEvent::Started(Ok(()))),
        CallAction::Connect
    ));
    match call.step(&on, &samples, CallEvent::Connected) {
        CallAction::Send(bytes) => assert_eq!(bytes, reazon_payload(&samples)),
        _ => panic!("not sent"),
    }
    assert!(matches!(call.step(&on, &samples, CallEvent::Sent(Ok(()))), CallAction::Await));
    assert!(matches!(
        call.step(&on, &samples, CallEvent::Received(Incoming::Other)),
        CallAction::Await
    ));
    let text = Incoming::Text("{\"text\":\"現 金\"}".to_string());
    assert_eq!(closed_with(call.step(&on, &samples, CallEvent::Received(text))), "現金");
}

#[test]
fn closed_connection_is_an_empty_text() {
    let on = Licensed(true);
    let samples = vec![1];
    let mut call = ReazonCall::new();
    assert_eq!(closed_with(call.step(&on, &samples, CallEvent::Received(Incoming::Close))), "");
    assert_eq!(closed_with(call.step(&on, &samples, CallEvent::Received(Incoming::Ended))), "");
}

#[test]
fn connection_errors_are_answered() {
    let on = Licensed(true);
    let samples = vec![1];
    let mut call = ReazonCall::new();
    let failed = Incoming::Failed("reset".to_string());
    assert_eq!(
        answer(call.step(&on, &samples, CallEvent::Received(failed))),
        Err("reset".to_string())
    );
    assert_eq!(
        answer(call.step(&on, &samples, CallEvent::Sent(Err("broken pipe".to_string())))),
        Err("broken pipe".to_string())
    );
}

#[test]
fn server_is_given_up_after_forty_attempts() {
    let on = Licensed(true);
    let samples = vec![1];
    let mut call = ReazonCall::new();
    call.step(&on, &samples, CallEvent::Begin);
    let mut action = call.step(&on, &samples, CallEvent::Started(Ok(())));
    let mut attempts = 0;
    let mut pauses = 0;
    loop {
        action = match action {
            CallAction::Connect => {
                attempts += 1;
                call.step(&on, &samples, CallEvent::Refused(format!("error {}", attempts)))
            }
            CallAction::Rest => {
                pauses += 1;
                call.step(&on, &samples, CallEvent::Rested)
            }
            CallAction::GiveUp => break,
            _ => panic!("unexpected action"),
        };
    }
    assert_eq!(attempts, 40);
    assert_eq!(pauses * PAUSE_MILLIS, 8000);
    assert_eq!(call.last, "error 40");
}
