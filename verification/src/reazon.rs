//! Speech recognition with a ReazonSpeech server that stays.
use crate::bytes::{le32, le32_all, push_le32};
use crate::json::{json_of, parse, parsed_json, read_text, text_member, Json};
use crate::license::{require_license, Licensed, UNLICENSED};
use crate::text::{
    decimal, decimal_text, decode_lossy, despaced, is_white_space, join, joined, lossy_utf8,
    signed_decimal, signed_decimal_text, trimmed, trimmed_end, views, without_spaces,
};
use crate::wav::SAMPLE_RATE;
use crate::whisper::ServerSlot;
use vstd::prelude::*;
use vstd::string::*;

verus! {

/// The port of the ReazonSpeech server.
pub const REAZON_PORT: u16 = 8766;

/// The program of the server.
pub const REAZON_SERVER: &'static str = "sherpa-onnx-offline-websocket-server";

/// The answer to a command that needs the ReazonSpeech model while it is missing.
pub const REAZON_MISSING: &'static str = "reazon_model_missing";

/// Lines of the server's output that are kept, at most.
pub const LOG_LINES: usize = 120;

/// Attempts to connect to the server, at most.
pub const ATTEMPTS: u32 = 40;

/// The pause after an attempt that failed, in milliseconds.
pub const PAUSE_MILLIS: u64 = 200;

/// Before the reasons why the server could not be reached.
pub const UNREACHABLE: &'static str = "音声サーバーに接続できません: ";

/// Between the last connection error and the server's output.
pub const DETAIL_MARK: &'static str = " ｜ ";

/// In place of the output of a server that wrote none.
pub const NO_OUTPUT: &'static str = "(サイドカー出力なし＝起動に失敗の可能性)";

/// The last lines, as many as are kept.
pub open spec fn latest(lines: Seq<String>) -> Seq<String> {
    if lines.len() > LOG_LINES {
        lines.skip(lines.len() - LOG_LINES)
    } else {
        lines
    }
}

/// The log after a line came: an empty line is passed over.
pub open spec fn logged(log: Seq<String>, line: String) -> Seq<String> {
    if line@.len() == 0 {
        log
    } else {
        latest(log.push(line))
    }
}

/// Adds a line of the server's output to the log.
pub fn reazon_push_log(buf: &mut Vec<String>, s: String)
    ensures
        final(buf)@ == logged(old(buf)@, s),
{
    if s.as_str().is_empty() {
        return;
    }
    buf.push(s);
    let n: usize = buf.len();
    if n > LOG_LINES {
        let kept: Vec<String> = buf.split_off(n - LOG_LINES);
        *buf = kept;
        proof {
            assert(buf@ =~= latest(old(buf)@.push(s)));
        }
    }
}

/// What the server process does.
pub enum ServerEvent {
    Stdout(Vec<u8>),
    Stderr(Vec<u8>),
    Error(String),
    Terminated { code: Option<i32>, signal: Option<i32> },
    Other,
}

/// An optional number as Rust's debug output writes it.
pub open spec fn optional_number(n: Option<i32>) -> Seq<char> {
    match n {
        Some(n) => "Some("@ + signed_decimal(n as int) + ")"@,
        None => "None"@,
    }
}

fn optional_number_text(n: Option<i32>) -> (r: String)
    ensures
        r@ == optional_number(n),
{
    match n {
        Some(n) => {
            let mut r: String = "Some(".to_string();
            r.append(signed_decimal_text(n).as_str());
            r.append(")");
            r
        },
        None => "None".to_string(),
    }
}

/// The line that an event adds to the log, if it adds one.
pub open spec fn line_of(event: ServerEvent) -> Option<Seq<char>> {
    match event {
        ServerEvent::Stdout(b) => Some(trimmed_end(lossy_utf8(b@))),
        ServerEvent::Stderr(b) => Some(trimmed_end(lossy_utf8(b@))),
        ServerEvent::Error(e) => Some("[error] "@ + e@),
        ServerEvent::Terminated { code, signal } => Some(
            "[terminated] code="@ + optional_number(code) + " signal="@ + optional_number(signal),
        ),
        ServerEvent::Other => None,
    }
}

/// What the server process wrote, if it wrote something that is valid UTF-8.
pub open spec fn written_text(event: ServerEvent) -> Option<Seq<char>> {
    match event {
        ServerEvent::Stdout(b) if vstd::utf8::valid_utf8(b@) => Some(
            vstd::utf8::decode_utf8(b@),
        ),
        ServerEvent::Stderr(b) if vstd::utf8::valid_utf8(b@) => Some(
            vstd::utf8::decode_utf8(b@),
        ),
        _ => None,
    }
}

/// Writes the line that an event adds to the log.
pub fn event_line(event: &ServerEvent) -> (r: Option<String>)
    ensures
        crate::device::opt_view(r) == line_of(*event),
        written_text(*event) matches Some(text) ==> r matches Some(line) && line@ == trimmed_end(
            text,
        ),
{
    match event {
        ServerEvent::Stdout(b) => Some(decode_lossy(b.as_slice()).as_str().trim_end().to_string()),
        ServerEvent::Stderr(b) => Some(decode_lossy(b.as_slice()).as_str().trim_end().to_string()),
        ServerEvent::Error(e) => {
            let mut r: String = "[error] ".to_string();
            r.append(e.as_str());
            Some(r)
        },
        ServerEvent::Terminated { code, signal } => {
            let mut r: String = "[terminated] code=".to_string();
            r.append(optional_number_text(*code).as_str());
            r.append(" signal=");
            r.append(optional_number_text(*signal).as_str());
            Some(r)
        },
        ServerEvent::Other => None,
    }
}

/// Adds what the server process does to the log.
pub fn log_event(buf: &mut Vec<String>, event: &ServerEvent)
    ensures
        match line_of(*event) {
            Some(line) => exists|s: String| s@ == line && final(buf)@ == #[trigger] logged(
                old(buf)@,
                s,
            ),
            None => final(buf)@ == old(buf)@,
        },
        written_text(*event) matches Some(text) ==> exists|s: String|
            s@ == trimmed_end(text) && final(buf)@ == #[trigger] logged(old(buf)@, s),
{
    match event_line(event) {
        Some(line) => reazon_push_log(buf, line),
        None => {},
    }
}

/// The log as one text.
pub fn reazon_log(buf: &Vec<String>) -> (r: String)
    ensures
        r@ == joined(views(buf@), "\n"@),
{
    join(buf, "\n")
}

/// Where the files of the model are.
pub struct ReazonPaths {
    pub encoder: String,
    pub decoder: String,
    pub joiner: String,
    pub tokens: String,
}

/// The arguments of the server.
pub open spec fn reazon_args(paths: ReazonPaths) -> Seq<Seq<char>> {
    seq![
        "--port="@ + decimal(REAZON_PORT as int),
        "--encoder="@ + paths.encoder@,
        "--decoder="@ + paths.decoder@,
        "--joiner="@ + paths.joiner@,
        "--tokens="@ + paths.tokens@,
        "--num-threads=2"@,
    ]
}

fn with_value(name: &str, value: &str) -> (r: String)
    ensures
        r@ == name@ + value@,
{
    let mut r: String = name.to_string();
    r.append(value);
    r
}

/// Begins to start the server: nothing is to be done if it runs (`Ok(None)`),
/// and otherwise it is to be spawned with these arguments, if its tokens and
/// its encoder are there. The log begins anew with the server.
pub fn reazon_start_inner<C>(
    slot: &ServerSlot<C>,
    log: &mut Vec<String>,
    tokens_present: bool,
    encoder_present: bool,
    paths: &ReazonPaths,
) -> (r: Result<Option<Vec<String>>, String>)
    ensures
        match r {
            Ok(None) => slot.child is Some && final(log)@ == old(log)@,
            Ok(Some(args)) => slot.child is None && tokens_present && encoder_present && views(
                args@,
            ) == reazon_args(*paths) && final(log)@.len() == 0,
            Err(e) => slot.child is None && !(tokens_present && encoder_present) && e@
                == REAZON_MISSING@ && final(log)@ == old(log)@,
        },
{
    if slot.child.is_some() {
        return Ok(None);
    }
    if !tokens_present || !encoder_present {
        return Err(REAZON_MISSING.to_string());
    }
    log.clear();
    let mut args: Vec<String> = Vec::new();
    args.push(with_value("--port=", decimal_text(REAZON_PORT as u64).as_str()));
    args.push(with_value("--encoder=", paths.encoder.as_str()));
    args.push(with_value("--decoder=", paths.decoder.as_str()));
    args.push(with_value("--joiner=", paths.joiner.as_str()));
    args.push(with_value("--tokens=", paths.tokens.as_str()));
    args.push("--num-threads=2".to_string());
    proof {
        assert(views(args@) =~= reazon_args(*paths));
    }
    Ok(Some(args))
}

/// The text in the server's answer: the member `text`, without spaces. An
/// answer that has none gives an empty text.
pub open spec fn text_in_answer(answer: Option<Json>) -> Seq<char> {
    match answer {
        Some(v) => match text_member(v, "text"@) {
            Some(t) => despaced(t),
            None => Seq::empty(),
        },
        None => Seq::empty(),
    }
}

/// Reads the text out of an answer that is JSON.
pub fn answer_text(v: &serde_json::Value) -> (r: String)
    ensures
        r@ == text_in_answer(Some(json_of(*v))),
{
    match read_text(v, "text") {
        Some(t) => without_spaces(t.as_str()),
        None => String::new(),
    }
}

/// Reads the text out of the server's answer.
pub fn reazon_extract_text(s: &str) -> (r: String)
    ensures
        r@ == text_in_answer(parsed_json(trimmed(s@))),
{
    match parse(s.trim()) {
        Ok(v) => answer_text(&v),
        Err(_) => String::new(),
    }
}

/// What is sent for a recording: the sample rate, the length of the samples in
/// bytes (its low 32 bits), and the samples, each given by its 32 bits.
pub open spec fn payload(samples: Seq<u32>) -> Seq<u8> {
    le32(SAMPLE_RATE as int) + le32(4 * samples.len() as int) + le32_all(samples)
}

/// Builds what is sent for a recording.
pub fn reazon_payload(samples: &Vec<u32>) -> (r: Vec<u8>)
    requires
        8 + 4 * samples@.len() <= isize::MAX,
    ensures
        r@ == payload(samples@),
{
    let mut r: Vec<u8> = Vec::with_capacity(8 + samples.len() * 4);
    push_le32(&mut r, SAMPLE_RATE);
    let byte_len: u64 = (samples.len() * 4) as u64;
    push_le32(&mut r, (byte_len % 0x1_0000_0000) as u32);
    proof {
        lemma_le32_low_bits(byte_len);
        assert(r@ + le32_all(samples@.take(0)) =~= r@);
    }
    let mut i: usize = 0;
    while i < samples.len()
        invariant
            i <= samples@.len(),
            r@ == le32(SAMPLE_RATE as int) + le32(4 * samples@.len() as int) + le32_all(
                samples@.take(i as int),
            ),
        decreases samples@.len() - i,
    {
        push_le32(&mut r, samples[i]);
        proof {
            assert(samples@.take(i + 1).drop_last() =~= samples@.take(i as int));
            assert(r@ =~= le32(SAMPLE_RATE as int) + le32(4 * samples@.len() as int) + le32_all(
                samples@.take(i + 1),
            ));
        }
        i = i + 1;
    }
    proof {
        assert(samples@.take(samples@.len() as int) =~= samples@);
    }
    r
}

proof fn lemma_le32_low_bits(n: u64)
    ensures
        le32((n % 0x1_0000_0000) as int) == le32(n as int),
{
    let m = n % 0x1_0000_0000;
    assert(m % 256 == n % 256 && m / 256 % 256 == n / 256 % 256 && m / 65536 % 256 == n / 65536
        % 256 && m / 16777216 % 256 == n / 16777216 % 256) by (bit_vector)
        requires
            m == n % 0x1_0000_0000,
    ;
    assert(le32(m as int) =~= le32(n as int));
}

/// The answer to a command whose server could not be reached: the last
/// connection error and the server's output.
pub open spec fn unreachable_text(last: Seq<char>, log: Seq<String>) -> Seq<char> {
    let output = joined(views(log), " / "@);
    UNREACHABLE@ + last + DETAIL_MARK@ + if output.len() == 0 {
        NO_OUTPUT@
    } else {
        output
    }
}

/// Writes the answer to a command whose server could not be reached.
pub fn unreachable_error(last: &str, log: &Vec<String>) -> (r: String)
    ensures
        r@ == unreachable_text(last@, log@),
{
    let output: String = join(log, " / ");
    let mut r: String = UNREACHABLE.to_string();
    r.append(last);
    r.append(DETAIL_MARK);
    if output.as_str().is_empty() {
        r.append(NO_OUTPUT);
    } else {
        r.append(output.as_str());
    }
    r
}

/// What giving a server up comes to.
pub struct GivenUp<C> {
    /// The answer to the command.
    pub error: String,
    /// The process, which is to be killed, if there is one.
    pub child: Option<C>,
}

/// Gives a server that could not be reached up: its process leaves the slot, so
/// that the next start spawns a new one, and the command is answered with the
/// last connection error and the server's output. The log stays as it is.
pub fn reazon_give_up<C>(slot: &mut ServerSlot<C>, last: &str, log: &Vec<String>) -> (r: GivenUp<C>)
    ensures
        r.error@ == unreachable_text(last@, log@),
        r.child == old(slot).child,
        final(slot).child is None,
{
    let error: String = unreachable_error(last, log);
    GivenUp { error, child: slot.stop() }
}

/// Where the server is connected to.
pub fn reazon_url() -> (r: String)
    ensures
        r@ == "ws://127.0.0.1:"@ + decimal(REAZON_PORT as int),
{
    with_value("ws://127.0.0.1:", decimal_text(REAZON_PORT as u64).as_str())
}

/// What comes over the connection.
pub enum Incoming {
    Text(String),
    Close,
    Other,
    Failed(String),
    Ended,
}

/// What happened while a recording is being recognised.
pub enum CallEvent {
    /// The command was given.
    Begin,
    /// The server runs, or could not be started.
    Started(Result<(), String>),
    /// The connection stands.
    Connected,
    /// An attempt to connect failed.
    Refused(String),
    /// The pause is over.
    Rested,
    /// The recording was sent, or could not be.
    Sent(Result<(), String>),
    /// Something came over the connection.
    Received(Incoming),
}

/// What to do next.
pub enum CallAction {
    /// Start the server unless it runs.
    Start,
    /// Try to connect.
    Connect,
    /// Pause, then go on.
    Rest,
    /// Give the server up, as [`reazon_give_up`] does, and answer with its error.
    GiveUp,
    /// Send this.
    Send(Vec<u8>),
    /// Wait for what comes next.
    Await,
    /// Close the connection and answer with this text.
    Close(String),
    /// Answer the command.
    Answer(Result<String, String>),
}

/// A recognition under way.
pub struct ReazonCall {
    /// The attempts to connect that failed.
    pub failures: u32,
    /// Why the last of them failed.
    pub last: String,
}

/// The state and the action that follow an event.
pub open spec fn calls(
    licensed: bool,
    samples: Seq<u32>,
    before: ReazonCall,
    event: CallEvent,
    after: ReazonCall,
    action: CallAction,
) -> bool {
    match event {
        CallEvent::Begin => {
            &&& after == before
            &&& if licensed {
                action is Start
            } else {
                action matches CallAction::Answer(Err(e)) && e@ == UNLICENSED@
            }
        },
        CallEvent::Started(Ok(_)) => {
            &&& after == before
            &&& if samples.len() == 0 {
                action matches CallAction::Answer(Ok(text)) && text@.len() == 0
            } else {
                action is Connect
            }
        },
        CallEvent::Started(Err(e)) => after == before && action == CallAction::Answer(Err(e)),
        CallEvent::Connected => {
            &&& after == before
            &&& action matches CallAction::Send(bytes) && bytes@ == payload(samples)
        },
        CallEvent::Refused(e) => {
            &&& after.failures == before.failures + 1
            &&& after.last == e
            &&& action is Rest
        },
        CallEvent::Rested => {
            &&& after == before
            &&& if before.failures < ATTEMPTS {
                action is Connect
            } else {
                action is GiveUp
            }
        },
        CallEvent::Sent(Ok(_)) => after == before && action is Await,
        CallEvent::Sent(Err(e)) => after == before && action == CallAction::Answer(Err(e)),
        CallEvent::Received(incoming) => {
            &&& after == before
            &&& match incoming {
                Incoming::Text(t) => action matches CallAction::Close(text) && text@
                    == text_in_answer(parsed_json(trimmed(t@))),
                Incoming::Close => action matches CallAction::Close(text) && text@.len() == 0,
                Incoming::Ended => action matches CallAction::Close(text) && text@.len() == 0,
                Incoming::Other => action is Await,
                Incoming::Failed(e) => action == CallAction::Answer(Err(e)),
            }
        },
    }
}

impl ReazonCall {
    /// A recognition that has not begun.
    pub fn new() -> (r: ReazonCall)
        ensures
            r.failures == 0,
            r.last@.len() == 0,
    {
        ReazonCall { failures: 0, last: String::new() }
    }

    /// Takes the recognition one event further.
    pub fn step(&mut self, licensed: &Licensed, samples: &Vec<u32>, event: CallEvent) -> (r:
        CallAction)
        requires
            8 + 4 * samples@.len() <= isize::MAX,
            event is Refused ==> old(self).failures < ATTEMPTS,
        ensures
            calls(licensed.0, samples@, *old(self), event, *final(self), r),
    {
        match event {
            CallEvent::Begin => match require_license(licensed) {
                Ok(()) => CallAction::Start,
                Err(e) => CallAction::Answer(Err(e)),
            },
            CallEvent::Started(Ok(_)) => if samples.len() == 0 {
                CallAction::Answer(Ok(String::new()))
            } else {
                CallAction::Connect
            },
            CallEvent::Started(Err(e)) => CallAction::Answer(Err(e)),
            CallEvent::Connected => CallAction::Send(reazon_payload(samples)),
            CallEvent::Refused(e) => {
                self.failures = self.failures + 1;
                self.last = e;
                CallAction::Rest
            },
            CallEvent::Rested => if self.failures < ATTEMPTS {
                CallAction::Connect
            } else {
                CallAction::GiveUp
            },
            CallEvent::Sent(Ok(_)) => CallAction::Await,
            CallEvent::Sent(Err(e)) => CallAction::Answer(Err(e)),
            CallEvent::Received(incoming) => match incoming {
                Incoming::Text(t) => CallAction::Close(reazon_extract_text(t.as_str())),
                Incoming::Close => CallAction::Close(String::new()),
                Incoming::Ended => CallAction::Close(String::new()),
                Incoming::Other => CallAction::Await,
                Incoming::Failed(e) => CallAction::Answer(Err(e)),
            },
        }
    }
}

/// The log after `lines` came one after the other, from an empty log on.
pub open spec fn log_of(lines: Seq<String>) -> Seq<String>
    decreases lines.len(),
{
    if lines.len() == 0 {
        Seq::empty()
    } else {
        logged(log_of(lines.drop_last()), lines.last())
    }
}

/// The log is the latest of the lines that are not empty, in the order in
/// which they came.
pub proof fn law_log_keeps_the_latest_lines(lines: Seq<String>)
    ensures
        log_of(lines) == latest(lines.filter(|s: String| s@.len() > 0)),
        log_of(lines).len() <= LOG_LINES,
    decreases lines.len(),
{
    reveal(Seq::filter);
    let written = |s: String| s@.len() > 0;
    if lines.len() > 0 {
        let before = lines.drop_last();
        law_log_keeps_the_latest_lines(before);
        let kept = before.filter(written);
        if written(lines.last()) {
            assert(latest(latest(kept).push(lines.last())) =~= latest(kept.push(lines.last())));
        }
    }
}

/// What is sent is eight bytes and four for each sample. It begins with the
/// sample rate, and next gives the low 32 bits of the length of what follows.
pub proof fn law_payload_length(samples: Seq<u32>)
    ensures
        payload(samples).len() == 8 + 4 * samples.len(),
        payload(samples).subrange(0, 4) == le32(SAMPLE_RATE as int),
        payload(samples).subrange(4, 8) == le32(payload(samples).len() - 8),
{
    crate::bytes::lemma_le32_all_len(samples);
    assert(payload(samples).subrange(0, 4) =~= le32(SAMPLE_RATE as int));
    assert(payload(samples).subrange(4, 8) =~= le32(4 * samples.len() as int));
}

/// What is sent gives the samples back: different recordings are sent as
/// different bytes.
pub proof fn law_payload_keeps_samples(a: Seq<u32>, b: Seq<u32>)
    ensures
        payload(a) == payload(b) ==> a == b,
{
    if payload(a) == payload(b) {
        assert(payload(a).skip(8) =~= le32_all(a));
        assert(payload(b).skip(8) =~= le32_all(b));
        crate::bytes::lemma_le32_all_injective(a, b);
    }
}

/// No text that is read out of an answer holds a space.
pub proof fn law_answer_text_has_no_spaces(answer: Option<Json>)
    ensures
        !text_in_answer(answer).contains(' '),
{
    if let Some(v) = answer {
        if let Some(t) = text_member(v, "text"@) {
            crate::text::lemma_despaced(t);
        }
    }
}

/// The events that an action can lead to.
pub open spec fn leads_to(action: CallAction, event: CallEvent) -> bool {
    match action {
        CallAction::Start => event is Started,
        CallAction::Connect => event is Connected || event is Refused,
        CallAction::Rest => event is Rested,
        CallAction::Send(_) => event is Sent,
        CallAction::Await => event is Received,
        CallAction::GiveUp => false,
        CallAction::Close(_) => false,
        CallAction::Answer(_) => false,
    }
}

/// `events`, with the `states` between them and the `actions` that follow
/// them, are one recognition from its beginning on.
pub open spec fn is_call_run(
    licensed: bool,
    samples: Seq<u32>,
    states: Seq<ReazonCall>,
    events: Seq<CallEvent>,
    actions: Seq<CallAction>,
) -> bool {
    &&& events.len() > 0
    &&& states.len() == events.len() + 1
    &&& actions.len() == events.len()
    &&& states[0].failures == 0
    &&& events[0] is Begin
    &&& forall|i: int|
        0 <= i < events.len() ==> calls(
            licensed,
            samples,
            states[i],
            #[trigger] events[i],
            states[i + 1],
            actions[i],
        )
    &&& forall|i: int| 0 < i < events.len() ==> leads_to(actions[i - 1], #[trigger] events[i])
}

/// The attempts to connect among the first `n` actions.
pub open spec fn attempts(actions: Seq<CallAction>, n: int) -> int
    decreases n,
{
    if n <= 0 {
        0
    } else {
        attempts(actions, n - 1) + if actions[n - 1] is Connect {
            1int
        } else {
            0
        }
    }
}

/// The pauses among the first `n` actions.
pub open spec fn pauses(actions: Seq<CallAction>, n: int) -> int
    decreases n,
{
    if n <= 0 {
        0
    } else {
        pauses(actions, n - 1) + if actions[n - 1] is Rest {
            1int
        } else {
            0
        }
    }
}

proof fn lemma_call_run(
    licensed: bool,
    samples: Seq<u32>,
    states: Seq<ReazonCall>,
    events: Seq<CallEvent>,
    actions: Seq<CallAction>,
    n: int,
)
    requires
        is_call_run(licensed, samples, states, events, actions),
        0 < n <= events.len(),
    ensures
        pauses(actions, n) == states[n].failures,
        states[n].failures <= ATTEMPTS,
        n > 1 ==> licensed,
        match actions[n - 1] {
            CallAction::Start => attempts(actions, n) == 0 && states[n].failures == 0,
            CallAction::Connect => attempts(actions, n) == states[n].failures + 1
                && states[n].failures < ATTEMPTS,
            CallAction::Rest => attempts(actions, n) == states[n].failures,
            CallAction::GiveUp => attempts(actions, n) == states[n].failures
                && states[n].failures == ATTEMPTS,
            _ => attempts(actions, n) <= ATTEMPTS,
        },
    decreases n,
{
    assert(calls(licensed, samples, states[n - 1], events[n - 1], states[n], actions[n - 1]));
    if n > 1 {
        lemma_call_run(licensed, samples, states, events, actions, n - 1);
        assert(leads_to(actions[n - 2], events[n - 1]));
        assert(calls(
            licensed,
            samples,
            states[n - 2],
            events[n - 2],
            states[n - 1],
            actions[n - 2],
        ));
    } else {
        reveal_with_fuel(attempts, 2);
        reveal_with_fuel(pauses, 2);
    }
}

/// Without a license nothing is started, connected to or sent. The server is
/// tried at most 40 times and paused for at most 8 seconds in all, and it is
/// given up only after all of that.
pub proof fn law_call_run(
    licensed: bool,
    samples: Seq<u32>,
    states: Seq<ReazonCall>,
    events: Seq<CallEvent>,
    actions: Seq<CallAction>,
)
    requires
        is_call_run(licensed, samples, states, events, actions),
    ensures
        !licensed ==> events.len() == 1 && actions[0] is Answer,
        attempts(actions, actions.len() as int) <= 40,
        pauses(actions, actions.len() as int) * PAUSE_MILLIS <= 8000,
        actions.last() is GiveUp ==> attempts(actions, actions.len() as int) == 40 && pauses(
            actions,
            actions.len() as int,
        ) * PAUSE_MILLIS == 8000,
{
    assert(calls(licensed, samples, states[0], events[0], states[1], actions[0]));
    lemma_call_run(licensed, samples, states, events, actions, events.len() as int);
}

/// The first message that is a text, a close or an error decides: where a text
/// is answered, it is the one in the last message or, without such a message,
/// empty, and all messages before were passed over.
pub proof fn law_first_message_decides(
    licensed: bool,
    samples: Seq<u32>,
    states: Seq<ReazonCall>,
    events: Seq<CallEvent>,
    actions: Seq<CallAction>,
)
    requires
        is_call_run(licensed, samples, states, events, actions),
    ensures
        forall|i: int|
            0 <= i < events.len() - 1 ==> (#[trigger] events[i] matches CallEvent::Received(m)
                ==> m is Other),
        actions.last() matches CallAction::Close(text) ==> (match events.last() {
            CallEvent::Received(Incoming::Text(t)) => text@ == text_in_answer(
                parsed_json(trimmed(t@)),
            ),
            CallEvent::Received(m) => (m is Close || m is Ended) && text@.len() == 0,
            _ => false,
        }),
{
    assert forall|i: int| 0 <= i < events.len() - 1 implies (#[trigger] events[i] matches
        CallEvent::Received(m) ==> m is Other) by {
        assert(calls(licensed, samples, states[i], events[i], states[i + 1], actions[i]));
        assert(leads_to(actions[i], events[i + 1]));
    }
    let n = events.len() - 1;
    assert(calls(licensed, samples, states[n], events[n], states[n + 1], actions[n]));
}

proof fn lemma_payload_at(samples: Seq<u32>, i: int)
    requires
        0 <= i < samples.len(),
    ensures
        payload(samples)[8 + 4 * i] as int == samples[i] as int % 256,
        payload(samples)[9 + 4 * i] as int == samples[i] as int / 256 % 256,
        payload(samples)[10 + 4 * i] as int == samples[i] as int / 65536 % 256,
        payload(samples)[11 + 4 * i] as int == samples[i] as int / 16777216 % 256,
{
    crate::bytes::lemma_le32_all_at(samples, i);
    let data = le32_all(samples);
    assert(payload(samples)[8 + 4 * i] == data[4 * i]);
    assert(payload(samples)[9 + 4 * i] == data[4 * i + 1]);
    assert(payload(samples)[10 + 4 * i] == data[4 * i + 2]);
    assert(payload(samples)[11 + 4 * i] == data[4 * i + 3]);
}

proof fn lemma_payload_head(samples: Seq<u32>)
    ensures
        payload(samples).len() == 8 + 4 * samples.len(),
        payload(samples)[0] == 128 && payload(samples)[1] == 62 && payload(samples)[2] == 0
            && payload(samples)[3] == 0,
        payload(samples)[4] as int == 4 * samples.len() % 256,
        payload(samples)[5] as int == 4 * samples.len() / 256 % 256,
        payload(samples)[6] as int == 4 * samples.len() / 65536 % 256,
        payload(samples)[7] as int == 4 * samples.len() / 16777216 % 256,
{
    law_payload_length(samples);
    let p = payload(samples);
    let rate = le32(SAMPLE_RATE as int);
    let len = le32(4 * samples.len() as int);
    assert(forall|k: int| 0 <= k < 4 ==> #[trigger] p[k] == rate[k]);
    assert(p[4] == len[0] && p[5] == len[1] && p[6] == len[2] && p[7] == len[3]);
}

/// The samples are sent in the order recorded: after eight bytes, four for each
/// sample, the lowest first, and nothing after the last.
pub proof fn law_samples_are_sent_in_order(samples: Vec<u32>, r: Vec<u8>, i: int)
    requires
        call_ensures(reazon_payload, (&samples,), r),
    ensures
        r@.len() == 8 + 4 * samples@.len(),
        0 <= i < samples@.len() ==> {
            &&& r@[8 + 4 * i] as int == samples@[i] as int % 256
            &&& r@[9 + 4 * i] as int == samples@[i] as int / 256 % 256
            &&& r@[10 + 4 * i] as int == samples@[i] as int / 65536 % 256
            &&& r@[11 + 4 * i] as int == samples@[i] as int / 16777216 % 256
        },
{
    lemma_payload_head(samples@);
    if 0 <= i < samples@.len() {
        lemma_payload_at(samples@, i);
    }
}

/// Before the samples stand 16000, the samples per second, and the length of
/// the samples in bytes, each in four bytes, the lowest first.
pub proof fn law_payload_begins_with_rate_and_length(samples: Vec<u32>, r: Vec<u8>)
    requires
        call_ensures(reazon_payload, (&samples,), r),
    ensures
        r@[0] as int + 256 * r@[1] + 65536 * r@[2] + 16777216 * r@[3] == 16000,
        r@[4] as int == (r@.len() - 8) % 256,
        r@[5] as int == (r@.len() - 8) / 256 % 256,
        r@[6] as int == (r@.len() - 8) / 65536 % 256,
        r@[7] as int == (r@.len() - 8) / 16777216 % 256,
{
    lemma_payload_head(samples@);
}

/// Recordings are sent piece by piece: where one recording is another with more
/// after it, the samples of what is sent agree as far as the shorter one goes.
pub proof fn law_longer_recordings_are_sent_alike(
    a: Vec<u32>,
    b: Vec<u32>,
    from_a: Vec<u8>,
    from_b: Vec<u8>,
)
    requires
        a@.len() <= b@.len(),
        b@.take(a@.len() as int) == a@,
        call_ensures(reazon_payload, (&a,), from_a),
        call_ensures(reazon_payload, (&b,), from_b),
    ensures
        from_b@.subrange(8, from_a@.len() as int) == from_a@.skip(8),
        from_b@.take(4) == from_a@.take(4),
{
    lemma_payload_head(a@);
    lemma_payload_head(b@);
    let n = 4 * a@.len() as int;
    assert forall|j: int| 8 <= j < 8 + n implies #[trigger] from_b@[j] == from_a@[j] by {
        let k = j - 8;
        let i = k / 4;
        lemma_payload_at(a@, i);
        lemma_payload_at(b@, i);
        assert(a@[i] == b@[i]) by {
            assert(b@.take(a@.len() as int)[i] == b@[i]);
        }
        assert(k == 4 * i || k == 4 * i + 1 || k == 4 * i + 2 || k == 4 * i + 3);
    }
    assert(from_b@.subrange(8, from_a@.len() as int) =~= from_a@.skip(8));
    assert(from_b@.take(4) =~= from_a@.take(4));
}

/// What a recognition sends once it is connected is its recording, in the order
/// recorded, whatever went before.
pub proof fn law_recording_is_sent(
    call: &mut ReazonCall,
    licensed: Licensed,
    samples: Vec<u32>,
    r: CallAction,
    i: int,
)
    requires
        call_ensures(ReazonCall::step, (call, &licensed, &samples, CallEvent::Connected), r),
    ensures
        r matches CallAction::Send(bytes) && bytes@.len() == 8 + 4 * samples@.len() && bytes@[0] == 128
            && bytes@[1] == 62 && bytes@[2] == 0 && bytes@[3] == 0 && (0 <= i < samples@.len() ==> {
            &&& bytes@[8 + 4 * i] as int == samples@[i] as int % 256
            &&& bytes@[9 + 4 * i] as int == samples@[i] as int / 256 % 256
            &&& bytes@[10 + 4 * i] as int == samples@[i] as int / 65536 % 256
            &&& bytes@[11 + 4 * i] as int == samples@[i] as int / 16777216 % 256
        }),
{
    lemma_payload_head(samples@);
    if 0 <= i < samples@.len() {
        lemma_payload_at(samples@, i);
    }
}

/// A line that is not empty becomes the last of the log, and the lines before
/// it stay, up to 120 in all: the oldest leave first. An empty line changes
/// nothing.
pub proof fn law_push_log(buf: &mut Vec<String>, s: String)
    requires
        call_ensures(reazon_push_log, (buf, s), ()),
    ensures
        s@.len() == 0 ==> final(buf)@ == old(buf)@,
        s@.len() > 0 ==> final(buf)@.len() == (if old(buf)@.len() < 120 {
            old(buf)@.len() + 1
        } else {
            120
        }),
        s@.len() > 0 ==> final(buf)@.last() == s,
        s@.len() > 0 ==> forall|i: int|
            0 <= i < final(buf)@.len() - 1 ==> #[trigger] final(buf)@[i] == old(buf)@[old(buf)@.len()
                + 1 - final(buf)@.len() + i],
{
}

/// After any lines the log holds the last 120 of those that are not empty, or
/// all if there are fewer, in the order in which they came.
pub proof fn law_log_holds_the_last_lines(lines: Seq<String>)
    ensures
        ({
            let written = lines.filter(|s: String| s@.len() > 0);
            &&& log_of(lines).len() == if written.len() < 120 {
                written.len()
            } else {
                120
            }
            &&& forall|i: int|
                0 <= i < log_of(lines).len() ==> #[trigger] log_of(lines)[i] == written[written.len()
                    - log_of(lines).len() + i]
        }),
{
    law_log_keeps_the_latest_lines(lines);
}

/// Adding an event to the log is adding its line, if it has one.
pub proof fn law_log_event(buf: &mut Vec<String>, event: ServerEvent, line: Option<String>)
    requires
        call_ensures(log_event, (buf, &event), ()),
        call_ensures(event_line, (&event,), line),
    ensures
        line is None ==> final(buf)@ == old(buf)@,
        line matches Some(s) ==> s@.len() == 0 ==> final(buf)@ == old(buf)@,
        line matches Some(s) ==> s@.len() > 0 ==> {
            &&& final(buf)@.len() == if old(buf)@.len() < 120 {
                old(buf)@.len() + 1
            } else {
                120
            }
            &&& final(buf)@.last()@ == s@
            &&& forall|i: int|
                0 <= i < final(buf)@.len() - 1 ==> #[trigger] final(buf)@[i] == old(
                    buf,
                )@[old(buf)@.len() + 1 - final(buf)@.len() + i]
        },
{
}

/// The line of an output is what it decodes to, without the white space at its
/// back, whichever way it was written.
pub proof fn law_output_line(
    middle: Seq<char>,
    back: Seq<char>,
    b: Vec<u8>,
    out: Option<String>,
    err: Option<String>,
)
    requires
        forall|i: int| 0 <= i < back.len() ==> is_white_space(#[trigger] back[i]),
        middle.len() > 0 ==> !is_white_space(middle.last()),
        lossy_utf8(b@) == middle + back || (vstd::utf8::valid_utf8(b@) && vstd::utf8::decode_utf8(
            b@,
        ) == middle + back),
        call_ensures(event_line, (&ServerEvent::Stdout(b),), out),
        call_ensures(event_line, (&ServerEvent::Stderr(b),), err),
    ensures
        out matches Some(line) && line@ == middle,
        err matches Some(line) && line@ == middle,
{
    crate::text::law_trimmed_before(middle, back);
}

/// The line of an error is the error, and the line of the end of the server is
/// its exit code and its signal, each marked as what it is. Nothing else has a
/// line.
pub proof fn law_other_lines(
    e: String,
    error: Option<String>,
    code: i32,
    signal: i32,
    code_text: String,
    signal_text: String,
    exited: Option<String>,
    killed: Option<String>,
    both: Option<String>,
    gone: Option<String>,
    other: Option<String>,
)
    requires
        call_ensures(event_line, (&ServerEvent::Error(e),), error),
        call_ensures(signed_decimal_text, (code,), code_text),
        call_ensures(signed_decimal_text, (signal,), signal_text),
        call_ensures(
            event_line,
            (&(ServerEvent::Terminated { code: Some(code), signal: None }),),
            exited,
        ),
        call_ensures(
            event_line,
            (&(ServerEvent::Terminated { code: None, signal: Some(signal) }),),
            killed,
        ),
        call_ensures(
            event_line,
            (&(ServerEvent::Terminated { code: Some(code), signal: Some(signal) }),),
            both,
        ),
        call_ensures(
            event_line,
            (&(ServerEvent::Terminated { code: None, signal: None }),),
            gone,
        ),
        call_ensures(event_line, (&ServerEvent::Other,), other),
    ensures
        error matches Some(line) && line@ == "[error] "@ + e@,
        exited matches Some(line) && line@ == "[terminated] code="@ + ("Some("@ + code_text@ + ")"@)
            + " signal="@ + "None"@,
        killed matches Some(line) && line@ == "[terminated] code="@ + "None"@ + " signal="@ + (
        "Some("@ + signal_text@ + ")"@),
        both matches Some(line) && line@ == "[terminated] code="@ + ("Some("@ + code_text@ + ")"@)
            + " signal="@ + ("Some("@ + signal_text@ + ")"@),
        gone matches Some(line) && line@ == "[terminated] code="@ + "None"@ + " signal="@ + "None"@,
        other is None,
{
}

/// The log as one text is its lines, joined by line breaks.
pub proof fn law_reazon_log(buf: Vec<String>, sep: &str, lines: String, r: String)
    requires
        sep@ == "\n"@,
        call_ensures(join, (&buf, sep), lines),
        call_ensures(reazon_log, (&buf,), r),
    ensures
        r@ == lines@,
{
}

proof fn lemma_reazon_port()
    ensures
        decimal(8766) == "8766"@,
{
    reveal_with_fuel(decimal, 5);
    reveal_strlit("8766");
    assert(decimal(8766) =~= seq!['8', '7', '6', '6']);
    assert("8766"@ =~= seq!['8', '7', '6', '6']);
}

/// A server is started exactly if none runs and its tokens and its encoder are
/// there, on port 8766, with each file of the model for what it is. The log
/// begins anew with a server that is started, and stays otherwise.
pub proof fn law_reazon_start<C>(
    slot: ServerSlot<C>,
    log: &mut Vec<String>,
    tokens_present: bool,
    encoder_present: bool,
    paths: ReazonPaths,
    r: Result<Option<Vec<String>>, String>,
)
    requires
        call_ensures(
            reazon_start_inner::<C>,
            (&slot, log, tokens_present, encoder_present, &paths),
            r,
        ),
    ensures
        slot.child is Some <==> r == Ok::<Option<Vec<String>>, String>(None),
        r is Err <==> slot.child is None && !(tokens_present && encoder_present),
        r matches Err(e) ==> e@ == "reazon_model_missing"@ && final(log)@ == old(log)@,
        slot.child is Some ==> final(log)@ == old(log)@,
        r matches Ok(Some(args)) ==> {
            &&& final(log)@.len() == 0
            &&& args@.len() == 6
            &&& args@[0]@ == "--port="@ + "8766"@
            &&& args@[1]@ == "--encoder="@ + paths.encoder@
            &&& args@[2]@ == "--decoder="@ + paths.decoder@
            &&& args@[3]@ == "--joiner="@ + paths.joiner@
            &&& args@[4]@ == "--tokens="@ + paths.tokens@
            &&& args@[5]@ == "--num-threads=2"@
        },
{
    lemma_reazon_port();
    if let Ok(Some(args)) = r {
        assert(views(args@).len() == 6);
        assert(forall|i: int| 0 <= i < 6 ==> args@[i]@ == #[trigger] views(args@)[i]);
    }
}

/// The server is connected to on the port that it listens on.
pub proof fn law_reazon_url(r: String)
    requires
        call_ensures(reazon_url, (), r),
    ensures
        r@ == "ws://127.0.0.1:"@ + "8766"@,
{
    lemma_reazon_port();
}

/// The text of an answer is the string under `text`, rid of its spaces, exactly
/// if the answer is an object that holds one there, and empty otherwise.
pub proof fn law_answer_text(v: serde_json::Value, t: &str, without: String, r: String)
    requires
        call_ensures(without_spaces, (t,), without),
        call_ensures(answer_text, (&v,), r),
    ensures
        (json_of(v) matches Json::Object(m) && m.dom().contains("text"@) && m["text"@]
            == Json::Text(t@)) ==> r@ == without@,
        !(json_of(v) matches Json::Object(m) && m.dom().contains("text"@) && m["text"@] is Text)
            ==> r@.len() == 0,
{
}

/// The text of a message is that of the JSON value in it, whatever white space
/// stands around the value. A message that is no JSON has an empty text.
pub proof fn law_extract_text(
    front: Seq<char>,
    middle: Seq<char>,
    back: Seq<char>,
    s: &str,
    v: serde_json::Value,
    in_value: String,
    r: String,
)
    requires
        forall|i: int| 0 <= i < front.len() ==> is_white_space(#[trigger] front[i]),
        forall|i: int| 0 <= i < back.len() ==> is_white_space(#[trigger] back[i]),
        middle.len() > 0 ==> !is_white_space(middle[0]) && !is_white_space(middle.last()),
        s@ == front + middle + back,
        call_ensures(answer_text, (&v,), in_value),
        call_ensures(reazon_extract_text, (s,), r),
    ensures
        parsed_json(middle) == Some(json_of(v)) ==> r@ == in_value@,
        parsed_json(middle) is None ==> r@.len() == 0,
{
    crate::text::law_trimmed_between(front, middle, back);
}

/// The answer for a server that could not be reached names the last error and
/// shows the server's output or, where it wrote none, says so.
pub proof fn law_unreachable_error(
    last: &str,
    log: Vec<String>,
    sep: &str,
    output: String,
    r: String,
)
    requires
        sep@ == " / "@,
        call_ensures(join, (&log, sep), output),
        call_ensures(unreachable_error, (last, &log), r),
    ensures
        output@.len() > 0 ==> r@ == "音声サーバーに接続できません: "@ + last@ + " ｜ "@ + output@,
        output@.len() == 0 ==> r@ == "音声サーバーに接続できません: "@ + last@ + " ｜ "@
            + "(サイドカー出力なし＝起動に失敗の可能性)"@,
{
}

/// A server that is given up leaves its slot, its process is handed out to be
/// killed, and the answer is that it could not be reached.
pub proof fn law_give_up<C>(
    slot: &mut ServerSlot<C>,
    last: &str,
    log: Vec<String>,
    error: String,
    r: GivenUp<C>,
)
    requires
        call_ensures(unreachable_error, (last, &log), error),
        call_ensures(reazon_give_up::<C>, (slot, last, &log), r),
    ensures
        r.error@ == error@,
        r.child == old(slot).child,
        final(slot).child is None,
{
}

/// The attempts to connect that failed among the first `n` events.
pub open spec fn refusals(events: Seq<CallEvent>, n: int) -> int
    decreases n,
{
    if n <= 0 {
        0
    } else {
        refusals(events, n - 1) + if events[n - 1] is Refused {
            1int
        } else {
            0
        }
    }
}

proof fn lemma_call_counts(
    licensed: bool,
    samples: Seq<u32>,
    states: Seq<ReazonCall>,
    events: Seq<CallEvent>,
    actions: Seq<CallAction>,
    n: int,
)
    requires
        is_call_run(licensed, samples, states, events, actions),
        0 <= n <= events.len(),
    ensures
        states[n].failures == refusals(events, n),
    decreases n,
{
    if n > 0 {
        lemma_call_counts(licensed, samples, states, events, actions, n - 1);
        assert(calls(licensed, samples, states[n - 1], events[n - 1], states[n], actions[n - 1]));
    }
}

/// What a recognition does at each point, from what has happened up to there:
///
/// - With a license the server is started, and without one nothing is.
/// - An empty recording has an empty text, and any other is connected for.
/// - After a failed attempt there is a pause, and after a pause another attempt,
///   until forty have failed; then the server is given up, with the last error.
/// - What was sent is waited on, and messages that say nothing are passed over.
/// - A closed connection has an empty text.
/// - What fails is answered with why.
pub proof fn law_call_goes_on(
    licensed: bool,
    samples: Seq<u32>,
    states: Seq<ReazonCall>,
    events: Seq<CallEvent>,
    actions: Seq<CallAction>,
    i: int,
)
    requires
        is_call_run(licensed, samples, states, events, actions),
        0 <= i < events.len(),
    ensures
        match events[i] {
            CallEvent::Begin => if licensed {
                actions[i] is Start
            } else {
                actions[i] matches CallAction::Answer(Err(e)) && e@
                    == "ライセンスが有効ではありません"@
            },
            CallEvent::Started(Ok(_)) => if samples.len() == 0 {
                actions[i] matches CallAction::Answer(Ok(text)) && text@.len() == 0
            } else {
                actions[i] is Connect
            },
            CallEvent::Started(Err(e)) => actions[i] == CallAction::Answer(Err(e)),
            CallEvent::Connected => actions[i] matches CallAction::Send(bytes) && bytes@.len() == 8 + 4
                * samples.len() && forall|k: int|
                0 <= k < samples.len() ==> bytes@[8 + 4 * k] as int + 256 * bytes@[9 + 4 * k] + 65536
                    * bytes@[10 + 4 * k] + 16777216 * bytes@[11 + 4 * k] == #[trigger] samples[k],
            CallEvent::Refused(_) => actions[i] is Rest,
            CallEvent::Rested => if refusals(events, i) < 40 {
                actions[i] is Connect
            } else {
                actions[i] is GiveUp && events[i - 1] == CallEvent::Refused(states[i].last)
            },
            CallEvent::Sent(Ok(_)) => actions[i] is Await,
            CallEvent::Sent(Err(e)) => actions[i] == CallAction::Answer(Err(e)),
            CallEvent::Received(Incoming::Text(t)) => actions[i] matches CallAction::Close(text)
                && text@ == text_in_answer(parsed_json(trimmed(t@))),
            CallEvent::Received(Incoming::Close) => actions[i] matches CallAction::Close(text)
                && text@.len() == 0,
            CallEvent::Received(Incoming::Ended) => actions[i] matches CallAction::Close(text)
                && text@.len() == 0,
            CallEvent::Received(Incoming::Other) => actions[i] is Await,
            CallEvent::Received(Incoming::Failed(e)) => actions[i] == CallAction::Answer(Err(e)),
        },
{
    lemma_call_counts(licensed, samples, states, events, actions, i);
    assert(calls(licensed, samples, states[i], events[i], states[i + 1], actions[i]));
    if i > 0 {
        assert(calls(licensed, samples, states[i - 1], events[i - 1], states[i], actions[i - 1]));
        assert(leads_to(actions[i - 1], events[i]));
    }
    if let CallAction::Send(bytes) = actions[i] {
        if events[i] is Connected {
            lemma_payload_head(samples);
            assert forall|k: int| 0 <= k < samples.len() implies bytes@[8 + 4 * k] as int + 256
                * bytes@[9 + 4 * k] + 65536 * bytes@[10 + 4 * k] + 16777216 * bytes@[11 + 4 * k]
                == #[trigger] samples[k] by {
                lemma_payload_at(samples, k);
                crate::bytes::lemma_le32_value(samples[k]);
            }
        }
    }
}

/// What is decided at each point is what a call decides.
pub proof fn law_step_calls(
    call: &mut ReazonCall,
    licensed: Licensed,
    samples: Vec<u32>,
    event: CallEvent,
    r: CallAction,
)
    requires
        call_ensures(ReazonCall::step, (call, &licensed, &samples, event), r),
    ensures
        calls(licensed.0, samples@, *old(call), event, *final(call), r),
{
}

/// A text that comes is always answered with what is read out of it.
pub proof fn law_message_is_answered(
    call: &mut ReazonCall,
    licensed: Licensed,
    samples: Vec<u32>,
    t: String,
    s: &str,
    extracted: String,
    r: CallAction,
)
    requires
        s@ == t@,
        call_ensures(reazon_extract_text, (s,), extracted),
        call_ensures(
            ReazonCall::step,
            (call, &licensed, &samples, CallEvent::Received(Incoming::Text(t))),
            r,
        ),
    ensures
        r matches CallAction::Close(text) && text@ == extracted@,
{
}

/// A recognition begins without a failed attempt.
pub proof fn law_new_call(r: ReazonCall)
    requires
        call_ensures(ReazonCall::new, (), r),
    ensures
        r.failures == 0,
        r.last@.len() == 0,
{
}

/// Every recording that fits memory can be sent, and every event of a
/// recognition is taken while fewer than forty attempts have failed.
pub proof fn law_every_recording_is_taken(
    call: &mut ReazonCall,
    licensed: Licensed,
    samples: Vec<u32>,
    event: CallEvent,
)
    requires
        8 + 4 * samples@.len() <= isize::MAX,
    ensures
        call_requires(reazon_payload, (&samples,)),
        old(call).failures < 40 || !(event is Refused) ==> call_requires(
            ReazonCall::step,
            (call, &licensed, &samples, event),
        ),
{
}

}
