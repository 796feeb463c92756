//! What holds from the start of the application on.
use crate::device::DEVICE_ID_FILE;
use crate::download::{REAZON_ARCHIVE_FILE, WHISPER_FILE, WHISPER_PART_FILE};
use crate::export::{saves, SaveAction, SaveEvent};
use crate::license::{
    checks, confirmed, CheckAction, CheckEvent, LicenseState, Reply, LICENSE_FILE, UNLICENSED,
};
use crate::model::REAZON_DIR;
use crate::reazon::{calls, CallAction, CallEvent, ReazonCall};
use crate::whisper::{
    transcribes, transcribes_chunk, ChunkAction, ChunkEvent, TranscribeAction, TranscribeEvent,
    TranscribeJob, RECORDING_FILE,
};
use vstd::prelude::*;

verus! {

/// What moves the license flag.
pub ghost enum LicenseStep {
    /// A key was activated, with this reply of the server.
    Activation { reply: Reply },
    /// A check went one event further.
    Check { st: LicenseState, event: CheckEvent, now: i64, action: CheckAction },
}

/// The flag before and after a step.
pub open spec fn moves_flag(before: bool, step: LicenseStep, after: bool) -> bool {
    match step {
        LicenseStep::Activation { reply } => after == (before || confirmed(reply)),
        LicenseStep::Check { st, event, now, action } => checks(
            st,
            event,
            now,
            before,
            after,
            action,
        ),
    }
}

/// The step is a confirmation or a check that passes.
pub open spec fn grants(step: LicenseStep) -> bool {
    match step {
        LicenseStep::Activation { reply } => confirmed(reply),
        LicenseStep::Check { action, .. } => action matches CheckAction::Answer(verdict)
            && verdict.result.ok,
    }
}

/// `flags` is how the license flag goes through `steps` from the start of the
/// application on, where it is off as [`crate::license::Licensed::new`] makes it.
pub open spec fn is_session(flags: Seq<bool>, steps: Seq<LicenseStep>) -> bool {
    &&& flags.len() == steps.len() + 1
    &&& !flags[0]
    &&& forall|i: int|
        0 <= i < steps.len() ==> moves_flag(flags[i], #[trigger] steps[i], flags[i + 1])
}

proof fn lemma_flag_stays_off(flags: Seq<bool>, steps: Seq<LicenseStep>, n: int)
    requires
        is_session(flags, steps),
        0 <= n <= steps.len(),
        forall|i: int| 0 <= i < n ==> !grants(#[trigger] steps[i]),
    ensures
        !flags[n],
    decreases n,
{
    if n > 0 {
        lemma_flag_stays_off(flags, steps, n - 1);
        assert(moves_flag(flags[n - 1], steps[n - 1], flags[n]));
        assert(!grants(steps[n - 1]));
    }
}

/// From the start of the application on, until a key is confirmed or a check
/// passes, saving and the three ways of recognition are refused for want of a
/// license.
pub proof fn law_refused_until_granted(
    flags: Seq<bool>,
    steps: Seq<LicenseStep>,
    n: int,
    save: SaveAction,
    job: TranscribeJob,
    model_present: bool,
    transcribe: TranscribeAction,
    samples: Seq<i16>,
    prompt: Seq<char>,
    chunk: ChunkAction,
    bits: Seq<u32>,
    before: ReazonCall,
    after: ReazonCall,
    call: CallAction,
)
    requires
        is_session(flags, steps),
        0 <= n <= steps.len(),
        forall|i: int| 0 <= i < n ==> !grants(#[trigger] steps[i]),
    ensures
        saves(flags[n], SaveEvent::Begin, save) ==> (save matches SaveAction::Answer(Err(e)) && e@
            == UNLICENSED@),
        transcribes(flags[n], job, TranscribeEvent::Begin { model_present }, transcribe) ==> (
        transcribe matches TranscribeAction::Answer(Err(e)) && e@ == UNLICENSED@),
        transcribes_chunk(flags[n], samples, prompt, ChunkEvent::Begin, chunk) ==> (
        chunk matches ChunkAction::Answer(Err(e)) && e@ == UNLICENSED@),
        calls(flags[n], bits, before, CallEvent::Begin, after, call) ==> (
        call matches CallAction::Answer(Err(e)) && e@ == UNLICENSED@),
{
    lemma_flag_stays_off(flags, steps, n);
}

/// The files that the application keeps beside each other, in the order of its
/// modules.
pub open spec fn kept_files() -> Seq<Seq<char>> {
    seq![
        DEVICE_ID_FILE@,
        WHISPER_FILE@,
        WHISPER_PART_FILE@,
        REAZON_ARCHIVE_FILE@,
        LICENSE_FILE@,
        REAZON_DIR@,
        RECORDING_FILE@,
    ]
}

/// No file of the application is written over another.
pub proof fn law_kept_files_differ(i: int, j: int)
    requires
        0 <= i < j < kept_files().len(),
    ensures
        kept_files()[i] != kept_files()[j],
{
    reveal_strlit("device_id.txt");
    reveal_strlit("ggml-small.bin");
    reveal_strlit("ggml-small.bin.part");
    reveal_strlit("reazon.tar.bz2");
    reveal_strlit("license.json");
    reveal_strlit("reazonspeech-ja");
    reveal_strlit("rec.wav");
    assert(DEVICE_ID_FILE@.len() == 13 && WHISPER_PART_FILE@.len() == 19 && LICENSE_FILE@.len() == 12
        && REAZON_DIR@.len() == 15 && RECORDING_FILE@.len() == 7);
    assert(WHISPER_FILE@.len() == 14 && WHISPER_FILE@[0] == 'g');
    assert(REAZON_ARCHIVE_FILE@.len() == 14 && REAZON_ARCHIVE_FILE@[0] == 'r');
}

}
