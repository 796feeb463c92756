//! Activation and validation of the license, and the flag that commands ask.
use crate::clock::{is_reading, now_unix};
use vstd::prelude::*;

verus! {

/// Days for which a license that was once confirmed holds without the server.
pub const GRACE_DAYS: i64 = 14;

/// Seconds in a day.
pub const DAY_SECONDS: i64 = 86400;

/// The file that keeps the license.
pub const LICENSE_FILE: &'static str = "license.json";

/// The answer to a command that needs a license while there is none.
pub const UNLICENSED: &'static str = "ライセンスが有効ではありません";

/// The error of a check without a stored key.
pub const NO_LICENSE: &'static str = "no_license";

/// The error of a check that neither the server nor the grace period passes.
pub const NO_GRACE: &'static str = "offline_no_grace";

/// Whether the license holds. Commands that need one ask here.
pub struct Licensed(pub bool);

impl Licensed {
    /// No license holds when the application starts.
    pub fn new() -> (r: Licensed)
        ensures
            !r.0,
    {
        Licensed(false)
    }
}

/// The license as it is stored.
pub struct LicenseState {
    pub key: String,
    /// When the server last confirmed the key, in Unix seconds.
    pub last_ok_at: Option<i64>,
}

impl Default for LicenseState {
    /// No key, never confirmed.
    fn default() -> (r: LicenseState)
        ensures
            r.key@.len() == 0,
            r.last_ok_at is None,
    {
        LicenseState { key: String::new(), last_ok_at: None }
    }
}

/// What the user interface is told.
pub struct LicenseResult {
    pub ok: bool,
    pub error: Option<String>,
    pub offline: bool,
}

/// The stored license, or an empty one where none could be read.
pub fn load_state(stored: Option<LicenseState>) -> (r: LicenseState)
    ensures
        match stored {
            Some(st) => r == st,
            None => r.key@.len() == 0 && r.last_ok_at is None,
        },
{
    match stored {
        Some(st) => st,
        None => LicenseState::default(),
    }
}

/// What came of asking the server: its verdict and its error text, or why
/// there was no answer.
pub type Reply = Result<(bool, Option<String>), String>;

/// The server confirmed the key.
pub open spec fn confirmed(reply: Reply) -> bool {
    reply matches Ok(answer) && answer.0
}

/// The license to store after `reply` at `now`: the confirmed key with its
/// time, and nothing if it was not confirmed.
pub open spec fn stores(key: String, reply: Reply, now: i64, stored: Option<LicenseState>) -> bool {
    match stored {
        Some(st) => confirmed(reply) && st.key == key && st.last_ok_at == Some(now),
        None => !confirmed(reply),
    }
}

/// What activation tells: the server's verdict with the server's error, or the
/// failure to reach it.
pub open spec fn activation_result(reply: Reply) -> LicenseResult {
    match reply {
        Ok((true, _)) => LicenseResult { ok: true, error: None, offline: false },
        Ok((false, error)) => LicenseResult { ok: false, error, offline: false },
        Err(e) => LicenseResult { ok: false, error: Some(e), offline: true },
    }
}

/// The outcome of an activation or of a check: what to tell, and the license
/// to store, if one is to be stored.
pub struct Verdict {
    pub result: LicenseResult,
    pub store: Option<LicenseState>,
}

/// Activates `key` after the server's `reply`, at time `now`.
///
/// A confirmed key sets the flag and is stored. Any other reply leaves the
/// flag and the stored license as they were.
pub fn activate_license_at(licensed: &mut Licensed, key: String, reply: Reply, now: i64) -> (r: Verdict)
    ensures
        final(licensed).0 == (old(licensed).0 || confirmed(reply)),
        r.result == activation_result(reply),
        stores(key, reply, now, r.store),
{
    match reply {
        Ok((true, _)) => {
            licensed.0 = true;
            Verdict {
                result: LicenseResult { ok: true, error: None, offline: false },
                store: Some(LicenseState { key, last_ok_at: Some(now) }),
            }
        },
        Ok((false, error)) => Verdict {
            result: LicenseResult { ok: false, error, offline: false },
            store: None,
        },
        Err(e) => Verdict {
            result: LicenseResult { ok: false, error: Some(e), offline: true },
            store: None,
        },
    }
}

/// [`activate_license_at`] at the present time.
pub fn activate_license(licensed: &mut Licensed, key: String, reply: Reply) -> (r: Verdict)
    ensures
        final(licensed).0 == (old(licensed).0 || confirmed(reply)),
        r.result == activation_result(reply),
        exists|now: i64| is_reading(now) && #[trigger] stores(key, reply, now, r.store),
{
    let now: i64 = now_unix();
    activate_license_at(licensed, key, reply, now)
}

/// The last confirmation is less than the grace period old.
pub open spec fn within_grace(last_ok_at: Option<i64>, now: i64) -> bool {
    last_ok_at matches Some(t) && now - t < GRACE_DAYS * DAY_SECONDS
}

/// The age of the last confirmation is a 64-bit number.
pub open spec fn age_fits(last_ok_at: Option<i64>, now: i64) -> bool {
    last_ok_at matches Some(t) ==> i64::MIN <= now - t <= i64::MAX
}

/// What a check without a stored key tells.
pub open spec fn tells_no_license(result: LicenseResult) -> bool {
    &&& !result.ok
    &&& !result.offline
    &&& result.error matches Some(e) && e@ == NO_LICENSE@
}

/// What a check of a stored key tells after the server's `reply` at `now`.
pub open spec fn tells_checked(
    last_ok_at: Option<i64>,
    reply: Reply,
    now: i64,
    result: LicenseResult,
) -> bool {
    match reply {
        Ok((true, _)) => result == (LicenseResult { ok: true, error: None, offline: false }),
        Ok((false, error)) => result == (LicenseResult { ok: false, error, offline: false }),
        Err(_) => {
            &&& result.offline
            &&& result.ok == within_grace(last_ok_at, now)
            &&& result.error is None == result.ok
            &&& result.error matches Some(e) ==> e@ == NO_GRACE@
        },
    }
}

/// The first half of a check at start-up: without a stored key the flag is cleared
/// and the check is over; with one, the server is to be asked (`None`).
pub fn check_stored_key(licensed: &mut Licensed, st: &LicenseState) -> (r: Option<LicenseResult>)
    ensures
        match r {
            Some(result) => st.key@.len() == 0 && tells_no_license(result) && !final(licensed).0,
            None => st.key@.len() > 0 && final(licensed).0 == old(licensed).0,
        },
{
    if st.key.as_str().is_empty() {
        licensed.0 = false;
        Some(LicenseResult { ok: false, error: Some(NO_LICENSE.to_string()), offline: false })
    } else {
        None
    }
}

/// The second half of a check, after the server's `reply`, at time `now`.
///
/// The server's verdict counts. Without one the license holds within the grace
/// period after the last confirmation. The flag is set to what is told.
pub fn check_license_at(licensed: &mut Licensed, st: &LicenseState, reply: Reply, now: i64) -> (r:
    Verdict)
    requires
        st.key@.len() > 0,
        reply is Err ==> age_fits(st.last_ok_at, now),
    ensures
        final(licensed).0 == r.result.ok,
        tells_checked(st.last_ok_at, reply, now, r.result),
        stores(st.key, reply, now, r.store),
{
    match reply {
        Ok((true, _)) => {
            licensed.0 = true;
            Verdict {
                result: LicenseResult { ok: true, error: None, offline: false },
                store: Some(LicenseState { key: st.key.clone(), last_ok_at: Some(now) }),
            }
        },
        Ok((false, error)) => {
            licensed.0 = false;
            Verdict { result: LicenseResult { ok: false, error, offline: false }, store: None }
        },
        Err(_) => {
            let within: bool = match st.last_ok_at {
                Some(t) => now - t < GRACE_DAYS * DAY_SECONDS,
                None => false,
            };
            licensed.0 = within;
            let error: Option<String> = if within {
                None
            } else {
                Some(NO_GRACE.to_string())
            };
            Verdict { result: LicenseResult { ok: within, error, offline: true }, store: None }
        },
    }
}

/// What happened during a check.
pub enum CheckEvent {
    /// The check was asked for.
    Begin,
    /// The server was asked.
    Replied(Reply),
}

/// What to do next.
pub enum CheckAction {
    /// Ask the server to validate the stored key.
    Ask,
    /// The check is over: tell the result, and store the license if one is given.
    Answer(Verdict),
    /// There is no answer: the stored time is so far off that its age is no
    /// 64-bit number.
    Void,
}

/// The action that follows an event of a check of `st` at time `now`, with the
/// flag before and after it.
pub open spec fn checks(
    st: LicenseState,
    event: CheckEvent,
    now: i64,
    before: bool,
    after: bool,
    action: CheckAction,
) -> bool {
    if st.key@.len() == 0 {
        &&& !after
        &&& action matches CheckAction::Answer(verdict) && tells_no_license(verdict.result)
            && verdict.store is None
    } else {
        match event {
            CheckEvent::Begin => action is Ask && after == before,
            CheckEvent::Replied(reply) => match action {
                CheckAction::Ask => false,
                CheckAction::Answer(verdict) => {
                    &&& reply is Err ==> age_fits(st.last_ok_at, now)
                    &&& after == verdict.result.ok
                    &&& tells_checked(st.last_ok_at, reply, now, verdict.result)
                    &&& stores(st.key, reply, now, verdict.store)
                },
                CheckAction::Void => {
                    &&& reply is Err
                    &&& !age_fits(st.last_ok_at, now)
                    &&& after == before
                },
            },
        }
    }
}

/// Checks the stored license `st` step by step, at time `now`. Without a key
/// the check is over before the server is asked.
pub fn check_license_from(
    licensed: &mut Licensed,
    st: &LicenseState,
    event: CheckEvent,
    now: i64,
) -> (r: CheckAction)
    ensures
        checks(*st, event, now, old(licensed).0, final(licensed).0, r),
{
    if let Some(result) = check_stored_key(licensed, st) {
        return CheckAction::Answer(Verdict { result, store: None });
    }
    match event {
        CheckEvent::Begin => CheckAction::Ask,
        CheckEvent::Replied(reply) => {
            if reply.is_err() {
                if let Some(t) = st.last_ok_at {
                    if now.checked_sub(t).is_none() {
                        return CheckAction::Void;
                    }
                }
            }
            CheckAction::Answer(check_license_at(licensed, st, reply, now))
        },
    }
}

/// [`check_license_from`] at the present time.
pub fn check_license(licensed: &mut Licensed, st: &LicenseState, event: CheckEvent) -> (r:
    CheckAction)
    ensures
        exists|now: i64|
            is_reading(now) && #[trigger] checks(
                *st,
                event,
                now,
                old(licensed).0,
                final(licensed).0,
                r,
            ),
{
    let now: i64 = now_unix();
    check_license_from(licensed, st, event, now)
}

/// Lets a command that needs a license go on, or answers that there is none.
pub fn require_license(licensed: &Licensed) -> (r: Result<(), String>)
    ensures
        match r {
            Ok(()) => licensed.0,
            Err(e) => !licensed.0 && e@ == UNLICENSED@,
        },
{
    if licensed.0 {
        Ok(())
    } else {
        Err(UNLICENSED.to_string())
    }
}

/// A confirmed key survives without the server for the grace period and no
/// longer: what was stored when `key` was confirmed at `then` passes an offline
/// check at `now` exactly if less than the grace period lies between.
pub proof fn law_confirmed_key_holds_for_grace_period(
    key: String,
    reply: Reply,
    then: i64,
    stored: LicenseState,
    offline: Reply,
    now: i64,
    result: LicenseResult,
)
    requires
        stores(key, reply, then, Some(stored)),
        offline is Err,
        tells_checked(stored.last_ok_at, offline, now, result),
    ensures
        stored.key == key,
        result.ok <==> now - then < GRACE_DAYS * DAY_SECONDS,
{
}

/// Without the server a license only ever lapses as time goes by: a check that
/// passes offline would have passed offline at any earlier time too.
pub proof fn law_grace_only_runs_out(
    last_ok_at: Option<i64>,
    first: Reply,
    earlier: i64,
    first_result: LicenseResult,
    second: Reply,
    later: i64,
    second_result: LicenseResult,
)
    requires
        first is Err,
        second is Err,
        earlier <= later,
        tells_checked(last_ok_at, first, earlier, first_result),
        tells_checked(last_ok_at, second, later, second_result),
    ensures
        second_result.ok ==> first_result.ok,
{
}

/// The server has the last word: where it answers, neither the time nor the
/// last confirmation matters, and what is told is what activation would tell.
pub proof fn law_answer_overrides_grace(
    last_ok_at: Option<i64>,
    reply: Reply,
    now: i64,
    result: LicenseResult,
)
    requires
        reply is Ok,
        tells_checked(last_ok_at, reply, now, result),
    ensures
        result == activation_result(reply),
        result.ok <==> confirmed(reply),
{
}

/// Only a confirmation is ever stored, and it is stored with its time: neither
/// a refusal nor a missing answer touches the stored license.
pub proof fn law_only_confirmations_are_stored(
    key: String,
    reply: Reply,
    now: i64,
    store: Option<LicenseState>,
)
    requires
        stores(key, reply, now, store),
    ensures
        store is Some <==> confirmed(reply),
        store matches Some(st) ==> st.key == key && within_grace(st.last_ok_at, now),
{
}

/// `events` at the times `nows`, with the `actions` that follow them and the
/// `flags` between them, are one check of `st`.
pub open spec fn is_check_run(
    st: LicenseState,
    flags: Seq<bool>,
    events: Seq<CheckEvent>,
    nows: Seq<i64>,
    actions: Seq<CheckAction>,
) -> bool {
    &&& events.len() > 0
    &&& flags.len() == events.len() + 1
    &&& nows.len() == events.len()
    &&& actions.len() == events.len()
    &&& events[0] is Begin
    &&& forall|i: int|
        0 <= i < events.len() ==> checks(
            st,
            #[trigger] events[i],
            nows[i],
            flags[i],
            flags[i + 1],
            actions[i],
        )
    &&& forall|i: int|
        0 < i < events.len() ==> actions[i - 1] is Ask && (#[trigger] events[i]) is Replied
}

/// Without a key the server is never asked: the check is over at once, with
/// `no_license`, nothing stored and the flag cleared.
pub proof fn law_empty_key_is_never_asked_about(
    st: LicenseState,
    flags: Seq<bool>,
    events: Seq<CheckEvent>,
    nows: Seq<i64>,
    actions: Seq<CheckAction>,
)
    requires
        is_check_run(st, flags, events, nows, actions),
        st.key@.len() == 0,
    ensures
        events.len() == 1,
        actions[0] matches CheckAction::Answer(verdict) && tells_no_license(verdict.result)
            && verdict.store is None,
        !flags[1],
{
    assert(checks(st, events[0], nows[0], flags[0], flags[1], actions[0]));
    if events.len() > 1 {
        assert(events[1] is Replied);
    }
}

/// A check that is answered leaves the flag at what is told, and with a key it
/// is answered only after the server was asked.
pub proof fn law_check_run(
    st: LicenseState,
    flags: Seq<bool>,
    events: Seq<CheckEvent>,
    nows: Seq<i64>,
    actions: Seq<CheckAction>,
)
    requires
        is_check_run(st, flags, events, nows, actions),
    ensures
        events.len() <= 2,
        actions.last() matches CheckAction::Answer(verdict) ==> flags.last() == verdict.result.ok
            && (st.key@.len() > 0 ==> actions[0] is Ask && events.len() == 2),
{
    assert(checks(st, events[0], nows[0], flags[0], flags[1], actions[0]));
    if events.len() > 1 {
        assert(checks(st, events[1], nows[1], flags[1], flags[2], actions[1]));
    }
    if events.len() > 2 {
        assert(events[2] is Replied);
    }
}

/// An activation passes exactly if the server confirms the key. A key that
/// passes is stored with its time and sets the flag; one that does not leaves
/// both as they were and is told the server's error or, without an answer, why
/// there was none.
pub proof fn law_activation(
    licensed: &mut Licensed,
    key: String,
    reply: Reply,
    now: i64,
    r: Verdict,
)
    requires
        call_ensures(activate_license_at, (licensed, key, reply, now), r),
    ensures
        r.result.ok <==> (reply matches Ok(answer) && answer.0),
        r.result.offline <==> reply is Err,
        final(licensed).0 <==> old(licensed).0 || r.result.ok,
        r.result.ok ==> r.result.error is None && r.store == Some(
            LicenseState { key, last_ok_at: Some(now) },
        ),
        !r.result.ok ==> r.store is None && r.result.error == (match reply {
            Ok(answer) => answer.1,
            Err(e) => Some(e),
        }),
{
}

/// An activation now is an activation at the time that the clock shows.
pub proof fn law_activation_now(licensed: &mut Licensed, key: String, reply: Reply, r: Verdict)
    requires
        call_ensures(activate_license, (licensed, key, reply), r),
    ensures
        r.result.ok <==> (reply matches Ok(answer) && answer.0),
        r.result.offline <==> reply is Err,
        final(licensed).0 <==> old(licensed).0 || r.result.ok,
        r.result.ok ==> r.result.error is None && (r.store matches Some(st) && st.key == key
            && (st.last_ok_at matches Some(now) && is_reading(now))),
        !r.result.ok ==> r.store is None && r.result.error == (match reply {
            Ok(answer) => answer.1,
            Err(e) => Some(e),
        }),
{
    let now = choose|now: i64| is_reading(now) && #[trigger] stores(key, reply, now, r.store);
    assert(stores(key, reply, now, r.store));
}

/// Without a key every step of a check gives the same answer, whatever the
/// server may say: there is no license, and nothing is stored.
pub proof fn law_check_without_key(
    licensed: &mut Licensed,
    st: LicenseState,
    event: CheckEvent,
    now: i64,
    r: CheckAction,
)
    requires
        call_ensures(check_license_from, (licensed, &st, event, now), r),
        st.key@.len() == 0,
    ensures
        !final(licensed).0,
        r matches CheckAction::Answer(verdict) && verdict.store is None && !verdict.result.ok
            && !verdict.result.offline && (verdict.result.error matches Some(e) && e@
            == "no_license"@),
{
}

/// A check of a key begins with the server, and until it has answered the flag
/// stays.
pub proof fn law_check_begins(licensed: &mut Licensed, st: LicenseState, now: i64, r: CheckAction)
    requires
        call_ensures(check_license_from, (licensed, &st, CheckEvent::Begin, now), r),
        st.key@.len() > 0,
    ensures
        r is Ask,
        final(licensed).0 == old(licensed).0,
{
}

/// Where the server answers, its verdict is what is told and what the flag is
/// set to, whatever was stored and whatever time it is. A confirmed key is
/// stored with the time of the check, and a refused one is not.
pub proof fn law_check_follows_the_server(
    licensed: &mut Licensed,
    st: LicenseState,
    ok: bool,
    error: Option<String>,
    now: i64,
    r: CheckAction,
)
    requires
        call_ensures(
            check_license_from,
            (licensed, &st, CheckEvent::Replied(Ok((ok, error))), now),
            r,
        ),
        st.key@.len() > 0,
    ensures
        final(licensed).0 == ok,
        r matches CheckAction::Answer(verdict) && verdict.result.ok == ok && !verdict.result.offline
            && if ok {
            verdict.result.error is None && verdict.store == Some(
                LicenseState { key: st.key, last_ok_at: Some(now) },
            )
        } else {
            verdict.result.error == error && verdict.store is None
        },
{
}

/// Where the server cannot be reached, a key passes exactly if it was confirmed
/// less than fourteen days before. What is told and the flag agree, and nothing
/// is stored. There is no answer only where the age of the confirmation is no
/// 64-bit number.
pub proof fn law_check_offline(
    licensed: &mut Licensed,
    st: LicenseState,
    why: String,
    now: i64,
    r: CheckAction,
)
    requires
        call_ensures(
            check_license_from,
            (licensed, &st, CheckEvent::Replied(Err(why)), now),
            r,
        ),
        st.key@.len() > 0,
    ensures
        match r {
            CheckAction::Answer(verdict) => {
                let passes = match st.last_ok_at {
                    Some(t) => now - t < 14 * 24 * 60 * 60,
                    None => false,
                };
                &&& verdict.result.ok == passes
                &&& final(licensed).0 == passes
                &&& verdict.result.offline
                &&& verdict.store is None
                &&& passes ==> verdict.result.error is None
                &&& !passes ==> (verdict.result.error matches Some(e) && e@ == "offline_no_grace"@)
            },
            CheckAction::Void => st.last_ok_at matches Some(t) && final(licensed).0 == old(
                licensed,
            ).0 && !(-0x8000_0000_0000_0000 <= now - t < 0x8000_0000_0000_0000),
            CheckAction::Ask => false,
        },
        st.last_ok_at matches Some(t) ==> -0x8000_0000_0000_0000 <= now - t < 0x8000_0000_0000_0000
            ==> r is Answer,
{
}

/// A check now is a check at the time that the clock shows.
pub proof fn law_check_now(
    licensed: &mut Licensed,
    st: LicenseState,
    event: CheckEvent,
    r: CheckAction,
)
    requires
        call_ensures(check_license, (licensed, &st, event), r),
    ensures
        exists|now: i64|
            is_reading(now) && #[trigger] checks(
                st,
                event,
                now,
                old(licensed).0,
                final(licensed).0,
                r,
            ),
{
}

/// A whole check of a key that ends without the server passes exactly if the
/// key was confirmed less than fourteen days before, and then the flag is set;
/// otherwise the flag is cleared.
pub proof fn law_whole_check_offline(
    st: LicenseState,
    flags: Seq<bool>,
    events: Seq<CheckEvent>,
    nows: Seq<i64>,
    actions: Seq<CheckAction>,
)
    requires
        is_check_run(st, flags, events, nows, actions),
        st.key@.len() > 0,
        events.last() matches CheckEvent::Replied(Err(_)),
    ensures
        actions.last() matches CheckAction::Answer(verdict) ==> {
            &&& verdict.result.ok <==> (st.last_ok_at matches Some(t) && nows.last() - t < 14
                * 86400)
            &&& flags.last() <==> (st.last_ok_at matches Some(t) && nows.last() - t < 14 * 86400)
            &&& verdict.result.offline
            &&& verdict.result.error is Some <==> !verdict.result.ok
            &&& verdict.result.error matches Some(e) ==> e@ == "offline_no_grace"@
            &&& verdict.store is None
        },
        actions.last() is Answer || actions.last() is Void,
        actions.last() is Void ==> (st.last_ok_at matches Some(t) && !(i64::MIN <= nows.last() - t
            <= i64::MAX)) && flags.last() == flags[0],
{
    law_check_run(st, flags, events, nows, actions);
    assert(checks(st, events[0], nows[0], flags[0], flags[1], actions[0]));
    assert(checks(st, events[1], nows[1], flags[1], flags[2], actions[1]));
}

/// A whole check of a key that the server answers ends as the server says: the
/// flag and what is told are its verdict, and a confirmed key, and no other, is
/// stored anew with the time of the answer.
pub proof fn law_whole_check_answered(
    st: LicenseState,
    flags: Seq<bool>,
    events: Seq<CheckEvent>,
    nows: Seq<i64>,
    actions: Seq<CheckAction>,
)
    requires
        is_check_run(st, flags, events, nows, actions),
        st.key@.len() > 0,
        events.last() matches CheckEvent::Replied(Ok(_)),
    ensures
        events.last() matches CheckEvent::Replied(Ok(answer)) && (actions.last() matches
            CheckAction::Answer(verdict) && {
            &&& verdict.result.ok == answer.0
            &&& flags.last() == answer.0
            &&& !verdict.result.offline
            &&& answer.0 ==> verdict.result.error is None && verdict.store == Some(
                LicenseState { key: st.key, last_ok_at: Some(nows.last()) },
            )
            &&& !answer.0 ==> verdict.result.error == answer.1 && verdict.store is None
        }),
{
    law_check_run(st, flags, events, nows, actions);
    assert(checks(st, events[0], nows[0], flags[0], flags[1], actions[0]));
    assert(checks(st, events[1], nows[1], flags[1], flags[2], actions[1]));
}

/// A key that was activated works offline for fourteen days and no longer: what
/// was stored at `then` passes a check without the server at `now` exactly if
/// less than that lies between.
pub proof fn law_activated_key_works_offline(
    before: &mut Licensed,
    key: String,
    error: Option<String>,
    then: i64,
    activated: Verdict,
    licensed: &mut Licensed,
    why: String,
    now: i64,
    checked: CheckAction,
)
    requires
        key@.len() > 0,
        call_ensures(activate_license_at, (before, key, Ok((true, error)), then), activated),
        activated.store matches Some(st) && call_ensures(
            check_license_from,
            (licensed, &st, CheckEvent::Replied(Err(why)), now),
            checked,
        ),
        -0x8000_0000_0000_0000 <= now - then < 0x8000_0000_0000_0000,
    ensures
        checked matches CheckAction::Answer(verdict) && (verdict.result.ok <==> now - then < 1209600),
        final(licensed).0 <==> now - then < 1209600,
{
}

/// The halves of a check: the first ends it exactly where there is no key, and
/// the second, of a license with a key and without the server, passes exactly
/// within fourteen days.
pub proof fn law_halves_of_a_check(
    first: &mut Licensed,
    st: LicenseState,
    over: Option<LicenseResult>,
    second: &mut Licensed,
    keyed: LicenseState,
    why: String,
    now: i64,
    verdict: Verdict,
)
    requires
        call_ensures(check_stored_key, (first, &st), over),
        call_ensures(check_license_at, (second, &keyed, Err(why), now), verdict),
        keyed.key@.len() > 0,
        keyed.last_ok_at matches Some(t) ==> i64::MIN <= now - t <= i64::MAX,
    ensures
        over is Some <==> st.key@.len() == 0,
        over matches Some(result) ==> !result.ok && !result.offline && !final(first).0 && (
        result.error matches Some(e) && e@ == "no_license"@),
        over is None ==> final(first).0 == old(first).0,
        verdict.result.ok <==> (keyed.last_ok_at matches Some(t) && now - t < 1209600),
        final(second).0 == verdict.result.ok,
        verdict.result.offline,
        verdict.store is None,
        verdict.result.ok ==> verdict.result.error is None,
        !verdict.result.ok ==> (verdict.result.error matches Some(e) && e@ == "offline_no_grace"@),
{
}

/// The second half of a check that the server answers is what the server says.
pub proof fn law_answered_half_of_a_check(
    licensed: &mut Licensed,
    st: LicenseState,
    ok: bool,
    error: Option<String>,
    now: i64,
    verdict: Verdict,
)
    requires
        call_ensures(check_license_at, (licensed, &st, Ok((ok, error)), now), verdict),
        st.key@.len() > 0,
    ensures
        verdict.result.ok == ok,
        final(licensed).0 == ok,
        !verdict.result.offline,
        ok ==> verdict.result.error is None && verdict.store == Some(
            LicenseState { key: st.key, last_ok_at: Some(now) },
        ),
        !ok ==> verdict.result.error == error && verdict.store is None,
{
}

/// A license that can be read is the one that is used, and without one there is
/// no key, so that a check of it is over at once.
pub proof fn law_stored_license_is_used(stored: Option<LicenseState>, r: LicenseState)
    requires
        call_ensures(load_state, (stored,), r),
    ensures
        stored matches Some(st) ==> r.key@ == st.key@ && r.last_ok_at == st.last_ok_at,
        stored is None ==> r.key@.len() == 0 && r.last_ok_at is None,
{
}

/// A command that needs a license goes on exactly if the flag is set.
pub proof fn law_commands_need_the_flag(licensed: Licensed, r: Result<(), String>)
    requires
        call_ensures(require_license, (&licensed,), r),
    ensures
        r is Ok <==> licensed.0,
        r matches Err(e) ==> e@ == "ライセンスが有効ではありません"@,
{
}

/// The application starts without a license.
pub proof fn law_starts_unlicensed(r: Licensed)
    requires
        call_ensures(Licensed::new, (), r),
    ensures
        !r.0,
{
}

/// Every license, every reply and every time can be activated and checked: no
/// step turns anything away but by its answer.
pub proof fn law_every_license_is_checked(
    licensed: &mut Licensed,
    key: String,
    st: LicenseState,
    reply: Reply,
    event: CheckEvent,
    now: i64,
)
    ensures
        call_requires(activate_license_at, (licensed, key, reply, now)),
        call_requires(activate_license, (licensed, key, reply)),
        call_requires(check_license_from, (licensed, &st, event, now)),
        call_requires(check_license, (licensed, &st, event)),
        call_requires(check_stored_key, (licensed, &st)),
        st.key@.len() > 0 && (reply is Ok || (st.last_ok_at matches Some(t) ==> i64::MIN <= now - t
            <= i64::MAX)) ==> call_requires(check_license_at, (licensed, &st, reply, now)),
{
}

}
