use kaikei_voice::license::{
    activate_license, activate_license_at, check_license, check_license_at, check_license_from,
    check_stored_key, load_state, require_license, CheckAction, CheckEvent, LicenseState, Licensed,
    Reply, Verdict, DAY_SECONDS, GRACE_DAYS,
};

const NOW: i64 = 1_750_000_000;

fn state(key: &str, last_ok_at: Option<i64>) -> LicenseState {
    LicenseState { key: key.to_string(), last_ok_at }
}

fn replied(reply: Reply) -> CheckEvent {
    CheckEvent::Replied(reply)
}

fn verdict(action: CheckAction) -> Verdict {
    match action {
        CheckAction::Answer(verdict) => verdict,
        _ => panic!("no answer"),
    }
}

#[test]
fn missing_state_is_empty() {
    let st = load_state(None);
    assert_eq!(st.key, "");
    assert_eq!(st.last_ok_at, None);
    let st = load_state(Some(state("K", Some(5))));
    assert_eq!(st.key, "K");
    assert_eq!(st.last_ok_at, Some(5));
    let st = LicenseState::default();
    assert_eq!(st.key, "");
    assert_eq!(st.last_ok_at, None);
}

#[test]
fn confirmed_activation_opens_and_stores() {
    let mut flag = Licensed(false);
    let v = activate_license_at(&mut flag, "K-1".to_string(), Ok((true, Some("x".into()))), NOW);
    assert!(flag.0);
    assert!(v.result.ok);
    assert_eq!(v.result.error, None);
    assert!(!v.result.offline);
    let st = v.store.unwrap();
    assert_eq!(st.key, "K-1");
    assert_eq!(st.last_ok_at, Some(NOW));
}

#[test]
fn refused_activation_changes_nothing() {
    for before in [false, true] {
        let mut flag = Licensed(before);
        let reply = Ok((false, Some("invalid_key".to_string())));
        let v = activate_license_at(&mut flag, "K".to_string(), reply, NOW);
        assert_eq!(flag.0, before);
        assert!(!v.result.ok);
        assert_eq!(v.result.error.as_deref(), Some("invalid_key"));
        assert!(!v.result.offline);
        assert!(v.store.is_none());
    }
}

#[test]
fn unreachable_activation_tells_the_error() {
    let mut flag = Licensed(false);
    let v = activate_license_at(&mut flag, "K".to_string(), Err("timeout".to_string()), NOW);
    assert!(!flag.0);
    assert!(!v.result.ok);
    assert_eq!(v.result.error.as_deref(), Some("timeout"));
    assert!(v.result.offline);
    assert!(v.store.is_none());
}

#[test]
fn activation_is_stamped_with_the_clock() {
    let mut flag = Licensed(false);
    let before = kaikei_voice::clock::now_unix();
    let v = activate_license(&mut flag, "K".to_string(), Ok((true, None)));
    let after = kaikei_voice::clock::now_unix();
    let at = v.store.unwrap().last_ok_at.unwrap();
    assert!(before <= at && at <= after);
}

#[test]
fn check_without_a_key_is_refused() {
    let mut flag = Licensed(true);
    let r = check_stored_key(&mut flag, &state("", Some(NOW))).unwrap();
    assert!(!flag.0);
    assert!(!r.ok);
    assert_eq!(r.error.as_deref(), Some("no_license"));
    assert!(!r.offline);
}

#[test]
fn check_with_a_key_asks_the_server() {
    let mut flag = Licensed(true);
    assert!(check_stored_key(&mut flag, &state("K", None)).is_none());
    assert!(flag.0);
}

#[test]
fn server_verdict_counts() {
    let mut flag = Licensed(false);
    let v = check_license_at(&mut flag, &state("K", None), Ok((true, None)), NOW);
    assert!(flag.0 && v.result.ok && !v.result.offline);
    let st = v.store.unwrap();
    assert_eq!(st.key, "K");
    assert_eq!(st.last_ok_at, Some(NOW));

    let reply = Ok((false, Some("revoked".to_string())));
    let v = check_license_at(&mut flag, &state("K", Some(NOW)), reply, NOW);
    assert!(!flag.0 && !v.result.ok && !v.result.offline);
    assert_eq!(v.result.error.as_deref(), Some("revoked"));
    assert!(v.store.is_none());
}

#[test]
fn grace_period_is_fourteen_days_less_a_second() {
    let grace = GRACE_DAYS * DAY_SECONDS;
    assert_eq!(grace, 1_209_600);
    let offline = || Err("no route".to_string());

    let mut flag = Licensed(false);
    let v = check_license_at(&mut flag, &state("K", Some(NOW)), offline(), NOW + grace - 1);
    assert!(flag.0 && v.result.ok && v.result.offline);
    assert_eq!(v.result.error, None);
    assert!(v.store.is_none());

    let v = check_license_at(&mut flag, &state("K", Some(NOW)), offline(), NOW + grace);
    assert!(!flag.0 && !v.result.ok && v.result.offline);
    assert_eq!(v.result.error.as_deref(), Some("offline_no_grace"));
    assert!(v.store.is_none());
}

#[test]
fn never_confirmed_has_no_grace() {
    let mut flag = Licensed(true);
    let v = check_license_at(&mut flag, &state("K", None), Err("down".to_string()), NOW);
    assert!(!flag.0 && !v.result.ok);
    assert_eq!(v.result.error.as_deref(), Some("offline_no_grace"));
}

#[test]
fn clock_set_back_is_within_grace() {
    let mut flag = Licensed(false);
    let v = check_license_at(&mut flag, &state("K", Some(NOW)), Err("down".to_string()), 0);
    assert!(flag.0 && v.result.ok);
}

#[test]
fn activation_holds_offline_for_the_grace_period() {
    let mut flag = Licensed(false);
    let v = activate_license_at(&mut flag, "K".to_string(), Ok((true, None)), NOW);
    let mut flag = Licensed(false);
    let later = NOW + 13 * DAY_SECONDS;
    let v = check_license_at(&mut flag, &v.store.unwrap(), Err("down".to_string()), later);
    assert!(flag.0 && v.result.ok);
}

#[test]
fn check_reads_the_clock() {
    let mut flag = Licensed(false);
    let fresh = kaikei_voice::clock::now_unix() - 60;
    let v = verdict(check_license(&mut flag, &state("K", Some(fresh)), replied(Err("down".to_string()))));
    assert!(flag.0 && v.result.ok);
    let v = verdict(check_license(&mut flag, &state("K", Some(0)), replied(Err("down".to_string()))));
    assert!(!flag.0 && !v.result.ok);
}

#[test]
fn absurd_stamp_is_no_verdict() {
    let mut flag = Licensed(true);
    let st = state("K", Some(i64::MIN));
    let down = replied(Err("down".to_string()));
    assert!(matches!(check_license(&mut flag, &st, down), CheckAction::Void));
    assert!(flag.0);
    assert!(verdict(check_license(&mut flag, &st, replied(Ok((true, None))))).result.ok);
}

#[test]
fn commands_are_refused_without_a_license() {
    assert!(require_license(&Licensed(true)).is_ok());
    assert_eq!(
        require_license(&Licensed(false)).unwrap_err(),
        "ライセンスが有効ではありません"
    );
}

#[test]
fn check_is_void_only_where_the_age_overflows() {
    let offline = || replied(Err("down".to_string()));
    let mut flag = Licensed(true);
    let oldest = state("K", Some(i64::MIN));
    let action = check_license_from(&mut flag, &oldest, offline(), 0);
    assert!(matches!(action, CheckAction::Void));
    assert!(flag.0);
    let v = verdict(check_license_from(&mut flag, &oldest, offline(), -1));
    assert!(!flag.0 && !v.result.ok);
    let fresh = state("K", Some(NOW));
    let v = verdict(check_license_from(&mut flag, &fresh, offline(), NOW + 1));
    assert!(flag.0 && v.result.ok);
    let v = verdict(check_license_from(&mut flag, &state("K", None), offline(), i64::MIN));
    assert!(!flag.0 && !v.result.ok);
}

#[test]
fn empty_key_is_answered_whatever_the_server_says() {
    let events = [
        CheckEvent::Begin,
        replied(Ok((true, None))),
        replied(Ok((false, Some("revoked".to_string())))),
        replied(Err("down".to_string())),
    ];
    for event in events {
        let mut flag = Licensed(true);
        let v = verdict(check_license_from(&mut flag, &state("", Some(NOW)), event, NOW));
        assert!(!flag.0);
        assert!(!v.result.ok && !v.result.offline);
        assert_eq!(v.result.error.as_deref(), Some("no_license"));
        assert!(v.store.is_none());
    }
    let mut flag = Licensed(true);
    let v = verdict(check_license(&mut flag, &state("", None), CheckEvent::Begin));
    assert_eq!(v.result.error.as_deref(), Some("no_license"));
    assert!(!flag.0);
}

#[test]
fn check_of_a_key_asks_and_tells() {
    for before in [false, true] {
        let mut flag = Licensed(before);
        let st = state("K", None);
        let action = check_license_from(&mut flag, &st, CheckEvent::Begin, NOW);
        assert!(matches!(action, CheckAction::Ask));
        assert_eq!(flag.0, before);
        let event = replied(Ok((true, None)));
        let v = verdict(check_license_from(&mut flag, &st, event, NOW));
        assert!(flag.0 && v.result.ok);
        let stored = v.store.unwrap();
        assert_eq!((stored.key.as_str(), stored.last_ok_at), ("K", Some(NOW)));
    }
}
