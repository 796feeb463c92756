use kaikei_voice::export::{save_file, SaveAction, SaveEvent};
use kaikei_voice::license::Licensed;
use kaikei_voice::update::{install_update, UpdateAction, UpdateEvent};

fn answer(action: SaveAction) -> Result<bool, String> {
    match action {
        SaveAction::Answer(r) => r,
        _ => panic!("no answer"),
    }
}

#[test]
fn unlicensed_save_is_refused_before_asking() {
    assert_eq!(
        answer(save_file(&Licensed(false), SaveEvent::Begin)),
        Err("ライセンスが有効ではありません".to_string())
    );
}

#[test]
fn chosen_file_is_written() {
    let on = Licensed(true);
    assert!(matches!(save_file(&on, SaveEvent::Begin), SaveAction::Ask));
    assert!(matches!(save_file(&on, SaveEvent::Chosen(Ok(true))), SaveAction::Write));
    assert_eq!(answer(save_file(&on, SaveEvent::Written(Ok(())))), Ok(true));
}

#[test]
fn cancelled_dialog_saves_nothing() {
    assert_eq!(answer(save_file(&Licensed(true), SaveEvent::Chosen(Ok(false)))), Ok(false));
}

#[test]
fn save_errors_are_answered() {
    let on = Licensed(true);
    assert_eq!(
        answer(save_file(&on, SaveEvent::Chosen(Err("closed".to_string())))),
        Err("closed".to_string())
    );
    assert_eq!(
        answer(save_file(&on, SaveEvent::Written(Err("read-only".to_string())))),
        Err("read-only".to_string())
    );
}

fn update_answer(action: UpdateAction) -> Result<bool, String> {
    match action {
        UpdateAction::Answer(r) => r,
        _ => panic!("no answer"),
    }
}

#[test]
fn update_is_installed_then_restarted() {
    assert!(matches!(install_update(UpdateEvent::Checked(Ok(true))), UpdateAction::Install));
    assert!(matches!(install_update(UpdateEvent::Installed(Ok(()))), UpdateAction::Restart));
}

#[test]
fn no_update_answers_false() {
    assert_eq!(update_answer(install_update(UpdateEvent::Checked(Ok(false)))), Ok(false));
}

#[test]
fn update_errors_are_answered() {
    assert_eq!(
        update_answer(install_update(UpdateEvent::Checked(Err("net".to_string())))),
        Err("net".to_string())
    );
    assert_eq!(
        update_answer(install_update(UpdateEvent::Installed(Err("sig".to_string())))),
        Err("sig".to_string())
    );
}
