//! Updating the application.
use vstd::prelude::*;

verus! {

/// What happened while an update is being installed.
pub enum UpdateEvent {
    /// The server was asked: there is an update (`true`) or none (`false`).
    Checked(Result<bool, String>),
    /// The update was downloaded and installed.
    Installed(Result<(), String>),
}

/// What to do next.
pub enum UpdateAction {
    /// Download and install the update.
    Install,
    /// Restart into the update.
    Restart,
    /// Answer the command: whether an update was installed.
    Answer(Result<bool, String>),
}

/// Installs an update step by step. Without one, or where something fails, the
/// application runs on; with one, it restarts and never answers.
pub fn install_update(event: UpdateEvent) -> (r: UpdateAction)
    ensures
        match event {
            UpdateEvent::Checked(Ok(true)) => r is Install,
            UpdateEvent::Checked(Ok(false)) => r == UpdateAction::Answer(Ok(false)),
            UpdateEvent::Checked(Err(e)) => r == UpdateAction::Answer(Err(e)),
            UpdateEvent::Installed(Ok(_)) => r is Restart,
            UpdateEvent::Installed(Err(e)) => r == UpdateAction::Answer(Err(e)),
        },
{
    match event {
        UpdateEvent::Checked(Ok(true)) => UpdateAction::Install,
        UpdateEvent::Checked(Ok(false)) => UpdateAction::Answer(Ok(false)),
        UpdateEvent::Checked(Err(e)) => UpdateAction::Answer(Err(e)),
        UpdateEvent::Installed(Ok(_)) => UpdateAction::Restart,
        UpdateEvent::Installed(Err(e)) => UpdateAction::Answer(Err(e)),
    }
}

/// `events` with the `actions` that follow them are one run of the command.
pub open spec fn is_update_run(events: Seq<UpdateEvent>, actions: Seq<UpdateAction>) -> bool {
    &&& events.len() > 0
    &&& actions.len() == events.len()
    &&& events[0] is Checked
    &&& forall|i: int|
        0 <= i < events.len() ==> call_ensures(
            install_update,
            (#[trigger] events[i],),
            actions[i],
        )
    &&& forall|i: int|
        0 < i < events.len() ==> actions[i - 1] is Install && (#[trigger] events[i]) is Installed
}

/// An update that was found is always tried, the application restarts exactly
/// if it was installed, and an update that fails at either point is answered
/// with what went wrong. The command never answers that it installed one.
pub proof fn law_update_run(events: Seq<UpdateEvent>, actions: Seq<UpdateAction>)
    requires
        is_update_run(events, actions),
    ensures
        events.len() <= 2,
        actions[0] is Install <==> events[0] == UpdateEvent::Checked(Ok(true)),
        actions[0] == UpdateAction::Answer(Ok(false)) <==> events[0] == UpdateEvent::Checked(
            Ok(false),
        ),
        actions.last() is Restart <==> (events.len() == 2 && events[1] matches
            UpdateEvent::Installed(Ok(_))),
        events.last() matches UpdateEvent::Checked(Err(e)) ==> actions.last()
            == UpdateAction::Answer(Err(e)),
        events.last() matches UpdateEvent::Installed(Err(e)) ==> actions.last()
            == UpdateAction::Answer(Err(e)),
        actions.last() matches UpdateAction::Answer(Err(e)) ==> events.last()
            == UpdateEvent::Checked(Err(e)) || events.last() == UpdateEvent::Installed(Err(e)),
        actions.last() != UpdateAction::Answer(Ok(true)),
{
    assert(call_ensures(install_update, (events[0],), actions[0]));
    if events.len() > 1 {
        assert(events[1] is Installed);
        assert(call_ensures(install_update, (events[1],), actions[1]));
    }
    if events.len() > 2 {
        assert(events[2] is Installed);
    }
}

}
