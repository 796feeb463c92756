//! Saving a file where the user chooses.
use crate::license::{require_license, Licensed, UNLICENSED};
use vstd::prelude::*;

verus! {

/// What happened while a file is being saved.
pub enum SaveEvent {
    /// The command was given.
    Begin,
    /// The dialog is over: a place was chosen (`true`) or none was (`false`).
    Chosen(Result<bool, String>),
    /// The contents were written to the chosen place.
    Written(Result<(), String>),
}

/// What to do next.
pub enum SaveAction {
    /// Ask the user for a place.
    Ask,
    /// Write the contents to the chosen place.
    Write,
    /// Answer the command: whether the file was saved.
    Answer(Result<bool, String>),
}

/// The action that follows an event.
pub open spec fn saves(licensed: bool, event: SaveEvent, action: SaveAction) -> bool {
    match event {
        SaveEvent::Begin => if licensed {
            action is Ask
        } else {
            action matches SaveAction::Answer(Err(e)) && e@ == UNLICENSED@
        },
        SaveEvent::Chosen(Ok(true)) => action is Write,
        SaveEvent::Chosen(Ok(false)) => action == SaveAction::Answer(Ok(false)),
        SaveEvent::Chosen(Err(e)) => action == SaveAction::Answer(Err(e)),
        SaveEvent::Written(Ok(_)) => action == SaveAction::Answer(Ok(true)),
        SaveEvent::Written(Err(e)) => action == SaveAction::Answer(Err(e)),
    }
}

/// Saves a file step by step. Without a license the command is refused before
/// the user is asked.
pub fn save_file(licensed: &Licensed, event: SaveEvent) -> (r: SaveAction)
    ensures
        saves(licensed.0, event, r),
{
    match event {
        SaveEvent::Begin => match require_license(licensed) {
            Ok(()) => SaveAction::Ask,
            Err(e) => SaveAction::Answer(Err(e)),
        },
        SaveEvent::Chosen(Ok(true)) => SaveAction::Write,
        SaveEvent::Chosen(Ok(false)) => SaveAction::Answer(Ok(false)),
        SaveEvent::Chosen(Err(e)) => SaveAction::Answer(Err(e)),
        SaveEvent::Written(Ok(_)) => SaveAction::Answer(Ok(true)),
        SaveEvent::Written(Err(e)) => SaveAction::Answer(Err(e)),
    }
}

/// `events` with the `actions` that follow them are one run of the command:
/// it begins, and each later event is what the action before it leads to.
pub open spec fn is_save_run(
    licensed: bool,
    events: Seq<SaveEvent>,
    actions: Seq<SaveAction>,
) -> bool {
    &&& events.len() == actions.len()
    &&& events.len() > 0
    &&& events[0] is Begin
    &&& forall|i: int|
        0 <= i < events.len() ==> saves(licensed, #[trigger] events[i], actions[i])
    &&& forall|i: int|
        0 < i < events.len() ==> match actions[i - 1] {
            SaveAction::Ask => (#[trigger] events[i]) is Chosen,
            SaveAction::Write => events[i] is Written,
            SaveAction::Answer(_) => false,
        }
}

/// Nothing is asked or written without a license, and success is answered only
/// once the contents are written.
pub proof fn law_save_run(licensed: bool, events: Seq<SaveEvent>, actions: Seq<SaveAction>)
    requires
        is_save_run(licensed, events, actions),
    ensures
        events.len() <= 3,
        !licensed ==> events.len() == 1 && actions[0] is Answer,
        actions.last() == SaveAction::Answer(Ok(true)) ==> licensed && events.len() == 3
            && events[1] == SaveEvent::Chosen(Ok(true)) && events[2] matches SaveEvent::Written(
            Ok(_),
        ),
{
    if events.len() > 1 {
        assert(saves(licensed, events[0], actions[0]));
        assert(events[1] is Chosen);
        assert(saves(licensed, events[1], actions[1]));
    }
    if events.len() > 2 {
        assert(events[2] is Written);
        assert(saves(licensed, events[2], actions[2]));
    }
    if events.len() > 3 {
        assert(events[3] is Written);
    }
    assert(saves(licensed, events[0], actions[0]));
}

/// The command ends in one of four ways, and what happened says in which: the
/// file was saved, no place was chosen, something failed (and what failed is
/// answered), or there was no license. A step that succeeds never ends it
/// otherwise: with a license the user is always asked, and a place that was
/// chosen is always written to.
pub proof fn law_save_outcome(licensed: bool, events: Seq<SaveEvent>, actions: Seq<SaveAction>)
    requires
        is_save_run(licensed, events, actions),
    ensures
        licensed <==> actions[0] is Ask,
        actions.last() is Write <==> events.last() == SaveEvent::Chosen(Ok(true)),
        actions.last() == SaveAction::Answer(Ok(true)) <==> (events.last() matches
            SaveEvent::Written(Ok(_))),
        actions.last() == SaveAction::Answer(Ok(false)) <==> events.last() == SaveEvent::Chosen(
            Ok(false),
        ),
        events.last() matches SaveEvent::Chosen(Err(e)) ==> actions.last() == SaveAction::Answer(
            Err(e),
        ),
        events.last() matches SaveEvent::Written(Err(e)) ==> actions.last() == SaveAction::Answer(
            Err(e),
        ),
        actions.last() matches SaveAction::Answer(Err(e)) ==> !licensed || events.last()
            == SaveEvent::Chosen(Err(e)) || events.last() == SaveEvent::Written(Err(e)),
        !licensed ==> (actions.last() matches SaveAction::Answer(Err(e)) && e@
            == "ライセンスが有効ではありません"@),
{
    law_save_run(licensed, events, actions);
    assert(saves(licensed, events[0], actions[0]));
    let n = events.len() - 1;
    assert(saves(licensed, events[n], actions[n]));
}

/// What is decided at each point is what a call decides.
pub proof fn law_save_file_saves(licensed: Licensed, event: SaveEvent, r: SaveAction)
    requires
        call_ensures(save_file, (&licensed, event), r),
    ensures
        saves(licensed.0, event, r),
{
}

}
