//! When a process that is being profiled ends.
use vstd::prelude::*;

verus! {

/// For how many seconds a process that is being profiled waits between updates before it looks
/// whether it is done.
pub const PROFILE_EXIT_TIMEOUT_SECS: u64 = 5;

/// What came of the wait for an update.
pub enum ProfileEvent<U> {
    /// The update.
    Update(U),
    /// None before the timeout. So many tasks are in progress.
    Timeout { in_progress: usize },
}

/// What to do after a wait for an update.
pub enum ProfileAction<U> {
    /// Hand the update on.
    Return(U),
    /// Wait again.
    Wait,
    /// Exit the process, with success.
    Exit,
}

/// Decides what follows a wait for an update: the process exits when no update has come and no
/// task is in progress.
pub fn profile_timeout<U>(event: ProfileEvent<U>) -> (action: ProfileAction<U>)
    ensures
        action == match event {
            ProfileEvent::Update(update) => ProfileAction::Return(update),
            ProfileEvent::Timeout { in_progress } => if in_progress == 0 {
                ProfileAction::Exit
            } else {
                ProfileAction::Wait
            },
        },
{
    match event {
        ProfileEvent::Update(update) => ProfileAction::Return(update),
        ProfileEvent::Timeout { in_progress } => if in_progress == 0 {
            ProfileAction::Exit
        } else {
            ProfileAction::Wait
        },
    }
}

/// A process that is being profiled exits only if no task is in progress, never with an update at
/// hand, and goes on waiting while there are tasks. An update is handed on as it came.
pub proof fn process_exits_only_when_idle<U>(event: ProfileEvent<U>, action: ProfileAction<U>)
    ensures
        call_ensures(profile_timeout::<U>, (event,), action) ==> {
            &&& (action is Exit) == (event matches ProfileEvent::Timeout { in_progress }
                && in_progress == 0)
            &&& (action is Wait) == (event matches ProfileEvent::Timeout { in_progress }
                && in_progress > 0)
            &&& (action is Return) == (event is Update)
            &&& action is Return ==> action->Return_0 == event->Update_0
        },
        PROFILE_EXIT_TIMEOUT_SECS == 5,
{
}

} // verus!
