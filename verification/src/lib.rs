//! Command handlers of an application's update subsystem.
//!
//! A desktop shell asks five things of the update checker: to look for a new
//! release, whether a look is due, to record that one was made, and to read and
//! to write the user's preferences. Each handler forwards one such request and
//! answers with what the checker said, a value or the message of its failure,
//! exactly as it came. The handlers keep no state, never retry, and look into
//! neither the release information nor the preferences: both are type
//! parameters here, `I` and `S`.
//!
//! The checker is handed in call by call, as the function to forward to. A
//! contract then speaks of that function's own postcondition:
//! `f.ensures(args, r)` says that `r` is a result of calling `f` on `args`. So
//! a handler promises of its answer what the checker promises of its result,
//! no less and no more. The one call that is not made here is the remote
//! check, which suspends: its caller awaits it and hands over the outcome.

use vstd::prelude::*;

verus! {

/// Answers the request to look for a new release.
///
/// The remote check suspends while it waits for the network, so the caller
/// awaits it and hands over its `outcome`. The answer is that outcome: the
/// release information on success, the checker's message on failure.
pub fn check_for_updates<I>(outcome: Result<I, String>) -> (response: Result<I, String>)
    ensures
        response == outcome,
{
    outcome
}

/// What the shell is told about whether a check is due, once the preferences
/// were asked for and came back as `loaded`.
///
/// Preferences that loaded are put to the checker's `policy`, and what it
/// says is the answer. A failure to load is the answer as it is; the policy
/// has no say then.
pub open spec fn policy_answer<S, P>(
    loaded: Result<S, String>,
    policy: P,
    response: Result<bool, String>,
) -> bool where P: FnOnce(&S) -> bool {
    match loaded {
        Ok(settings) => response matches Ok(due) && policy.ensures((&settings,), due),
        Err(message) => response == Err::<bool, String>(message),
    }
}

/// Answers the question whether a check is due.
///
/// Calls the checker's loader once. If the preferences load, the checker's
/// policy is asked once, about exactly those preferences, and what it says is
/// the answer. If they do not, the loader's message is the answer and the
/// policy is never asked: nothing here decides by itself whether a check is
/// due.
pub fn should_check_updates<S, L, P>(load: L, policy: P) -> (response: Result<bool, String>) where
    L: FnOnce() -> Result<S, String>,
    P: FnOnce(&S) -> bool,

    requires
        load.requires(()),
        forall|settings: S| #[trigger]
            load.ensures((), Ok(settings)) ==> policy.requires((&settings,)),
    ensures
        exists|loaded: Result<S, String>| #[trigger]
            load.ensures((), loaded) && policy_answer(loaded, policy, response),
{
    match load() {
        Ok(settings) => Ok(policy(&settings)),
        Err(message) => Err(message),
    }
}

/// Answers the request to record that a check was made.
///
/// Calls the checker's recorder once and answers with what it returned: the
/// acknowledgement on success, the recorder's message on failure.
pub fn update_last_check_time<W>(record: W) -> (response: Result<(), String>) where
    W: FnOnce() -> Result<(), String>,

    requires
        record.requires(()),
    ensures
        record.ensures((), response),
{
    record()
}

/// Answers the request to read the preferences.
///
/// Calls the checker's loader once and answers with what it returned: the
/// preferences on success, the loader's message on failure.
pub fn get_update_settings<S, L>(load: L) -> (response: Result<S, String>) where
    L: FnOnce() -> Result<S, String>,

    requires
        load.requires(()),
    ensures
        load.ensures((), response),
{
    load()
}

/// Answers the request to write the preferences.
///
/// Calls the checker's saver once, on exactly the `settings` received, and
/// answers with what it returned: the acknowledgement on success, the saver's
/// message on failure.
pub fn save_update_settings<S, W>(settings: S, save: W) -> (response: Result<(), String>) where
    W: FnOnce(&S) -> Result<(), String>,

    requires
        save.requires((&settings,)),
    ensures
        save.ensures((&settings,), response),
{
    save(&settings)
}

/// A checker keeps what it is given: whenever `save` accepts `settings`, `load`,
/// the loader as it stands after that save, returns just these.
pub open spec fn keeps_what_it_saves<S, W, L>(save: W, load: L, settings: S) -> bool where
    W: FnOnce(&S) -> Result<(), String>,
    L: FnOnce() -> Result<S, String>,
{
    forall|saved: Result<(), String>, loaded: Result<S, String>|
        #![trigger save.ensures((&settings,), saved), load.ensures((), loaded)]
        save.ensures((&settings,), saved) && saved is Ok && load.ensures((), loaded)
            ==> loaded == Ok::<S, String>(settings)
}

/// Preferences that were written are read back.
///
/// Let the checker keep what it is given, and let `save_update_settings` have
/// answered `saved` for `settings`. If that is the acknowledgement, then the
/// answer `got` of a `get_update_settings` that follows is `settings`, unchanged.
pub proof fn lemma_saved_settings_are_read_back<S, W, L>(
    settings: S,
    save: W,
    load: L,
    saved: Result<(), String>,
    got: Result<S, String>,
) where W: FnOnce(&S) -> Result<(), String>, L: FnOnce() -> Result<S, String>
    requires
        keeps_what_it_saves(save, load, settings),
        save.ensures((&settings,), saved),
        load.ensures((), got),
    ensures
        saved is Ok ==> got == Ok::<S, String>(settings),
{
}

} // verus!
