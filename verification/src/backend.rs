//! Backend lifecycle decisions.
//!
//! The backend bootstraps the overlay client once, then races the
//! accept loop against a poll of the shutdown flag. The asynchronous
//! plumbing lives outside; the decisions — what a bootstrap outcome
//! does to the shared state, and when the poll loop stops — are here.

use crate::state::AppState;
use vstd::prelude::*;

verus! {

/// How often the shutdown coordinator polls the shutdown flag, in
/// milliseconds.
pub const POLL_INTERVAL_MS: u64 = 100;

/// Applies a bootstrap outcome to the shared state and says whether
/// the backend goes on to serve. Success turns the connectivity flag
/// on — the one place that ever sets it — and failure leaves the
/// state untouched: the flag is never reset.
pub fn on_bootstrap_outcome(state: &mut AppState, ok: bool) -> (proceed: bool)
    ensures
        proceed == ok,
        final(state).connected == (old(state).connected || ok),
        final(state).port == old(state).port,
        final(state).pending_port == old(state).pending_port,
        final(state).quit == old(state).quit,
        final(state).config_path == old(state).config_path,
        final(state).language == old(state).language,
        final(state).tray_quit_menu_id == old(state).tray_quit_menu_id,
{
    if ok {
        state.set_connected(true);
    }
    ok
}

/// The decision of the shutdown coordinator's poll loop over a run of
/// observed flag values: the index of the first poll that saw the
/// flag set, or `None` when no poll did.
pub fn polls_until_quit(flags: &Vec<bool>) -> (r: Option<usize>)
    ensures
        match r {
            Some(k) => k < flags@.len() && flags@[k as int] && (forall|i: int|
                0 <= i < k ==> !flags@[i]),
            None => forall|i: int| 0 <= i < flags@.len() ==> !flags@[i],
        },
{
    let mut k: usize = 0;
    while k < flags.len()
        invariant
            k <= flags@.len(),
            forall|i: int| 0 <= i < k ==> !flags@[i],
        decreases flags@.len() - k,
    {
        if flags[k] {
            return Some(k);
        }
        k = k + 1;
    }
    None
}

/// The poll loop stops promptly: if the flag is set by the time of
/// poll `t` (and, never being cleared, stays set), the first poll
/// that sees it set is poll `t` at the latest — the loop ends within
/// one polling interval of the flag being set.
pub proof fn lemma_shutdown_within_one_interval(flags: Seq<bool>, k: int, t: int)
    requires
        0 <= t < flags.len(),
        flags[t],
        0 <= k < flags.len(),
        flags[k],
        forall|i: int| 0 <= i < k ==> !flags[i],
    ensures
        k <= t,
{
}

} // verus!
