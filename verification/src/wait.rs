//! What the outcome of a wait means.

use vstd::prelude::*;

use crate::monitor::Event;

verus! {

/// Whether a token is among those that a wait reported as ready.
fn is_ready(ready: &[u64], token: u64) -> (is: bool)
    ensures
        is == ready@.contains(token),
{
    let mut i: usize = 0;
    while i < ready.len()
        invariant
            i <= ready@.len(),
            forall|j: int| 0 <= j < i ==> ready@[j] != token,
        decreases ready@.len() - i,
    {
        if ready[i] == token {
            assert(ready@[i as int] == token);
            return true;
        }
        i += 1;
    }
    false
}

/// The event of a wait that reported these tokens as ready.
pub fn woken(ready: &[u64], stop_token: u64, config_token: u64, uevent_token: u64) -> (event: Event)
    ensures
        event == (Event::Woken {
            stop: ready@.contains(stop_token),
            config: ready@.contains(config_token),
            uevent: ready@.contains(uevent_token),
        }),
{
    Event::Woken {
        stop: is_ready(ready, stop_token),
        config: is_ready(ready, config_token),
        uevent: is_ready(ready, uevent_token),
    }
}

/// The event of a wait that failed with an error number, if the error has one.
/// An interruption and the advice to try again are transient; their numbers are
/// those of the platform.
pub fn wait_failed(code: Option<i32>, interrupted: i32, try_again: i32) -> (event: Event)
    ensures
        event == (Event::WaitFailed {
            transient: code == Some(interrupted) || code == Some(try_again),
        }),
{
    let transient = match code {
        Some(code) => code == interrupted || code == try_again,
        None => false,
    };
    Event::WaitFailed { transient }
}

} // verus!
