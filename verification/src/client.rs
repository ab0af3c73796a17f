use crate::signals::Signal;
use vstd::prelude::*;

verus! {

/// The confirmation line the client prints after it has sent a signal to
/// the daemon.
pub fn change_invoked_message(signal: &Signal) -> (message: &'static str)
    ensures
        *signal == Signal::Next ==> message@ == "Changing to the next wallpaper"@,
        *signal == Signal::Prev ==> message@ == "Changing to the previous wallpaper"@,
{
    match signal {
        Signal::Next => "Changing to the next wallpaper",
        Signal::Prev => "Changing to the previous wallpaper",
    }
}

} // verus!
