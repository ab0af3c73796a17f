use crate::shutdown::Shutdown;
use crate::signals::Signal;
use crate::wallpaper_changer::{rotated, refreshed, FilesMetadataCacheStore};
use vstd::prelude::*;

verus! {

/// What woke a timer-driven task up: its interval ticked, or the shared
/// shutdown trigger was delivered to it.
#[derive(Clone, Copy, Debug, PartialEq, Eq, Structural)]
pub enum TickEvent {
    /// The task's interval elapsed.
    Tick,

    /// The shared shutdown trigger was delivered while waiting.
    ShutdownFired,
}

/// What woke the client-signal task up: the channel decoded a signal, the
/// channel's sequence ended, or the shared shutdown trigger was delivered.
#[derive(Clone, Copy, Debug, PartialEq, Eq, Structural)]
pub enum ClientEvent {
    /// One complete signal was decoded from the command endpoint.
    Received(Signal),

    /// The endpoint's sequence ended; it never restarts.
    Closed,

    /// The shared shutdown trigger was delivered while waiting.
    ShutdownFired,
}

/// What the surrounding loop must do after one step of a task.
#[derive(Debug, PartialEq, Eq)]
pub enum TaskStep {
    /// The task is done; the loop exits without further work.
    Halt,

    /// Hand this path to the external wallpaper setter, then keep looping.
    Apply(String),

    /// Nothing to apply this time; keep looping.
    Continue,
}

/// One step of the background changer task: on each tick it rotates to
/// the next wallpaper, and it halts as soon as shutdown is observed,
/// without performing a final rotation.
pub fn background_changer_step(
    store: &mut FilesMetadataCacheStore,
    shutdown: &mut Shutdown,
    event: TickEvent,
) -> (step: TaskStep)
    requires
        old(store).wf(),
    ensures
        final(store).wf(),
        event == TickEvent::ShutdownFired ==> final(shutdown).spec_is_shutdown() && step is Halt
            && *final(store) == *old(store),
        event == TickEvent::Tick && old(shutdown).spec_is_shutdown() ==> step is Halt
            && *final(store) == *old(store) && *final(shutdown) == *old(shutdown),
        event == TickEvent::Tick && !old(shutdown).spec_is_shutdown() ==> *final(shutdown)
            == *old(shutdown) && (if old(store).wallpapers().len() > 0 {
            step matches TaskStep::Apply(path) && rotated(
                *old(store),
                *final(store),
                Signal::Next,
                Some(path),
            )
        } else {
            step is Continue && rotated(*old(store), *final(store), Signal::Next, None)
        }),
{
    match event {
        TickEvent::ShutdownFired => {
            shutdown.observe();
            TaskStep::Halt
        },
        TickEvent::Tick => {
            if shutdown.is_shutdown() {
                TaskStep::Halt
            } else {
                match store.set_background(Signal::Next) {
                    Some(path) => TaskStep::Apply(path),
                    None => TaskStep::Continue,
                }
            }
        },
    }
}

/// One step of the cache refresh task: on each tick it rescans the
/// wallpaper directory and appends what is new, and it halts as soon as
/// shutdown is observed, without performing a final rescan.
pub fn refresh_store_step(
    store: &mut FilesMetadataCacheStore,
    shutdown: &mut Shutdown,
    event: TickEvent,
) -> (step: TaskStep)
    requires
        old(store).wf(),
    ensures
        final(store).wf(),
        event == TickEvent::ShutdownFired ==> final(shutdown).spec_is_shutdown() && step is Halt
            && *final(store) == *old(store),
        event == TickEvent::Tick && old(shutdown).spec_is_shutdown() ==> step is Halt
            && *final(store) == *old(store) && *final(shutdown) == *old(shutdown),
        event == TickEvent::Tick && !old(shutdown).spec_is_shutdown() ==> step is Continue
            && *final(shutdown) == *old(shutdown) && refreshed(*old(store), *final(store)),
{
    match event {
        TickEvent::ShutdownFired => {
            shutdown.observe();
            TaskStep::Halt
        },
        TickEvent::Tick => {
            if shutdown.is_shutdown() {
                TaskStep::Halt
            } else {
                store.refresh_store();
                TaskStep::Continue
            }
        },
    }
}

/// One step of the client signal task: a signal decoded from the command
/// endpoint is applied to the store — also one that was fully decoded
/// just as shutdown fired, since the loop halts only at its next wait —
/// and the task halts when the endpoint's sequence ends or shutdown is
/// observed.
pub fn client_signal_step(
    store: &mut FilesMetadataCacheStore,
    shutdown: &mut Shutdown,
    event: ClientEvent,
) -> (step: TaskStep)
    requires
        old(store).wf(),
    ensures
        final(store).wf(),
        event == ClientEvent::Closed ==> step is Halt && *final(store) == *old(store)
            && *final(shutdown) == *old(shutdown),
        event == ClientEvent::ShutdownFired ==> final(shutdown).spec_is_shutdown() && step is Halt
            && *final(store) == *old(store),
        event matches ClientEvent::Received(signal) ==> *final(shutdown) == *old(shutdown) && (
        if old(store).wallpapers().len() > 0 {
            step matches TaskStep::Apply(path) && rotated(
                *old(store),
                *final(store),
                signal,
                Some(path),
            )
        } else {
            step is Continue && rotated(*old(store), *final(store), signal, None)
        }),
{
    match event {
        ClientEvent::Closed => TaskStep::Halt,
        ClientEvent::ShutdownFired => {
            shutdown.observe();
            TaskStep::Halt
        },
        ClientEvent::Received(signal) => {
            match store.set_background(signal) {
                Some(path) => TaskStep::Apply(path),
                None => TaskStep::Continue,
            }
        },
    }
}

} // verus!
