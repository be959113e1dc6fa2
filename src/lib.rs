//! Event-translation core of an X11 windowing backend: it turns native
//! core-protocol and XInput2 events into a normalized event model, keeping
//! the per-window and per-device state needed to report changes only.

pub mod ids;
pub mod event;
pub mod native;
pub mod device;
pub mod valuators;
pub mod window;
pub mod translate;
pub mod events_loop;
pub mod dispatch;
pub mod process;
pub mod proxy;
pub mod laws;
pub mod control;
