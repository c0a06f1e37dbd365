//! A wake bridge between one parked task and the contexts that wake it.
//!
//! A run loop owns a [`TaskHandle`], binds it to the task it runs on, and
//! hands out [`SharedTaskHandle`] notifiers. A notifier wakes the bound task
//! for as long as the handle lives, and does nothing before the handle is
//! bound or after it is gone.

pub mod handle;
pub mod identity;
pub mod lifecycle;
pub mod wait;

pub use handle::{SharedTaskHandle, TaskHandle, WAKE_VALUE};
pub use identity::TaskId;
pub use lifecycle::Prerun;
pub use wait::CurrentTaskWait;
