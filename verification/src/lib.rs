//! Recovery policy for desktop windows that have lost their WebView2
//! instance.
//!
//! [`webview_health`] judges from a window's native children whether its
//! webview is still hosted, [`probe`] walks those children, and
//! [`label_release`] waits for a destroyed window to give its label back.
//! [`window_recovery`] decides what a caller does with a window it is about
//! to show and what is replayed after a loss, and [`rebuild`] orders the work
//! of a rebuild thread. [`utf16`] reads the class names that Win32 hands out.
//!
//! The `*_laws` modules state and prove what holds of these as a whole.
//!
//! Nothing here touches a window: every function maps what the caller has
//! observed to what the caller does next.

pub mod flag_laws;
pub mod label_release;
pub mod probe;
pub mod probe_laws;
pub mod rebuild;
pub mod rebuild_laws;
pub mod system_laws;
pub mod utf16;
pub mod webview_health;
pub mod window_recovery;
