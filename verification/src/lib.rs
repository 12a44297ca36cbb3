//! Core logic of a desktop shell that supervises a local server process and
//! bridges in-page window-open requests to native window creation.
//!
//! The modules hold the decision logic: the supervisor's retry state machine,
//! the window bridge's delayed navigation sequence, the in-page interception
//! rule, and the player-window command. The surrounding process, thread and
//! webview plumbing lives outside the library and drives these machines.

pub mod bridge;
pub mod player;
pub mod shell;
pub mod supervisor;
pub mod text;
