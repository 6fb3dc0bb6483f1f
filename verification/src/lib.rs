//! A pure in-memory window-layout engine.
//!
//! Small managers (focus, tiling order, floating z-order, minimised set)
//! compose into window managers that compute, for every managed window, a
//! rectangle and a focus state. Nothing here touches a display.
//!
//! - `types`, `error`: the values that go in and come out.
//! - `order`, `infos`: ordered, duplicate-free sequences of windows, and
//!   the moves made on them.
//! - `layout`, `gaps`, `dock`: the tiling strategies; `partition` shows
//!   that the vertical one divides the screen exactly.
//! - `focus`, `tiling`, `floating`, `minimising`: the managers, each with
//!   the window manager made of it; `fullscreen`: the simplest window
//!   manager; `workspaces`: several window managers side by side.
//! - `common`: the capabilities the managers share.
//! - `arrangement`: the state of tiles and floating windows as a value,
//!   and what each operation makes of it.
//! - `laws`: what holds of every reachable state, and of operations that
//!   undo each other.
//!
//! Every operation of a manager states what it makes of the manager's
//! state, and keeps the state consistent: `wf` of each type says what that
//! means.

pub mod types;
pub mod error;
pub mod order;
pub mod infos;
pub mod layout;
pub mod partition;
pub mod gaps;
pub mod dock;
pub mod common;
pub mod focus;
pub mod fullscreen;
pub mod tiling;
pub mod arrangement;
pub mod floating;
pub mod minimising;
pub mod laws;
pub mod workspaces;
