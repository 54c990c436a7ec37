//! Verified core of an off-screen browser runtime: input translation,
//! paint buffers, DMA-BUF import checks and native window decisions.

pub mod keyboard;
pub mod input;
pub mod cursor;
pub mod osr;
pub mod dmabuf;
pub mod surface;
pub mod window;
pub mod webview;
pub mod text;
pub mod context_menu;
