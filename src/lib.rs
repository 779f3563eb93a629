//! Server-side sessions kept in a key-value store and named by a signed cookie.
//!
//! The library decides everything that happens to a session during one
//! request: which cookie names it, what the store's bytes hold, whether the
//! state must be written back, under which id, and which cookie goes out.
//! The caller performs the store round trips and hands back what came of them.
pub mod codec;
pub mod cookie;
pub mod resolver;
pub mod session;
pub mod state;
