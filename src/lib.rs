//! A verified front-end core for an editor whose buffer lives in a separate
//! backend process: the mirrored line cache and its update replay, the
//! viewport arithmetic, and the ordered delivery of backend messages.

pub mod line;
pub mod cache;
pub mod script;
pub mod viewport;
pub mod sync;
pub mod pipeline;
pub mod styles;
pub mod view;
pub mod protocol;
pub mod input;
pub mod session;
