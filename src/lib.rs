//! Typed access to the system audio session: its categories, the option bits
//! that refine a category, and the calls that a session hands to the system to
//! set them and to switch the session on and off.
pub mod session;
