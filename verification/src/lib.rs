//! A turn-based "DJ rotation" for collaborative listening rooms.
//!
//! Members of a chatroom queue up on a waitlist; each in turn contributes the
//! top song of their active playlist, which is then rotated to the back of
//! that playlist before the next turn.  User state is fetched from and written
//! back to a keyed persistence contract.

pub mod song;
pub mod playlist;
pub mod user;
pub mod repositories;
pub mod waitlist;
pub mod chatroom;
pub mod soundcloud_api;
pub mod services;
pub mod test_tools;
mod ids;
