//! Read-only content catalogue: blog posts, courses, projects and a
//! leaderboard, held in memory and looked up by key.
//!
//! Every function in this crate is verified with Verus. The few places where
//! an outside crate is called are marked and documented where they stand.

pub mod api;
pub mod config;
pub mod course;
pub mod leaderboard;
pub mod lookup;
pub mod post;
pub mod project;
pub mod reply;
pub mod seed;
pub mod state;
pub mod text;
pub mod time;
