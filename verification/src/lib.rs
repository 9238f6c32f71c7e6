//! Erudify: the logic of a Chinese listening-practice web application.
//!
//! - [`exercise`]: the exercises, sentences cut into segments.
//! - [`page`]: what an exercise page shows for each segment.
//! - [`text`]: the shouting service and the case mappings of the answer box.
//! - [`session`]: the position and answer text of a study session.
//! - [`github`]: the GitHub OAuth configuration, its endpoints, the sign-in
//!   link, and the code in GitHub's callback.
//! - [`login`]: the steps of a server-side GitHub sign-in.
//! - [`readiness`]: waiting for a service before the end-to-end checks.
//! - [`checks`]: the end-to-end checks on the rendered site.
pub mod checks;
pub mod exercise;
pub mod github;
pub mod login;
pub mod page;
pub mod readiness;
pub mod session;
pub mod text;
