//! Checks a self-hosted Gitlab instance against the newest published stable
//! release tag and decides whether a chat notification is due.
//!
//! The crate holds the decision logic only: filtering release-candidate tags,
//! picking the lexicographically greatest stable tag, normalizing version
//! strings, comparing them, and composing the notification message. The HTTP
//! calls that feed it and carry its message live outside the library.

pub mod bot;
pub mod error;
pub mod gitlab_tag;
pub mod gitlab_version;
pub mod text;
