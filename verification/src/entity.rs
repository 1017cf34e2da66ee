//! Accounts and faces.
pub mod bot_friend;
pub mod sys_face;
