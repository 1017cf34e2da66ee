use vstd::prelude::*;

pub mod packet;
pub mod text;
pub mod highway;
pub mod tri_sha1;
pub mod sso;
pub mod tlv;
pub mod trans_emp;
pub mod event;
pub mod entity;
pub mod message;
pub mod push_msg;
pub mod ecdh;
pub mod silk;
pub mod sign;
pub mod file_download;
pub mod oidb;
pub mod upload_args;
pub mod upload;
pub mod notice;
pub mod push_event;

verus! {
} // verus!
