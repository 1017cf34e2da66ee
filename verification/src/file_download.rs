//! Downloading a file shared in a group.
use vstd::prelude::*;
use vstd::string::StringExecFns;
use crate::event::{CECommandMarker, EventError};
use crate::text::{hex_encode, hex_lower};

verus! {

/// The download link of a group file, once the server has answered.
#[derive(Debug)]
pub struct FileGroupDownloadEvent {
    pub group_uin: u32,
    pub file_url: String,
    pub file_id: String,
}

/// What the request for a group file's link holds.
#[derive(Debug)]
pub struct FileGroupDownloadRequest {
    pub group_uin: u32,
    pub app_id: u32,
    pub bus_id: u32,
    pub file_id: String,
}

/// The download part of the server's answer.
#[derive(Debug)]
pub struct FileGroupDownloadReply {
    pub ret_code: i32,
    pub client_wording: String,
    pub download_dns: String,
    pub download_url: Vec<u8>,
}

/// The link of a group file on the server `dns` with the key `url`.
pub open spec fn group_file_url(dns: Seq<char>, url: Seq<u8>) -> Seq<char> {
    "https://"@ + dns + "/ftn_handler/"@ + hex_lower(url) + "/?fname="@
}

impl CECommandMarker for FileGroupDownloadEvent {
    fn command(&self) -> (r: &'static str)
        ensures
            r@ == "OidbSvcTrpcTcp.0x6d6_2"@,
    {
        "OidbSvcTrpcTcp.0x6d6_2"
    }
}

impl FileGroupDownloadEvent {
    /// The request: the group, app 7, business 102 and the file id.
    pub fn request(&self) -> (r: FileGroupDownloadRequest)
        ensures
            r.group_uin == self.group_uin,
            r.app_id == 7,
            r.bus_id == 102,
            r.file_id@ == self.file_id@,
    {
        FileGroupDownloadRequest {
            group_uin: self.group_uin,
            app_id: 7,
            bus_id: 102,
            file_id: self.file_id.clone(),
        }
    }

    /// Reads the server's answer: a missing download part is an error, a
    /// nonzero code is the server's error with its wording, and code 0
    /// gives the link.
    pub fn parse_reply(download: Option<FileGroupDownloadReply>) -> (r: Result<
        FileGroupDownloadEvent,
        EventError,
    >)
        ensures
            download is None ==> (r matches Err(EventError::OtherError(m)) && m@
                == "Missing OidbSvcTrpcTcp0x6D62response"@),
            download is Some && download->0.ret_code != 0 ==> (r matches Err(
                EventError::OidbPacketInternalError(c, w),
            ) && c == download->0.ret_code && w == download->0.client_wording),
            download is Some && download->0.ret_code == 0 ==> (r matches Ok(e) && e.file_url@
                == group_file_url(download->0.download_dns@, download->0.download_url@) && e.group_uin == 0
                && e.file_id@.len() == 0),
    {
        match download {
            None => Err(EventError::OtherError(String::from_str("Missing OidbSvcTrpcTcp0x6D62response"))),
            Some(d) => {
                if d.ret_code == 0 {
                    let mut url = String::from_str("https://");
                    url.append(d.download_dns.as_str());
                    url.append("/ftn_handler/");
                    let key = hex_encode(d.download_url.as_slice());
                    url.append(key.as_str());
                    url.append("/?fname=");
                    Ok(FileGroupDownloadEvent { group_uin: 0, file_url: url, file_id: String::new() })
                } else {
                    Err(EventError::OidbPacketInternalError(d.ret_code, d.client_wording))
                }
            },
        }
    }
}

} // verus!
