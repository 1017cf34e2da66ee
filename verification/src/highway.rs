//! Highway upload frames: `0x28`, head length, body length, head, body, `0x29`.
use vstd::prelude::*;
use vstd::string::StringExecFns;
use crate::packet::{be32, from_be32, PacketBuilder, PacketReader};
use crate::text::{decimal, u32_to_string};

verus! {

/// The byte that opens a frame.
pub const FRAME_START: u8 = 0x28;
/// The byte that closes a frame.
pub const FRAME_END: u8 = 0x29;

/// One highway frame.
#[derive(Debug)]
pub struct HighwayFrame {
    pub head: Vec<u8>,
    pub body: Vec<u8>,
}

/// Errors of the highway transfer.
#[derive(Debug)]
pub enum HighwayError {
    /// A frame did not open with `0x28` or did not close with `0x29`.
    InvalidFrame,
    /// The server answered an upload with this error code.
    UploadError(u32),
    /// Any other failure, described.
    OtherError(String),
}

/// Encodes and decodes highway frames.
pub struct HighwayFrameCodec;

/// The bytes of a frame with the given head and body. The length fields hold
/// the lengths truncated to 32 bits.
pub open spec fn frame_bytes(head: Seq<u8>, body: Seq<u8>) -> Seq<u8> {
    seq![FRAME_START] + be32(head.len() as u32) + be32(body.len() as u32) + head + body + seq![
        FRAME_END,
    ]
}

/// The head length that the frame at the front of `s` announces.
pub open spec fn head_len(s: Seq<u8>) -> int {
    from_be32(s.skip(1)) as int
}

/// The body length that the frame at the front of `s` announces.
pub open spec fn body_len(s: Seq<u8>) -> int {
    from_be32(s.skip(5)) as int
}

/// Whether `s` holds at least the fixed part of a frame.
pub open spec fn has_frame_header(s: Seq<u8>) -> bool {
    s.len() >= 10
}

/// Whether `s` holds a whole frame, as its header announces it.
pub open spec fn has_whole_frame(s: Seq<u8>) -> bool {
    has_frame_header(s) && s.len() - 9 >= head_len(s) + body_len(s) + 1
}

/// The length of the frame at the front of `s`.
pub open spec fn frame_len(s: Seq<u8>) -> int {
    9 + head_len(s) + body_len(s) + 1
}

/// Whether the whole frame at the front of `s` opens and closes with the
/// marker bytes.
pub open spec fn frame_markers_ok(s: Seq<u8>) -> bool {
    s[0] == FRAME_START && s[frame_len(s) - 1] == FRAME_END
}

impl HighwayFrameCodec {
    /// Appends the frame to `dst`.
    pub fn encode(&mut self, item: HighwayFrame, dst: &mut Vec<u8>)
        ensures
            final(dst)@ == old(dst)@ + frame_bytes(item.head@, item.body@),
    {
        let mut b = PacketBuilder::new().u8(FRAME_START).u32(item.head.len() as u32).u32(
            item.body.len() as u32,
        ).bytes(item.head.as_slice()).bytes(item.body.as_slice()).u8(FRAME_END);
        let out = b.build();
        let mut i: usize = 0;
        let ghost d0 = dst@;
        while i < out.len()
            invariant
                0 <= i <= out@.len(),
                dst@ == d0 + out@.take(i as int),
            decreases out@.len() - i,
        {
            dst.push(out[i]);
            i = i + 1;
            proof {
                assert(out@.take(i as int) =~= out@.take(i - 1).push(out@[i - 1]));
            }
        }
        proof {
            assert(out@.take(out@.len() as int) =~= out@);
            assert(out@ =~= frame_bytes(item.head@, item.body@));
        }
    }

    /// Takes one frame from the front of `src`.
    ///
    /// With fewer than 10 bytes, nothing is taken and nothing is returned.
    /// Otherwise the 9 header bytes are taken; if the announced head, body
    /// and closing byte are not all there yet, nothing more is taken and
    /// nothing is returned. Otherwise the whole frame is taken, and it is
    /// returned when it opens with `0x28` and closes with `0x29`, else the
    /// error is `InvalidFrame`.
    pub fn decode(&mut self, src: &mut Vec<u8>) -> (r: Result<Option<HighwayFrame>, HighwayError>)
        ensures
            !has_frame_header(old(src)@) ==> (r matches Ok(None) && final(src)@ == old(src)@),
            has_frame_header(old(src)@) && !has_whole_frame(old(src)@) ==> (r matches Ok(None)
                && final(src)@ == old(src)@.skip(9)),
            has_whole_frame(old(src)@) ==> final(src)@ == old(src)@.skip(frame_len(old(src)@)),
            has_whole_frame(old(src)@) && !frame_markers_ok(old(src)@) ==> r matches Err(
                HighwayError::InvalidFrame,
            ),
            has_whole_frame(old(src)@) && frame_markers_ok(old(src)@) ==> (r matches Ok(Some(f))
                && f.head@ == old(src)@.subrange(9, 9 + head_len(old(src)@)) && f.body@ == old(
                src,
            )@.subrange(9 + head_len(old(src)@), 9 + head_len(old(src)@) + body_len(old(src)@))),
    {
        if src.len() < 1 + 4 + 4 + 1 {
            return Ok(None);
        }
        let ghost s = src@;
        let mut data: Vec<u8> = Vec::new();
        std::mem::swap(&mut data, src);
        let mut reader = PacketReader::new(data);
        let start = reader.u8();
        let head_length = reader.u32();
        let body_length = reader.u32();
        proof {
            assert(s.skip(1).skip(4) =~= s.skip(5));
            assert(s.skip(1).skip(4).skip(4) =~= s.skip(9));
            assert(from_be32(s.skip(1)) == head_length);
            assert(from_be32(s.skip(5)) == body_length);
        }
        let rem = reader.remaining();
        if (rem as u64) < head_length as u64 + body_length as u64 + 1 {
            *src = reader.bytes();
            return Ok(None);
        }
        let mut head_reader = reader.read_with_length_exact(head_length as usize);
        let head = head_reader.bytes();
        let mut body_reader = reader.read_with_length_exact(body_length as usize);
        let body = body_reader.bytes();
        let end = reader.u8();
        *src = reader.bytes();
        proof {
            let h = head_length as int;
            let b = body_length as int;
            assert(s.skip(9).take(h) =~= s.subrange(9, 9 + h));
            assert(s.skip(9).skip(h).take(b) =~= s.subrange(9 + h, 9 + h + b));
            assert(s.skip(9).skip(h).skip(b)[0] == s[9 + h + b]);
            assert(s.skip(9).skip(h).skip(b).skip(1) =~= s.skip(9 + h + b + 1));
        }
        if start != FRAME_START || end != FRAME_END {
            return Err(HighwayError::InvalidFrame);
        }
        Ok(Some(HighwayFrame { head, body }))
    }
}


/// Where and how files are uploaded: the server's address, the account as
/// decimal text, the timeout, the upload ticket and the chunk size.
#[derive(Debug)]
pub struct HighwayClient {
    pub addr: String,
    pub uin: String,
    pub timeout: u32,
    pub ticket: Vec<u8>,
    pub chunk_size: usize,
}

impl HighwayClient {
    pub fn new(address: &str, timeout: u32, ticket: Vec<u8>, uin: u32, chunk_size: usize) -> (r:
        Self)
        ensures
            r.addr@ == address@,
            r.uin@ == decimal(uin as nat),
            r.timeout == timeout,
            r.ticket == ticket,
            r.chunk_size == chunk_size,
    {
        HighwayClient {
            addr: String::from_str(address),
            timeout,
            ticket,
            uin: u32_to_string(uin),
            chunk_size,
        }
    }

    /// The address to post upload frames to over HTTP.
    pub fn http_upload_url(&self) -> (r: String)
        ensures
            r@ == "http://"@ + self.addr@ + "/cgi-bin/httpconn?htcmd=0x6FF0087&uin="@ + self.uin@,
    {
        let mut u = String::from_str("http://");
        u.append(self.addr.as_str());
        u.append("/cgi-bin/httpconn?htcmd=0x6FF0087&uin=");
        u.append(self.uin.as_str());
        u
    }
}

/// The offsets at which a file of `size` bytes is cut into chunks of
/// `chunk_size` bytes: 0, `chunk_size`, `2 * chunk_size`, ... below `size`.
pub fn chunk_offsets(size: u32, chunk_size: usize) -> (r: Vec<u32>)
    requires
        chunk_size > 0,
    ensures
        r@.len() == (size as int + chunk_size - 1) / chunk_size as int,
        forall|i: int| 0 <= i < r@.len() ==> r@[i] == i * chunk_size,
{
    let mut r: Vec<u32> = Vec::new();
    let mut offset: u128 = 0;
    assert(r@.len() * chunk_size == 0) by (nonlinear_arith)
        requires
            r@.len() == 0,
    ;
    while offset < size as u128
        invariant
            chunk_size > 0,
            offset == r@.len() * chunk_size,
            r@.len() == 0 || offset < size + chunk_size,
            forall|i: int| 0 <= i < r@.len() ==> r@[i] == i * chunk_size,
        decreases size + chunk_size - offset,
    {
        let ghost n = r@.len();
        r.push(offset as u32);
        offset = offset + chunk_size as u128;
        assert(offset == r@.len() * chunk_size) by (nonlinear_arith)
            requires
                offset == n * chunk_size + chunk_size,
                r@.len() == n + 1,
        ;
    }
    proof {
        let n = r@.len() as int;
        let c = chunk_size as int;
        let z = size as int;
        assert((z + c - 1) / c == n) by (nonlinear_arith)
            requires
                c > 0,
                z >= 0,
                n * c >= z,
                n == 0 || n * c < z + c,
        ;
    }
    r
}

/// The segment head of an upload answer: where the stored part starts, its
/// length, and the file's size.
#[derive(Debug)]
pub struct SegHead {
    pub data_offset: Option<u64>,
    pub data_length: u32,
    pub filesize: u64,
}

/// Reads an upload answer: a nonzero error code is an upload error, a
/// missing segment head or offset an error naming it; otherwise the bytes
/// stored so far (offset plus length) and the file's size.
pub fn upload_progress(error_code: u32, seg: Option<SegHead>) -> (r: Result<(u128, u64), HighwayError>)
    ensures
        error_code != 0 ==> r == Err::<(u128, u64), HighwayError>(HighwayError::UploadError(error_code)),
        error_code == 0 && seg is None ==> (r matches Err(HighwayError::OtherError(m)) && m@
            == "No seg head in response"@),
        error_code == 0 && seg is Some && seg->0.data_offset is None ==> (r matches Err(
            HighwayError::OtherError(m),
        ) && m@ == "No data offset in response"@),
        error_code == 0 && seg is Some && seg->0.data_offset is Some ==> (r matches Ok((done, total))
            && done == seg->0.data_offset->0 + seg->0.data_length && total == seg->0.filesize),
{
    if error_code != 0 {
        return Err(HighwayError::UploadError(error_code));
    }
    let seg = match seg {
        Some(s) => s,
        None => {
            return Err(HighwayError::OtherError(String::from_str("No seg head in response")));
        },
    };
    let offset = match seg.data_offset {
        Some(o) => o,
        None => {
            return Err(HighwayError::OtherError(String::from_str("No data offset in response")));
        },
    };
    Ok((offset as u128 + seg.data_length as u128, seg.filesize))
}

} // verus!

verus! {

/// What `encode` writes, `decode` takes back whole: the same head and body,
/// and whatever followed the frame stays in the buffer.
#[verifier::rlimit(40)]
pub proof fn law_frame_round_trip(head: Seq<u8>, body: Seq<u8>, rest: Seq<u8>)
    requires
        head.len() <= u32::MAX,
        body.len() <= u32::MAX,
    ensures
        ({
            let s = frame_bytes(head, body) + rest;
            &&& has_whole_frame(s)
            &&& frame_markers_ok(s)
            &&& head_len(s) == head.len()
            &&& body_len(s) == body.len()
            &&& s.subrange(9, 9 + head_len(s)) == head
            &&& s.subrange(9 + head_len(s), 9 + head_len(s) + body_len(s)) == body
            &&& s.skip(frame_len(s)) == rest
        }),
{
    let hb = be32(head.len() as u32);
    let bb = be32(body.len() as u32);
    let s = frame_bytes(head, body) + rest;
    crate::packet::law_u32_read_back(head.len() as u32, s.skip(5));
    crate::packet::law_u32_read_back(body.len() as u32, s.skip(9));
    assert(s.skip(1) =~= hb + s.skip(5));
    assert(s.skip(5) =~= bb + s.skip(9));
    let h = head.len() as int;
    let b = body.len() as int;
    assert(s.subrange(9, 9 + h) =~= head);
    assert(s.subrange(9 + h, 9 + h + b) =~= body);
    assert(s[9 + h + b] == FRAME_END);
    assert(s.skip(9 + h + b + 1) =~= rest);
}

} // verus!
