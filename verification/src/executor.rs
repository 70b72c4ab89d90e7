//! The command execution protocol: validating and truncating a request
//! buffer before it is handed to the core's single entry point, and safely
//! reconciling the response — including the edge case where the core hands
//! back a different buffer than the one supplied.
//!
//! The core entry call itself crosses an unsafe boundary the embedder owns:
//! the embedder calls [`request_command_size`], hands the request prefix of
//! that size to the core, converts the core's outcome into a [`CoreResponse`]
//! (performing the pointer-identity and aliasing checks at that boundary),
//! and finishes with [`reconcile_response`].

use vstd::prelude::*;

use crate::error::Error;

verus! {

/// The big-endian 16-bit value at offset `at`.
pub open spec fn spec_be_u16_at(s: Seq<u8>, at: int) -> int {
    s[at] * 0x100 + s[at + 1]
}

/// The big-endian 32-bit value at offset `at`; the command header keeps the
/// total command size there.
pub open spec fn spec_be_u32_at(s: Seq<u8>, at: int) -> int {
    s[at] * 0x100_0000 + s[at + 1] * 0x1_0000 + s[at + 2] * 0x100 + s[at + 3]
}

/// A request shorter than this cannot hold the header's size field.
pub const MIN_REQUEST_LEN: usize = 6;

/// How many bytes of `request` form the command to hand to the core: the
/// size the header declares.
///
/// Fails with `InvalidRequestSize` — before anything reaches the core —
/// exactly when the buffer is too short to hold the size field or the
/// declared size exceeds the physical buffer length. Trailing bytes beyond
/// the declared size are not part of the command and are truncated away by
/// taking only the returned prefix.
pub fn request_command_size(request: &Vec<u8>) -> (r: Result<usize, Error>)
    ensures
        request@.len() < MIN_REQUEST_LEN ==> r == Err::<usize, Error>(Error::InvalidRequestSize),
        request@.len() >= MIN_REQUEST_LEN && spec_be_u32_at(request@, 2) > request@.len() ==> r
            == Err::<usize, Error>(Error::InvalidRequestSize),
        request@.len() >= MIN_REQUEST_LEN && spec_be_u32_at(request@, 2) <= request@.len() ==> r
            == Ok::<usize, Error>(spec_be_u32_at(request@, 2) as usize),
{
    if request.len() < MIN_REQUEST_LEN {
        return Err(Error::InvalidRequestSize);
    }
    let header_size: u32 = (request[2] as u32) * 0x100_0000 + (request[3] as u32) * 0x1_0000 + (
    request[4] as u32) * 0x100 + (request[5] as u32);
    if header_size as u64 > request.len() as u64 {
        return Err(Error::InvalidRequestSize);
    }
    Ok(header_size as usize)
}

/// What the core's entry point handed back, already pulled across the unsafe
/// pointer boundary by the embedder.
pub enum CoreResponse {
    /// The core wrote its reply into the caller's response buffer and
    /// reported its length.
    SameBuffer {
        /// Reply length the core reported.
        len: usize,
    },
    /// The core returned a pointer to a different buffer — typically its
    /// static failure-mode buffer — whose reported bytes the embedder copied
    /// out. A pointer aliasing the request buffer, or a null pointer, is a
    /// fatal invariant violation the embedder refuses before building this.
    DifferentBuffer {
        /// The reply bytes from the core's own buffer.
        data: Vec<u8>,
    },
}

/// Settle the caller's response buffer after the core entry call.
///
/// A reply in the caller's own buffer is returned as its length; a reply in
/// a core-owned buffer is copied into the caller's buffer, bounded by that
/// buffer's capacity. Fails with `InvalidResponseSize` — leaving the buffer
/// untouched — exactly when the core reports more bytes than the caller's
/// buffer can hold.
pub fn reconcile_response(response: &mut Vec<u8>, reply: CoreResponse) -> (r: Result<usize, Error>)
    ensures
        final(response)@.len() == old(response)@.len(),
        reply matches CoreResponse::SameBuffer { len } ==> if len <= old(response)@.len() {
            r == Ok::<usize, Error>(len) && final(response)@ == old(response)@
        } else {
            r == Err::<usize, Error>(Error::InvalidResponseSize) && final(response)@ == old(
                response,
            )@
        },
        reply matches CoreResponse::DifferentBuffer { data } ==> if data@.len() <= old(
            response,
        )@.len() {
            &&& r == Ok::<usize, Error>(data@.len() as usize)
            &&& forall|j: int| 0 <= j < data@.len() ==> final(response)@[j] == data@[j]
            &&& forall|j: int|
                data@.len() <= j < old(response)@.len() ==> final(response)@[j] == old(
                    response,
                )@[j]
        } else {
            r == Err::<usize, Error>(Error::InvalidResponseSize) && final(response)@ == old(
                response,
            )@
        },
{
    match reply {
        CoreResponse::SameBuffer { len } => {
            if len <= response.len() {
                Ok(len)
            } else {
                Err(Error::InvalidResponseSize)
            }
        },
        CoreResponse::DifferentBuffer { data } => {
            if data.len() <= response.len() {
                let n = data.len();
                let mut i: usize = 0;
                while i < n
                    invariant
                        i <= n,
                        n == data@.len(),
                        n <= response@.len(),
                        response@.len() == old(response)@.len(),
                        forall|j: int| 0 <= j < i ==> response@[j] == data@[j],
                        forall|j: int|
                            i <= j < response@.len() ==> response@[j] == old(response)@[j],
                    decreases n - i,
                {
                    let b = data[i];
                    response.set(i, b);
                    i = i + 1;
                }
                Ok(n)
            } else {
                Err(Error::InvalidResponseSize)
            }
        },
    }
}

/// Settle the caller's response buffer after an unchecked core entry call:
/// the caller guarantees the reply fits, and a reply that does not is a
/// fatal condition rather than an error.
pub fn reconcile_response_unchecked(response: &mut Vec<u8>, reply: CoreResponse) -> (r: usize)
    requires
        reply matches CoreResponse::SameBuffer { len } ==> len <= old(response)@.len(),
        reply matches CoreResponse::DifferentBuffer { data } ==> data@.len() <= old(
            response,
        )@.len(),
    ensures
        final(response)@.len() == old(response)@.len(),
        reply matches CoreResponse::SameBuffer { len } ==> r == len && final(response)@ == old(
            response,
        )@,
        reply matches CoreResponse::DifferentBuffer { data } ==> {
            &&& r == data@.len()
            &&& forall|j: int| 0 <= j < data@.len() ==> final(response)@[j] == data@[j]
            &&& forall|j: int|
                data@.len() <= j < old(response)@.len() ==> final(response)@[j] == old(
                    response,
                )@[j]
        },
{
    match reply {
        CoreResponse::SameBuffer { len } => len,
        CoreResponse::DifferentBuffer { data } => {
            let n = data.len();
            let mut i: usize = 0;
            while i < n
                invariant
                    i <= n,
                    n == data@.len(),
                    n <= response@.len(),
                    response@.len() == old(response)@.len(),
                    forall|j: int| 0 <= j < i ==> response@[j] == data@[j],
                    forall|j: int| i <= j < response@.len() ==> response@[j] == old(response)@[j],
                decreases n - i,
            {
                let b = data[i];
                response.set(i, b);
                i = i + 1;
            }
            n
        },
    }
}

/// Pull the reply tag (big-endian 16 bits at offset zero) and response code
/// (big-endian 32 bits at offset six) out of a reply buffer.
pub fn extract_res(res: &Vec<u8>) -> (r: (u16, u32))
    requires
        res@.len() >= 10,
    ensures
        r.0 == spec_be_u16_at(res@, 0),
        r.1 == spec_be_u32_at(res@, 6),
{
    let tag: u16 = (res[0] as u16) * 0x100 + (res[1] as u16);
    let code: u32 = (res[6] as u32) * 0x100_0000 + (res[7] as u32) * 0x1_0000 + (res[8] as u32)
        * 0x100 + (res[9] as u32);
    (tag, code)
}

} // verus!
