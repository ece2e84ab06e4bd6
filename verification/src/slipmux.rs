//! CoAP over a serial line: the buffer that takes one decoded frame, what
//! becomes of a frame, and how a reply is cut into packets.
//!
//! The frame lives in a vector of fixed capacity of the crate `heapless`.

use vstd::prelude::*;

verus! {

/// The largest frame that is kept, in bytes.
pub const MAX_FRAME: usize = 1280;

/// The largest packet of a full-speed USB endpoint, in bytes.
pub const MAX_FULL_SPEED_PACKET_SIZE: u8 = 64;

/// The vector of fixed capacity of the crate `heapless`.
#[verifier::external_type_specification]
#[verifier::external_body]
#[verifier::reject_recursive_types(T)]
pub struct ExHeaplessVec<T, const N: usize>(heapless::Vec<T, N>);

/// The bytes that a frame buffer holds, in order.
pub uninterp spec fn frame_bytes(buffer: heapless::Vec<u8, 1280>) -> Seq<u8>;

/// `heapless::Vec::new`: a vector that holds nothing.
#[verifier::external_body]
fn buffer_new() -> (buffer: heapless::Vec<u8, 1280>)
    ensures
        frame_bytes(buffer).len() == 0,
{
    heapless::Vec::new()
}

/// The length of the slice that `heapless::Vec` derefs to: the number of
/// bytes held, which is never above the capacity.
#[verifier::external_body]
fn buffer_len(buffer: &heapless::Vec<u8, 1280>) -> (n: usize)
    ensures
        n == frame_bytes(*buffer).len(),
        n <= MAX_FRAME,
{
    buffer.len()
}

/// `heapless::Vec::as_slice`, copied: the bytes held, in order.
#[verifier::external_body]
fn buffer_to_vec(buffer: &heapless::Vec<u8, 1280>) -> (bytes: Vec<u8>)
    ensures
        bytes@ == frame_bytes(*buffer),
{
    buffer.as_slice().to_vec()
}

/// `heapless::Vec::push`: below the capacity the byte is appended; at the
/// capacity nothing changes and the byte comes back.
#[verifier::external_body]
fn buffer_push(buffer: &mut heapless::Vec<u8, 1280>, byte: u8) -> (r: Result<(), u8>)
    ensures
        frame_bytes(*old(buffer)).len() < MAX_FRAME ==> r.is_ok() && frame_bytes(*final(buffer))
            == frame_bytes(*old(buffer)).push(byte),
        frame_bytes(*old(buffer)).len() >= MAX_FRAME ==> (r matches Err(b) && b == byte)
            && frame_bytes(*final(buffer)) == frame_bytes(*old(buffer)),
{
    buffer.push(byte)
}

/// `heapless::Vec::clear`: nothing is left.
#[verifier::external_body]
fn buffer_clear(buffer: &mut heapless::Vec<u8, 1280>)
    ensures
        frame_bytes(*final(buffer)).len() == 0,
{
    buffer.clear()
}

/// `heapless::Vec::truncate`: the first `len` bytes are kept; a vector that
/// holds no more than `len` is left as it is.
#[verifier::external_body]
fn buffer_truncate(buffer: &mut heapless::Vec<u8, 1280>, len: usize)
    ensures
        len > frame_bytes(*old(buffer)).len() ==> frame_bytes(*final(buffer)) == frame_bytes(
            *old(buffer),
        ),
        len <= frame_bytes(*old(buffer)).len() ==> frame_bytes(*final(buffer)) == frame_bytes(
            *old(buffer),
        ).subrange(0, len as int),
{
    buffer.truncate(len)
}

/// `heapless::Vec::extend_from_slice`: if all of `other` fits it is
/// appended; if not, nothing changes and the call fails.
#[verifier::external_body]
fn buffer_extend_from_slice(buffer: &mut heapless::Vec<u8, 1280>, other: &Vec<u8>) -> (r: Result<
    (),
    (),
>)
    ensures
        frame_bytes(*old(buffer)).len() + other@.len() <= MAX_FRAME ==> r.is_ok() && frame_bytes(
            *final(buffer),
        ) == frame_bytes(*old(buffer)) + other@,
        frame_bytes(*old(buffer)).len() + other@.len() > MAX_FRAME ==> r.is_err() && frame_bytes(
            *final(buffer),
        ) == frame_bytes(*old(buffer)),
{
    buffer.extend_from_slice(other.as_slice())
}

/// The kinds of frame on the line.
#[derive(Debug, Copy, Clone, PartialEq, Eq, Structural)]
pub enum FrameType {
    /// Text for a human reader.
    Diagnostic,
    /// A CoAP message.
    Configuration,
    /// An IP packet.
    Ip,
}

/// What the decoder reports after a byte.
#[derive(Debug, Copy, Clone, PartialEq, Eq, Structural)]
pub enum DecodeStatus {
    /// The frame goes on.
    Incomplete,
    /// A diagnostic frame is complete.
    FrameCompleteDiagnostic,
    /// A CoAP frame is complete.
    FrameCompleteConfiguration,
    /// An IP frame is complete.
    FrameCompleteIp,
}

/// What is to be done after a byte was decoded.
#[derive(Debug, Copy, Clone, PartialEq, Eq, Structural)]
pub enum Action {
    /// Nothing: read the next byte.
    Continue,
    /// Warn that the byte could not be decoded, and go on with the next.
    WarnDecodingError,
    /// Warn that the peer sent diagnostic data, which is not passed on.
    WarnDiagnostic,
    /// Warn that the peer sent network data, which is not supported.
    WarnNetworkData,
    /// Hand the frame to the CoAP server and send its reply.
    ServeCoap,
}

/// What is wrong with a frame that was meant for the CoAP server.
#[derive(Debug, Copy, Clone, PartialEq, Eq, Structural)]
pub enum RequestError {
    /// The frame did not fit into the buffer.
    TooLong,
    /// The frame is shorter than its checksum.
    TooShort,
}

/// A buffer did not take what was meant for it.
#[derive(Debug, Copy, Clone, PartialEq, Eq, Structural)]
pub struct DoesNotFit;

/// The action after a byte, by what the decoder reported: `Err` stands for
/// a byte that could not be decoded.
pub open spec fn action_for(decoded: Result<DecodeStatus, ()>) -> Action {
    match decoded {
        Err(_) => Action::WarnDecodingError,
        Ok(DecodeStatus::Incomplete) => Action::Continue,
        Ok(DecodeStatus::FrameCompleteDiagnostic) => Action::WarnDiagnostic,
        Ok(DecodeStatus::FrameCompleteIp) => Action::WarnNetworkData,
        Ok(DecodeStatus::FrameCompleteConfiguration) => Action::ServeCoap,
    }
}

/// Returns what is to be done after a byte, by what the decoder reported.
pub fn on_decoded(decoded: Result<DecodeStatus, ()>) -> (a: Action)
    ensures
        a == action_for(decoded),
{
    match decoded {
        Err(_) => Action::WarnDecodingError,
        Ok(DecodeStatus::Incomplete) => Action::Continue,
        Ok(DecodeStatus::FrameCompleteDiagnostic) => Action::WarnDiagnostic,
        Ok(DecodeStatus::FrameCompleteIp) => Action::WarnNetworkData,
        Ok(DecodeStatus::FrameCompleteConfiguration) => Action::ServeCoap,
    }
}

/// The sizes of the packets in which `len` bytes are sent when a packet
/// takes up to `max` bytes. A last packet of exactly 64 bytes is followed
/// by an empty one.
pub open spec fn packets(len: nat, max: nat) -> Seq<nat>
    decreases len,
{
    if len == 0 || max == 0 {
        Seq::empty()
    } else {
        let w = if len < max {
            len
        } else {
            max
        };
        if w == 64 && len == w {
            seq![w, 0]
        } else {
            seq![w] + packets((len - w) as nat, max)
        }
    }
}

/// Returns the sizes of the packets in which `len` bytes are sent when a
/// packet takes up to `max` bytes.
pub fn packet_sizes(len: usize, max: usize) -> (sizes: Vec<usize>)
    requires
        max > 0,
    ensures
        sizes@.len() == packets(len as nat, max as nat).len(),
        forall|i: int| 0 <= i < sizes@.len() ==> sizes@[i] == packets(len as nat, max as nat)[i],
{
    let mut sizes: Vec<usize> = Vec::new();
    let mut remaining = len;
    let ghost all = packets(len as nat, max as nat);
    while remaining > 0
        invariant
            max > 0,
            all == packets(len as nat, max as nat),
            sizes@.len() + packets(remaining as nat, max as nat).len() == all.len(),
            forall|i: int| 0 <= i < sizes@.len() ==> sizes@[i] == all[i],
            forall|i: int|
                0 <= i < packets(remaining as nat, max as nat).len() ==> packets(
                    remaining as nat,
                    max as nat,
                )[i] == all[sizes@.len() + i],
        decreases remaining,
    {
        let ghost rest = packets(remaining as nat, max as nat);
        let to_write = if remaining < max {
            remaining
        } else {
            max
        };
        sizes.push(to_write);
        remaining = remaining - to_write;
        proof {
            assert(rest[0] == to_write);
        }
        if to_write == 64 && remaining == 0 {
            sizes.push(0);
            proof {
                assert(rest =~= seq![64nat, 0nat]);
                assert(rest[1] == 0);
                assert(packets(0, max as nat).len() == 0);
            }
        } else {
            proof {
                let tail = packets(remaining as nat, max as nat);
                assert(rest =~= seq![to_write as nat] + tail);
                assert forall|i: int| 0 <= i < tail.len() implies tail[i] == all[sizes@.len()
                    + i] by {
                    assert(rest[i + 1] == tail[i]);
                }
            }
        }
    }
    sizes
}

/// Takes the bytes of one frame as they are decoded.
pub struct SingleFrameDecoder {
    buffer: heapless::Vec<u8, 1280>,
    overflow: bool,
}

impl SingleFrameDecoder {
    /// The bytes that were kept of the frame.
    pub closed spec fn bytes(&self) -> Seq<u8> {
        frame_bytes(self.buffer)
    }

    /// Whether the frame had more bytes than were kept.
    pub closed spec fn overflowed(&self) -> bool {
        self.overflow
    }

    /// Returns a decoder that holds an empty frame.
    pub fn new() -> (d: SingleFrameDecoder)
        ensures
            d.bytes().len() == 0,
            !d.overflowed(),
    {
        SingleFrameDecoder { buffer: buffer_new(), overflow: false }
    }

    /// Returns the decoded data if complete, as `Ok`. If the buffer
    /// overflew, returns the bytes that were kept, as `Err`.
    pub fn data(&self) -> (r: Result<Vec<u8>, Vec<u8>>)
        ensures
            !self.overflowed() ==> (r matches Ok(b) && b@ == self.bytes()),
            self.overflowed() ==> (r matches Err(b) && b@ == self.bytes()),
    {
        if self.overflow {
            Err(buffer_to_vec(&self.buffer))
        } else {
            Ok(buffer_to_vec(&self.buffer))
        }
    }

    /// Returns the number of bytes that were kept.
    pub fn len(&self) -> (n: usize)
        ensures
            n == self.bytes().len(),
            n <= MAX_FRAME,
    {
        buffer_len(&self.buffer)
    }

    /// A frame begins: what was kept of the frame before is dropped.
    pub fn begin_frame(&mut self, frame_type: FrameType)
        ensures
            final(self).bytes().len() == 0,
            !final(self).overflowed(),
    {
        buffer_clear(&mut self.buffer);
        self.overflow = false;
    }

    /// A byte of the frame: it is kept while there is room. A byte that
    /// finds no room marks the frame as overflown.
    pub fn write_byte(&mut self, byte: u8)
        ensures
            old(self).bytes().len() < MAX_FRAME ==> final(self).bytes() == old(self).bytes().push(
                byte,
            ) && final(self).overflowed() == old(self).overflowed(),
            old(self).bytes().len() >= MAX_FRAME ==> final(self).bytes() == old(self).bytes()
                && final(self).overflowed(),
    {
        if buffer_push(&mut self.buffer, byte).is_err() {
            self.overflow = true;
        }
    }

    /// The frame ends. Nothing is left to do.
    pub fn end_frame(&mut self, failed: bool)
        ensures
            final(self).bytes() == old(self).bytes(),
            final(self).overflowed() == old(self).overflowed(),
    {
    }

    /// Prepares the frame for the CoAP server: the two bytes of the
    /// checksum at its end are cut off. A frame that overflew or is shorter
    /// than its checksum is refused and left as it is.
    pub fn take_request(&mut self) -> (r: Result<usize, RequestError>)
        ensures
            final(self).overflowed() == old(self).overflowed(),
            old(self).overflowed() ==> r == Err::<usize, RequestError>(RequestError::TooLong)
                && final(self).bytes() == old(self).bytes(),
            !old(self).overflowed() && old(self).bytes().len() < 2 ==> r == Err::<
                usize,
                RequestError,
            >(RequestError::TooShort) && final(self).bytes() == old(self).bytes(),
            !old(self).overflowed() && old(self).bytes().len() >= 2 ==> r == Ok::<
                usize,
                RequestError,
            >((old(self).bytes().len() - 2) as usize) && final(self).bytes() == old(
                self,
            ).bytes().subrange(0, old(self).bytes().len() - 2),
    {
        if self.overflow {
            return Err(RequestError::TooLong);
        }
        let len = buffer_len(&self.buffer);
        if len < 2 {
            return Err(RequestError::TooShort);
        }
        let actual_length = len - 2;
        buffer_truncate(&mut self.buffer, actual_length);
        Ok(actual_length)
    }

    /// Hands the request to the CoAP server: the bytes are copied to the
    /// start of `outbuf` and dropped from the frame, and their number is
    /// returned. Fails, and changes nothing, if `outbuf` is too short.
    pub fn receive(&mut self, outbuf: &mut Vec<u8>) -> (r: Result<usize, DoesNotFit>)
        ensures
            final(self).overflowed() == old(self).overflowed(),
            final(outbuf)@.len() == old(outbuf)@.len(),
            old(self).bytes().len() > old(outbuf)@.len() ==> r.is_err() && final(self).bytes()
                == old(self).bytes() && final(outbuf)@ == old(outbuf)@,
            old(self).bytes().len() <= old(outbuf)@.len() ==> r == Ok::<usize, DoesNotFit>(
                old(self).bytes().len() as usize,
            ) && final(self).bytes().len() == 0 && final(outbuf)@ == old(self).bytes() + old(
                outbuf,
            )@.subrange(old(self).bytes().len() as int, old(outbuf)@.len() as int),
    {
        let len = buffer_len(&self.buffer);
        if len > outbuf.len() {
            return Err(DoesNotFit);
        }
        let bytes = buffer_to_vec(&self.buffer);
        let mut i: usize = 0;
        while i < len
            invariant
                i <= len,
                len == bytes@.len(),
                len <= outbuf.len(),
                outbuf@.len() == old(outbuf)@.len(),
                forall|j: int| 0 <= j < i ==> outbuf@[j] == bytes@[j],
                forall|j: int| i <= j < outbuf@.len() ==> outbuf@[j] == old(outbuf)@[j],
            decreases len - i,
        {
            outbuf[i] = bytes[i];
            i += 1;
        }
        buffer_truncate(&mut self.buffer, 0);
        proof {
            assert(outbuf@ =~= old(self).bytes() + old(outbuf)@.subrange(
                old(self).bytes().len() as int,
                old(outbuf)@.len() as int,
            ));
        }
        Ok(len)
    }

    /// Takes the reply of the CoAP server: `data` replaces what the frame
    /// held. If `data` does not fit, the frame is left empty and the call
    /// fails.
    pub fn send_to(&mut self, data: &Vec<u8>) -> (r: Result<(), DoesNotFit>)
        ensures
            final(self).overflowed() == old(self).overflowed(),
            data@.len() <= MAX_FRAME ==> r.is_ok() && final(self).bytes() == data@,
            data@.len() > MAX_FRAME ==> r.is_err() && final(self).bytes().len() == 0,
    {
        buffer_clear(&mut self.buffer);
        match buffer_extend_from_slice(&mut self.buffer, data) {
            Ok(()) => {
                proof {
                    assert(Seq::<u8>::empty() + data@ =~= data@);
                    assert(frame_bytes(self.buffer) =~= data@);
                }
                Ok(())
            },
            Err(_) => Err(DoesNotFit),
        }
    }
}

} // verus!
