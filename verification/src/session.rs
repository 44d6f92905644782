//! The transfer session: metadata negotiation, the chunked copy loop's
//! bookkeeping, and the final verification handshake, for both roles.
//!
//! The surrounding program performs the socket and file operations; the
//! session owns every decision. A sender is fed the chunks read from the
//! source and says what to put on the wire; a receiver is fed the chunks
//! read from the wire and classifies how the stream ended. Each side's view
//! of the content is the exact byte sequence fed to its digest accumulator,
//! so agreement of the two digests is stated over equality of those
//! sequences.

use vstd::prelude::*;
use vstd::slice::{slice_subrange, slice_to_vec};
use vstd::utf8::encode_utf8;
use crate::codec::{
    bytes_eq, decode_string_frame, decode_u64, encode_string, encode_u64,
    lemma_string_frame_round_trip, lemma_u64_round_trip, string_frame, u64_be_bytes,
};
use crate::digest::{sha256_of, DigestAccumulator};
use crate::error::{TransferError, MAX_NAME_BYTES};

verus! {

/// Default capacity of the reusable chunk buffer. A tunable: only the
/// framing and bookkeeping semantics are normative, not this byte count.
pub const DEFAULT_CHUNK_CAPACITY: usize = 15;

/// Default deadline, in seconds, for each primitive read or write.
pub const DEFAULT_TIMEOUT_SECS: u64 = 30;

/// What a transfer session negotiates before any content moves: the total
/// byte count and the file name. Immutable for the session's lifetime.
pub struct TransferMetadata {
    pub total_size: u64,
    pub name: String,
}

impl TransferMetadata {
    /// The file name's UTF-8 encoding fits the 2-byte length prefix.
    pub open spec fn name_fits(&self) -> bool {
        encode_utf8(self.name@).len() <= MAX_NAME_BYTES
    }

    /// The metadata as it appears on the wire: the total size as 8
    /// big-endian bytes, then the name as a length-prefixed string frame.
    pub open spec fn wire_bytes(&self) -> Seq<u8> {
        u64_be_bytes(self.total_size) + string_frame(encode_utf8(self.name@))
    }

    /// Frames the metadata for the wire, rejecting a name that would not
    /// fit its length prefix before anything could be transmitted.
    pub fn encode(&self) -> (r: Result<Vec<u8>, TransferError>)
        ensures
            (r is Ok) == self.name_fits(),
            r matches Ok(v) ==> v@ == self.wire_bytes(),
            r matches Err(e) ==> e == TransferError::NameTooLong,
    {
        let name_frame = match encode_string(self.name.as_str()) {
            Ok(f) => f,
            Err(e) => {
                return Err(e);
            },
        };
        let mut v = encode_u64(self.total_size);
        let mut rest = name_frame;
        v.append(&mut rest);
        Ok(v)
    }
}

/// Progress bookkeeping of the copy loop. `bytes_moved` never exceeds
/// `expected_total`, and the session terminates successfully only when the
/// two are equal.
pub struct TransferState {
    pub bytes_moved: u64,
    pub expected_total: u64,
}

impl TransferState {
    /// The invariant held at every observation point.
    pub open spec fn wf(&self) -> bool {
        self.bytes_moved <= self.expected_total
    }

    /// How many content bytes are still owed.
    pub open spec fn spec_remaining(&self) -> u64 {
        (self.expected_total - self.bytes_moved) as u64
    }

    pub fn new(expected_total: u64) -> (s: TransferState)
        ensures
            s.wf(),
            s.bytes_moved == 0,
            s.expected_total == expected_total,
    {
        TransferState { bytes_moved: 0, expected_total }
    }

    /// Accounts for `n` more bytes moved; never past the expected total.
    pub fn advance(&mut self, n: u64)
        requires
            old(self).wf(),
            n <= old(self).spec_remaining(),
        ensures
            final(self).wf(),
            final(self).bytes_moved == old(self).bytes_moved + n,
            final(self).expected_total == old(self).expected_total,
    {
        self.bytes_moved = self.bytes_moved + n;
    }

    /// Whether the promised byte count has been fulfilled.
    pub fn is_complete(&self) -> (r: bool)
        ensures
            r == (self.bytes_moved == self.expected_total),
    {
        self.bytes_moved == self.expected_total
    }

    pub fn remaining(&self) -> (r: u64)
        requires
            self.wf(),
        ensures
            r == self.spec_remaining(),
    {
        self.expected_total - self.bytes_moved
    }
}

/// How a completed transfer ended on the receiving side. A mismatch is a
/// reported outcome, not a thrown error: the destination file has already
/// been written in full either way.
pub enum TransferOutcome {
    /// The sender's digest equals the locally computed one.
    Verified { digest: Vec<u8> },
    /// The digests disagree; both are kept for diagnosis.
    Mismatched { received: Vec<u8>, calculated: Vec<u8> },
}

/// Where a sender stands in its state machine. The connection-side states
/// live with the surrounding program's sockets, and the terminal states —
/// done or failed — are the result of `finish`; between those, the session
/// itself enforces that metadata goes out before any content.
#[derive(Clone, Copy, Debug, PartialEq, Eq, Structural)]
pub enum SenderPhase {
    SendingMetadata,
    Streaming,
}

/// The sender's side of one transfer: drives the digest over the chunks it
/// puts on the wire and checks its own source kept the metadata's promise.
pub struct SenderSession {
    meta: TransferMetadata,
    state: TransferState,
    digest: DigestAccumulator,
    phase: SenderPhase,
}

impl SenderSession {
    /// The bytes put on the wire so far, in order.
    pub closed spec fn sent(&self) -> Seq<u8> {
        self.digest@
    }

    /// Where the session stands: metadata first, then streaming.
    pub closed spec fn phase(&self) -> SenderPhase {
        self.phase
    }

    /// The total byte count advertised in the metadata.
    pub closed spec fn total(&self) -> u64 {
        self.meta.total_size
    }

    /// Content bytes moved so far.
    pub closed spec fn moved(&self) -> u64 {
        self.state.bytes_moved
    }

    /// The advertised file name.
    pub closed spec fn name(&self) -> Seq<char> {
        self.meta.name@
    }

    /// Internal consistency: the digest has been fed exactly the moved
    /// bytes, the count never exceeds the advertised total, and the name
    /// fits its length prefix.
    pub closed spec fn wf(&self) -> bool {
        &&& self.state.wf()
        &&& self.state.expected_total == self.meta.total_size
        &&& self.digest@.len() == self.state.bytes_moved
        &&& self.meta.name_fits()
    }

    /// Opens a session for a source of `total_size` bytes. Fails exactly
    /// when the name's UTF-8 encoding overflows the wire format's 2-byte
    /// length prefix, before anything could be transmitted.
    pub fn new(total_size: u64, name: String) -> (r: Result<SenderSession, TransferError>)
        ensures
            (r is Ok) == (encode_utf8(name@).len() <= MAX_NAME_BYTES),
            r matches Err(e) ==> e == TransferError::NameTooLong,
            r matches Ok(s) ==> {
                &&& s.wf()
                &&& s.total() == total_size
                &&& s.moved() == 0
                &&& s.sent() == Seq::<u8>::empty()
                &&& s.name() == name@
                &&& s.phase() == SenderPhase::SendingMetadata
            },
    {
        let bytes: &[u8] = name.as_str().as_bytes();
        if bytes.len() > MAX_NAME_BYTES {
            return Err(TransferError::NameTooLong);
        }
        Ok(
            SenderSession {
                meta: TransferMetadata { total_size, name },
                state: TransferState::new(total_size),
                digest: DigestAccumulator::new(),
                phase: SenderPhase::SendingMetadata,
            },
        )
    }

    /// The metadata frame to write before any content: total size, then
    /// the name, after which the session is streaming. A well-formed
    /// session's name always fits, so this cannot fail.
    pub fn metadata_frame(&mut self) -> (r: Vec<u8>)
        requires
            old(self).wf(),
            old(self).phase() == SenderPhase::SendingMetadata,
        ensures
            final(self).wf(),
            final(self).phase() == SenderPhase::Streaming,
            final(self).total() == old(self).total(),
            final(self).name() == old(self).name(),
            final(self).moved() == old(self).moved(),
            final(self).sent() == old(self).sent(),
            r@ == u64_be_bytes(old(self).total()) + string_frame(encode_utf8(old(self).name())),
    {
        self.phase = SenderPhase::Streaming;
        match self.meta.encode() {
            Ok(v) => v,
            Err(_) => {
                proof {
                    assert(false);
                }
                Vec::new()
            },
        }
    }

    /// Accounts for one chunk read from the source and written to the
    /// wire: the digest absorbs exactly these bytes and the moved count
    /// grows by their number. The source may not run past its own
    /// advertised size.
    pub fn process_chunk(&mut self, chunk: &[u8])
        requires
            old(self).wf(),
            old(self).phase() == SenderPhase::Streaming,
            chunk@.len() <= old(self).total() - old(self).moved(),
        ensures
            final(self).wf(),
            final(self).phase() == SenderPhase::Streaming,
            final(self).total() == old(self).total(),
            final(self).name() == old(self).name(),
            final(self).moved() == old(self).moved() + chunk@.len(),
            final(self).sent() == old(self).sent() + chunk@,
    {
        self.digest.update(chunk);
        self.state.advance(chunk.len() as u64);
    }

    /// Whether the copy loop still owes bytes.
    pub fn needs_more(&self) -> (r: bool)
        requires
            self.wf(),
        ensures
            r == (self.moved() < self.total()),
    {
        !self.state.is_complete()
    }

    /// How many bytes are still owed; the next chunk must not be larger.
    pub fn remaining(&self) -> (r: u64)
        requires
            self.wf(),
        ensures
            r == self.total() - self.moved(),
    {
        self.state.remaining()
    }

    /// Ends the streaming phase. If the source stopped short of the
    /// advertised size the transfer is incomplete, a terminal,
    /// non-retryable condition; otherwise the finalized 32-byte digest of
    /// everything sent is handed back to be written after the content.
    pub fn finish(self) -> (r: Result<Vec<u8>, TransferError>)
        requires
            self.wf(),
            self.phase() == SenderPhase::Streaming,
        ensures
            (r is Ok) == (self.moved() == self.total()),
            r matches Ok(d) ==> d@ == sha256_of(self.sent()) && d@.len() == 32,
            r matches Err(e) ==> e == (TransferError::Incomplete {
                expected: self.total(),
                received: self.moved(),
            }),
    {
        if !self.state.is_complete() {
            return Err(
                TransferError::Incomplete {
                    expected: self.state.expected_total,
                    received: self.state.bytes_moved,
                },
            );
        }
        Ok(self.digest.finalize())
    }
}

/// The receiver's side of one transfer: drives the digest over the chunks
/// it takes off the wire, classifies a premature end of stream, and
/// performs the final digest comparison.
pub struct ReceiverSession {
    meta: TransferMetadata,
    state: TransferState,
    digest: DigestAccumulator,
}

impl ReceiverSession {
    /// The bytes taken off the wire so far, in order.
    pub closed spec fn received(&self) -> Seq<u8> {
        self.digest@
    }

    /// The total byte count the sender advertised.
    pub closed spec fn total(&self) -> u64 {
        self.meta.total_size
    }

    /// Content bytes moved so far.
    pub closed spec fn moved(&self) -> u64 {
        self.state.bytes_moved
    }

    /// The file name the sender advertised, decoded lossily.
    pub closed spec fn name(&self) -> Seq<char> {
        self.meta.name@
    }

    /// Internal consistency: the digest has been fed exactly the moved
    /// bytes and the count never exceeds the advertised total.
    pub closed spec fn wf(&self) -> bool {
        &&& self.state.wf()
        &&& self.state.expected_total == self.meta.total_size
        &&& self.digest@.len() == self.state.bytes_moved
    }

    /// Opens a session from the metadata just read off the wire.
    pub fn new(total_size: u64, name: String) -> (r: ReceiverSession)
        ensures
            r.wf(),
            r.total() == total_size,
            r.moved() == 0,
            r.received() == Seq::<u8>::empty(),
            r.name() == name@,
    {
        ReceiverSession {
            meta: TransferMetadata { total_size, name },
            state: TransferState::new(total_size),
            digest: DigestAccumulator::new(),
        }
    }

    /// Whether the streaming loop still owes bytes.
    pub fn needs_more(&self) -> (r: bool)
        requires
            self.wf(),
        ensures
            r == (self.moved() < self.total()),
    {
        !self.state.is_complete()
    }

    /// How many bytes are still owed; the loop never reads past them.
    pub fn remaining(&self) -> (r: u64)
        requires
            self.wf(),
        ensures
            r == self.total() - self.moved(),
    {
        self.state.remaining()
    }

    /// Accounts for one read from the wire during streaming. A zero-length
    /// read before the advertised count is fulfilled is a premature close
    /// and fails with exactly the expected and received byte counts; a
    /// non-empty chunk is absorbed into the digest and the bookkeeping.
    pub fn process_chunk(&mut self, chunk: &[u8]) -> (r: Result<(), TransferError>)
        requires
            old(self).wf(),
            old(self).moved() < old(self).total(),
            chunk@.len() <= old(self).total() - old(self).moved(),
        ensures
            final(self).wf(),
            final(self).total() == old(self).total(),
            final(self).name() == old(self).name(),
            (r is Ok) == (chunk@.len() > 0),
            r is Ok ==> final(self).moved() == old(self).moved() + chunk@.len()
                && final(self).received() == old(self).received() + chunk@,
            r matches Err(e) ==> e == (TransferError::Incomplete {
                expected: old(self).total(),
                received: old(self).moved(),
            }) && final(self).moved() == old(self).moved()
                && final(self).received() == old(self).received(),
    {
        if chunk.len() == 0 {
            return Err(
                TransferError::Incomplete {
                    expected: self.state.expected_total,
                    received: self.state.bytes_moved,
                },
            );
        }
        self.digest.update(chunk);
        self.state.advance(chunk.len() as u64);
        Ok(())
    }

    /// The final handshake, once the advertised count is fulfilled:
    /// compares the 32 digest bytes read from the wire against the locally
    /// computed digest, byte for byte. The outcome is `Verified` exactly
    /// when they agree; on a mismatch both digests are kept for diagnosis.
    pub fn verify(self, sender_digest: &[u8]) -> (outcome: TransferOutcome)
        requires
            self.wf(),
            self.moved() == self.total(),
            sender_digest@.len() == 32,
        ensures
            (outcome matches TransferOutcome::Verified { .. }) == (sender_digest@ == sha256_of(
                self.received(),
            )),
            outcome matches TransferOutcome::Verified { digest } ==> digest@ == sha256_of(
                self.received(),
            ),
            outcome matches TransferOutcome::Mismatched { received, calculated } ==> received@
                == sender_digest@ && calculated@ == sha256_of(self.received()),
    {
        let calculated = self.digest.finalize();
        if bytes_eq(sender_digest, calculated.as_slice()) {
            TransferOutcome::Verified { digest: calculated }
        } else {
            let received = slice_to_vec(sender_digest);
            TransferOutcome::Mismatched { received, calculated }
        }
    }
}

/// For every successful round trip — the receiver took off the wire exactly
/// the bytes the sender put on it — the sender-computed digest equals the
/// receiver-computed digest: each side's digest is a function of the byte
/// sequence its accumulator was fed, and those sequences are equal.
pub proof fn lemma_round_trip_digests_agree(sender: SenderSession, receiver: ReceiverSession)
    requires
        sender.sent() == receiver.received(),
    ensures
        sha256_of(sender.sent()) == sha256_of(receiver.received()),
{
}

/// A complete send-and-receive round trip over an in-memory wire that
/// delivers every chunk in order: the destination ends up byte-for-byte
/// equal to the source, both sides compute the same digest, and the
/// receiver's outcome is `Verified` — for a source of any size, including
/// zero bytes, and any positive chunk capacity.
pub fn loopback_transfer(source: &Vec<u8>, chunk_capacity: usize, name: String) -> (r: (
    Vec<u8>,
    TransferOutcome,
))
    requires
        chunk_capacity >= 1,
        encode_utf8(name@).len() <= MAX_NAME_BYTES,
    ensures
        r.0@ == source@,
        r.1 matches TransferOutcome::Verified { digest } && digest@ == sha256_of(source@),
{
    let total: u64 = source.len() as u64;
    let mut sender = match SenderSession::new(total, name) {
        Ok(s) => s,
        Err(_) => {
            proof {
                assert(false);
            }
            SenderSession {
                meta: TransferMetadata { total_size: 0, name: String::new() },
                state: TransferState::new(0),
                digest: DigestAccumulator::new(),
                phase: SenderPhase::SendingMetadata,
            }
        },
    };
    let ghost name_chars = sender.name();

    // Metadata crosses the wire and is decoded on the far side.
    let meta_frame = sender.metadata_frame();
    proof {
        lemma_string_frame_round_trip(name_chars);
    }
    let size_part: &[u8] = slice_subrange(meta_frame.as_slice(), 0, 8);
    proof {
        assert(size_part@ =~= u64_be_bytes(total));
        lemma_u64_round_trip(total, size_part@);
    }
    let peer_total = decode_u64(size_part);
    let name_part: &[u8] = slice_subrange(meta_frame.as_slice(), 8, meta_frame.len());
    proof {
        assert(name_part@ =~= string_frame(encode_utf8(name_chars)));
    }
    let peer_name = match decode_string_frame(name_part) {
        Some(p) => p.0,
        None => {
            proof {
                assert(false);
            }
            String::new()
        },
    };
    let mut receiver = ReceiverSession::new(peer_total, peer_name);

    // The chunked copy loop: read from the source, deliver, write out.
    let mut dest: Vec<u8> = Vec::new();
    let mut pos: usize = 0;
    while pos < source.len()
        invariant
            chunk_capacity >= 1,
            pos <= source@.len(),
            source@.len() == total,
            sender.wf(),
            receiver.wf(),
            sender.phase() == SenderPhase::Streaming,
            sender.total() == total,
            receiver.total() == total,
            sender.moved() == pos,
            receiver.moved() == pos,
            sender.sent() == source@.subrange(0, pos as int),
            receiver.received() == source@.subrange(0, pos as int),
            dest@ == source@.subrange(0, pos as int),
        decreases source@.len() - pos,
    {
        let end: usize = if source.len() - pos < chunk_capacity {
            source.len()
        } else {
            pos + chunk_capacity
        };
        let chunk: &[u8] = slice_subrange(source.as_slice(), pos, end);
        sender.process_chunk(chunk);
        match receiver.process_chunk(chunk) {
            Ok(()) => {},
            Err(_) => {
                proof {
                    assert(false);
                }
            },
        }
        let mut written = slice_to_vec(chunk);
        dest.append(&mut written);
        pos = end;
        proof {
            assert(sender.sent() =~= source@.subrange(0, pos as int));
            assert(receiver.received() =~= source@.subrange(0, pos as int));
            assert(dest@ =~= source@.subrange(0, pos as int));
        }
    }
    proof {
        assert(source@.subrange(0, source@.len() as int) =~= source@);
    }

    // The digest crosses the wire and the receiver checks it.
    let digest_frame = match sender.finish() {
        Ok(d) => d,
        Err(_) => {
            proof {
                assert(false);
            }
            Vec::new()
        },
    };
    let outcome = receiver.verify(digest_frame.as_slice());
    (dest, outcome)
}

} // verus!
