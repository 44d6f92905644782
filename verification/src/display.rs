//! Verified construction of the user-facing text: decimal renderings of
//! byte counts, hexadecimal renderings of digests, and the lines printed
//! around a session's end. The surrounding program only prints what these
//! functions build.

use vstd::prelude::*;
use vstd::string::StringExecFns;
use vstd::utf8::{encode_utf8, is_ascii_chars, valid_utf8};
use vstd::utf8::is_ascii_chars_encode_utf8;
use crate::codec::decode_string;
use crate::error::TransferError;
use crate::session::TransferOutcome;

verus! {

/// The character for one decimal digit value.
pub open spec fn dec_digit(d: u8) -> char
    recommends
        d < 10,
{
    ((d + 48) as u8) as char
}

/// The decimal rendering of a number, most significant digit first, no
/// leading zeros (and `0` itself as a single digit).
pub open spec fn dec_chars_of(n: nat) -> Seq<char>
    decreases n,
{
    if n < 10 {
        seq![dec_digit(n as u8)]
    } else {
        dec_chars_of(n / 10) + seq![dec_digit((n % 10) as u8)]
    }
}

/// The character for one hexadecimal digit value, lowercase.
pub open spec fn hex_digit(d: u8) -> char
    recommends
        d < 16,
{
    if d < 10 {
        ((d + 48) as u8) as char
    } else {
        ((d + 87) as u8) as char
    }
}

/// The lowercase hexadecimal rendering of a byte sequence: two digits per
/// byte, most significant nibble first.
pub open spec fn hex_chars_of(bytes: Seq<u8>) -> Seq<char>
    decreases bytes.len(),
{
    if bytes.len() == 0 {
        Seq::empty()
    } else {
        seq![hex_digit(bytes.first() >> 4u8), hex_digit(bytes.first() & 0x0fu8)]
            + hex_chars_of(bytes.drop_first())
    }
}

/// Relies on `hex::encode`: lowercase hexadecimal, two digits per byte,
/// most significant nibble first, a function of the bytes alone.
#[verifier::external_body]
fn hex_encode(bytes: &[u8]) -> (s: String)
    ensures
        s@ == hex_chars_of(bytes@),
{
    hex::encode(bytes)
}

/// The characters a byte sequence spells when every byte is a code point
/// of its own.
pub open spec fn chars_of_bytes(b: Seq<u8>) -> Seq<char> {
    Seq::new(b.len(), |i: int| b[i] as char)
}

/// Renders a number in decimal, exactly as [`dec_chars_of`] spells it.
pub fn u64_to_decimal(n: u64) -> (s: String)
    ensures
        s@ == dec_chars_of(n as nat),
{
    let mut rev: Vec<u8> = Vec::new();
    let mut m: u64 = n;
    if m == 0 {
        rev.push(48);
        proof {
            assert(chars_of_bytes(rev@).reverse() =~= dec_chars_of(n as nat));
        }
    } else {
        while m > 0
            invariant
                forall|k: int| 0 <= k < rev@.len() ==> 48 <= #[trigger] rev@[k] < 58,
                dec_chars_of(n as nat) == (if m > 0 {
                    dec_chars_of(m as nat) + chars_of_bytes(rev@).reverse()
                } else {
                    chars_of_bytes(rev@).reverse()
                }),
            decreases m,
        {
            let d: u8 = (m % 10) as u8 + 48;
            let ghost prev_rev = rev@;
            let ghost prev_m = m;
            rev.push(d);
            m = m / 10;
            proof {
                assert(chars_of_bytes(rev@).reverse() =~= seq![
                    dec_digit((prev_m % 10) as u8),
                ] + chars_of_bytes(prev_rev).reverse());
                if prev_m >= 10 {
                    assert(dec_chars_of(prev_m as nat) == dec_chars_of((prev_m / 10) as nat)
                        + seq![dec_digit((prev_m % 10) as u8)]);
                    assert(dec_chars_of(n as nat) =~= dec_chars_of(m as nat) + chars_of_bytes(
                        rev@,
                    ).reverse());
                } else {
                    assert(dec_chars_of(n as nat) =~= chars_of_bytes(rev@).reverse());
                }
            }
        }
    }
    let mut out: Vec<u8> = Vec::new();
    let mut j: usize = 0;
    while j < rev.len()
        invariant
            j <= rev@.len(),
            forall|k: int| 0 <= k < rev@.len() ==> 48 <= #[trigger] rev@[k] < 58,
            out@ == rev@.reverse().subrange(0, j as int),
        decreases rev@.len() - j,
    {
        out.push(rev[rev.len() - 1 - j]);
        j = j + 1;
        proof {
            assert(out@ =~= rev@.reverse().subrange(0, j as int));
        }
    }
    proof {
        assert(out@ =~= rev@.reverse());
        assert(chars_of_bytes(rev@).reverse() =~= chars_of_bytes(out@));
    }
    let ghost c = dec_chars_of(n as nat);
    proof {
        assert(forall|k: int| 0 <= k < out@.len() ==> 48 <= #[trigger] out@[k] < 58);
        assert(is_ascii_chars(c)) by {
            assert(forall|i: int|
                0 <= i < c.len() ==> '\0' <= #[trigger] c[i] <= '\u{7f}') by {
                assert(forall|i: int| 0 <= i < c.len() ==> c[i] == (out@[i] as char));
            }
        }
        is_ascii_chars_encode_utf8(c);
        assert(encode_utf8(c) =~= out@);
    }
    let s = decode_string(out.as_slice());
    proof {
        broadcast use vstd::utf8::encode_utf8_valid_utf8, vstd::utf8::encode_utf8_decode_utf8;

        assert(valid_utf8(out@));
        assert(s@ == c);
    }
    s
}

/// Renders a digest in lowercase hexadecimal.
pub fn digest_hex(digest: &[u8]) -> (s: String)
    ensures
        s@ == hex_chars_of(digest@),
{
    hex_encode(digest)
}

/// The diagnostic line a failed session reports.
pub open spec fn error_message_chars(e: TransferError) -> Seq<char> {
    match e {
        TransferError::Io => "IO error"@,
        TransferError::Timeout => "Connection timeout"@,
        TransferError::Incomplete { expected, received } => "Transfer incomplete: expected "@
            + dec_chars_of(expected as nat) + " bytes, received "@ + dec_chars_of(received as nat)
            + " bytes"@,
        TransferError::NameTooLong => "File name too long"@,
    }
}

impl TransferError {
    /// Spells the failure out for the user, byte counts included.
    pub fn message(&self) -> (s: String)
        ensures
            s@ == error_message_chars(*self),
    {
        match self {
            TransferError::Io => "IO error".to_owned(),
            TransferError::Timeout => "Connection timeout".to_owned(),
            TransferError::Incomplete { expected, received } => {
                let mut s = "Transfer incomplete: expected ".to_owned();
                let exp = u64_to_decimal(*expected);
                s.append(exp.as_str());
                s.append(" bytes, received ");
                let rec = u64_to_decimal(*received);
                s.append(rec.as_str());
                s.append(" bytes");
                proof {
                    assert(s@ =~= error_message_chars(*self));
                }
                s
            },
            TransferError::NameTooLong => "File name too long".to_owned(),
        }
    }
}

/// The report a finished receive session prints: success with the digest,
/// or a mismatch warning with both digests for diagnosis.
pub open spec fn outcome_report_chars(o: TransferOutcome) -> Seq<char> {
    match o {
        TransferOutcome::Verified { digest } => "File hash verified: "@ + hex_chars_of(digest@)
            + "\nTransfer successful!"@,
        TransferOutcome::Mismatched { received, calculated } => {
            "Warning: File hash mismatch!\nReceived:    "@ + hex_chars_of(received@)
                + "\nCalculated:  "@ + hex_chars_of(calculated@)
        },
    }
}

impl TransferOutcome {
    /// Builds the full report for this outcome.
    pub fn report(&self) -> (s: String)
        ensures
            s@ == outcome_report_chars(*self),
    {
        match self {
            TransferOutcome::Verified { digest } => {
                let mut s = "File hash verified: ".to_owned();
                let h = hex_encode(digest.as_slice());
                s.append(h.as_str());
                s.append("\nTransfer successful!");
                proof {
                    assert(s@ =~= outcome_report_chars(*self));
                }
                s
            },
            TransferOutcome::Mismatched { received, calculated } => {
                let mut s = "Warning: File hash mismatch!\nReceived:    ".to_owned();
                let hr = hex_encode(received.as_slice());
                s.append(hr.as_str());
                s.append("\nCalculated:  ");
                let hc = hex_encode(calculated.as_slice());
                s.append(hc.as_str());
                proof {
                    assert(s@ =~= outcome_report_chars(*self));
                }
                s
            },
        }
    }
}

/// The line announcing an incoming file, with its name and size.
pub open spec fn banner_chars(name: Seq<char>, size: u64) -> Seq<char> {
    "Receiving file: "@ + name + " ("@ + dec_chars_of(size as nat) + " bytes)"@
}

/// Builds the announcement line for an incoming file.
pub fn receiving_banner(name: &str, size: u64) -> (s: String)
    ensures
        s@ == banner_chars(name@, size),
{
    let mut s = "Receiving file: ".to_owned();
    s.append(name);
    s.append(" (");
    let d = u64_to_decimal(size);
    s.append(d.as_str());
    s.append(" bytes)");
    proof {
        assert(s@ =~= banner_chars(name@, size));
    }
    s
}

/// The line announcing what the sender computed over the whole source.
pub open spec fn file_hash_line_chars(digest: Seq<u8>) -> Seq<char> {
    "File hash: "@ + hex_chars_of(digest)
}

/// Builds the sender's digest line.
pub fn file_hash_line(digest: &[u8]) -> (s: String)
    ensures
        s@ == file_hash_line_chars(digest@),
{
    let mut s = "File hash: ".to_owned();
    let h = hex_encode(digest);
    s.append(h.as_str());
    proof {
        assert(s@ =~= file_hash_line_chars(digest@));
    }
    s
}

} // verus!
