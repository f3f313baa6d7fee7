//! The attestation report wire form: the record carried to a remote
//! verifier, every byte field length-prefixed.

use vstd::prelude::*;

use crate::quote::{le32, push_bytes, push_u32_le, Quote};

verus! {

/// The serialized evidence handed to a verifier: the signed quote body and
/// the signature over it.
pub struct AttestationReport {
    pub quote: Vec<u8>,
    pub signature: Vec<u8>,
}

impl AttestationReport {
    /// Field sizes the length prefixes can carry.
    pub open spec fn wf(self) -> bool {
        &&& self.quote@.len() < 0x1_0000_0000
        &&& self.signature@.len() < 0x1_0000_0000
    }
}

/// The value a four-byte little-endian prefix denotes.
pub open spec fn le32_val(b: Seq<u8>) -> int
    recommends
        b.len() == 4,
{
    b[0] + 256 * b[1] + 65536 * b[2] + 16777216 * b[3]
}

/// The wire form of a report: each field length-prefixed.
pub open spec fn report_wire(quote: Seq<u8>, signature: Seq<u8>) -> Seq<u8> {
    le32(quote.len() as int) + quote + le32(signature.len() as int) + signature
}

/// The report a wire string denotes, if it is a well-formed encoding with
/// nothing left over.
pub open spec fn parse_report(b: Seq<u8>) -> Option<(Seq<u8>, Seq<u8>)> {
    if b.len() < 4 {
        None
    } else {
        let qlen = le32_val(b.take(4));
        if b.len() < 4 + qlen {
            None
        } else {
            let quote = b.subrange(4, 4 + qlen);
            let rest = b.skip(4 + qlen);
            if rest.len() < 4 {
                None
            } else {
                let slen = le32_val(rest.take(4));
                if rest.len() != 4 + slen {
                    None
                } else {
                    Some((quote, rest.subrange(4, 4 + slen)))
                }
            }
        }
    }
}

/// Reading back a four-byte little-endian prefix yields the value it was
/// written from.
pub proof fn lemma_le32_round_trip(x: int)
    requires
        0 <= x < 0x1_0000_0000,
    ensures
        le32_val(le32(x)) == x,
{
    assert(x == 256 * (x / 256) + x % 256);
    assert(x / 256 == 256 * (x / 256 / 256) + (x / 256) % 256);
    assert(x / 256 / 256 == 256 * (x / 256 / 256 / 256) + (x / 256 / 256) % 256);
    assert(0 <= x / 256 / 256 / 256 < 256);
}

/// Law: the wire form of a report parses back to exactly the fields it was
/// encoded from.
pub proof fn lemma_report_round_trip(quote: Seq<u8>, signature: Seq<u8>)
    requires
        quote.len() < 0x1_0000_0000,
        signature.len() < 0x1_0000_0000,
    ensures
        parse_report(report_wire(quote, signature)) == Some((quote, signature)),
{
    let w = report_wire(quote, signature);
    let ql = quote.len() as int;
    let sl = signature.len() as int;
    assert(w.take(4) =~= le32(ql));
    lemma_le32_round_trip(ql);
    assert(w.subrange(4, 4 + ql) =~= quote);
    let rest = w.skip(4 + ql);
    assert(rest.take(4) =~= le32(sl));
    lemma_le32_round_trip(sl);
    assert(rest.subrange(4, 4 + sl) =~= signature);
}

/// Package a quote for a remote verifier: the signed body bytes and the
/// signature over them, as one report.
pub fn report_of_quote(q: &Quote) -> (r: AttestationReport)
    requires
        q@.wf(),
        q@.register_value.len() + q@.nonce.len() + 12 < 0x1_0000_0000,
    ensures
        r.quote@ == q@.body(),
        r.signature@ == q@.signature,
        r.wf(),
{
    let body = crate::quote::quote_body_bytes(q.pcr_index, &q.register_value, &q.nonce);
    let signature = crate::bytes::copy_bytes(&q.signature);
    AttestationReport { quote: body, signature }
}

/// Serialize a report: each byte field length-prefixed.
pub fn encode_report(report: &AttestationReport) -> (b: Vec<u8>)
    requires
        report.wf(),
    ensures
        b@ == report_wire(report.quote@, report.signature@),
{
    let mut b: Vec<u8> = Vec::new();
    push_u32_le(&mut b, report.quote.len() as u64);
    push_bytes(&mut b, &report.quote);
    push_u32_le(&mut b, report.signature.len() as u64);
    push_bytes(&mut b, &report.signature);
    proof {
        assert(b@ =~= report_wire(report.quote@, report.signature@));
    }
    b
}

/// The four-byte little-endian value at offset `off`.
fn read_u32_le(bytes: &Vec<u8>, off: usize) -> (r: u64)
    requires
        off + 4 <= bytes@.len(),
    ensures
        r == le32_val(bytes@.subrange(off as int, off as int + 4)),
        r < 0x1_0000_0000,
{
    // Materializes the vector's length so the offset arithmetic is known
    // to stay within `usize`.
    let _len: usize = bytes.len();
    let r: u64 = bytes[off] as u64 + 256 * (bytes[off + 1] as u64) + 65536 * (bytes[off + 2]
        as u64) + 16777216 * (bytes[off + 3] as u64);
    proof {
        let s = bytes@.subrange(off as int, off as int + 4);
        assert(s[0] == bytes@[off as int]);
        assert(s[1] == bytes@[off as int + 1]);
        assert(s[2] == bytes@[off as int + 2]);
        assert(s[3] == bytes@[off as int + 3]);
    }
    r
}

/// A fresh copy of `src[start..end]`.
fn copy_range(src: &Vec<u8>, start: usize, end: usize) -> (r: Vec<u8>)
    requires
        start <= end <= src@.len(),
    ensures
        r@ == src@.subrange(start as int, end as int),
{
    let mut r: Vec<u8> = Vec::new();
    let mut i: usize = start;
    while i < end
        invariant
            start <= i <= end <= src@.len(),
            r@ == src@.subrange(start as int, i as int),
        decreases end - i,
    {
        r.push(src[i]);
        proof {
            assert(src@.subrange(start as int, i as int + 1) =~= src@.subrange(
                start as int,
                i as int,
            ).push(src@[i as int]));
        }
        i += 1;
    }
    r
}

/// Parse a serialized report.  Accepts exactly the well-formed encodings:
/// two length-prefixed fields and nothing left over; anything else is
/// refused.
pub fn decode_report(bytes: &Vec<u8>) -> (r: Option<AttestationReport>)
    ensures
        match r {
            Some(report) => parse_report(bytes@) == Some((report.quote@, report.signature@)),
            None => parse_report(bytes@) is None,
        },
{
    if bytes.len() < 4 {
        return None;
    }
    let qlen64 = read_u32_le(bytes, 0);
    proof {
        assert(bytes@.subrange(0, 4) =~= bytes@.take(4));
    }
    if qlen64 > (bytes.len() - 4) as u64 {
        return None;
    }
    let qlen: usize = qlen64 as usize;
    let quote = copy_range(bytes, 4, 4 + qlen);
    let ghost rest = bytes@.skip(4 + qlen as int);
    if bytes.len() - 4 - qlen < 4 {
        proof {
            assert(rest.len() < 4);
        }
        return None;
    }
    let slen64 = read_u32_le(bytes, 4 + qlen);
    proof {
        assert(bytes@.subrange(4 + qlen as int, 4 + qlen as int + 4) =~= rest.take(4));
    }
    let remaining: usize = bytes.len() - 4 - qlen - 4;
    if slen64 != remaining as u64 {
        proof {
            assert(rest.len() != 4 + le32_val(rest.take(4)));
        }
        return None;
    }
    let slen: usize = slen64 as usize;
    let signature = copy_range(bytes, 4 + qlen + 4, 4 + qlen + 4 + slen);
    proof {
        assert(bytes@.subrange(4, 4 + qlen as int) =~= bytes@.subrange(4, 4 + qlen64 as int));
        assert(rest.subrange(4, 4 + slen as int) =~= bytes@.subrange(
            4 + qlen as int + 4,
            4 + qlen as int + 4 + slen as int,
        ));
    }
    Some(AttestationReport { quote, signature })
}

} // verus!
