//! Hardware quotes: the structured evidence the trust module produces over
//! the selected platform configuration register and a challenge nonce.
//!
//! The signature scheme is a deterministic keyed tag over the quote body,
//! recomputed and compared byte for byte by the verifier; the body is the
//! length-prefixed wire encoding of the signed fields.

use vstd::prelude::*;

verus! {

/// Initial state of the keyed tag computation.
pub const TAG_SEED: u64 = 0x415f5447;

/// One step of the tag computation: fold a byte into the 32-bit state.
pub open spec fn tag_step(acc: u64, b: u8) -> u64 {
    ((acc * 31 + b) % 0x1_0000_0000) as u64
}

/// Fold a whole byte string into the tag state, front to back.
pub open spec fn absorb(acc: u64, data: Seq<u8>) -> u64
    decreases data.len(),
{
    if data.len() == 0 {
        acc
    } else {
        absorb(tag_step(acc, data[0]), data.drop_first())
    }
}

/// Four little-endian bytes of the low 32 bits of `x`.
pub open spec fn le32(x: int) -> Seq<u8> {
    seq![
        (x % 256) as u8,
        ((x / 256) % 256) as u8,
        ((x / 256 / 256) % 256) as u8,
        ((x / 256 / 256 / 256) % 256) as u8,
    ]
}

/// The keyed tag over a quote body: the signature the trust module's key
/// yields, and the value the verifier recomputes.
pub open spec fn tag_spec(key: Seq<u8>, body: Seq<u8>) -> Seq<u8> {
    le32(absorb(absorb(TAG_SEED, key), body) as int)
}

/// The signed content of a quote: register index, then the measured
/// register value and the embedded nonce, each length-prefixed.
pub open spec fn quote_body(pcr_index: u64, register_value: Seq<u8>, nonce: Seq<u8>) -> Seq<u8> {
    le32(pcr_index as int) + le32(register_value.len() as int) + register_value + le32(
        nonce.len() as int,
    ) + nonce
}

/// Mathematical model of a quote.
pub ghost struct QuoteInfo {
    pub pcr_index: u64,
    pub register_value: Seq<u8>,
    pub nonce: Seq<u8>,
    pub signature: Seq<u8>,
}

impl QuoteInfo {
    /// Field sizes the wire encoding can carry.
    pub open spec fn wf(self) -> bool {
        &&& self.pcr_index < 0x1_0000_0000
        &&& self.register_value.len() < 0x1_0000_0000
        &&& self.nonce.len() < 0x1_0000_0000
        &&& self.signature.len() < 0x1_0000_0000
    }

    /// The body the signature is taken over.
    pub open spec fn body(self) -> Seq<u8> {
        quote_body(self.pcr_index, self.register_value, self.nonce)
    }

    /// Whether the signature validates under `key`.
    pub open spec fn signed_with(self, key: Seq<u8>) -> bool {
        self.signature == tag_spec(key, self.body())
    }
}

/// Structured evidence produced over the current platform state and a
/// challenge: the register selection used, the measured register value,
/// the embedded nonce, and a signature over all of it.
pub struct Quote {
    pub pcr_index: u64,
    pub register_value: Vec<u8>,
    pub nonce: Vec<u8>,
    pub signature: Vec<u8>,
}

impl View for Quote {
    type V = QuoteInfo;

    open spec fn view(&self) -> QuoteInfo {
        QuoteInfo {
            pcr_index: self.pcr_index,
            register_value: self.register_value@,
            nonce: self.nonce@,
            signature: self.signature@,
        }
    }
}

/// Append `src` to `dst`.
pub fn push_bytes(dst: &mut Vec<u8>, src: &Vec<u8>)
    ensures
        final(dst)@ == old(dst)@ + src@,
{
    let n: usize = src.len();
    let mut i: usize = 0;
    while i < n
        invariant
            n == src@.len(),
            i <= n,
            dst@ == old(dst)@ + src@.take(i as int),
        decreases n - i,
    {
        dst.push(src[i]);
        proof {
            assert(old(dst)@ + src@.take(i as int + 1) =~= (old(dst)@ + src@.take(i as int)).push(
                src@[i as int],
            ));
        }
        i += 1;
    }
    proof {
        assert(src@.take(n as int) =~= src@);
    }
}

/// Append the four little-endian bytes of `x` to `out`.
pub fn push_u32_le(out: &mut Vec<u8>, x: u64)
    requires
        x < 0x1_0000_0000,
    ensures
        final(out)@ == old(out)@ + le32(x as int),
{
    out.push((x % 256) as u8);
    out.push(((x / 256) % 256) as u8);
    out.push(((x / 256 / 256) % 256) as u8);
    out.push(((x / 256 / 256 / 256) % 256) as u8);
    proof {
        assert(out@ =~= old(out)@ + le32(x as int));
    }
}

/// Fold `data` into the tag state `acc`.
fn absorb_bytes(acc0: u64, data: &Vec<u8>) -> (r: u64)
    requires
        acc0 < 0x1_0000_0000,
    ensures
        r == absorb(acc0, data@),
        r < 0x1_0000_0000,
{
    let n: usize = data.len();
    let mut acc: u64 = acc0;
    let mut i: usize = 0;
    proof {
        assert(data@.skip(0) =~= data@);
    }
    while i < n
        invariant
            n == data@.len(),
            i <= n,
            acc < 0x1_0000_0000,
            absorb(acc0, data@) == absorb(acc, data@.skip(i as int)),
        decreases n - i,
    {
        let b = data[i];
        proof {
            assert(data@.skip(i as int)[0] == data@[i as int]);
            assert(data@.skip(i as int).drop_first() =~= data@.skip(i as int + 1));
        }
        let t: u64 = acc * 31 + (b as u64);
        acc = t % 0x1_0000_0000;
        i += 1;
    }
    proof {
        assert(data@.skip(n as int) =~= Seq::<u8>::empty());
    }
    acc
}

/// The keyed tag over `body` under `key`: the deterministic signature
/// scheme of the trust module's attestation key.
pub fn compute_tag(key: &Vec<u8>, body: &Vec<u8>) -> (t: Vec<u8>)
    ensures
        t@ == tag_spec(key@, body@),
        t@.len() == 4,
{
    let a1 = absorb_bytes(TAG_SEED, key);
    let a2 = absorb_bytes(a1, body);
    let mut out: Vec<u8> = Vec::new();
    push_u32_le(&mut out, a2);
    proof {
        assert(out@ =~= tag_spec(key@, body@));
    }
    out
}

/// The signed content of a quote, in wire form.
pub fn quote_body_bytes(pcr_index: u64, register_value: &Vec<u8>, nonce: &Vec<u8>) -> (b: Vec<u8>)
    requires
        pcr_index < 0x1_0000_0000,
        register_value@.len() < 0x1_0000_0000,
        nonce@.len() < 0x1_0000_0000,
    ensures
        b@ == quote_body(pcr_index, register_value@, nonce@),
{
    let mut b: Vec<u8> = Vec::new();
    push_u32_le(&mut b, pcr_index);
    push_u32_le(&mut b, register_value.len() as u64);
    push_bytes(&mut b, register_value);
    push_u32_le(&mut b, nonce.len() as u64);
    push_bytes(&mut b, nonce);
    proof {
        assert(b@ =~= quote_body(pcr_index, register_value@, nonce@));
    }
    b
}

/// A quote over the given register state and challenge, signed under `key`.
/// This is the evidence an honest trust module produces: the signature is
/// taken over exactly the register selection, measured value and nonce that
/// the quote embeds.
pub fn sign_quote(key: &Vec<u8>, pcr_index: u64, register_value: Vec<u8>, nonce: Vec<u8>) -> (q:
    Quote)
    requires
        pcr_index < 0x1_0000_0000,
        register_value@.len() < 0x1_0000_0000,
        nonce@.len() < 0x1_0000_0000,
    ensures
        q@.pcr_index == pcr_index,
        q@.register_value == register_value@,
        q@.nonce == nonce@,
        q@.signed_with(key@),
        q@.wf(),
{
    let body = quote_body_bytes(pcr_index, &register_value, &nonce);
    let signature = compute_tag(key, &body);
    Quote { pcr_index, register_value, nonce, signature }
}

} // verus!
