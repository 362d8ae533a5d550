//! The wire protocol: a compact, self-describing binary encoding of frames
//! with two logical fields, a short string tag (`kind`) and opaque bytes
//! (`payload`).
//!
//! A frame is a two-element array: the marker `0x92`, then the tag as a
//! short string — a header byte `0xa0 + len` for a tag of up to 31 UTF-8
//! bytes, followed by those bytes — then the payload as a binary blob with
//! a `0xc4`/`0xc5`/`0xc6` header carrying its length in one, two or four
//! big-endian bytes, followed by the payload itself. A frame must be
//! consumed exactly: trailing bytes make it malformed.
//!
//! Both directions are verified against the same specification of the
//! byte layout, and decoding inverts encoding exactly.

use vstd::prelude::*;
use vstd::string::StrSliceExecFns;
use vstd::string::StringSliceAdditionalSpecFns;
use vstd::utf8::{valid_utf8, decode_utf8, encode_utf8};

verus! {

/// A frame of the wire protocol: a string tag naming how the frame is to
/// be routed, and opaque payload bytes.
#[derive(Debug)]
pub struct GenericBinaryMessage {
    pub kind: String,
    pub payload: Vec<u8>,
}

/// The mathematical content of a frame.
#[verifier::ext_equal]
pub struct MessageModel {
    pub kind: Seq<char>,
    pub payload: Seq<u8>,
}

impl View for GenericBinaryMessage {
    type V = MessageModel;

    open spec fn view(&self) -> MessageModel {
        MessageModel { kind: self.kind@, payload: self.payload@ }
    }
}

/// The header of the tag field: its UTF-8 byte length, below 32, folded
/// into a single marker byte.
pub open spec fn spec_kind_header(n: nat) -> Seq<u8> {
    seq![(0xa0 + n) as u8]
}

/// The header of the payload field: a marker and the length in one, two or
/// four big-endian bytes, whichever is shortest.
pub open spec fn spec_payload_header(n: nat) -> Seq<u8> {
    if n < 0x100 {
        seq![0xc4u8, n as u8]
    } else if n < 0x10000 {
        seq![0xc5u8, (n / 0x100) as u8, (n % 0x100) as u8]
    } else {
        seq![
            0xc6u8,
            (n / 0x1000000) as u8,
            ((n / 0x10000) % 0x100) as u8,
            ((n / 0x100) % 0x100) as u8,
            (n % 0x100) as u8,
        ]
    }
}

/// Which frames the format can carry: a tag of at most 31 UTF-8 bytes and
/// a payload whose length fits the four-byte header and leaves room for
/// the frame around it in an addressable buffer.
pub open spec fn spec_encodable(m: MessageModel) -> bool {
    &&& encode_utf8(m.kind).len() < 32
    &&& m.payload.len() < 0x1_0000_0000
    &&& m.payload.len() + 40 <= usize::MAX
}

/// The exact bytes of an encodable frame on the wire.
pub open spec fn spec_encode_frame(m: MessageModel) -> Seq<u8> {
    seq![0x92u8] + spec_kind_header(encode_utf8(m.kind).len()) + encode_utf8(m.kind)
        + spec_payload_header(m.payload.len()) + m.payload
}

/// Parse the payload field starting at position `i`, the tag having
/// decoded to `kind`. The payload must reach exactly to the end of the
/// frame, and a four-byte length must leave the whole frame addressable.
pub open spec fn spec_decode_payload(b: Seq<u8>, i: int, kind: Seq<char>) -> Option<MessageModel> {
    if i >= b.len() {
        None
    } else if b[i] == 0xc4 {
        if b.len() < i + 2 {
            None
        } else {
            let plen = b[i + 1] as int;
            if b.len() == i + 2 + plen {
                Some(MessageModel { kind, payload: b.subrange(i + 2, b.len() as int) })
            } else {
                None
            }
        }
    } else if b[i] == 0xc5 {
        if b.len() < i + 3 {
            None
        } else {
            let plen = b[i + 1] * 0x100 + b[i + 2];
            if b.len() == i + 3 + plen {
                Some(MessageModel { kind, payload: b.subrange(i + 3, b.len() as int) })
            } else {
                None
            }
        }
    } else if b[i] == 0xc6 {
        if b.len() < i + 5 {
            None
        } else {
            let plen = b[i + 1] * 0x1000000 + b[i + 2] * 0x10000 + b[i + 3] * 0x100 + b[i + 4];
            if plen + 40 <= usize::MAX && b.len() == i + 5 + plen {
                Some(MessageModel { kind, payload: b.subrange(i + 5, b.len() as int) })
            } else {
                None
            }
        }
    } else {
        None
    }
}

/// What a byte sequence decodes to, if anything: the frame structure, with
/// the tag bytes required to be valid UTF-8.
pub open spec fn spec_decode_frame(b: Seq<u8>) -> Option<MessageModel> {
    if b.len() < 2 || b[0] != 0x92 {
        None
    } else if !(0xa0 <= b[1] < 0xc0) {
        None
    } else {
        let klen = b[1] - 0xa0;
        if b.len() < 2 + klen {
            None
        } else {
            let kbytes = b.subrange(2, 2 + klen);
            if !valid_utf8(kbytes) {
                None
            } else {
                spec_decode_payload(b, 2 + klen, decode_utf8(kbytes))
            }
        }
    }
}

/// Encode a frame for the wire. Returns the exact bytes the format
/// prescribes, or nothing when the frame is not encodable: a tag of 32 or
/// more UTF-8 bytes, or a payload too large for the four-byte length
/// header or for an addressable frame.
pub fn encode_frame(msg: &GenericBinaryMessage) -> (r: Option<Vec<u8>>)
    ensures
        spec_encodable(msg@) ==> (r matches Some(v) && v@ == spec_encode_frame(msg@)),
        !spec_encodable(msg@) ==> r is None,
{
    let kb: Vec<u8> = msg.kind.as_str().as_bytes_vec();
    if kb.len() >= 32 {
        return None;
    }
    let plen = msg.payload.len();
    if plen > usize::MAX - 40 {
        return None;
    }
    if plen as u64 >= 0x1_0000_0000u64 {
        return None;
    }
    let mut out: Vec<u8> = Vec::new();
    out.push(0x92);
    out.push(0xa0 + kb.len() as u8);
    out.extend_from_slice(kb.as_slice());
    if plen < 0x100 {
        out.push(0xc4);
        out.push(plen as u8);
    } else if plen < 0x10000 {
        out.push(0xc5);
        out.push((plen / 0x100) as u8);
        out.push((plen % 0x100) as u8);
    } else {
        out.push(0xc6);
        out.push((plen / 0x1000000) as u8);
        out.push(((plen / 0x10000) % 0x100) as u8);
        out.push(((plen / 0x100) % 0x100) as u8);
        out.push((plen % 0x100) as u8);
    }
    out.extend_from_slice(msg.payload.as_slice());
    proof {
        assert(out@ =~= spec_encode_frame(msg@));
    }
    Some(out)
}

/// Relies on `String::from_utf8`: succeeds exactly on valid UTF-8 input
/// and returns its decoding.
#[verifier::external_body]
fn bytes_to_string(bytes: Vec<u8>) -> (r: Option<String>)
    ensures
        r matches Some(s) ==> valid_utf8(bytes@) && s@ == decode_utf8(bytes@),
        r is None ==> !valid_utf8(bytes@),
{
    String::from_utf8(bytes).ok()
}

/// A copy of the bytes of `v` from `start` (inclusive) to `end`
/// (exclusive).
fn vec_range(v: &Vec<u8>, start: usize, end: usize) -> (r: Vec<u8>)
    requires
        start <= end <= v@.len(),
    ensures
        r@ == v@.subrange(start as int, end as int),
{
    let mut r: Vec<u8> = Vec::new();
    let mut i: usize = start;
    while i < end
        invariant
            start <= i <= end <= v@.len(),
            r@ == v@.subrange(start as int, i as int),
        decreases end - i,
    {
        r.push(v[i]);
        proof {
            assert(r@ =~= v@.subrange(start as int, i + 1));
        }
        i = i + 1;
    }
    r
}

/// Decode a frame from the wire. Succeeds exactly on the byte sequences
/// the format describes, returning the frame they carry; anything else —
/// a wrong marker, a truncated field, trailing bytes, a tag that is not
/// UTF-8 — is rejected.
pub fn decode_frame(raw: &Vec<u8>) -> (r: Option<GenericBinaryMessage>)
    ensures
        match spec_decode_frame(raw@) {
            Some(m) => r matches Some(g) && g@ == m,
            None => r is None,
        },
{
    if raw.len() < 2 {
        return None;
    }
    if raw[0] != 0x92 {
        return None;
    }
    let h = raw[1];
    if h < 0xa0 || h >= 0xc0 {
        return None;
    }
    let klen = (h - 0xa0) as usize;
    if raw.len() < 2 + klen {
        return None;
    }
    let kb = vec_range(raw, 2, 2 + klen);
    let kind = match bytes_to_string(kb) {
        Some(s) => s,
        None => {
            return None;
        },
    };
    let pstart = 2 + klen;
    if pstart >= raw.len() {
        return None;
    }
    let marker = raw[pstart];
    if marker == 0xc4 {
        if raw.len() < pstart + 2 {
            return None;
        }
        let plen = raw[pstart + 1] as usize;
        if raw.len() - (pstart + 2) != plen {
            return None;
        }
        let payload = vec_range(raw, pstart + 2, raw.len());
        Some(GenericBinaryMessage { kind, payload })
    } else if marker == 0xc5 {
        if raw.len() < pstart + 3 {
            return None;
        }
        let plen = (raw[pstart + 1] as usize) * 0x100 + (raw[pstart + 2] as usize);
        if raw.len() - (pstart + 3) != plen {
            return None;
        }
        let payload = vec_range(raw, pstart + 3, raw.len());
        Some(GenericBinaryMessage { kind, payload })
    } else if marker == 0xc6 {
        if raw.len() < pstart + 5 {
            return None;
        }
        let plen_wide: u64 = (raw[pstart + 1] as u64) * 0x1000000 + (raw[pstart + 2] as u64)
            * 0x10000 + (raw[pstart + 3] as u64) * 0x100 + (raw[pstart + 4] as u64);
        if plen_wide > (usize::MAX - 40) as u64 {
            return None;
        }
        let plen = plen_wide as usize;
        if raw.len() - (pstart + 5) != plen {
            return None;
        }
        let payload = vec_range(raw, pstart + 5, raw.len());
        Some(GenericBinaryMessage { kind, payload })
    } else {
        None
    }
}

/// The four big-endian digit bytes of a 32-bit length reassemble to the
/// length itself, and the leading digit fits a byte.
proof fn lemma_be32_recompose(n: u64)
    requires
        n < 0x1_0000_0000,
    ensures
        (n / 0x1000000) * 0x1000000 + ((n / 0x10000) % 0x100) * 0x10000 + ((n / 0x100) % 0x100)
            * 0x100 + (n % 0x100) == n,
        n / 0x1000000 < 0x100,
{
    assert((n / 0x1000000) * 0x1000000 + ((n / 0x10000) % 0x100) * 0x10000 + ((n / 0x100) % 0x100)
        * 0x100 + (n % 0x100) == n) by (bit_vector)
        requires
            n < 0x1_0000_0000,
    ;
    assert(n / 0x1000000 < 0x100) by (bit_vector)
        requires
            n < 0x1_0000_0000,
    ;
}

/// The two big-endian digit bytes of a 16-bit length reassemble to the
/// length itself.
proof fn lemma_be16_recompose(n: u64)
    requires
        n < 0x10000,
    ensures
        (n / 0x100) * 0x100 + (n % 0x100) == n,
        n / 0x100 < 0x100,
{
    assert((n / 0x100) * 0x100 + (n % 0x100) == n) by (bit_vector)
        requires
            n < 0x10000,
    ;
    assert(n / 0x100 < 0x100) by (bit_vector)
        requires
            n < 0x10000,
    ;
}

/// Every frame that decodes successfully can be encoded again: its tag
/// came from a header of at most 31 bytes, and its payload length passed
/// the header's own bounds.
pub proof fn lemma_decoded_encodable(b: Seq<u8>)
    ensures
        spec_decode_frame(b) matches Some(m) ==> spec_encodable(m),
{
    if spec_decode_frame(b) is Some {
        let klen = b[1] - 0xa0;
        let kbytes = b.subrange(2, 2 + klen);
        vstd::utf8::decode_utf8_encode_utf8(kbytes);
        assert(encode_utf8(decode_utf8(kbytes)).len() == klen < 32);
        let i = 2 + klen;
        let m = spec_decode_frame(b)->Some_0;
        if b[i] == 0xc4 {
            assert(m.payload.len() == b[i + 1]);
        } else if b[i] == 0xc5 {
            assert(m.payload.len() == b[i + 1] * 0x100 + b[i + 2] < 0x10000);
            assert(0x10000 + 40 <= usize::MAX);
        } else {
            assert(m.payload.len() + 40 <= usize::MAX);
        }
    }
}

/// Decoding inverts encoding: every encodable frame, once encoded, decodes
/// back to exactly itself.
pub proof fn lemma_decode_encode_frame(m: MessageModel)
    requires
        spec_encodable(m),
    ensures
        spec_decode_frame(spec_encode_frame(m)) == Some(m),
{
    let kb = encode_utf8(m.kind);
    let klen = kb.len() as int;
    let p = m.payload.len() as int;
    let ph = spec_payload_header(m.payload.len());
    let e = spec_encode_frame(m);
    let i = 2 + klen;

    vstd::utf8::encode_utf8_valid_utf8(m.kind);
    vstd::utf8::encode_utf8_decode_utf8(m.kind);

    assert(e.len() == 2 + klen + ph.len() + p);
    assert(e[0] == 0x92);
    assert(e[1] == (0xa0 + klen) as u8);
    assert(0xa0 <= e[1] < 0xc0);
    assert(e[1] - 0xa0 == klen);
    assert(e.subrange(2, 2 + klen) =~= kb);
    assert(forall|j: int| 0 <= j < ph.len() ==> e[i + j] == ph[j]);
    assert(e.subrange(i + ph.len(), e.len() as int) =~= m.payload);

    if p < 0x100 {
        assert(e[i] == 0xc4);
        assert(e[i + 1] as int == p);
        assert(spec_decode_payload(e, i, decode_utf8(kb)) == Some(
            MessageModel { kind: m.kind, payload: e.subrange(i + 2, e.len() as int) },
        ));
    } else if p < 0x10000 {
        lemma_be16_recompose(p as u64);
        assert(e[i] == 0xc5);
        assert(e[i + 1] as int == p / 0x100 && e[i + 2] as int == p % 0x100);
        assert(e[i + 1] * 0x100 + e[i + 2] == p);
        assert(spec_decode_payload(e, i, decode_utf8(kb)) == Some(
            MessageModel { kind: m.kind, payload: e.subrange(i + 3, e.len() as int) },
        ));
    } else {
        lemma_be32_recompose(p as u64);
        assert(e[i] == 0xc6);
        assert(e[i + 1] as int == p / 0x1000000);
        assert(e[i + 2] as int == (p / 0x10000) % 0x100);
        assert(e[i + 3] as int == (p / 0x100) % 0x100);
        assert(e[i + 4] as int == p % 0x100);
        assert(e[i + 1] * 0x1000000 + e[i + 2] * 0x10000 + e[i + 3] * 0x100 + e[i + 4] == p);
        assert(spec_decode_payload(e, i, decode_utf8(kb)) == Some(
            MessageModel { kind: m.kind, payload: e.subrange(i + 5, e.len() as int) },
        ));
    }
    assert(spec_decode_frame(e) == Some(MessageModel { kind: m.kind, payload: m.payload }));
    assert(Some(MessageModel { kind: m.kind, payload: m.payload }) == Some(m));
}

} // verus!
