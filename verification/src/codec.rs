//! The building blocks of the canonical byte format.
//!
//! A value is written as the concatenation of its fields, in order. Integers
//! of 64 bits take one byte when at most 250, else a marker byte (251, 252,
//! 253) followed by the value in 2, 4 or 8 little-endian bytes. Byte strings
//! and texts carry their length first; a text is its UTF-8 bytes. A digest is
//! its 32 bytes. An optional value is a byte 0, or a byte 1 and the value.
//!
//! Every `enc_*` function says what is written, every `parse_*_at` function
//! what a reader finds at a position, and every `lemma_parse_*` that a reader
//! finds again what was written.

use crate::types::{Hash256, WmProfile};
use vstd::bytes;
use vstd::bytes::{
    u16_from_le_bytes, u16_to_le_bytes, u32_from_le_bytes, u32_to_le_bytes, u64_from_le_bytes,
    u64_to_le_bytes,
};
use vstd::prelude::*;
use vstd::slice::slice_subrange;
use vstd::utf8;

verus! {

/// The bytes of a 64-bit integer.
pub open spec fn enc_u64(n: u64) -> Seq<u8> {
    if n <= 250 {
        seq![n as u8]
    } else if n <= 0xffff {
        seq![251u8] + bytes::spec_u16_to_le_bytes(n as u16)
    } else if n <= 0xffff_ffff {
        seq![252u8] + bytes::spec_u32_to_le_bytes(n as u32)
    } else {
        seq![253u8] + bytes::spec_u64_to_le_bytes(n)
    }
}

/// The 64-bit integer that starts at `pos`, and the position after it. A
/// reader takes the marker at its word: a small value behind a marker is
/// read as that value.
pub open spec fn parse_u64_at(s: Seq<u8>, pos: int) -> Option<(u64, int)> {
    if pos < 0 || pos >= s.len() {
        None
    } else if s[pos] <= 250 {
        Some((s[pos] as u64, pos + 1))
    } else if s[pos] == 251 {
        if pos + 3 <= s.len() {
            Some((bytes::spec_u16_from_le_bytes(s.subrange(pos + 1, pos + 3)) as u64, pos + 3))
        } else {
            None
        }
    } else if s[pos] == 252 {
        if pos + 5 <= s.len() {
            Some((bytes::spec_u32_from_le_bytes(s.subrange(pos + 1, pos + 5)) as u64, pos + 5))
        } else {
            None
        }
    } else if s[pos] == 253 {
        if pos + 9 <= s.len() {
            Some((bytes::spec_u64_from_le_bytes(s.subrange(pos + 1, pos + 9)), pos + 9))
        } else {
            None
        }
    } else {
        None
    }
}

/// The 32-bit integer that starts at `pos`, and the position after it: as
/// for 64 bits, without the 8-byte form.
pub open spec fn parse_u32_at(s: Seq<u8>, pos: int) -> Option<(u32, int)> {
    if pos < 0 || pos >= s.len() {
        None
    } else if s[pos] <= 250 {
        Some((s[pos] as u32, pos + 1))
    } else if s[pos] == 251 {
        if pos + 3 <= s.len() {
            Some((bytes::spec_u16_from_le_bytes(s.subrange(pos + 1, pos + 3)) as u32, pos + 3))
        } else {
            None
        }
    } else if s[pos] == 252 {
        if pos + 5 <= s.len() {
            Some((bytes::spec_u32_from_le_bytes(s.subrange(pos + 1, pos + 5)), pos + 5))
        } else {
            None
        }
    } else {
        None
    }
}

/// The bytes of a byte string: its length, then its content.
pub open spec fn enc_bytes(b: Seq<u8>) -> Seq<u8> {
    enc_u64(b.len() as u64) + b
}

/// The byte string that starts at `pos`, and the position after it.
pub open spec fn parse_bytes_at(s: Seq<u8>, pos: int) -> Option<(Seq<u8>, int)> {
    match parse_u64_at(s, pos) {
        Some((n, p)) => if p + n <= s.len() {
            Some((s.subrange(p, p + n), p + n))
        } else {
            None
        },
        None => None,
    }
}

/// The bytes of a text: its UTF-8 encoding as a byte string.
pub open spec fn enc_str(c: Seq<char>) -> Seq<u8> {
    enc_bytes(utf8::encode_utf8(c))
}

/// The text that starts at `pos`, and the position after it. Bytes that are
/// not UTF-8 are no text.
pub open spec fn parse_str_at(s: Seq<u8>, pos: int) -> Option<(Seq<char>, int)> {
    match parse_bytes_at(s, pos) {
        Some((b, p)) => if utf8::valid_utf8(b) {
            Some((utf8::decode_utf8(b), p))
        } else {
            None
        },
        None => None,
    }
}

/// The digest with the given 32 bytes.
pub open spec fn digest_from_bytes(b: Seq<u8>) -> Hash256 {
    choose|h: Hash256| h@ == b
}

/// The digest that starts at `pos`, and the position after it.
pub open spec fn parse_digest_at(s: Seq<u8>, pos: int) -> Option<(Hash256, int)> {
    if 0 <= pos && pos + 32 <= s.len() {
        Some((digest_from_bytes(s.subrange(pos, pos + 32)), pos + 32))
    } else {
        None
    }
}

/// The bytes of an optional byte string.
pub open spec fn enc_opt_bytes(o: Option<Seq<u8>>) -> Seq<u8> {
    match o {
        None => seq![0u8],
        Some(b) => seq![1u8] + enc_bytes(b),
    }
}

/// The optional byte string that starts at `pos`, and the position after it.
pub open spec fn parse_opt_bytes_at(s: Seq<u8>, pos: int) -> Option<(Option<Seq<u8>>, int)> {
    if pos < 0 || pos >= s.len() {
        None
    } else if s[pos] == 0 {
        Some((None, pos + 1))
    } else if s[pos] == 1 {
        match parse_bytes_at(s, pos + 1) {
            Some((b, p)) => Some((Some(b), p)),
            None => None,
        }
    } else {
        None
    }
}

/// The bytes of an optional text.
pub open spec fn enc_opt_str(o: Option<Seq<char>>) -> Seq<u8> {
    match o {
        None => seq![0u8],
        Some(c) => seq![1u8] + enc_str(c),
    }
}

/// The optional text that starts at `pos`, and the position after it.
pub open spec fn parse_opt_str_at(s: Seq<u8>, pos: int) -> Option<(Option<Seq<char>>, int)> {
    if pos < 0 || pos >= s.len() {
        None
    } else if s[pos] == 0 {
        Some((None, pos + 1))
    } else if s[pos] == 1 {
        match parse_str_at(s, pos + 1) {
            Some((c, p)) => Some((Some(c), p)),
            None => None,
        }
    } else {
        None
    }
}

/// The bytes of a watermark profile: each bit pattern in 4 little-endian
/// bytes.
pub open spec fn enc_profile(p: WmProfile) -> Seq<u8> {
    bytes::spec_u32_to_le_bytes(p.tau_input) + bytes::spec_u32_to_le_bytes(p.tau_feat) + bytes::spec_u32_to_le_bytes(
        p.logit_band_low,
    ) + bytes::spec_u32_to_le_bytes(p.logit_band_high)
}

/// The watermark profile that starts at `pos`, and the position after it.
pub open spec fn parse_profile_at(s: Seq<u8>, pos: int) -> Option<(WmProfile, int)> {
    if 0 <= pos && pos + 16 <= s.len() {
        Some(
            (
                WmProfile {
                    tau_input: bytes::spec_u32_from_le_bytes(s.subrange(pos, pos + 4)),
                    tau_feat: bytes::spec_u32_from_le_bytes(s.subrange(pos + 4, pos + 8)),
                    logit_band_low: bytes::spec_u32_from_le_bytes(s.subrange(pos + 8, pos + 12)),
                    logit_band_high: bytes::spec_u32_from_le_bytes(s.subrange(pos + 12, pos + 16)),
                },
                pos + 16,
            ),
        )
    } else {
        None
    }
}

/// Appends `src` to `out`.
pub fn put_raw(out: &mut Vec<u8>, src: &[u8])
    ensures
        final(out)@ == old(out)@ + src@,
{
    let mut i: usize = 0;
    while i < src.len()
        invariant
            i <= src.len(),
            out@ == old(out)@ + src@.subrange(0, i as int),
        decreases src.len() - i,
    {
        out.push(src[i]);
        i += 1;
        assert(out@ =~= old(out)@ + src@.subrange(0, i as int));
    }
    assert(src@.subrange(0, src.len() as int) =~= src@);
}

/// Appends the bytes of the integer `n`.
pub fn put_u64(out: &mut Vec<u8>, n: u64)
    ensures
        final(out)@ == old(out)@ + enc_u64(n),
{
    if n <= 250 {
        out.push(n as u8);
        assert(out@ =~= old(out)@ + enc_u64(n));
    } else if n <= 0xffff {
        out.push(251u8);
        let mut le = u16_to_le_bytes(n as u16);
        out.append(&mut le);
        assert(out@ =~= old(out)@ + enc_u64(n));
    } else if n <= 0xffff_ffff {
        out.push(252u8);
        let mut le = u32_to_le_bytes(n as u32);
        out.append(&mut le);
        assert(out@ =~= old(out)@ + enc_u64(n));
    } else {
        out.push(253u8);
        let mut le = u64_to_le_bytes(n);
        out.append(&mut le);
        assert(out@ =~= old(out)@ + enc_u64(n));
    }
}

/// Appends the bit pattern `x` in 4 little-endian bytes.
pub fn put_u32_le(out: &mut Vec<u8>, x: u32)
    ensures
        final(out)@ == old(out)@ + bytes::spec_u32_to_le_bytes(x),
{
    let mut le = u32_to_le_bytes(x);
    out.append(&mut le);
}

/// Appends the byte string `b`: its length, then its content.
pub fn put_bytes(out: &mut Vec<u8>, b: &[u8])
    ensures
        final(out)@ == old(out)@ + enc_bytes(b@),
{
    put_u64(out, b.len() as u64);
    put_raw(out, b);
    assert(out@ =~= old(out)@ + enc_bytes(b@));
}

/// Appends the text `s`.
pub fn put_str(out: &mut Vec<u8>, s: &str)
    ensures
        final(out)@ == old(out)@ + enc_str(s@),
        utf8::encode_utf8(s@).len() <= usize::MAX,
{
    let raw = s.as_bytes();
    assert(raw@.len() == raw.len());
    put_bytes(out, raw);
}

/// Appends the 32 bytes of the digest `h`.
pub fn put_digest(out: &mut Vec<u8>, h: &Hash256)
    ensures
        final(out)@ == old(out)@ + h@,
{
    put_raw(out, h.as_bytes().as_slice());
}

/// Appends the optional byte string `o`.
pub fn put_opt_bytes(out: &mut Vec<u8>, o: &Option<Vec<u8>>)
    ensures
        final(out)@ == old(out)@ + enc_opt_bytes(
            match *o {
                Some(b) => Some(b@),
                None => None,
            },
        ),
        *o matches Some(b) ==> b@.len() <= usize::MAX,
{
    match o {
        None => {
            out.push(0u8);
            assert(out@ =~= old(out)@ + seq![0u8]);
        },
        Some(b) => {
            out.push(1u8);
            assert(b@.len() == b.len());
            put_bytes(out, b.as_slice());
            assert(out@ =~= old(out)@ + (seq![1u8] + enc_bytes(b@)));
        },
    }
}

/// Appends the optional text `o`.
pub fn put_opt_str(out: &mut Vec<u8>, o: &Option<String>)
    ensures
        final(out)@ == old(out)@ + enc_opt_str(
            match *o {
                Some(s) => Some(s@),
                None => None,
            },
        ),
        *o matches Some(s) ==> utf8::encode_utf8(s@).len() <= usize::MAX,
{
    match o {
        None => {
            out.push(0u8);
            assert(out@ =~= old(out)@ + seq![0u8]);
        },
        Some(s) => {
            out.push(1u8);
            put_str(out, s.as_str());
            assert(out@ =~= old(out)@ + (seq![1u8] + enc_str(s@)));
        },
    }
}

/// Appends the watermark profile `p`.
pub fn put_profile(out: &mut Vec<u8>, p: &WmProfile)
    ensures
        final(out)@ == old(out)@ + enc_profile(*p),
{
    put_u32_le(out, p.tau_input);
    put_u32_le(out, p.tau_feat);
    put_u32_le(out, p.logit_band_low);
    put_u32_le(out, p.logit_band_high);
    assert(out@ =~= old(out)@ + enc_profile(*p));
}

/// Calls `String::from_utf8`, which gives the text that the bytes encode
/// when they are well-formed UTF-8 and refuses them otherwise.
#[verifier::external_body]
fn string_from_utf8(raw: Vec<u8>) -> (r: Option<String>)
    ensures
        r is Some <==> utf8::valid_utf8(raw@),
        r matches Some(s) ==> s@ == utf8::decode_utf8(raw@),
{
    String::from_utf8(raw).ok()
}

/// Reads the integer at `pos`.
pub fn take_u64(buf: &[u8], pos: usize) -> (r: Option<(u64, usize)>)
    ensures
        match r {
            Some((n, next)) => parse_u64_at(buf@, pos as int) == Some((n, next as int)),
            None => parse_u64_at(buf@, pos as int) is None,
        },
{
    if pos >= buf.len() {
        return None;
    }
    let left = buf.len() - pos;
    let marker = buf[pos];
    if marker <= 250 {
        Some((marker as u64, pos + 1))
    } else if marker == 251 {
        if left < 3 {
            return None;
        }
        let n = u16_from_le_bytes(slice_subrange(buf, pos + 1, pos + 3));
        Some((n as u64, pos + 3))
    } else if marker == 252 {
        if left < 5 {
            return None;
        }
        let n = u32_from_le_bytes(slice_subrange(buf, pos + 1, pos + 5));
        Some((n as u64, pos + 5))
    } else if marker == 253 {
        if left < 9 {
            return None;
        }
        let n = u64_from_le_bytes(slice_subrange(buf, pos + 1, pos + 9));
        Some((n, pos + 9))
    } else {
        None
    }
}

/// Reads the 32-bit integer at `pos`.
pub fn take_u32(buf: &[u8], pos: usize) -> (r: Option<(u32, usize)>)
    ensures
        match r {
            Some((n, next)) => parse_u32_at(buf@, pos as int) == Some((n, next as int)),
            None => parse_u32_at(buf@, pos as int) is None,
        },
{
    if pos >= buf.len() {
        return None;
    }
    let left = buf.len() - pos;
    let marker = buf[pos];
    if marker <= 250 {
        Some((marker as u32, pos + 1))
    } else if marker == 251 {
        if left < 3 {
            return None;
        }
        let n = u16_from_le_bytes(slice_subrange(buf, pos + 1, pos + 3));
        Some((n as u32, pos + 3))
    } else if marker == 252 {
        if left < 5 {
            return None;
        }
        let n = u32_from_le_bytes(slice_subrange(buf, pos + 1, pos + 5));
        Some((n, pos + 5))
    } else {
        None
    }
}

/// Reads the byte string at `pos`.
pub fn take_bytes(buf: &[u8], pos: usize) -> (r: Option<(Vec<u8>, usize)>)
    ensures
        match r {
            Some((b, next)) => parse_bytes_at(buf@, pos as int) == Some((b@, next as int)),
            None => parse_bytes_at(buf@, pos as int) is None,
        },
{
    match take_u64(buf, pos) {
        None => None,
        Some((n, p)) => {
            let left = buf.len() - p;
            if n > left as u64 {
                None
            } else {
                let end = p + n as usize;
                let mut out: Vec<u8> = Vec::new();
                put_raw(&mut out, slice_subrange(buf, p, end));
                assert(out@ =~= buf@.subrange(p as int, end as int));
                Some((out, end))
            }
        },
    }
}

/// Reads the text at `pos`.
pub fn take_str(buf: &[u8], pos: usize) -> (r: Option<(String, usize)>)
    ensures
        match r {
            Some((s, next)) => parse_str_at(buf@, pos as int) == Some((s@, next as int)),
            None => parse_str_at(buf@, pos as int) is None,
        },
{
    match take_bytes(buf, pos) {
        None => None,
        Some((raw, p)) => match string_from_utf8(raw) {
            None => None,
            Some(s) => Some((s, p)),
        },
    }
}

/// Reads the digest at `pos`.
pub fn take_digest(buf: &[u8], pos: usize) -> (r: Option<(Hash256, usize)>)
    ensures
        match r {
            Some((h, next)) => parse_digest_at(buf@, pos as int) == Some((h, next as int)) && h@
                == buf@.subrange(pos as int, pos + 32),
            None => parse_digest_at(buf@, pos as int) is None,
        },
{
    if pos > buf.len() || buf.len() - pos < 32 {
        return None;
    }
    let mut arr = [0u8; 32];
    let mut i: usize = 0;
    while i < 32
        invariant
            i <= 32,
            pos + 32 <= buf.len(),
            forall|j: int| 0 <= j < i ==> arr@[j] == buf@[pos + j],
        decreases 32 - i,
    {
        arr[i] = buf[pos + i];
        i += 1;
    }
    let h = Hash256(arr);
    proof {
        let want = buf@.subrange(pos as int, pos + 32);
        assert(h@ =~= want);
        crate::types::lemma_digest_by_bytes(h, digest_from_bytes(want));
    }
    Some((h, pos + 32))
}

/// Reads the optional byte string at `pos`.
pub fn take_opt_bytes(buf: &[u8], pos: usize) -> (r: Option<(Option<Vec<u8>>, usize)>)
    ensures
        match r {
            Some((Some(b), next)) => parse_opt_bytes_at(buf@, pos as int) == Some(
                (Some(b@), next as int),
            ),
            Some((None, next)) => parse_opt_bytes_at(buf@, pos as int) == Some(
                (None::<Seq<u8>>, next as int),
            ),
            None => parse_opt_bytes_at(buf@, pos as int) is None,
        },
{
    if pos >= buf.len() {
        return None;
    }
    let tag = buf[pos];
    if tag == 0 {
        Some((None, pos + 1))
    } else if tag == 1 {
        match take_bytes(buf, pos + 1) {
            None => None,
            Some((b, p)) => Some((Some(b), p)),
        }
    } else {
        None
    }
}

/// Reads the optional text at `pos`.
pub fn take_opt_str(buf: &[u8], pos: usize) -> (r: Option<(Option<String>, usize)>)
    ensures
        match r {
            Some((Some(s), next)) => parse_opt_str_at(buf@, pos as int) == Some(
                (Some(s@), next as int),
            ),
            Some((None, next)) => parse_opt_str_at(buf@, pos as int) == Some(
                (None::<Seq<char>>, next as int),
            ),
            None => parse_opt_str_at(buf@, pos as int) is None,
        },
{
    if pos >= buf.len() {
        return None;
    }
    let tag = buf[pos];
    if tag == 0 {
        Some((None, pos + 1))
    } else if tag == 1 {
        match take_str(buf, pos + 1) {
            None => None,
            Some((s, p)) => Some((Some(s), p)),
        }
    } else {
        None
    }
}

/// Reads the watermark profile at `pos`.
pub fn take_profile(buf: &[u8], pos: usize) -> (r: Option<(WmProfile, usize)>)
    ensures
        match r {
            Some((p, next)) => parse_profile_at(buf@, pos as int) == Some((p, next as int)),
            None => parse_profile_at(buf@, pos as int) is None,
        },
{
    if pos > buf.len() || buf.len() - pos < 16 {
        return None;
    }
    let p = WmProfile {
        tau_input: u32_from_le_bytes(slice_subrange(buf, pos, pos + 4)),
        tau_feat: u32_from_le_bytes(slice_subrange(buf, pos + 4, pos + 8)),
        logit_band_low: u32_from_le_bytes(slice_subrange(buf, pos + 8, pos + 12)),
        logit_band_high: u32_from_le_bytes(slice_subrange(buf, pos + 12, pos + 16)),
    };
    Some((p, pos + 16))
}

/// The bytes `e` stand in `s` from position `pos` on.
pub open spec fn holds_at(s: Seq<u8>, pos: int, e: Seq<u8>) -> bool {
    &&& 0 <= pos
    &&& pos + e.len() <= s.len()
    &&& s.subrange(pos, pos + e.len()) == e
}

/// Where two pieces stand one after the other, each stands at its place.
pub proof fn lemma_holds_split(s: Seq<u8>, pos: int, a: Seq<u8>, b: Seq<u8>)
    requires
        holds_at(s, pos, a + b),
    ensures
        holds_at(s, pos, a),
        holds_at(s, pos + a.len(), b),
{
    let whole = s.subrange(pos, pos + (a + b).len());
    assert(s.subrange(pos, pos + a.len()) =~= whole.subrange(0, a.len() as int));
    assert(whole.subrange(0, a.len() as int) =~= a);
    assert(s.subrange(pos + a.len(), pos + a.len() + b.len()) =~= whole.subrange(
        a.len() as int,
        (a + b).len() as int,
    ));
    assert(whole.subrange(a.len() as int, (a + b).len() as int) =~= b);
}

/// A byte sequence stands at its own start.
pub proof fn lemma_holds_whole(e: Seq<u8>)
    ensures
        holds_at(e, 0, e),
{
    assert(e.subrange(0, e.len() as int) =~= e);
}

/// The length of an integer's bytes.
pub open spec fn len_u64(n: u64) -> int {
    if n <= 250 {
        1
    } else if n <= 0xffff {
        3
    } else if n <= 0xffff_ffff {
        5
    } else {
        9
    }
}

/// An integer's bytes are as many as `len_u64` says.
pub proof fn lemma_len_u64(n: u64)
    ensures
        enc_u64(n).len() == len_u64(n),
{
    bytes::lemma_auto_spec_u16_to_from_le_bytes();
    bytes::lemma_auto_spec_u32_to_from_le_bytes();
    bytes::lemma_auto_spec_u64_to_from_le_bytes();
}

/// A reader finds the integer that was written.
pub proof fn lemma_parse_u64(s: Seq<u8>, pos: int, n: u64)
    requires
        holds_at(s, pos, enc_u64(n)),
    ensures
        parse_u64_at(s, pos) == Some((n, pos + enc_u64(n).len())),
{
    bytes::lemma_auto_spec_u16_to_from_le_bytes();
    bytes::lemma_auto_spec_u32_to_from_le_bytes();
    bytes::lemma_auto_spec_u64_to_from_le_bytes();
    let e = enc_u64(n);
    lemma_len_u64(n);
    assert(s[pos] == s.subrange(pos, pos + e.len())[0]);
    if n <= 250 {
    } else if n <= 0xffff {
        lemma_holds_split(s, pos, seq![251u8], bytes::spec_u16_to_le_bytes(n as u16));
    } else if n <= 0xffff_ffff {
        lemma_holds_split(s, pos, seq![252u8], bytes::spec_u32_to_le_bytes(n as u32));
    } else {
        lemma_holds_split(s, pos, seq![253u8], bytes::spec_u64_to_le_bytes(n));
    }
}

/// A reader finds the byte string that was written.
pub proof fn lemma_parse_bytes(s: Seq<u8>, pos: int, b: Seq<u8>)
    requires
        b.len() <= u64::MAX,
        holds_at(s, pos, enc_bytes(b)),
    ensures
        parse_bytes_at(s, pos) == Some((b, pos + enc_bytes(b).len())),
{
    lemma_holds_split(s, pos, enc_u64(b.len() as u64), b);
    lemma_parse_u64(s, pos, b.len() as u64);
}

/// A reader finds the text that was written.
pub proof fn lemma_parse_str(s: Seq<u8>, pos: int, c: Seq<char>)
    requires
        utf8::encode_utf8(c).len() <= u64::MAX,
        holds_at(s, pos, enc_str(c)),
    ensures
        parse_str_at(s, pos) == Some((c, pos + enc_str(c).len())),
{
    lemma_parse_bytes(s, pos, utf8::encode_utf8(c));
    utf8::encode_utf8_valid_utf8(c);
    utf8::encode_utf8_decode_utf8(c);
}

/// A reader finds the digest that was written.
pub proof fn lemma_parse_digest(s: Seq<u8>, pos: int, h: Hash256)
    requires
        holds_at(s, pos, h@),
    ensures
        h@.len() == 32,
        parse_digest_at(s, pos) == Some((h, pos + 32)),
{
    crate::types::lemma_digest_by_bytes(h, digest_from_bytes(h@));
}

/// A reader finds the optional byte string that was written.
pub proof fn lemma_parse_opt_bytes(s: Seq<u8>, pos: int, o: Option<Seq<u8>>)
    requires
        o matches Some(b) ==> b.len() <= u64::MAX,
        holds_at(s, pos, enc_opt_bytes(o)),
    ensures
        parse_opt_bytes_at(s, pos) == Some((o, pos + enc_opt_bytes(o).len())),
{
    let e = enc_opt_bytes(o);
    assert(s[pos] == s.subrange(pos, pos + e.len())[0]);
    match o {
        None => {},
        Some(b) => {
            lemma_holds_split(s, pos, seq![1u8], enc_bytes(b));
            lemma_parse_bytes(s, pos + 1, b);
        },
    }
}

/// A reader finds the optional text that was written.
pub proof fn lemma_parse_opt_str(s: Seq<u8>, pos: int, o: Option<Seq<char>>)
    requires
        o matches Some(c) ==> utf8::encode_utf8(c).len() <= u64::MAX,
        holds_at(s, pos, enc_opt_str(o)),
    ensures
        parse_opt_str_at(s, pos) == Some((o, pos + enc_opt_str(o).len())),
{
    let e = enc_opt_str(o);
    assert(s[pos] == s.subrange(pos, pos + e.len())[0]);
    match o {
        None => {},
        Some(c) => {
            lemma_holds_split(s, pos, seq![1u8], enc_str(c));
            lemma_parse_str(s, pos + 1, c);
        },
    }
}

/// A reader finds the watermark profile that was written.
pub proof fn lemma_parse_profile(s: Seq<u8>, pos: int, p: WmProfile)
    requires
        holds_at(s, pos, enc_profile(p)),
    ensures
        enc_profile(p).len() == 16,
        parse_profile_at(s, pos) == Some((p, pos + 16)),
{
    bytes::lemma_auto_spec_u32_to_from_le_bytes();
    let a = bytes::spec_u32_to_le_bytes(p.tau_input);
    let b = bytes::spec_u32_to_le_bytes(p.tau_feat);
    let c = bytes::spec_u32_to_le_bytes(p.logit_band_low);
    let d = bytes::spec_u32_to_le_bytes(p.logit_band_high);
    lemma_holds_split(s, pos, a + b + c, d);
    lemma_holds_split(s, pos, a + b, c);
    lemma_holds_split(s, pos, a, b);
}

} // verus!
