//! 16-bit little-endian PCM handling for synthesized speech: the audio is
//! doubled in sample rate by inserting the mean of each pair of neighbours.

use byteorder::{ByteOrder, LittleEndian};
use vstd::prelude::*;

verus! {

/// The signed 16-bit value whose little-endian encoding is `lo`, `hi`.
pub open spec fn le_i16(lo: u8, hi: u8) -> int {
    let u = lo as int + 256 * (hi as int);
    if u >= 32768 {
        u - 65536
    } else {
        u
    }
}

/// `LittleEndian::read_i16` of byteorder on a two-byte buffer: the value
/// whose little-endian encoding the buffer holds.
#[verifier::external_body]
fn read_i16_le(buf: [u8; 2]) -> (r: i16)
    ensures
        r as int == le_i16(buf@[0], buf@[1]),
{
    LittleEndian::read_i16(&buf)
}

/// `LittleEndian::write_i16` of byteorder into a two-byte buffer: the
/// little-endian encoding of `n`.
#[verifier::external_body]
fn write_i16_le(n: i16) -> (r: [u8; 2])
    ensures
        le_i16(r@[0], r@[1]) == n as int,
{
    let mut buf = [0u8; 2];
    LittleEndian::write_i16(&mut buf, n);
    buf
}

/// The samples held by `raw`: each whole pair of bytes, read as a
/// little-endian i16; a trailing odd byte is not a sample.
pub open spec fn pcm_samples(raw: Seq<u8>) -> Seq<int> {
    Seq::new(raw.len() / 2, |k: int| le_i16(raw[2 * k], raw[2 * k + 1]))
}

/// Half of `x`, rounded toward zero (integer division of Rust).
pub open spec fn half_toward_zero(x: int) -> int {
    if x >= 0 {
        x / 2
    } else {
        -((-x) / 2)
    }
}

/// The samples at twice the rate: the original samples at even positions,
/// and between two neighbours their mean rounded toward zero.
pub open spec fn upsampled(s: Seq<int>) -> Seq<int> {
    let len = if s.len() == 0 {
        0
    } else {
        2 * s.len() - 1
    };
    Seq::new(
        len as nat,
        |j: int|
            if j % 2 == 0 {
                s[j / 2]
            } else {
                half_toward_zero(s[j / 2] + s[j / 2 + 1])
            },
    )
}

/// `out` is the little-endian encoding of the sample sequence `s`.
pub open spec fn encodes_samples(out: Seq<u8>, s: Seq<int>) -> bool {
    &&& out.len() == 2 * s.len()
    &&& forall|j: int| 0 <= j < s.len() ==> le_i16(#[trigger] out[2 * j], out[2 * j + 1]) == s[j]
}

/// Doubles the sample rate of 16-bit little-endian PCM: every sample is kept,
/// and between two neighbouring samples their mean is inserted.
pub fn upsample_pcm(raw: &[u8]) -> (out: Vec<u8>)
    ensures
        encodes_samples(out@, upsampled(pcm_samples(raw@))),
{
    let ghost s = pcm_samples(raw@);
    let ghost u = upsampled(s);
    let n = raw.len() / 2;
    let mut out: Vec<u8> = Vec::new();
    if n == 0 {
        assert(u.len() == 0);
        return out;
    }
    let mut last = read_i16_le([raw[0], raw[1]]);
    let b = write_i16_le(last);
    out.push(b[0]);
    out.push(b[1]);
    let mut k: usize = 1;
    while k < n
        invariant
            1 <= k <= n,
            n == raw@.len() / 2,
            raw@.len() == raw.len(),
            s == pcm_samples(raw@),
            u == upsampled(s),
            last as int == s[k - 1],
            out@.len() == 2 * (2 * k - 1),
            forall|j: int|
                0 <= j < 2 * k - 1 ==> le_i16(#[trigger] out@[2 * j], out@[2 * j + 1]) == u[j],
        decreases n - k,
    {
        let x = read_i16_le([raw[2 * k], raw[2 * k + 1]]);
        assert(x as int == s[k as int]);
        let sum: i32 = last as i32 + x as i32;
        let mid: i32 = if sum >= 0 {
            sum / 2
        } else {
            -((-sum) / 2)
        };
        assert(mid as int == half_toward_zero(s[k - 1] + s[k as int]));
        let mid16 = mid as i16;
        let bm = write_i16_le(mid16);
        let bx = write_i16_le(x);
        let ghost prev = out@;
        out.push(bm[0]);
        out.push(bm[1]);
        out.push(bx[0]);
        out.push(bx[1]);
        proof {
            let j1 = 2 * k - 1;
            let j2 = 2 * k as int;
            assert(u[j1] == half_toward_zero(s[k - 1] + s[k as int]));
            assert(u[j2] == s[k as int]);
            assert(out@[2 * j1] == bm[0] && out@[2 * j1 + 1] == bm[1]);
            assert(out@[2 * j2] == bx[0] && out@[2 * j2 + 1] == bx[1]);
            assert forall|j: int| 0 <= j < 2 * (k + 1) - 1 implies le_i16(
                #[trigger] out@[2 * j],
                out@[2 * j + 1],
            ) == u[j] by {
                if j < j1 {
                    assert(out@[2 * j] == prev[2 * j] && out@[2 * j + 1] == prev[2 * j + 1]);
                }
            }
        }
        last = x;
        k = k + 1;
    }
    out
}

/// Dropping every inserted sample gives back the original audio: the
/// sample at position `2 k` of the output is sample `k` of the input.
pub proof fn lemma_upsample_keeps_samples(raw: Seq<u8>, out: Seq<u8>, k: int)
    requires
        encodes_samples(out, upsampled(pcm_samples(raw))),
        0 <= k < pcm_samples(raw).len(),
    ensures
        le_i16(out[4 * k], out[4 * k + 1]) == pcm_samples(raw)[k],
        out.len() == 4 * pcm_samples(raw).len() - 2,
{
    let s = pcm_samples(raw);
    let u = upsampled(s);
    assert(u[2 * k] == s[k]);
    assert(le_i16(out[2 * (2 * k)], out[2 * (2 * k) + 1]) == u[2 * k]);
    assert(2 * (2 * k) == 4 * k);
}

/// Each inserted sample lies between its two neighbours and is their mean
/// rounded toward zero, computed without wrapping: at position `2 k + 1` of
/// the output sits a value `mid` between samples `k` and `k + 1` of the
/// input, with `2 mid` within one of their sum and not farther from zero.
pub proof fn lemma_upsample_inserts_means(raw: Seq<u8>, out: Seq<u8>, k: int)
    requires
        encodes_samples(out, upsampled(pcm_samples(raw))),
        0 <= k,
        2 * k + 3 < raw.len(),
    ensures
        ({
            let a = le_i16(raw[2 * k], raw[2 * k + 1]);
            let b = le_i16(raw[2 * k + 2], raw[2 * k + 3]);
            let mid = le_i16(out[4 * k + 2], out[4 * k + 3]);
            &&& (a <= b ==> a <= mid <= b)
            &&& (b <= a ==> b <= mid <= a)
            &&& -1 <= (a + b) - 2 * mid <= 1
            &&& (a + b >= 0 ==> 0 <= 2 * mid <= a + b)
            &&& (a + b <= 0 ==> a + b <= 2 * mid <= 0)
        }),
{
    let s = pcm_samples(raw);
    let u = upsampled(s);
    assert(s.len() == raw.len() / 2);
    assert(k + 1 < s.len());
    let j = 2 * k + 1;
    assert(u[j] == half_toward_zero(s[k] + s[k + 1]));
    assert(le_i16(out[2 * j], out[2 * j + 1]) == u[j]);
    assert(2 * j == 4 * k + 2);
    assert(s[k] == le_i16(raw[2 * k], raw[2 * k + 1]));
    assert(s[k + 1] == le_i16(raw[2 * (k + 1)], raw[2 * (k + 1) + 1]));
    assert(2 * (k + 1) == 2 * k + 2);
}

} // verus!
