use vstd::prelude::*;

verus! {

/// The one-byte wire tag for dynamic-fee transactions.
pub const EIP_1559_TYPE: u8 = 2;

/// The minimal big-endian byte representation of an unsigned integer: no
/// leading zero byte, and zero is the empty byte string.
pub open spec fn min_be_bytes(n: nat) -> Seq<u8>
    decreases n,
{
    if n == 0 {
        Seq::empty()
    } else {
        min_be_bytes(n / 256) + seq![(n % 256) as u8]
    }
}

/// The RLP encoding of a byte string: a single byte below 0x80 stands for
/// itself; otherwise the bytes follow a length prefix.
pub open spec fn rlp_bytes(b: Seq<u8>) -> Seq<u8> {
    if b.len() == 1 && b[0] < 0x80 {
        b
    } else if b.len() <= 55 {
        seq![(0x80 + b.len()) as u8] + b
    } else {
        seq![(0xb7 + min_be_bytes(b.len()).len()) as u8] + min_be_bytes(b.len()) + b
    }
}

/// The header that precedes a list payload of the given length.
pub open spec fn list_header(payload_len: nat) -> Seq<u8> {
    if payload_len <= 55 {
        seq![(0xc0 + payload_len) as u8]
    } else {
        seq![(0xf7 + min_be_bytes(payload_len).len()) as u8] + min_be_bytes(payload_len)
    }
}

/// The RLP encoding of a list whose items concatenate to `p`.
pub open spec fn rlp_list(p: Seq<u8>) -> Seq<u8> {
    list_header(p.len()) + p
}

/// The RLP encoding of an unsigned integer: its minimal big-endian bytes,
/// framed as a byte string.
pub open spec fn rlp_uint(n: nat) -> Seq<u8> {
    rlp_bytes(min_be_bytes(n))
}

/// 256 to the `k`.
pub open spec fn pow256(k: nat) -> nat
    decreases k,
{
    if k == 0 {
        1
    } else {
        256 * pow256((k - 1) as nat)
    }
}

/// An integer below 256^k needs at most k bytes.
pub proof fn lemma_min_be_bytes_len(n: nat, k: nat)
    requires
        n < pow256(k),
    ensures
        min_be_bytes(n).len() <= k,
    decreases k,
{
    if n == 0 {
    } else {
        assert(k >= 1) by {
            if k == 0 {
                assert(pow256(0) == 1);
            }
        }
        let p = pow256((k - 1) as nat);
        assert(n < 256 * p);
        assert(n / 256 < p) by {
            assert(n == 256 * (n / 256) + n % 256);
            assert(0 <= n % 256 < 256);
            if n / 256 >= p {
                assert(256 * (n / 256) >= 256 * p) by (nonlinear_arith)
                    requires n / 256 >= p,
                ;
            }
        }
        lemma_min_be_bytes_len(n / 256, (k - 1) as nat);
    }
}

/// Appends the raw bytes of `b` to `out`, unchanged.
fn append_raw(out: &mut Vec<u8>, b: &[u8])
    ensures
        final(out)@ == old(out)@ + b@,
{
    let mut i: usize = 0;
    while i < b.len()
        invariant
            i <= b@.len(),
            out@ == old(out)@ + b@.subrange(0, i as int),
        decreases b@.len() - i,
    {
        out.push(b[i]);
        proof {
            assert(old(out)@ + b@.subrange(0, i + 1 as int) =~= (old(out)@ + b@.subrange(
                0,
                i as int,
            )).push(b@[i as int]));
        }
        i = i + 1;
    }
    proof {
        assert(b@.subrange(0, b@.len() as int) =~= b@);
    }
}

/// The minimal big-endian bytes of `n`.
fn u128_min_be(n: u128) -> (r: Vec<u8>)
    ensures
        r@ == min_be_bytes(n as nat),
    decreases n,
{
    if n == 0 {
        let r: Vec<u8> = Vec::new();
        proof {
            assert(r@ =~= min_be_bytes(0));
        }
        r
    } else {
        let mut r = u128_min_be(n / 256);
        r.push((n % 256) as u8);
        proof {
            assert(r@ =~= min_be_bytes(n as nat));
        }
        r
    }
}

/// The length bytes of a buffer always fit: a usize is below 256^16.
proof fn lemma_usize_min_be_short(n: nat)
    requires
        n < 0x100000000000000000000000000000000,
    ensures
        min_be_bytes(n).len() <= 16,
{
    assert(pow256(16) == 0x100000000000000000000000000000000) by {
        reveal_with_fuel(pow256, 17);
    }
    lemma_min_be_bytes_len(n, 16);
}

/// Appends the RLP encoding of the byte string `b` to `out`.
pub fn append_bytes(out: &mut Vec<u8>, b: &[u8])
    ensures
        final(out)@ == old(out)@ + rlp_bytes(b@),
{
    let n = b.len();
    if n == 1 && b[0] < 0x80 {
        out.push(b[0]);
        proof {
            assert(out@ =~= old(out)@ + rlp_bytes(b@));
        }
    } else if n <= 55 {
        out.push((0x80 + n) as u8);
        append_raw(out, b);
        proof {
            assert(out@ =~= old(out)@ + rlp_bytes(b@));
        }
    } else {
        let len_bytes = u128_min_be(n as u128);
        proof {
            lemma_usize_min_be_short(n as nat);
        }
        out.push((0xb7 + len_bytes.len()) as u8);
        append_raw(out, len_bytes.as_slice());
        append_raw(out, b);
        proof {
            assert(out@ =~= old(out)@ + rlp_bytes(b@));
        }
    }
}

/// Appends the RLP encoding of the unsigned integer `n` to `out`.
pub fn append_uint(out: &mut Vec<u8>, n: u128)
    ensures
        final(out)@ == old(out)@ + rlp_uint(n as nat),
{
    let b = u128_min_be(n);
    append_bytes(out, b.as_slice());
}

/// Appends the list framing of the already-encoded payload to `out`: first
/// the length-carrying header, then the payload itself.
pub fn append_list(out: &mut Vec<u8>, payload: &[u8])
    ensures
        final(out)@ == old(out)@ + rlp_list(payload@),
{
    let n = payload.len();
    if n <= 55 {
        out.push((0xc0 + n) as u8);
    } else {
        let len_bytes = u128_min_be(n as u128);
        proof {
            lemma_usize_min_be_short(n as nat);
        }
        out.push((0xf7 + len_bytes.len()) as u8);
        append_raw(out, len_bytes.as_slice());
    }
    append_raw(out, payload);
    proof {
        assert(out@ =~= old(out)@ + rlp_list(payload@));
    }
}

} // verus!
