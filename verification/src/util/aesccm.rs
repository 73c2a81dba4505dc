//! The first CCM block (B0, RFC 3610 section 2.2).
use vstd::prelude::*;

verus! {

/// The low `n` bytes of `v`, most significant first.
pub open spec fn be_bytes(v: nat, n: nat) -> Seq<u8>
    decreases n,
{
    if n == 0 {
        seq![]
    } else {
        be_bytes(v / 256, (n - 1) as nat).push((v % 256) as u8)
    }
}

/// `v` shifted right by `k` whole bytes.
pub open spec fn shr_bytes(v: nat, k: nat) -> nat
    decreases k,
{
    if k == 0 {
        v
    } else {
        shr_bytes(v / 256, (k - 1) as nat)
    }
}

/// The flags byte of B0: `L - 1` in bits 0..3, `(M - 2) / 2` from bit 3 on (truncated to the
/// byte), and bit 6 set when there is associated data.
pub open spec fn b0_flags(nonce_len: nat, a_len: nat, tag_len: nat) -> u8 {
    let l = 15 - nonce_len;
    let base = ((l - 1) as u8) | ((((tag_len - 2) / 2) as u8) << 3u8);
    if a_len > 0 {
        base | 0x40u8
    } else {
        base
    }
}

/// B0 = flags | nonce | Q, where Q is the message length in the `L = 15 - nonce.len()` bytes
/// that remain.
pub open spec fn spec_b0(nonce: Seq<u8>, msg_len: nat, a_len: nat, tag_len: nat) -> Seq<u8> {
    seq![b0_flags(nonce.len(), a_len, tag_len)] + nonce + be_bytes(
        msg_len,
        (15 - nonce.len()) as nat,
    )
}

proof fn lemma_shr_step(m: nat, k: nat)
    ensures
        shr_bytes(m, k + 1) == shr_bytes(m, k) / 256,
    decreases k,
{
    assert(shr_bytes(m, k + 1) == shr_bytes(m / 256, k));
    if k == 0 {
        assert(shr_bytes(m / 256, 0) == m / 256);
    } else {
        lemma_shr_step(m / 256, (k - 1) as nat);
        assert(shr_bytes(m, k) == shr_bytes(m / 256, (k - 1) as nat));
    }
}

proof fn lemma_be_bytes_front(m: nat, k: nat)
    ensures
        be_bytes(m, k + 1) == seq![(shr_bytes(m, k) % 256) as u8] + be_bytes(m, k),
    decreases k,
{
    if k == 0 {
        assert(be_bytes(m, 1) == be_bytes(m / 256, 0).push((m % 256) as u8));
        assert(be_bytes(m, 1) =~= seq![(shr_bytes(m, 0) % 256) as u8] + be_bytes(m, 0));
    } else {
        lemma_be_bytes_front(m / 256, (k - 1) as nat);
        assert(be_bytes(m, k + 1) == be_bytes(m / 256, k).push((m % 256) as u8));
        assert(be_bytes(m, k) == be_bytes(m / 256, (k - 1) as nat).push((m % 256) as u8));
        assert(be_bytes(m, k + 1) =~= seq![(shr_bytes(m, k) % 256) as u8] + be_bytes(m, k));
    }
}

proof fn lemma_be_bytes_len(v: nat, n: nat)
    ensures
        be_bytes(v, n).len() == n,
    decreases n,
{
    if n > 0 {
        lemma_be_bytes_len(v / 256, (n - 1) as nat);
    }
}

/// The layout of B0 (RFC 3610 section 2.2): 16 bytes; the flags byte holds `L - 1 = 14 -
/// nonce.len()` in bits 0..3, `(M - 2) / 2` in bits 3..6, the associated-data bit 6, and a clear
/// bit 7; then the nonce; then the message length, least significant byte last.
pub proof fn law_b0_layout(nonce: Seq<u8>, msg_len: nat, a_len: nat, tag_len: nat)
    requires
        7 <= nonce.len() <= 14,
        2 <= tag_len <= 17,
    ensures
        ({
            let b0 = spec_b0(nonce, msg_len, a_len, tag_len);
            &&& b0.len() == 16
            &&& b0[0] & 7u8 == 14 - nonce.len()
            &&& (b0[0] >> 3u8) & 7u8 == (tag_len - 2) / 2
            &&& (b0[0] & 0x40u8 == 0x40u8) == (a_len > 0)
            &&& b0[0] & 0x80u8 == 0
            &&& b0.subrange(1, 1 + nonce.len() as int) == nonce
            &&& b0[15] == msg_len % 256
            &&& nonce.len() <= 13 ==> b0[14] == (msg_len / 256) % 256
        }),
{
    let n = nonce.len();
    let l: nat = (15 - n) as nat;
    let b0 = spec_b0(nonce, msg_len, a_len, tag_len);
    let q = be_bytes(msg_len, l);
    lemma_be_bytes_len(msg_len, l);
    let x: u8 = (l - 1) as u8;
    let y: u8 = ((tag_len - 2) / 2) as u8;
    assert(x == 14 - n);
    assert(y == (tag_len - 2) / 2);
    assert(x < 8 && y < 8);
    let base: u8 = x | (y << 3u8);
    assert(base & 7u8 == x && (base >> 3u8) & 7u8 == y && base & 0x40u8 == 0 && base & 0x80u8
        == 0 && (base | 0x40u8) & 7u8 == x && ((base | 0x40u8) >> 3u8) & 7u8 == y && (base
        | 0x40u8) & 0x40u8 == 0x40u8 && (base | 0x40u8) & 0x80u8 == 0) by (bit_vector)
        requires
            x < 8,
            y < 8,
            base == x | (y << 3u8),
    ;
    assert(b0_flags(n, a_len, tag_len) == if a_len > 0 {
        base | 0x40u8
    } else {
        base
    });
    assert(b0[0] == b0_flags(n, a_len, tag_len));
    assert(b0.subrange(1, 1 + n as int) =~= nonce);
    assert(b0[15] == q[l - 1]);
    assert(q == be_bytes(msg_len / 256, (l - 1) as nat).push((msg_len % 256) as u8));
    if n <= 13 {
        let q1 = be_bytes(msg_len / 256, (l - 1) as nat);
        lemma_be_bytes_len(msg_len / 256, (l - 1) as nat);
        assert(q1 == be_bytes(msg_len / 256 / 256, (l - 2) as nat).push(
            ((msg_len / 256) % 256) as u8,
        ));
        assert(b0[14] == q[l - 2]);
        assert(q[l - 2] == q1[l - 2]);
    }
}

/// Build the CCM B0 block as defined in RFC 3610.
///
/// B0 = flags | nonce | Q, where Q is the message length encoded in L bytes.
pub fn build_b0(nonce: &[u8], msg_len: usize, a_len: usize, tag_len: usize) -> (b0: [u8; 16])
    requires
        7 <= nonce.len() <= 14,
        tag_len >= 2,
    ensures
        b0@ == spec_b0(nonce@, msg_len as nat, a_len as nat, tag_len as nat),
{
    let mut b0 = [0u8; 16];
    let n = nonce.len();
    let l: usize = 15 - n;
    let mut flags: u8 = ((l - 1) as u8) | ((((tag_len - 2) / 2) as u8) << 3u8);
    if a_len > 0 {
        flags = flags | 0x40u8;
    }
    b0[0] = flags;
    let mut i: usize = 0;
    while i < n
        invariant
            n == nonce@.len(),
            7 <= n <= 14,
            i <= n,
            b0@.len() == 16,
            b0@[0] == flags,
            forall|j: int| 0 <= j < i ==> b0@[1 + j] == nonce@[j],
        decreases n - i,
    {
        b0[1 + i] = nonce[i];
        i = i + 1;
    }
    let mut cur: u64 = msg_len as u64;
    let mut k: usize = 0;
    while k < l
        invariant
            l == 15 - n,
            n == nonce@.len(),
            7 <= n <= 14,
            k <= l,
            b0@.len() == 16,
            b0@[0] == flags,
            forall|j: int| 0 <= j < n ==> b0@[1 + j] == nonce@[j],
            cur == shr_bytes(msg_len as nat, k as nat),
            b0@.subrange(16 - k, 16) == be_bytes(msg_len as nat, k as nat),
        decreases l - k,
    {
        let byte = (cur % 256) as u8;
        proof {
            lemma_be_bytes_front(msg_len as nat, k as nat);
            lemma_shr_step(msg_len as nat, k as nat);
        }
        let ghost prev = b0@;
        b0[15 - k] = byte;
        assert(b0@.subrange(16 - (k + 1), 16) =~= seq![byte] + prev.subrange(16 - k, 16));
        cur = cur / 256;
        k = k + 1;
    }
    assert(flags == b0_flags(n as nat, a_len as nat, tag_len as nat));
    assert(b0@ =~= spec_b0(nonce@, msg_len as nat, a_len as nat, tag_len as nat));
    b0
}

} // verus!
