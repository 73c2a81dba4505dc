//! HKDF (RFC 5869) with HMAC-SHA-256, on top of any HMAC provider.
use vstd::prelude::*;

use crate::cal::{AsByteSlice, HmacAlgorithm, HmacProvider};

verus! {

broadcast use vstd::array::group_array_axioms;

/// Output length of the underlying hash (SHA-256).
pub const HASH_LEN: usize = 32;

/// Largest output length that HKDF-Expand accepts: 255 blocks of the hash length.
pub const MAX_OKM_LEN: usize = 8160;

#[derive(Debug, PartialEq, Eq)]
pub enum HkdfError {
    /// Requested OKM length exceeds 255 × 32 bytes (RFC 5869).
    OutputTooLong,
    /// The underlying HMAC produced an output that is not 32 bytes, indicating
    /// the backend does not correctly implement HMAC-SHA-256 for COSE number 5.
    InvalidOutputLength,
}

/// The provider knows HMAC-SHA-256 (COSE algorithm number 5).
pub open spec fn supports_hmac_sha256<H: HmacProvider>() -> bool {
    <H::Algorithm as HmacAlgorithm>::spec_from_cose_number(5) is Some
}

/// The provider's HMAC-SHA-256 algorithm value.
pub open spec fn hmac_sha256_alg<H: HmacProvider>() -> H::Algorithm {
    <H::Algorithm as HmacAlgorithm>::spec_from_cose_number(5).unwrap()
}

/// The salt used when none is given: HashLen zero bytes.
pub open spec fn zero_salt() -> Seq<u8> {
    Seq::new(32, |i: int| 0u8)
}

pub open spec fn salt_view(salt: Option<&[u8]>) -> Option<Seq<u8>> {
    match salt {
        Some(s) => Some(s@),
        None => None,
    }
}

/// HKDF-Extract: PRK = HMAC(salt, IKM).
pub open spec fn spec_hkdf_extract<H: HmacProvider>(salt: Option<Seq<u8>>, ikm: Seq<u8>) -> Seq<
    u8,
> {
    let key = match salt {
        Some(s) => s,
        None => zero_salt(),
    };
    H::spec_hmac(hmac_sha256_alg::<H>(), key, ikm)
}

/// The HKDF-Expand block T(i) = HMAC(PRK, T(i-1) | info | i), with T(0) empty.
pub open spec fn hkdf_block<H: HmacProvider>(prk: Seq<u8>, info: Seq<u8>, i: nat) -> Seq<u8>
    decreases i,
{
    if i == 0 {
        Seq::<u8>::empty()
    } else {
        H::spec_hmac(
            hmac_sha256_alg::<H>(),
            prk,
            hkdf_block::<H>(prk, info, (i - 1) as nat) + info + seq![i as u8],
        )
    }
}

/// T(1) | ... | T(n).
pub open spec fn hkdf_stream<H: HmacProvider>(prk: Seq<u8>, info: Seq<u8>, n: nat) -> Seq<u8>
    decreases n,
{
    if n == 0 {
        Seq::<u8>::empty()
    } else {
        hkdf_stream::<H>(prk, info, (n - 1) as nat) + hkdf_block::<H>(prk, info, n)
    }
}

/// How many of the blocks T(1), ..., T(n), counted from the first, have the hash length.
pub open spec fn valid_blocks<H: HmacProvider>(prk: Seq<u8>, info: Seq<u8>, n: nat) -> nat
    decreases n,
{
    if n == 0 {
        0
    } else {
        let p = valid_blocks::<H>(prk, info, (n - 1) as nat);
        if p == n - 1 && hkdf_block::<H>(prk, info, n).len() == 32 {
            n
        } else {
            p
        }
    }
}

/// Number of blocks needed for `len` bytes of output.
pub open spec fn block_count(len: nat) -> nat {
    (len + 31) / 32
}

/// HKDF-Expand: the first `len` bytes of T(1) | T(2) | ...
pub open spec fn spec_hkdf_expand<H: HmacProvider>(prk: Seq<u8>, info: Seq<u8>, len: nat) -> Seq<
    u8,
> {
    hkdf_stream::<H>(prk, info, block_count(len)).take(len as int)
}

/// What HKDF-Expand returns, and what the output buffer holds afterwards, given its earlier
/// contents: the error for an overlong request (buffer untouched), the error for an HMAC output
/// of the wrong length (the blocks before it written), or success with the expanded key.
pub open spec fn expand_outcome<H: HmacProvider>(prk: Seq<u8>, info: Seq<u8>, okm: Seq<u8>) -> (
    Result<(), HkdfError>,
    Seq<u8>,
) {
    let n = block_count(okm.len());
    let k = valid_blocks::<H>(prk, info, n);
    if okm.len() > MAX_OKM_LEN {
        (Err(HkdfError::OutputTooLong), okm)
    } else if k < n {
        (
            Err(HkdfError::InvalidOutputLength),
            hkdf_stream::<H>(prk, info, k) + okm.skip((32 * k) as int),
        )
    } else {
        (Ok(()), spec_hkdf_expand::<H>(prk, info, okm.len()))
    }
}

/// What HKDF (extract, then expand) returns and leaves in the output buffer.
pub open spec fn hkdf_outcome<H: HmacProvider>(
    salt: Option<Seq<u8>>,
    ikm: Seq<u8>,
    info: Seq<u8>,
    okm: Seq<u8>,
) -> (Result<(), HkdfError>, Seq<u8>) {
    let prk = spec_hkdf_extract::<H>(salt, ikm);
    if prk.len() != 32 {
        (Err(HkdfError::InvalidOutputLength), okm)
    } else {
        expand_outcome::<H>(prk, info, okm)
    }
}

/// Every block up to a valid count is valid.
pub proof fn lemma_valid_blocks_bound<H: HmacProvider>(prk: Seq<u8>, info: Seq<u8>, n: nat)
    ensures
        valid_blocks::<H>(prk, info, n) <= n,
    decreases n,
{
    if n > 0 {
        lemma_valid_blocks_bound::<H>(prk, info, (n - 1) as nat);
    }
}

/// Once block `i + 1` is found short after `i` good blocks, the count stays at `i`.
pub proof fn lemma_valid_blocks_stuck<H: HmacProvider>(
    prk: Seq<u8>,
    info: Seq<u8>,
    i: nat,
    n: nat,
)
    requires
        valid_blocks::<H>(prk, info, i) == i,
        hkdf_block::<H>(prk, info, i + 1).len() != 32,
        i <= n,
    ensures
        valid_blocks::<H>(prk, info, n) == i,
    decreases n,
{
    if n > i {
        lemma_valid_blocks_stuck::<H>(prk, info, i, (n - 1) as nat);
    }
}

/// With `n` good blocks, the stream is `32 n` bytes long.
pub proof fn lemma_stream_len<H: HmacProvider>(prk: Seq<u8>, info: Seq<u8>, n: nat)
    requires
        valid_blocks::<H>(prk, info, n) == n,
    ensures
        hkdf_stream::<H>(prk, info, n).len() == 32 * n,
    decreases n,
{
    if n > 0 {
        lemma_valid_blocks_bound::<H>(prk, info, (n - 1) as nat);
        lemma_stream_len::<H>(prk, info, (n - 1) as nat);
    }
}

/// All blocks valid up to `n` means all valid up to any `m <= n`.
pub proof fn lemma_valid_blocks_prefix<H: HmacProvider>(
    prk: Seq<u8>,
    info: Seq<u8>,
    m: nat,
    n: nat,
)
    requires
        m <= n,
        valid_blocks::<H>(prk, info, n) == n,
    ensures
        valid_blocks::<H>(prk, info, m) == m,
    decreases n,
{
    if m < n {
        lemma_valid_blocks_bound::<H>(prk, info, (n - 1) as nat);
        lemma_valid_blocks_prefix::<H>(prk, info, m, (n - 1) as nat);
    }
}

/// The stream of `m` blocks starts the stream of `n >= m` blocks.
pub proof fn lemma_stream_prefix<H: HmacProvider>(prk: Seq<u8>, info: Seq<u8>, m: nat, n: nat)
    requires
        m <= n,
    ensures
        hkdf_stream::<H>(prk, info, m).len() <= hkdf_stream::<H>(prk, info, n).len(),
        hkdf_stream::<H>(prk, info, n).take(hkdf_stream::<H>(prk, info, m).len() as int)
            == hkdf_stream::<H>(prk, info, m),
    decreases n,
{
    if m < n {
        lemma_stream_prefix::<H>(prk, info, m, (n - 1) as nat);
        let sm = hkdf_stream::<H>(prk, info, m);
        let sp = hkdf_stream::<H>(prk, info, (n - 1) as nat);
        let sn = hkdf_stream::<H>(prk, info, n);
        assert(sn == sp + hkdf_block::<H>(prk, info, n));
        assert(sn.take(sm.len() as int) =~= sp.take(sm.len() as int));
    } else {
        assert(hkdf_stream::<H>(prk, info, n).take(hkdf_stream::<H>(prk, info, n).len() as int)
            =~= hkdf_stream::<H>(prk, info, n));
    }
}

/// HKDF-Expand gives exactly the requested length, and a shorter request gives a prefix of a
/// longer one with the same key and info (as long as every HMAC output of the longer one has the
/// hash length).
pub proof fn lemma_expand_prefix<H: HmacProvider>(
    prk: Seq<u8>,
    info: Seq<u8>,
    len1: nat,
    len2: nat,
)
    requires
        len1 <= len2,
        valid_blocks::<H>(prk, info, block_count(len2)) == block_count(len2),
    ensures
        spec_hkdf_expand::<H>(prk, info, len2).len() == len2,
        spec_hkdf_expand::<H>(prk, info, len1) == spec_hkdf_expand::<H>(prk, info, len2).take(
            len1 as int,
        ),
{
    let n1 = block_count(len1);
    let n2 = block_count(len2);
    assert(n1 <= n2);
    lemma_valid_blocks_prefix::<H>(prk, info, n1, n2);
    lemma_stream_len::<H>(prk, info, n1);
    lemma_stream_len::<H>(prk, info, n2);
    lemma_stream_prefix::<H>(prk, info, n1, n2);
    let s1 = hkdf_stream::<H>(prk, info, n1);
    let s2 = hkdf_stream::<H>(prk, info, n2);
    assert(s1.len() >= len1);
    assert(s2.len() >= len2);
    assert(s1.take(len1 as int) =~= s2.take(len2 as int).take(len1 as int));
}

/// The provider's algorithm for COSE number 5 (HMAC-SHA-256), read straight from its table.
pub open spec fn cose5<H: HmacProvider>() -> H::Algorithm {
    <H::Algorithm as HmacAlgorithm>::spec_from_cose_number(5).unwrap()
}

/// When HMAC always gives 32 bytes, every block is good.
proof fn lemma_all_blocks_valid<H: HmacProvider>(prk: Seq<u8>, info: Seq<u8>, n: nat)
    requires
        forall|k: Seq<u8>, d: Seq<u8>| #[trigger] H::spec_hmac(cose5::<H>(), k, d).len() == 32,
    ensures
        valid_blocks::<H>(prk, info, n) == n,
    decreases n,
{
    if n > 0 {
        lemma_all_blocks_valid::<H>(prk, info, (n - 1) as nat);
        let d = hkdf_block::<H>(prk, info, (n - 1) as nat) + info + seq![n as u8];
        assert(H::spec_hmac(cose5::<H>(), prk, d).len() == 32);
        assert(hkdf_block::<H>(prk, info, n).len() == 32);
    }
}

/// With all blocks good, block `i` sits at bytes `32 (i - 1) .. 32 i` of the stream.
proof fn lemma_stream_block<H: HmacProvider>(prk: Seq<u8>, info: Seq<u8>, n: nat, i: nat)
    requires
        1 <= i <= n,
        valid_blocks::<H>(prk, info, n) == n,
    ensures
        hkdf_stream::<H>(prk, info, n).subrange(32 * (i - 1), 32 * (i as int)) == hkdf_block::<H>(
            prk,
            info,
            i,
        ),
    decreases n,
{
    lemma_valid_blocks_bound::<H>(prk, info, (n - 1) as nat);
    lemma_stream_len::<H>(prk, info, n);
    let prev = hkdf_stream::<H>(prk, info, (n - 1) as nat);
    let s = hkdf_stream::<H>(prk, info, n);
    assert(valid_blocks::<H>(prk, info, (n - 1) as nat) == n - 1);
    lemma_stream_len::<H>(prk, info, (n - 1) as nat);
    assert(s == prev + hkdf_block::<H>(prk, info, n));
    if i == n {
        assert(s.subrange(32 * (i - 1), 32 * (i as int)) =~= hkdf_block::<H>(prk, info, n));
    } else {
        lemma_stream_block::<H>(prk, info, (n - 1) as nat, i);
        assert(s.subrange(32 * (i - 1), 32 * (i as int)) =~= prev.subrange(32 * (i - 1), 32 * (i as int)));
    }
}

/// HKDF-Expand (RFC 5869 section 2.3), block by block: of `len` output bytes, the `i`-th block
/// of 32 (the last one cut to what remains) is HMAC-SHA-256 keyed with the PRK over the block
/// before it (nothing for the first), then `info`, then the single byte `i`. This holds for any
/// provider whose HMAC-SHA-256 gives 32 bytes.
pub proof fn law_expand_block<H: HmacProvider>(prk: Seq<u8>, info: Seq<u8>, len: nat, i: nat)
    requires
        forall|k: Seq<u8>, d: Seq<u8>| #[trigger] H::spec_hmac(cose5::<H>(), k, d).len() == 32,
        len <= MAX_OKM_LEN,
        1 <= i,
        32 * (i - 1) < len,
    ensures
        ({
            let out = spec_hkdf_expand::<H>(prk, info, len);
            let prev = if i == 1 {
                Seq::<u8>::empty()
            } else {
                out.subrange(32 * (i - 2), 32 * (i - 1))
            };
            let end = if 32 * (i as int) <= len {
                32 * (i as int)
            } else {
                len as int
            };
            &&& out.len() == len
            &&& i <= 255
            &&& out.subrange(32 * (i - 1), end) == H::spec_hmac(
                cose5::<H>(),
                prk,
                prev + info + seq![i as u8],
            ).take(end - 32 * (i - 1))
        }),
{
    let n = block_count(len);
    assert(i <= n) by (nonlinear_arith)
        requires
            32 * (i - 1) < len,
            n == (len + 31) / 32,
            i >= 1,
    ;
    assert(n <= 255) by (nonlinear_arith)
        requires
            len <= 8160,
            n == (len + 31) / 32,
    ;
    lemma_all_blocks_valid::<H>(prk, info, n);
    lemma_stream_len::<H>(prk, info, n);
    lemma_expand_prefix::<H>(prk, info, len, len);
    let s = hkdf_stream::<H>(prk, info, n);
    let out = spec_hkdf_expand::<H>(prk, info, len);
    assert(s.len() >= len) by (nonlinear_arith)
        requires
            s.len() == 32 * n,
            n == (len + 31) / 32,
    ;
    let end = if 32 * (i as int) <= len {
        32 * (i as int)
    } else {
        len as int
    };
    lemma_stream_block::<H>(prk, info, n, i);
    let b = hkdf_block::<H>(prk, info, i);
    assert(out.subrange(32 * (i - 1), end) =~= b.take(end - 32 * (i - 1)));
    let prev_block = hkdf_block::<H>(prk, info, (i - 1) as nat);
    if i > 1 {
        lemma_stream_block::<H>(prk, info, n, (i - 1) as nat);
        assert(out.subrange(32 * (i - 2), 32 * (i - 1)) =~= prev_block);
    }
    assert(b == H::spec_hmac(hmac_sha256_alg::<H>(), prk, prev_block + info + seq![i as u8]));
}

/// With an HMAC-SHA-256 that gives 32 bytes, HKDF-Expand succeeds on every output length up to
/// 255 blocks and fills the whole buffer with the expanded key; longer requests are refused
/// with the buffer untouched.
pub proof fn law_expand_outcome<H: HmacProvider>(prk: Seq<u8>, info: Seq<u8>, okm: Seq<u8>)
    requires
        forall|k: Seq<u8>, d: Seq<u8>| #[trigger] H::spec_hmac(cose5::<H>(), k, d).len() == 32,
    ensures
        okm.len() <= MAX_OKM_LEN ==> expand_outcome::<H>(prk, info, okm) == (
            Ok::<(), HkdfError>(()),
            spec_hkdf_expand::<H>(prk, info, okm.len()),
        ),
        okm.len() > MAX_OKM_LEN ==> expand_outcome::<H>(prk, info, okm) == (
            Err::<(), HkdfError>(HkdfError::OutputTooLong),
            okm,
        ),
{
    lemma_all_blocks_valid::<H>(prk, info, block_count(okm.len()));
}

/// HKDF-Extract (RFC 5869 section 2.2): the PRK is HMAC-SHA-256 keyed with exactly the given
/// salt, whatever its length, over the input keying material; without a salt the key is 32 zero
/// bytes.
pub proof fn law_extract_is_hmac<H: HmacProvider>(salt: Option<Seq<u8>>, ikm: Seq<u8>)
    ensures
        salt matches Some(s) ==> spec_hkdf_extract::<H>(salt, ikm) == H::spec_hmac(
            cose5::<H>(),
            s,
            ikm,
        ),
        salt is None ==> spec_hkdf_extract::<H>(salt, ikm) == H::spec_hmac(
            cose5::<H>(),
            Seq::new(32, |j: int| 0u8),
            ikm,
        ),
{
    assert(zero_salt() =~= Seq::new(32, |j: int| 0u8));
}

/// Key derivation (RFC 5869) offered by every HMAC provider that knows HMAC-SHA-256.
pub trait HkdfProvider: HmacProvider + Sized {
    /// HKDF-Extract (RFC 5869): returns a 32-byte pseudorandom key.
    ///
    /// When `salt` is `None`, 32 zero bytes are used as the HMAC key,
    /// HashLen = 32 for SHA-256.
    fn hkdf_extract(&mut self, salt: Option<&[u8]>, ikm: &[u8]) -> (r: Result<
        [u8; 32],
        HkdfError,
    >)
        requires
            supports_hmac_sha256::<Self>(),
        ensures
            r is Ok <==> spec_hkdf_extract::<Self>(salt_view(salt), ikm@).len() == 32,
            r matches Ok(prk) ==> prk@ == spec_hkdf_extract::<Self>(salt_view(salt), ikm@),
            r is Err ==> r == Err::<[u8; 32], HkdfError>(HkdfError::InvalidOutputLength),
    {
        let zero: [u8; 32] = [0u8; 32];
        assert(zero == vstd::array::spec_array_fill_for_copy_type::<u8, 32>(0u8));
        assert(zero@ =~= zero_salt());
        let salt_bytes: &[u8] = match salt {
            Some(s) => s,
            None => zero.as_slice(),
        };
        let alg = <Self::Algorithm as HmacAlgorithm>::from_cose_number(5i128).unwrap();
        // PRK = HMAC-Hash(salt, IKM): salt is the HMAC key, IKM is the data.
        let result = self.hmac_with_keydata(alg, salt_bytes, ikm);
        let bytes = AsByteSlice::as_ref(&result);
        if bytes.len() != HASH_LEN {
            return Err(HkdfError::InvalidOutputLength);
        }
        let mut prk: [u8; 32] = [0u8; 32];
        let mut j: usize = 0;
        while j < HASH_LEN
            invariant
                bytes@.len() == 32,
                j <= 32,
                prk@.len() == 32,
                forall|m: int| 0 <= m < j ==> prk@[m] == bytes@[m],
            decreases 32 - j,
        {
            prk[j] = bytes[j];
            j = j + 1;
        }
        assert(prk@ =~= bytes@);
        Ok(prk)
    }

    /// HKDF-Expand (RFC 5869): fills `okm` with derived key material.
    fn hkdf_expand(&mut self, prk: &[u8], info: &[u8], okm: &mut [u8]) -> (r: Result<
        (),
        HkdfError,
    >)
        requires
            old(okm)@.len() > MAX_OKM_LEN || supports_hmac_sha256::<Self>(),
        ensures
            (r, final(okm)@) == expand_outcome::<Self>(prk@, info@, old(okm)@),
    {
        let ghost old_okm = okm@;
        let len = okm.len();
        if len > MAX_OKM_LEN {
            return Err(HkdfError::OutputTooLong);
        }
        let ghost n = block_count(len as nat);
        let mut t: [u8; 32] = [0u8; 32];
        let mut t_len: usize = 0;
        let mut pos: usize = 0;
        let ghost mut i: nat = 0;
        while pos < okm.len()
            invariant
                supports_hmac_sha256::<Self>(),
                len == okm@.len(),
                len == old_okm.len(),
                old_okm == old(okm)@,
                len <= MAX_OKM_LEN,
                n == block_count(len as nat),
                i <= n,
                pos <= len,
                pos == (if 32 * i <= len { (32 * i) as int } else { len as int }),
                valid_blocks::<Self>(prk@, info@, i) == i,
                t@.len() == 32,
                t_len == 0 <==> i == 0,
                t_len == 0 || t_len == 32,
                i > 0 ==> t@ == hkdf_block::<Self>(prk@, info@, i),
                okm@ == hkdf_stream::<Self>(prk@, info@, i).take(pos as int) + old_okm.skip(
                    pos as int,
                ),
            decreases len - pos,
        {
            // counter is the 1-based block index; pos / HASH_LEN + 1 <= 255 because
            // okm.len() <= 255 * HASH_LEN
            assert(pos == 32 * i);
            assert(i < n);
            let counter = (pos / HASH_LEN + 1) as u8;
            assert(counter == i + 1);
            let alg = <Self::Algorithm as HmacAlgorithm>::from_cose_number(5i128).unwrap();
            // T(i) = HMAC-Hash(PRK, T(i-1) || info || i)
            let mut state = self.init_with_keydata(alg, prk);
            if t_len > 0 {
                HmacProvider::update(self, &mut state, t.as_slice());
            }
            HmacProvider::update(self, &mut state, info);
            let counter_bytes: [u8; 1] = [counter];
            HmacProvider::update(self, &mut state, counter_bytes.as_slice());
            proof {
                let prev = hkdf_block::<Self>(prk@, info@, i);
                if i == 0 {
                    assert(Seq::<u8>::empty() + info@ + counter_bytes@ =~= prev + info@ + seq![
                        (i + 1) as u8,
                    ]);
                } else {
                    assert(Seq::<u8>::empty() + t@ + info@ + counter_bytes@ =~= prev + info@
                        + seq![(i + 1) as u8]);
                }
            }
            let result = HmacProvider::finalize(self, state);
            let result_bytes = AsByteSlice::as_ref(&result);
            assert(result_bytes@ == hkdf_block::<Self>(prk@, info@, i + 1));
            if result_bytes.len() != HASH_LEN {
                proof {
                    lemma_valid_blocks_stuck::<Self>(prk@, info@, i, n);
                    lemma_stream_len::<Self>(prk@, info@, i);
                    assert(hkdf_stream::<Self>(prk@, info@, i).take(pos as int) =~= hkdf_stream::<
                        Self,
                    >(prk@, info@, i));
                    assert(valid_blocks::<Self>(prk@, info@, n) == i);
                    assert(okm@ == expand_outcome::<Self>(prk@, info@, old_okm).1);
                }
                return Err(HkdfError::InvalidOutputLength);
            }
            let mut j: usize = 0;
            while j < HASH_LEN
                invariant
                    result_bytes@.len() == 32,
                    j <= 32,
                    t@.len() == 32,
                    forall|m: int| 0 <= m < j ==> t@[m] == result_bytes@[m],
                decreases 32 - j,
            {
                t[j] = result_bytes[j];
                j = j + 1;
            }
            assert(t@ =~= result_bytes@);
            t_len = HASH_LEN;

            let take: usize = if okm.len() - pos < HASH_LEN {
                okm.len() - pos
            } else {
                HASH_LEN
            };
            let ghost okm_before = okm@;
            let mut j: usize = 0;
            while j < take
                invariant
                    okm@.len() == len,
                    okm_before.len() == len,
                    pos + take <= len,
                    take <= 32,
                    t@.len() == 32,
                    j <= take,
                    forall|m: int| 0 <= m < pos ==> okm@[m] == okm_before[m],
                    forall|m: int| pos + j <= m < len ==> okm@[m] == okm_before[m],
                    forall|m: int| pos <= m < pos + j ==> okm@[m] == t@[m - pos],
                decreases take - j,
            {
                okm[pos + j] = t[j];
                j = j + 1;
            }
            proof {
                lemma_stream_len::<Self>(prk@, info@, i);
                assert(valid_blocks::<Self>(prk@, info@, i + 1) == i + 1);
                let s0 = hkdf_stream::<Self>(prk@, info@, i);
                let s1 = hkdf_stream::<Self>(prk@, info@, i + 1);
                assert(s1 == s0 + t@);
                assert(s0.len() == pos);
                assert(okm_before =~= s0 + old_okm.skip(pos as int));
                assert(s1.len() == pos + 32);
                let target = s1.take((pos + take) as int) + old_okm.skip((pos + take) as int);
                assert forall|m: int| 0 <= m < len implies okm@[m] == target[m] by {
                    if m < pos {
                        assert(okm_before[m] == s0[m]);
                        assert(s1[m] == s0[m]);
                    } else if m < pos + take {
                        assert(s1[m] == t@[m - pos]);
                    } else {
                        assert(okm_before[m] == old_okm.skip(pos as int)[m - pos]);
                    }
                }
                assert(okm@ =~= s1.take((pos + take) as int) + old_okm.skip((pos + take) as int));
                i = i + 1;
            }
            pos = pos + take;
        }
        proof {
            assert(i == n);
            lemma_stream_len::<Self>(prk@, info@, i);
            assert(okm@ =~= spec_hkdf_expand::<Self>(prk@, info@, len as nat));
        }
        Ok(())
    }

    /// Extract then expand in one call.
    fn hkdf(&mut self, salt: Option<&[u8]>, ikm: &[u8], info: &[u8], okm: &mut [u8]) -> (r:
        Result<(), HkdfError>)
        requires
            supports_hmac_sha256::<Self>(),
        ensures
            (r, final(okm)@) == hkdf_outcome::<Self>(salt_view(salt), ikm@, info@, old(okm)@),
    {
        let prk = match self.hkdf_extract(salt, ikm) {
            Ok(p) => p,
            Err(e) => {
                return Err(e);
            },
        };
        self.hkdf_expand(prk.as_slice(), info, okm)
    }
}

impl<H: HmacProvider> HkdfProvider for H {

}

} // verus!
