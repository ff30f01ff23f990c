//! Hashes as byte strings: the digest that the search computes, the big-endian
//! encoding of a nonce, and the order in which a digest is held against a target.

use vstd::prelude::*;

verus! {

/// The Keccak-256 digest of the byte strings `vals`, absorbed in order.
///
/// This names what `solana_sdk::keccak::hashv` returns; the algorithm itself is
/// not restated here.
pub uninterp spec fn keccak_hashv(vals: Seq<Seq<u8>>) -> Seq<u8>;

/// The number that the bytes `bytes` denote when read with the most significant
/// byte first.
pub open spec fn be_value(bytes: Seq<u8>) -> nat
    decreases bytes.len(),
{
    if bytes.len() == 0 {
        0
    } else {
        256 * be_value(bytes.drop_last()) + bytes.last() as nat
    }
}

/// The eight bytes of `nonce`, most significant first.
pub open spec fn nonce_bytes(nonce: u64) -> Seq<u8> {
    seq![
        (nonce / 0x0100_0000_0000_0000) as u8,
        (nonce / 0x0001_0000_0000_0000 % 256) as u8,
        (nonce / 0x0000_0100_0000_0000 % 256) as u8,
        (nonce / 0x0000_0001_0000_0000 % 256) as u8,
        (nonce / 0x0000_0000_0100_0000 % 256) as u8,
        (nonce / 0x0000_0000_0001_0000 % 256) as u8,
        (nonce / 0x0000_0000_0000_0100 % 256) as u8,
        (nonce % 256) as u8,
    ]
}

/// The digest that a miner with public key `pubkey` obtains for `nonce` on the
/// challenge `challenge`: the Keccak-256 digest of the challenge, the public key
/// and the big-endian nonce, in that order.
pub open spec fn spec_mining_hash(challenge: Seq<u8>, pubkey: Seq<u8>, nonce: u64) -> Seq<u8> {
    keccak_hashv(seq![challenge, pubkey, nonce_bytes(nonce)])
}

/// Encodes `nonce` as eight bytes, most significant first.
pub fn nonce_be_bytes(nonce: u64) -> (bytes: [u8; 8])
    ensures
        bytes@ == nonce_bytes(nonce),
{
    let bytes: [u8; 8] = [
        (nonce / 0x0100_0000_0000_0000) as u8,
        (nonce / 0x0001_0000_0000_0000 % 256) as u8,
        (nonce / 0x0000_0100_0000_0000 % 256) as u8,
        (nonce / 0x0000_0001_0000_0000 % 256) as u8,
        (nonce / 0x0000_0000_0100_0000 % 256) as u8,
        (nonce / 0x0000_0000_0001_0000 % 256) as u8,
        (nonce / 0x0000_0000_0000_0100 % 256) as u8,
        (nonce % 256) as u8,
    ];
    assert(bytes@ =~= nonce_bytes(nonce));
    bytes
}

/// Calls `solana_sdk::keccak::hashv` on the three byte strings, in the order
/// given, and hands back the 32 bytes of the digest. The contract only names the
/// result: it is `keccak_hashv` of the three arguments.
#[verifier::external_body]
fn keccak_of_three(first: &[u8; 32], second: &[u8; 32], third: &[u8; 8]) -> (digest: [u8; 32])
    ensures
        digest@ == keccak_hashv(seq![first@, second@, third@]),
{
    solana_sdk::keccak::hashv(&[first.as_slice(), second.as_slice(), third.as_slice()]).to_bytes()
}

/// Computes the digest of one attempt.
pub fn mining_hash(challenge: &[u8; 32], pubkey: &[u8; 32], nonce: u64) -> (digest: [u8; 32])
    ensures
        digest@ == spec_mining_hash(challenge@, pubkey@, nonce),
{
    let encoded = nonce_be_bytes(nonce);
    keccak_of_three(challenge, pubkey, &encoded)
}

/// `a` and `b` agree before index `i` and differ at it.
pub open spec fn first_difference(a: Seq<u8>, b: Seq<u8>, i: int) -> bool {
    &&& 0 <= i < a.len()
    &&& i < b.len()
    &&& a[i] != b[i]
    &&& forall|j: int| 0 <= j < i ==> a[j] == b[j]
}

/// `a` comes strictly before `b` in the order of byte strings: at the first
/// index where they differ, the byte of `a` is the smaller one.
pub open spec fn spec_hash_lt(a: Seq<u8>, b: Seq<u8>) -> bool {
    exists|i: int| first_difference(a, b, i) && a[i] < b[i]
}

/// `a` does not exceed `b` in the order of byte strings of one length. For
/// digests this is the order of the numbers they denote, as
/// `lemma_byte_order_is_numeric_order` shows.
pub open spec fn spec_hash_le(a: Seq<u8>, b: Seq<u8>) -> bool {
    a == b || spec_hash_lt(a, b)
}

/// Two byte strings have at most one first difference.
pub proof fn lemma_first_difference_unique(a: Seq<u8>, b: Seq<u8>, i: int, k: int)
    requires
        first_difference(a, b, i),
        first_difference(a, b, k),
    ensures
        i == k,
{
    if i < k {
        assert(a[i] == b[i]);
    } else if k < i {
        assert(a[k] == b[k]);
    }
}

/// Tells whether two digests are the same.
pub fn hash_eq(a: &[u8; 32], b: &[u8; 32]) -> (same: bool)
    ensures
        same == (a@ == b@),
{
    let mut i: usize = 0;
    while i < 32
        invariant
            i <= 32,
            forall|j: int| 0 <= j < i ==> a@[j] == b@[j],
        decreases 32 - i,
    {
        if a[i] != b[i] {
            return false;
        }
        i += 1;
    }
    assert(a@ =~= b@);
    true
}

/// Tells whether the digest `a` is at most the target `b`.
pub fn hash_le(a: &[u8; 32], b: &[u8; 32]) -> (le: bool)
    ensures
        le == spec_hash_le(a@, b@),
{
    let mut i: usize = 0;
    while i < 32
        invariant
            i <= 32,
            forall|j: int| 0 <= j < i ==> a@[j] == b@[j],
        decreases 32 - i,
    {
        if a[i] != b[i] {
            proof {
                assert(first_difference(a@, b@, i as int));
                assert(a@ != b@);
                assert forall|k: int| first_difference(a@, b@, k) implies k == i by {
                    lemma_first_difference_unique(a@, b@, i as int, k);
                }
            }
            return a[i] < b[i];
        }
        i += 1;
    }
    assert(a@ =~= b@);
    true
}

/// Byte strings of one length stand to each other as the numbers they denote:
/// they are equal, or they differ first at an index that also decides the order
/// of the numbers.
pub proof fn lemma_trichotomy(a: Seq<u8>, b: Seq<u8>)
    requires
        a.len() == b.len(),
    ensures
        (a == b && be_value(a) == be_value(b)) || (spec_hash_lt(a, b) && be_value(a) < be_value(b))
            || (spec_hash_lt(b, a) && be_value(b) < be_value(a)),
    decreases a.len(),
{
    if a.len() == 0 {
        assert(a =~= b);
    } else {
        let n = a.len() - 1;
        let a0 = a.drop_last();
        let b0 = b.drop_last();
        lemma_trichotomy(a0, b0);
        if a0 == b0 {
            if a.last() == b.last() {
                assert(a =~= b) by {
                    assert forall|j: int| 0 <= j < a.len() implies a[j] == b[j] by {
                        if j < n {
                            assert(a[j] == a0[j] && b[j] == b0[j]);
                        }
                    }
                }
            } else {
                assert forall|j: int| 0 <= j < n implies a[j] == b[j] by {
                    assert(a[j] == a0[j] && b[j] == b0[j]);
                }
                assert(first_difference(a, b, n));
                assert(first_difference(b, a, n));
            }
        } else if spec_hash_lt(a0, b0) && be_value(a0) < be_value(b0) {
            let i = choose|i: int| first_difference(a0, b0, i) && a0[i] < b0[i];
            assert forall|j: int| 0 <= j <= i implies a[j] == a0[j] && b[j] == b0[j] by {}
            assert(first_difference(a, b, i));
            assert(a[i] < b[i]);
        } else {
            let i = choose|i: int| first_difference(b0, a0, i) && b0[i] < a0[i];
            assert forall|j: int| 0 <= j <= i implies a[j] == a0[j] && b[j] == b0[j] by {}
            assert(first_difference(b, a, i));
            assert(b[i] < a[i]);
        }
    }
}

/// The order of byte strings is the order of the numbers they denote: for `a`
/// and `b` of one length, `a` is at most `b` exactly when the number that `a`
/// denotes, most significant byte first, is at most the one that `b` denotes.
pub proof fn lemma_byte_order_is_numeric_order(a: Seq<u8>, b: Seq<u8>)
    requires
        a.len() == b.len(),
    ensures
        spec_hash_le(a, b) <==> be_value(a) <= be_value(b),
{
    lemma_trichotomy(a, b);
    if spec_hash_lt(b, a) && spec_hash_lt(a, b) {
        let i = choose|i: int| first_difference(a, b, i) && a[i] < b[i];
        let k = choose|k: int| first_difference(b, a, k) && b[k] < a[k];
        assert(first_difference(a, b, k));
        lemma_first_difference_unique(a, b, i, k);
    }
}

/// Appending a byte shifts the number denoted by one byte and adds the new one.
pub proof fn lemma_be_value_push(bytes: Seq<u8>, last: u8)
    ensures
        be_value(bytes.push(last)) == 256 * be_value(bytes) + last,
{
    assert(bytes.push(last).drop_last() =~= bytes);
    assert(bytes.push(last).last() == last);
}

/// The bytes of a 64-bit number, weighted by their place, add up to the number.
proof fn lemma_nonce_digits(n: u64)
    ensures
        n == 0x0100_0000_0000_0000 * (n / 0x0100_0000_0000_0000) + 0x0001_0000_0000_0000 * (n
            / 0x0001_0000_0000_0000 % 256) + 0x0000_0100_0000_0000 * (n / 0x0000_0100_0000_0000
            % 256) + 0x0000_0001_0000_0000 * (n / 0x0000_0001_0000_0000 % 256)
            + 0x0000_0000_0100_0000 * (n / 0x0000_0000_0100_0000 % 256) + 0x0000_0000_0001_0000
            * (n / 0x0000_0000_0001_0000 % 256) + 0x0000_0000_0000_0100 * (n
            / 0x0000_0000_0000_0100 % 256) + n % 256,
        n / 0x0100_0000_0000_0000 < 256,
{
    let q1 = n as int / 0x100;
    let q2 = n as int / 0x1_0000;
    let q3 = n as int / 0x100_0000;
    let q4 = n as int / 0x1_0000_0000;
    let q5 = n as int / 0x100_0000_0000;
    let q6 = n as int / 0x1_0000_0000_0000;
    let q7 = n as int / 0x100_0000_0000_0000;
    assert(q2 == q1 / 256);
    assert(q3 == q2 / 256);
    assert(q4 == q3 / 256);
    assert(q5 == q4 / 256);
    assert(q6 == q5 / 256);
    assert(q7 == q6 / 256);
}

/// The encoding of a nonce denotes the nonce: read with the most significant
/// byte first, the eight bytes of `nonce_bytes(nonce)` give `nonce` back.
pub proof fn lemma_nonce_bytes_denote_nonce(nonce: u64)
    ensures
        nonce_bytes(nonce).len() == 8,
        be_value(nonce_bytes(nonce)) == nonce,
{
    let s = nonce_bytes(nonce);
    let head0 = Seq::<u8>::empty();
    let head1 = head0.push(s[0]);
    let head2 = head1.push(s[1]);
    let head3 = head2.push(s[2]);
    let head4 = head3.push(s[3]);
    let head5 = head4.push(s[4]);
    let head6 = head5.push(s[5]);
    let head7 = head6.push(s[6]);
    let head8 = head7.push(s[7]);
    assert(s =~= head8);
    lemma_be_value_push(head0, s[0]);
    lemma_be_value_push(head1, s[1]);
    lemma_be_value_push(head2, s[2]);
    lemma_be_value_push(head3, s[3]);
    lemma_be_value_push(head4, s[4]);
    lemma_be_value_push(head5, s[5]);
    lemma_be_value_push(head6, s[6]);
    lemma_be_value_push(head7, s[7]);
    lemma_nonce_digits(nonce);
}

} // verus!
