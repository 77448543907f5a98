//! The Internet checksum (RFC 1071) over a byte sequence: the one's-complement
//! of the one's-complement sum of its big-endian 16-bit words.

use vstd::prelude::*;

verus! {

/// The big-endian 16-bit word made of `hi` followed by `lo`.
pub open spec fn be16(hi: u8, lo: u8) -> nat {
    hi as nat * 256 + lo as nat
}

/// Plain (carry-keeping) sum of the big-endian 16-bit words of `s`; an odd
/// final byte counts as the high byte of a word whose low byte is zero.
pub open spec fn word_sum(s: Seq<u8>) -> nat
    decreases s.len(),
{
    if s.len() == 0 {
        0
    } else if s.len() == 1 {
        s[0] as nat * 256
    } else {
        be16(s[0], s[1]) + word_sum(s.skip(2))
    }
}

/// End-around carry: adds the bits above the low 16 back into the low 16
/// until the value fits in 16 bits.
pub open spec fn fold_carries(n: nat) -> nat
    decreases n,
{
    if n < 0x10000 {
        n
    } else {
        fold_carries(n % 0x10000 + n / 0x10000)
    }
}

/// The one's complement of the folded sum `n`.
pub open spec fn complement_of_sum(n: nat) -> u16 {
    (0xFFFF - fold_carries(n)) as u16
}

/// The Internet checksum of `s`.
pub open spec fn internet_checksum(s: Seq<u8>) -> u16 {
    complement_of_sum(word_sum(s))
}

/// `s` with the 16-bit value `c` written big-endian at offsets 2 and 3,
/// where both IGMP and ICMPv6 keep their checksum.
pub open spec fn with_checksum_field(s: Seq<u8>, c: u16) -> Seq<u8> {
    s.update(2, (c / 256) as u8).update(3, (c % 256) as u8)
}

/// Adds the big-endian 16-bit words of `data` to `sum`, an odd final byte
/// padded with a zero low byte.
pub fn add_words(sum: u32, data: &[u8]) -> (r: u32)
    requires
        sum + word_sum(data@) <= u32::MAX,
    ensures
        r == sum + word_sum(data@),
{
    let mut total = sum;
    let mut i: usize = 0;
    assert(data@.skip(0) =~= data@);
    while i < data.len()
        invariant
            0 <= i <= data.len(),
            total + word_sum(data@.skip(i as int)) == sum + word_sum(data@),
            sum + word_sum(data@) <= u32::MAX,
        decreases data.len() - i,
    {
        proof {
            lemma_word_sum_step(data@, i as int);
        }
        if i + 1 < data.len() {
            total = total + (data[i] as u32 * 256 + data[i + 1] as u32);
            i = i + 2;
        } else {
            total = total + data[i] as u32 * 256;
            i = i + 1;
        }
    }
    assert(data@.skip(i as int) =~= Seq::<u8>::empty());
    total
}

/// Folds the carries of a 32-bit sum into 16 bits and returns the one's
/// complement of the result.
pub fn fold_and_complement(sum: u32) -> (r: u16)
    ensures
        r == complement_of_sum(sum as nat),
{
    let mut sum = sum;
    let ghost total: nat = sum as nat;
    while (sum >> 16) != 0
        invariant
            fold_carries(sum as nat) == fold_carries(total),
        decreases sum,
    {
        assert((sum >> 16) != 0 ==> sum >= 0x10000) by (bit_vector);
        assert(sum & 0xFFFF == sum % 0x10000) by (bit_vector);
        assert(sum >> 16 == sum / 0x10000) by (bit_vector);
        sum = (sum & 0xFFFF) + (sum >> 16);
    }
    assert(!((sum >> 16) != 0) ==> sum < 0x10000) by (bit_vector);
    assert(sum < 0x10000 ==> (!sum) as u16 == (0xFFFF - sum) as u16) by (bit_vector);
    #[verifier::truncate]
    (!sum as u16)
}

/// Folding keeps the value modulo 0xFFFF, yields at most 16 bits, and yields
/// zero only for zero.  The returned `k` is the multiple of 0xFFFF removed.
pub proof fn lemma_fold_carries(n: nat) -> (k: nat)
    ensures
        n == fold_carries(n) + 0xFFFF * k,
        fold_carries(n) <= 0xFFFF,
        n > 0 ==> fold_carries(n) >= 1,
    decreases n,
{
    if n < 0x10000 {
        0
    } else {
        let q = n / 0x10000;
        let r = n % 0x10000;
        assert(n == 0x10000 * q + r && q >= 1) by (nonlinear_arith)
            requires
                q == n / 0x10000,
                r == n % 0x10000,
                n >= 0x10000,
        ;
        let m: nat = (r + q) as nat;
        let k2 = lemma_fold_carries(m);
        (k2 + q) as nat
    }
}

/// Each byte contributes at most 0xFFFF to the word sum.
pub proof fn lemma_word_sum_bound(s: Seq<u8>)
    ensures
        word_sum(s) <= 0xFFFF * s.len(),
    decreases s.len(),
{
    if s.len() >= 2 {
        lemma_word_sum_bound(s.skip(2));
    }
}

/// Unfolding of `word_sum` at an offset: the word starting at `i` plus the
/// rest from `i + 2`.
pub proof fn lemma_word_sum_step(s: Seq<u8>, i: int)
    requires
        0 <= i < s.len(),
    ensures
        i + 1 < s.len() ==> word_sum(s.skip(i)) == be16(s[i], s[i + 1]) + word_sum(s.skip(i + 2)),
        i + 1 == s.len() ==> word_sum(s.skip(i)) == s[i] as nat * 256,
{
    if i + 1 < s.len() {
        assert(s.skip(i).skip(2) =~= s.skip(i + 2));
    }
}

/// Concatenation adds word sums when the first part has even length.
pub proof fn lemma_word_sum_append(a: Seq<u8>, b: Seq<u8>)
    requires
        a.len() % 2 == 0,
    ensures
        word_sum(a + b) == word_sum(a) + word_sum(b),
    decreases a.len(),
{
    if a.len() == 0 {
        assert(a + b =~= b);
    } else {
        assert((a + b).skip(2) =~= a.skip(2) + b);
        lemma_word_sum_append(a.skip(2), b);
    }
}

/// Writing a 16-bit value into a zeroed field at offsets 2 and 3 adds that
/// value to the word sum.
pub proof fn lemma_word_sum_with_checksum_field(s: Seq<u8>, c: u16)
    requires
        s.len() >= 4,
        s[2] == 0,
        s[3] == 0,
    ensures
        word_sum(with_checksum_field(s, c)) == word_sum(s) + c,
{
    let t = with_checksum_field(s, c);
    assert(s.skip(0) =~= s);
    assert(t.skip(0) =~= t);
    lemma_word_sum_step(s, 0);
    lemma_word_sum_step(s, 2);
    lemma_word_sum_step(t, 0);
    lemma_word_sum_step(t, 2);
    assert(t.skip(4) =~= s.skip(4));
    assert(be16((c / 256) as u8, (c % 256) as u8) == c);
}

/// A checksum placed into its own (previously zero) field makes the whole
/// sequence check to zero: this is how a receiver validates it.
pub proof fn law_checksum_field_validates(s: Seq<u8>)
    requires
        s.len() >= 4,
        s[2] == 0,
        s[3] == 0,
    ensures
        internet_checksum(with_checksum_field(s, internet_checksum(s))) == 0,
{
    let c = internet_checksum(s);
    lemma_sum_plus_complement_checks_zero(word_sum(s));
    lemma_word_sum_with_checksum_field(s, c);
}

/// Adding the complement of a sum to that sum yields a sum whose complement
/// is zero.
pub proof fn lemma_sum_plus_complement_checks_zero(n: nat)
    ensures
        complement_of_sum((n + complement_of_sum(n)) as nat) == 0,
{
    let f = fold_carries(n);
    let k = lemma_fold_carries(n);
    let c = complement_of_sum(n);
    assert(c == 0xFFFF - f);
    let n2: nat = (n + c) as nat;
    let k2 = lemma_fold_carries(n2);
    let f2 = fold_carries(n2);
    assert(n2 > 0);
    assert(n2 == 0xFFFF * (k + 1));
    assert(f2 == 0xFFFF * (k + 1 - k2));
    assert(f2 == 0xFFFF) by (nonlinear_arith)
        requires
            f2 == 0xFFFF * (k + 1 - k2),
            1 <= f2 <= 0xFFFF,
    ;
}

/// The word sum is the sum of big-endian 16-bit words: a two-byte sequence
/// counts as `hi * 256 + lo`, a single trailing byte as its value times 256,
/// and sequences of even length add up.
pub proof fn law_word_sum_is_sum_of_big_endian_words(hi: u8, lo: u8, a: Seq<u8>, b: Seq<u8>)
    requires
        a.len() % 2 == 0,
    ensures
        word_sum(seq![hi, lo]) == hi as int * 256 + lo as int,
        word_sum(seq![hi]) == hi as int * 256,
        word_sum(Seq::<u8>::empty()) == 0,
        word_sum(a + b) == word_sum(a) + word_sum(b),
{
    let w = seq![hi, lo];
    assert(w.skip(2) =~= Seq::<u8>::empty());
    assert(word_sum(w) == be16(w[0], w[1]) + word_sum(w.skip(2)));
    lemma_word_sum_append(a, b);
}

/// The one's-complement checksum of a sum: a sum that fits in 16 bits is
/// complemented as it is, and a larger one has its carries added back into
/// its low 16 bits first.
pub proof fn law_complement_adds_back_carries(n: nat)
    ensures
        n < 0x1_0000 ==> complement_of_sum(n) as int == 0xFFFF - n,
        n >= 0x1_0000 ==> complement_of_sum(n) == complement_of_sum(
            (n % 0x1_0000 + n / 0x1_0000) as nat,
        ),
{
}

} // verus!
