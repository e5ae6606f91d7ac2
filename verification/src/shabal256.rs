//! The Shabal-256 compression as used for plotting and scoring nonces.
//!
//! The state is the usual triple of word arrays `A` (12 words), `B` and `C`
//! (16 words each) and a 64-bit block counter. A message is absorbed in
//! blocks of sixteen little-endian 32-bit words; the last block is handed in
//! already padded.

use vstd::prelude::*;

verus! {

/// Initial value of `A` for a 256-bit digest.
pub const A_INIT: [u32; 12] = [
    0x52F84552, 0xE54B7999, 0x2D8EE3EC, 0xB9645191, 0xE0078B86, 0xBB7C44C9,
    0xD2B5C1CA, 0xB0D2EB8C, 0x14CE5A45, 0x22AF50DC, 0xEFFDBC6B, 0xEB21B74A,
];

/// Initial value of `B` for a 256-bit digest.
pub const B_INIT: [u32; 16] = [
    0xB555C6EE, 0x3E710596, 0xA72A652F, 0x9301515F, 0xDA28C1FA, 0x696FD868,
    0x9CB6BF72, 0x0AFE4002, 0xA6E03615, 0x5138C1D4, 0xBE216306, 0xB38B8890,
    0x3EA8B96B, 0x3299ACE4, 0x30924DD4, 0x55CB34A5,
];

/// Initial value of `C` for a 256-bit digest.
pub const C_INIT: [u32; 16] = [
    0xB405F031, 0xC4233EBA, 0xB3733979, 0xC0DD9D55, 0xC51C28AE, 0xA327B8E1,
    0x56C56167, 0xED614433, 0x88B59D60, 0x60E2CEBA, 0x758B4B8B, 0x83E82A7F,
    0xBC968828, 0xE6E00BF7, 0xBA839E55, 0x9B491C60,
];

/// `x` rotated to the left by `n` bits, for `0 < n < 32`.
pub open spec fn rotl(x: u32, n: u32) -> u32 {
    (x << n) | (x >> ((32 - n) as u32))
}

/// The new word of `A` in one step of the permutation.
pub open spec fn perm_word(a0: u32, a1: u32, c: u32, b1: u32, b2: u32, b3: u32, m: u32) -> u32 {
    (a0 ^ rotl(a1, 15).wrapping_mul(5) ^ c).wrapping_mul(3) ^ b1 ^ (b2 & !b3) ^ m
}

/// `b` with the words of the block `m` added, word by word, modulo 2^32.
pub open spec fn add_words(b: Seq<u32>, m: Seq<u32>) -> Seq<u32> {
    Seq::new(16, |i: int| b[i].wrapping_add(m[i]))
}

/// `c` with the words of the block `m` subtracted, word by word, modulo 2^32.
pub open spec fn sub_words(c: Seq<u32>, m: Seq<u32>) -> Seq<u32> {
    Seq::new(16, |i: int| c[i].wrapping_sub(m[i]))
}

/// `a` with the block counter `w` mixed into its first two words.
pub open spec fn xor_counter(a: Seq<u32>, w: u64) -> Seq<u32> {
    a.update(0, a[0] ^ (w as u32)).update(1, a[1] ^ ((w >> 32) as u32))
}

/// Every word of `b` rotated to the left by 17 bits.
pub open spec fn rotate_words(b: Seq<u32>) -> Seq<u32> {
    Seq::new(16, |i: int| rotl(b[i], 17))
}

/// Step `k` of the 48 steps of the permutation: word `k mod 12` of `A` and
/// word `k mod 16` of `B` are replaced.
pub open spec fn perm_step(a: Seq<u32>, b: Seq<u32>, c: Seq<u32>, m: Seq<u32>, k: int) -> (
    Seq<u32>,
    Seq<u32>,
) {
    let i = k % 16;
    let x = perm_word(
        a[k % 12],
        a[(k + 11) % 12],
        c[(24 - i) % 16],
        b[(i + 13) % 16],
        b[(i + 9) % 16],
        b[(i + 6) % 16],
        m[i],
    );
    (a.update(k % 12, x), b.update(i, !(rotl(b[i], 1) ^ x)))
}

/// The first `n` steps of the permutation.
pub open spec fn perm_steps(a: Seq<u32>, b: Seq<u32>, c: Seq<u32>, m: Seq<u32>, n: nat) -> (
    Seq<u32>,
    Seq<u32>,
)
    decreases n,
{
    if n == 0 {
        (a, b)
    } else {
        let (a1, b1) = perm_steps(a, b, c, m, (n - 1) as nat);
        perm_step(a1, b1, c, m, n - 1)
    }
}

/// `a` after the 36 closing additions of the permutation: three words of `c`
/// are added to each word of `a`.
pub open spec fn add_c(a: Seq<u32>, c: Seq<u32>) -> Seq<u32> {
    Seq::new(
        12,
        |i: int|
            a[i].wrapping_add(c[(i + 11) % 16]).wrapping_add(c[(i + 15) % 16]).wrapping_add(
                c[(i + 3) % 16],
            ),
    )
}

/// The keyed permutation of Shabal: the new `A` and `B`.
pub open spec fn permute(a: Seq<u32>, b: Seq<u32>, c: Seq<u32>, m: Seq<u32>) -> (
    Seq<u32>,
    Seq<u32>,
) {
    let (a1, b1) = perm_steps(a, rotate_words(b), c, m, 48);
    (add_c(a1, c), b1)
}

/// The state of the compression between two blocks.
pub struct ShabalState {
    pub a: Seq<u32>,
    pub b: Seq<u32>,
    pub c: Seq<u32>,
    pub w: u64,
}

/// The state before the first block.
pub open spec fn initial_state() -> ShabalState {
    ShabalState { a: A_INIT@, b: B_INIT@, c: C_INIT@, w: 1 }
}

/// The state after one more message block `m`.
pub open spec fn absorb(s: ShabalState, m: Seq<u32>) -> ShabalState {
    let (a, b) = permute(xor_counter(s.a, s.w), add_words(s.b, m), s.c, m);
    ShabalState { a, b: sub_words(s.c, m), c: b, w: (s.w + 1) as u64 }
}

/// One of the three closing rounds: `B` and `C` change places and the
/// permutation runs once more on the last block; the counter stays.
pub open spec fn closing_round(s: ShabalState, m: Seq<u32>) -> ShabalState {
    let (a, b) = permute(xor_counter(s.a, s.w), s.c, s.b, m);
    ShabalState { a, b, c: s.b, w: s.w }
}

/// The state after the last, padded block `m` and the closing rounds.
pub open spec fn close(s: ShabalState, m: Seq<u32>) -> ShabalState {
    let (a, b) = permute(xor_counter(s.a, s.w), add_words(s.b, m), s.c, m);
    closing_round(
        closing_round(closing_round(ShabalState { a, b, c: s.c, w: s.w }, m), m),
        m,
    )
}

/// The 32-bit word that four bytes spell in little-endian order.
pub open spec fn word_of(b0: u8, b1: u8, b2: u8, b3: u8) -> u32 {
    (b0 as u32) | ((b1 as u32) << 8) | ((b2 as u32) << 16) | ((b3 as u32) << 24)
}

/// The word at byte offset `i` of `data`.
pub open spec fn word_at(data: Seq<u8>, i: int) -> u32 {
    word_of(data[i], data[i + 1], data[i + 2], data[i + 3])
}

/// The sixteen words of the 64-byte block that starts at byte `start`.
pub open spec fn block_words(data: Seq<u8>, start: int) -> Seq<u32> {
    Seq::new(16, |j: int| word_at(data, start + 4 * j))
}

/// Byte `j` of `w` in little-endian order, for `0 <= j < 4`.
pub open spec fn word_byte(w: u32, j: int) -> u8 {
    (w >> ((8 * j) as u32)) as u8
}

/// The bytes that spell the words `ws` in little-endian order.
pub open spec fn words_to_bytes(ws: Seq<u32>) -> Seq<u8> {
    Seq::new(4 * ws.len(), |i: int| word_byte(ws[i / 4], i % 4))
}

/// The state after the first `n` whole blocks of `data`.
pub open spec fn absorb_blocks(data: Seq<u8>, n: nat) -> ShabalState
    decreases n,
{
    if n == 0 {
        initial_state()
    } else {
        absorb(absorb_blocks(data, (n - 1) as nat), block_words(data, 64 * (n - 1)))
    }
}

/// The Shabal-256 digest of a message given as `data`, of which the whole
/// 64-byte blocks are absorbed, followed by the padded last block `term`.
/// Bytes of `data` after its last whole block are not read: the caller has
/// them in `term`.
#[verifier::opaque]
pub open spec fn shabal256(data: Seq<u8>, term: Seq<u32>) -> Seq<u8> {
    words_to_bytes(close(absorb_blocks(data, data.len() / 64), term).b.subrange(8, 16))
}

/// `n` zero bytes.
pub open spec fn zeros(n: nat) -> Seq<u8> {
    Seq::new(n, |i: int| 0u8)
}

/// The 64-bit number that the first eight bytes of `b` spell in big-endian
/// order.
pub open spec fn be_u64(b: Seq<u8>) -> u64 {
    ((b[0] as u64) << 56) | ((b[1] as u64) << 48) | ((b[2] as u64) << 40) | ((b[3] as u64) << 32)
        | ((b[4] as u64) << 24) | ((b[5] as u64) << 16) | ((b[6] as u64) << 8) | (b[7] as u64)
}

/// The padded last block of a message that ends with `tail`, fewer than 64
/// bytes, after its whole blocks: `tail`, the byte `0x80`, and zeros.
pub open spec fn padded(tail: Seq<u8>) -> Seq<u32> {
    block_words(tail + seq![0x80u8] + zeros((63 - tail.len()) as nat), 0)
}

/// The Shabal-256 digest of the message `msg`: its whole blocks are
/// absorbed, and what is left of it is padded to the last block.
pub open spec fn message_digest(msg: Seq<u8>) -> Seq<u8> {
    shabal256(msg, padded(msg.subrange(64 * (msg.len() as int / 64), msg.len() as int)))
}

/// The deadline of a scored 64-byte tuple under a generation signature: the
/// Shabal-256 digest of `gensig || first || second`, of which the first eight
/// bytes are read as a big-endian number.
pub open spec fn deadline(first: Seq<u8>, second: Seq<u8>, gensig: Seq<u8>) -> u64 {
    be_u64(shabal256(gensig + first, padded(second)))
}

/// The state has its twelve words of `A` and sixteen words each of `B` and
/// `C`.
pub open spec fn well_formed(s: ShabalState) -> bool {
    s.a.len() == 12 && s.b.len() == 16 && s.c.len() == 16
}

/// The steps of the permutation keep the number of words.
proof fn lemma_perm_steps_keep_length(a: Seq<u32>, b: Seq<u32>, c: Seq<u32>, m: Seq<u32>, n: nat)
    requires
        a.len() == 12,
        b.len() == 16,
    ensures
        perm_steps(a, b, c, m, n).0.len() == 12,
        perm_steps(a, b, c, m, n).1.len() == 16,
    decreases n,
{
    if n > 0 {
        lemma_perm_steps_keep_length(a, b, c, m, (n - 1) as nat);
    }
}

/// The permutation keeps the number of words.
proof fn lemma_permute_keeps_length(a: Seq<u32>, b: Seq<u32>, c: Seq<u32>, m: Seq<u32>)
    requires
        a.len() == 12,
    ensures
        permute(a, b, c, m).0.len() == 12,
        permute(a, b, c, m).1.len() == 16,
{
    lemma_perm_steps_keep_length(a, rotate_words(b), c, m, 48);
}

/// Whatever is absorbed, the state stays well formed.
proof fn lemma_absorbed_state_is_well_formed(data: Seq<u8>, n: nat)
    ensures
        well_formed(absorb_blocks(data, n)),
    decreases n,
{
    if n > 0 {
        lemma_absorbed_state_is_well_formed(data, (n - 1) as nat);
        let s = absorb_blocks(data, (n - 1) as nat);
        let m = block_words(data, 64 * (n - 1));
        lemma_permute_keeps_length(xor_counter(s.a, s.w), add_words(s.b, m), s.c, m);
    }
}

/// What is absorbed of a message depends on the bytes of its whole blocks
/// alone.
proof fn lemma_absorb_reads_whole_blocks(one: Seq<u8>, other: Seq<u8>, n: nat)
    requires
        64 * n <= one.len(),
        64 * n <= other.len(),
        forall|i: int| 0 <= i < 64 * n ==> one[i] == other[i],
    ensures
        absorb_blocks(one, n) == absorb_blocks(other, n),
    decreases n,
{
    if n > 0 {
        lemma_absorb_reads_whole_blocks(one, other, (n - 1) as nat);
        assert(block_words(one, 64 * (n - 1)) =~= block_words(other, 64 * (n - 1)));
    }
}

/// Hashing whole blocks `data` with the padded last block of `tail` gives
/// the digest of the message `data || tail`.
pub proof fn lemma_hash_is_message_digest(data: Seq<u8>, tail: Seq<u8>)
    requires
        data.len() % 64 == 0,
        tail.len() < 64,
    ensures
        shabal256(data, padded(tail)) == message_digest(data + tail),
{
    reveal(shabal256);
    let msg = data + tail;
    let n = data.len() / 64;
    assert(msg.subrange(64 * (msg.len() as int / 64), msg.len() as int) =~= tail);
    lemma_absorb_reads_whole_blocks(data, msg, n);
}

/// The hash does not depend on what stands in `data` behind its last whole
/// block.
pub proof fn lemma_hash_reads_whole_blocks(data: Seq<u8>, term: Seq<u32>)
    ensures
        shabal256(data, term) == shabal256(
            data.subrange(0, 64 * (data.len() as int / 64)),
            term,
        ),
{
    reveal(shabal256);
    let n = data.len() / 64;
    let whole = data.subrange(0, 64 * (data.len() as int / 64));
    lemma_absorb_reads_whole_blocks(data, whole, n);
}

/// The deadline of a tuple of two halves of 32 bytes is read from the
/// digest of the message `gensig || first || second`.
pub proof fn lemma_deadline_is_digest_prefix(first: Seq<u8>, second: Seq<u8>, gensig: Seq<u8>)
    requires
        first.len() == 32,
        second.len() == 32,
        gensig.len() == 32,
    ensures
        deadline(first, second, gensig) == be_u64(message_digest(gensig + first + second)),
{
    lemma_hash_is_message_digest(gensig + first, second);
}

/// A digest has 32 bytes, whatever is hashed.
pub proof fn lemma_digest_has_32_bytes(data: Seq<u8>, term: Seq<u32>)
    ensures
        shabal256(data, term).len() == 32,
{
    reveal(shabal256);
    let s = absorb_blocks(data, data.len() / 64);
    lemma_absorbed_state_is_well_formed(data, data.len() / 64);
    lemma_permute_keeps_length(xor_counter(s.a, s.w), add_words(s.b, term), s.c, term);
    let (a1, b1) = permute(xor_counter(s.a, s.w), add_words(s.b, term), s.c, term);
    let s1 = ShabalState { a: a1, b: b1, c: s.c, w: s.w };
    lemma_permute_keeps_length(xor_counter(s1.a, s1.w), s1.c, s1.b, term);
    let s2 = closing_round(s1, term);
    lemma_permute_keeps_length(xor_counter(s2.a, s2.w), s2.c, s2.b, term);
    let s3 = closing_round(s2, term);
    lemma_permute_keeps_length(xor_counter(s3.a, s3.w), s3.c, s3.b, term);
}

fn rotate(x: u32, n: u32) -> (r: u32)
    requires
        0 < n < 32,
    ensures
        r == rotl(x, n),
{
    (x << n) | (x >> (32 - n))
}

fn perm_elt(a0: u32, a1: u32, c: u32, b1: u32, b2: u32, b3: u32, m: u32) -> (r: u32)
    ensures
        r == perm_word(a0, a1, c, b1, b2, b3, m),
{
    (a0 ^ rotate(a1, 15).wrapping_mul(5) ^ c).wrapping_mul(3) ^ b1 ^ (b2 & !b3) ^ m
}

fn input_block_add(b: &mut [u32; 16], m: &[u32; 16])
    ensures
        final(b)@ == add_words(old(b)@, m@),
{
    let ghost b0 = b@;
    let mut i: usize = 0;
    while i < 16
        invariant
            i <= 16,
            forall|j: int| 0 <= j < i ==> b@[j] == b0[j].wrapping_add(m@[j]),
            forall|j: int| i <= j < 16 ==> b@[j] == b0[j],
        decreases 16 - i,
    {
        b[i] = b[i].wrapping_add(m[i]);
        i += 1;
    }
}

fn input_block_sub(c: &mut [u32; 16], m: &[u32; 16])
    ensures
        final(c)@ == sub_words(old(c)@, m@),
{
    let ghost c0 = c@;
    let mut i: usize = 0;
    while i < 16
        invariant
            i <= 16,
            forall|j: int| 0 <= j < i ==> c@[j] == c0[j].wrapping_sub(m@[j]),
            forall|j: int| i <= j < 16 ==> c@[j] == c0[j],
        decreases 16 - i,
    {
        c[i] = c[i].wrapping_sub(m[i]);
        i += 1;
    }
}

fn xor_w(a: &mut [u32; 12], w: u64)
    ensures
        final(a)@ == xor_counter(old(a)@, w),
{
    a[0] = a[0] ^ (#[verifier::truncate] (w as u32));
    a[1] = a[1] ^ (#[verifier::truncate] ((w >> 32) as u32));
}

fn apply_p(a: &mut [u32; 12], b: &mut [u32; 16], c: &[u32; 16], m: &[u32; 16])
    ensures
        (final(a)@, final(b)@) == permute(old(a)@, old(b)@, c@, m@),
{
    let ghost a0 = a@;
    let ghost b0 = b@;
    let mut i: usize = 0;
    while i < 16
        invariant
            i <= 16,
            forall|j: int| 0 <= j < i ==> b@[j] == rotl(b0[j], 17),
            forall|j: int| i <= j < 16 ==> b@[j] == b0[j],
        decreases 16 - i,
    {
        b[i] = rotate(b[i], 17);
        i += 1;
    }
    let mut k: usize = 0;
    while k < 48
        invariant
            k <= 48,
            (a@, b@) == perm_steps(a0, rotate_words(b0), c@, m@, k as nat),
        decreases 48 - k,
    {
        let i = k % 16;
        let x = perm_elt(
            a[k % 12],
            a[(k + 11) % 12],
            c[(24 - i) % 16],
            b[(i + 13) % 16],
            b[(i + 9) % 16],
            b[(i + 6) % 16],
            m[i],
        );
        a[k % 12] = x;
        b[i] = !(rotate(b[i], 1) ^ x);
        k += 1;
    }
    let ghost a1 = a@;
    let mut j: usize = 0;
    while j < 12
        invariant
            j <= 12,
            forall|t: int| 0 <= t < j ==> a@[t] == add_c(a1, c@)[t],
            forall|t: int| j <= t < 12 ==> a@[t] == a1[t],
        decreases 12 - j,
    {
        a[j] = a[j].wrapping_add(c[(j + 11) % 16]).wrapping_add(c[(j + 15) % 16]).wrapping_add(
            c[(j + 3) % 16],
        );
        j += 1;
    }
}

/// Reads the sixteen little-endian words of the block of `data` that starts
/// at byte `start`.
pub(crate) fn load_block(data: &[u8], start: usize) -> (m: [u32; 16])
    requires
        start + 64 <= data@.len(),
    ensures
        m@ == block_words(data@, start as int),
{
    let len = data.len();
    let mut m = [0u32; 16];
    let mut j: usize = 0;
    while j < 16
        invariant
            j <= 16,
            start + 64 <= len == data@.len(),
            forall|t: int| 0 <= t < j ==> m@[t] == word_at(data@, start + 4 * t),
        decreases 16 - j,
    {
        let p = start + 4 * j;
        m[j] = (data[p] as u32) | ((data[p + 1] as u32) << 8) | ((data[p + 2] as u32) << 16) | ((
        data[p + 3] as u32) << 24);
        j += 1;
    }
    m
}

/// Hashes `data` followed by the padded last block `term`.
///
/// The whole 64-byte blocks of `data` are absorbed in order; what is left of
/// `data` after them is not read. `term` is the last block of the message,
/// padding included, as sixteen little-endian words.
pub fn shabal256_hash_fast(data: &[u8], term: &[u32; 16]) -> (hash: [u8; 32])
    ensures
        hash@ == shabal256(data@, term@),
{
    reveal(shabal256);
    let mut a = A_INIT;
    let mut b = B_INIT;
    let mut c = C_INIT;
    let mut w: u64 = 1;
    let len = data.len();
    let num = len / 64;
    let mut n: usize = 0;
    while n < num
        invariant
            n <= num,
            len == data@.len(),
            num == len / 64,
            w == n + 1,
            (ShabalState { a: a@, b: b@, c: c@, w }) == absorb_blocks(data@, n as nat),
        decreases num - n,
    {
        let m = load_block(data, 64 * n);
        input_block_add(&mut b, &m);
        xor_w(&mut a, w);
        apply_p(&mut a, &mut b, &c, &m);
        input_block_sub(&mut c, &m);
        let t = b;
        b = c;
        c = t;
        w = w + 1;
        n += 1;
    }
    input_block_add(&mut b, term);
    xor_w(&mut a, w);
    apply_p(&mut a, &mut b, &c, term);
    let ghost s1 = ShabalState { a: a@, b: b@, c: c@, w };
    let mut i: usize = 0;
    while i < 3
        invariant
            i <= 3,
            (ShabalState { a: a@, b: b@, c: c@, w }) == (if i == 0 {
                s1
            } else if i == 1 {
                closing_round(s1, term@)
            } else if i == 2 {
                closing_round(closing_round(s1, term@), term@)
            } else {
                closing_round(closing_round(closing_round(s1, term@), term@), term@)
            }),
        decreases 3 - i,
    {
        let t = b;
        b = c;
        c = t;
        xor_w(&mut a, w);
        apply_p(&mut a, &mut b, &c, term);
        i += 1;
    }
    let mut hash = [0u8; 32];
    let mut j: usize = 0;
    while j < 32
        invariant
            j <= 32,
            forall|t: int| 0 <= t < j ==> hash@[t] == word_byte(b@[8 + t / 4], t % 4),
        decreases 32 - j,
    {
        hash[j] = #[verifier::truncate] ((b[8 + j / 4] >> (8 * (j % 4)) as u32) as u8);
        j += 1;
    }
    hash
}

/// Computes the deadline of the tuple `data || data1` under `gensig`.
///
/// `data` is the first half of the scored scoop and `data1` the second half
/// of its mirror scoop, 32 bytes each.
pub fn shabal256_deadline_fast(data: &[u8], data1: &[u8], gensig: &[u8; 32]) -> (d: u64)
    requires
        data@.len() == 32,
        data1@.len() == 32,
    ensures
        d == deadline(data@, data1@, gensig@),
{
    let mut head = [0u8; 64];
    let mut tail = [0u8; 64];
    tail[32] = 0x80;
    let mut i: usize = 0;
    while i < 32
        invariant
            i <= 32,
            data@.len() == 32,
            data1@.len() == 32,
            forall|j: int| 0 <= j < i ==> head@[j] == gensig@[j],
            forall|j: int| 0 <= j < i ==> head@[32 + j] == data@[j],
            forall|j: int| 0 <= j < i ==> tail@[j] == data1@[j],
            tail@[32] == 0x80,
            forall|j: int| 33 <= j < 64 ==> tail@[j] == 0,
        decreases 32 - i,
    {
        head[i] = gensig[i];
        head[32 + i] = data[i];
        tail[i] = data1[i];
        i += 1;
    }
    assert(head@ =~= gensig@ + data@);
    assert(block_words(tail@, 0) == padded(data1@));
    let term = load_block(tail.as_slice(), 0);
    let h = shabal256_hash_fast(head.as_slice(), &term);
    ((h[0] as u64) << 56) | ((h[1] as u64) << 48) | ((h[2] as u64) << 40) | ((h[3] as u64) << 32)
        | ((h[4] as u64) << 24) | ((h[5] as u64) << 16) | ((h[6] as u64) << 8) | (h[7] as u64)
}

} // verus!
