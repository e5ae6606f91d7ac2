//! Plotting and scoring: the scoop of a round, the 256 KiB plot of a nonce,
//! and the scan of a buffer of plots for the smallest deadline.

use crate::shabal256::{
    deadline, lemma_digest_has_32_bytes, lemma_hash_is_message_digest,
    lemma_hash_reads_whole_blocks, load_block, message_digest, padded, shabal256,
    shabal256_deadline_fast, shabal256_hash_fast, zeros,
};
use vstd::pervasive::unreached;
use vstd::prelude::*;
use vstd::slice::slice_subrange;
use vstd::utf8::encode_utf8;

verus! {

/// Length of a Shabal-256 digest in bytes.
pub const HASH_SIZE: usize = 32;

/// The most bytes of a plot that go into one hash of its chain.
pub const HASH_CAP: usize = 4096;

/// Number of scoops in a plot.
pub const NUM_SCOOPS: usize = 4096;

/// Length of a scoop in bytes.
pub const SCOOP_SIZE: usize = 64;

/// Length of a plot in bytes.
pub const NONCE_SIZE: usize = 262144;

/// Number of words in a message block.
pub const MESSAGE_SIZE: usize = 16;

/// The value of the hexadecimal digit `c`, in either case; `None` where `c`
/// is no such digit.
pub open spec fn hex_value(c: u8) -> Option<int> {
    if 0x30 <= c <= 0x39 {
        Some(c - 0x30)
    } else if 0x41 <= c <= 0x46 {
        Some(c - 0x41 + 10)
    } else if 0x61 <= c <= 0x66 {
        Some(c - 0x61 + 10)
    } else {
        None
    }
}

/// `text` is an even number of hexadecimal digits.
pub open spec fn is_hex(text: Seq<u8>) -> bool {
    text.len() % 2 == 0 && forall|i: int| 0 <= i < text.len() ==> hex_value(#[trigger] text[i]) is Some
}

/// The bytes that the hexadecimal digits `text` spell, two digits a byte,
/// the high one first.
pub open spec fn hex_decoded(text: Seq<u8>) -> Seq<u8> {
    Seq::new(
        text.len() / 2,
        |i: int| (16 * hex_value(text[2 * i]).unwrap() + hex_value(text[2 * i + 1]).unwrap()) as u8,
    )
}

/// `text` spells a generation signature: 64 hexadecimal digits.
pub open spec fn valid_gensig(text: Seq<char>) -> bool {
    encode_utf8(text).len() == 64 && is_hex(encode_utf8(text))
}

/// The error of `hex::decode`.
#[verifier::external_type_specification]
#[verifier::external_body]
pub struct ExFromHexError(hex::FromHexError);

/// `hex::decode`: succeeds on an even number of hexadecimal digits, of
/// either case, and on nothing else, and then returns the bytes that they
/// spell.
#[verifier::external_body]
fn hex_decode(text: &[u8]) -> (r: Result<Vec<u8>, hex::FromHexError>)
    ensures
        r is Ok <==> is_hex(text@),
        r matches Ok(bytes) ==> bytes@ == hex_decoded(text@),
{
    hex::decode(text)
}

/// Tells whether `gensig` spells a generation signature.
pub fn is_valid_gensig(gensig: &str) -> (ok: bool)
    ensures
        ok == valid_gensig(gensig@),
{
    let text = gensig.as_bytes();
    if text.len() != 64 {
        return false;
    }
    match hex_decode(text) {
        Ok(_) => true,
        Err(_) => false,
    }
}

/// Decodes a generation signature from its 64 hexadecimal digits.
pub fn decode_gensig(gensig: &str) -> (gensig_bytes: [u8; 32])
    requires
        valid_gensig(gensig@),
    ensures
        gensig_bytes@ == hex_decoded(encode_utf8(gensig@)),
{
    let mut gensig_bytes = [0u8; 32];
    match hex_decode(gensig.as_bytes()) {
        Ok(bytes) => {
            let mut i: usize = 0;
            while i < 32
                invariant
                    i <= 32,
                    bytes@.len() == 32,
                    forall|j: int| 0 <= j < i ==> gensig_bytes@[j] == bytes@[j],
                decreases 32 - i,
            {
                gensig_bytes[i] = bytes[i];
                i += 1;
            }
            gensig_bytes
        },
        Err(_) => unreached(),
    }
}

/// The eight bytes of `x` in big-endian order.
pub open spec fn be_bytes(x: u64) -> Seq<u8> {
    Seq::new(8, |i: int| (x >> ((8 * (7 - i)) as u64)) as u8)
}

/// The scoop of the round at `height` with generation signature `gensig`:
/// the low twelve bits of the digest of `gensig || be64(height)`, read from
/// its last two bytes. The message is one padded block.
pub open spec fn scoop_of(height: u64, gensig: Seq<u8>) -> u32 {
    let h = shabal256(Seq::<u8>::empty(), padded(gensig + be_bytes(height)));
    (((h[30] & 0x0F) as u32) << 8) | (h[31] as u32)
}

/// The scoop that mirrors `scoop`.
pub open spec fn mirror(scoop: int) -> int {
    4095 - scoop
}

/// The deadline of plot `i` of the buffer `data` at `scoop` under `gensig`:
/// scored are the first half of the scoop and the second half of its mirror
/// scoop.
pub open spec fn plot_deadline(data: Seq<u8>, i: int, scoop: int, gensig: Seq<u8>) -> u64 {
    let first = i * NONCE_SIZE + scoop * SCOOP_SIZE;
    let second = i * NONCE_SIZE + mirror(scoop) * SCOOP_SIZE + HASH_SIZE;
    deadline(
        data.subrange(first, first + HASH_SIZE),
        data.subrange(second, second + HASH_SIZE),
        gensig,
    )
}

/// `best` is the smallest deadline among the first `n` plots of `data`, and
/// `offset` the first plot that has it. Of no plots the best is `u64::MAX`
/// at offset 0.
pub open spec fn is_best_deadline(
    data: Seq<u8>,
    scoop: int,
    n: int,
    gensig: Seq<u8>,
    best: u64,
    offset: u64,
) -> bool {
    if n <= 0 {
        best == u64::MAX && offset == 0
    } else {
        &&& offset < n
        &&& best == plot_deadline(data, offset as int, scoop, gensig)
        &&& forall|j: int| 0 <= j < n ==> best <= #[trigger] plot_deadline(data, j, scoop, gensig)
        &&& forall|j: int|
            0 <= j < offset ==> best < #[trigger] plot_deadline(data, j, scoop, gensig)
    }
}

/// The seed of a plot: `be64(id) || be64(nonce)`.
pub open spec fn seed(id: u64, nonce: u64) -> Seq<u8> {
    be_bytes(id) + be_bytes(nonce)
}

/// The closing block of a message that ends, after a whole number of
/// 64-byte blocks, with `prefix` and the seed: these bytes, the padding
/// byte `0x80` and zeros, as sixteen words.
pub open spec fn termination(prefix: Seq<u8>, id: u64, nonce: u64) -> Seq<u32> {
    padded(prefix + seed(id, nonce))
}

/// The digest that ends a plot before the final XOR: that of the seed
/// `be64(id) || be64(nonce)` alone.
pub open spec fn first_hash(id: u64, nonce: u64) -> Seq<u8> {
    shabal256(Seq::<u8>::empty(), termination(Seq::<u8>::empty(), id, nonce))
}

/// The digest that is put in front of `tail`, the part of the plot that is
/// already there.
///
/// While `tail` is shorter than `HASH_CAP`, all of it is hashed with the
/// seed behind it; the 32 bytes that then stand after its last whole block
/// are the first hash, and go into the closing block. From `HASH_CAP` bytes
/// on, the first `HASH_CAP` bytes of `tail` are hashed, and nothing else.
pub open spec fn next_hash(id: u64, nonce: u64, tail: Seq<u8>) -> Seq<u8> {
    if tail.len() < HASH_CAP {
        if tail.len() % 64 == 0 {
            shabal256(tail, termination(Seq::<u8>::empty(), id, nonce))
        } else {
            shabal256(tail, termination(first_hash(id, nonce), id, nonce))
        }
    } else {
        shabal256(tail.subrange(0, HASH_CAP as int), termination_plain())
    }
}

/// The closing block of a message of whole blocks: padding alone.
pub open spec fn termination_plain() -> Seq<u32> {
    padded(Seq::<u8>::empty())
}

/// The last `32 * k` bytes of the plot of `(id, nonce)` before the final
/// XOR, for `1 <= k <= 8192`: each digest is computed from those behind it.
pub open spec fn chain(id: u64, nonce: u64, k: nat) -> Seq<u8>
    decreases k,
{
    if k <= 1 {
        first_hash(id, nonce)
    } else {
        let tail = chain(id, nonce, (k - 1) as nat);
        next_hash(id, nonce, tail) + tail
    }
}

/// The digest of the whole chain, with which every 32 bytes of it are XORed.
pub open spec fn final_hash(id: u64, nonce: u64) -> Seq<u8> {
    shabal256(chain(id, nonce, 8192), termination(Seq::<u8>::empty(), id, nonce))
}

/// The plot of nonce `nonce` of account `id`: `NONCE_SIZE` bytes.
pub open spec fn plot(id: u64, nonce: u64) -> Seq<u8> {
    Seq::new(
        NONCE_SIZE as nat,
        |j: int| chain(id, nonce, 8192)[j] ^ final_hash(id, nonce)[j % 32],
    )
}

/// The scoop of a round depends on its height and on the bytes of its
/// generation signature, and on nothing else: computed again, it is the
/// same.
pub proof fn lemma_scoop_is_a_function(height: u64, first: [u8; 32], second: [u8; 32])
    requires
        first@ == second@,
    ensures
        scoop_of(height, first@) == scoop_of(height, second@),
{
}

/// A buffer of plots has one best deadline and one offset of it.
pub proof fn lemma_best_deadline_is_unique(
    data: Seq<u8>,
    scoop: int,
    n: int,
    gensig: Seq<u8>,
    best: u64,
    offset: u64,
    other_best: u64,
    other_offset: u64,
)
    requires
        is_best_deadline(data, scoop, n, gensig, best, offset),
        is_best_deadline(data, scoop, n, gensig, other_best, other_offset),
    ensures
        best == other_best,
        offset == other_offset,
{
    if n > 0 {
        assert(best <= plot_deadline(data, other_offset as int, scoop, gensig));
        assert(other_best <= plot_deadline(data, offset as int, scoop, gensig));
    }
}

/// The scoop of a round is read from the digest of the message
/// `gensig || be64(height)`.
pub proof fn lemma_scoop_is_read_from_digest(height: u64, gensig: Seq<u8>)
    requires
        gensig.len() == 32,
    ensures
        scoop_of(height, gensig) == (((message_digest(gensig + be_bytes(height))[30] & 0x0F) as u32)
            << 8) | (message_digest(gensig + be_bytes(height))[31] as u32),
{
    lemma_hash_is_message_digest(Seq::<u8>::empty(), gensig + be_bytes(height));
}

/// Each digest of the chain of a plot is the digest of a message: of the
/// part of the plot behind it followed by the seed, while that part is
/// shorter than `HASH_CAP`, and of the next `HASH_CAP` bytes of the plot
/// from then on. The final digest is that of the whole chain followed by
/// the seed.
pub proof fn lemma_chain_is_made_of_message_digests(id: u64, nonce: u64, k: nat)
    requires
        1 <= k < 8192,
    ensures
        chain(id, nonce, 1) == message_digest(seed(id, nonce)),
        chain(id, nonce, k + 1) == (if 32 * k < HASH_CAP {
            message_digest(chain(id, nonce, k) + seed(id, nonce))
        } else {
            message_digest(chain(id, nonce, k).subrange(0, HASH_CAP as int))
        }) + chain(id, nonce, k),
        final_hash(id, nonce) == message_digest(chain(id, nonce, 8192) + seed(id, nonce)),
{
    let s = seed(id, nonce);
    let empty = Seq::<u8>::empty();
    lemma_hash_is_message_digest(empty, empty + s);
    let tail = chain(id, nonce, k);
    lemma_chain_ends_with_first_hash(id, nonce, k);
    if 32 * k < HASH_CAP {
        if tail.len() % 64 == 0 {
            lemma_hash_is_message_digest(tail, empty + s);
        } else {
            let whole = tail.subrange(0, tail.len() - 32);
            let first = first_hash(id, nonce);
            lemma_digest_has_32_bytes(empty, termination(empty, id, nonce));
            assert forall|i: int| 0 <= i < tail.len() implies tail[i] == (whole + first)[i] by {
                if i >= tail.len() - 32 {
                    let j = i - (32 * k - 32);
                    assert(chain(id, nonce, k)[32 * k - 32 + j] == first[j]);
                }
            }
            lemma_hash_reads_whole_blocks(tail, termination(first, id, nonce));
            lemma_hash_is_message_digest(whole, first + s);
            assert(whole + (first + s) =~= tail + s);
        }
    } else {
        let cap = tail.subrange(0, HASH_CAP as int);
        lemma_hash_is_message_digest(cap, empty);
    }
    let body = chain(id, nonce, 8192);
    lemma_chain_length(id, nonce, 8192);
    lemma_hash_is_message_digest(body, empty + s);
}

/// The chain of `k` digests has `32 * k` bytes.
pub proof fn lemma_chain_length(id: u64, nonce: u64, k: nat)
    requires
        k >= 1,
    ensures
        chain(id, nonce, k).len() == 32 * k,
    decreases k,
{
    if k <= 1 {
        lemma_digest_has_32_bytes(
            Seq::<u8>::empty(),
            termination(Seq::<u8>::empty(), id, nonce),
        );
    } else {
        lemma_chain_length(id, nonce, (k - 1) as nat);
        let tail = chain(id, nonce, (k - 1) as nat);
        lemma_digest_has_32_bytes(tail, termination(Seq::<u8>::empty(), id, nonce));
        lemma_digest_has_32_bytes(tail, termination(first_hash(id, nonce), id, nonce));
        lemma_digest_has_32_bytes(tail.subrange(0, HASH_CAP as int), termination_plain());
    }
}

/// A plot has `NONCE_SIZE` bytes, as many as the chain of its 8192
/// digests, and ends, before its bytes are XORed with the final digest,
/// with the digest of its seed alone.
pub proof fn lemma_plot_layout(id: u64, nonce: u64)
    ensures
        plot(id, nonce).len() == NONCE_SIZE,
        chain(id, nonce, 8192).len() == NONCE_SIZE,
        final_hash(id, nonce).len() == 32,
        forall|j: int|
            0 <= j < 32 ==> #[trigger] plot(id, nonce)[NONCE_SIZE - 32 + j] == first_hash(
                id,
                nonce,
            )[j] ^ final_hash(id, nonce)[j],
{
    lemma_chain_length(id, nonce, 8192);
    lemma_digest_has_32_bytes(
        chain(id, nonce, 8192),
        termination(Seq::<u8>::empty(), id, nonce),
    );
    lemma_chain_ends_with_first_hash(id, nonce, 8192);
}

/// Every chain ends with the digest of the seed alone.
proof fn lemma_chain_ends_with_first_hash(id: u64, nonce: u64, k: nat)
    requires
        k >= 1,
    ensures
        chain(id, nonce, k).len() == 32 * k,
        forall|j: int|
            0 <= j < 32 ==> #[trigger] chain(id, nonce, k)[32 * k - 32 + j] == first_hash(
                id,
                nonce,
            )[j],
    decreases k,
{
    lemma_chain_length(id, nonce, k);
    if k > 1 {
        lemma_chain_ends_with_first_hash(id, nonce, (k - 1) as nat);
        lemma_chain_length(id, nonce, (k - 1) as nat);
        let tail = chain(id, nonce, (k - 1) as nat);
        assert forall|j: int| 0 <= j < 32 implies #[trigger] chain(id, nonce, k)[32 * k - 32 + j]
            == first_hash(id, nonce)[j] by {
            assert(chain(id, nonce, k)[32 * k - 32 + j] == tail[32 * (k - 1) - 32 + j]);
        }
    }
}

fn be_bytes_of(x: u64) -> (b: [u8; 8])
    ensures
        b@ == be_bytes(x),
{
    let mut b = [0u8; 8];
    let mut i: usize = 0;
    while i < 8
        invariant
            i <= 8,
            forall|j: int| 0 <= j < i ==> b@[j] == (x >> ((8 * (7 - j)) as u64)) as u8,
        decreases 8 - i,
    {
        b[i] = #[verifier::truncate] ((x >> (8 * (7 - i)) as u64) as u8);
        i += 1;
    }
    b
}

/// Computes the scoop of the round at `height` with generation signature
/// `gensig`.
pub fn calculate_scoop(height: u64, gensig: &[u8; 32]) -> (scoop: u32)
    ensures
        scoop == scoop_of(height, gensig@),
        scoop <= 4095,
{
    let mut data = [0u8; 64];
    let height_bytes = be_bytes_of(height);
    let mut i: usize = 0;
    while i < 32
        invariant
            i <= 32,
            forall|j: int| 0 <= j < i ==> data@[j] == gensig@[j],
            forall|j: int| 32 <= j < 64 ==> data@[j] == 0,
        decreases 32 - i,
    {
        data[i] = gensig[i];
        i += 1;
    }
    let mut i: usize = 0;
    while i < 8
        invariant
            i <= 8,
            forall|j: int| 0 <= j < 32 ==> data@[j] == gensig@[j],
            forall|j: int| 0 <= j < i ==> data@[32 + j] == height_bytes@[j],
            forall|j: int| 40 <= j < 64 ==> data@[j] == 0,
        decreases 8 - i,
    {
        data[32 + i] = height_bytes[i];
        i += 1;
    }
    data[40] = 0x80;
    assert(data@ =~= gensig@ + be_bytes(height) + seq![0x80u8] + zeros(23));
    let term = load_block(data.as_slice(), 0);
    let empty: [u8; 0] = [];
    assert(empty@ =~= Seq::<u8>::empty());
    let new_gensig = shabal256_hash_fast(empty.as_slice(), &term);
    let high = new_gensig[30];
    let low = new_gensig[31];
    assert((((high & 0x0F) as u32) << 8) | (low as u32) <= 4095) by (bit_vector);
    (((high & 0x0F) as u32) << 8) | (low as u32)
}

/// Scans the first `number_of_nonces` plots of `data` for the smallest
/// deadline at `scoop` under `gensig`, and returns it with the index of the
/// plot that has it. Of equal deadlines the plot with the smaller index wins.
pub fn find_best_deadline_rust(
    data: &[u8],
    scoop: u64,
    number_of_nonces: u64,
    gensig: &[u8; 32],
) -> (best: (u64, u64))
    requires
        scoop <= 4095,
        number_of_nonces * NONCE_SIZE <= data@.len(),
    ensures
        is_best_deadline(data@, scoop as int, number_of_nonces as int, gensig@, best.0, best.1),
{
    let len = data.len();
    let mut best_deadline = u64::MAX;
    let mut best_offset: u64 = 0;
    let mirror_scoop = 4095 - scoop;
    let mut i: u64 = 0;
    while i < number_of_nonces
        invariant
            i <= number_of_nonces,
            scoop <= 4095,
            mirror_scoop == 4095 - scoop,
            len == data@.len(),
            number_of_nonces * NONCE_SIZE <= len,
            is_best_deadline(data@, scoop as int, i as int, gensig@, best_deadline, best_offset),
        decreases number_of_nonces - i,
    {
        assert((i + 1) * NONCE_SIZE <= number_of_nonces * NONCE_SIZE) by (nonlinear_arith)
            requires
                i < number_of_nonces,
        ;
        let base = i as usize * NONCE_SIZE;
        let first = base + scoop as usize * SCOOP_SIZE;
        let second = base + mirror_scoop as usize * SCOOP_SIZE + HASH_SIZE;
        let result = shabal256_deadline_fast(
            slice_subrange(data, first, first + HASH_SIZE),
            slice_subrange(data, second, second + HASH_SIZE),
            gensig,
        );
        if result < best_deadline {
            best_deadline = result;
            best_offset = i;
        }
        i += 1;
    }
    (best_deadline, best_offset)
}

/// Builds the closing block for `prefix || be64(id) || be64(nonce)`.
fn closing_block(prefix: &[u8], id: u64, nonce: u64) -> (t: [u32; 16])
    requires
        prefix@.len() <= 47,
    ensures
        t@ == termination(prefix@, id, nonce),
{
    let n = prefix.len();
    let id_bytes = be_bytes_of(id);
    let nonce_bytes = be_bytes_of(nonce);
    let mut data = [0u8; 64];
    let mut i: usize = 0;
    while i < n
        invariant
            i <= n == prefix@.len() <= 47,
            forall|j: int| 0 <= j < i ==> data@[j] == prefix@[j],
            forall|j: int| n <= j < 64 ==> data@[j] == 0,
        decreases n - i,
    {
        data[i] = prefix[i];
        i += 1;
    }
    let mut i: usize = 0;
    while i < 8
        invariant
            i <= 8,
            n == prefix@.len() <= 47,
            forall|j: int| 0 <= j < n ==> data@[j] == prefix@[j],
            forall|j: int| 0 <= j < i ==> data@[n + j] == id_bytes@[j],
            forall|j: int| 0 <= j < i ==> data@[n + 8 + j] == nonce_bytes@[j],
            forall|j: int| n + 16 <= j < 64 ==> data@[j] == 0,
        decreases 8 - i,
    {
        data[n + i] = id_bytes[i];
        data[n + 8 + i] = nonce_bytes[i];
        i += 1;
    }
    data[n + 16] = 0x80;
    load_block(data.as_slice(), 0)
}

/// Writes the 32 bytes of `hash` into `cache` from index `at` on.
fn store_hash(cache: &mut [u8], at: usize, hash: &[u8; 32])
    requires
        at + 32 <= old(cache)@.len(),
    ensures
        final(cache)@.len() == old(cache)@.len(),
        forall|j: int| 0 <= j < 32 ==> final(cache)@[at + j] == hash@[j],
        forall|j: int|
            0 <= j < old(cache)@.len() && !(at <= j < at + 32) ==> final(cache)@[j] == old(
                cache,
            )@[j],
{
    let len = cache.len();
    let mut i: usize = 0;
    while i < 32
        invariant
            i <= 32,
            len == cache@.len() == old(cache)@.len(),
            at + 32 <= len,
            forall|j: int| 0 <= j < i ==> cache@[at + j] == hash@[j],
            forall|j: int|
                0 <= j < cache@.len() && !(at <= j < at + 32) ==> cache@[j] == old(cache)@[j],
        decreases 32 - i,
    {
        cache[at + i] = hash[i];
        i += 1;
    }
}

/// Writes the plot of `(numeric_id, nonce)` into the `NONCE_SIZE` bytes of
/// `cache` that start at `base`, and leaves the rest of `cache` as it is.
fn generate_nonce(cache: &mut [u8], base: usize, numeric_id: u64, nonce: u64)
    requires
        base + NONCE_SIZE <= old(cache)@.len(),
    ensures
        final(cache)@.len() == old(cache)@.len(),
        final(cache)@.subrange(base as int, base + NONCE_SIZE) == plot(numeric_id, nonce),
        forall|j: int|
            0 <= j < old(cache)@.len() && !(base <= j < base + NONCE_SIZE) ==> final(cache)@[j]
                == old(cache)@[j],
{
    let len = cache.len();
    let empty: [u8; 0] = [];
    assert(empty@ =~= Seq::<u8>::empty());
    let t1 = closing_block(empty.as_slice(), numeric_id, nonce);
    let t3 = plain_closing_block();
    let hash = shabal256_hash_fast(empty.as_slice(), &t1);
    store_hash(cache, base + NONCE_SIZE - HASH_SIZE, &hash);
    let t2 = closing_block(hash.as_slice(), numeric_id, nonce);
    let mut i: usize = NONCE_SIZE - HASH_SIZE;
    let ghost mut k: nat = 1;
    while i >= HASH_SIZE
        invariant
            1 <= k <= 8192,
            i == NONCE_SIZE - 32 * k,
            len == cache@.len() == old(cache)@.len(),
            base + NONCE_SIZE <= len,
            t1@ == termination(Seq::<u8>::empty(), numeric_id, nonce),
            t2@ == termination(first_hash(numeric_id, nonce), numeric_id, nonce),
            t3@ == termination_plain(),
            cache@.subrange(base + i, base + NONCE_SIZE) == chain(numeric_id, nonce, k),
            forall|j: int|
                0 <= j < cache@.len() && !(base <= j < base + NONCE_SIZE) ==> cache@[j] == old(
                    cache,
                )@[j],
        decreases i,
    {
        let ghost tail = cache@.subrange(base + i, base + NONCE_SIZE);
        let hash = if i >= NONCE_SIZE - HASH_CAP + HASH_SIZE {
            if i % 64 == 0 {
                shabal256_hash_fast(slice_subrange(cache, base + i, base + NONCE_SIZE), &t1)
            } else {
                shabal256_hash_fast(slice_subrange(cache, base + i, base + NONCE_SIZE), &t2)
            }
        } else {
            assert(cache@.subrange(base + i, base + i + HASH_CAP) =~= tail.subrange(
                0,
                HASH_CAP as int,
            ));
            shabal256_hash_fast(slice_subrange(cache, base + i, base + i + HASH_CAP), &t3)
        };
        store_hash(cache, base + i - HASH_SIZE, &hash);
        i -= HASH_SIZE;
        proof {
            k = k + 1;
        }
    }
    let ghost body = cache@.subrange(base as int, base + NONCE_SIZE);
    let last = shabal256_hash_fast(slice_subrange(cache, base, base + NONCE_SIZE), &t1);
    let mut j: usize = 0;
    while j < NONCE_SIZE
        invariant
            j <= NONCE_SIZE,
            len == cache@.len() == old(cache)@.len(),
            base + NONCE_SIZE <= len,
            forall|t: int| 0 <= t < j ==> cache@[base + t] == body[t] ^ last@[t % 32],
            forall|t: int| j <= t < NONCE_SIZE ==> cache@[base + t] == body[t],
            forall|t: int|
                0 <= t < cache@.len() && !(base <= t < base + NONCE_SIZE) ==> cache@[t] == old(
                    cache,
                )@[t],
        decreases NONCE_SIZE - j,
    {
        cache[base + j] = cache[base + j] ^ last[j % HASH_SIZE];
        j += 1;
    }
}

fn plain_closing_block() -> (t: [u32; 16])
    ensures
        t@ == termination_plain(),
{
    let mut data = [0u8; 64];
    data[0] = 0x80;
    load_block(data.as_slice(), 0)
}

/// Plots `local_nonces` nonces of account `numeric_id`, from nonce
/// `local_startnonce` on, one after the other into `cache`.
///
/// Plot `n` of the run fills the bytes from `n * NONCE_SIZE` on. What
/// `cache` holds behind the last plot stays.
pub fn noncegen_rust(cache: &mut [u8], numeric_id: u64, local_startnonce: u64, local_nonces: u64)
    requires
        local_nonces * NONCE_SIZE <= old(cache)@.len(),
        local_startnonce + local_nonces <= u64::MAX + 1,
    ensures
        final(cache)@.len() == old(cache)@.len(),
        forall|n: int|
            0 <= n < local_nonces ==> #[trigger] final(cache)@.subrange(
                n * NONCE_SIZE,
                (n + 1) * NONCE_SIZE,
            ) == plot(numeric_id, (local_startnonce + n) as u64),
        forall|j: int|
            local_nonces * NONCE_SIZE <= j < old(cache)@.len() ==> final(cache)@[j] == old(
                cache,
            )@[j],
{
    let len = cache.len();
    let mut n: u64 = 0;
    while n < local_nonces
        invariant
            n <= local_nonces,
            len == cache@.len() == old(cache)@.len(),
            local_nonces * NONCE_SIZE <= len,
            local_startnonce + local_nonces <= u64::MAX + 1,
            forall|m: int|
                0 <= m < n ==> #[trigger] cache@.subrange(m * NONCE_SIZE, (m + 1) * NONCE_SIZE)
                    == plot(numeric_id, (local_startnonce + m) as u64),
            forall|j: int| n * NONCE_SIZE <= j < len ==> cache@[j] == old(cache)@[j],
        decreases local_nonces - n,
    {
        assert((n + 1) * NONCE_SIZE <= local_nonces * NONCE_SIZE) by (nonlinear_arith)
            requires
                n < local_nonces,
        ;
        let base = n as usize * NONCE_SIZE;
        let ghost before = cache@;
        generate_nonce(cache, base, numeric_id, local_startnonce + n);
        assert forall|m: int| 0 <= m < n + 1 implies #[trigger] cache@.subrange(
            m * NONCE_SIZE,
            (m + 1) * NONCE_SIZE,
        ) == plot(numeric_id, (local_startnonce + m) as u64) by {
            if m < n {
                assert((m + 1) * NONCE_SIZE <= n * NONCE_SIZE) by (nonlinear_arith)
                    requires
                        m < n,
                ;
                assert(cache@.subrange(m * NONCE_SIZE, (m + 1) * NONCE_SIZE) =~= before.subrange(
                    m * NONCE_SIZE,
                    (m + 1) * NONCE_SIZE,
                ));
            }
        }
        n += 1;
    }
}

} // verus!
