use vstd::prelude::*;

verus! {

/// The identity S-box: entry `i` holds `i`.
pub open spec fn identity_sbox() -> Seq<u8> {
    Seq::new(256, |i: int| i as u8)
}

/// One round of the key scheduling: swap entry `i` with entry
/// `j' = s[i] + j + key[i mod key.len()]` (mod 256); the new `j` is `j'`.
pub open spec fn ksa_round(s: Seq<u8>, j: u8, key: Seq<u8>, i: int) -> (Seq<u8>, u8)
    recommends
        key.len() > 0,
        s.len() == 256,
        0 <= i < 256,
{
    let c = ((s[i] + j + key[i % (key.len() as int)]) % 256) as u8;
    (s.update(i, s[c as int]).update(c as int, s[i]), c)
}

/// The S-box and the running index `j` after the first `n` rounds of the
/// RC4 key scheduling algorithm with `key`.
pub open spec fn ksa_state(key: Seq<u8>, n: nat) -> (Seq<u8>, u8)
    decreases n,
{
    if n == 0 {
        (identity_sbox(), 0u8)
    } else {
        let prev = ksa_state(key, (n - 1) as nat);
        ksa_round(prev.0, prev.1, key, n - 1)
    }
}

/// The S-box produced by the full RC4 key scheduling algorithm with `key`.
pub open spec fn ksa(key: Seq<u8>) -> Seq<u8> {
    ksa_state(key, 256).0
}

/// Some entry of `s` holds `v`.
pub open spec fn holds_value(s: Seq<u8>, v: u8) -> bool {
    exists|i: int| 0 <= i < s.len() && s[i] == v
}

/// `s` holds every byte value exactly once.
pub open spec fn is_permutation(s: Seq<u8>) -> bool {
    &&& s.len() == 256
    &&& forall|a: int, b: int| 0 <= a < b < 256 ==> s[a] != s[b]
    &&& forall|v: u8| #[trigger] holds_value(s, v)
}

/// The keystream byte that masks the byte at position `offset` of the audio
/// stream.
pub open spec fn keystream_byte(key_box: Seq<u8>, offset: int) -> u8 {
    let j = (offset + 1) % 256;
    let jv = key_box[j];
    key_box[(jv + key_box[(jv + j) % 256]) % 256]
}

/// `data`, taken to start at stream position `offset`, masked with the
/// keystream.
pub open spec fn xor_keystream(key_box: Seq<u8>, offset: int, data: Seq<u8>) -> Seq<u8> {
    Seq::new(data.len(), |i: int| data[i] ^ keystream_byte(key_box, offset + i))
}

proof fn lemma_mod_step(x: int, m: int)
    requires
        x >= 0,
        m > 0,
    ensures
        (x % m) + 1 < m ==> (x + 1) % m == (x % m) + 1,
        (x % m) + 1 == m ==> (x + 1) % m == 0,
{
    assert((x % m) + 1 < m ==> (x + 1) % m == (x % m) + 1) by (nonlinear_arith)
        requires
            x >= 0,
            m > 0,
    {
        vstd::arithmetic::div_mod::lemma_fundamental_div_mod(x, m);
        vstd::arithmetic::div_mod::lemma_fundamental_div_mod(x + 1, m);
        if (x % m) + 1 < m {
            vstd::arithmetic::div_mod::lemma_fundamental_div_mod_converse(
                x + 1,
                m,
                x / m,
                (x % m) + 1,
            );
        }
    }
    assert((x % m) + 1 == m ==> (x + 1) % m == 0) by (nonlinear_arith)
        requires
            x >= 0,
            m > 0,
    {
        vstd::arithmetic::div_mod::lemma_fundamental_div_mod(x, m);
        if (x % m) + 1 == m {
            vstd::arithmetic::div_mod::lemma_fundamental_div_mod_converse(x + 1, m, x / m + 1, 0);
        }
    }
}

proof fn lemma_swap_keeps_permutation(s: Seq<u8>, a: int, b: int)
    requires
        is_permutation(s),
        0 <= a < 256,
        0 <= b < 256,
    ensures
        is_permutation(s.update(a, s[b]).update(b, s[a])),
{
    let t = s.update(a, s[b]).update(b, s[a]);
    assert forall|x: int, y: int| 0 <= x < y < 256 implies t[x] != t[y] by {
        assert(s[x] != s[y] || x == y);
    }
    assert forall|v: u8| #[trigger] holds_value(t, v) by {
        assert(holds_value(s, v));
        let i = choose|i: int| 0 <= i < s.len() && s[i] == v;
        if i == a {
            assert(t[b] == v);
        } else if i == b {
            assert(t[a] == v);
        } else {
            assert(t[i] == v);
        }
    }
}

proof fn lemma_ksa_state_permutation(key: Seq<u8>, n: nat)
    requires
        key.len() > 0,
        n <= 256,
    ensures
        is_permutation(ksa_state(key, n).0),
    decreases n,
{
    if n == 0 {
        let s = identity_sbox();
        assert forall|x: int, y: int| 0 <= x < y < 256 implies s[x] != s[y] by {}
        assert forall|v: u8| #[trigger] holds_value(s, v) by {
            assert(s[v as int] == v);
        }
    } else {
        lemma_ksa_state_permutation(key, (n - 1) as nat);
        let prev = ksa_state(key, (n - 1) as nat);
        let i = n - 1;
        let c = ((prev.0[i] + prev.1 + key[i % (key.len() as int)]) % 256) as u8;
        lemma_swap_keeps_permutation(prev.0, i, c as int);
    }
}

/// The key scheduling algorithm only swaps entries of the identity S-box, so
/// for every non-empty key the S-box it produces holds each byte value
/// exactly once.
pub proof fn lemma_ksa_is_permutation(key: Seq<u8>)
    requires
        key.len() > 0,
    ensures
        is_permutation(ksa(key)),
{
    lemma_ksa_state_permutation(key, 256);
}

/// Masking with the keystream is its own inverse: masking the masked bytes
/// again at the same stream position gives back the original bytes.
pub proof fn lemma_xor_keystream_involution(key_box: Seq<u8>, offset: int, data: Seq<u8>)
    ensures
        xor_keystream(key_box, offset, xor_keystream(key_box, offset, data)) == data,
{
    let once = xor_keystream(key_box, offset, data);
    let twice = xor_keystream(key_box, offset, once);
    assert forall|i: int| 0 <= i < data.len() implies twice[i] == data[i] by {
        let d = data[i];
        let k = keystream_byte(key_box, offset + i);
        assert((d ^ k) ^ k == d) by (bit_vector);
    }
    assert(twice =~= data);
}

/// Masking a stream piece by piece, each piece at its own stream position,
/// gives the same bytes as masking the whole stream at once.
pub proof fn lemma_xor_keystream_split(key_box: Seq<u8>, offset: int, a: Seq<u8>, b: Seq<u8>)
    ensures
        xor_keystream(key_box, offset, a + b) == xor_keystream(key_box, offset, a)
            + xor_keystream(key_box, offset + a.len(), b),
{
    let lhs = xor_keystream(key_box, offset, a + b);
    let rhs = xor_keystream(key_box, offset, a) + xor_keystream(key_box, offset + a.len(), b);
    assert forall|i: int| 0 <= i < lhs.len() implies lhs[i] == rhs[i] by {
        if i >= a.len() {
            assert(offset + a.len() + (i - a.len()) == offset + i);
        }
    }
    assert(lhs =~= rhs);
}

/// The keystream byte at stream position `offset` is the RC4-style double
/// lookup of the S-box: with the counter `i = offset + 1` (mod 256), the
/// entry `a = S[i]` and the entry `b = S[a + i]`, the byte is `S[a + b]`
/// (indices mod 256). On an S-box that is not the identity, using the
/// counter `i` in place of `a` in the last lookup gives other bytes.
pub proof fn lemma_keystream_byte_is_double_lookup(sbox: Seq<u8>, offset: int)
    requires
        sbox.len() == 256,
        offset >= 0,
    ensures
        ({
            let i = (offset + 1) % 256;
            let a = sbox[i] as int;
            let b = sbox[(a + i) % 256] as int;
            keystream_byte(sbox, offset) == sbox[(a + b) % 256]
        }),
{
}

/// The RC4 key scheduling starts from the identity S-box with `j = 0`, and
/// round `n` sets `j` to `j + S[n] + key[n mod len]` (mod 256) and swaps
/// entries `n` and `j`, leaving every other entry in place.
pub proof fn lemma_ksa_round_swaps(key: Seq<u8>, n: nat)
    requires
        key.len() > 0,
        n < 256,
    ensures
        ksa_state(key, 0).1 == 0,
        forall|k: int| 0 <= k < 256 ==> #[trigger] ksa_state(key, 0).0[k] == k,
        ksa_state(key, 0).0.len() == 256,
        ({
            let s0 = ksa_state(key, n).0;
            let j0 = ksa_state(key, n).1;
            let s1 = ksa_state(key, n + 1).0;
            let j1 = ksa_state(key, n + 1).1;
            &&& j1 as int == (j0 as int + s0[n as int] as int + key[(n % key.len()) as int] as int) % 256
            &&& s1[n as int] == s0[j1 as int]
            &&& s1[j1 as int] == s0[n as int]
            &&& s1.len() == s0.len()
            &&& forall|k: int| 0 <= k < s0.len() && k != n && k != j1 ==> #[trigger] s1[k] == s0[k]
        }),
{
    lemma_ksa_state_len(key, n);
}

proof fn lemma_ksa_state_len(key: Seq<u8>, n: nat)
    requires
        n <= 256,
    ensures
        ksa_state(key, n).0.len() == 256,
    decreases n,
{
    if n > 0 {
        lemma_ksa_state_len(key, (n - 1) as nat);
    }
}

/// Masking keeps the length, and byte `i` of the masked data is byte `i`
/// of the data xored with the keystream byte of stream position
/// `offset + i`.
pub proof fn lemma_xor_keystream_bytes(key_box: Seq<u8>, offset: int, data: Seq<u8>)
    ensures
        xor_keystream(key_box, offset, data).len() == data.len(),
        forall|i: int|
            0 <= i < data.len() ==> #[trigger] xor_keystream(key_box, offset, data)[i] == data[i]
                ^ keystream_byte(key_box, offset + i),
{
}

/// The pieces of a stream, each masked at its own stream position (the
/// first at `offset`, each next one where the previous ended), joined.
pub open spec fn mask_chunks(key_box: Seq<u8>, offset: int, chunks: Seq<Seq<u8>>) -> Seq<u8>
    decreases chunks.len(),
{
    if chunks.len() == 0 {
        Seq::empty()
    } else {
        xor_keystream(key_box, offset, chunks[0]) + mask_chunks(
            key_box,
            offset + chunks[0].len(),
            chunks.drop_first(),
        )
    }
}

/// Masking a stream read in pieces of any sizes, the stream position
/// counted across the pieces, gives the whole stream masked at once.
pub proof fn lemma_mask_chunks_is_whole(key_box: Seq<u8>, offset: int, chunks: Seq<Seq<u8>>)
    ensures
        mask_chunks(key_box, offset, chunks) == xor_keystream(key_box, offset, chunks.flatten()),
    decreases chunks.len(),
{
    if chunks.len() == 0 {
        assert(xor_keystream(key_box, offset, chunks.flatten()) =~= Seq::<u8>::empty());
    } else {
        lemma_mask_chunks_is_whole(key_box, offset + chunks[0].len(), chunks.drop_first());
        lemma_xor_keystream_split(key_box, offset, chunks[0], chunks.drop_first().flatten());
        assert(chunks.flatten() == chunks[0] + chunks.drop_first().flatten());
    }
}

/// How a stream is cut into pieces does not change what masking it gives.
pub proof fn lemma_mask_chunks_any_cut(key_box: Seq<u8>, a: Seq<Seq<u8>>, b: Seq<Seq<u8>>)
    requires
        a.flatten() == b.flatten(),
    ensures
        mask_chunks(key_box, 0, a) == mask_chunks(key_box, 0, b),
{
    lemma_mask_chunks_is_whole(key_box, 0, a);
    lemma_mask_chunks_is_whole(key_box, 0, b);
}

/// Masking, piece by piece, a stream that was masked piece by piece gives
/// back the stream, however each pass cuts it.
pub proof fn lemma_mask_chunks_undoes_itself(key_box: Seq<u8>, a: Seq<Seq<u8>>, b: Seq<Seq<u8>>)
    requires
        b.flatten() == mask_chunks(key_box, 0, a),
    ensures
        mask_chunks(key_box, 0, b) == a.flatten(),
{
    lemma_mask_chunks_is_whole(key_box, 0, a);
    lemma_mask_chunks_is_whole(key_box, 0, b);
    lemma_xor_keystream_involution(key_box, 0, a.flatten());
}

/// The key byte that round `i` of the key scheduling reads.
pub open spec fn round_key_byte(key: Seq<u8>, i: int) -> u8 {
    key[i % (key.len() as int)]
}

/// Two keys that give the same byte at every position `i % len` read by the
/// 256 rounds give the same key-scheduling state after each round.
proof fn lemma_ksa_state_same_cycled_key(k1: Seq<u8>, k2: Seq<u8>, n: nat)
    requires
        k1.len() > 0,
        k2.len() > 0,
        n <= 256,
        forall|i: int| 0 <= i < 256 ==> #[trigger] round_key_byte(k1, i) == round_key_byte(k2, i),
    ensures
        ksa_state(k1, n) == ksa_state(k2, n),
    decreases n,
{
    if n > 0 {
        lemma_ksa_state_same_cycled_key(k1, k2, (n - 1) as nat);
        let i = n - 1;
        assert(round_key_byte(k1, i) == round_key_byte(k2, i));
    }
}

/// The key scheduling reads the key only through `key[i % key.len()]` for
/// the 256 rounds `i` (`round_key_byte`): two keys that agree there give the
/// same S-box.
pub proof fn lemma_ksa_same_cycled_key(k1: Seq<u8>, k2: Seq<u8>)
    requires
        k1.len() > 0,
        k2.len() > 0,
        forall|i: int| 0 <= i < 256 ==> #[trigger] round_key_byte(k1, i) == round_key_byte(k2, i),
    ensures
        ksa(k1) == ksa(k2),
{
    lemma_ksa_state_same_cycled_key(k1, k2, 256);
}

/// A key repeated twice gives the same S-box as the key itself.
pub proof fn lemma_ksa_doubled_key(key: Seq<u8>)
    requires
        key.len() > 0,
    ensures
        ksa(key + key) == ksa(key),
{
    let n = key.len() as int;
    let kk = key + key;
    assert forall|i: int| 0 <= i < 256 implies round_key_byte(kk, i) == round_key_byte(key, i) by {
        vstd::arithmetic::div_mod::lemma_mod_mod(i, n, 2);
        assert(kk.len() as int == n * 2);
        let r = i % (n * 2);
        vstd::arithmetic::div_mod::lemma_mod_bound(i, n * 2);
        if r < n {
            vstd::arithmetic::div_mod::lemma_small_mod(r as nat, n as nat);
        } else {
            vstd::arithmetic::div_mod::lemma_fundamental_div_mod_converse(r, n, 1, r - n);
        }
    }
    lemma_ksa_same_cycled_key(key + key, key);
}

/// Only the first 256 bytes of a key take part in the key scheduling: a
/// longer key gives the same S-box as its first 256 bytes.
pub proof fn lemma_ksa_key_prefix(key: Seq<u8>)
    requires
        key.len() > 256,
    ensures
        ksa(key) == ksa(key.subrange(0, 256)),
{
    let p = key.subrange(0, 256);
    assert forall|i: int| 0 <= i < 256 implies round_key_byte(key, i) == round_key_byte(p, i) by {
        vstd::arithmetic::div_mod::lemma_small_mod(i as nat, key.len());
        vstd::arithmetic::div_mod::lemma_small_mod(i as nat, 256);
    }
    lemma_ksa_same_cycled_key(key, p);
}

/// Runs the RC4 key scheduling algorithm with `key`, writing the resulting
/// S-box into `sbox`.
pub fn rc4_ksa_mut(sbox: &mut [u8; 256], key: &[u8])
    requires
        key@.len() > 0,
    ensures
        final(sbox)@ == ksa(key@),
{
    let mut n: usize = 0;
    while n < 256
        invariant
            0 <= n <= 256,
            forall|k: int| 0 <= k < n ==> sbox@[k] == k as u8,
            sbox@.len() == 256,
        decreases 256 - n,
    {
        sbox[n] = n as u8;
        n = n + 1;
    }
    assert(sbox@ =~= identity_sbox());

    let key_len = key.len();
    let mut last_byte: u8 = 0;
    let mut key_offset: usize = 0;

    let mut i: usize = 0;
    while i < 256
        invariant
            0 <= i <= 256,
            key_len == key@.len(),
            key_len > 0,
            key_offset < key_len,
            key_offset == (i as int) % (key_len as int),
            (sbox@, last_byte) == ksa_state(key@, i as nat),
            sbox@.len() == 256,
        decreases 256 - i,
    {
        let swap = sbox[i];
        let kb = key[key_offset];
        let c = swap.wrapping_add(last_byte).wrapping_add(kb);
        assert(c == ((swap + last_byte + kb) % 256) as u8) by (bit_vector)
            requires
                c == swap.wrapping_add(last_byte).wrapping_add(kb),
        ;
        proof {
            lemma_mod_step(i as int, key_len as int);
        }
        key_offset += 1;
        if key_offset >= key_len {
            key_offset = 0;
        }
        let other = sbox[c as usize];
        sbox[i] = other;
        sbox[c as usize] = swap;
        last_byte = c;
        i = i + 1;
    }
}

/// Runs the RC4 key scheduling algorithm with `key` and returns the S-box.
pub fn rc4_ksa(key: &[u8]) -> (sbox: [u8; 256])
    requires
        key@.len() > 0,
    ensures
        sbox@ == ksa(key@),
{
    let mut sbox = [0u8; 256];
    rc4_ksa_mut(&mut sbox, key);
    sbox
}

/// The keystream byte for stream position `offset`.
pub fn rc4_stream_byte(key_box: &[u8; 256], offset: usize) -> (b: u8)
    requires
        offset < usize::MAX,
    ensures
        b == keystream_byte(key_box@, offset as int),
{
    let next = offset + 1;
    let j = next & 0xff;
    assert(j == next % 256) by (bit_vector)
        requires
            j == next & 0xff,
    ;
    let jv = key_box[j] as usize;
    let t = jv + j;
    let ti = t & 0xff;
    assert(ti == t % 256) by (bit_vector)
        requires
            ti == t & 0xff,
    ;
    let inner = key_box[ti] as usize;
    let u = jv + inner;
    let k = u & 0xff;
    assert(k == u % 256) by (bit_vector)
        requires
            k == u & 0xff,
    ;
    key_box[k]
}

/// Masks `buf` in place with the keystream, `buf[0]` being the byte at
/// stream position `offset`.
pub fn xor_with_keystream(key_box: &[u8; 256], offset: usize, buf: &mut Vec<u8>)
    requires
        offset + old(buf)@.len() < usize::MAX,
    ensures
        final(buf)@ == xor_keystream(key_box@, offset as int, old(buf)@),
{
    let n = buf.len();
    let mut i: usize = 0;
    while i < n
        invariant
            0 <= i <= n,
            n == old(buf)@.len(),
            buf@.len() == n,
            offset + n < usize::MAX,
            forall|k: int|
                0 <= k < i ==> buf@[k] == old(buf)@[k] ^ keystream_byte(key_box@, offset + k),
            forall|k: int| i <= k < n ==> buf@[k] == old(buf)@[k],
        decreases n - i,
    {
        let mask = rc4_stream_byte(key_box, offset + i);
        let b = buf[i] ^ mask;
        buf.set(i, b);
        i = i + 1;
    }
    assert(buf@ =~= xor_keystream(key_box@, offset as int, old(buf)@));
}

} // verus!
