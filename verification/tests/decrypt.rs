use ncmdump::dump::decrypt::{rc4_ksa, rc4_ksa_mut, rc4_stream_byte, xor_with_keystream};

#[test]
fn ksa_output_is_a_permutation() {
    let mut sbox = [0u8; 256];
    rc4_ksa_mut(&mut sbox, b"0123456789abcdef");
    let mut seen = [false; 256];
    for b in sbox.iter() {
        assert!(!seen[*b as usize]);
        seen[*b as usize] = true;
    }
    assert!(seen.iter().all(|s| *s));
}

#[test]
fn ksa_matches_reference_rc4() {
    // Reference RC4 key scheduling written out directly.
    let key = b"Key";
    let mut s: Vec<u8> = (0..=255u8).collect();
    let mut j: u8 = 0;
    for i in 0..256usize {
        j = j.wrapping_add(s[i]).wrapping_add(key[i % key.len()]);
        s.swap(i, j as usize);
    }
    assert_eq!(rc4_ksa(key).to_vec(), s);
}

#[test]
fn ksa_single_byte_key() {
    let a = rc4_ksa(&[7u8]);
    let b = rc4_ksa(&[7u8, 7u8, 7u8]);
    // A key repeated to any length schedules the same way.
    assert_eq!(a, b);
}

#[test]
fn stream_byte_on_identity_box() {
    let mut ident = [0u8; 256];
    for (i, b) in ident.iter_mut().enumerate() {
        *b = i as u8;
    }
    // j = 1, jv = 1, inner = box[2] = 2, box[(1 + 2) & 0xff] = 3.
    assert_eq!(rc4_stream_byte(&ident, 0), 3);
    // offset 255: j = 0, jv = 0, inner = box[0] = 0, box[0] = 0.
    assert_eq!(rc4_stream_byte(&ident, 255), 0);
    // offset 200: j = 201, jv = 201, inner = box[(402) & 0xff = 146] = 146, box[(347) & 0xff = 91].
    assert_eq!(rc4_stream_byte(&ident, 200), 91);
}

#[test]
fn keystream_masking_is_an_involution() {
    let key_box = rc4_ksa(b"some key bytes");
    let original: Vec<u8> = (0..1000u32).map(|i| (i * 7 % 251) as u8).collect();
    let mut data = original.clone();
    xor_with_keystream(&key_box, 5, &mut data);
    assert_ne!(data, original);
    xor_with_keystream(&key_box, 5, &mut data);
    assert_eq!(data, original);
}

#[test]
fn keystream_masking_in_chunks_matches_whole() {
    let key_box = rc4_ksa(b"chunked");
    let original: Vec<u8> = (0..777u32).map(|i| (i % 256) as u8).collect();
    let mut whole = original.clone();
    xor_with_keystream(&key_box, 0, &mut whole);
    let mut pieces = Vec::new();
    let mut offset = 0usize;
    for chunk in original.chunks(100) {
        let mut c = chunk.to_vec();
        xor_with_keystream(&key_box, offset, &mut c);
        offset += c.len();
        pieces.extend(c);
    }
    assert_eq!(pieces, whole);
}

#[test]
fn ksa_doubled_key_matches_key() {
    let key = b"some key bytes";
    let doubled = [&key[..], &key[..]].concat();
    let mut s1 = [0xAAu8; 256];
    let mut s2 = [0x55u8; 256];
    rc4_ksa_mut(&mut s1, key);
    rc4_ksa_mut(&mut s2, &doubled);
    assert_eq!(s1, s2);
}

#[test]
fn ksa_reads_only_first_256_key_bytes() {
    let key: Vec<u8> = (0..300u32).map(|i| (i * 7 + 3) as u8).collect();
    let mut s1 = [0u8; 256];
    let mut s2 = [0u8; 256];
    rc4_ksa_mut(&mut s1, &key);
    rc4_ksa_mut(&mut s2, &key[..256]);
    assert_eq!(s1, s2);
}
