use obsidian_ai_agent::fingerprint::{fingerprint_bytes, Fingerprinter};

#[test]
fn fingerprint_of_known_inputs() {
    assert_eq!(
        fingerprint_bytes(b""),
        "e3b0c44298fc1c149afbf4c8996fb92427ae41e4649b934ca495991b7852b855"
    );
    assert_eq!(
        fingerprint_bytes(b"abc"),
        "ba7816bf8f01cfea414140de5dae2223b00361a396177a9cb410ff61f20015ad"
    );
}

#[test]
fn fingerprint_is_deterministic() {
    let data: Vec<u8> = (0..20000u32).map(|i| (i % 251) as u8).collect();
    let a = fingerprint_bytes(&data);
    let b = fingerprint_bytes(&data.clone());
    assert_eq!(a, b);
    assert_eq!(a.len(), 64);
}

#[test]
fn fingerprint_changes_with_one_byte() {
    let data: Vec<u8> = (0..20000u32).map(|i| (i % 251) as u8).collect();
    let mut changed = data.clone();
    changed[12345] ^= 1;
    assert_ne!(fingerprint_bytes(&data), fingerprint_bytes(&changed));
}

#[test]
fn fingerprint_does_not_depend_on_chunking() {
    let data: Vec<u8> = (0..30000u32).map(|i| (i * 7 % 256) as u8).collect();
    let mut fp = Fingerprinter::new();
    fp.update(&data[..1]);
    fp.update(&data[1..9000]);
    fp.update(&data[9000..]);
    assert_eq!(fp.finish(), fingerprint_bytes(&data));
    let mut whole = Fingerprinter::new();
    whole.update(&data);
    assert_eq!(whole.finish(), fingerprint_bytes(&data));
}
