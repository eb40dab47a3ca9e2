use node_launcher::secret::wipe;

#[test]
fn wipe_zeroes_every_byte() {
    let mut bytes = b"pass".to_vec();
    wipe(&mut bytes);
    assert_eq!(bytes, vec![0u8; 4]);
}

#[test]
fn wipe_keeps_the_length() {
    let mut bytes: Vec<u8> = (0..=255).collect();
    wipe(&mut bytes);
    assert_eq!(bytes.len(), 256);
    assert!(bytes.iter().all(|b| *b == 0));
    let mut empty: Vec<u8> = Vec::new();
    wipe(&mut empty);
    assert!(empty.is_empty());
}
