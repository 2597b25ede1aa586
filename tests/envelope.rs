use tokaysec::dek::{Dek, DekWrapDataResult};
use tokaysec::error::KmsError;
use tokaysec::secure_buf::SecureBuffer;

fn fixed_dek(seed: u8) -> Dek {
    let bytes: Vec<u8> = (0..32u8).map(|i| i.wrapping_mul(7).wrapping_add(seed)).collect();
    Dek::from(SecureBuffer::from_slice(&bytes).unwrap())
}

fn open(dek: &Dek, w: &DekWrapDataResult, name: &str) -> Result<Vec<u8>, KmsError> {
    dek.unwrap_data(
        w.data.clone(),
        w.kmac_tag.clone(),
        name,
        w.nonce.clone(),
        w.gcm_tag.clone(),
    )
    .map(|b| b.expose().to_vec())
}

#[test]
fn secure_buffer_new_is_zeroed() {
    let b = SecureBuffer::new(48).unwrap();
    assert_eq!(b.len(), 48);
    assert!(b.expose().iter().all(|x| *x == 0));
}

#[test]
fn secure_buffer_from_slice_copies() {
    let b = SecureBuffer::from_slice(b"key material").unwrap();
    assert_eq!(b.expose(), b"key material");
}

#[test]
fn secure_buffer_too_large_is_allocation_error() {
    assert!(matches!(SecureBuffer::new(usize::MAX), Err(KmsError::Allocation)));
}

#[test]
fn secure_buffer_wipe_zeroes_memory() {
    let mut b = SecureBuffer::from_slice(&[0xAB; 40]).unwrap();
    b.wipe();
    assert_eq!(b.len(), 40);
    assert!(b.expose().iter().all(|x| *x == 0));
}

#[test]
fn dek_init_draws_32_bytes() {
    let a = Dek::init().unwrap();
    let b = Dek::init().unwrap();
    assert_eq!(a.expose().len(), 32);
    assert_ne!(a.expose(), b.expose());
}

#[test]
fn seal_hello_demo_scenario() {
    let dek = fixed_dek(1);
    let w = dek
        .wrap_data(SecureBuffer::from_slice(b"hello").unwrap(), "demo".to_string())
        .unwrap();
    assert_eq!(w.data.len(), 5);
    assert_eq!(w.gcm_tag.len(), 16);
    assert_eq!(w.kmac_tag.len(), 32);
    assert_eq!(w.nonce.len(), 12);
    assert_ne!(w.data, b"hello".to_vec());
    assert_eq!(open(&dek, &w, "demo").unwrap(), b"hello".to_vec());
    assert_eq!(open(&dek, &w, "other"), Err(KmsError::Authentication));
}

#[test]
fn seal_open_round_trip_various_payloads() {
    let dek = fixed_dek(5);
    let payloads: Vec<Vec<u8>> = vec![vec![], vec![0], b"a longer secret value".to_vec(), vec![0xFF; 1000]];
    for p in payloads {
        for name in ["", "x", "project/secret:ünï"] {
            let w = dek
                .wrap_data(SecureBuffer::from_slice(&p).unwrap(), name.to_string())
                .unwrap();
            assert_eq!(open(&dek, &w, name).unwrap(), p);
        }
    }
}

#[test]
fn seal_with_fixed_nonce_is_deterministic() {
    let dek = fixed_dek(2);
    let data = SecureBuffer::from_slice(b"payload").unwrap();
    let nonce = [7u8; 12];
    let a = dek.wrap_data_with_nonce(&data, "n", &nonce).unwrap();
    let b = dek.wrap_data_with_nonce(&data, "n", &nonce).unwrap();
    assert_eq!(a.data, b.data);
    assert_eq!(a.gcm_tag, b.gcm_tag);
    assert_eq!(a.kmac_tag, b.kmac_tag);
    assert_eq!(a.nonce, nonce.to_vec());
    let c = dek.wrap_data_with_nonce(&data, "m", &nonce).unwrap();
    assert_ne!(a.kmac_tag, c.kmac_tag);
}

#[test]
fn different_keys_give_different_ciphertexts() {
    let data = SecureBuffer::from_slice(b"same payload").unwrap();
    let nonce = [1u8; 12];
    let a = fixed_dek(3).wrap_data_with_nonce(&data, "n", &nonce).unwrap();
    let b = fixed_dek(4).wrap_data_with_nonce(&data, "n", &nonce).unwrap();
    assert_ne!(a.data, b.data);
    assert_ne!(a.kmac_tag, b.kmac_tag);
}

#[test]
fn flipped_ciphertext_bit_is_rejected() {
    let dek = fixed_dek(6);
    let mut w = dek
        .wrap_data(SecureBuffer::from_slice(b"tamper me").unwrap(), "t".to_string())
        .unwrap();
    w.data[0] ^= 0x01;
    assert_eq!(open(&dek, &w, "t"), Err(KmsError::Authentication));
}

#[test]
fn flipped_gcm_tag_bit_is_rejected() {
    let dek = fixed_dek(6);
    let mut w = dek
        .wrap_data(SecureBuffer::from_slice(b"tamper me").unwrap(), "t".to_string())
        .unwrap();
    w.gcm_tag[15] ^= 0x80;
    assert_eq!(open(&dek, &w, "t"), Err(KmsError::Authentication));
}

#[test]
fn flipped_kmac_tag_bit_is_rejected() {
    let dek = fixed_dek(6);
    let mut w = dek
        .wrap_data(SecureBuffer::from_slice(b"tamper me").unwrap(), "t".to_string())
        .unwrap();
    w.kmac_tag[3] ^= 0x10;
    assert_eq!(open(&dek, &w, "t"), Err(KmsError::Authentication));
}

#[test]
fn wrong_key_is_rejected() {
    let w = fixed_dek(8)
        .wrap_data(SecureBuffer::from_slice(b"secret").unwrap(), "k".to_string())
        .unwrap();
    assert_eq!(open(&fixed_dek(9), &w, "k"), Err(KmsError::Authentication));
}

#[test]
fn short_nonce_or_tag_is_rejected() {
    let dek = fixed_dek(6);
    let w = dek
        .wrap_data(SecureBuffer::from_slice(b"abc").unwrap(), "t".to_string())
        .unwrap();
    let r = dek.unwrap_data(w.data.clone(), w.kmac_tag.clone(), "t", w.nonce[..11].to_vec(), w.gcm_tag.clone());
    assert!(matches!(r, Err(KmsError::Authentication)));
    let r = dek.unwrap_data(w.data.clone(), w.kmac_tag.clone(), "t", w.nonce.clone(), w.gcm_tag[..8].to_vec());
    assert!(matches!(r, Err(KmsError::Authentication)));
}

#[test]
fn seal_known_answer() {
    let dek = fixed_dek(1);
    let data = SecureBuffer::from_slice(b"hello").unwrap();
    let w = dek.wrap_data_with_nonce(&data, "demo", &[7u8; 12]).unwrap();
    assert_eq!(w.data, vec![165, 50, 222, 162, 57]);
    assert_eq!(
        w.gcm_tag,
        vec![153, 89, 89, 142, 192, 167, 158, 55, 47, 175, 253, 195, 95, 80, 36, 253]
    );
    assert_eq!(w.kmac_tag.len(), 32);
    assert_ne!(w.kmac_tag[..5].to_vec(), w.data);
}

#[test]
fn kmac_tag_of_wrong_length_is_rejected() {
    let dek = fixed_dek(7);
    let w = dek
        .wrap_data(SecureBuffer::from_slice(b"abc").unwrap(), "t".to_string())
        .unwrap();
    let r = dek.unwrap_data(w.data.clone(), w.kmac_tag[..31].to_vec(), "t", w.nonce.clone(), w.gcm_tag.clone());
    assert!(matches!(r, Err(KmsError::Authentication)));
}

#[test]
fn opened_payload_has_ciphertext_length() {
    let dek = fixed_dek(8);
    let w = dek
        .wrap_data(SecureBuffer::from_slice(b"exactly nineteen b!").unwrap(), "len".to_string())
        .unwrap();
    assert_eq!(open(&dek, &w, "len").unwrap().len(), w.data.len());
}
