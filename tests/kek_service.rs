use tokaysec::dek::Dek;
use tokaysec::error::KmsError;
use tokaysec::kek::{
    derive_kek, derive_kek_with_salt, open_dek, seal_dek, seal_dek_with_nonce, FileSystemKEKProvider,
    KekProvider,
};
use tokaysec::secure_buf::SecureBuffer;
use tokaysec::service::{
    allocate_persistent_handle, select_free_handle, status, unwrap_with_kek, wrap_with_kek,
    UnwrapDEKRequest, WrapDEKRequest, MAX_HANDLE_ATTEMPTS, PERSISTENT_HANDLE_FIRST,
    PERSISTENT_HANDLE_LAST,
};
use tokaysec::store::{KvStore, KvStoreStoreData};

fn kek(seed: u8) -> Vec<u8> {
    (0..32u8).map(|i| i ^ seed).collect()
}

#[test]
fn kek_wrap_unwrap_symmetry() {
    let k = kek(0x11);
    let dek = b"0123456789abcdef0123456789abcdef".to_vec();
    let (w, n, t) = seal_dek(&k, &dek, "s").unwrap();
    assert_eq!(n.len(), 12);
    assert_eq!(t.len(), 16);
    assert_eq!(w.len(), dek.len());
    assert_ne!(w, dek);
    assert_eq!(open_dek(&k, &w, &n, &t, "s").unwrap(), dek);
}

#[test]
fn kek_unwrap_with_other_name_fails() {
    let k = kek(0x22);
    let (w, n, t) = seal_dek(&k, b"dek bytes", "s").unwrap();
    assert_eq!(open_dek(&k, &w, &n, &t, "t"), Err(KmsError::Authentication));
}

#[test]
fn kek_with_wrong_length_is_invalid() {
    assert_eq!(seal_dek(&[1u8; 16], b"dek", "s"), Err(KmsError::InvalidKey));
    assert_eq!(
        open_dek(&[1u8; 31], b"dek", &[0u8; 12], &[0u8; 16], "s"),
        Err(KmsError::InvalidKey)
    );
}

#[test]
fn kek_fixed_nonce_is_deterministic() {
    let k = kek(0x33);
    let nonce = [9u8; 12];
    let a = seal_dek_with_nonce(&k, b"dek", "s", &nonce).unwrap();
    let b = seal_dek_with_nonce(&k, b"dek", "s", &nonce).unwrap();
    assert_eq!(a, b);
    assert_eq!(a.1, nonce.to_vec());
}

#[test]
fn kek_derivation_depends_on_salt() {
    let a = derive_kek_with_salt(b"passphrase", b"saltsaltsalt").unwrap();
    let b = derive_kek_with_salt(b"passphrase", b"saltsaltsalt").unwrap();
    let c = derive_kek_with_salt(b"passphrase", b"othersaltxyz").unwrap();
    assert_eq!(a.len(), 32);
    assert_eq!(a.expose(), b.expose());
    assert_ne!(a.expose(), c.expose());
    assert_eq!(derive_kek(b"passphrase").unwrap().len(), 32);
}

#[test]
fn kek_derivation_short_salt_fails() {
    assert!(matches!(derive_kek_with_salt(b"pw", b"short"), Err(KmsError::DerivationInput)));
}

#[test]
fn file_system_provider_round_trip() {
    let p = FileSystemKEKProvider::from_key(SecureBuffer::from_slice(&kek(0x44)).unwrap());
    assert_eq!(p.expose(), kek(0x44).as_slice());
    let dek = Dek::from(SecureBuffer::from_slice(&[5u8; 32]).unwrap());
    let (w, n, t) = KekProvider::wrap_dek(&p, dek, "name").unwrap();
    let back = KekProvider::unwrap_dek(&p, &w, &n, &t, "name").unwrap();
    assert_eq!(back.expose(), &[5u8; 32]);
    assert!(matches!(
        KekProvider::unwrap_dek(&p, &w, &n, &t, "other"),
        Err(KmsError::Authentication)
    ));
    assert_eq!(p.init_new_kek(), Err(KmsError::Unsupported));
}

#[test]
fn service_wrap_unwrap_symmetry() {
    let k = SecureBuffer::from_slice(&kek(0x55)).unwrap();
    let req = WrapDEKRequest { dek: vec![3u8; 32], secret_name: "s".to_string(), kek: "7".to_string() };
    let resp = wrap_with_kek(&k, &req).unwrap();
    let unreq = UnwrapDEKRequest {
        wrapped_dek: resp.wrapped_dek.clone(),
        tag: resp.tag.clone(),
        nonce: resp.nonce.clone(),
        secret_name: "s".to_string(),
        kek: "7".to_string(),
    };
    assert_eq!(unwrap_with_kek(&k, &unreq).unwrap().unwrapped_dek, vec![3u8; 32]);
    let wrong = UnwrapDEKRequest { secret_name: "x".to_string(), ..unreq };
    assert!(matches!(unwrap_with_kek(&k, &wrong), Err(KmsError::Authentication)));
}

#[test]
fn select_skips_occupied_handles() {
    let occupied = vec![10u32, 11, 12];
    assert_eq!(select_free_handle(&occupied, 10, 19, &vec![0, 1, 2, 3]), Ok(13));
    assert_eq!(select_free_handle(&occupied, 10, 19, &vec![25]), Ok(15));
    assert_eq!(select_free_handle(&occupied, 10, 19, &vec![0, 11, 2]), Err(KmsError::NoFreeHandle));
    assert_eq!(select_free_handle(&occupied, 10, 19, &vec![]), Err(KmsError::NoFreeHandle));
}

#[test]
fn allocate_picks_free_handle_in_range() {
    let occupied: Vec<u32> = (100..108).collect();
    for _ in 0..20 {
        let h = allocate_persistent_handle(&occupied, 100, 115).unwrap();
        assert!((108..=115).contains(&h));
    }
    let h = allocate_persistent_handle(&vec![], PERSISTENT_HANDLE_FIRST, PERSISTENT_HANDLE_LAST).unwrap();
    assert!((PERSISTENT_HANDLE_FIRST..=PERSISTENT_HANDLE_LAST).contains(&h));
}

#[test]
fn allocate_fully_occupied_range_fails() {
    let occupied: Vec<u32> = (200..=207).collect();
    assert_eq!(allocate_persistent_handle(&occupied, 200, 207), Err(KmsError::NoFreeHandle));
    assert!(MAX_HANDLE_ATTEMPTS > 0);
}

#[test]
fn status_is_always_ok() {
    assert_eq!(status(), 200);
    assert_eq!(status(), 200);
}

#[test]
fn kv_store_round_trip_through_provider() {
    let p = FileSystemKEKProvider::from_key(SecureBuffer::from_slice(&kek(0x66)).unwrap());
    let store = KvStore::init();
    let rec = store
        .store(&p, KvStoreStoreData { name: "db-password".to_string(), value: b"hunter2".to_vec() })
        .unwrap();
    assert_eq!(rec.data.len(), 7);
    assert_eq!(rec.dek.nonce.len(), 12);
    let back = store.retrieve(&p, &rec, "db-password").unwrap();
    assert_eq!(back.expose(), b"hunter2");
    assert!(store.retrieve(&p, &rec, "other").is_err());
    let reqs = store.ui_reqs();
    assert!(reqs.name && reqs.description && !reqs.secret_type);
}

#[test]
fn kek_seal_known_answer() {
    let k = kek(0x33);
    let (w, n, t) = seal_dek_with_nonce(&k, b"dek", "s", &[9u8; 12]).unwrap();
    assert_eq!(w, vec![19, 0, 71]);
    assert_eq!(n, vec![9u8; 12]);
    assert_eq!(t, vec![115, 35, 70, 214, 15, 152, 115, 77, 153, 205, 133, 246, 250, 97, 214, 208]);
}

#[test]
fn kek_derivation_known_answer() {
    let k = derive_kek_with_salt(b"passphrase", b"saltsaltsalt").unwrap();
    assert_eq!(
        k.expose(),
        &[
            190, 75, 130, 171, 146, 48, 28, 197, 245, 189, 120, 235, 10, 185, 17, 73, 248, 57,
            251, 103, 93, 67, 2, 221, 83, 101, 67, 237, 242, 60, 151, 215
        ]
    );
}
