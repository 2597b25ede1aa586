use tokaysec::error::KmsError;
use tokaysec::remote::{
    init_kek_reply, unwrap_reply, wrap_reply, InitKekResponse, UnwrapDekResponse, WrapDekResponse,
};

fn wrap_resp(nonce_len: usize, tag_len: usize) -> WrapDekResponse {
    WrapDekResponse { wrapped_dek: vec![1, 2, 3], nonce: vec![4; nonce_len], tag: vec![5; tag_len] }
}

#[test]
fn wrap_reply_accepts_well_formed_success() {
    assert_eq!(
        wrap_reply(200, Some(wrap_resp(12, 16))),
        Ok((vec![1, 2, 3], vec![4; 12], vec![5; 16]))
    );
}

#[test]
fn wrap_reply_rejects_errors_and_bad_lengths() {
    assert_eq!(wrap_reply(500, Some(wrap_resp(12, 16))), Err(KmsError::Provider));
    assert_eq!(wrap_reply(200, None), Err(KmsError::Provider));
    assert_eq!(wrap_reply(200, Some(wrap_resp(11, 16))), Err(KmsError::Provider));
    assert_eq!(wrap_reply(200, Some(wrap_resp(12, 15))), Err(KmsError::Provider));
}

#[test]
fn unwrap_reply_maps_status() {
    let ok = unwrap_reply(200, Some(UnwrapDekResponse { unwrapped_dek: vec![9; 32] })).unwrap();
    assert_eq!(ok.expose(), &[9u8; 32]);
    assert!(matches!(
        unwrap_reply(500, Some(UnwrapDekResponse { unwrapped_dek: vec![9; 32] })),
        Err(KmsError::Provider)
    ));
    assert!(matches!(unwrap_reply(204, None), Err(KmsError::Provider)));
}

#[test]
fn init_kek_reply_gives_identifier() {
    assert_eq!(
        init_kek_reply(200, Some(InitKekResponse { id: "7352140924433993728".to_string() })),
        Ok("7352140924433993728".to_string())
    );
    assert_eq!(init_kek_reply(404, None), Err(KmsError::Provider));
}
