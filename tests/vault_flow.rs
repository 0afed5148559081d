use pmanager::encryption::{aes_decrypt_text, aes_encrypt_text, VaultCipher};
use pmanager::types::StorageErrors;
use pmanager::vault::{download, upload_step, UploadAction, UploadEvent, UploadStage};

fn cipher() -> VaultCipher {
    VaultCipher::new(b"0123456789abcdef0123456789abcdef".to_vec()).unwrap()
}

#[test]
fn cipher_key_must_be_32_bytes() {
    assert!(VaultCipher::new(b"short".to_vec()).is_none());
    assert!(VaultCipher::new(vec![0u8; 33]).is_none());
    assert!(VaultCipher::new(vec![0u8; 32]).is_some());
}

#[test]
fn encrypt_decrypt_round_trip() {
    let c = cipher();
    for secret in ["", "vault password", "пароль ✓"] {
        let (ct, nonce) = aes_encrypt_text(&c, secret).ok().unwrap();
        assert_eq!(nonce.len(), 12);
        assert_eq!(ct.len(), secret.len() + 16);
        assert_ne!(ct, secret.as_bytes().to_vec());
        assert_eq!(aes_decrypt_text(&c, &ct, &nonce).ok().unwrap(), secret);
    }
}

#[test]
fn decrypt_with_other_nonce_fails() {
    let c = cipher();
    let (ct, nonce) = aes_encrypt_text(&c, "secret").ok().unwrap();
    let mut other = nonce.clone();
    other[0] ^= 1;
    let e = aes_decrypt_text(&c, &ct, &other).err().unwrap();
    assert!(e.error_type() == StorageErrors::DecryptionFailed);
    assert!(aes_decrypt_text(&c, &ct, &nonce[..11]).is_err());
    let mut tampered = ct.clone();
    tampered[0] ^= 1;
    assert!(aes_decrypt_text(&c, &tampered, &nonce).is_err());
}

#[test]
fn decrypt_with_other_key_fails() {
    let (ct, nonce) = aes_encrypt_text(&cipher(), "secret").ok().unwrap();
    let other = VaultCipher::new(vec![7u8; 32]).unwrap();
    assert!(aes_decrypt_text(&other, &ct, &nonce).is_err());
}

#[test]
fn download_never_uploaded_is_not_found() {
    let e = download(&cipher(), None, None, false).err().unwrap();
    assert!(e.error_type() == StorageErrors::NotFound);
    assert_eq!(e.status(), 404);
}

#[test]
fn download_half_present_is_not_found() {
    let c = cipher();
    let (ct, nonce) = aes_encrypt_text(&c, "s3cret").ok().unwrap();
    assert!(download(&c, Some(ct.clone()), Some(nonce.clone()), false).err().unwrap().error_type() == StorageErrors::NotFound);
    assert!(download(&c, None, Some(nonce.clone()), true).err().unwrap().error_type() == StorageErrors::NotFound);
    assert!(download(&c, Some(ct.clone()), None, true).err().unwrap().error_type() == StorageErrors::NotFound);
    assert!(download(&c, Some(ct), Some(Vec::new()), true).err().unwrap().error_type() == StorageErrors::NotFound);
}

#[test]
fn download_recovers_uploaded_secret() {
    let c = cipher();
    let (ct, nonce) = aes_encrypt_text(&c, "s3cret").ok().unwrap();
    assert_eq!(download(&c, Some(ct), Some(nonce), true).ok().unwrap(), "s3cret");
}

#[test]
fn download_with_stale_nonce_fails_closed() {
    let c = cipher();
    let (ct, _) = aes_encrypt_text(&c, "first").ok().unwrap();
    let (_, nonce2) = aes_encrypt_text(&c, "second").ok().unwrap();
    let e = download(&c, Some(ct), Some(nonce2), true).err().unwrap();
    assert!(e.error_type() == StorageErrors::DecryptionFailed);
    assert_eq!(e.status(), 500);
}

#[test]
fn upload_protocol_happy_path() {
    let mut s = UploadStage::Streaming;
    let mut actions = Vec::new();
    for ev in [UploadEvent::FieldStarted, UploadEvent::Restarted, UploadEvent::ChunkWritten, UploadEvent::ChunkWritten, UploadEvent::StreamEnded, UploadEvent::Published, UploadEvent::SecretStored] {
        let (n, a) = upload_step(s, ev);
        s = n;
        actions.push(a);
    }
    assert_eq!(s, UploadStage::Finished);
    assert_eq!(actions, vec![UploadAction::RestartStaged, UploadAction::WriteNextChunk, UploadAction::WriteNextChunk, UploadAction::WriteNextChunk, UploadAction::PublishBlob, UploadAction::StoreSecret, UploadAction::ReportSuccess]);
}

#[test]
fn upload_interrupted_stream_is_never_published() {
    let (s, a) = upload_step(UploadStage::Streaming, UploadEvent::StreamFailed);
    assert_eq!((s, a), (UploadStage::Aborted, UploadAction::DiscardStaged));
    let (s, a) = upload_step(s, UploadEvent::StreamEnded);
    assert_eq!((s, a), (UploadStage::Aborted, UploadAction::ReportFailure));
}

#[test]
fn upload_zero_bytes_is_accepted() {
    let (s, a) = upload_step(UploadStage::Streaming, UploadEvent::StreamEnded);
    assert_eq!((s, a), (UploadStage::Publishing, UploadAction::PublishBlob));
}

#[test]
fn upload_out_of_order_event_aborts() {
    assert_eq!(upload_step(UploadStage::Streaming, UploadEvent::SecretStored), (UploadStage::Aborted, UploadAction::DiscardStaged));
    assert_eq!(upload_step(UploadStage::Publishing, UploadEvent::ChunkWritten), (UploadStage::Aborted, UploadAction::DiscardStaged));
    assert_eq!(upload_step(UploadStage::StoringSecret, UploadEvent::ChunkWritten), (UploadStage::Aborted, UploadAction::ReportFailure));
    assert_eq!(upload_step(UploadStage::Finished, UploadEvent::ChunkWritten), (UploadStage::Finished, UploadAction::Ignore));
}

#[test]
fn upload_new_field_restarts_staged_blob() {
    let (s, a) = upload_step(UploadStage::Streaming, UploadEvent::FieldStarted);
    assert_eq!((s, a), (UploadStage::Streaming, UploadAction::RestartStaged));
    let (s, a) = upload_step(s, UploadEvent::Restarted);
    assert_eq!((s, a), (UploadStage::Streaming, UploadAction::WriteNextChunk));
    assert_eq!(upload_step(UploadStage::Publishing, UploadEvent::FieldStarted), (UploadStage::Aborted, UploadAction::DiscardStaged));
}
