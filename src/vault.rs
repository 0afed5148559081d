use vstd::prelude::*;
use crate::encryption::{aes_decrypt_text, unsealed_text, VaultCipher};
use crate::types::{StorageError, StorageErrors};

verus! {

/// The header of an upload request that carries the unlock secret.
pub struct UploadReq {
    pub password: String,
}

/// Where an upload stands. The blob is streamed into a staging location that no reader sees,
/// published in one step once the stream has ended, and only then is the unlock secret stored.
/// Each new form field of the upload starts the staged blob afresh, so the last field is kept.
#[derive(Debug, Clone, Copy, PartialEq, Eq, Structural)]
pub enum UploadStage {
    Streaming,
    Publishing,
    StoringSecret,
    Finished,
    Aborted,
}

/// What the storage side reports back after doing the last action.
#[derive(Debug, Clone, Copy, PartialEq, Eq, Structural)]
pub enum UploadEvent {
    FieldStarted,
    Restarted,
    ChunkWritten,
    StreamEnded,
    StreamFailed,
    Published,
    PublishFailed,
    SecretStored,
    SecretFailed,
}

/// What the storage side is to do next.
#[derive(Debug, Clone, Copy, PartialEq, Eq, Structural)]
pub enum UploadAction {
    RestartStaged,
    WriteNextChunk,
    PublishBlob,
    DiscardStaged,
    StoreSecret,
    ReportSuccess,
    ReportFailure,
    Ignore,
}

/// The upload protocol, one event at a time.
pub open spec fn upload_transition(stage: UploadStage, event: UploadEvent) -> (UploadStage, UploadAction) {
    match (stage, event) {
        (UploadStage::Streaming, UploadEvent::FieldStarted) => (UploadStage::Streaming, UploadAction::RestartStaged),
        (UploadStage::Streaming, UploadEvent::Restarted) => (UploadStage::Streaming, UploadAction::WriteNextChunk),
        (UploadStage::Streaming, UploadEvent::ChunkWritten) => (UploadStage::Streaming, UploadAction::WriteNextChunk),
        (UploadStage::Streaming, UploadEvent::StreamEnded) => (UploadStage::Publishing, UploadAction::PublishBlob),
        (UploadStage::Streaming, UploadEvent::StreamFailed) => (UploadStage::Aborted, UploadAction::DiscardStaged),
        (UploadStage::Publishing, UploadEvent::Published) => (UploadStage::StoringSecret, UploadAction::StoreSecret),
        (UploadStage::Publishing, UploadEvent::PublishFailed) => (UploadStage::Aborted, UploadAction::DiscardStaged),
        (UploadStage::StoringSecret, UploadEvent::SecretStored) => (UploadStage::Finished, UploadAction::ReportSuccess),
        (UploadStage::StoringSecret, UploadEvent::SecretFailed) => (UploadStage::Aborted, UploadAction::ReportFailure),
        (UploadStage::Finished, _) => (UploadStage::Finished, UploadAction::Ignore),
        (UploadStage::Aborted, _) => (UploadStage::Aborted, UploadAction::ReportFailure),
        (s, _) => (UploadStage::Aborted, if s == UploadStage::StoringSecret {
            UploadAction::ReportFailure
        } else {
            UploadAction::DiscardStaged
        }),
    }
}

/// Advances an upload by one event. An event that does not fit the stage aborts the upload.
pub fn upload_step(stage: UploadStage, event: UploadEvent) -> (r: (UploadStage, UploadAction))
    ensures
        r == upload_transition(stage, event),
{
    match (stage, event) {
        (UploadStage::Streaming, UploadEvent::FieldStarted) => (UploadStage::Streaming, UploadAction::RestartStaged),
        (UploadStage::Streaming, UploadEvent::Restarted) => (UploadStage::Streaming, UploadAction::WriteNextChunk),
        (UploadStage::Streaming, UploadEvent::ChunkWritten) => (UploadStage::Streaming, UploadAction::WriteNextChunk),
        (UploadStage::Streaming, UploadEvent::StreamEnded) => (UploadStage::Publishing, UploadAction::PublishBlob),
        (UploadStage::Streaming, UploadEvent::StreamFailed) => (UploadStage::Aborted, UploadAction::DiscardStaged),
        (UploadStage::Publishing, UploadEvent::Published) => (UploadStage::StoringSecret, UploadAction::StoreSecret),
        (UploadStage::Publishing, UploadEvent::PublishFailed) => (UploadStage::Aborted, UploadAction::DiscardStaged),
        (UploadStage::StoringSecret, UploadEvent::SecretStored) => (UploadStage::Finished, UploadAction::ReportSuccess),
        (UploadStage::StoringSecret, UploadEvent::SecretFailed) => (UploadStage::Aborted, UploadAction::ReportFailure),
        (UploadStage::Finished, _) => (UploadStage::Finished, UploadAction::Ignore),
        (UploadStage::Aborted, _) => (UploadStage::Aborted, UploadAction::ReportFailure),
        (UploadStage::StoringSecret, _) => (UploadStage::Aborted, UploadAction::ReportFailure),
        (_, _) => (UploadStage::Aborted, UploadAction::DiscardStaged),
    }
}

/// The stage an upload reaches from `stage` through `events`, in order.
pub open spec fn upload_run(stage: UploadStage, events: Seq<UploadEvent>) -> UploadStage
    decreases events.len(),
{
    if events.len() == 0 {
        stage
    } else {
        upload_run(upload_transition(stage, events[0]).0, events.drop_first())
    }
}

/// Each step of an upload follows the one before it: the blob is published only when its stream
/// has ended, the secret is stored only once the blob is published, and success is reported only
/// once the secret is stored.
pub proof fn lemma_upload_success_order(stage: UploadStage, event: UploadEvent)
    ensures
        upload_transition(stage, event).1 == UploadAction::PublishBlob
            ==> stage == UploadStage::Streaming && event == UploadEvent::StreamEnded,
        upload_transition(stage, event).1 == UploadAction::StoreSecret
            ==> stage == UploadStage::Publishing && event == UploadEvent::Published,
        upload_transition(stage, event).1 == UploadAction::ReportSuccess
            ==> stage == UploadStage::StoringSecret && event == UploadEvent::SecretStored,
{
}

/// Once aborted, an upload stays aborted whatever comes after, so a partial blob is never
/// published.
pub proof fn lemma_aborted_upload_stays_aborted(events: Seq<UploadEvent>)
    ensures
        upload_run(UploadStage::Aborted, events) == UploadStage::Aborted,
    decreases events.len(),
{
    if events.len() > 0 {
        lemma_aborted_upload_stays_aborted(events.drop_first());
    }
}

/// The stored parts of a vault are all present: the sealed secret, a nonce, and the blob.
pub open spec fn vault_present(ciphertext: Option<Vec<u8>>, nonce: Option<Vec<u8>>, blob_present: bool) -> bool {
    &&& ciphertext is Some
    &&& nonce matches Some(n) && n@.len() > 0
    &&& blob_present
}

/// Recovers the unlock secret of a vault for download, from what storage holds: the sealed
/// secret, the nonce of the user record (`None`, or empty, where it was never set), and whether
/// the blob exists. A vault with any part missing is not found; one whose secret does not open
/// is a decryption failure.
pub fn download(cipher: &VaultCipher, ciphertext: Option<Vec<u8>>, nonce: Option<Vec<u8>>, blob_present: bool) -> (r: Result<String, StorageError>)
    ensures
        !vault_present(ciphertext, nonce, blob_present)
            ==> (r matches Err(e) && e.kind() == StorageErrors::NotFound),
        vault_present(ciphertext, nonce, blob_present) ==> match unsealed_text(cipher.key(), nonce->0@, ciphertext->0@) {
            Some(t) => (r matches Ok(s) && s@ == t),
            None => (r matches Err(e) && e.kind() == StorageErrors::DecryptionFailed),
        },
{
    match (ciphertext, nonce) {
        (Some(c), Some(n)) => {
            if n.len() == 0 || !blob_present {
                Err(StorageError::new(StorageErrors::NotFound, "Storage not found"))
            } else {
                aes_decrypt_text(cipher, c.as_slice(), n.as_slice())
            }
        },
        _ => Err(StorageError::new(StorageErrors::NotFound, "Storage not found")),
    }
}

} // verus!
