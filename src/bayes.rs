//! The task that trains the spam classifier on a stored message.
use crate::error::{Error, ErrorKind};
use vstd::prelude::*;

verus! {

/// The hash that identifies a stored blob.
pub type BlobHash = [u8; 32];

/// A task for the background queue.
#[derive(Clone, Copy, Debug, PartialEq, Eq)]
pub enum TaskQueueClass {
    /// Train the Bayesian classifier on the blob `hash`, as spam or as ham.
    BayesTrain { due: u64, hash: BlobHash, learn_spam: bool },
}

/// Builds the training task for one message of an account, from the blob
/// hash recorded in the message's metadata (none when the metadata is
/// missing) and the time at which the task falls due.
pub fn bayes_train_task(
    account_id: u32,
    document_id: u32,
    learn_spam: bool,
    blob_hash: Option<BlobHash>,
    due: u64,
) -> (r: Result<TaskQueueClass, Error>)
    ensures
        match blob_hash {
            Some(hash) => r == Ok::<TaskQueueClass, Error>(TaskQueueClass::BayesTrain { due, hash, learn_spam }),
            None => match r {
                Err(e) => e.kind == ErrorKind::NotFound && e.account_id == Some(account_id) && e.document_id
                    == Some(document_id) && e.context@.len() == 0,
                Ok(_) => false,
            },
        },
{
    match blob_hash {
        Some(hash) => Ok(TaskQueueClass::BayesTrain { due, hash, learn_spam }),
        None => Err(Error::new(ErrorKind::NotFound).account_id(account_id).document_id(document_id)),
    }
}

} // verus!
