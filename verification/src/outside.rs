//! Types of other crates that values of this library carry unopened.
use vstd::prelude::*;

verus! {

/// The address of a node or a database.
#[verifier::external_type_specification]
#[verifier::external_body]
pub struct ExUrl(url::Url);

/// An address on Solana.
#[verifier::external_type_specification]
#[verifier::external_body]
pub struct ExPubkey(solana_program::pubkey::Pubkey);

/// What requests for cancellation are made and awaited through.
#[verifier::external_type_specification]
#[verifier::external_body]
pub struct ExCancellationToken(tokio_util::sync::CancellationToken);

/// The sending end of a channel.
#[verifier::external_type_specification]
#[verifier::external_body]
#[verifier::reject_recursive_types(T)]
pub struct ExSender<T>(tokio::sync::mpsc::Sender<T>);

/// The receiving end of a channel.
#[verifier::external_type_specification]
#[verifier::external_body]
#[verifier::reject_recursive_types(T)]
pub struct ExReceiver<T>(tokio::sync::mpsc::Receiver<T>);

/// A private key of the Axelar chain.
#[verifier::external_type_specification]
#[verifier::external_body]
pub struct ExSigningKey(cosmrs::crypto::secp256k1::SigningKey);

/// An error with its causes.
#[verifier::external_type_specification]
#[verifier::external_body]
pub struct ExReport(eyre::Report);

/// The path of a file.
#[verifier::external_type_specification]
#[verifier::external_body]
pub struct ExPathBuf(std::path::PathBuf);

/// `url::Url` derives `Clone`: the copy is the same URL.
pub assume_specification[ <url::Url as Clone>::clone ](source: &url::Url) -> (copy: url::Url)
    ensures
        copy == *source,
;

} // verus!
