//! Turns a serialized message and a batch of raw signing keys into a signed
//! transaction, and a ledger outcome into a status byte.

use crate::ledger::{
    decoded_message, deserialize_message, key_pubkey, keypair_from_bytes, keypair_valid,
    message_decodes, message_encodable, sign_message, signer_pubkey, signs_required,
};
use solana_sdk::pubkey::Pubkey;
use solana_sdk::hash;
use solana_sdk::message::Message;
use solana_sdk::signature::Keypair;
use solana_sdk::transaction::Transaction;
use vstd::prelude::*;

verus! {

/// Length of one signing key as it crosses the boundary: the secret key
/// followed by its public key.
pub const SIGNER_KEY_LEN: usize = 64;

/// Why a message and its signers could not be made into a transaction.
#[derive(Debug, PartialEq, Eq, Structural)]
pub enum ProcessError {
    /// The message bytes are not the encoding of a message.
    MalformedMessage,
    /// The signing key at this position of the batch is malformed.
    MalformedSigner(usize),
    /// The keys do not sign the message: one is not a required signer, or
    /// a required signer has no key.
    Signing,
}

/// The `i`-th key of a batch of signing keys.
pub open spec fn signer_chunk(bytes: Seq<u8>, i: int) -> Seq<u8> {
    bytes.subrange(64 * i, 64 * i + 64)
}

/// Whether the first `n` keys of a batch are well formed.
pub open spec fn signers_valid_upto(bytes: Seq<u8>, n: int) -> bool {
    forall|i: int| 0 <= i < n ==> keypair_valid(#[trigger] signer_chunk(bytes, i))
}

/// The position of the first malformed key of a batch of `count`.
pub open spec fn first_malformed_signer(bytes: Seq<u8>, count: int, i: int) -> bool {
    &&& 0 <= i < count
    &&& !keypair_valid(signer_chunk(bytes, i))
    &&& signers_valid_upto(bytes, i)
}

/// Decodes a message from its binary encoding. The three header bytes lead
/// the encoding.
pub fn decode_message(bytes: &[u8]) -> (r: Result<Message, ProcessError>)
    ensures
        r is Ok <==> message_decodes(bytes@),
        r is Err ==> r == Err::<Message, ProcessError>(ProcessError::MalformedMessage),
        r is Ok ==> {
            &&& r->Ok_0 == decoded_message(bytes@)
            &&& message_encodable(r->Ok_0)
            &&& bytes@.len() >= 3
            &&& r->Ok_0.header.num_required_signatures == bytes@[0]
            &&& r->Ok_0.header.num_readonly_signed_accounts == bytes@[1]
            &&& r->Ok_0.header.num_readonly_unsigned_accounts == bytes@[2]
        },
{
    match deserialize_message(bytes) {
        Ok(m) => Ok(m),
        Err(_) => Err(ProcessError::MalformedMessage),
    }
}

/// Rebuilds the signing identities of a batch of `count` keys of 64 bytes
/// each, in the order of the batch. Fails at the first malformed key.
pub fn reconstruct_signers(bytes: &[u8], count: usize) -> (r: Result<Vec<Keypair>, ProcessError>)
    requires
        bytes@.len() == 64 * count,
    ensures
        r is Ok <==> signers_valid_upto(bytes@, count as int),
        r is Ok ==> r->Ok_0@.len() == count,
        r is Ok ==> forall|i: int|
            0 <= i < count ==> signer_pubkey(#[trigger] r->Ok_0@[i]) == key_pubkey(
                signer_chunk(bytes@, i),
            ),
        r is Err ==> exists|i: usize|
            r == Err::<Vec<Keypair>, ProcessError>(ProcessError::MalformedSigner(i))
                && first_malformed_signer(bytes@, count as int, i as int),
{
    // The slice length bounds `64 * count`, so the offsets below fit.
    let len: usize = bytes.len();
    let mut keys: Vec<Keypair> = Vec::new();
    let mut i: usize = 0;
    while i < count
        invariant
            bytes@.len() == 64 * count,
            len == bytes@.len(),
            0 <= i <= count,
            keys@.len() == i,
            signers_valid_upto(bytes@, i as int),
            forall|j: int|
                0 <= j < i ==> signer_pubkey(#[trigger] keys@[j]) == key_pubkey(
                    signer_chunk(bytes@, j),
                ),
        decreases count - i,
    {
        let start: usize = i * SIGNER_KEY_LEN;
        let chunk = &bytes[start..start + SIGNER_KEY_LEN];
        assert(chunk@ == signer_chunk(bytes@, i as int));
        match keypair_from_bytes(chunk) {
            Some(k) => {
                keys.push(k);
            },
            None => {
                assert(first_malformed_signer(bytes@, count as int, i as int));
                return Err(ProcessError::MalformedSigner(i));
            },
        }
        i = i + 1;
    }
    Ok(keys)
}

/// The public keys of a batch of `count` signing keys, in batch order.
pub open spec fn batch_pubkeys(bytes: Seq<u8>, count: int) -> Seq<Pubkey> {
    Seq::new(count as nat, |i: int| key_pubkey(signer_chunk(bytes, i)))
}

/// Signs a message with a batch of `count` keys against a fresh block hash.
/// Succeeds exactly when every key is well formed and the keys fill every
/// required signature slot, each key being one of the required signers:
/// with fewer keys than required signers, the transaction is never
/// produced.
pub fn sign_transaction(
    message: Message,
    signer_bytes: &[u8],
    count: usize,
    anchor: hash::Hash,
) -> (r: Result<Transaction, ProcessError>)
    requires
        signer_bytes@.len() == 64 * count,
        message_encodable(message),
    ensures
        signers_valid_upto(signer_bytes@, count as int) ==> (r is Ok <==> signs_required(
            message.account_keys@,
            message.header.num_required_signatures as int,
            batch_pubkeys(signer_bytes@, count as int),
        )),
        (count as int) < message.header.num_required_signatures ==> r is Err,
        signers_valid_upto(signer_bytes@, count as int) && (count as int)
            < message.header.num_required_signatures ==> r == Err::<Transaction, ProcessError>(
            ProcessError::Signing,
        ),
        !signers_valid_upto(signer_bytes@, count as int) <==> exists|i: usize|
            r == Err::<Transaction, ProcessError>(ProcessError::MalformedSigner(i))
                && first_malformed_signer(signer_bytes@, count as int, i as int),
        signers_valid_upto(signer_bytes@, count as int) ==> r is Ok || r == Err::<
            Transaction,
            ProcessError,
        >(ProcessError::Signing),
        r is Ok ==> {
            &&& count >= message.header.num_required_signatures
            &&& r->Ok_0.signatures@.len() == message.header.num_required_signatures
            &&& r->Ok_0.message.header == message.header
            &&& r->Ok_0.message.account_keys == message.account_keys
            &&& r->Ok_0.message.instructions == message.instructions
            &&& r->Ok_0.message.recent_blockhash == anchor
        },
{
    let signers = match reconstruct_signers(signer_bytes, count) {
        Ok(s) => s,
        Err(e) => {
            return Err(e);
        },
    };
    assert(signers@.map_values(|k: Keypair| signer_pubkey(k)) =~= batch_pubkeys(
        signer_bytes@,
        count as int,
    ));
    match sign_message(message, &signers, anchor) {
        Ok(tx) => Ok(tx),
        Err(_) => Err(ProcessError::Signing),
    }
}

/// How the ledger answered a submitted transaction.
#[derive(Debug, PartialEq, Eq, Structural)]
pub enum SubmitOutcome {
    /// The transaction was accepted.
    Accepted,
    /// The transaction was well formed but rejected on semantic grounds
    /// during simulation or execution.
    Rejected,
    /// The ledger could not be reached or did not answer.
    TransportFailure,
}

/// The status byte of a submission: 0 when the ledger accepted the
/// transaction, 1 when it rejected it. A transport failure has no status
/// byte (`None`): the run cannot go on.
pub fn status_code(outcome: &SubmitOutcome) -> (r: Option<u8>)
    ensures
        r == Some(0u8) <==> *outcome == SubmitOutcome::Accepted,
        r == Some(1u8) <==> *outcome == SubmitOutcome::Rejected,
        r is None <==> *outcome == SubmitOutcome::TransportFailure,
{
    match outcome {
        SubmitOutcome::Accepted => Some(0),
        SubmitOutcome::Rejected => Some(1),
        SubmitOutcome::TransportFailure => None,
    }
}

} // verus!
