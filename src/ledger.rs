//! The ledger library's types as this crate sees them, and the calls into
//! it that transaction assembly makes.

use solana_sdk::hash;
use solana_sdk::instruction::CompiledInstruction;
use solana_sdk::message::{Message, MessageHeader};
use solana_sdk::pubkey::Pubkey;
use solana_sdk::signature::{Keypair, Signature};
use solana_sdk::signer::SignerError;
use solana_sdk::transaction::Transaction;
use vstd::prelude::*;

verus! {

#[verifier::external_type_specification]
#[verifier::external_body]
pub struct ExPubkey(Pubkey);

#[verifier::external_type_specification]
#[verifier::external_body]
pub struct ExHash(hash::Hash);

#[verifier::external_type_specification]
pub struct ExCompiledInstruction(CompiledInstruction);

#[verifier::external_type_specification]
#[verifier::external_body]
pub struct ExSignature(Signature);

#[verifier::external_type_specification]
#[verifier::external_body]
pub struct ExKeypair(Keypair);

#[verifier::external_type_specification]
#[verifier::external_body]
pub struct ExSignerError(SignerError);

#[verifier::external_type_specification]
#[verifier::external_body]
pub struct ExBincodeErrorKind(bincode::ErrorKind);

/// Named by `Signature`'s `TryFrom<&[u8]>` impl, which Verus reads once
/// `Signature` is declared.
#[verifier::external_type_specification]
#[verifier::external_body]
pub struct ExTryFromSliceError(core::array::TryFromSliceError);

#[verifier::external_type_specification]
pub struct ExMessageHeader(MessageHeader);

#[verifier::external_type_specification]
pub struct ExMessage(Message);

#[verifier::external_type_specification]
pub struct ExTransaction(Transaction);

/// Whether a byte string is the binary encoding of a message.
pub uninterp spec fn message_decodes(bytes: Seq<u8>) -> bool;

/// Whether 64 bytes are a secret key followed by the public key derived
/// from it.
pub uninterp spec fn keypair_valid(bytes: Seq<u8>) -> bool;

/// The message that a byte string encodes.
pub uninterp spec fn decoded_message(bytes: Seq<u8>) -> Message;

/// The public key that 64 key bytes hold.
pub uninterp spec fn key_pubkey(bytes: Seq<u8>) -> Pubkey;

/// The public key of a signing identity.
pub uninterp spec fn signer_pubkey(k: Keypair) -> Pubkey;

/// Whether every list in the message is short enough for its compact
/// length prefix (at most 65535 entries), so that it can be encoded again.
pub open spec fn message_encodable(m: Message) -> bool {
    &&& m.account_keys@.len() <= 0xffff
    &&& m.instructions@.len() <= 0xffff
    &&& forall|i: int|
        0 <= i < m.instructions@.len() ==> {
            &&& (#[trigger] m.instructions@[i]).accounts@.len() <= 0xffff
            &&& m.instructions@[i].data@.len() <= 0xffff
        }
}

/// Whether `p` is one of the first `n` keys.
pub open spec fn is_slot_key(keys: Seq<Pubkey>, n: int, p: Pubkey) -> bool {
    exists|j: int| 0 <= j < n && #[trigger] keys[j] == p
}

/// Whether `p` is the key of one of the signers.
pub open spec fn is_signer_key(signers: Seq<Pubkey>, p: Pubkey) -> bool {
    exists|s: int| 0 <= s < signers.len() && #[trigger] signers[s] == p
}

/// Whether key `j` does not repeat an earlier key.
pub open spec fn first_occurrence(keys: Seq<Pubkey>, j: int) -> bool {
    forall|j2: int| 0 <= j2 < j ==> #[trigger] keys[j2] != keys[j]
}

/// Whether signers with public keys `signers` fill every one of the first `n`
/// signature slots of a message with account keys `keys`: each signer is one
/// of the first `n` keys, and each of those keys is some signer's key and
/// repeats no earlier one.
pub open spec fn signs_required(keys: Seq<Pubkey>, n: int, signers: Seq<Pubkey>) -> bool {
    &&& keys.len() >= n
    &&& forall|s: int| 0 <= s < signers.len() ==> is_slot_key(keys, n, #[trigger] signers[s])
    &&& forall|j: int|
        0 <= j < n ==> is_signer_key(signers, #[trigger] keys[j]) && first_occurrence(keys, j)
}

/// Signers whose keys are exactly the first `n` account keys, each once and
/// in order, fill every required signature slot.
pub proof fn lemma_exact_signers_sign(keys: Seq<Pubkey>, n: int, signers: Seq<Pubkey>)
    requires
        0 <= n <= keys.len(),
        signers == keys.subrange(0, n),
        forall|j: int, j2: int| 0 <= j2 < j < n ==> keys[j2] != keys[j],
    ensures
        signs_required(keys, n, signers),
{
    assert forall|s: int| 0 <= s < signers.len() implies is_slot_key(
        keys,
        n,
        #[trigger] signers[s],
    ) by {
        assert(keys[s] == signers[s]);
    }
    assert forall|j: int| 0 <= j < n implies is_signer_key(signers, #[trigger] keys[j])
        && first_occurrence(keys, j) by {
        assert(signers[j] == keys[j]);
    }
}

/// Relies on bincode::deserialize of a legacy `Message`: it succeeds on the
/// encodings of messages alone, and the message's header, three single
/// bytes, is the first field encoded. Every list of a message is read with a
/// compact 16-bit length prefix.
#[verifier::external_body]
pub(crate) fn deserialize_message(bytes: &[u8]) -> (r: Result<Message, Box<bincode::ErrorKind>>)
    ensures
        r is Ok <==> message_decodes(bytes@),
        r is Ok ==> {
            &&& r->Ok_0 == decoded_message(bytes@)
            &&& message_encodable(r->Ok_0)
            &&& bytes@.len() >= 3
            &&& r->Ok_0.header.num_required_signatures == bytes@[0]
            &&& r->Ok_0.header.num_readonly_signed_accounts == bytes@[1]
            &&& r->Ok_0.header.num_readonly_unsigned_accounts == bytes@[2]
        },
{
    bincode::deserialize::<Message>(bytes)
}

/// Relies on `Keypair::from_bytes`: it accepts exactly 64 bytes that hold a
/// secret key and its public key; the identity's public key is the one the
/// bytes hold.
#[verifier::external_body]
pub(crate) fn keypair_from_bytes(bytes: &[u8]) -> (r: Option<Keypair>)
    ensures
        r is Some <==> keypair_valid(bytes@),
        r is Some ==> signer_pubkey(r->Some_0) == key_pubkey(bytes@),
        bytes@.len() != 64 ==> r is None,
{
    Keypair::from_bytes(bytes).ok()
}

/// Relies on `Transaction::new_unsigned` followed by `Transaction::try_sign`:
/// the transaction starts with one empty signature slot per required signer;
/// each keypair must be one of the first `n` account keys and fills the slot
/// of that key's first occurrence (signing with a `Keypair` never fails);
/// signing fails while a slot is empty. A signed transaction keeps the
/// message, anchored at the given block hash. Encoding the message for
/// signing panics on a list longer than 65535, hence the bound.
#[verifier::external_body]
pub(crate) fn sign_message(message: Message, signers: &Vec<Keypair>, anchor: hash::Hash) -> (r: Result<
    Transaction,
    SignerError,
>)
    requires
        message_encodable(message),
    ensures
        r is Ok <==> signs_required(
            message.account_keys@,
            message.header.num_required_signatures as int,
            signers@.map_values(|k: Keypair| signer_pubkey(k)),
        ),
        r is Ok ==> {
            &&& signers@.len() >= message.header.num_required_signatures
            &&& r->Ok_0.signatures@.len() == message.header.num_required_signatures
            &&& r->Ok_0.message.header == message.header
            &&& r->Ok_0.message.account_keys == message.account_keys
            &&& r->Ok_0.message.instructions == message.instructions
            &&& r->Ok_0.message.recent_blockhash == anchor
        },
{
    let mut tx = Transaction::new_unsigned(message);
    let keys: Vec<&Keypair> = signers.iter().collect();
    tx.try_sign(&keys, anchor).map(|()| tx)
}

} // verus!
