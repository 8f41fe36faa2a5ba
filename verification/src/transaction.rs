//! Signed legacy Solana transactions, built and serialized by the Solana
//! crates. A signed transaction records, as ghost state only this module's
//! constructor sets, the instructions, key and blockhash it was made from.

use solana_keypair::{Address, Keypair};
use solana_sdk::instruction::{AccountMeta, Instruction};
use solana_sdk::transaction::Transaction;
use crate::utils::keypair_manager::ed25519_public_key;
use vstd::prelude::*;

verus! {

/// A signed legacy Solana transaction.
#[verifier::external_type_specification]
#[verifier::external_body]
pub struct ExTransaction(Transaction);

/// An account an instruction names, as plain values.
#[derive(Clone, Copy, Debug)]
pub struct AccountMetaModel {
    pub pubkey: [u8; 32],
    pub is_signer: bool,
    pub is_writable: bool,
}

/// An instruction, as plain values.
#[derive(Debug)]
pub struct InstructionModel {
    pub program_id: [u8; 32],
    pub accounts: Vec<AccountMetaModel>,
    pub data: Vec<u8>,
}

pub struct AccountMetaView {
    pub pubkey: Seq<u8>,
    pub is_signer: bool,
    pub is_writable: bool,
}

pub struct InstructionView {
    pub program_id: Seq<u8>,
    pub accounts: Seq<AccountMetaView>,
    pub data: Seq<u8>,
}

impl View for AccountMetaModel {
    type V = AccountMetaView;

    open spec fn view(&self) -> AccountMetaView {
        AccountMetaView { pubkey: self.pubkey@, is_signer: self.is_signer, is_writable: self.is_writable }
    }
}

impl View for InstructionModel {
    type V = InstructionView;

    open spec fn view(&self) -> InstructionView {
        InstructionView {
            program_id: self.program_id@,
            accounts: self.accounts@.map_values(|a: AccountMetaModel| a@),
            data: self.data@,
        }
    }
}

/// The views of a sequence of instructions.
pub open spec fn instructions_view(ixs: Seq<InstructionModel>) -> Seq<InstructionView> {
    ixs.map_values(|ix: InstructionModel| ix@)
}

/// The bytes that `bincode::serialize` makes of the transaction that
/// `Transaction::new_signed_with_payer` builds from these instructions, paid
/// and signed by the key, on this recent blockhash.
pub uninterp spec fn transaction_wire(instructions: Seq<InstructionView>, payer_secret: Seq<u8>, recent_blockhash: Seq<u8>) -> Seq<u8>;

/// The payer is the only account the instructions ask a signature of.
pub open spec fn only_payer_signs(instructions: Seq<InstructionView>, payer: Seq<u8>) -> bool {
    forall|i: int, j: int|
        0 <= i < instructions.len() && 0 <= j < instructions[i].accounts.len()
            && #[trigger] instructions[i].accounts[j].is_signer ==> instructions[i].accounts[j].pubkey == payer
}

/// A message small enough that compiling it cannot overflow its one-byte
/// account indexes (at most four instructions of at most two accounts each,
/// so at most thirteen keys with the payer and program ids) and that every
/// length it serializes fits the two-byte compact length prefix.
pub open spec fn small_message(instructions: Seq<InstructionView>) -> bool {
    &&& instructions.len() <= 4
    &&& forall|i: int|
        0 <= i < instructions.len() ==> {
            &&& (#[trigger] instructions[i]).accounts.len() <= 2
            &&& instructions[i].data.len() <= u16::MAX
        }
}

/// A transaction signed by one key, with what it was built from.
pub struct SignedTransaction {
    tx: Transaction,
    instructions: Ghost<Seq<InstructionView>>,
    payer_secret: Ghost<Seq<u8>>,
    recent_blockhash: Ghost<Seq<u8>>,
}

impl SignedTransaction {
    /// The instructions the transaction was built from.
    pub closed spec fn instructions(&self) -> Seq<InstructionView> {
        self.instructions@
    }

    /// The secret key of the payer that signed it.
    pub closed spec fn payer_secret(&self) -> Seq<u8> {
        self.payer_secret@
    }

    /// The recent blockhash it was built on.
    pub closed spec fn recent_blockhash(&self) -> Seq<u8> {
        self.recent_blockhash@
    }
}

/// Trusted: `Transaction::new_signed_with_payer` with the payer's key as the
/// only signer. It does not panic here: the payer is the only account that
/// must sign and its key matches the secret, so signing succeeds; the message
/// is small, so compiling its keys cannot overflow and serializing it for
/// signing cannot fail.
#[verifier::external_body]
pub fn sign_transaction(instructions: &Vec<InstructionModel>, payer: &[u8; 32], payer_secret: &[u8; 32], recent_blockhash: &[u8; 32]) -> (tx: SignedTransaction)
    requires
        payer@ == ed25519_public_key(payer_secret@),
        only_payer_signs(instructions_view(instructions@), payer@),
        small_message(instructions_view(instructions@)),
    ensures
        tx.instructions() == instructions_view(instructions@),
        tx.payer_secret() == payer_secret@,
        tx.recent_blockhash() == recent_blockhash@,
{
    let ixs: Vec<Instruction> = instructions.iter().map(|ix| Instruction {
        program_id: Address::from(ix.program_id),
        accounts: ix.accounts.iter().map(|a| AccountMeta { pubkey: Address::from(a.pubkey), is_signer: a.is_signer, is_writable: a.is_writable }).collect(),
        data: ix.data.clone(),
    }).collect();
    let keypair = Keypair::new_from_array(*payer_secret);
    let tx = Transaction::new_signed_with_payer(&ixs, Some(&Address::from(*payer)), &[&keypair], solana_sdk::hash::Hash::from(*recent_blockhash));
    SignedTransaction { tx, instructions: Ghost(instructions_view(instructions@)), payer_secret: Ghost(payer_secret@), recent_blockhash: Ghost(recent_blockhash@) }
}

/// Trusted: `bincode::serialize` of the transaction (fixed-width integers,
/// no size limit). Its only failure is a compact length above `u16::MAX`,
/// which a small message cannot reach, so it succeeds with the bytes of the
/// transaction built as recorded.
#[verifier::external_body]
pub fn serialize_transaction(tx: &SignedTransaction) -> (r: Result<Vec<u8>, String>)
    requires
        small_message(tx.instructions()),
    ensures
        r is Ok,
        r matches Ok(bytes) ==> bytes@ == transaction_wire(tx.instructions(), tx.payer_secret(), tx.recent_blockhash()),
{
    match bincode::serialize(&tx.tx) {
        Ok(bytes) => Ok(bytes),
        Err(e) => Err(e.to_string()),
    }
}

} // verus!
