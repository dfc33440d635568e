//! An on-chain program with a single entry point, `initialize`, which
//! greets the caller with the program's own address and always succeeds.
//!
//! The library decides what the entry point returns and what line it logs;
//! the runtime glue (account deserialisation, the log syscall) lives outside.
use anchor_lang::error::Error;
use anchor_lang::prelude::Pubkey;
use vstd::prelude::*;

verus! {

/// Declares anchor's error type, so that results can carry it.
#[verifier::external_type_specification]
#[verifier::external_body]
pub struct ExError(Error);

/// The accounts that `initialize` reads or writes: none.
pub struct Initialize {}

/// The base58 text of a 32-byte address, as the address type displays it.
pub uninterp spec fn base58_of(bytes: Seq<u8>) -> Seq<char>;

/// The words that open the greeting line.
pub open spec fn greeting_prefix() -> Seq<char> {
    "Greetings from: "@
}

/// The line that `initialize` logs for a program whose address has the
/// given bytes.
pub open spec fn greeting_text(program_id: Seq<u8>) -> Seq<char> {
    greeting_prefix() + base58_of(program_id)
}

/// Relies on anchor_lang's `Pubkey` (solana-address `Address`): its
/// `Display` writes the base58 encoding of the 32 bytes it was built from,
/// and depends on those bytes alone.
#[verifier::external_body]
fn address_text(bytes: &[u8; 32]) -> (r: String)
    ensures
        r@ == base58_of(bytes@),
{
    Pubkey::new_from_array(*bytes).to_string()
}

/// The greeting line for the program at the given address.
pub fn greeting(program_id: &[u8; 32]) -> (r: String)
    ensures
        r@ == greeting_text(program_id@),
{
    let text = address_text(program_id);
    let mut line = String::from_str("Greetings from: ");
    line.append(text.as_str());
    line
}

/// The entry point: it reads no account, changes nothing, and always
/// succeeds, handing back the line to log.
pub fn initialize(accounts: &Initialize, program_id: &[u8; 32]) -> (r: Result<String, Error>)
    ensures
        r matches Ok(line) && line@ == greeting_text(program_id@),
{
    let _ = accounts;
    Ok(greeting(program_id))
}

} // verus!
