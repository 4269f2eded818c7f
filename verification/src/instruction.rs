//! The `initialize` instruction and the context it runs in.

use vstd::prelude::*;
use vstd::string::StringExecFns;
use crate::anchor::{address_debug_text, debug_text};

verus! {

/// The accounts that `initialize` takes: none.
#[derive(Clone, Copy, Debug, PartialEq, Eq)]
pub struct Initialize {}

/// What an instruction is handed besides its arguments: the address of the
/// program that is running, and the accounts the instruction declared.
#[derive(Debug, PartialEq, Eq)]
pub struct Context<T> {
    /// Address of the program that is running.
    pub program_id: [u8; 32],
    /// The instruction's accounts.
    pub accounts: T,
}

/// The log line that greets from the program whose address reads `id_text`.
pub open spec fn greeting_line(id_text: Seq<char>) -> Seq<char> {
    "Greetings from: "@ + id_text
}

/// Builds the greeting from the program whose address reads `id_text`.
pub fn greeting(id_text: &str) -> (line: String)
    ensures
        line@ == greeting_line(id_text@),
{
    String::from_str("Greetings from: ").concat(id_text)
}

/// Runs the instruction: appends to `log` the greeting from the running
/// program, and succeeds.
///
/// It succeeds in whatever context it runs, and leaves the context, with
/// its accounts, as it found it. The log keeps its earlier lines and gains
/// exactly one, the greeting.
pub fn initialize(
    ctx: &mut Context<Initialize>,
    log: &mut Vec<String>,
) -> (res: Result<(), anchor_lang::error::Error>)
    ensures
        res is Ok,
        *final(ctx) == *old(ctx),
        final(log)@.len() == old(log)@.len() + 1,
        final(log)@.drop_last() == old(log)@,
        final(log)@.last()@ == greeting_line(debug_text(old(ctx).program_id@)),
{
    let id_text = address_debug_text(&ctx.program_id);
    let line = greeting(id_text.as_str());
    log.push(line);
    Ok(())
}

} // verus!
