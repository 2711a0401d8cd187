//! Rules for creating a strategy.
use vstd::prelude::*;
use vstd::string::*;

verus! {

/// The message a strategy creation is refused with when its symbol is not a known one.
pub open spec fn unknown_symbol_message(symbol: Seq<char>) -> Seq<char> {
    "Could not create strategy - Symbol '"@ + symbol + "' does not exist"@
}

/// A strategy may only be created for a symbol that exists; otherwise creation is refused
/// with a message naming the symbol.
pub fn check_symbol_exists(symbol: &str, symbol_exists: bool) -> (r: Result<(), String>)
    ensures
        symbol_exists <==> r is Ok,
        !symbol_exists ==> r->Err_0@ == unknown_symbol_message(symbol@),
{
    if symbol_exists {
        Ok(())
    } else {
        let mut msg = String::from_str("Could not create strategy - Symbol '");
        msg.append(symbol);
        msg.append("' does not exist");
        Err(msg)
    }
}

} // verus!
