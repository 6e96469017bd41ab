//! Links to the public transaction explorer.

use vstd::prelude::*;
use vstd::string::StringExecFns;

verus! {

/// The explorer address of the transaction with the given signature, as characters.
pub open spec fn explorer_url(signature: Seq<char>) -> Seq<char> {
    "https://explorer.solana.com/tx/"@ + signature + "?cluster=devnet"@
}

/// Builds the devnet explorer address for a transaction signature.
pub fn get_signature_explorer_url(signature: &str) -> (url: String)
    ensures
        url@ == explorer_url(signature@),
{
    let mut url = String::from_str("https://explorer.solana.com/tx/");
    url.append(signature);
    url.append("?cluster=devnet");
    url
}

} // verus!
