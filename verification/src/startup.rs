//! What process startup computes: the fixed listen address and the line
//! announced on standard output once the listener is bound. Binding itself,
//! and the fatal abort when it fails, belong to the embedding program.

use vstd::prelude::*;
use vstd::string::StringExecFns;

verus! {

/// The fixed local address both services bind to.
pub open spec fn bind_addr_spec() -> Seq<char> {
    "127.0.0.1:3000"@
}

/// The address the embedding program hands to its listener.
pub fn bind_addr() -> (a: &'static str)
    ensures
        a@ == bind_addr_spec(),
{
    "127.0.0.1:3000"
}

/// The line announced on standard output after a successful bind: the scheme
/// prefix followed by the bind address.
pub fn listen_message() -> (m: String)
    ensures
        m@ == "Listening on http://"@ + bind_addr_spec(),
{
    let prefix: String = "Listening on http://".to_owned();
    prefix.concat(bind_addr())
}

/// The announced line, character for character.
pub proof fn lemma_listen_message_literal()
    ensures
        "Listening on http://"@ + bind_addr_spec() =~= "Listening on http://127.0.0.1:3000"@,
{
    reveal_strlit("Listening on http://");
    reveal_strlit("127.0.0.1:3000");
    reveal_strlit("Listening on http://127.0.0.1:3000");
}

} // verus!
