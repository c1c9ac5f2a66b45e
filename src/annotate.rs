//! The text that the hub broadcasts for each line that a connection sends.
use vstd::prelude::*;
use vstd::string::StringExecFns;

verus! {

/// The fixed banner that starts every broadcast line.
pub const BANNER: &'static str = "Kezia's Computer";

/// The text between the banner and the connection's address.
pub const FROM_SERVER: &'static str = " - From server ";

/// The text between the connection's address and the line it sent.
pub const SAYS: &'static str = " says: ";

/// `"<banner> - From server <addr> says: <text>"`.
pub open spec fn annotation(addr: Seq<char>, text: Seq<char>) -> Seq<char> {
    BANNER@ + FROM_SERVER@ + addr + SAYS@ + text
}

/// Builds the broadcast line for `text`, sent by the connection at `addr`.
pub fn annotate(addr: &str, text: &str) -> (r: String)
    ensures
        r@ == annotation(addr@, text@),
{
    let mut r = String::from_str(BANNER);
    r.append(FROM_SERVER);
    r.append(addr);
    r.append(SAYS);
    r.append(text);
    r
}

} // verus!
