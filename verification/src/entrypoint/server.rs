use vstd::prelude::*;
use vstd::string::StringExecFns;

verus! {

/// The address to listen on, given the port that was configured, if any: the
/// local host, at that port or else at 8090.
pub open spec fn listen_address_of(port: Option<Seq<char>>) -> Seq<char> {
    "127.0.0.1:"@ + (match port {
        Some(port) => port,
        None => "8090"@,
    })
}

/// The address to listen on, given the port that was configured, if any.
pub fn listen_address(port: Option<String>) -> (address: String)
    ensures
        address@ == listen_address_of(
            match port {
                Some(port) => Some(port@),
                None => None,
            },
        ),
{
    let port = match port {
        Some(port) => port,
        None => "8090".to_owned(),
    };
    "127.0.0.1:".to_owned().concat(port.as_str())
}

} // verus!
