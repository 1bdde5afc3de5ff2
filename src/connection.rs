//! Choice of transport for a connection descriptor.
use vstd::prelude::*;
use crate::text::{contains_text, has_infix};

verus! {

/// How a connection is to be opened.
#[derive(Debug, Clone, Copy, PartialEq, Eq, Structural)]
pub enum Transport {
    /// Through a TLS connector with default trust settings.
    Tls,
    /// Without transport encryption.
    NoTls,
}

/// The descriptor asks for an encrypted connection: one of the TLS modes occurs
/// anywhere in it as text, whatever surrounds it.
pub open spec fn asks_for_tls(descriptor: Seq<char>) -> bool {
    has_infix(descriptor, "sslmode=require"@) || has_infix(descriptor, "sslmode=verify-ca"@)
        || has_infix(descriptor, "sslmode=verify-full"@)
}

/// Picks TLS exactly when the descriptor names one of the TLS modes
/// (`sslmode=require`, `sslmode=verify-ca`, `sslmode=verify-full`) anywhere in its text.
pub fn transport_for(connection_string: &str) -> (r: Transport)
    ensures
        r == (if asks_for_tls(connection_string@) {
            Transport::Tls
        } else {
            Transport::NoTls
        }),
{
    if contains_text(connection_string, "sslmode=require") || contains_text(
        connection_string,
        "sslmode=verify-ca",
    ) || contains_text(connection_string, "sslmode=verify-full") {
        Transport::Tls
    } else {
        Transport::NoTls
    }
}

} // verus!
