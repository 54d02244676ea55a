use vstd::prelude::*;

verus! {

/// Failures of the binding layer.
#[derive(Clone, Copy, Debug, PartialEq, Eq)]
pub enum SctpError {
    /// A kernel call failed; the value is the OS error code, as reported.
    Os(i32),
    /// An address record carries a family tag that is neither IPv4 nor IPv6.
    UnsupportedAddressFamily(u16),
    /// A record ends before one of its fixed-size fields.
    Truncated,
}

} // verus!
