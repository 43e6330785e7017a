//! How an artifact is moved to a host: compression and substituter use.
//! These options govern how the transfer happens, never whether it happens.

use vstd::prelude::*;

verus! {

/// Value object attached to a task at construction; immutable thereafter.
#[derive(Clone, Copy, Debug, PartialEq, Eq, Structural)]
pub struct TransferOptions {
    pub use_compression: bool,
    pub use_substitutes: bool,
}

impl Default for TransferOptions {
    /// Both compression and substituters are on unless switched off.
    fn default() -> (r: Self)
        ensures
            r.use_compression,
            r.use_substitutes,
    {
        TransferOptions { use_compression: true, use_substitutes: true }
    }
}

impl TransferOptions {
    pub fn gzip(self, enable: bool) -> (r: Self)
        ensures
            r == (TransferOptions { use_compression: enable, ..self }),
    {
        TransferOptions { use_compression: enable, ..self }
    }

    pub fn use_substitutes(self, enable: bool) -> (r: Self)
        ensures
            r == (TransferOptions { use_substitutes: enable, ..self }),
    {
        TransferOptions { use_substitutes: enable, ..self }
    }

    /// The options selected by the two command-line switches, each of which
    /// turns one default off.
    pub fn from_flags(no_gzip: bool, no_substitutes: bool) -> (r: Self)
        ensures
            r.use_compression == !no_gzip,
            r.use_substitutes == !no_substitutes,
    {
        TransferOptions { use_compression: !no_gzip, use_substitutes: !no_substitutes }
    }
}

} // verus!
