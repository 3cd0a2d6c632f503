//! TPM return codes.

use vstd::prelude::*;

use crate::hex::{hex_u32, spec_hex_u32};

verus! {

/// An error code returned by a TPM method.
#[derive(Debug)]
pub struct TpmError {
    return_code: u32,
}

impl TpmError {
    /// The raw return code; an error's code is never zero.
    pub closed spec fn spec_return_code(self) -> u32 {
        self.return_code
    }

    /// A TPM error only exists for a failing, that is non-zero, return
    /// code.
    pub open spec fn wf(self) -> bool {
        self.spec_return_code() != 0
    }

    /// Creates a TpmError for the given return code, or None if this is a
    /// successful code.
    pub fn from_tpm_return_code(return_code: u32) -> (r: Option<TpmError>)
        ensures
            return_code == 0 <==> r is None,
            r matches Some(e) ==> e.spec_return_code() == return_code && e.wf(),
    {
        if return_code == 0 {
            None
        } else {
            Some(TpmError { return_code })
        }
    }

    /// The raw return code.
    pub fn return_code(self) -> (r: u32)
        ensures
            r == self.spec_return_code(),
    {
        self.return_code
    }

    /// Renders the return code for diagnostics: `0x` and the minimal hex
    /// digits.
    pub fn to_display_string(&self) -> (r: String)
        ensures
            r@ == seq!['0', 'x'] + spec_hex_u32(self.spec_return_code()),
    {
        let mut out = String::from_str("0x");
        proof {
            reveal_strlit("0x");
            assert("0x"@ =~= seq!['0', 'x']);
        }
        let digits = hex_u32(self.return_code);
        out.append(digits.as_str());
        out
    }
}

} // verus!
