use vstd::prelude::*;

verus! {

/// The three ways a channel operation can fail.
#[derive(Clone, Copy, Debug, PartialEq, Eq, Structural)]
pub enum ErrorCode {
    /// A party's declared contribution exceeds its available funds, or the
    /// owner's escrow cannot cover a settlement payout.
    NotEnoughLamports,
    /// A proposed reallocation would change the total recorded balance.
    InvalidBalances,
    /// A required signer is not one of the channel's two registered parties.
    InvalidSigner,
}

impl ErrorCode {
    /// The human-readable message attached to this error kind.
    pub open spec fn message_spec(self) -> Seq<char> {
        match self {
            ErrorCode::NotEnoughLamports => "Not enough lamports in wallet"@,
            ErrorCode::InvalidBalances => {
                "previous contribution sum doesnot match with new contribution sum"@
            },
            ErrorCode::InvalidSigner => "Not a valid signer"@,
        }
    }

    /// The human-readable message attached to this error kind.
    pub fn message(&self) -> (r: &'static str)
        ensures
            r@ == self.message_spec(),
    {
        match self {
            ErrorCode::NotEnoughLamports => "Not enough lamports in wallet",
            ErrorCode::InvalidBalances => {
                "previous contribution sum doesnot match with new contribution sum"
            },
            ErrorCode::InvalidSigner => "Not a valid signer",
        }
    }
}

} // verus!
