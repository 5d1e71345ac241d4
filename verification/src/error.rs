use vstd::prelude::*;

verus! {

/// Why the relay rejected a call. A rejected call changes nothing.
#[derive(Clone, Copy, Debug, PartialEq, Eq, Structural)]
pub enum WhisperError {
    /// The key is not valid base64, or does not decode to 32 bytes.
    MalformedKey,
    /// The attached value is below the storage deposit.
    InsufficientDeposit,
    /// The recipient has no registered profile.
    UnknownRecipient,
    /// No group with that identifier exists.
    UnknownGroup,
    /// A group with that identifier exists already.
    DuplicateGroup,
    /// A payment message carried no value.
    NoPayment,
    /// The instance holds a state already.
    AlreadyInitialized,
}

/// The words for each rejection.
pub open spec fn message_of(error: WhisperError) -> Seq<char> {
    match error {
        WhisperError::MalformedKey => "X25519 pubkey must be base64 of 32 bytes"@,
        WhisperError::InsufficientDeposit => "Attach at least 0.01 NEAR for storage deposit"@,
        WhisperError::UnknownRecipient => "Recipient has no registered messaging key"@,
        WhisperError::UnknownGroup => "Group does not exist"@,
        WhisperError::DuplicateGroup => "Group ID already exists"@,
        WhisperError::NoPayment => "Must attach NEAR tokens for payment message"@,
        WhisperError::AlreadyInitialized => "The contract has already been initialized"@,
    }
}

impl WhisperError {
    /// The rejection in words, for the caller to read.
    pub fn message(&self) -> (r: &'static str)
        ensures
            r@ == message_of(*self),
    {
        match self {
            WhisperError::MalformedKey => "X25519 pubkey must be base64 of 32 bytes",
            WhisperError::InsufficientDeposit => "Attach at least 0.01 NEAR for storage deposit",
            WhisperError::UnknownRecipient => "Recipient has no registered messaging key",
            WhisperError::UnknownGroup => "Group does not exist",
            WhisperError::DuplicateGroup => "Group ID already exists",
            WhisperError::NoPayment => "Must attach NEAR tokens for payment message",
            WhisperError::AlreadyInitialized => "The contract has already been initialized",
        }
    }
}

} // verus!
