use vstd::prelude::*;

verus! {

/// The stage of processing at which an error arose.
#[derive(Debug, Clone, Copy, PartialEq, Eq, Structural)]
pub enum STUNStep {
    STUNEncode,
    STUNDecode,
    STUNUtils,
    STUNNetwork,
}

/// What went wrong.
#[derive(Debug, Clone, Copy, PartialEq, Eq, Structural)]
pub enum STUNErrorType {
    ReadError,
    WriteError,
    MagicCookieMismatchError,
    WrongSizeError,
    InvalidClassError,
    InvalidMethodError,
    AttributeTypeMismatch,
    AttributeStructureMismatch,
    InternalError,
    InvalidOrUnsupportedAttribute,
    XORObsfucationError,
    UTF8DecodeError,
    RequiredContextMissingError,
    SASLPrepError,
    InvalidMessageBinLength,
    MessageIntegrityMismatch,
    ErrorSendingMessageToServer,
    ErrorReceivingFromServer,
    NetworkTimeoutError,
    ErrorSettingNetworkTimeout,
    DidNotFindExpectedAttribute,
    UnsupportedNATType,
}

/// A tagged error: the step, the kind and a human readable message.
#[derive(Debug, Clone)]
pub struct STUNError {
    pub step: STUNStep,
    pub error_type: STUNErrorType,
    pub message: String,
}

impl STUNError {
    pub fn new(step: STUNStep, err_type: STUNErrorType, message: String) -> (r: Self)
        ensures
            r.step == step,
            r.error_type == err_type,
            r.message@ == message@,
    {
        STUNError { step, error_type: err_type, message }
    }

    /// Builds an error whose message is a string literal.
    pub fn with_text(step: STUNStep, err_type: STUNErrorType, text: &str) -> (r: Self)
        ensures
            r.step == step,
            r.error_type == err_type,
            r.message@ == text@,
    {
        STUNError { step, error_type: err_type, message: text.to_owned() }
    }

    pub fn get_stun_error_step(s: Self) -> (r: STUNStep)
        ensures
            r == s.step,
    {
        s.step
    }

    pub fn set_stun_error_step(&mut self, step: STUNStep)
        ensures
            final(self).step == step,
            final(self).error_type == old(self).error_type,
            final(self).message == old(self).message,
    {
        self.step = step;
    }

    /// Takes the message out of the error.
    pub fn set_stun_error_message(s: Self) -> (r: String)
        ensures
            r@ == s.message@,
    {
        s.message
    }

    /// Replaces the message of the error.
    pub fn get_stun_error_message(&mut self, message: String)
        ensures
            final(self).message == message,
            final(self).step == old(self).step,
            final(self).error_type == old(self).error_type,
    {
        self.message = message;
    }

    /// Takes the kind out of the error.
    pub fn set_stun_error_type(s: Self) -> (r: STUNErrorType)
        ensures
            r == s.error_type,
    {
        s.error_type
    }

    /// Replaces the kind of the error.
    pub fn get_stun_error_type(&mut self, error_type: STUNErrorType)
        ensures
            final(self).error_type == error_type,
            final(self).step == old(self).step,
            final(self).message == old(self).message,
    {
        self.error_type = error_type;
    }
}

} // verus!
