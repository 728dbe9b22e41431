use vstd::prelude::*;
use crate::address::{cookie_bytes, STUN_5389_MAGIC_NUMBER_U32};
use crate::bytes::{be16, from_be16, push_all, push_u16, read_u16};
use crate::error::{STUNError, STUNErrorType, STUNStep};
use crate::seal::{seal, Sealed};
use crate::trusted::random_transaction_id;

verus! {

/// Where the transaction ID starts in an encoded message.
pub const STUN_HEADER_TRANSACTION_ID_START_POSITION: usize = 8;

/// The size of the header, and where the body starts.
pub const STUN_HEADER_ENDING_POSITION: usize = 20;

/// The class of a message; its two bits sit at 0x0100 and 0x0010 of the type.
#[derive(Debug, Clone, Copy, PartialEq, Eq, Structural)]
pub enum STUNMessageClass {
    Request,
    Indication,
    ResponseSuccess,
    ResponseError,
}

/// The method of a message.
#[derive(Debug, Clone, Copy, PartialEq, Eq, Structural)]
pub enum STUNMessageMethod {
    Binding,
}

/// The bits a class sets in the message type.
pub open spec fn class_bits(c: STUNMessageClass) -> u16 {
    match c {
        STUNMessageClass::Request => 0x0000u16,
        STUNMessageClass::Indication => 0x0010u16,
        STUNMessageClass::ResponseSuccess => 0x0100u16,
        STUNMessageClass::ResponseError => 0x0110u16,
    }
}

/// The bits a method sets in the message type.
pub open spec fn method_bits(m: STUNMessageMethod) -> u16 {
    match m {
        STUNMessageMethod::Binding => 0x0001u16,
    }
}

/// The class that the class bits name, if any.
pub open spec fn class_from_bits(v: u16) -> Option<STUNMessageClass> {
    if v == 0x0000 {
        Some(STUNMessageClass::Request)
    } else if v == 0x0010 {
        Some(STUNMessageClass::Indication)
    } else if v == 0x0100 {
        Some(STUNMessageClass::ResponseSuccess)
    } else if v == 0x0110 {
        Some(STUNMessageClass::ResponseError)
    } else {
        None
    }
}

/// The method that the method bits name, if any.
pub open spec fn method_from_bits(v: u16) -> Option<STUNMessageMethod> {
    if v == 0x0001 {
        Some(STUNMessageMethod::Binding)
    } else {
        None
    }
}

/// The 16-bit message type: class bits and method bits together.
pub open spec fn message_type(c: STUNMessageClass, m: STUNMessageMethod) -> u16 {
    class_bits(c) | method_bits(m)
}

/// Big-endian bytes of a 32-bit value.
pub open spec fn be32(v: u32) -> Seq<u8> {
    seq![(v / 0x1000000) as u8, ((v / 0x10000) % 256) as u8, ((v / 256) % 256) as u8, (v % 256) as u8]
}

/// The fixed 20-byte header.
#[derive(Debug, Clone, Copy, PartialEq, Eq)]
pub struct STUNHeader {
    pub message_class: STUNMessageClass,
    pub message_method: STUNMessageMethod,
    pub message_length: u16,
    pub magic_number: u32,
    pub transaction_id: [u8; 12],
    pub _private: Sealed,
}

/// The encoded header.
pub open spec fn header_bytes(h: STUNHeader) -> Seq<u8> {
    be16(message_type(h.message_class, h.message_method)) + be16(h.message_length) + be32(h.magic_number)
        + h.transaction_id@
}

/// The error that decoding the header from `b` meets, if any.
pub open spec fn header_error(b: Seq<u8>) -> Option<STUNErrorType> {
    if b.len() < 20 {
        Some(STUNErrorType::WrongSizeError)
    } else if class_from_bits(from_be16(b[0], b[1]) & 0x0110u16) is None {
        Some(STUNErrorType::InvalidClassError)
    } else if method_from_bits(from_be16(b[0], b[1]) & 0x3EEFu16) is None {
        Some(STUNErrorType::InvalidMethodError)
    } else if b.subrange(4, 8) != cookie_bytes() {
        Some(STUNErrorType::MagicCookieMismatchError)
    } else {
        None
    }
}

/// The magic cookie's network-order bytes.
pub proof fn lemma_cookie_bytes()
    ensures
        be32(STUN_5389_MAGIC_NUMBER_U32) == cookie_bytes(),
{
    assert(be32(STUN_5389_MAGIC_NUMBER_U32) =~= cookie_bytes());
}

/// Appends the four big-endian bytes of `v`.
pub fn push_u32(out: &mut Vec<u8>, v: u32)
    ensures
        final(out)@ == old(out)@ + be32(v),
{
    out.push((v / 0x1000000) as u8);
    out.push(((v / 0x10000) % 256) as u8);
    out.push(((v / 256) % 256) as u8);
    out.push((v % 256) as u8);
    assert(final(out)@ =~= old(out)@ + be32(v));
}

impl STUNMessageClass {
    pub fn bits(&self) -> (r: u16)
        ensures
            r == class_bits(*self),
    {
        match self {
            STUNMessageClass::Request => 0x0000,
            STUNMessageClass::Indication => 0x0010,
            STUNMessageClass::ResponseSuccess => 0x0100,
            STUNMessageClass::ResponseError => 0x0110,
        }
    }

    pub fn from_bits(v: u16) -> (r: Option<STUNMessageClass>)
        ensures
            r == class_from_bits(v),
    {
        if v == 0x0000 {
            Some(STUNMessageClass::Request)
        } else if v == 0x0010 {
            Some(STUNMessageClass::Indication)
        } else if v == 0x0100 {
            Some(STUNMessageClass::ResponseSuccess)
        } else if v == 0x0110 {
            Some(STUNMessageClass::ResponseError)
        } else {
            None
        }
    }
}

impl STUNMessageMethod {
    pub fn bits(&self) -> (r: u16)
        ensures
            r == method_bits(*self),
    {
        match self {
            STUNMessageMethod::Binding => 0x0001,
        }
    }

    pub fn from_bits(v: u16) -> (r: Option<STUNMessageMethod>)
        ensures
            r == method_from_bits(v),
    {
        if v == 0x0001 {
            Some(STUNMessageMethod::Binding)
        } else {
            None
        }
    }
}

impl STUNHeader {
    /// A header with length 0 and the magic cookie; with no transaction ID
    /// given, twelve random bytes are drawn.
    pub fn new(class: STUNMessageClass, method: STUNMessageMethod, transaction_id: Option<[u8; 12]>) -> (r: Self)
        ensures
            r.message_class == class,
            r.message_method == method,
            r.message_length == 0,
            r.magic_number == STUN_5389_MAGIC_NUMBER_U32,
            transaction_id is Some ==> r.transaction_id == transaction_id->Some_0,
    {
        let tid: [u8; 12] = match transaction_id {
            Some(id) => id,
            None => random_transaction_id(),
        };
        STUNHeader {
            message_class: class,
            message_method: method,
            message_length: 0,
            magic_number: STUN_5389_MAGIC_NUMBER_U32,
            transaction_id: tid,
            _private: seal(),
        }
    }

    pub fn increment_message_length(&mut self, new_attribute_size: u16)
        requires
            old(self).message_length + new_attribute_size <= u16::MAX,
        ensures
            final(self).message_length == old(self).message_length + new_attribute_size,
            final(self).message_class == old(self).message_class,
            final(self).message_method == old(self).message_method,
            final(self).magic_number == old(self).magic_number,
            final(self).transaction_id == old(self).transaction_id,
    {
        self.message_length = self.message_length + new_attribute_size;
    }

    /// Appends the 20 bytes of the header, in network order.
    pub fn encode_header(&self, out: &mut Vec<u8>)
        ensures
            final(out)@ == old(out)@ + header_bytes(*self),
    {
        let message_type: u16 = self.message_class.bits() | self.message_method.bits();
        push_u16(out, message_type);
        push_u16(out, self.message_length);
        push_u32(out, self.magic_number);
        push_all(out, self.transaction_id.as_slice());
        assert(out@ =~= old(out)@ + header_bytes(*self));
    }

    /// Reads the header from the first 20 bytes of `b`.
    pub fn decode_header(b: &[u8]) -> (r: Result<STUNHeader, STUNError>)
        ensures
            r is Err <==> header_error(b@) is Some,
            r is Err ==> r->Err_0.error_type == header_error(b@)->Some_0,
            r is Ok ==> ({
                let h = r->Ok_0;
                let t = from_be16(b@[0], b@[1]);
                &&& h.message_class == class_from_bits(t & 0x0110u16)->Some_0
                &&& h.message_method == method_from_bits(t & 0x3EEFu16)->Some_0
                &&& h.message_length == from_be16(b@[2], b@[3])
                &&& h.magic_number == STUN_5389_MAGIC_NUMBER_U32
                &&& h.transaction_id@ == b@.subrange(8, 20)
            }),
    {
        if b.len() < 20 {
            return Err(STUNError::with_text(STUNStep::STUNDecode, STUNErrorType::WrongSizeError, "a header takes 20 bytes"));
        }
        let message_type = read_u16(b, 0);
        let message_class = match STUNMessageClass::from_bits(message_type & 0x0110) {
            Some(c) => c,
            None => {
                return Err(STUNError::with_text(STUNStep::STUNDecode, STUNErrorType::InvalidClassError, "invalid message class"));
            },
        };
        let message_method = match STUNMessageMethod::from_bits(message_type & 0x3EEF) {
            Some(m) => m,
            None => {
                return Err(STUNError::with_text(STUNStep::STUNDecode, STUNErrorType::InvalidMethodError, "invalid message method"));
            },
        };
        let length = read_u16(b, 2);
        if !(b[4] == 0x21 && b[5] == 0x12 && b[6] == 0xA4 && b[7] == 0x42) {
            assert(b@.subrange(4, 8) != cookie_bytes()) by {
                assert(b@.subrange(4, 8)[0] == b@[4]);
                assert(b@.subrange(4, 8)[1] == b@[5]);
                assert(b@.subrange(4, 8)[2] == b@[6]);
                assert(b@.subrange(4, 8)[3] == b@[7]);
            }
            return Err(STUNError::with_text(STUNStep::STUNDecode, STUNErrorType::MagicCookieMismatchError, "magic cookie mismatch"));
        }
        assert(b@.subrange(4, 8) =~= cookie_bytes());
        let mut tid: [u8; 12] = [0u8; 12];
        let mut i: usize = 0;
        while i < 12
            invariant
                0 <= i <= 12,
                b@.len() >= 20,
                forall|k: int| 0 <= k < i ==> tid@[k] == b@[8 + k],
            decreases 12 - i,
        {
            tid[i] = b[8 + i];
            i = i + 1;
        }
        assert(tid@ =~= b@.subrange(8, 20));
        let mut header = STUNHeader::new(message_class, message_method, Some(tid));
        header.increment_message_length(length);
        Ok(header)
    }
}

} // verus!
