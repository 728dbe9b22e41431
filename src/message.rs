use vstd::prelude::*;
use crate::attributes::AttrModel;
use crate::body::{body_entries, body_types_agree, body_values, decode_attrs, encode_body_bytes, STUNBody};
use crate::bytes::from_be16;
use crate::context::{opt_ctx_view, opt_owned_ctx_view, ContextModel, STUNContext};
use crate::error::{STUNError, STUNErrorType};
use crate::header::{
    class_from_bits, header_bytes, header_error, method_from_bits, STUNHeader, STUNMessageClass,
    STUNMessageMethod,
};
use crate::address::STUN_5389_MAGIC_NUMBER_U32;
use crate::seal::{seal, Sealed};

verus! {

/// A STUN message: a header and a body.
#[derive(Debug, Clone)]
pub struct STUN {
    pub header: STUNHeader,
    pub body: STUNBody,
    pub _private: Sealed,
}

/// Whether `m` is what decoding the bytes `b` gives, with `c` as the
/// context before and `c2` after.
pub open spec fn decoded_as(b: Seq<u8>, c: Option<ContextModel>, m: STUN, c2: Option<ContextModel>) -> bool {
    let t = from_be16(b[0], b[1]);
    &&& header_error(b) is None
    &&& m.header.message_class == class_from_bits(t & 0x0110u16)->Some_0
    &&& m.header.message_method == method_from_bits(t & 0x3EEFu16)->Some_0
    &&& m.header.message_length == from_be16(b[2], b[3])
    &&& m.header.magic_number == STUN_5389_MAGIC_NUMBER_U32
    &&& m.header.transaction_id@ == b.subrange(8, 20)
    &&& decode_attrs(b, 20, c) == Ok::<(Seq<(AttrModel, u16)>, Option<ContextModel>), STUNErrorType>((body_entries(m.body), c2))
    &&& body_types_agree(m.body)
}

/// The error decoding the bytes `b` meets, if any.
pub open spec fn decode_error(b: Seq<u8>, c: Option<ContextModel>) -> Option<STUNErrorType> {
    match header_error(b) {
        Some(e) => Some(e),
        None => match decode_attrs(b, 20, c) {
            Err(e) => Some(e),
            Ok(_) => None,
        },
    }
}

impl STUN {
    pub fn new(header: STUNHeader, body: STUNBody) -> (r: Self)
        ensures
            r.header == header,
            r.body == body,
    {
        STUN { header, body, _private: seal() }
    }

    /// A message with an empty body; with no transaction ID given, a random
    /// one is drawn.
    pub fn new_default(msg_class: STUNMessageClass, msg_method: STUNMessageMethod, transaction_id: Option<[u8; 12]>) -> (r: Self)
        ensures
            r.header.message_class == msg_class,
            r.header.message_method == msg_method,
            r.header.message_length == 0,
            r.header.magic_number == STUN_5389_MAGIC_NUMBER_U32,
            transaction_id is Some ==> r.header.transaction_id == transaction_id->Some_0,
            r.body.attributes@.len() == 0,
    {
        STUN { header: STUNHeader::new(msg_class, msg_method, transaction_id), body: STUNBody::new(), _private: seal() }
    }

    /// Appends the header, then every attribute; the length field ends up
    /// holding the size of the body.
    pub fn encode_message(&self, write_cursor: &mut Vec<u8>, encode_context: Option<&STUNContext>) -> (r: Result<(), STUNError>)
        ensures
            match r {
                Ok(()) => encode_body_bytes(body_values(self.body), opt_ctx_view(encode_context), old(write_cursor)@ + header_bytes(self.header))
                    == Ok::<Seq<u8>, STUNErrorType>(final(write_cursor)@),
                Err(e) => encode_body_bytes(body_values(self.body), opt_ctx_view(encode_context), old(write_cursor)@ + header_bytes(self.header))
                    == Err::<Seq<u8>, STUNErrorType>(e.error_type),
            },
    {
        self.header.encode_header(write_cursor);
        self.body.encode_body(write_cursor, encode_context)
    }

    /// Decodes a whole message: the header from the first 20 bytes, the body
    /// from the rest.
    pub fn decode_message(b: &[u8], decode_context: &mut Option<STUNContext>) -> (r: Result<STUN, STUNError>)
        ensures
            match r {
                Ok(m) => decoded_as(b@, opt_owned_ctx_view(*old(decode_context)), m, opt_owned_ctx_view(*final(decode_context))),
                Err(e) => decode_error(b@, opt_owned_ctx_view(*old(decode_context))) == Some(e.error_type),
            },
    {
        let header = match STUNHeader::decode_header(b) {
            Ok(h) => h,
            Err(e) => return Err(e),
        };
        let body = match STUNBody::decode_body(b, 20, decode_context) {
            Ok(body) => body,
            Err(e) => return Err(e),
        };
        Ok(STUN::new(header, body))
    }
}

} // verus!
