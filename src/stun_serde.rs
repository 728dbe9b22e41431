use vstd::prelude::*;
use crate::attributes::AttrModel;
use crate::body::{body_entries, body_types_agree, body_values, decode_attrs, encode_body_bytes, STUNBody};
use crate::bytes::from_be16;
use crate::context::{opt_ctx_view, opt_owned_ctx_view, ContextModel, STUNContext};
use crate::error::{STUNError, STUNErrorType};
use crate::header::{class_from_bits, header_bytes, header_error, method_from_bits, STUNHeader};
use crate::address::STUN_5389_MAGIC_NUMBER_U32;
use crate::message::{decode_error, decoded_as, STUN};

verus! {

/// Encoding into a growing buffer that holds the message written so far.
pub trait STUNEncode {
    fn encode(&self, write_cursor: &mut Vec<u8>, encode_context: Option<&STUNContext>) -> Result<(), STUNError>;
}

/// Decoding from a buffer at a position that is moved past what was read.
pub trait STUNDecode: Sized {
    fn decode(bytes: &[u8], position: &mut usize, decode_context: &mut Option<STUNContext>) -> Result<Self, STUNError>;
}

impl STUNEncode for STUNHeader {
    /// Appends the 20 bytes of the header; it cannot fail.
    fn encode(&self, write_cursor: &mut Vec<u8>, encode_context: Option<&STUNContext>) -> (r: Result<(), STUNError>)
        ensures
            r is Ok,
            final(write_cursor)@ == old(write_cursor)@ + header_bytes(*self),
    {
        self.encode_header(write_cursor);
        Ok(())
    }
}

impl STUNEncode for STUNBody {
    /// Appends every attribute behind the header already in the buffer and
    /// sets the header's length field to the size of the body.
    fn encode(&self, write_cursor: &mut Vec<u8>, encode_context: Option<&STUNContext>) -> (r: Result<(), STUNError>)
        ensures
            match r {
                Ok(()) => encode_body_bytes(body_values(*self), opt_ctx_view(encode_context), old(write_cursor)@)
                    == Ok::<Seq<u8>, STUNErrorType>(final(write_cursor)@),
                Err(e) => encode_body_bytes(body_values(*self), opt_ctx_view(encode_context), old(write_cursor)@)
                    == Err::<Seq<u8>, STUNErrorType>(e.error_type),
            },
    {
        self.encode_body(write_cursor, encode_context)
    }
}

impl STUNEncode for STUN {
    /// Appends the header, then every attribute; the length field ends up
    /// holding the size of the body.
    fn encode(&self, write_cursor: &mut Vec<u8>, encode_context: Option<&STUNContext>) -> (r: Result<(), STUNError>)
        ensures
            match r {
                Ok(()) => encode_body_bytes(body_values(self.body), opt_ctx_view(encode_context), old(write_cursor)@ + header_bytes(self.header))
                    == Ok::<Seq<u8>, STUNErrorType>(final(write_cursor)@),
                Err(e) => encode_body_bytes(body_values(self.body), opt_ctx_view(encode_context), old(write_cursor)@ + header_bytes(self.header))
                    == Err::<Seq<u8>, STUNErrorType>(e.error_type),
            },
    {
        self.encode_message(write_cursor, encode_context)
    }
}

impl STUNDecode for STUNHeader {
    /// Reads the header from the first 20 bytes and moves the position to 20.
    fn decode(bytes: &[u8], position: &mut usize, decode_context: &mut Option<STUNContext>) -> (r: Result<Self, STUNError>)
        ensures
            r is Err <==> header_error(bytes@) is Some,
            r is Err ==> r->Err_0.error_type == header_error(bytes@)->Some_0 && *final(position) == *old(position),
            r is Ok ==> ({
                let h = r->Ok_0;
                let t = from_be16(bytes@[0], bytes@[1]);
                &&& h.message_class == class_from_bits(t & 0x0110u16)->Some_0
                &&& h.message_method == method_from_bits(t & 0x3EEFu16)->Some_0
                &&& h.message_length == from_be16(bytes@[2], bytes@[3])
                &&& h.magic_number == STUN_5389_MAGIC_NUMBER_U32
                &&& h.transaction_id@ == bytes@.subrange(8, 20)
                &&& *final(position) == 20
            }),
            *final(decode_context) == *old(decode_context),
    {
        let r = STUNHeader::decode_header(bytes);
        if r.is_ok() {
            *position = 20;
        }
        r
    }
}

impl STUNDecode for STUNBody {
    /// Decodes the attributes from the position to the end of the buffer,
    /// and moves the position to the end.
    fn decode(bytes: &[u8], position: &mut usize, decode_context: &mut Option<STUNContext>) -> (r: Result<Self, STUNError>)
        ensures
            match r {
                Ok(body) => decode_attrs(bytes@, *old(position) as int, opt_owned_ctx_view(*old(decode_context)))
                    == Ok::<(Seq<(AttrModel, u16)>, Option<ContextModel>), STUNErrorType>((body_entries(body), opt_owned_ctx_view(*final(decode_context))))
                    && body_types_agree(body)
                    && *final(position) == bytes@.len(),
                Err(e) => decode_attrs(bytes@, *old(position) as int, opt_owned_ctx_view(*old(decode_context)))
                    == Err::<(Seq<(AttrModel, u16)>, Option<ContextModel>), STUNErrorType>(e.error_type)
                    && *final(position) == *old(position),
            },
    {
        let r = STUNBody::decode_body(bytes, *position, decode_context);
        if r.is_ok() {
            *position = bytes.len();
        }
        r
    }
}

impl STUNDecode for STUN {
    /// Decodes a whole message, header and body, and moves the position to
    /// the end of the buffer.
    fn decode(bytes: &[u8], position: &mut usize, decode_context: &mut Option<STUNContext>) -> (r: Result<Self, STUNError>)
        ensures
            match r {
                Ok(m) => decoded_as(bytes@, opt_owned_ctx_view(*old(decode_context)), m, opt_owned_ctx_view(*final(decode_context)))
                    && *final(position) == bytes@.len(),
                Err(e) => decode_error(bytes@, opt_owned_ctx_view(*old(decode_context))) == Some(e.error_type)
                    && *final(position) == *old(position),
            },
    {
        let r = STUN::decode_message(bytes, decode_context);
        if r.is_ok() {
            *position = bytes.len();
        }
        r
    }
}

} // verus!
