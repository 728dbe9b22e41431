use vstd::prelude::*;
use crate::address::{parse_addr, xor_model};
use crate::attributes::{
    attr_tag, attr_type_from_tag, ctx_realm, fill_nonce, fill_realm, fill_username, integrity_of, model_type,
    read_prepped, read_software, read_text, tid_of, value_bytes, AttrModel, STUNAttributeType, STUNAttributesContent,
    STUNAuthType,
};
use crate::bytes::{
    be16, copy_range, from_be16, padded_len, padded_len_u32, push_all, push_u16, push_zeros, read_u16,
    same_bytes, set_len_field, with_len, zeros,
};
use crate::context::{opt_ctx_view, opt_owned_ctx_view, ContextModel, STUNContext};
use crate::error::{STUNError, STUNErrorType, STUNStep};
use crate::seal::{seal, Sealed};

verus! {

/// One attribute of a body: its type, its value and, after decoding, the
/// unpadded length it had on the wire.
#[derive(Debug, Clone)]
pub struct STUNAttributes {
    pub length: u16,
    pub attribute_type: STUNAttributeType,
    pub value: STUNAttributesContent,
    pub _private: Sealed,
}

/// The attributes of a message, in the order they go on the wire.
#[derive(Debug, Clone)]
pub struct STUNBody {
    pub attributes: Vec<STUNAttributes>,
}

/// The values of a body's attributes.
pub open spec fn body_values(b: STUNBody) -> Seq<AttrModel> {
    b.attributes@.map_values(|a: STUNAttributes| a.value@)
}

/// The values of a body's attributes, each with its wire length.
pub open spec fn body_entries(b: STUNBody) -> Seq<(AttrModel, u16)> {
    b.attributes@.map_values(|a: STUNAttributes| (a.value@, a.length))
}

/// Every attribute's type is the type of its value.
pub open spec fn body_types_agree(b: STUNBody) -> bool {
    forall|i: int| 0 <= i < b.attributes@.len() ==> #[trigger] b.attributes@[i].attribute_type == model_type(b.attributes@[i].value@)
}

/// A type-length-value record: the value's unpadded length, the value, and
/// zero bytes up to a multiple of four.
pub open spec fn tlv(tag: u16, v: Seq<u8>) -> Seq<u8> {
    be16(tag) + be16(v.len() as u16) + v + zeros((padded_len(v.len()) - v.len()) as nat)
}

/// The buffer after one attribute is encoded behind `buf`: the record is
/// appended and the header's length field set to the body's new size.
pub open spec fn encode_one(a: AttrModel, c: Option<ContextModel>, buf: Seq<u8>) -> Result<Seq<u8>, STUNErrorType> {
    match value_bytes(a, c, buf) {
        Err(e) => Err(e),
        Ok(v) => {
            if buf.len() < 20 {
                Err(STUNErrorType::InvalidMessageBinLength)
            } else if buf.len() - 20 + 4 + padded_len(v.len()) > 0xFFFF {
                Err(STUNErrorType::WriteError)
            } else {
                let nb = buf + tlv(attr_tag(model_type(a)), v);
                Ok(with_len(nb, (nb.len() - 20) as u16))
            }
        },
    }
}

/// The buffer after the attributes are encoded in order behind `buf`.
pub open spec fn encode_attrs(attrs: Seq<AttrModel>, c: Option<ContextModel>, buf: Seq<u8>) -> Result<Seq<u8>, STUNErrorType>
    decreases attrs.len(),
{
    if attrs.len() == 0 {
        Ok(buf)
    } else {
        match encode_one(attrs[0], c, buf) {
            Ok(nb) => encode_attrs(attrs.drop_first(), c, nb),
            Err(e) => Err(e),
        }
    }
}

/// The buffer with its length field set to the size of what follows the
/// header.
pub open spec fn finish_len(b: Seq<u8>) -> Result<Seq<u8>, STUNErrorType> {
    if b.len() < 20 {
        Err(STUNErrorType::InvalidMessageBinLength)
    } else if b.len() - 20 > 0xFFFF {
        Err(STUNErrorType::WriteError)
    } else {
        Ok(with_len(b, (b.len() - 20) as u16))
    }
}

/// The buffer after a whole body is encoded behind `buf`: every attribute in
/// order, then the length field set to the body's size, an empty body
/// included.
pub open spec fn encode_body_bytes(attrs: Seq<AttrModel>, c: Option<ContextModel>, buf: Seq<u8>) -> Result<Seq<u8>, STUNErrorType> {
    match encode_attrs(attrs, c, buf) {
        Ok(b) => finish_len(b),
        Err(e) => Err(e),
    }
}

/// The mode a received MESSAGE-INTEGRITY is checked in: long-term where the
/// context knows a realm.
pub open spec fn integrity_mode(c: Option<ContextModel>) -> STUNAuthType {
    if ctx_realm(c) is Some {
        STUNAuthType::LongTerm
    } else {
        STUNAuthType::ShortTerm
    }
}

/// The tag of the record at `pos`.
pub open spec fn tag_at(b: Seq<u8>, pos: int) -> u16 {
    from_be16(b[pos], b[pos + 1])
}

/// The unpadded length of the record at `pos`.
pub open spec fn len_at(b: Seq<u8>, pos: int) -> u16 {
    from_be16(b[pos + 2], b[pos + 3])
}

/// What the MESSAGE-INTEGRITY record at `pos` decodes to: its HMAC must be
/// the one the context's credentials give for the message before it, with
/// the length field counting the record.
pub open spec fn check_integrity(b: Seq<u8>, pos: int, c: Option<ContextModel>) -> Result<AttrModel, STUNErrorType> {
    let v = pos + 4;
    if v + 20 > b.len() {
        Err(STUNErrorType::ReadError)
    } else if pos < 20 || pos - 20 + 24 > 0xFFFF {
        Err(STUNErrorType::InvalidMessageBinLength)
    } else if c is None {
        Err(STUNErrorType::MessageIntegrityMismatch)
    } else {
        let mode = integrity_mode(c);
        match integrity_of(mode, c, with_len(b.subrange(0, pos), (pos - 20 + 24) as u16)) {
            Ok(h) => if h == b.subrange(v, v + 20) {
                Ok(AttrModel::MessageIntegrity(mode))
            } else {
                Err(STUNErrorType::MessageIntegrityMismatch)
            },
            Err(_) => Err(STUNErrorType::MessageIntegrityMismatch),
        }
    }
}

/// What the record at `pos` decodes to (`None` for a type that is skipped),
/// with the context after it. An unknown type below 0x8000 must be
/// understood, so it fails the message.
pub open spec fn decode_step(b: Seq<u8>, pos: int, c: Option<ContextModel>) -> Result<(Option<AttrModel>, Option<ContextModel>), STUNErrorType> {
    let len = len_at(b, pos);
    let v = pos + 4;
    match attr_type_from_tag(tag_at(b, pos)) {
        Some(STUNAttributeType::MappedAddress) => match parse_addr(b, v, true) {
            Ok(m) => Ok((Some(AttrModel::MappedAddress(m)), c)),
            Err(e) => Err(e),
        },
        Some(STUNAttributeType::OtherAddress) => match parse_addr(b, v, true) {
            Ok(m) => Ok((Some(AttrModel::OtherAddress(m)), c)),
            Err(e) => Err(e),
        },
        Some(STUNAttributeType::AlternateServer) => match parse_addr(b, v, true) {
            Ok(m) => Ok((Some(AttrModel::AlternateServer(m)), c)),
            Err(e) => Err(e),
        },
        Some(STUNAttributeType::XORMappedAddress) => {
            if b.len() < 20 {
                Err(STUNErrorType::ReadError)
            } else {
                match parse_addr(b, v, false) {
                    Ok(m) => Ok((Some(AttrModel::XORMappedAddress(xor_model(m, tid_of(b)))), c)),
                    Err(e) => Err(e),
                }
            }
        },
        Some(STUNAttributeType::Username) => match read_prepped(b, v, len as nat) {
            Ok(s) => Ok((Some(AttrModel::Username(Some(s))), fill_username(c, s))),
            Err(e) => Err(e),
        },
        Some(STUNAttributeType::Realm) => match read_prepped(b, v, len as nat) {
            Ok(s) => Ok((Some(AttrModel::Realm(Some(s))), fill_realm(c, s))),
            Err(e) => Err(e),
        },
        Some(STUNAttributeType::Nonce) => match read_text(b, v, len as nat) {
            Ok(s) => Ok((Some(AttrModel::Nonce(Some(s))), fill_nonce(c, s))),
            Err(e) => Err(e),
        },
        Some(STUNAttributeType::Software) => match read_software(b, v, len as nat) {
            Ok(s) => Ok((Some(AttrModel::Software(s)), c)),
            Err(e) => Err(e),
        },
        Some(STUNAttributeType::MessageIntegrity) => match check_integrity(b, pos, c) {
            Ok(a) => Ok((Some(a), c)),
            Err(e) => Err(e),
        },
        Some(_) => Ok((None, c)),
        None => if tag_at(b, pos) < 0x8000 {
            Err(STUNErrorType::InvalidOrUnsupportedAttribute)
        } else {
            Ok((None, c))
        },
    }
}

/// Where the record after the one at `pos` starts.
pub open spec fn next_pos(b: Seq<u8>, pos: int) -> int {
    pos + 4 + padded_len(len_at(b, pos) as nat)
}

/// What is left of the buffer from `pos` on; it shrinks with every record.
pub open spec fn decode_measure(b: Seq<u8>, pos: int) -> nat {
    if 0 <= pos <= b.len() {
        (b.len() - pos) as nat
    } else {
        0
    }
}

/// The attributes (with their wire lengths) decoded from `pos` to the end of
/// `b`, with the context after them. Decoding ends cleanly where fewer than
/// two bytes are left.
pub open spec fn decode_attrs(b: Seq<u8>, pos: int, c: Option<ContextModel>) -> Result<(Seq<(AttrModel, u16)>, Option<ContextModel>), STUNErrorType>
    decreases decode_measure(b, pos),
{
    if pos < 0 || pos + 2 > b.len() {
        Ok((seq![], c))
    } else if pos + 4 > b.len() {
        Err(STUNErrorType::ReadError)
    } else {
        match decode_step(b, pos, c) {
            Err(e) => Err(e),
            Ok((a, c2)) => match decode_attrs(b, next_pos(b, pos), c2) {
                Ok((rest, c3)) => Ok(
                    (
                        match a {
                            Some(m) => seq![(m, len_at(b, pos))] + rest,
                            None => rest,
                        },
                        c3,
                    ),
                ),
                Err(e) => Err(e),
            },
        }
    }
}

/// `r` with `prefix` put in front of its attributes.
pub open spec fn with_prefix(
    prefix: Seq<(AttrModel, u16)>,
    r: Result<(Seq<(AttrModel, u16)>, Option<ContextModel>), STUNErrorType>,
) -> Result<(Seq<(AttrModel, u16)>, Option<ContextModel>), STUNErrorType> {
    match r {
        Ok((rest, c)) => Ok((prefix + rest, c)),
        Err(e) => Err(e),
    }
}

fn body_error(step: STUNStep, kind: STUNErrorType) -> (r: STUNError)
    ensures
        r.error_type == kind,
        r.step == step,
{
    STUNError::with_text(step, kind, "message body could not be processed")
}

/// A shared view of an optional context.
fn ctx_ref(c: &Option<STUNContext>) -> (r: Option<&STUNContext>)
    ensures
        opt_ctx_view(r) == opt_owned_ctx_view(*c),
{
    match c {
        Some(v) => Some(v),
        None => None,
    }
}

impl STUNBody {
    pub fn new() -> (r: Self)
        ensures
            r.attributes@.len() == 0,
    {
        STUNBody { attributes: Vec::new() }
    }

    /// Appends an attribute; `bin_len` is the length to record for it.
    pub fn add_new_attribute(&mut self, new_attribute: STUNAttributesContent, attribute_type: STUNAttributeType, bin_len: u16)
        ensures
            final(self).attributes@.len() == old(self).attributes@.len() + 1,
            final(self).attributes@.subrange(0, old(self).attributes@.len() as int) == old(self).attributes@,
            final(self).attributes@.last().value == new_attribute,
            final(self).attributes@.last().attribute_type == attribute_type,
            final(self).attributes@.last().length == bin_len,
    {
        self.attributes.push(STUNAttributes { length: bin_len, attribute_type, value: new_attribute, _private: seal() });
        assert(self.attributes@.subrange(0, old(self).attributes@.len() as int) =~= old(self).attributes@);
    }

    /// Appends the type and the unpadded length of a record.
    pub fn write_attribute_header_to_body_encode(content_body: &[u8], write_cursor: &mut Vec<u8>, attribute_type: STUNAttributeType) -> (r: Result<(), STUNError>)
        ensures
            content_body@.len() <= 0xFFFF ==> r is Ok && final(write_cursor)@ == old(write_cursor)@ + be16(attr_tag(attribute_type)) + be16(content_body@.len() as u16),
            content_body@.len() > 0xFFFF ==> (r matches Err(e) && e.error_type == STUNErrorType::WriteError),
    {
        if content_body.len() > 0xFFFF {
            return Err(body_error(STUNStep::STUNEncode, STUNErrorType::WriteError));
        }
        push_u16(write_cursor, attribute_type.tag());
        push_u16(write_cursor, content_body.len() as u16);
        Ok(())
    }

    /// Sets the header's length field to the size of what follows the header.
    pub fn write_current_message_length_to_header(write_cursor: &mut Vec<u8>) -> (r: Result<(), STUNError>)
        ensures
            old(write_cursor)@.len() < 20 ==> (r matches Err(e) && e.error_type == STUNErrorType::InvalidMessageBinLength),
            old(write_cursor)@.len() > 20 + 0xFFFF ==> (r matches Err(e) && e.error_type == STUNErrorType::WriteError),
            20 <= old(write_cursor)@.len() <= 20 + 0xFFFF ==> r is Ok && final(write_cursor)@ == with_len(old(write_cursor)@, (old(write_cursor)@.len() - 20) as u16),
    {
        let n = write_cursor.len();
        if n < 20 {
            return Err(body_error(STUNStep::STUNUtils, STUNErrorType::InvalidMessageBinLength));
        }
        if n - 20 > 0xFFFF {
            return Err(body_error(STUNStep::STUNUtils, STUNErrorType::WriteError));
        }
        set_len_field(write_cursor, (n - 20) as u16);
        Ok(())
    }

    /// Adds `length_delta` to the header's length field.
    pub fn add_pseudo_message_length_to_header(write_cursor: &mut Vec<u8>, length_delta: u16) -> (r: Result<(), STUNError>)
        ensures
            old(write_cursor)@.len() < 4 ==> (r matches Err(e) && e.error_type == STUNErrorType::InvalidMessageBinLength),
            old(write_cursor)@.len() >= 4 ==> ({
                let cur = from_be16(old(write_cursor)@[2], old(write_cursor)@[3]);
                &&& cur + length_delta > 0xFFFF ==> (r matches Err(e) && e.error_type == STUNErrorType::InvalidMessageBinLength)
                &&& cur + length_delta <= 0xFFFF ==> r is Ok && final(write_cursor)@ == with_len(old(write_cursor)@, (cur + length_delta) as u16)
            }),
    {
        if write_cursor.len() < 4 {
            return Err(body_error(STUNStep::STUNUtils, STUNErrorType::InvalidMessageBinLength));
        }
        let cur = read_u16(write_cursor.as_slice(), 2);
        if cur as u32 + length_delta as u32 > 0xFFFF {
            return Err(body_error(STUNStep::STUNUtils, STUNErrorType::InvalidMessageBinLength));
        }
        set_len_field(write_cursor, cur + length_delta);
        Ok(())
    }

    /// Sets the header's length field to the size of what follows the header
    /// plus `length_delta`.
    pub fn add_pseudo_message_length_from_current_pos_to_header(write_cursor: &mut Vec<u8>, length_delta: u16) -> (r: Result<(), STUNError>)
        ensures
            old(write_cursor)@.len() < 20 || old(write_cursor)@.len() - 20 + length_delta > 0xFFFF
                ==> (r matches Err(e) && e.error_type == STUNErrorType::InvalidMessageBinLength),
            old(write_cursor)@.len() >= 20 && old(write_cursor)@.len() - 20 + length_delta <= 0xFFFF ==> r is Ok
                && final(write_cursor)@ == with_len(old(write_cursor)@, (old(write_cursor)@.len() - 20 + length_delta) as u16),
    {
        let n = write_cursor.len();
        if n < 20 || n - 20 > 0xFFFF - length_delta as usize {
            return Err(body_error(STUNStep::STUNUtils, STUNErrorType::InvalidMessageBinLength));
        }
        set_len_field(write_cursor, (n - 20 + length_delta as usize) as u16);
        Ok(())
    }

    /// The length rounded up to a multiple of four.
    pub fn padded_len_calculator(length: u16) -> (r: u32)
        ensures
            r == padded_len(length as nat),
    {
        padded_len_u32(length as u32)
    }
}


/// Encodes one attribute behind the bytes already in `out`: its record is
/// appended and the header's length field updated.
pub fn encode_attribute(value: &STUNAttributesContent, encode_context: Option<&STUNContext>, out: &mut Vec<u8>) -> (r: Result<(), STUNError>)
    ensures
        match r {
            Ok(()) => encode_one(value@, opt_ctx_view(encode_context), old(out)@) == Ok::<Seq<u8>, STUNErrorType>(final(out)@),
            Err(e) => encode_one(value@, opt_ctx_view(encode_context), old(out)@) == Err::<Seq<u8>, STUNErrorType>(e.error_type),
        },
{
    let ghost c = opt_ctx_view(encode_context);
    let ghost buf = out@;
    let n = out.len();
    let v: Vec<u8> = match value {
        STUNAttributesContent::MappedAddress { .. }
        | STUNAttributesContent::OtherAddress { .. }
        | STUNAttributesContent::AlternateServer { .. } => match value.encode_mapped_address() {
            Ok(v) => v,
            Err(e) => return Err(e),
        },
        STUNAttributesContent::XORMappedAddress { .. } => {
            if n < 20 {
                return Err(body_error(STUNStep::STUNEncode, STUNErrorType::ReadError));
            }
            let mut tid: [u8; 12] = [0u8; 12];
            let mut i: usize = 0;
            while i < 12
                invariant
                    0 <= i <= 12,
                    n == out@.len(),
                    n >= 20,
                    forall|k: int| 0 <= k < i ==> tid@[k] == out@[8 + k],
                decreases 12 - i,
            {
                tid[i] = out[8 + i];
                i = i + 1;
            }
            assert(tid@ =~= tid_of(out@));
            match value.encode_xor_mapped_address(tid) {
                Ok(v) => v,
                Err(e) => return Err(e),
            }
        },
        STUNAttributesContent::Username { .. } => match value.encode_username(encode_context) {
            Ok(v) => v,
            Err(e) => return Err(e),
        },
        STUNAttributesContent::Realm { .. } => match value.encode_realm(encode_context) {
            Ok(v) => v,
            Err(e) => return Err(e),
        },
        STUNAttributesContent::Nonce { .. } => match value.encode_nonce(encode_context) {
            Ok(v) => v,
            Err(e) => return Err(e),
        },
        STUNAttributesContent::Software { .. } => match value.encode_software() {
            Ok(v) => v,
            Err(e) => return Err(e),
        },
        STUNAttributesContent::MessageIntegrity { .. } => {
            if n < 20 {
                return Err(body_error(STUNStep::STUNEncode, STUNErrorType::InvalidMessageBinLength));
            }
            if n - 20 > 0xFFFF - 24 {
                return Err(body_error(STUNStep::STUNEncode, STUNErrorType::WriteError));
            }
            let mut prefix = copy_range(out.as_slice(), 0, n);
            assert(prefix@ =~= out@);
            set_len_field(&mut prefix, (n - 20 + 24) as u16);
            match value.compute_message_integrity(encode_context, prefix.as_slice()) {
                Ok(v) => v,
                Err(e) => return Err(e),
            }
        },
    };
    assert(value_bytes(value@, c, buf) == Ok::<Seq<u8>, STUNErrorType>(v@));
    if n < 20 {
        return Err(body_error(STUNStep::STUNUtils, STUNErrorType::InvalidMessageBinLength));
    }
    let vl = v.len();
    if vl > 0xFFFF - 4 || n - 20 > 0xFFFF - 4 - vl {
        proof {
            crate::bytes::lemma_padded_len(v@.len());
        }
        return Err(body_error(STUNStep::STUNEncode, STUNErrorType::WriteError));
    }
    let padded = padded_len_u32(vl as u32) as usize;
    if n - 20 + 4 + padded > 0xFFFF {
        return Err(body_error(STUNStep::STUNEncode, STUNErrorType::WriteError));
    }
    push_u16(out, value.attribute_type().tag());
    push_u16(out, vl as u16);
    push_all(out, v.as_slice());
    push_zeros(out, padded - vl);
    assert(out@ =~= buf + tlv(attr_tag(model_type(value@)), v@));
    let m = out.len();
    set_len_field(out, (m - 20) as u16);
    Ok(())
}

/// Encoding the attributes from `i` on is encoding the one at `i`, then the rest.
pub proof fn lemma_encode_attrs_step(attrs: Seq<AttrModel>, i: int, c: Option<ContextModel>, buf: Seq<u8>)
    requires
        0 <= i < attrs.len(),
    ensures
        encode_attrs(attrs.subrange(i, attrs.len() as int), c, buf) == match encode_one(attrs[i], c, buf) {
            Ok(nb) => encode_attrs(attrs.subrange(i + 1, attrs.len() as int), c, nb),
            Err(e) => Err(e),
        },
{
    let s = attrs.subrange(i, attrs.len() as int);
    assert(s[0] == attrs[i]);
    assert(s.drop_first() =~= attrs.subrange(i + 1, attrs.len() as int));
}

impl STUNBody {
    /// Encodes every attribute in order behind the header already in
    /// `write_cursor`, keeping the header's length field current; at the
    /// end it holds the body's size, 0 for an empty body.
    pub fn encode_body(&self, write_cursor: &mut Vec<u8>, encode_context: Option<&STUNContext>) -> (r: Result<(), STUNError>)
        ensures
            match r {
                Ok(()) => encode_body_bytes(body_values(*self), opt_ctx_view(encode_context), old(write_cursor)@)
                    == Ok::<Seq<u8>, STUNErrorType>(final(write_cursor)@),
                Err(e) => encode_body_bytes(body_values(*self), opt_ctx_view(encode_context), old(write_cursor)@)
                    == Err::<Seq<u8>, STUNErrorType>(e.error_type),
            },
    {
        let ghost vals = body_values(*self);
        let ghost c = opt_ctx_view(encode_context);
        let n = self.attributes.len();
        let mut i: usize = 0;
        assert(vals.subrange(0, n as int) =~= vals);
        while i < n
            invariant
                0 <= i <= n,
                n == self.attributes@.len(),
                vals == body_values(*self),
                c == opt_ctx_view(encode_context),
                encode_attrs(vals, c, old(write_cursor)@) == encode_attrs(vals.subrange(i as int, n as int), c, write_cursor@),
            decreases n - i,
        {
            proof {
                lemma_encode_attrs_step(vals, i as int, c, write_cursor@);
            }
            match encode_attribute(&self.attributes[i].value, encode_context, write_cursor) {
                Ok(()) => {},
                Err(e) => return Err(e),
            }
            i = i + 1;
        }
        assert(vals.subrange(n as int, n as int) =~= Seq::<AttrModel>::empty());
        Self::write_current_message_length_to_header(write_cursor)
    }
}


/// The value of an optional attribute.
pub open spec fn opt_attr_view(a: Option<STUNAttributesContent>) -> Option<AttrModel> {
    match a {
        Some(v) => Some(v@),
        None => None,
    }
}

/// Checks the MESSAGE-INTEGRITY record at `pos` against the context.
fn decode_integrity(b: &[u8], pos: usize, decode_context: &Option<STUNContext>) -> (r: Result<STUNAttributesContent, STUNError>)
    requires
        pos + 4 <= b@.len(),
    ensures
        match r {
            Ok(a) => check_integrity(b@, pos as int, opt_owned_ctx_view(*decode_context)) == Ok::<AttrModel, STUNErrorType>(a@),
            Err(e) => check_integrity(b@, pos as int, opt_owned_ctx_view(*decode_context)) == Err::<AttrModel, STUNErrorType>(e.error_type),
        },
{
    let n = b.len();
    assert(pos + 4 <= n);
    let v = pos + 4;
    let received = match STUNAttributesContent::extract_hmac(b, v) {
        Ok(h) => h,
        Err(e) => return Err(e),
    };
    if pos < 20 || pos - 20 > 0xFFFF - 24 {
        return Err(body_error(STUNStep::STUNDecode, STUNErrorType::InvalidMessageBinLength));
    }
    let c = match ctx_ref(decode_context) {
        Some(c) => c,
        None => return Err(body_error(STUNStep::STUNDecode, STUNErrorType::MessageIntegrityMismatch)),
    };
    let mode = if c.realm.is_some() {
        STUNAuthType::LongTerm
    } else {
        STUNAuthType::ShortTerm
    };
    let mut prefix = copy_range(b, 0, pos);
    set_len_field(&mut prefix, (pos - 20 + 24) as u16);
    let probe = STUNAttributesContent::MessageIntegrity { auth_type: mode };
    match probe.compute_message_integrity(Some(c), prefix.as_slice()) {
        Ok(h) => {
            if same_bytes(h.as_slice(), received.as_slice()) {
                Ok(probe)
            } else {
                Err(body_error(STUNStep::STUNDecode, STUNErrorType::MessageIntegrityMismatch))
            }
        },
        Err(_) => Err(body_error(STUNStep::STUNDecode, STUNErrorType::MessageIntegrityMismatch)),
    }
}

/// Decodes the record at `pos`; `None` for a type that is skipped.
pub fn decode_record(b: &[u8], pos: usize, decode_context: &mut Option<STUNContext>) -> (r: Result<Option<STUNAttributesContent>, STUNError>)
    requires
        pos + 4 <= b@.len(),
    ensures
        match r {
            Ok(a) => decode_step(b@, pos as int, opt_owned_ctx_view(*old(decode_context)))
                == Ok::<(Option<AttrModel>, Option<ContextModel>), STUNErrorType>((opt_attr_view(a), opt_owned_ctx_view(*final(decode_context)))),
            Err(e) => decode_step(b@, pos as int, opt_owned_ctx_view(*old(decode_context)))
                == Err::<(Option<AttrModel>, Option<ContextModel>), STUNErrorType>(e.error_type),
        },
{
    let n = b.len();
    assert(pos + 4 <= n);
    let tag = read_u16(b, pos);
    let length = read_u16(b, pos + 2);
    let v = pos + 4;
    match STUNAttributeType::from_tag(tag) {
        Some(STUNAttributeType::MappedAddress) => match STUNAttributesContent::decode_mapped_address(b, v) {
            Ok(a) => Ok(Some(a)),
            Err(e) => Err(e),
        },
        Some(STUNAttributeType::OtherAddress) => match STUNAttributesContent::decode_mapped_address(b, v) {
            Ok(STUNAttributesContent::MappedAddress { address }) => Ok(Some(STUNAttributesContent::OtherAddress { address })),
            Ok(_) => Err(body_error(STUNStep::STUNDecode, STUNErrorType::InternalError)),
            Err(e) => Err(e),
        },
        Some(STUNAttributeType::AlternateServer) => match STUNAttributesContent::decode_mapped_address(b, v) {
            Ok(STUNAttributesContent::MappedAddress { address }) => Ok(Some(STUNAttributesContent::AlternateServer { address })),
            Ok(_) => Err(body_error(STUNStep::STUNDecode, STUNErrorType::InternalError)),
            Err(e) => Err(e),
        },
        Some(STUNAttributeType::XORMappedAddress) => {
            if b.len() < 20 {
                return Err(body_error(STUNStep::STUNDecode, STUNErrorType::ReadError));
            }
            let mut tid: [u8; 12] = [0u8; 12];
            let mut i: usize = 0;
            while i < 12
                invariant
                    0 <= i <= 12,
                    b@.len() >= 20,
                    forall|k: int| 0 <= k < i ==> tid@[k] == b@[8 + k],
                decreases 12 - i,
            {
                tid[i] = b[8 + i];
                i = i + 1;
            }
            assert(tid@ =~= tid_of(b@));
            match STUNAttributesContent::decode_xor_mapped_address(b, v, tid) {
                Ok(a) => Ok(Some(a)),
                Err(e) => Err(e),
            }
        },
        Some(STUNAttributeType::Username) => match STUNAttributesContent::decode_username(b, v, decode_context, length) {
            Ok(a) => Ok(Some(a)),
            Err(e) => Err(e),
        },
        Some(STUNAttributeType::Realm) => match STUNAttributesContent::decode_realm(b, v, decode_context, length) {
            Ok(a) => Ok(Some(a)),
            Err(e) => Err(e),
        },
        Some(STUNAttributeType::Nonce) => match STUNAttributesContent::decode_nonce(b, v, decode_context, length) {
            Ok(a) => Ok(Some(a)),
            Err(e) => Err(e),
        },
        Some(STUNAttributeType::Software) => match STUNAttributesContent::decode_software(b, v, length) {
            Ok(a) => Ok(Some(a)),
            Err(e) => Err(e),
        },
        Some(STUNAttributeType::MessageIntegrity) => match decode_integrity(b, pos, decode_context) {
            Ok(a) => Ok(Some(a)),
            Err(e) => Err(e),
        },
        Some(_) => Ok(None),
        None => {
            if tag < 0x8000 {
                Err(body_error(STUNStep::STUNDecode, STUNErrorType::InvalidOrUnsupportedAttribute))
            } else {
                Ok(None)
            }
        },
    }
}

/// The entries one record adds.
pub open spec fn entry_prefix(a: Option<AttrModel>, len: u16) -> Seq<(AttrModel, u16)> {
    match a {
        Some(m) => seq![(m, len)],
        None => seq![],
    }
}

/// Decoding from `p` is decoding the record at `p`, then the rest.
pub proof fn lemma_decode_unfold(b: Seq<u8>, p: int, c: Option<ContextModel>)
    requires
        0 <= p,
        p + 4 <= b.len(),
        decode_step(b, p, c) is Ok,
    ensures
        decode_attrs(b, p, c) == with_prefix(
            entry_prefix(decode_step(b, p, c)->Ok_0.0, len_at(b, p)),
            decode_attrs(b, next_pos(b, p), decode_step(b, p, c)->Ok_0.1),
        ),
{
    let (a, c2) = decode_step(b, p, c)->Ok_0;
    match decode_attrs(b, next_pos(b, p), c2) {
        Ok((rest, c3)) => {
            match a {
                Some(m) => {},
                None => { assert(Seq::<(AttrModel, u16)>::empty() + rest =~= rest); },
            }
        },
        Err(_) => {},
    }
}

/// Putting two prefixes in front one after the other is putting both at once.
pub proof fn lemma_with_prefix_assoc(
    x: Seq<(AttrModel, u16)>,
    y: Seq<(AttrModel, u16)>,
    r: Result<(Seq<(AttrModel, u16)>, Option<ContextModel>), STUNErrorType>,
)
    ensures
        with_prefix(x, with_prefix(y, r)) == with_prefix(x + y, r),
{
    match r {
        Ok((rest, c)) => { assert(x + (y + rest) =~= (x + y) + rest); },
        Err(_) => {},
    }
}

impl STUNBody {
    /// Decodes the attributes from `start` to the end of `b`, filling absent
    /// fields of the context from USERNAME, REALM and NONCE, and checking
    /// MESSAGE-INTEGRITY against the context's credentials. Records of a known
    /// type without a codec, and of an unknown comprehension-optional type
    /// (0x8000 and up), are skipped; an unknown comprehension-required type
    /// fails the message.
    #[verifier::rlimit(50)]
    pub fn decode_body(b: &[u8], start: usize, decode_context: &mut Option<STUNContext>) -> (r: Result<STUNBody, STUNError>)
        ensures
            match r {
                Ok(body) => decode_attrs(b@, start as int, opt_owned_ctx_view(*old(decode_context)))
                    == Ok::<(Seq<(AttrModel, u16)>, Option<ContextModel>), STUNErrorType>((body_entries(body), opt_owned_ctx_view(*final(decode_context))))
                    && body_types_agree(body),
                Err(e) => decode_attrs(b@, start as int, opt_owned_ctx_view(*old(decode_context)))
                    == Err::<(Seq<(AttrModel, u16)>, Option<ContextModel>), STUNErrorType>(e.error_type),
            },
    {
        let ghost c0 = opt_owned_ctx_view(*decode_context);
        let mut body = STUNBody::new();
        let n = b.len();
        if start > n {
            assert(body_entries(body) =~= Seq::<(AttrModel, u16)>::empty());
            return Ok(body);
        }
        let mut pos: usize = start;
        assert(body_entries(body) =~= Seq::<(AttrModel, u16)>::empty());
        assert(decode_attrs(b@, start as int, c0) == with_prefix(body_entries(body), decode_attrs(b@, pos as int, opt_owned_ctx_view(*decode_context)))) by {
            let r = decode_attrs(b@, start as int, c0);
            match r {
                Ok((rest, c)) => { assert(Seq::<(AttrModel, u16)>::empty() + rest =~= rest); },
                Err(_) => {},
            }
        }
        while pos < n && n - pos >= 2
            invariant
                n == b@.len(),
                start <= pos <= n,
                c0 == opt_owned_ctx_view(*old(decode_context)),
                body_types_agree(body),
                decode_attrs(b@, start as int, c0) == with_prefix(body_entries(body), decode_attrs(b@, pos as int, opt_owned_ctx_view(*decode_context))),
            decreases n - pos,
        {
            if n - pos < 4 {
                assert(decode_attrs(b@, pos as int, opt_owned_ctx_view(*decode_context))
                    == Err::<(Seq<(AttrModel, u16)>, Option<ContextModel>), STUNErrorType>(STUNErrorType::ReadError));
                return Err(body_error(STUNStep::STUNDecode, STUNErrorType::ReadError));
            }
            let length = read_u16(b, pos + 2);
            let ghost before = body_entries(body);
            let ghost cb = opt_owned_ctx_view(*decode_context);
            let ghost p = pos as int;
            let rec = decode_record(b, pos, decode_context);
            let ghost oa = if rec is Ok { opt_attr_view(rec->Ok_0) } else { None };
            let ghost cn = opt_owned_ctx_view(*decode_context);
            let padded = padded_len_u32(length as u32) as usize;
            match rec {
                Ok(Some(a)) => {
                    let ty = a.attribute_type();
                    body.add_new_attribute(a, ty, length);
                    proof {
                        assert(body_entries(body) =~= before + seq![(body.attributes@.last().value@, length)]);
                        assert forall|i: int| 0 <= i < body.attributes@.len() implies #[trigger] body.attributes@[i].attribute_type == model_type(body.attributes@[i].value@) by {
                            if i < before.len() {
                                assert(body.attributes@[i] == body.attributes@.subrange(0, before.len() as int)[i]);
                            }
                        }
                    }
                },
                Ok(None) => {},
                Err(e) => {
                    assert(decode_attrs(b@, p, cb) == Err::<(Seq<(AttrModel, u16)>, Option<ContextModel>), STUNErrorType>(e.error_type));
                    return Err(e);
                },
            }
            proof {
                lemma_decode_unfold(b@, p, cb);
                assert(body_entries(body) =~= before + entry_prefix(oa, length));
                lemma_with_prefix_assoc(before, entry_prefix(oa, length), decode_attrs(b@, next_pos(b@, p), cn));
            }
            if padded > n - pos - 4 {
                assert(decode_attrs(b@, next_pos(b@, p), cn) == Ok::<(Seq<(AttrModel, u16)>, Option<ContextModel>), STUNErrorType>((seq![], cn)));
                assert(body_entries(body) + Seq::<(AttrModel, u16)>::empty() =~= body_entries(body));
                return Ok(body);
            }
            pos = pos + 4 + padded;
        }
        assert(body_entries(body) + Seq::<(AttrModel, u16)>::empty() =~= body_entries(body));
        Ok(body)
    }
}

} // verus!
