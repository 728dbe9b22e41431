use vstd::prelude::*;
use vstd::utf8::{decode_utf8, encode_utf8, valid_utf8};
use crate::address::{
    addr_bytes, decode_address, encode_address, parse_addr, xor_address, xor_model, AddrModel,
    STUNSocketAddr,
};
use crate::bytes::{copy_range, padded_len, padded_len_u32, push_all, push_zeros, with_len, zeros};
use crate::context::{opt_ctx_view, opt_owned_ctx_view, ContextModel, STUNContext};
use crate::error::{STUNError, STUNErrorType, STUNStep};
use crate::trusted::{hmac_sha1, hmac_sha1_of, md5_digest, md5_of, saslprep, saslprep_of, string_from_utf8};

verus! {

/// The attribute types this codec knows. Types below 0x8000 must be
/// understood by a receiver; the others may be skipped.
#[derive(Debug, Clone, Copy, PartialEq, Eq, Structural)]
pub enum STUNAttributeType {
    MappedAddress,
    Username,
    MessageIntegrity,
    ErrorCode,
    UnknownAttributes,
    Realm,
    Nonce,
    XORMappedAddress,
    Fingerprint,
    Software,
    AlternateServer,
    OtherAddress,
}

/// The 16-bit type tag of an attribute type.
pub open spec fn attr_tag(t: STUNAttributeType) -> u16 {
    match t {
        STUNAttributeType::MappedAddress => 0x0001u16,
        STUNAttributeType::Username => 0x0006u16,
        STUNAttributeType::MessageIntegrity => 0x0008u16,
        STUNAttributeType::ErrorCode => 0x0009u16,
        STUNAttributeType::UnknownAttributes => 0x000Au16,
        STUNAttributeType::Realm => 0x0014u16,
        STUNAttributeType::Nonce => 0x0015u16,
        STUNAttributeType::XORMappedAddress => 0x0020u16,
        STUNAttributeType::Fingerprint => 0x8028u16,
        STUNAttributeType::Software => 0x8022u16,
        STUNAttributeType::AlternateServer => 0x8023u16,
        STUNAttributeType::OtherAddress => 0x802Cu16,
    }
}

/// The attribute type of a tag, if it is one this codec knows.
pub open spec fn attr_type_from_tag(v: u16) -> Option<STUNAttributeType> {
    if v == 0x0001 {
        Some(STUNAttributeType::MappedAddress)
    } else if v == 0x0006 {
        Some(STUNAttributeType::Username)
    } else if v == 0x0008 {
        Some(STUNAttributeType::MessageIntegrity)
    } else if v == 0x0009 {
        Some(STUNAttributeType::ErrorCode)
    } else if v == 0x000A {
        Some(STUNAttributeType::UnknownAttributes)
    } else if v == 0x0014 {
        Some(STUNAttributeType::Realm)
    } else if v == 0x0015 {
        Some(STUNAttributeType::Nonce)
    } else if v == 0x0020 {
        Some(STUNAttributeType::XORMappedAddress)
    } else if v == 0x8028 {
        Some(STUNAttributeType::Fingerprint)
    } else if v == 0x8022 {
        Some(STUNAttributeType::Software)
    } else if v == 0x8023 {
        Some(STUNAttributeType::AlternateServer)
    } else if v == 0x802C {
        Some(STUNAttributeType::OtherAddress)
    } else {
        None
    }
}

impl STUNAttributeType {
    /// The 16-bit type tag on the wire.
    pub fn tag(&self) -> (r: u16)
        ensures
            r == attr_tag(*self),
    {
        match self {
            STUNAttributeType::MappedAddress => 0x0001,
            STUNAttributeType::Username => 0x0006,
            STUNAttributeType::MessageIntegrity => 0x0008,
            STUNAttributeType::ErrorCode => 0x0009,
            STUNAttributeType::UnknownAttributes => 0x000A,
            STUNAttributeType::Realm => 0x0014,
            STUNAttributeType::Nonce => 0x0015,
            STUNAttributeType::XORMappedAddress => 0x0020,
            STUNAttributeType::Fingerprint => 0x8028,
            STUNAttributeType::Software => 0x8022,
            STUNAttributeType::AlternateServer => 0x8023,
            STUNAttributeType::OtherAddress => 0x802C,
        }
    }

    pub fn from_tag(v: u16) -> (r: Option<STUNAttributeType>)
        ensures
            r == attr_type_from_tag(v),
    {
        if v == 0x0001 {
            Some(STUNAttributeType::MappedAddress)
        } else if v == 0x0006 {
            Some(STUNAttributeType::Username)
        } else if v == 0x0008 {
            Some(STUNAttributeType::MessageIntegrity)
        } else if v == 0x0009 {
            Some(STUNAttributeType::ErrorCode)
        } else if v == 0x000A {
            Some(STUNAttributeType::UnknownAttributes)
        } else if v == 0x0014 {
            Some(STUNAttributeType::Realm)
        } else if v == 0x0015 {
            Some(STUNAttributeType::Nonce)
        } else if v == 0x0020 {
            Some(STUNAttributeType::XORMappedAddress)
        } else if v == 0x8028 {
            Some(STUNAttributeType::Fingerprint)
        } else if v == 0x8022 {
            Some(STUNAttributeType::Software)
        } else if v == 0x8023 {
            Some(STUNAttributeType::AlternateServer)
        } else if v == 0x802C {
            Some(STUNAttributeType::OtherAddress)
        } else {
            None
        }
    }
}

/// How the MESSAGE-INTEGRITY key is made from the credentials.
#[derive(Debug, Clone, Copy, PartialEq, Eq, Structural)]
pub enum STUNAuthType {
    ShortTerm,
    LongTerm,
}

/// The value of an attribute. A string held as `None` is taken from the
/// context when encoding; decoding always fills it.
#[derive(Debug, Clone, PartialEq, Eq)]
pub enum STUNAttributesContent {
    MappedAddress { address: STUNSocketAddr },
    XORMappedAddress { address: STUNSocketAddr },
    OtherAddress { address: STUNSocketAddr },
    AlternateServer { address: STUNSocketAddr },
    Username { username: Option<String> },
    Realm { realm: Option<String> },
    Nonce { nonce: Option<String> },
    Software { software: String },
    MessageIntegrity { auth_type: STUNAuthType },
}

/// The mathematical value of an attribute.
pub enum AttrModel {
    MappedAddress(AddrModel),
    XORMappedAddress(AddrModel),
    OtherAddress(AddrModel),
    AlternateServer(AddrModel),
    Username(Option<Seq<char>>),
    Realm(Option<Seq<char>>),
    Nonce(Option<Seq<char>>),
    Software(Seq<char>),
    MessageIntegrity(STUNAuthType),
}

/// The characters of an optional string.
pub open spec fn opt_chars(s: Option<String>) -> Option<Seq<char>> {
    match s {
        Some(v) => Some(v@),
        None => None,
    }
}

impl View for STUNAttributesContent {
    type V = AttrModel;

    open spec fn view(&self) -> AttrModel {
        match self {
            STUNAttributesContent::MappedAddress { address } => AttrModel::MappedAddress(address@),
            STUNAttributesContent::XORMappedAddress { address } => AttrModel::XORMappedAddress(address@),
            STUNAttributesContent::OtherAddress { address } => AttrModel::OtherAddress(address@),
            STUNAttributesContent::AlternateServer { address } => AttrModel::AlternateServer(address@),
            STUNAttributesContent::Username { username } => AttrModel::Username(opt_chars(*username)),
            STUNAttributesContent::Realm { realm } => AttrModel::Realm(opt_chars(*realm)),
            STUNAttributesContent::Nonce { nonce } => AttrModel::Nonce(opt_chars(*nonce)),
            STUNAttributesContent::Software { software } => AttrModel::Software(software@),
            STUNAttributesContent::MessageIntegrity { auth_type } => AttrModel::MessageIntegrity(*auth_type),
        }
    }
}

/// The type of an attribute value.
pub open spec fn model_type(a: AttrModel) -> STUNAttributeType {
    match a {
        AttrModel::MappedAddress(_) => STUNAttributeType::MappedAddress,
        AttrModel::XORMappedAddress(_) => STUNAttributeType::XORMappedAddress,
        AttrModel::OtherAddress(_) => STUNAttributeType::OtherAddress,
        AttrModel::AlternateServer(_) => STUNAttributeType::AlternateServer,
        AttrModel::Username(_) => STUNAttributeType::Username,
        AttrModel::Realm(_) => STUNAttributeType::Realm,
        AttrModel::Nonce(_) => STUNAttributeType::Nonce,
        AttrModel::Software(_) => STUNAttributeType::Software,
        AttrModel::MessageIntegrity(_) => STUNAttributeType::MessageIntegrity,
    }
}

/// The username of an optional context.
pub open spec fn ctx_username(c: Option<ContextModel>) -> Option<Seq<char>> {
    match c {
        Some(v) => v.username,
        None => None,
    }
}

/// The realm of an optional context.
pub open spec fn ctx_realm(c: Option<ContextModel>) -> Option<Seq<char>> {
    match c {
        Some(v) => v.realm,
        None => None,
    }
}

/// The nonce of an optional context.
pub open spec fn ctx_nonce(c: Option<ContextModel>) -> Option<Seq<char>> {
    match c {
        Some(v) => v.nonce,
        None => None,
    }
}

/// The password of an optional context.
pub open spec fn ctx_password(c: Option<ContextModel>) -> Option<Seq<char>> {
    match c {
        Some(v) => v.password,
        None => None,
    }
}

/// The string to encode: the attribute's own, else the context's.
pub open spec fn source_str(own: Option<Seq<char>>, from_ctx: Option<Seq<char>>) -> Result<Seq<char>, STUNErrorType> {
    match own {
        Some(s) => Ok(s),
        None => match from_ctx {
            Some(s) => Ok(s),
            None => Err(STUNErrorType::RequiredContextMissingError),
        },
    }
}

/// A string after SASLprep.
pub open spec fn prepped(s: Seq<char>) -> Result<Seq<char>, STUNErrorType> {
    match saslprep_of(s) {
        Some(p) => Ok(p),
        None => Err(STUNErrorType::SASLPrepError),
    }
}

/// The UTF-8 bytes of a string after SASLprep.
pub open spec fn prepped_bytes(s: Seq<char>) -> Result<Seq<u8>, STUNErrorType> {
    match prepped(s) {
        Ok(p) => Ok(encode_utf8(p)),
        Err(e) => Err(e),
    }
}

/// The MESSAGE-INTEGRITY key. Long-term:
/// MD5(username ":" realm ":" SASLprep(password)); short-term: SASLprep(password).
pub open spec fn hmac_key(mode: STUNAuthType, c: Option<ContextModel>) -> Result<Seq<u8>, STUNErrorType> {
    match mode {
        STUNAuthType::LongTerm => {
            if c is None || ctx_username(c) is None || ctx_realm(c) is None || ctx_password(c) is None {
                Err(STUNErrorType::RequiredContextMissingError)
            } else {
                match prepped(ctx_password(c)->Some_0) {
                    Ok(p) => Ok(md5_of(
                        encode_utf8(ctx_username(c)->Some_0) + seq![0x3Au8] + encode_utf8(ctx_realm(c)->Some_0)
                            + seq![0x3Au8] + encode_utf8(p),
                    )),
                    Err(e) => Err(e),
                }
            }
        },
        STUNAuthType::ShortTerm => {
            if ctx_password(c) is None {
                Err(STUNErrorType::RequiredContextMissingError)
            } else {
                prepped_bytes(ctx_password(c)->Some_0)
            }
        },
    }
}

/// The HMAC of a message prefix under the key the mode and context give.
pub open spec fn integrity_of(mode: STUNAuthType, c: Option<ContextModel>, message: Seq<u8>) -> Result<Seq<u8>, STUNErrorType> {
    match hmac_key(mode, c) {
        Ok(k) => Ok(hmac_sha1_of(k, message)),
        Err(e) => Err(e),
    }
}

/// The transaction ID held by an encoded header.
pub open spec fn tid_of(buf: Seq<u8>) -> Seq<u8> {
    buf.subrange(8, 20)
}

/// The unpadded wire value of an attribute, encoded after the bytes `buf`
/// (header and earlier attributes).
pub open spec fn value_bytes(a: AttrModel, c: Option<ContextModel>, buf: Seq<u8>) -> Result<Seq<u8>, STUNErrorType> {
    match a {
        AttrModel::MappedAddress(m) => Ok(addr_bytes(m)),
        AttrModel::OtherAddress(m) => Ok(addr_bytes(m)),
        AttrModel::AlternateServer(m) => Ok(addr_bytes(m)),
        AttrModel::XORMappedAddress(m) => {
            if buf.len() < 20 {
                Err(STUNErrorType::ReadError)
            } else {
                Ok(addr_bytes(xor_model(m, tid_of(buf))))
            }
        },
        AttrModel::Username(u) => match source_str(u, ctx_username(c)) {
            Ok(s) => prepped_bytes(s),
            Err(e) => Err(e),
        },
        AttrModel::Realm(r) => match source_str(r, ctx_realm(c)) {
            Ok(s) => prepped_bytes(s),
            Err(e) => Err(e),
        },
        AttrModel::Nonce(n) => match source_str(n, ctx_nonce(c)) {
            Ok(s) => Ok(encode_utf8(s)),
            Err(e) => Err(e),
        },
        AttrModel::Software(s) => if encode_utf8(s).len() > 763 {
            Err(STUNErrorType::WriteError)
        } else {
            Ok(encode_utf8(s))
        },
        AttrModel::MessageIntegrity(mode) => {
            if buf.len() < 20 {
                Err(STUNErrorType::InvalidMessageBinLength)
            } else if buf.len() - 20 + 24 > 0xFFFF {
                Err(STUNErrorType::WriteError)
            } else {
                match integrity_of(mode, c, with_len(buf, (buf.len() - 20 + 24) as u16)) {
                    Ok(h) => if h.len() == 20 { Ok(h) } else { Err(STUNErrorType::InternalError) },
                    Err(e) => Err(e),
                }
            }
        },
    }
}

/// The bytes `b[pos..pos + length]` as text, with the padded length in reach.
pub open spec fn read_text(b: Seq<u8>, pos: int, length: nat) -> Result<Seq<char>, STUNErrorType> {
    if pos + padded_len(length) > b.len() {
        Err(STUNErrorType::ReadError)
    } else if !valid_utf8(b.subrange(pos, pos + length)) {
        Err(STUNErrorType::UTF8DecodeError)
    } else {
        Ok(decode_utf8(b.subrange(pos, pos + length)))
    }
}

/// The SOFTWARE text at `pos`: at most 763 bytes.
pub open spec fn read_software(b: Seq<u8>, pos: int, length: nat) -> Result<Seq<char>, STUNErrorType> {
    if length > 763 {
        Err(STUNErrorType::AttributeStructureMismatch)
    } else {
        read_text(b, pos, length)
    }
}

/// The text at `pos`, after SASLprep.
pub open spec fn read_prepped(b: Seq<u8>, pos: int, length: nat) -> Result<Seq<char>, STUNErrorType> {
    match read_text(b, pos, length) {
        Ok(s) => prepped(s),
        Err(e) => Err(e),
    }
}

/// The context after a decoded username: filled only where it was absent.
pub open spec fn fill_username(c: Option<ContextModel>, v: Seq<char>) -> Option<ContextModel> {
    match c {
        Some(m) => if m.username is None { Some(ContextModel { username: Some(v), ..m }) } else { c },
        None => None,
    }
}

/// The context after a decoded realm: filled only where it was absent.
pub open spec fn fill_realm(c: Option<ContextModel>, v: Seq<char>) -> Option<ContextModel> {
    match c {
        Some(m) => if m.realm is None { Some(ContextModel { realm: Some(v), ..m }) } else { c },
        None => None,
    }
}

/// The context after a decoded nonce: filled only where it was absent.
pub open spec fn fill_nonce(c: Option<ContextModel>, v: Seq<char>) -> Option<ContextModel> {
    match c {
        Some(m) => if m.nonce is None { Some(ContextModel { nonce: Some(v), ..m }) } else { c },
        None => None,
    }
}

fn text_error(step: STUNStep, kind: STUNErrorType) -> (r: STUNError)
    ensures
        r.error_type == kind,
        r.step == step,
{
    STUNError::with_text(step, kind, "attribute value could not be processed")
}

/// Clones a string, keeping its value.
fn clone_str(s: &String) -> (r: String)
    ensures
        r@ == s@,
{
    s.clone()
}

/// Appends the UTF-8 bytes of a string.
fn push_str_bytes(out: &mut Vec<u8>, s: &String)
    ensures
        final(out)@ == old(out)@ + encode_utf8(s@),
{
    let b = s.as_str().as_bytes();
    push_all(out, b);
}

/// Reads `length` bytes at `pos` as UTF-8 text; the padding after them must
/// be in the buffer too.
fn decode_text(b: &[u8], pos: usize, length: u16) -> (r: Result<String, STUNError>)
    ensures
        match r {
            Ok(s) => read_text(b@, pos as int, length as nat) == Ok::<Seq<char>, STUNErrorType>(s@),
            Err(e) => read_text(b@, pos as int, length as nat) == Err::<Seq<char>, STUNErrorType>(e.error_type),
        },
{
    let padded = padded_len_u32(length as u32) as usize;
    if pos > b.len() || b.len() - pos < padded {
        return Err(text_error(STUNStep::STUNDecode, STUNErrorType::ReadError));
    }
    let raw = copy_range(b, pos, length as usize);
    match string_from_utf8(raw) {
        Some(s) => Ok(s),
        None => Err(text_error(STUNStep::STUNDecode, STUNErrorType::UTF8DecodeError)),
    }
}

/// Picks the attribute's own string, else the context's.
fn pick_source(own: &Option<String>, from_ctx: Option<&Option<String>>) -> (r: Result<String, STUNError>)
    ensures
        match r {
            Ok(s) => source_str(opt_chars(*own), match from_ctx { Some(f) => opt_chars(*f), None => None })
                == Ok::<Seq<char>, STUNErrorType>(s@),
            Err(e) => source_str(opt_chars(*own), match from_ctx { Some(f) => opt_chars(*f), None => None })
                == Err::<Seq<char>, STUNErrorType>(e.error_type),
        },
{
    match own {
        Some(s) => Ok(clone_str(s)),
        None => match from_ctx {
            Some(Some(s)) => Ok(clone_str(s)),
            _ => Err(text_error(STUNStep::STUNEncode, STUNErrorType::RequiredContextMissingError)),
        },
    }
}

impl STUNAttributesContent {
    pub fn new_mapped_address(address: STUNSocketAddr) -> (r: Self)
        ensures
            r@ == AttrModel::MappedAddress(address@),
    {
        STUNAttributesContent::MappedAddress { address }
    }

    /// Holds a clear address; it is obfuscated only on the wire.
    pub fn new_xor_mapped_address(address: STUNSocketAddr) -> (r: Self)
        ensures
            r@ == AttrModel::XORMappedAddress(address@),
    {
        STUNAttributesContent::XORMappedAddress { address }
    }

    pub fn new_username(username: String) -> (r: Self)
        ensures
            r@ == AttrModel::Username(Some(username@)),
    {
        STUNAttributesContent::Username { username: Some(username) }
    }

    pub fn new_realm(realm: String) -> (r: Self)
        ensures
            r@ == AttrModel::Realm(Some(realm@)),
    {
        STUNAttributesContent::Realm { realm: Some(realm) }
    }

    pub fn new_nonce(nonce: Option<String>) -> (r: Self)
        ensures
            r@ == AttrModel::Nonce(opt_chars(nonce)),
    {
        STUNAttributesContent::Nonce { nonce }
    }

    /// A username from user input, stored after SASLprep.
    pub fn new_username_from_sasled_string(sasled_username: String) -> (r: Result<Self, STUNError>)
        ensures
            match r {
                Ok(v) => prepped(sasled_username@) matches Ok(p) && v@ == AttrModel::Username(Some(p)),
                Err(e) => prepped(sasled_username@) == Err::<Seq<char>, STUNErrorType>(e.error_type),
            },
    {
        match Self::sasl(sasled_username) {
            Ok(p) => Ok(STUNAttributesContent::Username { username: Some(p) }),
            Err(e) => Err(e),
        }
    }

    /// A realm from user input, stored after SASLprep.
    pub fn new_realm_from_sasled_string(sasled_realm: String) -> (r: Result<Self, STUNError>)
        ensures
            match r {
                Ok(v) => prepped(sasled_realm@) matches Ok(p) && v@ == AttrModel::Realm(Some(p)),
                Err(e) => prepped(sasled_realm@) == Err::<Seq<char>, STUNErrorType>(e.error_type),
            },
    {
        match Self::sasl(sasled_realm) {
            Ok(p) => Ok(STUNAttributesContent::Realm { realm: Some(p) }),
            Err(e) => Err(e),
        }
    }

    /// SASLprep of a string; `SASLPrepError` where it is refused.
    pub fn sasl(s: String) -> (r: Result<String, STUNError>)
        ensures
            match r {
                Ok(p) => prepped(s@) == Ok::<Seq<char>, STUNErrorType>(p@),
                Err(e) => prepped(s@) == Err::<Seq<char>, STUNErrorType>(e.error_type),
            },
    {
        match saslprep(s.as_str()) {
            Some(p) => Ok(p),
            None => Err(text_error(STUNStep::STUNEncode, STUNErrorType::SASLPrepError)),
        }
    }

    /// Pads an attribute value with zero bytes to a multiple of four.
    pub fn add_padding_to_attr_bin(attr_bin: &mut Vec<u8>)
        requires
            old(attr_bin)@.len() <= 0xFFFF_FFF0,
        ensures
            final(attr_bin)@ == old(attr_bin)@ + zeros((padded_len(old(attr_bin)@.len()) - old(attr_bin)@.len()) as nat),
    {
        let n = attr_bin.len() as u32;
        let p = padded_len_u32(n);
        push_zeros(attr_bin, (p - n) as usize);
    }

    /// The type of this value.
    pub fn attribute_type(&self) -> (r: STUNAttributeType)
        ensures
            r == model_type(self@),
    {
        match self {
            STUNAttributesContent::MappedAddress { .. } => STUNAttributeType::MappedAddress,
            STUNAttributesContent::XORMappedAddress { .. } => STUNAttributeType::XORMappedAddress,
            STUNAttributesContent::OtherAddress { .. } => STUNAttributeType::OtherAddress,
            STUNAttributesContent::AlternateServer { .. } => STUNAttributeType::AlternateServer,
            STUNAttributesContent::Username { .. } => STUNAttributeType::Username,
            STUNAttributesContent::Realm { .. } => STUNAttributeType::Realm,
            STUNAttributesContent::Nonce { .. } => STUNAttributeType::Nonce,
            STUNAttributesContent::Software { .. } => STUNAttributeType::Software,
            STUNAttributesContent::MessageIntegrity { .. } => STUNAttributeType::MessageIntegrity,
        }
    }

    /// The wire value of MAPPED-ADDRESS, and of OTHER-ADDRESS and
    /// ALTERNATE-SERVER, which share its layout.
    pub fn encode_mapped_address(&self) -> (r: Result<Vec<u8>, STUNError>)
        ensures
            match self@ {
                AttrModel::MappedAddress(m) => r matches Ok(v) && v@ == addr_bytes(m),
                AttrModel::OtherAddress(m) => r matches Ok(v) && v@ == addr_bytes(m),
                AttrModel::AlternateServer(m) => r matches Ok(v) && v@ == addr_bytes(m),
                _ => r matches Err(e) && e.error_type == STUNErrorType::AttributeTypeMismatch,
            },
    {
        match self {
            STUNAttributesContent::MappedAddress { address }
            | STUNAttributesContent::OtherAddress { address }
            | STUNAttributesContent::AlternateServer { address } => {
                let mut v: Vec<u8> = Vec::new();
                encode_address(address, &mut v);
                Ok(v)
            },
            _ => Err(text_error(STUNStep::STUNEncode, STUNErrorType::AttributeTypeMismatch)),
        }
    }

    /// The wire value of XOR-MAPPED-ADDRESS under a transaction ID.
    pub fn encode_xor_mapped_address(&self, transaction_id: [u8; 12]) -> (r: Result<Vec<u8>, STUNError>)
        ensures
            match self@ {
                AttrModel::XORMappedAddress(m) => r matches Ok(v) && v@ == addr_bytes(xor_model(m, transaction_id@)),
                _ => r matches Err(e) && e.error_type == STUNErrorType::AttributeTypeMismatch,
            },
    {
        match self {
            STUNAttributesContent::XORMappedAddress { address } => {
                let x = xor_address(address, &transaction_id);
                let mut v: Vec<u8> = Vec::new();
                encode_address(&x, &mut v);
                Ok(v)
            },
            _ => Err(text_error(STUNStep::STUNEncode, STUNErrorType::AttributeTypeMismatch)),
        }
    }

    /// The unpadded wire value of USERNAME: the string (or the context's)
    /// after SASLprep.
    pub fn encode_username(&self, encode_context: Option<&STUNContext>) -> (r: Result<Vec<u8>, STUNError>)
        ensures
            match self@ {
                AttrModel::Username(u) => match r {
                    Ok(v) => value_bytes(self@, opt_ctx_view(encode_context), seq![]) == Ok::<Seq<u8>, STUNErrorType>(v@),
                    Err(e) => value_bytes(self@, opt_ctx_view(encode_context), seq![]) == Err::<Seq<u8>, STUNErrorType>(e.error_type),
                },
                _ => r matches Err(e) && e.error_type == STUNErrorType::AttributeTypeMismatch,
            },
    {
        match self {
            STUNAttributesContent::Username { username } => {
                let from_ctx = match encode_context {
                    Some(c) => Some(&c.username),
                    None => None,
                };
                let s = match pick_source(username, from_ctx) {
                    Ok(s) => s,
                    Err(e) => return Err(e),
                };
                let p = match Self::sasl(s) {
                    Ok(p) => p,
                    Err(e) => return Err(e),
                };
                let mut v: Vec<u8> = Vec::new();
                push_str_bytes(&mut v, &p);
                Ok(v)
            },
            _ => Err(text_error(STUNStep::STUNEncode, STUNErrorType::AttributeTypeMismatch)),
        }
    }

    /// The unpadded wire value of REALM: the string (or the context's)
    /// after SASLprep.
    pub fn encode_realm(&self, encode_context: Option<&STUNContext>) -> (r: Result<Vec<u8>, STUNError>)
        ensures
            match self@ {
                AttrModel::Realm(u) => match r {
                    Ok(v) => value_bytes(self@, opt_ctx_view(encode_context), seq![]) == Ok::<Seq<u8>, STUNErrorType>(v@),
                    Err(e) => value_bytes(self@, opt_ctx_view(encode_context), seq![]) == Err::<Seq<u8>, STUNErrorType>(e.error_type),
                },
                _ => r matches Err(e) && e.error_type == STUNErrorType::AttributeTypeMismatch,
            },
    {
        match self {
            STUNAttributesContent::Realm { realm } => {
                let from_ctx = match encode_context {
                    Some(c) => Some(&c.realm),
                    None => None,
                };
                let s = match pick_source(realm, from_ctx) {
                    Ok(s) => s,
                    Err(e) => return Err(e),
                };
                let p = match Self::sasl(s) {
                    Ok(p) => p,
                    Err(e) => return Err(e),
                };
                let mut v: Vec<u8> = Vec::new();
                push_str_bytes(&mut v, &p);
                Ok(v)
            },
            _ => Err(text_error(STUNStep::STUNEncode, STUNErrorType::AttributeTypeMismatch)),
        }
    }

    /// The unpadded wire value of NONCE: the string (or the context's) as is.
    pub fn encode_nonce(&self, encode_context: Option<&STUNContext>) -> (r: Result<Vec<u8>, STUNError>)
        ensures
            match self@ {
                AttrModel::Nonce(u) => match r {
                    Ok(v) => value_bytes(self@, opt_ctx_view(encode_context), seq![]) == Ok::<Seq<u8>, STUNErrorType>(v@),
                    Err(e) => value_bytes(self@, opt_ctx_view(encode_context), seq![]) == Err::<Seq<u8>, STUNErrorType>(e.error_type),
                },
                _ => r matches Err(e) && e.error_type == STUNErrorType::AttributeTypeMismatch,
            },
    {
        match self {
            STUNAttributesContent::Nonce { nonce } => {
                let from_ctx = match encode_context {
                    Some(c) => Some(&c.nonce),
                    None => None,
                };
                let s = match pick_source(nonce, from_ctx) {
                    Ok(s) => s,
                    Err(e) => return Err(e),
                };
                let mut v: Vec<u8> = Vec::new();
                push_str_bytes(&mut v, &s);
                Ok(v)
            },
            _ => Err(text_error(STUNStep::STUNEncode, STUNErrorType::AttributeTypeMismatch)),
        }
    }

    /// The wire value of SOFTWARE: its UTF-8 bytes, at most 763 of them.
    pub fn encode_software(&self) -> (r: Result<Vec<u8>, STUNError>)
        ensures
            match self@ {
                AttrModel::Software(s) => match r {
                    Ok(v) => value_bytes(self@, None, seq![]) == Ok::<Seq<u8>, STUNErrorType>(v@),
                    Err(e) => value_bytes(self@, None, seq![]) == Err::<Seq<u8>, STUNErrorType>(e.error_type),
                },
                _ => r matches Err(e) && e.error_type == STUNErrorType::AttributeTypeMismatch,
            },
    {
        match self {
            STUNAttributesContent::Software { software } => {
                let mut v: Vec<u8> = Vec::new();
                push_str_bytes(&mut v, software);
                if v.len() > 763 {
                    return Err(text_error(STUNStep::STUNEncode, STUNErrorType::WriteError));
                }
                Ok(v)
            },
            _ => Err(text_error(STUNStep::STUNEncode, STUNErrorType::AttributeTypeMismatch)),
        }
    }

    /// The HMAC key of a mode, from the context's credentials.
    pub fn get_hmac_key(mode: STUNAuthType, encode_context: Option<&STUNContext>) -> (r: Result<Vec<u8>, STUNError>)
        ensures
            match r {
                Ok(k) => hmac_key(mode, opt_ctx_view(encode_context)) == Ok::<Seq<u8>, STUNErrorType>(k@),
                Err(e) => hmac_key(mode, opt_ctx_view(encode_context)) == Err::<Seq<u8>, STUNErrorType>(e.error_type),
            },
    {
        let c = match encode_context {
            Some(c) => c,
            None => return Err(text_error(STUNStep::STUNEncode, STUNErrorType::RequiredContextMissingError)),
        };
        let password = match &c.password {
            Some(p) => p,
            None => return Err(text_error(STUNStep::STUNEncode, STUNErrorType::RequiredContextMissingError)),
        };
        match mode {
            STUNAuthType::ShortTerm => {
                let p = match Self::sasl(clone_str(password)) {
                    Ok(p) => p,
                    Err(e) => return Err(e),
                };
                let mut k: Vec<u8> = Vec::new();
                push_str_bytes(&mut k, &p);
                Ok(k)
            },
            STUNAuthType::LongTerm => {
                let username = match &c.username {
                    Some(u) => u,
                    None => return Err(text_error(STUNStep::STUNEncode, STUNErrorType::RequiredContextMissingError)),
                };
                let realm = match &c.realm {
                    Some(u) => u,
                    None => return Err(text_error(STUNStep::STUNEncode, STUNErrorType::RequiredContextMissingError)),
                };
                let p = match Self::sasl(clone_str(password)) {
                    Ok(p) => p,
                    Err(e) => return Err(e),
                };
                let mut input: Vec<u8> = Vec::new();
                push_str_bytes(&mut input, username);
                input.push(0x3Au8);
                push_str_bytes(&mut input, realm);
                input.push(0x3Au8);
                push_str_bytes(&mut input, &p);
                assert(input@ =~= encode_utf8(username@) + seq![0x3Au8] + encode_utf8(realm@) + seq![0x3Au8]
                    + encode_utf8(p@));
                let digest = md5_digest(input.as_slice());
                let mut k: Vec<u8> = Vec::new();
                push_all(&mut k, digest.as_slice());
                assert(k@ =~= digest@);
                Ok(k)
            },
        }
    }

    /// The 20-byte HMAC-SHA1 of `message_bin` under the key of this
    /// MESSAGE-INTEGRITY's mode.
    pub fn compute_message_integrity(&self, encode_context: Option<&STUNContext>, message_bin: &[u8]) -> (r: Result<Vec<u8>, STUNError>)
        ensures
            match self@ {
                AttrModel::MessageIntegrity(mode) => match r {
                    Ok(v) => integrity_of(mode, opt_ctx_view(encode_context), message_bin@) == Ok::<Seq<u8>, STUNErrorType>(v@)
                        && v@.len() == 20,
                    Err(e) => integrity_of(mode, opt_ctx_view(encode_context), message_bin@) == Err::<Seq<u8>, STUNErrorType>(e.error_type),
                },
                _ => r matches Err(e) && e.error_type == STUNErrorType::AttributeTypeMismatch,
            },
    {
        match self {
            STUNAttributesContent::MessageIntegrity { auth_type } => {
                let key = match Self::get_hmac_key(*auth_type, encode_context) {
                    Ok(k) => k,
                    Err(e) => return Err(e),
                };
                let mac = hmac_sha1(key.as_slice(), message_bin);
                let mut v: Vec<u8> = Vec::new();
                push_all(&mut v, mac.as_slice());
                assert(v@ =~= mac@);
                Ok(v)
            },
            _ => Err(text_error(STUNStep::STUNEncode, STUNErrorType::AttributeTypeMismatch)),
        }
    }
}


impl STUNAttributesContent {
    /// Reads a MAPPED-ADDRESS value at `pos`; its first byte must be zero.
    pub fn decode_mapped_address(b: &[u8], pos: usize) -> (r: Result<Self, STUNError>)
        ensures
            match r {
                Ok(v) => parse_addr(b@, pos as int, true) matches Ok(m) && v@ == AttrModel::MappedAddress(m),
                Err(e) => parse_addr(b@, pos as int, true) == Err::<AddrModel, STUNErrorType>(e.error_type),
            },
    {
        match decode_address(b, pos, true) {
            Ok(a) => Ok(STUNAttributesContent::MappedAddress { address: a }),
            Err(e) => Err(e),
        }
    }

    /// Reads an XOR-MAPPED-ADDRESS value at `pos` and removes the obfuscation.
    pub fn decode_xor_mapped_address(b: &[u8], pos: usize, transaction_id: [u8; 12]) -> (r: Result<Self, STUNError>)
        ensures
            match r {
                Ok(v) => parse_addr(b@, pos as int, false) matches Ok(m) && v@ == AttrModel::XORMappedAddress(
                    xor_model(m, transaction_id@),
                ),
                Err(e) => parse_addr(b@, pos as int, false) == Err::<AddrModel, STUNErrorType>(e.error_type),
            },
    {
        match decode_address(b, pos, false) {
            Ok(a) => Ok(STUNAttributesContent::XORMappedAddress { address: xor_address(&a, &transaction_id) }),
            Err(e) => Err(e),
        }
    }

    /// Reads a USERNAME value of `length` bytes at `pos`, applies SASLprep,
    /// and fills the context's username where it is absent.
    pub fn decode_username(b: &[u8], pos: usize, decode_context: &mut Option<STUNContext>, length: u16) -> (r: Result<Self, STUNError>)
        ensures
            match r {
                Ok(v) => read_prepped(b@, pos as int, length as nat) matches Ok(s) && v@ == AttrModel::Username(Some(s))
                    && opt_owned_ctx_view(*final(decode_context)) == fill_username(opt_owned_ctx_view(*old(decode_context)), s),
                Err(e) => read_prepped(b@, pos as int, length as nat) == Err::<Seq<char>, STUNErrorType>(e.error_type),
            },
    {
        let s = match decode_text(b, pos, length) {
            Ok(s) => s,
            Err(e) => return Err(e),
        };
        let p = match Self::sasl(s) {
            Ok(p) => p,
            Err(e) => return Err(e),
        };
        match decode_context {
            Some(c) => {
                if c.username.is_none() {
                    c.username = Some(clone_str(&p));
                }
            },
            None => {},
        }
        Ok(STUNAttributesContent::Username { username: Some(p) })
    }

    /// Reads a REALM value of `length` bytes at `pos`, applies SASLprep,
    /// and fills the context's realm where it is absent.
    pub fn decode_realm(b: &[u8], pos: usize, decode_context: &mut Option<STUNContext>, length: u16) -> (r: Result<Self, STUNError>)
        ensures
            match r {
                Ok(v) => read_prepped(b@, pos as int, length as nat) matches Ok(s) && v@ == AttrModel::Realm(Some(s))
                    && opt_owned_ctx_view(*final(decode_context)) == fill_realm(opt_owned_ctx_view(*old(decode_context)), s),
                Err(e) => read_prepped(b@, pos as int, length as nat) == Err::<Seq<char>, STUNErrorType>(e.error_type),
            },
    {
        let s = match decode_text(b, pos, length) {
            Ok(s) => s,
            Err(e) => return Err(e),
        };
        let p = match Self::sasl(s) {
            Ok(p) => p,
            Err(e) => return Err(e),
        };
        match decode_context {
            Some(c) => {
                if c.realm.is_none() {
                    c.realm = Some(clone_str(&p));
                }
            },
            None => {},
        }
        Ok(STUNAttributesContent::Realm { realm: Some(p) })
    }

    /// Reads a NONCE value of `length` bytes at `pos` and fills the
    /// context's nonce where it is absent.
    pub fn decode_nonce(b: &[u8], pos: usize, decode_context: &mut Option<STUNContext>, length: u16) -> (r: Result<Self, STUNError>)
        ensures
            match r {
                Ok(v) => read_text(b@, pos as int, length as nat) matches Ok(s) && v@ == AttrModel::Nonce(Some(s))
                    && opt_owned_ctx_view(*final(decode_context)) == fill_nonce(opt_owned_ctx_view(*old(decode_context)), s),
                Err(e) => read_text(b@, pos as int, length as nat) == Err::<Seq<char>, STUNErrorType>(e.error_type),
            },
    {
        let s = match decode_text(b, pos, length) {
            Ok(s) => s,
            Err(e) => return Err(e),
        };
        match decode_context {
            Some(c) => {
                if c.nonce.is_none() {
                    c.nonce = Some(clone_str(&s));
                }
            },
            None => {},
        }
        Ok(STUNAttributesContent::Nonce { nonce: Some(s) })
    }

    /// Reads a SOFTWARE value of `length` bytes at `pos`; more than 763
    /// bytes is a structure error.
    pub fn decode_software(b: &[u8], pos: usize, length: u16) -> (r: Result<Self, STUNError>)
        ensures
            match r {
                Ok(v) => read_software(b@, pos as int, length as nat) matches Ok(s) && v@ == AttrModel::Software(s),
                Err(e) => read_software(b@, pos as int, length as nat) == Err::<Seq<char>, STUNErrorType>(e.error_type),
            },
    {
        if length > 763 {
            return Err(text_error(STUNStep::STUNDecode, STUNErrorType::AttributeStructureMismatch));
        }
        match decode_text(b, pos, length) {
            Ok(s) => Ok(STUNAttributesContent::Software { software: s }),
            Err(e) => Err(e),
        }
    }

    /// The 20 HMAC bytes of a MESSAGE-INTEGRITY value at `pos`.
    pub fn extract_hmac(b: &[u8], pos: usize) -> (r: Result<Vec<u8>, STUNError>)
        ensures
            match r {
                Ok(v) => pos + 20 <= b@.len() && v@ == b@.subrange(pos as int, pos + 20),
                Err(e) => pos + 20 > b@.len() && e.error_type == STUNErrorType::ReadError,
            },
    {
        if pos > b.len() || b.len() - pos < 20 {
            return Err(text_error(STUNStep::STUNDecode, STUNErrorType::ReadError));
        }
        Ok(copy_range(b, pos, 20))
    }
}

} // verus!
