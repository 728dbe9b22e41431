use vstd::prelude::*;
use crate::address::{addr_bytes, addr_wf, lemma_addr_wf, cookie_bytes, parse_addr, xor_key, xor_model, xor_seq, AddrModel};
use crate::attributes::{
    attr_tag, attr_type_from_tag, ctx_nonce, ctx_password, ctx_realm, ctx_username, hmac_key, integrity_of,
    model_type, prepped, read_text, source_str, tid_of, value_bytes, AttrModel,
    STUNAttributeType, STUNAuthType,
};
use crate::body::{
    body_values, decode_attrs, decode_step, encode_attrs, encode_body_bytes, encode_one, integrity_mode, len_at, next_pos,
    tag_at, tlv,
};
use crate::bytes::{from_be16, with_len};
use crate::context::ContextModel;
use crate::error::STUNErrorType;
use crate::header::{
    class_from_bits, header_bytes, header_error, lemma_cookie_bytes, message_type, method_from_bits, STUNMessageClass, STUNMessageMethod,
};
use crate::address::STUN_5389_MAGIC_NUMBER_U32;
use crate::trusted::saslprep_of;
use crate::attributes::STUNAttributesContent;
use crate::message::STUN;

verus! {

/// XOR obfuscation undoes itself: for every address and transaction ID,
/// applying it twice gives the address back.
pub proof fn lemma_xor_involution(m: AddrModel, tid: Seq<u8>)
    requires
        addr_wf(m),
        tid.len() == 12,
    ensures
        xor_model(xor_model(m, tid), tid) == m,
{
    let k = xor_key(m.v6, tid);
    assert(k.len() >= m.ip.len()) by {
        assert(cookie_bytes().len() == 4);
    }
    let x = xor_model(m, tid);
    assert forall|i: int| 0 <= i < m.ip.len() implies #[trigger] xor_seq(x.ip, k)[i] == m.ip[i] by {
        let a = m.ip[i];
        let b = k[i];
        assert((a ^ b) ^ b == a) by (bit_vector);
    }
    assert(xor_seq(x.ip, k) =~= m.ip);
    let p = m.port;
    assert((p ^ 0x2112u16) ^ 0x2112u16 == p) by (bit_vector);
}

/// A record of a value of `n` bytes takes `4 + ceil(n / 4) * 4` bytes: the
/// type, the length, the value and its padding.
pub proof fn lemma_record_size(tag: u16, v: Seq<u8>)
    ensures
        tlv(tag, v).len() == 4 + ((v.len() + 3) / 4) * 4,
{
    crate::bytes::lemma_padded_len(v.len());
}

/// Encoding an attribute adds exactly one record to the message.
pub proof fn lemma_encoded_attribute_size(a: AttrModel, c: Option<ContextModel>, buf: Seq<u8>)
    requires
        encode_one(a, c, buf) is Ok,
    ensures
        value_bytes(a, c, buf) is Ok,
        encode_one(a, c, buf)->Ok_0.len() == buf.len() + 4 + ((value_bytes(a, c, buf)->Ok_0.len() + 3) / 4) * 4,
{
    let v = value_bytes(a, c, buf)->Ok_0;
    lemma_record_size(attr_tag(model_type(a)), v);
}

/// The MESSAGE-INTEGRITY value depends on the message and the credentials
/// alone: two contexts that agree on username, realm and password give
/// byte-equal values for the same message.
pub proof fn lemma_integrity_same_credentials(mode: STUNAuthType, c1: Option<ContextModel>, c2: Option<ContextModel>, message: Seq<u8>)
    requires
        c1 is Some <==> c2 is Some,
        ctx_username(c1) == ctx_username(c2),
        ctx_realm(c1) == ctx_realm(c2),
        ctx_password(c1) == ctx_password(c2),
    ensures
        integrity_of(mode, c1, message) == integrity_of(mode, c2, message),
{
}

/// A MESSAGE-INTEGRITY record met while decoding without usable credentials
/// fails with `MessageIntegrityMismatch`.
pub proof fn lemma_integrity_needs_credentials(b: Seq<u8>, pos: int, c: Option<ContextModel>)
    requires
        20 <= pos,
        pos + 24 <= b.len(),
        pos - 20 + 24 <= 0xFFFF,
        tag_at(b, pos) == 0x0008,
        c is None || hmac_key(crate::body::integrity_mode(c), c) is Err,
    ensures
        decode_step(b, pos, c) == Err::<(Option<AttrModel>, Option<ContextModel>), STUNErrorType>(STUNErrorType::MessageIntegrityMismatch),
        decode_attrs(b, pos, c) == Err::<(Seq<(AttrModel, u16)>, Option<ContextModel>), STUNErrorType>(STUNErrorType::MessageIntegrityMismatch),
{
}

/// What decoding gives back for an attribute encoded under the context `c`:
/// strings taken from the context are then held by the attribute.
pub open spec fn rt_value(a: AttrModel, c: Option<ContextModel>) -> AttrModel {
    match a {
        AttrModel::Username(u) => AttrModel::Username(Some(prepped(source_str(u, ctx_username(c))->Ok_0)->Ok_0)),
        AttrModel::Realm(r) => AttrModel::Realm(Some(prepped(source_str(r, ctx_realm(c))->Ok_0)->Ok_0)),
        AttrModel::Nonce(n) => AttrModel::Nonce(Some(source_str(n, ctx_nonce(c))->Ok_0)),
        _ => a,
    }
}

/// A prepared string that SASLprep leaves as it is.
pub open spec fn prep_fixed(own: Option<Seq<char>>, from_ctx: Option<Seq<char>>) -> bool {
    match source_str(own, from_ctx) {
        Ok(s) => match prepped(s) {
            Ok(p) => saslprep_of(p) == Some(p),
            Err(_) => true,
        },
        Err(_) => true,
    }
}

/// No REALM among the attributes.
pub open spec fn no_realm(all: Seq<AttrModel>) -> bool {
    forall|i: int| 0 <= i < all.len() ==> !(#[trigger] all[i] is Realm)
}

/// The condition under which an attribute of the message `all`, encoded
/// under `c`, comes back: prepared strings that SASLprep keeps, and for
/// MESSAGE-INTEGRITY credentials in the context whose mode the receiver
/// picks again (long-term with a realm known, short-term with none, and no
/// REALM in the message to change that).
pub open spec fn rt_ready(a: AttrModel, c: Option<ContextModel>, all: Seq<AttrModel>) -> bool {
    match a {
        AttrModel::Username(u) => prep_fixed(u, ctx_username(c)),
        AttrModel::Realm(r) => prep_fixed(r, ctx_realm(c)),
        AttrModel::MessageIntegrity(mode) => {
            &&& c is Some
            &&& mode == integrity_mode(c)
            &&& hmac_key(mode, c) is Ok
            &&& mode == STUNAuthType::ShortTerm ==> no_realm(all)
        },
        _ => true,
    }
}

/// An address attribute holds a well-formed address.
pub open spec fn addr_ok(a: AttrModel) -> bool {
    match a {
        AttrModel::MappedAddress(m) => addr_wf(m),
        AttrModel::XORMappedAddress(m) => addr_wf(m),
        AttrModel::OtherAddress(m) => addr_wf(m),
        AttrModel::AlternateServer(m) => addr_wf(m),
        _ => true,
    }
}

/// The receiver's context `d` still holds the sender's credentials `c`.
pub open spec fn kept(d: Option<ContextModel>, c: Option<ContextModel>, all: Seq<AttrModel>) -> bool {
    &&& d is Some <==> c is Some
    &&& ctx_password(d) == ctx_password(c)
    &&& ctx_username(c) is Some ==> ctx_username(d) == ctx_username(c)
    &&& ctx_realm(c) is Some ==> ctx_realm(d) == ctx_realm(c)
    &&& ctx_realm(c) is None && no_realm(all) ==> ctx_realm(d) is None
}

/// `big` holds the bytes of `small` but its length field.
pub open spec fn extends_but_len(small: Seq<u8>, big: Seq<u8>) -> bool {
    &&& big.len() >= small.len()
    &&& forall|i: int| 0 <= i < small.len() && i != 2 && i != 3 ==> #[trigger] big[i] == small[i]
}

proof fn lemma_tag_roundtrip(t: STUNAttributeType)
    ensures
        attr_type_from_tag(attr_tag(t)) == Some(t),
{
}

proof fn lemma_encode_one_frame(a: AttrModel, c: Option<ContextModel>, buf: Seq<u8>)
    requires
        encode_one(a, c, buf) is Ok,
    ensures
        extends_but_len(buf, encode_one(a, c, buf)->Ok_0),
        encode_one(a, c, buf)->Ok_0.len() == buf.len() + tlv(attr_tag(model_type(a)), value_bytes(a, c, buf)->Ok_0).len(),
        buf.len() >= 20,
{
}

proof fn lemma_encode_frame(vals: Seq<AttrModel>, c: Option<ContextModel>, buf: Seq<u8>)
    requires
        encode_attrs(vals, c, buf) is Ok,
    ensures
        extends_but_len(buf, encode_attrs(vals, c, buf)->Ok_0),
    decreases vals.len(),
{
    if vals.len() > 0 {
        let nb = encode_one(vals[0], c, buf)->Ok_0;
        lemma_encode_one_frame(vals[0], c, buf);
        lemma_encode_frame(vals.drop_first(), c, nb);
    }
}

/// The record that encoding `a` behind `buf` adds decodes, in any final
/// buffer `big` that keeps it, to the value decoding promises.
proof fn lemma_record_roundtrip(
    a: AttrModel,
    c: Option<ContextModel>,
    buf: Seq<u8>,
    big: Seq<u8>,
    d: Option<ContextModel>,
    all: Seq<AttrModel>,
    k: int,
)
    requires
        encode_one(a, c, buf) is Ok,
        extends_but_len(encode_one(a, c, buf)->Ok_0, big),
        0 <= k < all.len(),
        all[k] == a,
        rt_ready(a, c, all),
        addr_ok(a),
        kept(d, c, all),
    ensures
        kept(decode_step(big, buf.len() as int, d)->Ok_0.1, c, all),
        buf.len() + 4 <= big.len(),
        next_pos(big, buf.len() as int) == encode_one(a, c, buf)->Ok_0.len(),
        decode_step(big, buf.len() as int, d) is Ok,
        decode_step(big, buf.len() as int, d)->Ok_0.0 == Some(rt_value(a, c)),
        len_at(big, buf.len() as int) == value_bytes(a, c, buf)->Ok_0.len() as u16,
{
    let nb = encode_one(a, c, buf)->Ok_0;
    let v = value_bytes(a, c, buf)->Ok_0;
    let tag = attr_tag(model_type(a));
    let p = buf.len() as int;
    let t = tlv(tag, v);
    lemma_encode_one_frame(a, c, buf);
    crate::bytes::lemma_padded_len(v.len());
    assert(v.len() <= 0xFFFF);
    // the record sits in `big` right after `buf`
    assert forall|k: int| 0 <= k < t.len() implies #[trigger] big[p + k] == t[k] by {
        assert(nb[p + k] == (buf + t)[p + k]);
    }
    crate::bytes::lemma_be16_roundtrip(tag);
    crate::bytes::lemma_be16_roundtrip(v.len() as u16);
    assert(big[p] == t[0] && big[p + 1] == t[1] && big[p + 2] == t[2] && big[p + 3] == t[3]);
    assert(tag_at(big, p) == tag);
    assert(len_at(big, p) == v.len() as u16);
    lemma_tag_roundtrip(model_type(a));
    assert forall|j: int| 0 <= j < v.len() implies #[trigger] big[p + 4 + j] == v[j] by {
        assert(big[p + (4 + j)] == t[4 + j]);
    }
    assert(big.subrange(p + 4, p + 4 + v.len()) =~= v);
    match a {
        AttrModel::MappedAddress(m) => { lemma_addr_parses(big, p + 4, m, true); },
        AttrModel::OtherAddress(m) => { lemma_addr_parses(big, p + 4, m, true); },
        AttrModel::AlternateServer(m) => { lemma_addr_parses(big, p + 4, m, true); },
        AttrModel::XORMappedAddress(m) => {
            let x = xor_model(m, tid_of(buf));
            assert(addr_wf(x));
            lemma_addr_parses(big, p + 4, x, false);
            assert(tid_of(big) =~= tid_of(buf)) by {
                assert forall|i: int| 8 <= i < 20 implies big[i] == buf[i] by {
                    assert(big[i] == nb[i]);
                }
            }
            lemma_xor_involution(m, tid_of(buf));
        },
        AttrModel::Username(u) => {
            let s = source_str(u, ctx_username(c))->Ok_0;
            let q = prepped(s)->Ok_0;
            vstd::utf8::encode_utf8_valid_utf8(q);
            vstd::utf8::encode_utf8_decode_utf8(q);
            assert(read_text(big, p + 4, len_at(big, p) as nat) == Ok::<Seq<char>, STUNErrorType>(q));
        },
        AttrModel::Realm(r) => {
            let s = source_str(r, ctx_realm(c))->Ok_0;
            let q = prepped(s)->Ok_0;
            vstd::utf8::encode_utf8_valid_utf8(q);
            vstd::utf8::encode_utf8_decode_utf8(q);
            assert(read_text(big, p + 4, len_at(big, p) as nat) == Ok::<Seq<char>, STUNErrorType>(q));
        },
        AttrModel::Nonce(n) => {
            let s = source_str(n, ctx_nonce(c))->Ok_0;
            vstd::utf8::encode_utf8_valid_utf8(s);
            vstd::utf8::encode_utf8_decode_utf8(s);
            assert(read_text(big, p + 4, len_at(big, p) as nat) == Ok::<Seq<char>, STUNErrorType>(s));
        },
        AttrModel::Software(s) => {
            vstd::utf8::encode_utf8_valid_utf8(s);
            vstd::utf8::encode_utf8_decode_utf8(s);
            assert(read_text(big, p + 4, len_at(big, p) as nat) == Ok::<Seq<char>, STUNErrorType>(s));
        },
        AttrModel::MessageIntegrity(mode) => {
            let l = (p - 20 + 24) as u16;
            assert(with_len(big.subrange(0, p), l) =~= with_len(buf, l)) by {
                assert forall|i: int| 0 <= i < p && i != 2 && i != 3 implies big[i] == buf[i] by {
                    assert(big[i] == nb[i]);
                }
            }
            assert(integrity_mode(d) == mode);
            assert(hmac_key(mode, d) == hmac_key(mode, c));
            assert(big.subrange(p + 4, p + 4 + 20) == v);
        },
    }
}

/// An address value in a buffer parses back to its address.
proof fn lemma_addr_parses(b: Seq<u8>, pos: int, m: AddrModel, check_reserved: bool)
    requires
        addr_wf(m),
        0 <= pos,
        pos + addr_bytes(m).len() <= b.len(),
        b.subrange(pos, pos + addr_bytes(m).len()) == addr_bytes(m),
    ensures
        parse_addr(b, pos, check_reserved) == Ok::<AddrModel, STUNErrorType>(m),
{
    let v = addr_bytes(m);
    assert(b[pos] == v[0]);
    assert(b[pos + 1] == v[1]);
    assert(b[pos + 2] == v[2]);
    assert(b[pos + 3] == v[3]);
    crate::bytes::lemma_be16_roundtrip(m.port);
    let n: int = if m.v6 { 16 } else { 4 };
    assert(b.subrange(pos + 4, pos + 4 + n) =~= m.ip) by {
        assert forall|j: int| 0 <= j < n implies b[pos + 4 + j] == m.ip[j] by {
            assert(b[pos + 4 + j] == b.subrange(pos, pos + v.len())[4 + j]);
        }
    }
}

proof fn lemma_attrs_roundtrip(
    vals: Seq<AttrModel>,
    c: Option<ContextModel>,
    buf: Seq<u8>,
    d: Option<ContextModel>,
    all: Seq<AttrModel>,
    k: int,
)
    requires
        encode_attrs(vals, c, buf) is Ok,
        0 <= k <= all.len(),
        vals == all.subrange(k, all.len() as int),
        forall|i: int| 0 <= i < all.len() ==> rt_ready(#[trigger] all[i], c, all) && addr_ok(all[i]),
        kept(d, c, all),
    ensures
        decode_attrs(encode_attrs(vals, c, buf)->Ok_0, buf.len() as int, d) is Ok,
        decode_attrs(encode_attrs(vals, c, buf)->Ok_0, buf.len() as int, d)->Ok_0.0.map_values(|e: (AttrModel, u16)| e.0)
            == vals.map_values(|a: AttrModel| rt_value(a, c)),
    decreases vals.len(),
{
    let big = encode_attrs(vals, c, buf)->Ok_0;
    let p = buf.len() as int;
    if vals.len() == 0 {
        assert(decode_attrs(big, p, d)->Ok_0.0.map_values(|e: (AttrModel, u16)| e.0) =~= vals.map_values(|a: AttrModel| rt_value(a, c)));
    } else {
        let nb = encode_one(vals[0], c, buf)->Ok_0;
        let rest = vals.drop_first();
        assert(encode_attrs(rest, c, nb) == encode_attrs(vals, c, buf));
        lemma_encode_frame(rest, c, nb);
        assert(vals[0] == all[k]);
        lemma_record_roundtrip(vals[0], c, buf, big, d, all, k);
        let d2 = decode_step(big, p, d)->Ok_0.1;
        assert(rest =~= all.subrange(k + 1, all.len() as int));
        lemma_attrs_roundtrip(rest, c, nb, d2, all, k + 1);
        let tail = decode_attrs(big, nb.len() as int, d2)->Ok_0.0;
        let l = len_at(big, p);
        assert(decode_attrs(big, p, d)->Ok_0.0 == seq![(rt_value(vals[0], c), l)] + tail);
        let full = seq![(rt_value(vals[0], c), l)] + tail;
        let tm = tail.map_values(|e: (AttrModel, u16)| e.0);
        let rm = rest.map_values(|a: AttrModel| rt_value(a, c));
        assert(tm.len() == rm.len());
        assert(tail.len() == rest.len());
        let fm = full.map_values(|e: (AttrModel, u16)| e.0);
        let vm = vals.map_values(|a: AttrModel| rt_value(a, c));
        assert(fm =~= vm) by {
            assert forall|i: int| 0 <= i < vals.len() implies #[trigger] fm[i] == vm[i] by {
                if i > 0 {
                    assert(full[i] == tail[i - 1]);
                    assert(tm[i - 1] == tail[i - 1].0);
                    assert(rm[i - 1] == rt_value(rest[i - 1], c));
                    assert(rest[i - 1] == vals[i]);
                }
            }
        }
    }
}

proof fn lemma_len_field(vals: Seq<AttrModel>, c: Option<ContextModel>, buf: Seq<u8>)
    requires
        encode_attrs(vals, c, buf) is Ok,
        vals.len() > 0,
    ensures
        from_be16(encode_attrs(vals, c, buf)->Ok_0[2], encode_attrs(vals, c, buf)->Ok_0[3])
            == encode_attrs(vals, c, buf)->Ok_0.len() - 20,
    decreases vals.len(),
{
    let nb = encode_one(vals[0], c, buf)->Ok_0;
    lemma_encode_one_frame(vals[0], c, buf);
    if vals.len() == 1 {
        assert(encode_attrs(vals.drop_first(), c, nb) == Ok::<Seq<u8>, STUNErrorType>(nb));
    } else {
        lemma_len_field(vals.drop_first(), c, nb);
    }
}

proof fn lemma_type_bits(cl: STUNMessageClass, me: STUNMessageMethod)
    ensures
        class_from_bits(message_type(cl, me) & 0x0110u16) == Some(cl),
        method_from_bits(message_type(cl, me) & 0x3EEFu16) == Some(me),
{
    match cl {
        STUNMessageClass::Request => {
            assert((0x0000u16 | 0x0001u16) & 0x0110u16 == 0x0000u16) by (bit_vector);
            assert((0x0000u16 | 0x0001u16) & 0x3EEFu16 == 0x0001u16) by (bit_vector);
        },
        STUNMessageClass::Indication => {
            assert((0x0010u16 | 0x0001u16) & 0x0110u16 == 0x0010u16) by (bit_vector);
            assert((0x0010u16 | 0x0001u16) & 0x3EEFu16 == 0x0001u16) by (bit_vector);
        },
        STUNMessageClass::ResponseSuccess => {
            assert((0x0100u16 | 0x0001u16) & 0x0110u16 == 0x0100u16) by (bit_vector);
            assert((0x0100u16 | 0x0001u16) & 0x3EEFu16 == 0x0001u16) by (bit_vector);
        },
        STUNMessageClass::ResponseError => {
            assert((0x0110u16 | 0x0001u16) & 0x0110u16 == 0x0110u16) by (bit_vector);
            assert((0x0110u16 | 0x0001u16) & 0x3EEFu16 == 0x0001u16) by (bit_vector);
        },
    }
}

/// Rewriting a length field with the value it already holds changes nothing.
proof fn lemma_with_len_same(b: Seq<u8>, n: u16)
    requires
        b.len() >= 4,
        from_be16(b[2], b[3]) == n,
    ensures
        with_len(b, n) == b,
{
    let hi = b[2] as int;
    let lo = b[3] as int;
    assert(hi * 256 + lo == n as int);
    assert(n as int / 256 == hi && n as int % 256 == lo) by (nonlinear_arith)
        requires
            hi * 256 + lo == n as int,
            0 <= lo < 256,
            0 <= hi < 256,
    ;
    assert(with_len(b, n) =~= b);
}

/// Decoding an encoded message with the context it was encoded with gives
/// it back: the header's class, method and transaction ID, its length field
/// now holding the size of the body, and the attributes in order, where a
/// string taken from the context at encoding is now held by its attribute.
/// Stated where prepared strings are kept by SASLprep and where the
/// receiver checks MESSAGE-INTEGRITY in the mode it was made in.
pub proof fn lemma_message_roundtrip(m: STUN, c: Option<ContextModel>)
    requires
        m.header.magic_number == STUN_5389_MAGIC_NUMBER_U32,
        encode_body_bytes(body_values(m.body), c, header_bytes(m.header)) is Ok,
        forall|i: int| 0 <= i < body_values(m.body).len()
            ==> rt_ready(#[trigger] body_values(m.body)[i], c, body_values(m.body)),
    ensures
        ({
            let vals = body_values(m.body);
            let b = encode_body_bytes(vals, c, header_bytes(m.header))->Ok_0;
            &&& header_error(b) is None
            &&& class_from_bits(from_be16(b[0], b[1]) & 0x0110u16) == Some(m.header.message_class)
            &&& method_from_bits(from_be16(b[0], b[1]) & 0x3EEFu16) == Some(m.header.message_method)
            &&& b.subrange(8, 20) == m.header.transaction_id@
            &&& from_be16(b[2], b[3]) == b.len() - 20
            &&& decode_attrs(b, 20, c) is Ok
            &&& decode_attrs(b, 20, c)->Ok_0.0.map_values(|e: (AttrModel, u16)| e.0)
                == vals.map_values(|a: AttrModel| rt_value(a, c))
        }),
{
    let h = m.header;
    let vals = body_values(m.body);
    let hb = header_bytes(h);
    let big = encode_attrs(vals, c, hb)->Ok_0;
    let b = encode_body_bytes(vals, c, hb)->Ok_0;
    assert(hb.len() == 20);
    lemma_encode_frame(vals, c, hb);
    if vals.len() > 0 {
        assert forall|i: int| 0 <= i < vals.len() implies rt_ready(#[trigger] vals[i], c, vals) && addr_ok(vals[i]) by {
            let v = m.body.attributes@[i].value;
            assert(vals[i] == v@);
            match v {
                STUNAttributesContent::MappedAddress { address } => { lemma_addr_wf(address); },
                STUNAttributesContent::XORMappedAddress { address } => { lemma_addr_wf(address); },
                STUNAttributesContent::OtherAddress { address } => { lemma_addr_wf(address); },
                STUNAttributesContent::AlternateServer { address } => { lemma_addr_wf(address); },
                _ => {},
            }
        }
        assert(vals =~= vals.subrange(0, vals.len() as int));
        lemma_attrs_roundtrip(vals, c, hb, c, vals, 0);
        lemma_len_field(vals, c, hb);
        lemma_with_len_same(big, (big.len() - 20) as u16);
        assert(b == big);
    } else {
        assert(big == hb);
        crate::bytes::lemma_be16_roundtrip(0);
        assert(decode_attrs(b, 20, c)->Ok_0.0.map_values(|e: (AttrModel, u16)| e.0) =~= vals.map_values(|a: AttrModel| rt_value(a, c)));
    }
    let t = message_type(h.message_class, h.message_method);
    crate::bytes::lemma_be16_roundtrip(t);
    assert(b[0] == hb[0] && b[1] == hb[1]);
    lemma_type_bits(h.message_class, h.message_method);
    lemma_cookie_bytes();
    assert(b.subrange(4, 8) =~= cookie_bytes()) by {
        assert forall|i: int| 4 <= i < 8 implies b[i] == hb[i] by {}
    }
    assert(b.subrange(8, 20) =~= h.transaction_id@) by {
        assert forall|i: int| 8 <= i < 20 implies b[i] == hb[i] by {}
    }
}

} // verus!
