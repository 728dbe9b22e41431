use vstd::prelude::*;
use crate::address::{AddrModel, STUNSocketAddr, same_address};
use crate::attributes::{AttrModel, STUNAttributeType, STUNAttributesContent};
use crate::body::body_values;
use crate::context::{opt_owned_ctx_view, STUNContext};
use crate::error::{STUNError, STUNErrorType, STUNStep};
use crate::header::{STUNMessageClass, STUNMessageMethod};
use crate::message::{decode_error, decoded_as, STUN};

verus! {

/// How a NAT maps an internal address to external ones.
#[derive(Debug, Clone, Copy, PartialEq, Eq, Structural)]
pub enum STUNNatMappingType {
    EndpointIndependent,
    AddressDependant,
    PortDependant,
}

/// How a NAT filters what comes back in.
#[derive(Debug, Clone, Copy, PartialEq, Eq, Structural)]
pub enum STUNNatFilteringType {
    EndpointIndependentFiltering,
    AddressDependantFiltering,
    AddressAndPortDependantFiltering,
}

/// The settings of a binding exchange with a server. Times are in
/// milliseconds.
#[derive(Debug, Clone)]
pub struct StunClient {
    /// The end-to-end deadline of one request.
    pub timeout: u64,
    /// How often the request is sent again while no answer came.
    pub retry_interval: u64,
    /// The server's address.
    pub stun_server: STUNSocketAddr,
    /// The SOFTWARE attribute of requests, if any.
    pub software: Option<String>,
}

/// What becomes of a datagram received while a request is outstanding.
#[derive(Debug)]
pub enum ReceiveOutcome {
    /// Not the answer: it came from elsewhere or answers another transaction.
    Ignore,
    /// The answer.
    Accept(STUN),
    /// The answer could not be decoded.
    Fail(STUNError),
}

/// Whether an attribute value is an XOR-MAPPED-ADDRESS.
pub open spec fn is_xor_mapped(v: AttrModel) -> bool {
    v is XORMappedAddress
}

/// Whether an attribute value is an OTHER-ADDRESS.
pub open spec fn is_other_address(v: AttrModel) -> bool {
    v is OtherAddress
}

/// Whether an attribute value gives the reflexive address: an
/// XOR-MAPPED-ADDRESS or a MAPPED-ADDRESS.
pub open spec fn is_reflexive(v: AttrModel) -> bool {
    v is XORMappedAddress || v is MappedAddress
}

/// The address a reflexive attribute holds.
pub open spec fn attr_address(v: AttrModel) -> AddrModel {
    match v {
        AttrModel::MappedAddress(m) => m,
        AttrModel::XORMappedAddress(m) => m,
        AttrModel::OtherAddress(m) => m,
        AttrModel::AlternateServer(m) => m,
        _ => arbitrary(),
    }
}

/// `i` is the first position of `vals` whose value meets `p`.
pub open spec fn first_where(vals: Seq<AttrModel>, p: spec_fn(AttrModel) -> bool, i: int) -> bool {
    &&& 0 <= i < vals.len()
    &&& p(vals[i])
    &&& forall|j: int| 0 <= j < i ==> !p(#[trigger] vals[j])
}

/// The address of the first attribute of `m` that meets `p`, if any.
pub open spec fn found_address(m: STUN, p: spec_fn(AttrModel) -> bool, r: Option<STUNSocketAddr>) -> bool {
    let vals = body_values(m.body);
    match r {
        Some(a) => exists|i: int| first_where(vals, p, i) && attr_address(vals[i]) == a@,
        None => forall|i: int| 0 <= i < vals.len() ==> !p(#[trigger] vals[i]),
    }
}

/// The address of the first attribute that meets the kind asked for.
fn find_address(resp: &STUN, kind: u8) -> (r: Option<STUNSocketAddr>)
    requires
        kind <= 2,
    ensures
        kind == 0 ==> found_address(*resp, |v: AttrModel| is_xor_mapped(v), r),
        kind == 1 ==> found_address(*resp, |v: AttrModel| is_other_address(v), r),
        kind == 2 ==> found_address(*resp, |v: AttrModel| is_reflexive(v), r),
{
    let ghost vals = body_values(resp.body);
    let ghost p: spec_fn(AttrModel) -> bool = if kind == 0 {
        |v: AttrModel| is_xor_mapped(v)
    } else if kind == 1 {
        |v: AttrModel| is_other_address(v)
    } else {
        |v: AttrModel| is_reflexive(v)
    };
    let n = resp.body.attributes.len();
    let mut i: usize = 0;
    while i < n
        invariant
            0 <= i <= n,
            n == resp.body.attributes@.len(),
            vals == body_values(resp.body),
            kind <= 2,
            p == (if kind == 0 {
                |v: AttrModel| is_xor_mapped(v)
            } else if kind == 1 {
                |v: AttrModel| is_other_address(v)
            } else {
                |v: AttrModel| is_reflexive(v)
            }),
            forall|j: int| 0 <= j < i ==> !p(#[trigger] vals[j]),
        decreases n - i,
    {
        let hit: Option<STUNSocketAddr> = match &resp.body.attributes[i].value {
            STUNAttributesContent::XORMappedAddress { address } => if kind == 0 || kind == 2 { Some(*address) } else { None },
            STUNAttributesContent::MappedAddress { address } => if kind == 2 { Some(*address) } else { None },
            STUNAttributesContent::OtherAddress { address } => if kind == 1 { Some(*address) } else { None },
            _ => None,
        };
        assert(vals[i as int] == resp.body.attributes@[i as int].value@);
        match hit {
            Some(a) => {
                assert(first_where(vals, p, i as int));
                return Some(a);
            },
            None => {},
        }
        i = i + 1;
    }
    None
}

impl StunClient {
    /// A client with a 10 s deadline, a 1 s retry interval and a SOFTWARE tag.
    pub fn new(stun_server: STUNSocketAddr) -> (r: Self)
        ensures
            r.timeout == 10_000,
            r.retry_interval == 1_000,
            r.stun_server == stun_server,
            r.software is Some && r.software->Some_0@ == "SimpleRustStunClient"@,
    {
        StunClient {
            timeout: 10_000,
            retry_interval: 1_000,
            stun_server,
            software: Some("SimpleRustStunClient".to_owned()),
        }
    }

    pub fn set_timeout(&mut self, timeout: u64)
        ensures
            final(self).timeout == timeout,
            final(self).retry_interval == old(self).retry_interval,
            final(self).stun_server == old(self).stun_server,
            final(self).software == old(self).software,
    {
        self.timeout = timeout;
    }

    pub fn set_retry_interval(&mut self, retry_interval: u64)
        ensures
            final(self).retry_interval == retry_interval,
            final(self).timeout == old(self).timeout,
            final(self).stun_server == old(self).stun_server,
            final(self).software == old(self).software,
    {
        self.retry_interval = retry_interval;
    }

    pub fn set_software(&mut self, software: Option<String>)
        ensures
            final(self).software == software,
            final(self).timeout == old(self).timeout,
            final(self).retry_interval == old(self).retry_interval,
            final(self).stun_server == old(self).stun_server,
    {
        self.software = software;
    }

    /// A binding request, with the client's SOFTWARE attribute if it has one.
    pub fn binding_request(&self, transaction_id: Option<[u8; 12]>) -> (r: STUN)
        ensures
            r.header.message_class == STUNMessageClass::Request,
            r.header.message_method == STUNMessageMethod::Binding,
            r.header.message_length == 0,
            transaction_id is Some ==> r.header.transaction_id == transaction_id->Some_0,
            self.software is None ==> body_values(r.body) == Seq::<AttrModel>::empty(),
            self.software is Some ==> body_values(r.body) == seq![AttrModel::Software(self.software->Some_0@)],
    {
        let mut m = STUN::new_default(STUNMessageClass::Request, STUNMessageMethod::Binding, transaction_id);
        match &self.software {
            Some(s) => {
                m.body.add_new_attribute(STUNAttributesContent::Software { software: s.clone() }, STUNAttributeType::Software, 0);
                assert(body_values(m.body) =~= seq![AttrModel::Software(s@)]);
            },
            None => {
                assert(body_values(m.body) =~= Seq::<AttrModel>::empty());
            },
        }
        m
    }

    /// How long to wait for an answer at time `now`, or `None` once the
    /// deadline has passed: the retry interval, cut to what is left.
    pub fn retry_wait(&self, now: u64, deadline: u64) -> (r: Option<u64>)
        ensures
            now >= deadline ==> r is None,
            now < deadline ==> r == Some(if self.retry_interval < deadline - now { self.retry_interval } else { (deadline - now) as u64 }),
    {
        if now >= deadline {
            None
        } else if self.retry_interval < deadline - now {
            Some(self.retry_interval)
        } else {
            Some(deadline - now)
        }
    }

    /// Judges a datagram from `from` while the request `request_tid` is
    /// outstanding: one from another address, or answering another
    /// transaction, is ignored; otherwise it is decoded with the context.
    pub fn handle_datagram(&self, request_tid: [u8; 12], from: &STUNSocketAddr, bytes: &[u8], decode_context: &mut Option<STUNContext>) -> (r: ReceiveOutcome)
        ensures
            from@ != self.stun_server@ ==> r is Ignore && *final(decode_context) == *old(decode_context),
            from@ == self.stun_server@ ==> match r {
                ReceiveOutcome::Accept(m) => decoded_as(bytes@, opt_owned_ctx_view(*old(decode_context)), m, opt_owned_ctx_view(*final(decode_context)))
                    && m.header.transaction_id == request_tid,
                ReceiveOutcome::Fail(e) => decode_error(bytes@, opt_owned_ctx_view(*old(decode_context))) == Some(e.error_type),
                ReceiveOutcome::Ignore => decode_error(bytes@, opt_owned_ctx_view(*old(decode_context))) is None
                    && bytes@.subrange(8, 20) != request_tid@,
            },
    {
        if !same_address(from, &self.stun_server) {
            return ReceiveOutcome::Ignore;
        }
        match STUN::decode_message(bytes, decode_context) {
            Ok(m) => {
                if crate::bytes::same_bytes(m.header.transaction_id.as_slice(), request_tid.as_slice()) {
                    assert(m.header.transaction_id@ =~= request_tid@);
                    ReceiveOutcome::Accept(m)
                } else {
                    ReceiveOutcome::Ignore
                }
            },
            Err(e) => ReceiveOutcome::Fail(e),
        }
    }
}

/// The first XOR-MAPPED-ADDRESS of a response.
pub fn find_xor_mapped_address(resp: &STUN) -> (r: Option<STUNSocketAddr>)
    ensures
        found_address(*resp, |v: AttrModel| is_xor_mapped(v), r),
{
    find_address(resp, 0)
}

/// The first OTHER-ADDRESS of a response.
pub fn find_other_address(resp: &STUN) -> (r: Option<STUNSocketAddr>)
    ensures
        found_address(*resp, |v: AttrModel| is_other_address(v), r),
{
    find_address(resp, 1)
}

/// The server-reflexive address of a response: its first XOR-MAPPED-ADDRESS
/// or MAPPED-ADDRESS.
pub fn server_reflexive_address(resp: &STUN) -> (r: Result<STUNSocketAddr, STUNError>)
    ensures
        match r {
            Ok(a) => found_address(*resp, |v: AttrModel| is_reflexive(v), Some(a)),
            Err(e) => found_address(*resp, |v: AttrModel| is_reflexive(v), None)
                && e.error_type == STUNErrorType::DidNotFindExpectedAttribute,
        },
{
    match find_address(resp, 2) {
        Some(a) => Ok(a),
        None => Err(STUNError::with_text(STUNStep::STUNNetwork, STUNErrorType::DidNotFindExpectedAttribute, "no mapped address in the response")),
    }
}

/// The outcome of test I: the server's other address, which the server must
/// give, and the reflexive address seen.
pub fn nat_test_one(resp: &STUN) -> (r: Result<(STUNSocketAddr, Option<STUNSocketAddr>), STUNError>)
    ensures
        match r {
            Ok((other, reflex)) => found_address(*resp, |v: AttrModel| is_other_address(v), Some(other))
                && found_address(*resp, |v: AttrModel| is_xor_mapped(v), reflex),
            Err(e) => found_address(*resp, |v: AttrModel| is_other_address(v), None)
                && e.error_type == STUNErrorType::DidNotFindExpectedAttribute,
        },
{
    let other = match find_other_address(resp) {
        Some(o) => o,
        None => return Err(STUNError::with_text(STUNStep::STUNNetwork, STUNErrorType::DidNotFindExpectedAttribute, "the server gives no other address")),
    };
    Ok((other, find_xor_mapped_address(resp)))
}

/// Where test II goes: the other address with the primary port.
pub fn nat_test_two_server(other: &STUNSocketAddr, primary: &STUNSocketAddr) -> (r: STUNSocketAddr)
    ensures
        r@ == (AddrModel { port: primary@.port, ..other@ }),
{
    let port = match primary {
        STUNSocketAddr::V4 { port, .. } => *port,
        STUNSocketAddr::V6 { port, .. } => *port,
    };
    match other {
        STUNSocketAddr::V4 { ip, .. } => STUNSocketAddr::V4 { ip: *ip, port },
        STUNSocketAddr::V6 { ip, .. } => STUNSocketAddr::V6 { ip: *ip, port },
    }
}

/// Whether two optional reflexive addresses are the same.
pub fn same_reflex(a: &Option<STUNSocketAddr>, b: &Option<STUNSocketAddr>) -> (r: bool)
    ensures
        r == match (a, b) {
            (Some(x), Some(y)) => x@ == y@,
            (None, None) => true,
            _ => false,
        },
{
    match (a, b) {
        (Some(x), Some(y)) => same_address(x, y),
        (None, None) => true,
        _ => false,
    }
}

/// After test II: endpoint-independent mapping where the reflexive address
/// did not change; `None` where test III must decide.
pub fn mapping_after_test_two(reflex_one: &Option<STUNSocketAddr>, reflex_two: &Option<STUNSocketAddr>) -> (r: Option<STUNNatMappingType>)
    ensures
        same_reflex_spec(*reflex_one, *reflex_two) ==> r == Some(STUNNatMappingType::EndpointIndependent),
        !same_reflex_spec(*reflex_one, *reflex_two) ==> r is None,
{
    if same_reflex(reflex_one, reflex_two) {
        Some(STUNNatMappingType::EndpointIndependent)
    } else {
        None
    }
}

/// After test III: address-dependent mapping where the reflexive address
/// matches test II's, else address-and-port-dependent.
pub fn mapping_after_test_three(reflex_two: &Option<STUNSocketAddr>, reflex_three: &Option<STUNSocketAddr>) -> (r: STUNNatMappingType)
    ensures
        same_reflex_spec(*reflex_two, *reflex_three) ==> r == STUNNatMappingType::AddressDependant,
        !same_reflex_spec(*reflex_two, *reflex_three) ==> r == STUNNatMappingType::PortDependant,
{
    if same_reflex(reflex_two, reflex_three) {
        STUNNatMappingType::AddressDependant
    } else {
        STUNNatMappingType::PortDependant
    }
}

/// Both absent, or the same address.
pub open spec fn same_reflex_spec(a: Option<STUNSocketAddr>, b: Option<STUNSocketAddr>) -> bool {
    match (a, b) {
        (Some(x), Some(y)) => x@ == y@,
        (None, None) => true,
        _ => false,
    }
}

/// Hole punching is attempted only through endpoint-independent mapping.
pub fn hole_punching_verdict(mapping: STUNNatMappingType) -> (r: Result<(), STUNError>)
    ensures
        mapping == STUNNatMappingType::EndpointIndependent ==> r is Ok,
        mapping != STUNNatMappingType::EndpointIndependent ==> (r matches Err(e) && e.error_type == STUNErrorType::UnsupportedNATType),
{
    match mapping {
        STUNNatMappingType::EndpointIndependent => Ok(()),
        _ => Err(STUNError::with_text(STUNStep::STUNNetwork, STUNErrorType::UnsupportedNATType, "hole punching needs endpoint-independent mapping")),
    }
}

} // verus!
