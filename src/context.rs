use vstd::prelude::*;

verus! {

/// State carried across the messages of one exchange: the decoder fills
/// absent fields from what it reads, the encoder reads them.
#[derive(Debug, Clone)]
pub struct STUNContext {
    pub username: Option<String>,
    pub password: Option<String>,
    pub nonce: Option<String>,
    pub realm: Option<String>,
}

/// The mathematical value of a context.
pub struct ContextModel {
    pub username: Option<Seq<char>>,
    pub password: Option<Seq<char>>,
    pub nonce: Option<Seq<char>>,
    pub realm: Option<Seq<char>>,
}

/// The characters of an optional string.
pub open spec fn opt_str_view(s: Option<String>) -> Option<Seq<char>> {
    match s {
        Some(v) => Some(v@),
        None => None,
    }
}

impl View for STUNContext {
    type V = ContextModel;

    open spec fn view(&self) -> ContextModel {
        ContextModel {
            username: opt_str_view(self.username),
            password: opt_str_view(self.password),
            nonce: opt_str_view(self.nonce),
            realm: opt_str_view(self.realm),
        }
    }
}

/// The model of an optional context.
pub open spec fn opt_ctx_view(c: Option<&STUNContext>) -> Option<ContextModel> {
    match c {
        Some(v) => Some(v@),
        None => None,
    }
}

/// The model of an optional owned context.
pub open spec fn opt_owned_ctx_view(c: Option<STUNContext>) -> Option<ContextModel> {
    match c {
        Some(v) => Some(v@),
        None => None,
    }
}

impl STUNContext {
    pub fn new() -> (r: Self)
        ensures
            r.username is None,
            r.password is None,
            r.nonce is None,
            r.realm is None,
    {
        STUNContext { username: None, password: None, nonce: None, realm: None }
    }
}

/// Clones an optional string, keeping its value.
pub fn clone_opt_string(s: &Option<String>) -> (r: Option<String>)
    ensures
        opt_str_view(r) == opt_str_view(*s),
{
    match s {
        Some(v) => Some(v.clone()),
        None => None,
    }
}

} // verus!
