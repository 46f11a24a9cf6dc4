//! A request as plain values, and the address it goes to.
use vstd::prelude::*;

verus! {

/// One `name=value` pair of a query.
pub struct Parameter {
    pub name: String,
    pub value: String,
}

/// The mathematical value of a [`Parameter`].
pub ghost struct ParameterView {
    pub name: Seq<char>,
    pub value: Seq<char>,
}

impl DeepView for Parameter {
    type V = ParameterView;

    open spec fn deep_view(&self) -> ParameterView {
        ParameterView { name: self.name@, value: self.value@ }
    }
}

/// A GET request: the address without a query, and the one pair of the
/// query where the operation has one. Neither is percent-encoded yet.
pub struct Request {
    pub url: String,
    pub query: Option<Parameter>,
}

/// The mathematical value of a [`Request`].
pub ghost struct RequestView {
    pub url: Seq<char>,
    pub query: Option<ParameterView>,
}

impl DeepView for Request {
    type V = RequestView;

    open spec fn deep_view(&self) -> RequestView {
        RequestView { url: self.url@, query: self.query.deep_view() }
    }
}

/// The normal form of the absolute address `url`; `None` where `url` is no
/// absolute address.
pub uninterp spec fn resolved(url: Seq<char>) -> Option<Seq<char>>;

/// The normal form of the absolute address `url` with the pair
/// `name=value` appended to its query, both percent-encoded as in a form;
/// `None` where `url` is no absolute address.
pub uninterp spec fn resolved_with(url: Seq<char>, name: Seq<char>, value: Seq<char>) -> Option<
    Seq<char>,
>;

/// Calls `reqwest::Url::parse`, which is `url::Url::parse`, and gives the
/// address back as text. Nothing is proved of it: the contract only names the
/// result, which depends on `url` alone.
#[verifier::external_body]
fn resolve(url: &str) -> (address: Option<String>)
    ensures
        address.deep_view() == resolved(url@),
{
    reqwest::Url::parse(url).ok().map(String::from)
}

/// Calls `reqwest::Url::parse_with_params`, which is
/// `url::Url::parse_with_params`, with the one pair, and gives the address
/// back as text. Nothing is proved of it: the contract only names the result,
/// which depends on the three texts alone.
#[verifier::external_body]
fn resolve_with(url: &str, name: &str, value: &str) -> (address: Option<String>)
    ensures
        address.deep_view() == resolved_with(url@, name@, value@),
{
    reqwest::Url::parse_with_params(url, [(name, value)]).ok().map(String::from)
}

/// The address that a request goes to.
pub open spec fn target_of(request: RequestView) -> Option<Seq<char>> {
    match request.query {
        Some(pair) => resolved_with(request.url, pair.name, pair.value),
        None => resolved(request.url),
    }
}

impl Request {
    /// The address that this request goes to, query included, in the form
    /// in which it is sent; `None` where `url` is no absolute address.
    pub fn target(&self) -> (address: Option<String>)
        ensures
            address.deep_view() == target_of(self.deep_view()),
    {
        match &self.query {
            Some(pair) => resolve_with(self.url.as_str(), pair.name.as_str(), pair.value.as_str()),
            None => resolve(self.url.as_str()),
        }
    }
}

} // verus!
