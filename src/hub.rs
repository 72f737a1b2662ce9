use vstd::prelude::*;

use crate::current::WeatherQuery;
use crate::uri::{
    has_pair, lemma_param_in_url, lemma_set_pair, param_in_url, set_pair, HasBuilder, UriBuilder,
};

verus! {

/// Rectangle given by geographic coordinates (latitude and longitude), each
/// written as a decimal number of degrees.
pub struct BoundingBox {
    pub top: String,
    pub bottom: String,
    pub left: String,
    pub right: String,
}

/// Units format for this query.
#[derive(Debug, Clone, Copy, PartialEq, Eq, Structural)]
pub enum Units {
    Metric,
    Imperial,
}

/// Wire name of a units format.
pub open spec fn units_text(u: Units) -> Seq<char> {
    match u {
        Units::Metric => "metric"@,
        Units::Imperial => "imperial"@,
    }
}

impl Units {
    /// `metric` or `imperial`.
    pub fn to_string(&self) -> (r: String)
        ensures
            r@ == units_text(*self),
    {
        match self {
            Units::Metric => String::from_str("metric"),
            Units::Imperial => String::from_str("imperial"),
        }
    }
}

/// Response modifiers, available on every query builder.
pub trait FormatResponse: HasBuilder {
    /// Change units format for the query. Default is Standard.
    fn units(self, units: Units) -> (r: Self)
        requires
            self.uri().wf(),
        ensures
            r.uri().wf(),
            r.uri().api_ver_text() == self.uri().api_ver_text(),
            r.uri().method_text() == self.uri().method_text(),
            r.uri().pairs() == set_pair(self.uri().pairs(), "units"@, units_text(units)),
    {
        let mut q = self;
        let s = units.to_string();
        q.builder().param("units", s);
        q
    }

    /// Change language for the query. Note that only the description of the
    /// weather is translated.
    fn lang(self, lang: &str) -> (r: Self)
        requires
            self.uri().wf(),
        ensures
            r.uri().wf(),
            r.uri().api_ver_text() == self.uri().api_ver_text(),
            r.uri().method_text() == self.uri().method_text(),
            r.uri().pairs() == set_pair(self.uri().pairs(), "lang"@, lang@),
    {
        let mut q = self;
        let s = String::from_str(lang);
        q.builder().param("lang", s);
        q
    }
}

/// Central hub to access all weather-related facilities: the caller's HTTP
/// client and the API key.
pub struct WeatherHub<C> {
    client: C,
    key: String,
}

impl<C> WeatherHub<C> {
    /// The API key.
    pub closed spec fn key_text(&self) -> Seq<char> {
        self.key@
    }

    /// The HTTP client.
    pub closed spec fn spec_client(&self) -> C {
        self.client
    }

    /// Creates a new hub that will use the provided client to perform its
    /// requests, with the given API key.
    pub fn new(client: C, key: &str) -> (r: Self)
        ensures
            r.key_text() == key@,
            r.spec_client() == client,
    {
        WeatherHub { client, key: String::from_str(key) }
    }

    /// The HTTP client that requests go through.
    pub fn client(&self) -> (r: &C)
        ensures
            *r == self.spec_client(),
    {
        &self.client
    }

    /// Provides access to the current-weather facilities: a query whose only
    /// parameter is `appid`, set to the key.
    pub fn current(&self) -> (r: WeatherQuery)
        ensures
            r.uri().wf(),
            r.uri().method_text() == Seq::<char>::empty(),
            r.uri().pairs() == seq![("appid"@, self.key_text())],
    {
        let mut ub = UriBuilder::new();
        ub.param("appid", self.key.clone());
        assert(ub.pairs() =~= seq![("appid"@, self.key_text())]);
        WeatherQuery::new(ub)
    }
}

/// The credential survives every parameter set under another key, and the
/// URL of a builder that holds it carries `appid=<key>`.
pub proof fn lemma_credential_kept(b: UriBuilder, key: Seq<char>, k: Seq<char>, v: Seq<char>)
    requires
        b.wf(),
        has_pair(b.pairs(), "appid"@, key),
        k != "appid"@,
    ensures
        has_pair(set_pair(b.pairs(), k, v), "appid"@, key),
        param_in_url(b.spec_url(), "appid"@, key),
{
    lemma_set_pair(b.pairs(), k, v);
    lemma_param_in_url(b, "appid"@, key);
}

} // verus!
