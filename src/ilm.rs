//! The index lifecycle management namespace: one request builder per API.
use vstd::prelude::*;
use vstd::string::*;
use crate::client::{
    ApiRequest, Elasticsearch, Method, copy_pairs, encode_part, encoded_part, flag_entry, header_map,
    list_entry, pair_views, push_flag, push_list, push_text, set_header, text_entry,
};

verus! {

/// The URL parts of the IlmDeleteLifecycle API.
#[derive(Debug, Clone, Copy, PartialEq)]
pub enum IlmDeleteLifecycleParts<'b> {
    Policy(&'b str),
}

impl<'b> IlmDeleteLifecycleParts<'b> {
    /// The relative URL path that these parts select.
    pub open spec fn path(&self) -> Seq<char> {
        match self {
            IlmDeleteLifecycleParts::Policy(policy) => "/_ilm/policy/"@ + encoded_part(policy@),
        }
    }

    /// Builds the relative URL path, percent-encoding each part.
    pub fn url(self) -> (r: String)
        ensures
            r@ == self.path(),
    {
        match self {
            IlmDeleteLifecycleParts::Policy(policy) => {
                let mut p = String::from_str("/_ilm/policy/");
                p.append(encode_part(policy).as_str());
                p
            },
        }
    }
}

/// Builder for the IlmDeleteLifecycle API, which deletes the specified lifecycle policy definition.
#[derive(Clone, Debug)]
pub struct IlmDeleteLifecycle<'a, 'b> {
    pub client: &'a Elasticsearch,
    pub parts: IlmDeleteLifecycleParts<'b>,
    pub error_trace: Option<bool>,
    pub filter_path: Option<&'b [&'b str]>,
    pub human: Option<bool>,
    pub pretty: Option<bool>,
    pub source: Option<&'b str>,
    pub headers: Vec<(String, String)>,
}

impl<'a, 'b> IlmDeleteLifecycle<'a, 'b> {
    /// Whether nothing has been set on the builder yet.
    pub open spec fn is_fresh(&self) -> bool {
        &&& self.error_trace is None
        &&& self.filter_path is None
        &&& self.human is None
        &&& self.pretty is None
        &&& self.source is None
        &&& self.headers@.len() == 0
    }

    /// Creates a builder for the given URL parts.
    pub fn new(client: &'a Elasticsearch, parts: IlmDeleteLifecycleParts<'b>) -> (r: Self)
        ensures
            r.client == client,
            r.parts == parts,
            r.is_fresh(),
    {
        IlmDeleteLifecycle {
            client,
            parts: parts,
            error_trace: None,
            filter_path: None,
            human: None,
            pretty: None,
            source: None,
            headers: Vec::new(),
        }
    }

    /// Include the stack trace of returned errors.
    pub fn error_trace(self, error_trace: bool) -> (r: Self)
        ensures
            r.error_trace == Some(error_trace),
            r.client == self.client,
            r.parts == self.parts,
            r.filter_path == self.filter_path,
            r.human == self.human,
            r.pretty == self.pretty,
            r.source == self.source,
            r.headers == self.headers,
    {
        let mut b = self;
        b.error_trace = Some(error_trace);
        b
    }

    /// A comma-separated list of filters used to reduce the response.
    pub fn filter_path(self, filter_path: &'b [&'b str]) -> (r: Self)
        ensures
            r.filter_path == Some(filter_path),
            r.client == self.client,
            r.parts == self.parts,
            r.error_trace == self.error_trace,
            r.human == self.human,
            r.pretty == self.pretty,
            r.source == self.source,
            r.headers == self.headers,
    {
        let mut b = self;
        b.filter_path = Some(filter_path);
        b
    }

    /// Adds an HTTP header, replacing an earlier value of the same name.
    pub fn header(self, key: String, value: String) -> (r: Self)
        ensures
            header_map(pair_views(r.headers@)) == header_map(pair_views(self.headers@)).insert(
                key@,
                value@,
            ),
            r.client == self.client,
            r.parts == self.parts,
            r.error_trace == self.error_trace,
            r.filter_path == self.filter_path,
            r.human == self.human,
            r.pretty == self.pretty,
            r.source == self.source,
    {
        let mut b = self;
        set_header(&mut b.headers, key, value);
        b
    }

    /// Return human readable values for statistics.
    pub fn human(self, human: bool) -> (r: Self)
        ensures
            r.human == Some(human),
            r.client == self.client,
            r.parts == self.parts,
            r.error_trace == self.error_trace,
            r.filter_path == self.filter_path,
            r.pretty == self.pretty,
            r.source == self.source,
            r.headers == self.headers,
    {
        let mut b = self;
        b.human = Some(human);
        b
    }

    /// Pretty format the returned JSON response.
    pub fn pretty(self, pretty: bool) -> (r: Self)
        ensures
            r.pretty == Some(pretty),
            r.client == self.client,
            r.parts == self.parts,
            r.error_trace == self.error_trace,
            r.filter_path == self.filter_path,
            r.human == self.human,
            r.source == self.source,
            r.headers == self.headers,
    {
        let mut b = self;
        b.pretty = Some(pretty);
        b
    }

    /// The URL-encoded request definition, for clients that cannot send a body with this method.
    pub fn source(self, source: &'b str) -> (r: Self)
        ensures
            r.source == Some(source),
            r.client == self.client,
            r.parts == self.parts,
            r.error_trace == self.error_trace,
            r.filter_path == self.filter_path,
            r.human == self.human,
            r.pretty == self.pretty,
            r.headers == self.headers,
    {
        let mut b = self;
        b.source = Some(source);
        b
    }

    /// The query string entries that are set, in name order.
    pub open spec fn query_entries(&self) -> Seq<(Seq<char>, Seq<char>)> {
        flag_entry("error_trace"@, self.error_trace)
            + list_entry("filter_path"@, self.filter_path)
            + flag_entry("human"@, self.human)
            + flag_entry("pretty"@, self.pretty)
            + text_entry("source"@, self.source)
    }

    /// The request that this builder sends: its method, path, query
    /// string and headers.
    pub fn request(&self) -> (r: ApiRequest)
        ensures
            r.method == Method::Delete,
            r.path@ == self.parts.path(),
            pair_views(r.query@) == self.query_entries(),
            pair_views(r.headers@) == pair_views(self.headers@),
    {
        let mut query: Vec<(String, String)> = Vec::new();
        assert(pair_views(query@) =~= Seq::empty());
        push_flag(&mut query, "error_trace", self.error_trace);
        push_list(&mut query, "filter_path", self.filter_path);
        push_flag(&mut query, "human", self.human);
        push_flag(&mut query, "pretty", self.pretty);
        push_text(&mut query, "source", self.source);
        assert(pair_views(query@) =~= self.query_entries());
        ApiRequest {
            method: Method::Delete,
            path: self.parts.url(),
            query,
            headers: copy_pairs(&self.headers),
        }
    }
}

/// The URL parts of the IlmExplainLifecycle API.
#[derive(Debug, Clone, Copy, PartialEq)]
pub enum IlmExplainLifecycleParts<'b> {
    Index(&'b str),
}

impl<'b> IlmExplainLifecycleParts<'b> {
    /// The relative URL path that these parts select.
    pub open spec fn path(&self) -> Seq<char> {
        match self {
            IlmExplainLifecycleParts::Index(index) => "/"@ + encoded_part(index@) + "/_ilm/explain"@,
        }
    }

    /// Builds the relative URL path, percent-encoding each part.
    pub fn url(self) -> (r: String)
        ensures
            r@ == self.path(),
    {
        match self {
            IlmExplainLifecycleParts::Index(index) => {
                let mut p = String::from_str("/");
                p.append(encode_part(index).as_str());
                p.append("/_ilm/explain");
                p
            },
        }
    }
}

/// Builder for the IlmExplainLifecycle API, which retrieves the current lifecycle state of an index.
#[derive(Clone, Debug)]
pub struct IlmExplainLifecycle<'a, 'b> {
    pub client: &'a Elasticsearch,
    pub parts: IlmExplainLifecycleParts<'b>,
    pub error_trace: Option<bool>,
    pub filter_path: Option<&'b [&'b str]>,
    pub human: Option<bool>,
    pub only_errors: Option<bool>,
    pub only_managed: Option<bool>,
    pub pretty: Option<bool>,
    pub source: Option<&'b str>,
    pub headers: Vec<(String, String)>,
}

impl<'a, 'b> IlmExplainLifecycle<'a, 'b> {
    /// Whether nothing has been set on the builder yet.
    pub open spec fn is_fresh(&self) -> bool {
        &&& self.error_trace is None
        &&& self.filter_path is None
        &&& self.human is None
        &&& self.only_errors is None
        &&& self.only_managed is None
        &&& self.pretty is None
        &&& self.source is None
        &&& self.headers@.len() == 0
    }

    /// Creates a builder for the given URL parts.
    pub fn new(client: &'a Elasticsearch, parts: IlmExplainLifecycleParts<'b>) -> (r: Self)
        ensures
            r.client == client,
            r.parts == parts,
            r.is_fresh(),
    {
        IlmExplainLifecycle {
            client,
            parts: parts,
            error_trace: None,
            filter_path: None,
            human: None,
            only_errors: None,
            only_managed: None,
            pretty: None,
            source: None,
            headers: Vec::new(),
        }
    }

    /// Include the stack trace of returned errors.
    pub fn error_trace(self, error_trace: bool) -> (r: Self)
        ensures
            r.error_trace == Some(error_trace),
            r.client == self.client,
            r.parts == self.parts,
            r.filter_path == self.filter_path,
            r.human == self.human,
            r.only_errors == self.only_errors,
            r.only_managed == self.only_managed,
            r.pretty == self.pretty,
            r.source == self.source,
            r.headers == self.headers,
    {
        let mut b = self;
        b.error_trace = Some(error_trace);
        b
    }

    /// A comma-separated list of filters used to reduce the response.
    pub fn filter_path(self, filter_path: &'b [&'b str]) -> (r: Self)
        ensures
            r.filter_path == Some(filter_path),
            r.client == self.client,
            r.parts == self.parts,
            r.error_trace == self.error_trace,
            r.human == self.human,
            r.only_errors == self.only_errors,
            r.only_managed == self.only_managed,
            r.pretty == self.pretty,
            r.source == self.source,
            r.headers == self.headers,
    {
        let mut b = self;
        b.filter_path = Some(filter_path);
        b
    }

    /// Adds an HTTP header, replacing an earlier value of the same name.
    pub fn header(self, key: String, value: String) -> (r: Self)
        ensures
            header_map(pair_views(r.headers@)) == header_map(pair_views(self.headers@)).insert(
                key@,
                value@,
            ),
            r.client == self.client,
            r.parts == self.parts,
            r.error_trace == self.error_trace,
            r.filter_path == self.filter_path,
            r.human == self.human,
            r.only_errors == self.only_errors,
            r.only_managed == self.only_managed,
            r.pretty == self.pretty,
            r.source == self.source,
    {
        let mut b = self;
        set_header(&mut b.headers, key, value);
        b
    }

    /// Return human readable values for statistics.
    pub fn human(self, human: bool) -> (r: Self)
        ensures
            r.human == Some(human),
            r.client == self.client,
            r.parts == self.parts,
            r.error_trace == self.error_trace,
            r.filter_path == self.filter_path,
            r.only_errors == self.only_errors,
            r.only_managed == self.only_managed,
            r.pretty == self.pretty,
            r.source == self.source,
            r.headers == self.headers,
    {
        let mut b = self;
        b.human = Some(human);
        b
    }

    /// Filters the indices included in the response to ones in an error state.
    pub fn only_errors(self, only_errors: bool) -> (r: Self)
        ensures
            r.only_errors == Some(only_errors),
            r.client == self.client,
            r.parts == self.parts,
            r.error_trace == self.error_trace,
            r.filter_path == self.filter_path,
            r.human == self.human,
            r.only_managed == self.only_managed,
            r.pretty == self.pretty,
            r.source == self.source,
            r.headers == self.headers,
    {
        let mut b = self;
        b.only_errors = Some(only_errors);
        b
    }

    /// Filters the indices included in the response to ones managed by a policy.
    pub fn only_managed(self, only_managed: bool) -> (r: Self)
        ensures
            r.only_managed == Some(only_managed),
            r.client == self.client,
            r.parts == self.parts,
            r.error_trace == self.error_trace,
            r.filter_path == self.filter_path,
            r.human == self.human,
            r.only_errors == self.only_errors,
            r.pretty == self.pretty,
            r.source == self.source,
            r.headers == self.headers,
    {
        let mut b = self;
        b.only_managed = Some(only_managed);
        b
    }

    /// Pretty format the returned JSON response.
    pub fn pretty(self, pretty: bool) -> (r: Self)
        ensures
            r.pretty == Some(pretty),
            r.client == self.client,
            r.parts == self.parts,
            r.error_trace == self.error_trace,
            r.filter_path == self.filter_path,
            r.human == self.human,
            r.only_errors == self.only_errors,
            r.only_managed == self.only_managed,
            r.source == self.source,
            r.headers == self.headers,
    {
        let mut b = self;
        b.pretty = Some(pretty);
        b
    }

    /// The URL-encoded request definition, for clients that cannot send a body with this method.
    pub fn source(self, source: &'b str) -> (r: Self)
        ensures
            r.source == Some(source),
            r.client == self.client,
            r.parts == self.parts,
            r.error_trace == self.error_trace,
            r.filter_path == self.filter_path,
            r.human == self.human,
            r.only_errors == self.only_errors,
            r.only_managed == self.only_managed,
            r.pretty == self.pretty,
            r.headers == self.headers,
    {
        let mut b = self;
        b.source = Some(source);
        b
    }

    /// The query string entries that are set, in name order.
    pub open spec fn query_entries(&self) -> Seq<(Seq<char>, Seq<char>)> {
        flag_entry("error_trace"@, self.error_trace)
            + list_entry("filter_path"@, self.filter_path)
            + flag_entry("human"@, self.human)
            + flag_entry("only_errors"@, self.only_errors)
            + flag_entry("only_managed"@, self.only_managed)
            + flag_entry("pretty"@, self.pretty)
            + text_entry("source"@, self.source)
    }

    /// The request that this builder sends: its method, path, query
    /// string and headers.
    pub fn request(&self) -> (r: ApiRequest)
        ensures
            r.method == Method::Get,
            r.path@ == self.parts.path(),
            pair_views(r.query@) == self.query_entries(),
            pair_views(r.headers@) == pair_views(self.headers@),
    {
        let mut query: Vec<(String, String)> = Vec::new();
        assert(pair_views(query@) =~= Seq::empty());
        push_flag(&mut query, "error_trace", self.error_trace);
        push_list(&mut query, "filter_path", self.filter_path);
        push_flag(&mut query, "human", self.human);
        push_flag(&mut query, "only_errors", self.only_errors);
        push_flag(&mut query, "only_managed", self.only_managed);
        push_flag(&mut query, "pretty", self.pretty);
        push_text(&mut query, "source", self.source);
        assert(pair_views(query@) =~= self.query_entries());
        ApiRequest {
            method: Method::Get,
            path: self.parts.url(),
            query,
            headers: copy_pairs(&self.headers),
        }
    }
}

/// The URL parts of the IlmGetLifecycle API.
#[derive(Debug, Clone, Copy, PartialEq)]
pub enum IlmGetLifecycleParts<'b> {
    Policy(&'b str),
    NoParts,
}

impl<'b> IlmGetLifecycleParts<'b> {
    /// The relative URL path that these parts select.
    pub open spec fn path(&self) -> Seq<char> {
        match self {
            IlmGetLifecycleParts::Policy(policy) => "/_ilm/policy/"@ + encoded_part(policy@),
            IlmGetLifecycleParts::NoParts => "/_ilm/policy"@,
        }
    }

    /// Builds the relative URL path, percent-encoding each part.
    pub fn url(self) -> (r: String)
        ensures
            r@ == self.path(),
    {
        match self {
            IlmGetLifecycleParts::Policy(policy) => {
                let mut p = String::from_str("/_ilm/policy/");
                p.append(encode_part(policy).as_str());
                p
            },
            IlmGetLifecycleParts::NoParts => String::from_str("/_ilm/policy"),
        }
    }
}

/// Builder for the IlmGetLifecycle API, which returns the specified policy definition.
#[derive(Clone, Debug)]
pub struct IlmGetLifecycle<'a, 'b> {
    pub client: &'a Elasticsearch,
    pub parts: IlmGetLifecycleParts<'b>,
    pub error_trace: Option<bool>,
    pub filter_path: Option<&'b [&'b str]>,
    pub human: Option<bool>,
    pub pretty: Option<bool>,
    pub source: Option<&'b str>,
    pub headers: Vec<(String, String)>,
}

impl<'a, 'b> IlmGetLifecycle<'a, 'b> {
    /// Whether nothing has been set on the builder yet.
    pub open spec fn is_fresh(&self) -> bool {
        &&& self.error_trace is None
        &&& self.filter_path is None
        &&& self.human is None
        &&& self.pretty is None
        &&& self.source is None
        &&& self.headers@.len() == 0
    }

    /// Creates a builder for the given URL parts.
    pub fn new(client: &'a Elasticsearch, parts: IlmGetLifecycleParts<'b>) -> (r: Self)
        ensures
            r.client == client,
            r.parts == parts,
            r.is_fresh(),
    {
        IlmGetLifecycle {
            client,
            parts: parts,
            error_trace: None,
            filter_path: None,
            human: None,
            pretty: None,
            source: None,
            headers: Vec::new(),
        }
    }

    /// Include the stack trace of returned errors.
    pub fn error_trace(self, error_trace: bool) -> (r: Self)
        ensures
            r.error_trace == Some(error_trace),
            r.client == self.client,
            r.parts == self.parts,
            r.filter_path == self.filter_path,
            r.human == self.human,
            r.pretty == self.pretty,
            r.source == self.source,
            r.headers == self.headers,
    {
        let mut b = self;
        b.error_trace = Some(error_trace);
        b
    }

    /// A comma-separated list of filters used to reduce the response.
    pub fn filter_path(self, filter_path: &'b [&'b str]) -> (r: Self)
        ensures
            r.filter_path == Some(filter_path),
            r.client == self.client,
            r.parts == self.parts,
            r.error_trace == self.error_trace,
            r.human == self.human,
            r.pretty == self.pretty,
            r.source == self.source,
            r.headers == self.headers,
    {
        let mut b = self;
        b.filter_path = Some(filter_path);
        b
    }

    /// Adds an HTTP header, replacing an earlier value of the same name.
    pub fn header(self, key: String, value: String) -> (r: Self)
        ensures
            header_map(pair_views(r.headers@)) == header_map(pair_views(self.headers@)).insert(
                key@,
                value@,
            ),
            r.client == self.client,
            r.parts == self.parts,
            r.error_trace == self.error_trace,
            r.filter_path == self.filter_path,
            r.human == self.human,
            r.pretty == self.pretty,
            r.source == self.source,
    {
        let mut b = self;
        set_header(&mut b.headers, key, value);
        b
    }

    /// Return human readable values for statistics.
    pub fn human(self, human: bool) -> (r: Self)
        ensures
            r.human == Some(human),
            r.client == self.client,
            r.parts == self.parts,
            r.error_trace == self.error_trace,
            r.filter_path == self.filter_path,
            r.pretty == self.pretty,
            r.source == self.source,
            r.headers == self.headers,
    {
        let mut b = self;
        b.human = Some(human);
        b
    }

    /// Pretty format the returned JSON response.
    pub fn pretty(self, pretty: bool) -> (r: Self)
        ensures
            r.pretty == Some(pretty),
            r.client == self.client,
            r.parts == self.parts,
            r.error_trace == self.error_trace,
            r.filter_path == self.filter_path,
            r.human == self.human,
            r.source == self.source,
            r.headers == self.headers,
    {
        let mut b = self;
        b.pretty = Some(pretty);
        b
    }

    /// The URL-encoded request definition, for clients that cannot send a body with this method.
    pub fn source(self, source: &'b str) -> (r: Self)
        ensures
            r.source == Some(source),
            r.client == self.client,
            r.parts == self.parts,
            r.error_trace == self.error_trace,
            r.filter_path == self.filter_path,
            r.human == self.human,
            r.pretty == self.pretty,
            r.headers == self.headers,
    {
        let mut b = self;
        b.source = Some(source);
        b
    }

    /// The query string entries that are set, in name order.
    pub open spec fn query_entries(&self) -> Seq<(Seq<char>, Seq<char>)> {
        flag_entry("error_trace"@, self.error_trace)
            + list_entry("filter_path"@, self.filter_path)
            + flag_entry("human"@, self.human)
            + flag_entry("pretty"@, self.pretty)
            + text_entry("source"@, self.source)
    }

    /// The request that this builder sends: its method, path, query
    /// string and headers.
    pub fn request(&self) -> (r: ApiRequest)
        ensures
            r.method == Method::Get,
            r.path@ == self.parts.path(),
            pair_views(r.query@) == self.query_entries(),
            pair_views(r.headers@) == pair_views(self.headers@),
    {
        let mut query: Vec<(String, String)> = Vec::new();
        assert(pair_views(query@) =~= Seq::empty());
        push_flag(&mut query, "error_trace", self.error_trace);
        push_list(&mut query, "filter_path", self.filter_path);
        push_flag(&mut query, "human", self.human);
        push_flag(&mut query, "pretty", self.pretty);
        push_text(&mut query, "source", self.source);
        assert(pair_views(query@) =~= self.query_entries());
        ApiRequest {
            method: Method::Get,
            path: self.parts.url(),
            query,
            headers: copy_pairs(&self.headers),
        }
    }
}

/// The URL parts of the IlmGetStatus API.
#[derive(Debug, Clone, Copy, PartialEq)]
pub enum IlmGetStatusParts {
    NoParts,
}

impl IlmGetStatusParts {
    /// The relative URL path that these parts select.
    pub open spec fn path(&self) -> Seq<char> {
        match self {
            IlmGetStatusParts::NoParts => "/_ilm/status"@,
        }
    }

    /// Builds the relative URL path, percent-encoding each part.
    pub fn url(self) -> (r: String)
        ensures
            r@ == self.path(),
    {
        match self {
            IlmGetStatusParts::NoParts => String::from_str("/_ilm/status"),
        }
    }
}

/// Builder for the IlmGetStatus API, which retrieves the current index lifecycle management status.
#[derive(Clone, Debug)]
pub struct IlmGetStatus<'a, 'b> {
    pub client: &'a Elasticsearch,
    pub parts: IlmGetStatusParts,
    pub error_trace: Option<bool>,
    pub filter_path: Option<&'b [&'b str]>,
    pub human: Option<bool>,
    pub pretty: Option<bool>,
    pub source: Option<&'b str>,
    pub headers: Vec<(String, String)>,
}

impl<'a, 'b> IlmGetStatus<'a, 'b> {
    /// Whether nothing has been set on the builder yet.
    pub open spec fn is_fresh(&self) -> bool {
        &&& self.error_trace is None
        &&& self.filter_path is None
        &&& self.human is None
        &&& self.pretty is None
        &&& self.source is None
        &&& self.headers@.len() == 0
    }

    /// Creates a builder.
    pub fn new(client: &'a Elasticsearch) -> (r: Self)
        ensures
            r.client == client,
            r.parts == IlmGetStatusParts::NoParts,
            r.is_fresh(),
    {
        IlmGetStatus {
            client,
            parts: IlmGetStatusParts::NoParts,
            error_trace: None,
            filter_path: None,
            human: None,
            pretty: None,
            source: None,
            headers: Vec::new(),
        }
    }

    /// Include the stack trace of returned errors.
    pub fn error_trace(self, error_trace: bool) -> (r: Self)
        ensures
            r.error_trace == Some(error_trace),
            r.client == self.client,
            r.parts == self.parts,
            r.filter_path == self.filter_path,
            r.human == self.human,
            r.pretty == self.pretty,
            r.source == self.source,
            r.headers == self.headers,
    {
        let mut b = self;
        b.error_trace = Some(error_trace);
        b
    }

    /// A comma-separated list of filters used to reduce the response.
    pub fn filter_path(self, filter_path: &'b [&'b str]) -> (r: Self)
        ensures
            r.filter_path == Some(filter_path),
            r.client == self.client,
            r.parts == self.parts,
            r.error_trace == self.error_trace,
            r.human == self.human,
            r.pretty == self.pretty,
            r.source == self.source,
            r.headers == self.headers,
    {
        let mut b = self;
        b.filter_path = Some(filter_path);
        b
    }

    /// Adds an HTTP header, replacing an earlier value of the same name.
    pub fn header(self, key: String, value: String) -> (r: Self)
        ensures
            header_map(pair_views(r.headers@)) == header_map(pair_views(self.headers@)).insert(
                key@,
                value@,
            ),
            r.client == self.client,
            r.parts == self.parts,
            r.error_trace == self.error_trace,
            r.filter_path == self.filter_path,
            r.human == self.human,
            r.pretty == self.pretty,
            r.source == self.source,
    {
        let mut b = self;
        set_header(&mut b.headers, key, value);
        b
    }

    /// Return human readable values for statistics.
    pub fn human(self, human: bool) -> (r: Self)
        ensures
            r.human == Some(human),
            r.client == self.client,
            r.parts == self.parts,
            r.error_trace == self.error_trace,
            r.filter_path == self.filter_path,
            r.pretty == self.pretty,
            r.source == self.source,
            r.headers == self.headers,
    {
        let mut b = self;
        b.human = Some(human);
        b
    }

    /// Pretty format the returned JSON response.
    pub fn pretty(self, pretty: bool) -> (r: Self)
        ensures
            r.pretty == Some(pretty),
            r.client == self.client,
            r.parts == self.parts,
            r.error_trace == self.error_trace,
            r.filter_path == self.filter_path,
            r.human == self.human,
            r.source == self.source,
            r.headers == self.headers,
    {
        let mut b = self;
        b.pretty = Some(pretty);
        b
    }

    /// The URL-encoded request definition, for clients that cannot send a body with this method.
    pub fn source(self, source: &'b str) -> (r: Self)
        ensures
            r.source == Some(source),
            r.client == self.client,
            r.parts == self.parts,
            r.error_trace == self.error_trace,
            r.filter_path == self.filter_path,
            r.human == self.human,
            r.pretty == self.pretty,
            r.headers == self.headers,
    {
        let mut b = self;
        b.source = Some(source);
        b
    }

    /// The query string entries that are set, in name order.
    pub open spec fn query_entries(&self) -> Seq<(Seq<char>, Seq<char>)> {
        flag_entry("error_trace"@, self.error_trace)
            + list_entry("filter_path"@, self.filter_path)
            + flag_entry("human"@, self.human)
            + flag_entry("pretty"@, self.pretty)
            + text_entry("source"@, self.source)
    }

    /// The request that this builder sends: its method, path, query
    /// string and headers.
    pub fn request(&self) -> (r: ApiRequest)
        ensures
            r.method == Method::Get,
            r.path@ == self.parts.path(),
            pair_views(r.query@) == self.query_entries(),
            pair_views(r.headers@) == pair_views(self.headers@),
    {
        let mut query: Vec<(String, String)> = Vec::new();
        assert(pair_views(query@) =~= Seq::empty());
        push_flag(&mut query, "error_trace", self.error_trace);
        push_list(&mut query, "filter_path", self.filter_path);
        push_flag(&mut query, "human", self.human);
        push_flag(&mut query, "pretty", self.pretty);
        push_text(&mut query, "source", self.source);
        assert(pair_views(query@) =~= self.query_entries());
        ApiRequest {
            method: Method::Get,
            path: self.parts.url(),
            query,
            headers: copy_pairs(&self.headers),
        }
    }
}

/// The URL parts of the IlmMoveToStep API.
#[derive(Debug, Clone, Copy, PartialEq)]
pub enum IlmMoveToStepParts<'b> {
    Index(&'b str),
}

impl<'b> IlmMoveToStepParts<'b> {
    /// The relative URL path that these parts select.
    pub open spec fn path(&self) -> Seq<char> {
        match self {
            IlmMoveToStepParts::Index(index) => "/_ilm/move/"@ + encoded_part(index@),
        }
    }

    /// Builds the relative URL path, percent-encoding each part.
    pub fn url(self) -> (r: String)
        ensures
            r@ == self.path(),
    {
        match self {
            IlmMoveToStepParts::Index(index) => {
                let mut p = String::from_str("/_ilm/move/");
                p.append(encode_part(index).as_str());
                p
            },
        }
    }
}

/// Builder for the IlmMoveToStep API, which manually moves an index into the specified step and executes that step.
#[derive(Clone, Debug)]
pub struct IlmMoveToStep<'a, 'b, B> {
    pub client: &'a Elasticsearch,
    pub parts: IlmMoveToStepParts<'b>,
    pub body: Option<B>,
    pub error_trace: Option<bool>,
    pub filter_path: Option<&'b [&'b str]>,
    pub human: Option<bool>,
    pub pretty: Option<bool>,
    pub source: Option<&'b str>,
    pub headers: Vec<(String, String)>,
}

impl<'a, 'b, B> IlmMoveToStep<'a, 'b, B> {
    /// Whether nothing has been set on the builder yet.
    pub open spec fn is_fresh(&self) -> bool {
        &&& self.body is None
        &&& self.error_trace is None
        &&& self.filter_path is None
        &&& self.human is None
        &&& self.pretty is None
        &&& self.source is None
        &&& self.headers@.len() == 0
    }

    /// Creates a builder for the given URL parts.
    pub fn new(client: &'a Elasticsearch, parts: IlmMoveToStepParts<'b>) -> (r: Self)
        ensures
            r.client == client,
            r.parts == parts,
            r.is_fresh(),
    {
        IlmMoveToStep {
            client,
            parts: parts,
            body: None,
            error_trace: None,
            filter_path: None,
            human: None,
            pretty: None,
            source: None,
            headers: Vec::new(),
        }
    }

    /// Sets the body of the request.
    pub fn body<T>(self, body: T) -> (r: IlmMoveToStep<'a, 'b, T>)
        ensures
            r.body == Some(body),
            r.client == self.client,
            r.parts == self.parts,
            r.error_trace == self.error_trace,
            r.filter_path == self.filter_path,
            r.human == self.human,
            r.pretty == self.pretty,
            r.source == self.source,
            r.headers == self.headers,
    {
        IlmMoveToStep {
            client: self.client,
            parts: self.parts,
            body: Some(body),
            error_trace: self.error_trace,
            filter_path: self.filter_path,
            human: self.human,
            pretty: self.pretty,
            source: self.source,
            headers: self.headers,
        }
    }

    /// Include the stack trace of returned errors.
    pub fn error_trace(self, error_trace: bool) -> (r: Self)
        ensures
            r.error_trace == Some(error_trace),
            r.client == self.client,
            r.parts == self.parts,
            r.body == self.body,
            r.filter_path == self.filter_path,
            r.human == self.human,
            r.pretty == self.pretty,
            r.source == self.source,
            r.headers == self.headers,
    {
        let mut b = self;
        b.error_trace = Some(error_trace);
        b
    }

    /// A comma-separated list of filters used to reduce the response.
    pub fn filter_path(self, filter_path: &'b [&'b str]) -> (r: Self)
        ensures
            r.filter_path == Some(filter_path),
            r.client == self.client,
            r.parts == self.parts,
            r.body == self.body,
            r.error_trace == self.error_trace,
            r.human == self.human,
            r.pretty == self.pretty,
            r.source == self.source,
            r.headers == self.headers,
    {
        let mut b = self;
        b.filter_path = Some(filter_path);
        b
    }

    /// Adds an HTTP header, replacing an earlier value of the same name.
    pub fn header(self, key: String, value: String) -> (r: Self)
        ensures
            header_map(pair_views(r.headers@)) == header_map(pair_views(self.headers@)).insert(
                key@,
                value@,
            ),
            r.client == self.client,
            r.parts == self.parts,
            r.body == self.body,
            r.error_trace == self.error_trace,
            r.filter_path == self.filter_path,
            r.human == self.human,
            r.pretty == self.pretty,
            r.source == self.source,
    {
        let mut b = self;
        set_header(&mut b.headers, key, value);
        b
    }

    /// Return human readable values for statistics.
    pub fn human(self, human: bool) -> (r: Self)
        ensures
            r.human == Some(human),
            r.client == self.client,
            r.parts == self.parts,
            r.body == self.body,
            r.error_trace == self.error_trace,
            r.filter_path == self.filter_path,
            r.pretty == self.pretty,
            r.source == self.source,
            r.headers == self.headers,
    {
        let mut b = self;
        b.human = Some(human);
        b
    }

    /// Pretty format the returned JSON response.
    pub fn pretty(self, pretty: bool) -> (r: Self)
        ensures
            r.pretty == Some(pretty),
            r.client == self.client,
            r.parts == self.parts,
            r.body == self.body,
            r.error_trace == self.error_trace,
            r.filter_path == self.filter_path,
            r.human == self.human,
            r.source == self.source,
            r.headers == self.headers,
    {
        let mut b = self;
        b.pretty = Some(pretty);
        b
    }

    /// The URL-encoded request definition, for clients that cannot send a body with this method.
    pub fn source(self, source: &'b str) -> (r: Self)
        ensures
            r.source == Some(source),
            r.client == self.client,
            r.parts == self.parts,
            r.body == self.body,
            r.error_trace == self.error_trace,
            r.filter_path == self.filter_path,
            r.human == self.human,
            r.pretty == self.pretty,
            r.headers == self.headers,
    {
        let mut b = self;
        b.source = Some(source);
        b
    }

    /// The query string entries that are set, in name order.
    pub open spec fn query_entries(&self) -> Seq<(Seq<char>, Seq<char>)> {
        flag_entry("error_trace"@, self.error_trace)
            + list_entry("filter_path"@, self.filter_path)
            + flag_entry("human"@, self.human)
            + flag_entry("pretty"@, self.pretty)
            + text_entry("source"@, self.source)
    }

    /// The request that this builder sends: its method, path, query
    /// string and headers.
    pub fn request(&self) -> (r: ApiRequest)
        ensures
            r.method == Method::Post,
            r.path@ == self.parts.path(),
            pair_views(r.query@) == self.query_entries(),
            pair_views(r.headers@) == pair_views(self.headers@),
    {
        let mut query: Vec<(String, String)> = Vec::new();
        assert(pair_views(query@) =~= Seq::empty());
        push_flag(&mut query, "error_trace", self.error_trace);
        push_list(&mut query, "filter_path", self.filter_path);
        push_flag(&mut query, "human", self.human);
        push_flag(&mut query, "pretty", self.pretty);
        push_text(&mut query, "source", self.source);
        assert(pair_views(query@) =~= self.query_entries());
        ApiRequest {
            method: Method::Post,
            path: self.parts.url(),
            query,
            headers: copy_pairs(&self.headers),
        }
    }
}

/// The URL parts of the IlmPutLifecycle API.
#[derive(Debug, Clone, Copy, PartialEq)]
pub enum IlmPutLifecycleParts<'b> {
    Policy(&'b str),
}

impl<'b> IlmPutLifecycleParts<'b> {
    /// The relative URL path that these parts select.
    pub open spec fn path(&self) -> Seq<char> {
        match self {
            IlmPutLifecycleParts::Policy(policy) => "/_ilm/policy/"@ + encoded_part(policy@),
        }
    }

    /// Builds the relative URL path, percent-encoding each part.
    pub fn url(self) -> (r: String)
        ensures
            r@ == self.path(),
    {
        match self {
            IlmPutLifecycleParts::Policy(policy) => {
                let mut p = String::from_str("/_ilm/policy/");
                p.append(encode_part(policy).as_str());
                p
            },
        }
    }
}

/// Builder for the IlmPutLifecycle API, which creates a lifecycle policy.
#[derive(Clone, Debug)]
pub struct IlmPutLifecycle<'a, 'b, B> {
    pub client: &'a Elasticsearch,
    pub parts: IlmPutLifecycleParts<'b>,
    pub body: Option<B>,
    pub error_trace: Option<bool>,
    pub filter_path: Option<&'b [&'b str]>,
    pub human: Option<bool>,
    pub pretty: Option<bool>,
    pub source: Option<&'b str>,
    pub headers: Vec<(String, String)>,
}

impl<'a, 'b, B> IlmPutLifecycle<'a, 'b, B> {
    /// Whether nothing has been set on the builder yet.
    pub open spec fn is_fresh(&self) -> bool {
        &&& self.body is None
        &&& self.error_trace is None
        &&& self.filter_path is None
        &&& self.human is None
        &&& self.pretty is None
        &&& self.source is None
        &&& self.headers@.len() == 0
    }

    /// Creates a builder for the given URL parts.
    pub fn new(client: &'a Elasticsearch, parts: IlmPutLifecycleParts<'b>) -> (r: Self)
        ensures
            r.client == client,
            r.parts == parts,
            r.is_fresh(),
    {
        IlmPutLifecycle {
            client,
            parts: parts,
            body: None,
            error_trace: None,
            filter_path: None,
            human: None,
            pretty: None,
            source: None,
            headers: Vec::new(),
        }
    }

    /// Sets the body of the request.
    pub fn body<T>(self, body: T) -> (r: IlmPutLifecycle<'a, 'b, T>)
        ensures
            r.body == Some(body),
            r.client == self.client,
            r.parts == self.parts,
            r.error_trace == self.error_trace,
            r.filter_path == self.filter_path,
            r.human == self.human,
            r.pretty == self.pretty,
            r.source == self.source,
            r.headers == self.headers,
    {
        IlmPutLifecycle {
            client: self.client,
            parts: self.parts,
            body: Some(body),
            error_trace: self.error_trace,
            filter_path: self.filter_path,
            human: self.human,
            pretty: self.pretty,
            source: self.source,
            headers: self.headers,
        }
    }

    /// Include the stack trace of returned errors.
    pub fn error_trace(self, error_trace: bool) -> (r: Self)
        ensures
            r.error_trace == Some(error_trace),
            r.client == self.client,
            r.parts == self.parts,
            r.body == self.body,
            r.filter_path == self.filter_path,
            r.human == self.human,
            r.pretty == self.pretty,
            r.source == self.source,
            r.headers == self.headers,
    {
        let mut b = self;
        b.error_trace = Some(error_trace);
        b
    }

    /// A comma-separated list of filters used to reduce the response.
    pub fn filter_path(self, filter_path: &'b [&'b str]) -> (r: Self)
        ensures
            r.filter_path == Some(filter_path),
            r.client == self.client,
            r.parts == self.parts,
            r.body == self.body,
            r.error_trace == self.error_trace,
            r.human == self.human,
            r.pretty == self.pretty,
            r.source == self.source,
            r.headers == self.headers,
    {
        let mut b = self;
        b.filter_path = Some(filter_path);
        b
    }

    /// Adds an HTTP header, replacing an earlier value of the same name.
    pub fn header(self, key: String, value: String) -> (r: Self)
        ensures
            header_map(pair_views(r.headers@)) == header_map(pair_views(self.headers@)).insert(
                key@,
                value@,
            ),
            r.client == self.client,
            r.parts == self.parts,
            r.body == self.body,
            r.error_trace == self.error_trace,
            r.filter_path == self.filter_path,
            r.human == self.human,
            r.pretty == self.pretty,
            r.source == self.source,
    {
        let mut b = self;
        set_header(&mut b.headers, key, value);
        b
    }

    /// Return human readable values for statistics.
    pub fn human(self, human: bool) -> (r: Self)
        ensures
            r.human == Some(human),
            r.client == self.client,
            r.parts == self.parts,
            r.body == self.body,
            r.error_trace == self.error_trace,
            r.filter_path == self.filter_path,
            r.pretty == self.pretty,
            r.source == self.source,
            r.headers == self.headers,
    {
        let mut b = self;
        b.human = Some(human);
        b
    }

    /// Pretty format the returned JSON response.
    pub fn pretty(self, pretty: bool) -> (r: Self)
        ensures
            r.pretty == Some(pretty),
            r.client == self.client,
            r.parts == self.parts,
            r.body == self.body,
            r.error_trace == self.error_trace,
            r.filter_path == self.filter_path,
            r.human == self.human,
            r.source == self.source,
            r.headers == self.headers,
    {
        let mut b = self;
        b.pretty = Some(pretty);
        b
    }

    /// The URL-encoded request definition, for clients that cannot send a body with this method.
    pub fn source(self, source: &'b str) -> (r: Self)
        ensures
            r.source == Some(source),
            r.client == self.client,
            r.parts == self.parts,
            r.body == self.body,
            r.error_trace == self.error_trace,
            r.filter_path == self.filter_path,
            r.human == self.human,
            r.pretty == self.pretty,
            r.headers == self.headers,
    {
        let mut b = self;
        b.source = Some(source);
        b
    }

    /// The query string entries that are set, in name order.
    pub open spec fn query_entries(&self) -> Seq<(Seq<char>, Seq<char>)> {
        flag_entry("error_trace"@, self.error_trace)
            + list_entry("filter_path"@, self.filter_path)
            + flag_entry("human"@, self.human)
            + flag_entry("pretty"@, self.pretty)
            + text_entry("source"@, self.source)
    }

    /// The request that this builder sends: its method, path, query
    /// string and headers.
    pub fn request(&self) -> (r: ApiRequest)
        ensures
            r.method == Method::Put,
            r.path@ == self.parts.path(),
            pair_views(r.query@) == self.query_entries(),
            pair_views(r.headers@) == pair_views(self.headers@),
    {
        let mut query: Vec<(String, String)> = Vec::new();
        assert(pair_views(query@) =~= Seq::empty());
        push_flag(&mut query, "error_trace", self.error_trace);
        push_list(&mut query, "filter_path", self.filter_path);
        push_flag(&mut query, "human", self.human);
        push_flag(&mut query, "pretty", self.pretty);
        push_text(&mut query, "source", self.source);
        assert(pair_views(query@) =~= self.query_entries());
        ApiRequest {
            method: Method::Put,
            path: self.parts.url(),
            query,
            headers: copy_pairs(&self.headers),
        }
    }
}

/// The URL parts of the IlmRemovePolicy API.
#[derive(Debug, Clone, Copy, PartialEq)]
pub enum IlmRemovePolicyParts<'b> {
    Index(&'b str),
}

impl<'b> IlmRemovePolicyParts<'b> {
    /// The relative URL path that these parts select.
    pub open spec fn path(&self) -> Seq<char> {
        match self {
            IlmRemovePolicyParts::Index(index) => "/"@ + encoded_part(index@) + "/_ilm/remove"@,
        }
    }

    /// Builds the relative URL path, percent-encoding each part.
    pub fn url(self) -> (r: String)
        ensures
            r@ == self.path(),
    {
        match self {
            IlmRemovePolicyParts::Index(index) => {
                let mut p = String::from_str("/");
                p.append(encode_part(index).as_str());
                p.append("/_ilm/remove");
                p
            },
        }
    }
}

/// Builder for the IlmRemovePolicy API, which removes the assigned lifecycle policy and stops managing the index.
#[derive(Clone, Debug)]
pub struct IlmRemovePolicy<'a, 'b, B> {
    pub client: &'a Elasticsearch,
    pub parts: IlmRemovePolicyParts<'b>,
    pub body: Option<B>,
    pub error_trace: Option<bool>,
    pub filter_path: Option<&'b [&'b str]>,
    pub human: Option<bool>,
    pub pretty: Option<bool>,
    pub source: Option<&'b str>,
    pub headers: Vec<(String, String)>,
}

impl<'a, 'b, B> IlmRemovePolicy<'a, 'b, B> {
    /// Whether nothing has been set on the builder yet.
    pub open spec fn is_fresh(&self) -> bool {
        &&& self.body is None
        &&& self.error_trace is None
        &&& self.filter_path is None
        &&& self.human is None
        &&& self.pretty is None
        &&& self.source is None
        &&& self.headers@.len() == 0
    }

    /// Creates a builder for the given URL parts.
    pub fn new(client: &'a Elasticsearch, parts: IlmRemovePolicyParts<'b>) -> (r: Self)
        ensures
            r.client == client,
            r.parts == parts,
            r.is_fresh(),
    {
        IlmRemovePolicy {
            client,
            parts: parts,
            body: None,
            error_trace: None,
            filter_path: None,
            human: None,
            pretty: None,
            source: None,
            headers: Vec::new(),
        }
    }

    /// Sets the body of the request.
    pub fn body<T>(self, body: T) -> (r: IlmRemovePolicy<'a, 'b, T>)
        ensures
            r.body == Some(body),
            r.client == self.client,
            r.parts == self.parts,
            r.error_trace == self.error_trace,
            r.filter_path == self.filter_path,
            r.human == self.human,
            r.pretty == self.pretty,
            r.source == self.source,
            r.headers == self.headers,
    {
        IlmRemovePolicy {
            client: self.client,
            parts: self.parts,
            body: Some(body),
            error_trace: self.error_trace,
            filter_path: self.filter_path,
            human: self.human,
            pretty: self.pretty,
            source: self.source,
            headers: self.headers,
        }
    }

    /// Include the stack trace of returned errors.
    pub fn error_trace(self, error_trace: bool) -> (r: Self)
        ensures
            r.error_trace == Some(error_trace),
            r.client == self.client,
            r.parts == self.parts,
            r.body == self.body,
            r.filter_path == self.filter_path,
            r.human == self.human,
            r.pretty == self.pretty,
            r.source == self.source,
            r.headers == self.headers,
    {
        let mut b = self;
        b.error_trace = Some(error_trace);
        b
    }

    /// A comma-separated list of filters used to reduce the response.
    pub fn filter_path(self, filter_path: &'b [&'b str]) -> (r: Self)
        ensures
            r.filter_path == Some(filter_path),
            r.client == self.client,
            r.parts == self.parts,
            r.body == self.body,
            r.error_trace == self.error_trace,
            r.human == self.human,
            r.pretty == self.pretty,
            r.source == self.source,
            r.headers == self.headers,
    {
        let mut b = self;
        b.filter_path = Some(filter_path);
        b
    }

    /// Adds an HTTP header, replacing an earlier value of the same name.
    pub fn header(self, key: String, value: String) -> (r: Self)
        ensures
            header_map(pair_views(r.headers@)) == header_map(pair_views(self.headers@)).insert(
                key@,
                value@,
            ),
            r.client == self.client,
            r.parts == self.parts,
            r.body == self.body,
            r.error_trace == self.error_trace,
            r.filter_path == self.filter_path,
            r.human == self.human,
            r.pretty == self.pretty,
            r.source == self.source,
    {
        let mut b = self;
        set_header(&mut b.headers, key, value);
        b
    }

    /// Return human readable values for statistics.
    pub fn human(self, human: bool) -> (r: Self)
        ensures
            r.human == Some(human),
            r.client == self.client,
            r.parts == self.parts,
            r.body == self.body,
            r.error_trace == self.error_trace,
            r.filter_path == self.filter_path,
            r.pretty == self.pretty,
            r.source == self.source,
            r.headers == self.headers,
    {
        let mut b = self;
        b.human = Some(human);
        b
    }

    /// Pretty format the returned JSON response.
    pub fn pretty(self, pretty: bool) -> (r: Self)
        ensures
            r.pretty == Some(pretty),
            r.client == self.client,
            r.parts == self.parts,
            r.body == self.body,
            r.error_trace == self.error_trace,
            r.filter_path == self.filter_path,
            r.human == self.human,
            r.source == self.source,
            r.headers == self.headers,
    {
        let mut b = self;
        b.pretty = Some(pretty);
        b
    }

    /// The URL-encoded request definition, for clients that cannot send a body with this method.
    pub fn source(self, source: &'b str) -> (r: Self)
        ensures
            r.source == Some(source),
            r.client == self.client,
            r.parts == self.parts,
            r.body == self.body,
            r.error_trace == self.error_trace,
            r.filter_path == self.filter_path,
            r.human == self.human,
            r.pretty == self.pretty,
            r.headers == self.headers,
    {
        let mut b = self;
        b.source = Some(source);
        b
    }

    /// The query string entries that are set, in name order.
    pub open spec fn query_entries(&self) -> Seq<(Seq<char>, Seq<char>)> {
        flag_entry("error_trace"@, self.error_trace)
            + list_entry("filter_path"@, self.filter_path)
            + flag_entry("human"@, self.human)
            + flag_entry("pretty"@, self.pretty)
            + text_entry("source"@, self.source)
    }

    /// The request that this builder sends: its method, path, query
    /// string and headers.
    pub fn request(&self) -> (r: ApiRequest)
        ensures
            r.method == Method::Post,
            r.path@ == self.parts.path(),
            pair_views(r.query@) == self.query_entries(),
            pair_views(r.headers@) == pair_views(self.headers@),
    {
        let mut query: Vec<(String, String)> = Vec::new();
        assert(pair_views(query@) =~= Seq::empty());
        push_flag(&mut query, "error_trace", self.error_trace);
        push_list(&mut query, "filter_path", self.filter_path);
        push_flag(&mut query, "human", self.human);
        push_flag(&mut query, "pretty", self.pretty);
        push_text(&mut query, "source", self.source);
        assert(pair_views(query@) =~= self.query_entries());
        ApiRequest {
            method: Method::Post,
            path: self.parts.url(),
            query,
            headers: copy_pairs(&self.headers),
        }
    }
}

/// The URL parts of the IlmRetry API.
#[derive(Debug, Clone, Copy, PartialEq)]
pub enum IlmRetryParts<'b> {
    Index(&'b str),
}

impl<'b> IlmRetryParts<'b> {
    /// The relative URL path that these parts select.
    pub open spec fn path(&self) -> Seq<char> {
        match self {
            IlmRetryParts::Index(index) => "/"@ + encoded_part(index@) + "/_ilm/retry"@,
        }
    }

    /// Builds the relative URL path, percent-encoding each part.
    pub fn url(self) -> (r: String)
        ensures
            r@ == self.path(),
    {
        match self {
            IlmRetryParts::Index(index) => {
                let mut p = String::from_str("/");
                p.append(encode_part(index).as_str());
                p.append("/_ilm/retry");
                p
            },
        }
    }
}

/// Builder for the IlmRetry API, which retries executing the policy for an index that is in the error step.
#[derive(Clone, Debug)]
pub struct IlmRetry<'a, 'b, B> {
    pub client: &'a Elasticsearch,
    pub parts: IlmRetryParts<'b>,
    pub body: Option<B>,
    pub error_trace: Option<bool>,
    pub filter_path: Option<&'b [&'b str]>,
    pub human: Option<bool>,
    pub pretty: Option<bool>,
    pub source: Option<&'b str>,
    pub headers: Vec<(String, String)>,
}

impl<'a, 'b, B> IlmRetry<'a, 'b, B> {
    /// Whether nothing has been set on the builder yet.
    pub open spec fn is_fresh(&self) -> bool {
        &&& self.body is None
        &&& self.error_trace is None
        &&& self.filter_path is None
        &&& self.human is None
        &&& self.pretty is None
        &&& self.source is None
        &&& self.headers@.len() == 0
    }

    /// Creates a builder for the given URL parts.
    pub fn new(client: &'a Elasticsearch, parts: IlmRetryParts<'b>) -> (r: Self)
        ensures
            r.client == client,
            r.parts == parts,
            r.is_fresh(),
    {
        IlmRetry {
            client,
            parts: parts,
            body: None,
            error_trace: None,
            filter_path: None,
            human: None,
            pretty: None,
            source: None,
            headers: Vec::new(),
        }
    }

    /// Sets the body of the request.
    pub fn body<T>(self, body: T) -> (r: IlmRetry<'a, 'b, T>)
        ensures
            r.body == Some(body),
            r.client == self.client,
            r.parts == self.parts,
            r.error_trace == self.error_trace,
            r.filter_path == self.filter_path,
            r.human == self.human,
            r.pretty == self.pretty,
            r.source == self.source,
            r.headers == self.headers,
    {
        IlmRetry {
            client: self.client,
            parts: self.parts,
            body: Some(body),
            error_trace: self.error_trace,
            filter_path: self.filter_path,
            human: self.human,
            pretty: self.pretty,
            source: self.source,
            headers: self.headers,
        }
    }

    /// Include the stack trace of returned errors.
    pub fn error_trace(self, error_trace: bool) -> (r: Self)
        ensures
            r.error_trace == Some(error_trace),
            r.client == self.client,
            r.parts == self.parts,
            r.body == self.body,
            r.filter_path == self.filter_path,
            r.human == self.human,
            r.pretty == self.pretty,
            r.source == self.source,
            r.headers == self.headers,
    {
        let mut b = self;
        b.error_trace = Some(error_trace);
        b
    }

    /// A comma-separated list of filters used to reduce the response.
    pub fn filter_path(self, filter_path: &'b [&'b str]) -> (r: Self)
        ensures
            r.filter_path == Some(filter_path),
            r.client == self.client,
            r.parts == self.parts,
            r.body == self.body,
            r.error_trace == self.error_trace,
            r.human == self.human,
            r.pretty == self.pretty,
            r.source == self.source,
            r.headers == self.headers,
    {
        let mut b = self;
        b.filter_path = Some(filter_path);
        b
    }

    /// Adds an HTTP header, replacing an earlier value of the same name.
    pub fn header(self, key: String, value: String) -> (r: Self)
        ensures
            header_map(pair_views(r.headers@)) == header_map(pair_views(self.headers@)).insert(
                key@,
                value@,
            ),
            r.client == self.client,
            r.parts == self.parts,
            r.body == self.body,
            r.error_trace == self.error_trace,
            r.filter_path == self.filter_path,
            r.human == self.human,
            r.pretty == self.pretty,
            r.source == self.source,
    {
        let mut b = self;
        set_header(&mut b.headers, key, value);
        b
    }

    /// Return human readable values for statistics.
    pub fn human(self, human: bool) -> (r: Self)
        ensures
            r.human == Some(human),
            r.client == self.client,
            r.parts == self.parts,
            r.body == self.body,
            r.error_trace == self.error_trace,
            r.filter_path == self.filter_path,
            r.pretty == self.pretty,
            r.source == self.source,
            r.headers == self.headers,
    {
        let mut b = self;
        b.human = Some(human);
        b
    }

    /// Pretty format the returned JSON response.
    pub fn pretty(self, pretty: bool) -> (r: Self)
        ensures
            r.pretty == Some(pretty),
            r.client == self.client,
            r.parts == self.parts,
            r.body == self.body,
            r.error_trace == self.error_trace,
            r.filter_path == self.filter_path,
            r.human == self.human,
            r.source == self.source,
            r.headers == self.headers,
    {
        let mut b = self;
        b.pretty = Some(pretty);
        b
    }

    /// The URL-encoded request definition, for clients that cannot send a body with this method.
    pub fn source(self, source: &'b str) -> (r: Self)
        ensures
            r.source == Some(source),
            r.client == self.client,
            r.parts == self.parts,
            r.body == self.body,
            r.error_trace == self.error_trace,
            r.filter_path == self.filter_path,
            r.human == self.human,
            r.pretty == self.pretty,
            r.headers == self.headers,
    {
        let mut b = self;
        b.source = Some(source);
        b
    }

    /// The query string entries that are set, in name order.
    pub open spec fn query_entries(&self) -> Seq<(Seq<char>, Seq<char>)> {
        flag_entry("error_trace"@, self.error_trace)
            + list_entry("filter_path"@, self.filter_path)
            + flag_entry("human"@, self.human)
            + flag_entry("pretty"@, self.pretty)
            + text_entry("source"@, self.source)
    }

    /// The request that this builder sends: its method, path, query
    /// string and headers.
    pub fn request(&self) -> (r: ApiRequest)
        ensures
            r.method == Method::Post,
            r.path@ == self.parts.path(),
            pair_views(r.query@) == self.query_entries(),
            pair_views(r.headers@) == pair_views(self.headers@),
    {
        let mut query: Vec<(String, String)> = Vec::new();
        assert(pair_views(query@) =~= Seq::empty());
        push_flag(&mut query, "error_trace", self.error_trace);
        push_list(&mut query, "filter_path", self.filter_path);
        push_flag(&mut query, "human", self.human);
        push_flag(&mut query, "pretty", self.pretty);
        push_text(&mut query, "source", self.source);
        assert(pair_views(query@) =~= self.query_entries());
        ApiRequest {
            method: Method::Post,
            path: self.parts.url(),
            query,
            headers: copy_pairs(&self.headers),
        }
    }
}

/// The URL parts of the IlmStart API.
#[derive(Debug, Clone, Copy, PartialEq)]
pub enum IlmStartParts {
    NoParts,
}

impl IlmStartParts {
    /// The relative URL path that these parts select.
    pub open spec fn path(&self) -> Seq<char> {
        match self {
            IlmStartParts::NoParts => "/_ilm/start"@,
        }
    }

    /// Builds the relative URL path, percent-encoding each part.
    pub fn url(self) -> (r: String)
        ensures
            r@ == self.path(),
    {
        match self {
            IlmStartParts::NoParts => String::from_str("/_ilm/start"),
        }
    }
}

/// Builder for the IlmStart API, which starts the index lifecycle management plugin.
#[derive(Clone, Debug)]
pub struct IlmStart<'a, 'b, B> {
    pub client: &'a Elasticsearch,
    pub parts: IlmStartParts,
    pub body: Option<B>,
    pub error_trace: Option<bool>,
    pub filter_path: Option<&'b [&'b str]>,
    pub human: Option<bool>,
    pub pretty: Option<bool>,
    pub source: Option<&'b str>,
    pub headers: Vec<(String, String)>,
}

impl<'a, 'b, B> IlmStart<'a, 'b, B> {
    /// Whether nothing has been set on the builder yet.
    pub open spec fn is_fresh(&self) -> bool {
        &&& self.body is None
        &&& self.error_trace is None
        &&& self.filter_path is None
        &&& self.human is None
        &&& self.pretty is None
        &&& self.source is None
        &&& self.headers@.len() == 0
    }

    /// Creates a builder.
    pub fn new(client: &'a Elasticsearch) -> (r: Self)
        ensures
            r.client == client,
            r.parts == IlmStartParts::NoParts,
            r.is_fresh(),
    {
        IlmStart {
            client,
            parts: IlmStartParts::NoParts,
            body: None,
            error_trace: None,
            filter_path: None,
            human: None,
            pretty: None,
            source: None,
            headers: Vec::new(),
        }
    }

    /// Sets the body of the request.
    pub fn body<T>(self, body: T) -> (r: IlmStart<'a, 'b, T>)
        ensures
            r.body == Some(body),
            r.client == self.client,
            r.parts == self.parts,
            r.error_trace == self.error_trace,
            r.filter_path == self.filter_path,
            r.human == self.human,
            r.pretty == self.pretty,
            r.source == self.source,
            r.headers == self.headers,
    {
        IlmStart {
            client: self.client,
            parts: self.parts,
            body: Some(body),
            error_trace: self.error_trace,
            filter_path: self.filter_path,
            human: self.human,
            pretty: self.pretty,
            source: self.source,
            headers: self.headers,
        }
    }

    /// Include the stack trace of returned errors.
    pub fn error_trace(self, error_trace: bool) -> (r: Self)
        ensures
            r.error_trace == Some(error_trace),
            r.client == self.client,
            r.parts == self.parts,
            r.body == self.body,
            r.filter_path == self.filter_path,
            r.human == self.human,
            r.pretty == self.pretty,
            r.source == self.source,
            r.headers == self.headers,
    {
        let mut b = self;
        b.error_trace = Some(error_trace);
        b
    }

    /// A comma-separated list of filters used to reduce the response.
    pub fn filter_path(self, filter_path: &'b [&'b str]) -> (r: Self)
        ensures
            r.filter_path == Some(filter_path),
            r.client == self.client,
            r.parts == self.parts,
            r.body == self.body,
            r.error_trace == self.error_trace,
            r.human == self.human,
            r.pretty == self.pretty,
            r.source == self.source,
            r.headers == self.headers,
    {
        let mut b = self;
        b.filter_path = Some(filter_path);
        b
    }

    /// Adds an HTTP header, replacing an earlier value of the same name.
    pub fn header(self, key: String, value: String) -> (r: Self)
        ensures
            header_map(pair_views(r.headers@)) == header_map(pair_views(self.headers@)).insert(
                key@,
                value@,
            ),
            r.client == self.client,
            r.parts == self.parts,
            r.body == self.body,
            r.error_trace == self.error_trace,
            r.filter_path == self.filter_path,
            r.human == self.human,
            r.pretty == self.pretty,
            r.source == self.source,
    {
        let mut b = self;
        set_header(&mut b.headers, key, value);
        b
    }

    /// Return human readable values for statistics.
    pub fn human(self, human: bool) -> (r: Self)
        ensures
            r.human == Some(human),
            r.client == self.client,
            r.parts == self.parts,
            r.body == self.body,
            r.error_trace == self.error_trace,
            r.filter_path == self.filter_path,
            r.pretty == self.pretty,
            r.source == self.source,
            r.headers == self.headers,
    {
        let mut b = self;
        b.human = Some(human);
        b
    }

    /// Pretty format the returned JSON response.
    pub fn pretty(self, pretty: bool) -> (r: Self)
        ensures
            r.pretty == Some(pretty),
            r.client == self.client,
            r.parts == self.parts,
            r.body == self.body,
            r.error_trace == self.error_trace,
            r.filter_path == self.filter_path,
            r.human == self.human,
            r.source == self.source,
            r.headers == self.headers,
    {
        let mut b = self;
        b.pretty = Some(pretty);
        b
    }

    /// The URL-encoded request definition, for clients that cannot send a body with this method.
    pub fn source(self, source: &'b str) -> (r: Self)
        ensures
            r.source == Some(source),
            r.client == self.client,
            r.parts == self.parts,
            r.body == self.body,
            r.error_trace == self.error_trace,
            r.filter_path == self.filter_path,
            r.human == self.human,
            r.pretty == self.pretty,
            r.headers == self.headers,
    {
        let mut b = self;
        b.source = Some(source);
        b
    }

    /// The query string entries that are set, in name order.
    pub open spec fn query_entries(&self) -> Seq<(Seq<char>, Seq<char>)> {
        flag_entry("error_trace"@, self.error_trace)
            + list_entry("filter_path"@, self.filter_path)
            + flag_entry("human"@, self.human)
            + flag_entry("pretty"@, self.pretty)
            + text_entry("source"@, self.source)
    }

    /// The request that this builder sends: its method, path, query
    /// string and headers.
    pub fn request(&self) -> (r: ApiRequest)
        ensures
            r.method == Method::Post,
            r.path@ == self.parts.path(),
            pair_views(r.query@) == self.query_entries(),
            pair_views(r.headers@) == pair_views(self.headers@),
    {
        let mut query: Vec<(String, String)> = Vec::new();
        assert(pair_views(query@) =~= Seq::empty());
        push_flag(&mut query, "error_trace", self.error_trace);
        push_list(&mut query, "filter_path", self.filter_path);
        push_flag(&mut query, "human", self.human);
        push_flag(&mut query, "pretty", self.pretty);
        push_text(&mut query, "source", self.source);
        assert(pair_views(query@) =~= self.query_entries());
        ApiRequest {
            method: Method::Post,
            path: self.parts.url(),
            query,
            headers: copy_pairs(&self.headers),
        }
    }
}

/// The URL parts of the IlmStop API.
#[derive(Debug, Clone, Copy, PartialEq)]
pub enum IlmStopParts {
    NoParts,
}

impl IlmStopParts {
    /// The relative URL path that these parts select.
    pub open spec fn path(&self) -> Seq<char> {
        match self {
            IlmStopParts::NoParts => "/_ilm/stop"@,
        }
    }

    /// Builds the relative URL path, percent-encoding each part.
    pub fn url(self) -> (r: String)
        ensures
            r@ == self.path(),
    {
        match self {
            IlmStopParts::NoParts => String::from_str("/_ilm/stop"),
        }
    }
}

/// Builder for the IlmStop API, which halts all lifecycle management operations.
#[derive(Clone, Debug)]
pub struct IlmStop<'a, 'b, B> {
    pub client: &'a Elasticsearch,
    pub parts: IlmStopParts,
    pub body: Option<B>,
    pub error_trace: Option<bool>,
    pub filter_path: Option<&'b [&'b str]>,
    pub human: Option<bool>,
    pub pretty: Option<bool>,
    pub source: Option<&'b str>,
    pub headers: Vec<(String, String)>,
}

impl<'a, 'b, B> IlmStop<'a, 'b, B> {
    /// Whether nothing has been set on the builder yet.
    pub open spec fn is_fresh(&self) -> bool {
        &&& self.body is None
        &&& self.error_trace is None
        &&& self.filter_path is None
        &&& self.human is None
        &&& self.pretty is None
        &&& self.source is None
        &&& self.headers@.len() == 0
    }

    /// Creates a builder.
    pub fn new(client: &'a Elasticsearch) -> (r: Self)
        ensures
            r.client == client,
            r.parts == IlmStopParts::NoParts,
            r.is_fresh(),
    {
        IlmStop {
            client,
            parts: IlmStopParts::NoParts,
            body: None,
            error_trace: None,
            filter_path: None,
            human: None,
            pretty: None,
            source: None,
            headers: Vec::new(),
        }
    }

    /// Sets the body of the request.
    pub fn body<T>(self, body: T) -> (r: IlmStop<'a, 'b, T>)
        ensures
            r.body == Some(body),
            r.client == self.client,
            r.parts == self.parts,
            r.error_trace == self.error_trace,
            r.filter_path == self.filter_path,
            r.human == self.human,
            r.pretty == self.pretty,
            r.source == self.source,
            r.headers == self.headers,
    {
        IlmStop {
            client: self.client,
            parts: self.parts,
            body: Some(body),
            error_trace: self.error_trace,
            filter_path: self.filter_path,
            human: self.human,
            pretty: self.pretty,
            source: self.source,
            headers: self.headers,
        }
    }

    /// Include the stack trace of returned errors.
    pub fn error_trace(self, error_trace: bool) -> (r: Self)
        ensures
            r.error_trace == Some(error_trace),
            r.client == self.client,
            r.parts == self.parts,
            r.body == self.body,
            r.filter_path == self.filter_path,
            r.human == self.human,
            r.pretty == self.pretty,
            r.source == self.source,
            r.headers == self.headers,
    {
        let mut b = self;
        b.error_trace = Some(error_trace);
        b
    }

    /// A comma-separated list of filters used to reduce the response.
    pub fn filter_path(self, filter_path: &'b [&'b str]) -> (r: Self)
        ensures
            r.filter_path == Some(filter_path),
            r.client == self.client,
            r.parts == self.parts,
            r.body == self.body,
            r.error_trace == self.error_trace,
            r.human == self.human,
            r.pretty == self.pretty,
            r.source == self.source,
            r.headers == self.headers,
    {
        let mut b = self;
        b.filter_path = Some(filter_path);
        b
    }

    /// Adds an HTTP header, replacing an earlier value of the same name.
    pub fn header(self, key: String, value: String) -> (r: Self)
        ensures
            header_map(pair_views(r.headers@)) == header_map(pair_views(self.headers@)).insert(
                key@,
                value@,
            ),
            r.client == self.client,
            r.parts == self.parts,
            r.body == self.body,
            r.error_trace == self.error_trace,
            r.filter_path == self.filter_path,
            r.human == self.human,
            r.pretty == self.pretty,
            r.source == self.source,
    {
        let mut b = self;
        set_header(&mut b.headers, key, value);
        b
    }

    /// Return human readable values for statistics.
    pub fn human(self, human: bool) -> (r: Self)
        ensures
            r.human == Some(human),
            r.client == self.client,
            r.parts == self.parts,
            r.body == self.body,
            r.error_trace == self.error_trace,
            r.filter_path == self.filter_path,
            r.pretty == self.pretty,
            r.source == self.source,
            r.headers == self.headers,
    {
        let mut b = self;
        b.human = Some(human);
        b
    }

    /// Pretty format the returned JSON response.
    pub fn pretty(self, pretty: bool) -> (r: Self)
        ensures
            r.pretty == Some(pretty),
            r.client == self.client,
            r.parts == self.parts,
            r.body == self.body,
            r.error_trace == self.error_trace,
            r.filter_path == self.filter_path,
            r.human == self.human,
            r.source == self.source,
            r.headers == self.headers,
    {
        let mut b = self;
        b.pretty = Some(pretty);
        b
    }

    /// The URL-encoded request definition, for clients that cannot send a body with this method.
    pub fn source(self, source: &'b str) -> (r: Self)
        ensures
            r.source == Some(source),
            r.client == self.client,
            r.parts == self.parts,
            r.body == self.body,
            r.error_trace == self.error_trace,
            r.filter_path == self.filter_path,
            r.human == self.human,
            r.pretty == self.pretty,
            r.headers == self.headers,
    {
        let mut b = self;
        b.source = Some(source);
        b
    }

    /// The query string entries that are set, in name order.
    pub open spec fn query_entries(&self) -> Seq<(Seq<char>, Seq<char>)> {
        flag_entry("error_trace"@, self.error_trace)
            + list_entry("filter_path"@, self.filter_path)
            + flag_entry("human"@, self.human)
            + flag_entry("pretty"@, self.pretty)
            + text_entry("source"@, self.source)
    }

    /// The request that this builder sends: its method, path, query
    /// string and headers.
    pub fn request(&self) -> (r: ApiRequest)
        ensures
            r.method == Method::Post,
            r.path@ == self.parts.path(),
            pair_views(r.query@) == self.query_entries(),
            pair_views(r.headers@) == pair_views(self.headers@),
    {
        let mut query: Vec<(String, String)> = Vec::new();
        assert(pair_views(query@) =~= Seq::empty());
        push_flag(&mut query, "error_trace", self.error_trace);
        push_list(&mut query, "filter_path", self.filter_path);
        push_flag(&mut query, "human", self.human);
        push_flag(&mut query, "pretty", self.pretty);
        push_text(&mut query, "source", self.source);
        assert(pair_views(query@) =~= self.query_entries());
        ApiRequest {
            method: Method::Post,
            path: self.parts.url(),
            query,
            headers: copy_pairs(&self.headers),
        }
    }
}

/// Namespace client for the index lifecycle management APIs.
pub struct Ilm<'a> {
    pub client: &'a Elasticsearch,
}

impl<'a> Ilm<'a> {
    /// Creates the namespace client.
    pub fn new(client: &'a Elasticsearch) -> (r: Self)
        ensures
            r.client == client,
    {
        Ilm { client }
    }

    /// Deletes the specified lifecycle policy definition.
    pub fn delete_lifecycle<'b>(&'a self, parts: IlmDeleteLifecycleParts<'b>) -> (r: IlmDeleteLifecycle<'a, 'b>)
        ensures
            r.client == self.client,
            r.parts == parts,
            r.is_fresh(),
    {
        IlmDeleteLifecycle::new(self.client, parts)
    }

    /// Retrieves the current lifecycle state of an index.
    pub fn explain_lifecycle<'b>(&'a self, parts: IlmExplainLifecycleParts<'b>) -> (r: IlmExplainLifecycle<'a, 'b>)
        ensures
            r.client == self.client,
            r.parts == parts,
            r.is_fresh(),
    {
        IlmExplainLifecycle::new(self.client, parts)
    }

    /// Returns the specified policy definition.
    pub fn get_lifecycle<'b>(&'a self, parts: IlmGetLifecycleParts<'b>) -> (r: IlmGetLifecycle<'a, 'b>)
        ensures
            r.client == self.client,
            r.parts == parts,
            r.is_fresh(),
    {
        IlmGetLifecycle::new(self.client, parts)
    }

    /// Retrieves the current index lifecycle management status.
    pub fn get_status<'b>(&'a self) -> (r: IlmGetStatus<'a, 'b>)
        ensures
            r.client == self.client,
            r.parts == IlmGetStatusParts::NoParts,
            r.is_fresh(),
    {
        IlmGetStatus::new(self.client)
    }

    /// Manually moves an index into the specified step and executes that step.
    pub fn move_to_step<'b>(&'a self, parts: IlmMoveToStepParts<'b>) -> (r: IlmMoveToStep<'a, 'b, ()>)
        ensures
            r.client == self.client,
            r.parts == parts,
            r.is_fresh(),
    {
        IlmMoveToStep::new(self.client, parts)
    }

    /// Creates a lifecycle policy.
    pub fn put_lifecycle<'b>(&'a self, parts: IlmPutLifecycleParts<'b>) -> (r: IlmPutLifecycle<'a, 'b, ()>)
        ensures
            r.client == self.client,
            r.parts == parts,
            r.is_fresh(),
    {
        IlmPutLifecycle::new(self.client, parts)
    }

    /// Removes the assigned lifecycle policy and stops managing the index.
    pub fn remove_policy<'b>(&'a self, parts: IlmRemovePolicyParts<'b>) -> (r: IlmRemovePolicy<'a, 'b, ()>)
        ensures
            r.client == self.client,
            r.parts == parts,
            r.is_fresh(),
    {
        IlmRemovePolicy::new(self.client, parts)
    }

    /// Retries executing the policy for an index that is in the error step.
    pub fn retry<'b>(&'a self, parts: IlmRetryParts<'b>) -> (r: IlmRetry<'a, 'b, ()>)
        ensures
            r.client == self.client,
            r.parts == parts,
            r.is_fresh(),
    {
        IlmRetry::new(self.client, parts)
    }

    /// Starts the index lifecycle management plugin.
    pub fn start<'b>(&'a self) -> (r: IlmStart<'a, 'b, ()>)
        ensures
            r.client == self.client,
            r.parts == IlmStartParts::NoParts,
            r.is_fresh(),
    {
        IlmStart::new(self.client)
    }

    /// Halts all lifecycle management operations.
    pub fn stop<'b>(&'a self) -> (r: IlmStop<'a, 'b, ()>)
        ensures
            r.client == self.client,
            r.parts == IlmStopParts::NoParts,
            r.is_fresh(),
    {
        IlmStop::new(self.client)
    }

}

impl Elasticsearch {
    /// Creates a namespace client for the index lifecycle management APIs.
    pub fn ilm(&self) -> (r: Ilm<'_>)
        ensures
            r.client == self,
    {
        Ilm::new(self)
    }
}

} // verus!
