//! The endpoint schema: operations, their URL templates, their query
//! parameters and their body contracts.
use vstd::prelude::*;
use crate::text::same_text;

verus! {

/// The type that the schema declares for a path or query parameter.
#[derive(Debug, Clone, PartialEq)]
pub enum DeclaredType {
    Str,
    /// An enumeration, with the option set it accepts.
    Enum(Vec<String>),
    List,
    Boolean,
    Integer,
    Long,
    Float,
    Double,
    Number,
}

/// Whether an endpoint takes one document or a newline-delimited sequence.
#[derive(PartialEq, Eq, Structural, Clone, Copy, Debug)]
pub enum BodyContract {
    Single,
    Multi,
}

/// A named, typed parameter.
#[derive(Debug, Clone, PartialEq)]
pub struct Param {
    pub name: String,
    pub ty: DeclaredType,
}

/// One path shape of an endpoint, with its parameters in path order.
#[derive(Debug, Clone, PartialEq)]
pub struct UrlTemplate {
    pub params: Vec<Param>,
}

/// A named operation of the schema.
#[derive(Debug, Clone, PartialEq)]
pub struct Endpoint {
    /// The dotted operation name, such as `indices.create`.
    pub name: String,
    pub templates: Vec<UrlTemplate>,
    pub params: Vec<Param>,
    pub body: Option<BodyContract>,
}

/// The schema: every endpoint, and the query parameters that all share.
#[derive(Debug, Clone, PartialEq)]
pub struct Api {
    pub endpoints: Vec<Endpoint>,
    pub common_params: Vec<Param>,
}

/// The names of a list of parameters, in order.
pub open spec fn param_names(ps: Seq<Param>) -> Seq<Seq<char>> {
    ps.map_values(|p: Param| p.name@)
}

/// The names of a template's parameters, in path order.
pub open spec fn template_names(t: UrlTemplate) -> Seq<Seq<char>> {
    param_names(t.params@)
}

/// The index of the first parameter named `name`, or -1.
pub open spec fn find_param(ps: Seq<Param>, name: Seq<char>) -> int
    decreases ps.len(),
{
    if ps.len() == 0 {
        -1
    } else if find_param(ps.drop_last(), name) >= 0 {
        find_param(ps.drop_last(), name)
    } else if ps.last().name@ == name {
        ps.len() - 1
    } else {
        -1
    }
}

pub proof fn lemma_find_param(ps: Seq<Param>, name: Seq<char>)
    ensures
        -1 <= find_param(ps, name) < ps.len(),
        find_param(ps, name) >= 0 ==> ps[find_param(ps, name)].name@ == name,
        find_param(ps, name) >= 0 <==> param_names(ps).contains(name),
        forall|k: int| 0 <= k < find_param(ps, name) ==> ps[k].name@ != name,
    decreases ps.len(),
{
    if ps.len() > 0 {
        lemma_find_param(ps.drop_last(), name);
        let f = find_param(ps.drop_last(), name);
        if param_names(ps.drop_last()).contains(name) {
            let k = choose|k: int| 0 <= k < param_names(ps.drop_last()).len() && param_names(ps.drop_last())[k] == name;
            assert(param_names(ps)[k] == name);
        }
        if ps.last().name@ == name {
            assert(param_names(ps)[ps.len() - 1] == name);
        }
        if param_names(ps).contains(name) {
            let k = choose|k: int| 0 <= k < param_names(ps).len() && param_names(ps)[k] == name;
            if k < ps.len() - 1 {
                assert(param_names(ps.drop_last())[k] == name);
            }
        }
        assert forall|k: int| 0 <= k < find_param(ps, name) implies ps[k].name@ != name by {
            assert(ps.drop_last()[k] == ps[k]);
            if f < 0 {
                assert(param_names(ps.drop_last())[k] == ps[k].name@);
            }
        }
    }
}

/// Finds the first parameter named `name`.
pub fn find_param_index(ps: &Vec<Param>, name: &str) -> (r: Option<usize>)
    ensures
        match r {
            Some(i) => find_param(ps@, name@) == i,
            None => find_param(ps@, name@) == -1,
        },
{
    let mut i: usize = 0;
    while i < ps.len()
        invariant
            i <= ps@.len(),
            find_param(ps@.take(i as int), name@) == -1,
        decreases ps@.len() - i,
    {
        assert(ps@.take(i + 1).drop_last() == ps@.take(i as int));
        if same_text(ps[i].name.as_str(), name) {
            proof {
                let t = ps@.take(i + 1);
                assert(find_param(t, name@) == i);
                lemma_prefix_find(ps@, name@, i + 1);
            }
            return Some(i);
        }
        i = i + 1;
    }
    assert(ps@.take(ps@.len() as int) == ps@);
    None
}

/// A hit within a prefix is the hit of the whole list.
pub proof fn lemma_prefix_find(ps: Seq<Param>, name: Seq<char>, n: int)
    requires
        0 <= n <= ps.len(),
        find_param(ps.take(n), name) >= 0,
    ensures
        find_param(ps, name) == find_param(ps.take(n), name),
    decreases ps.len() - n,
{
    if n < ps.len() {
        assert(ps.take(n + 1).drop_last() == ps.take(n));
        lemma_prefix_find(ps, name, n + 1);
    } else {
        assert(ps.take(n) == ps);
    }
}

/// The index of the first endpoint named `name`, or -1.
pub open spec fn find_endpoint(es: Seq<Endpoint>, name: Seq<char>) -> int
    decreases es.len(),
{
    if es.len() == 0 {
        -1
    } else if find_endpoint(es.drop_last(), name) >= 0 {
        find_endpoint(es.drop_last(), name)
    } else if es.last().name@ == name {
        es.len() - 1
    } else {
        -1
    }
}

pub proof fn lemma_find_endpoint(es: Seq<Endpoint>, name: Seq<char>)
    ensures
        -1 <= find_endpoint(es, name) < es.len(),
        find_endpoint(es, name) >= 0 ==> es[find_endpoint(es, name)].name@ == name,
    decreases es.len(),
{
    if es.len() > 0 {
        lemma_find_endpoint(es.drop_last(), name);
    }
}

/// A hit within a prefix is the hit of the whole list.
proof fn lemma_prefix_find_endpoint(es: Seq<Endpoint>, name: Seq<char>, n: int)
    requires
        0 <= n <= es.len(),
        find_endpoint(es.take(n), name) >= 0,
    ensures
        find_endpoint(es, name) == find_endpoint(es.take(n), name),
    decreases es.len() - n,
{
    if n < es.len() {
        assert(es.take(n + 1).drop_last() == es.take(n));
        lemma_prefix_find_endpoint(es, name, n + 1);
    } else {
        assert(es.take(n) == es);
    }
}

impl Api {
    /// The endpoint that serves the operation `name`, if the schema has one.
    pub fn endpoint_for_api_call(&self, name: &str) -> (r: Option<&Endpoint>)
        ensures
            match r {
                Some(e) => {
                    &&& find_endpoint(self.endpoints@, name@) >= 0
                    &&& *e == self.endpoints@[find_endpoint(self.endpoints@, name@)]
                },
                None => find_endpoint(self.endpoints@, name@) == -1,
            },
    {
        let mut i: usize = 0;
        while i < self.endpoints.len()
            invariant
                i <= self.endpoints@.len(),
                find_endpoint(self.endpoints@.take(i as int), name@) == -1,
            decreases self.endpoints@.len() - i,
        {
            assert(self.endpoints@.take(i + 1).drop_last() == self.endpoints@.take(i as int));
            if same_text(self.endpoints[i].name.as_str(), name) {
                proof {
                    lemma_prefix_find_endpoint(self.endpoints@, name@, i + 1);
                }
                return Some(&self.endpoints[i]);
            }
            i = i + 1;
        }
        assert(self.endpoints@.take(self.endpoints@.len() as int) == self.endpoints@);
        None
    }
}

} // verus!
