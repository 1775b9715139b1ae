//! The URL template resolver: picks the one template whose path parameters
//! are exactly the supplied names.
use vstd::prelude::*;
use crate::schema::{UrlTemplate, find_param_index, lemma_find_param, template_names};
use crate::text::views;

verus! {

/// Whether the template's parameters are exactly `names` (distinct names,
/// so an equal count and containment give an equal set).
pub open spec fn template_matches(t: UrlTemplate, names: Seq<Seq<char>>) -> bool {
    &&& template_names(t).len() == names.len()
    &&& forall|k: int| 0 <= k < names.len() ==> template_names(t).contains(#[trigger] names[k])
}

/// How many templates match.
pub open spec fn count_matches(ts: Seq<UrlTemplate>, names: Seq<Seq<char>>) -> nat
    decreases ts.len(),
{
    if ts.len() == 0 {
        0
    } else {
        count_matches(ts.drop_last(), names) + if template_matches(ts.last(), names) {
            1nat
        } else {
            0nat
        }
    }
}

/// The index of the first matching template, or -1.
pub open spec fn first_match(ts: Seq<UrlTemplate>, names: Seq<Seq<char>>) -> int
    decreases ts.len(),
{
    if ts.len() == 0 {
        -1
    } else if first_match(ts.drop_last(), names) >= 0 {
        first_match(ts.drop_last(), names)
    } else if template_matches(ts.last(), names) {
        ts.len() - 1
    } else {
        -1
    }
}

/// The template chosen for the supplied path parameters: `Err` unless
/// exactly one matches; `Ok(None)` where the endpoint has a single template
/// and no parameter is supplied, so no selector is needed.
pub open spec fn resolve_spec(ts: Seq<UrlTemplate>, names: Seq<Seq<char>>) -> Result<
    Option<int>,
    (),
> {
    if count_matches(ts, names) != 1 {
        Err(())
    } else if names.len() == 0 && ts.len() == 1 {
        Ok(None)
    } else {
        Ok(Some(first_match(ts, names)))
    }
}

pub proof fn lemma_first_match(ts: Seq<UrlTemplate>, names: Seq<Seq<char>>)
    ensures
        -1 <= first_match(ts, names) < ts.len(),
        first_match(ts, names) >= 0 ==> template_matches(ts[first_match(ts, names)], names),
        first_match(ts, names) >= 0 <==> count_matches(ts, names) > 0,
    decreases ts.len(),
{
    if ts.len() > 0 {
        lemma_first_match(ts.drop_last(), names);
    }
}

/// Whether the template's parameters are exactly the supplied names.
pub fn matches_names(t: &UrlTemplate, names: &Vec<String>) -> (r: bool)
    ensures
        r == template_matches(*t, views(names@)),
{
    if t.params.len() != names.len() {
        return false;
    }
    let mut i: usize = 0;
    while i < names.len()
        invariant
            i <= names@.len(),
            template_names(*t).len() == names@.len(),
            forall|k: int| 0 <= k < i ==> template_names(*t).contains(#[trigger] views(names@)[k]),
        decreases names@.len() - i,
    {
        proof {
            lemma_find_param(t.params@, names@[i as int]@);
        }
        match find_param_index(&t.params, names[i].as_str()) {
            Some(_) => {},
            None => {
                assert(views(names@)[i as int] == names@[i as int]@);
                return false;
            },
        }
        assert(views(names@)[i as int] == names@[i as int]@);
        i = i + 1;
    }
    true
}

/// Picks the template for the supplied path parameter names.
pub fn resolve_template(ts: &Vec<UrlTemplate>, names: &Vec<String>) -> (r: Result<
    Option<usize>,
    (),
>)
    ensures
        match r {
            Ok(Some(i)) => resolve_spec(ts@, views(names@)) == Ok::<Option<int>, ()>(Some(i as int)),
            Ok(None) => resolve_spec(ts@, views(names@)) == Ok::<Option<int>, ()>(None),
            Err(()) => resolve_spec(ts@, views(names@)) == Err::<Option<int>, ()>(()),
        },
{
    let ghost ns = views(names@);
    let mut count: usize = 0;
    let mut first: Option<usize> = None;
    let mut i: usize = 0;
    while i < ts.len()
        invariant
            i <= ts@.len(),
            ns == views(names@),
            count == count_matches(ts@.take(i as int), ns),
            count <= i,
            match first {
                Some(f) => first_match(ts@.take(i as int), ns) == f,
                None => first_match(ts@.take(i as int), ns) == -1,
            },
        decreases ts@.len() - i,
    {
        assert(ts@.take(i + 1).drop_last() == ts@.take(i as int));
        if matches_names(&ts[i], names) {
            count = count + 1;
            if first.is_none() {
                first = Some(i);
            }
        }
        i = i + 1;
    }
    assert(ts@.take(ts@.len() as int) == ts@);
    if count != 1 {
        Err(())
    } else if names.len() == 0 && ts.len() == 1 {
        Ok(None)
    } else {
        proof {
            lemma_first_match(ts@, ns);
        }
        match first {
            Some(f) => Ok(Some(f)),
            None => Err(()),
        }
    }
}

} // verus!
