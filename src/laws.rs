//! Properties that hold of the generator for every schema and call record.
use vstd::prelude::*;
use vstd::seq_lib::*;
use vstd::set_lib::*;
use crate::body::{BodyView, LineView, body_spec, document_text};
use crate::call::{
    ApiCall, ArgClass, call_result, call_spec, class_indices, errors_of, find_key,
    lemma_class_indices, part_names, part_value, parts_spec, variant_name,
};
use crate::coerce::{coerce_spec, collect_results, is_wildcard_param};
use crate::error::{CallError, ErrorView};
use crate::literal::{EnumView, LiteralView};
use crate::naming::pascal_case_of;
use crate::raw::{RawValue, distinct_keys};
use crate::resolve::{count_matches, first_match, resolve_spec, template_matches};
use crate::schema::{Api, BodyContract, DeclaredType, Endpoint, UrlTemplate, template_names};
use crate::text::views;

verus! {

/// A successful gathering holds one value for each result, in order.
pub proof fn lemma_collect_ok<T>(rs: Seq<Result<T, Seq<ErrorView>>>)
    ensures
        collect_results(rs) is Ok ==> {
            let vs = collect_results(rs)->Ok_0;
            &&& vs.len() == rs.len()
            &&& forall|k: int| 0 <= k < rs.len() ==> #[trigger] rs[k] == Ok::<T, Seq<ErrorView>>(vs[k])
        },
    decreases rs.len(),
{
    if rs.len() > 0 {
        lemma_collect_ok(rs.drop_last());
        if collect_results(rs) is Ok {
            let vs = collect_results(rs)->Ok_0;
            let prev = collect_results(rs.drop_last())->Ok_0;
            assert forall|k: int| 0 <= k < rs.len() implies #[trigger] rs[k] == Ok::<T, Seq<ErrorView>>(vs[k]) by {
                if k < rs.len() - 1 {
                    assert(rs[k] == rs.drop_last()[k]);
                }
            }
        }
    }
}

/// The positions of a class come in increasing order.
proof fn lemma_class_increasing(api: Api, ep: Endpoint, args: Seq<(String, RawValue)>, c: ArgClass)
    ensures
        forall|a: int, b: int|
            0 <= a < b < class_indices(api, ep, args, c).len() ==> class_indices(api, ep, args, c)[a]
                < class_indices(api, ep, args, c)[b],
    decreases args.len(),
{
    lemma_class_indices(api, ep, args, c);
    if args.len() > 0 {
        lemma_class_increasing(api, ep, args.drop_last(), c);
        lemma_class_indices(api, ep, args.drop_last(), c);
        let prev = class_indices(api, ep, args.drop_last(), c);
        let cur = class_indices(api, ep, args, c);
        assert forall|a: int, b: int| 0 <= a < b < cur.len() implies cur[a] < cur[b] by {
            assert(cur[a] == prev[a]);
            if b < prev.len() {
                assert(cur[b] == prev[b]);
            }
        }
    }
}

/// Distinct argument names give distinct path parameter names.
proof fn lemma_part_names_distinct(api: Api, ep: Endpoint, args: Seq<(String, RawValue)>)
    requires
        distinct_keys(args),
    ensures
        part_names(api, ep, args).no_duplicates(),
{
    lemma_class_increasing(api, ep, args, ArgClass::Part);
    lemma_class_indices(api, ep, args, ArgClass::Part);
    let ks = class_indices(api, ep, args, ArgClass::Part);
    let ns = part_names(api, ep, args);
    assert forall|a: int, b: int| 0 <= a < ns.len() && 0 <= b < ns.len() && a != b implies ns[a]
        != ns[b] by {
        assert(ns[a] == args[ks[a]].0@);
        assert(ns[b] == args[ks[b]].0@);
        if a < b {
            assert(ks[a] < ks[b]);
        } else {
            assert(ks[b] < ks[a]);
        }
    }
}

/// With distinct names on both sides, a template matches exactly where its
/// parameter set is the supplied name set.
proof fn lemma_match_iff_same_set(t: UrlTemplate, names: Seq<Seq<char>>)
    requires
        names.no_duplicates(),
        template_names(t).no_duplicates(),
    ensures
        template_matches(t, names) <==> template_names(t).to_set() == names.to_set(),
{
    let tn = template_names(t);
    names.unique_seq_to_set();
    tn.unique_seq_to_set();
    if template_matches(t, names) {
        assert forall|n: Seq<char>| names.to_set().contains(n) implies tn.to_set().contains(n) by {
            let k = choose|k: int| 0 <= k < names.len() && names[k] == n;
            assert(tn.contains(names[k]));
        }
        lemma_subset_equality(names.to_set(), tn.to_set());
    }
    if tn.to_set() == names.to_set() {
        assert(tn.len() == names.len());
        assert forall|k: int| 0 <= k < names.len() implies tn.contains(#[trigger] names[k]) by {
            assert(names.to_set().contains(names[k]));
        }
    }
}

/// Where exactly one template matches, it is the one chosen.
proof fn lemma_unique_match(ts: Seq<UrlTemplate>, names: Seq<Seq<char>>, j: int)
    requires
        0 <= j < ts.len(),
        template_matches(ts[j], names),
        forall|i: int| 0 <= i < ts.len() && i != j ==> !template_matches(#[trigger] ts[i], names),
    ensures
        count_matches(ts, names) == 1,
        first_match(ts, names) == j,
    decreases ts.len(),
{
    if j == ts.len() - 1 {
        lemma_no_match(ts.drop_last(), names);
    } else {
        lemma_unique_match(ts.drop_last(), names, j);
    }
}

/// Where no template matches, none is chosen.
proof fn lemma_no_match(ts: Seq<UrlTemplate>, names: Seq<Seq<char>>)
    requires
        forall|i: int| 0 <= i < ts.len() ==> !template_matches(#[trigger] ts[i], names),
    ensures
        count_matches(ts, names) == 0,
        first_match(ts, names) == -1,
    decreases ts.len(),
{
    if ts.len() > 0 {
        lemma_no_match(ts.drop_last(), names);
    }
}

/// Path parameter values come in the template's order.
///
/// For an endpoint with a single URL template, when the call record's path
/// arguments are exactly the template's parameters, the template is chosen,
/// and the description lists one part literal per template parameter in the
/// template's declared order, each coerced from the argument of that name,
/// whatever the order of the call record.
pub proof fn law_single_template_part_order(api: Api, ep: Endpoint, args: Seq<(String, RawValue)>)
    requires
        ep.templates@.len() == 1,
        distinct_keys(args),
        template_names(ep.templates@[0]).no_duplicates(),
        template_names(ep.templates@[0]).to_set() == part_names(api, ep, args).to_set(),
    ensures
        resolve_spec(ep.templates@, part_names(api, ep, args)) is Ok,
        call_spec(api, ep, args) is Ok ==> {
            let t = ep.templates@[0];
            let c = call_spec(api, ep, args)->Ok_0;
            match c.parts {
                Some(p) => {
                    &&& p.values.len() == t.params@.len()
                    &&& forall|k: int|
                        0 <= k < t.params@.len() ==> {
                            let name = (#[trigger] t.params@[k]).name@;
                            &&& find_key(args, name) >= 0
                            &&& coerce_spec(name, args[find_key(args, name)].1, t.params@[k].ty)
                                == Ok::<LiteralView, Seq<ErrorView>>(p.values[k])
                        }
                },
                None => t.params@.len() == 0,
            }
        },
{
    let ns = part_names(api, ep, args);
    let t = ep.templates@[0];
    lemma_part_names_distinct(api, ep, args);
    lemma_match_iff_same_set(t, ns);
    lemma_unique_match(ep.templates@, ns, 0);
    let rs = t.params@.map_values(|p: crate::schema::Param| part_value(args, p));
    lemma_collect_ok(rs);
    if call_spec(api, ep, args) is Ok {
        let c = call_spec(api, ep, args)->Ok_0;
        if c.parts is Some {
            let p = c.parts->Some_0;
            assert forall|k: int| 0 <= k < t.params@.len() implies {
                let name = (#[trigger] t.params@[k]).name@;
                &&& find_key(args, name) >= 0
                &&& coerce_spec(name, args[find_key(args, name)].1, t.params@[k].ty)
                    == Ok::<LiteralView, Seq<ErrorView>>(p.values[k])
            } by {
                assert(rs[k] == part_value(args, t.params@[k]));
            }
        } else {
            ns.unique_seq_to_set();
            template_names(t).unique_seq_to_set();
        }
    }
}


/// Whether no two templates of an endpoint have the same parameter set, and
/// no template names a parameter twice.
pub open spec fn templates_distinct(ts: Seq<UrlTemplate>) -> bool {
    &&& forall|i: int| 0 <= i < ts.len() ==> template_names(#[trigger] ts[i]).no_duplicates()
    &&& forall|i: int, j: int|
        0 <= i < ts.len() && 0 <= j < ts.len() && i != j ==> template_names(#[trigger] ts[i]).to_set()
            != template_names(#[trigger] ts[j]).to_set()
}

/// The template whose parameter set is supplied is the one selected.
///
/// For an endpoint with several URL templates, no two of them over the same
/// parameter set, supplying exactly the parameter names of template `j`
/// selects template `j`, and a successful description names its variant.
pub proof fn law_multi_template_selects(
    api: Api,
    ep: Endpoint,
    args: Seq<(String, RawValue)>,
    j: int,
)
    requires
        ep.templates@.len() > 1,
        0 <= j < ep.templates@.len(),
        templates_distinct(ep.templates@),
        distinct_keys(args),
        template_names(ep.templates@[j]).to_set() == part_names(api, ep, args).to_set(),
    ensures
        resolve_spec(ep.templates@, part_names(api, ep, args)) == Ok::<Option<int>, ()>(Some(j)),
        call_spec(api, ep, args) is Ok ==> {
            let c = call_spec(api, ep, args)->Ok_0;
            &&& c.parts is Some
            &&& c.parts->Some_0.variant == variant_name(ep.templates@[j])
        },
{
    let ts = ep.templates@;
    let ns = part_names(api, ep, args);
    lemma_part_names_distinct(api, ep, args);
    lemma_match_iff_same_set(ts[j], ns);
    assert forall|i: int| 0 <= i < ts.len() && i != j implies !template_matches(#[trigger] ts[i], ns) by {
        lemma_match_iff_same_set(ts[i], ns);
    }
    lemma_unique_match(ts, ns, j);
}

/// A name set that no template has fails the call on template resolution.
///
/// For any endpoint whose templates name no parameter twice, supplying a
/// set of path parameter names that is the parameter set of no template
/// fails the call, and its first error is `AmbiguousOrMissingTemplate` with
/// the operation and the supplied names.
pub proof fn law_missing_template_fails(api: Api, ep: Endpoint, args: Seq<(String, RawValue)>)
    requires
        distinct_keys(args),
        forall|i: int|
            0 <= i < ep.templates@.len() ==> template_names(#[trigger] ep.templates@[i]).no_duplicates(),
        forall|i: int|
            0 <= i < ep.templates@.len() ==> template_names(#[trigger] ep.templates@[i]).to_set()
                != part_names(api, ep, args).to_set(),
    ensures
        call_spec(api, ep, args) is Err,
        call_spec(api, ep, args)->Err_0.len() > 0,
        call_spec(api, ep, args)->Err_0[0] == (ErrorView::AmbiguousOrMissingTemplate {
            operation: ep.name@,
            parts: part_names(api, ep, args),
        }),
{
    let ts = ep.templates@;
    let ns = part_names(api, ep, args);
    lemma_part_names_distinct(api, ep, args);
    assert forall|i: int| 0 <= i < ts.len() implies !template_matches(#[trigger] ts[i], ns) by {
        lemma_match_iff_same_set(ts[i], ns);
    }
    lemma_no_match(ts, ns);
    let e = call_spec(api, ep, args)->Err_0;
    let pe = errors_of(parts_spec(api, ep, args));
    assert(e[0] == pe[0]);
}

/// Enumeration arguments are checked against their option set.
///
/// A non-empty string that is not among the declared options fails with
/// `EnumValidationFailure` naming the options and the value; one that is
/// among them becomes the variant of that name.
pub proof fn law_enum_validation(name: Seq<char>, value: String, options: Vec<String>)
    requires
        !is_wildcard_param(name),
        value@.len() > 0,
    ensures
        !views(options@).contains(value@) ==> coerce_spec(
            name,
            RawValue::Str(value),
            DeclaredType::Enum(options),
        ) == Err::<LiteralView, Seq<ErrorView>>(
            seq![ErrorView::EnumValidationFailure { options: views(options@), value: value@ }],
        ),
        views(options@).contains(value@) ==> coerce_spec(
            name,
            RawValue::Str(value),
            DeclaredType::Enum(options),
        ) == Ok::<LiteralView, Seq<ErrorView>>(
            LiteralView::Enum(
                EnumView { enum_name: pascal_case_of(name), variant: pascal_case_of(value@) },
            ),
        ),
{
}

/// A sequence body is one entry per document under the newline-delimited
/// contract, and one opaque document under the single-document contract.
///
/// Under `Multi`, entry `k` is the canonical text of document `k` (or the
/// string itself, for a string document), in order; under `Single`, the
/// whole sequence is encoded as one document.
pub proof fn law_body_encoding(items: Vec<RawValue>)
    ensures
        body_spec(Some(BodyContract::Multi), RawValue::Array(items)) matches BodyView::Lines(ls) && {
            &&& ls.len() == items@.len()
            &&& forall|k: int|
                0 <= k < items@.len() ==> #[trigger] ls[k] == match items@[k] {
                    RawValue::Str(s) => LineView::Text(s@),
                    _ => LineView::Document(document_text(items@[k])),
                }
        },
        body_spec(Some(BodyContract::Single), RawValue::Array(items)) == BodyView::Document(
            document_text(RawValue::Array(items)),
        ),
{
}

/// Generating twice from the same schema and call record gives the same
/// description, or the same errors.
pub proof fn law_generation_deterministic(
    api: Api,
    ep: Endpoint,
    args: Vec<(String, RawValue)>,
    first: Result<ApiCall, Vec<CallError>>,
    second: Result<ApiCall, Vec<CallError>>,
)
    requires
        call_result(first) == call_spec(api, ep, args@),
        call_result(second) == call_spec(api, ep, args@),
    ensures
        call_result(first) == call_result(second),
{
}

} // verus!
