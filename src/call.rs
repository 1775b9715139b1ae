//! The argument classifier and the call assembler: from a call record to a
//! typed call description.
use vstd::prelude::*;
use vstd::string::*;
use crate::body::{BodyLiteral, BodyView, body_spec, encode_body};
use crate::coerce::{collect_results, coerce, coerce_spec, literal_result, one_error};
use crate::error::{CallError, ErrorView, error_views};
use crate::literal::{Literal, LiteralView};
use crate::naming::{concat_all, pascal_case, pascal_case_of, remove_dots, without_dots};
use crate::raw::RawValue;
use crate::resolve::{lemma_first_match, resolve_spec, resolve_template};
use crate::schema::{
    Api, DeclaredType, Endpoint, Param, UrlTemplate, find_param, find_param_index,
    lemma_find_param, param_names, template_names,
};
use crate::text::{same_text, views};

verus! {

/// Where an argument of a call record goes.
#[derive(PartialEq, Eq, Structural, Clone, Copy)]
pub enum ArgClass {
    Query,
    Body,
    Ignore,
    Part,
}

/// Whether `key` is a query parameter of the endpoint or of the whole schema.
pub open spec fn is_query_param(api: Api, ep: Endpoint, key: Seq<char>) -> bool {
    param_names(ep.params@).contains(key) || param_names(api.common_params@).contains(key)
}

/// The class of an argument named `key`.
pub open spec fn classify(api: Api, ep: Endpoint, key: Seq<char>) -> ArgClass {
    if is_query_param(api, ep, key) {
        ArgClass::Query
    } else if key == "body"@ {
        ArgClass::Body
    } else if key == "ignore"@ {
        ArgClass::Ignore
    } else {
        ArgClass::Part
    }
}

/// The positions of the arguments of class `c`, in order.
pub open spec fn class_indices(
    api: Api,
    ep: Endpoint,
    args: Seq<(String, RawValue)>,
    c: ArgClass,
) -> Seq<int>
    decreases args.len(),
{
    if args.len() == 0 {
        Seq::empty()
    } else {
        let prev = class_indices(api, ep, args.drop_last(), c);
        if classify(api, ep, args.last().0@) == c {
            prev.push(args.len() - 1)
        } else {
            prev
        }
    }
}

pub proof fn lemma_class_indices(api: Api, ep: Endpoint, args: Seq<(String, RawValue)>, c: ArgClass)
    ensures
        forall|k: int|
            0 <= k < class_indices(api, ep, args, c).len() ==> 0 <= #[trigger] class_indices(
                api,
                ep,
                args,
                c,
            )[k] < args.len(),
    decreases args.len(),
{
    if args.len() > 0 {
        lemma_class_indices(api, ep, args.drop_last(), c);
        let prev = class_indices(api, ep, args.drop_last(), c);
        let cur = class_indices(api, ep, args, c);
        assert forall|k: int| 0 <= k < cur.len() implies 0 <= #[trigger] cur[k] < args.len() by {
            if k < prev.len() {
                assert(cur[k] == prev[k]);
            }
        }
    }
}

/// The class of the argument named `key`.
pub fn classify_arg(api: &Api, ep: &Endpoint, key: &str) -> (c: ArgClass)
    ensures
        c == classify(*api, *ep, key@),
{
    proof {
        lemma_find_param(ep.params@, key@);
        lemma_find_param(api.common_params@, key@);
    }
    if find_param_index(&ep.params, key).is_some() || find_param_index(&api.common_params, key).is_some() {
        ArgClass::Query
    } else if same_text(key, "body") {
        ArgClass::Body
    } else if same_text(key, "ignore") {
        ArgClass::Ignore
    } else {
        ArgClass::Part
    }
}

/// The positions of the arguments of class `c`, in order.
pub fn indices_of_class(api: &Api, ep: &Endpoint, args: &Vec<(String, RawValue)>, c: ArgClass) -> (r: Vec<usize>)
    ensures
        r@.map_values(|k: usize| k as int) == class_indices(*api, *ep, args@, c),
{
    let mut out: Vec<usize> = Vec::new();
    let mut i: usize = 0;
    while i < args.len()
        invariant
            i <= args@.len(),
            out@.map_values(|k: usize| k as int) == class_indices(*api, *ep, args@.take(i as int), c),
        decreases args@.len() - i,
    {
        assert(args@.take(i + 1).drop_last() == args@.take(i as int));
        if classify_arg(api, ep, args[i].0.as_str()) == c {
            let ghost prev = out@.map_values(|k: usize| k as int);
            out.push(i);
            assert(out@.map_values(|k: usize| k as int) =~= prev.push(i as int));
        }
        i = i + 1;
    }
    assert(args@.take(args@.len() as int) == args@);
    out
}


/// The declared type of a query parameter: the endpoint's own declaration
/// first, else the schema-wide one.
pub open spec fn query_type(api: Api, ep: Endpoint, key: Seq<char>) -> DeclaredType {
    if find_param(ep.params@, key) >= 0 {
        ep.params@[find_param(ep.params@, key)].ty
    } else {
        api.common_params@[find_param(api.common_params@, key)].ty
    }
}

/// The declared type of a query parameter.
pub fn query_type_of<'a>(api: &'a Api, ep: &'a Endpoint, key: &str) -> (t: &'a DeclaredType)
    requires
        is_query_param(*api, *ep, key@),
    ensures
        *t == query_type(*api, *ep, key@),
{
    proof {
        lemma_find_param(ep.params@, key@);
        lemma_find_param(api.common_params@, key@);
    }
    match find_param_index(&ep.params, key) {
        Some(i) => &ep.params[i].ty,
        None => match find_param_index(&api.common_params, key) {
            Some(i) => &api.common_params[i].ty,
            None => {
                assert(false);
                &ep.params[0].ty
            },
        },
    }
}

/// The named literal of the query argument at position `k`.
pub open spec fn param_result(api: Api, ep: Endpoint, args: Seq<(String, RawValue)>, k: int) -> Result<
    (Seq<char>, LiteralView),
    Seq<ErrorView>,
> {
    match coerce_spec(args[k].0@, args[k].1, query_type(api, ep, args[k].0@)) {
        Ok(l) => Ok((args[k].0@, l)),
        Err(e) => Err(e),
    }
}

/// The query parameter assignments, in the order of the call record.
pub open spec fn params_spec(api: Api, ep: Endpoint, args: Seq<(String, RawValue)>) -> Result<
    Seq<(Seq<char>, LiteralView)>,
    Seq<ErrorView>,
> {
    collect_results(
        class_indices(api, ep, args, ArgClass::Query).map_values(
            |k: int| param_result(api, ep, args, k),
        ),
    )
}

/// The views of named literals.
pub open spec fn assignment_views(v: Seq<(String, Literal)>) -> Seq<(Seq<char>, LiteralView)> {
    v.map_values(|p: (String, Literal)| (p.0@, p.1@))
}

pub open spec fn params_result(r: Result<Vec<(String, Literal)>, Vec<CallError>>) -> Result<
    Seq<(Seq<char>, LiteralView)>,
    Seq<ErrorView>,
> {
    match r {
        Ok(v) => Ok(assignment_views(v@)),
        Err(e) => Err(error_views(e@)),
    }
}

/// Coerces every query argument to its declared type, reporting every
/// failure.
pub fn generate_params(api: &Api, ep: &Endpoint, args: &Vec<(String, RawValue)>) -> (r: Result<
    Vec<(String, Literal)>,
    Vec<CallError>,
>)
    ensures
        params_result(r) == params_spec(*api, *ep, args@),
{
    let idx = indices_of_class(api, ep, args, ArgClass::Query);
    let ghost ks = class_indices(*api, *ep, args@, ArgClass::Query);
    let ghost f = |k: int| param_result(*api, *ep, args@, k);
    proof {
        lemma_class_indices(*api, *ep, args@, ArgClass::Query);
    }
    let mut oks: Vec<(String, Literal)> = Vec::new();
    let mut errs: Vec<CallError> = Vec::new();
    let mut failed = false;
    let mut i: usize = 0;
    assert(ks.take(0).map_values(f) =~= Seq::empty());
    assert(assignment_views(oks@) =~= Seq::empty());
    while i < idx.len()
        invariant
            i <= idx@.len(),
            idx@.map_values(|k: usize| k as int) == ks,
            ks == class_indices(*api, *ep, args@, ArgClass::Query),
            forall|k: int| 0 <= k < ks.len() ==> 0 <= #[trigger] ks[k] < args@.len(),
            f == (|k: int| param_result(*api, *ep, args@, k)),
            collect_results(ks.take(i as int).map_values(f)) == (if failed {
                Err(error_views(errs@))
            } else {
                Ok(assignment_views(oks@))
            }),
        decreases idx@.len() - i,
    {
        let k = idx[i];
        proof {
            assert(ks[i as int] == k as int);
            let rs = ks.take(i + 1).map_values(f);
            assert(rs.drop_last() =~= ks.take(i as int).map_values(f));
            assert(rs.last() == f(k as int));
        }
        let name = args[k].0.as_str();
        proof {
            lemma_class_indices(*api, *ep, args@, ArgClass::Query);
            lemma_query_class(*api, *ep, args@, i as int);
        }
        let ty = query_type_of(api, ep, name);
        match coerce(name, &args[k].1, ty) {
            Ok(l) => {
                let ghost prev = assignment_views(oks@);
                oks.push((args[k].0.clone(), l));
                assert(assignment_views(oks@) =~= prev.push((name@, l@)));
            },
            Err(mut e) => {
                let ghost ev = error_views(e@);
                if !failed {
                    errs = Vec::new();
                }
                let ghost before = error_views(errs@);
                errs.append(&mut e);
                assert(error_views(errs@) =~= before + ev);
                failed = true;
            },
        }
        i = i + 1;
    }
    assert(ks.take(ks.len() as int) == ks);
    if failed {
        Err(errs)
    } else {
        Ok(oks)
    }
}

/// An argument listed among the query arguments is a query parameter.
pub proof fn lemma_query_class(api: Api, ep: Endpoint, args: Seq<(String, RawValue)>, i: int)
    requires
        0 <= i < class_indices(api, ep, args, ArgClass::Query).len(),
    ensures
        is_query_param(api, ep, args[class_indices(api, ep, args, ArgClass::Query)[i]].0@),
    decreases args.len(),
{
    lemma_class_in(api, ep, args, ArgClass::Query, i);
}

/// Every position listed for a class holds an argument of that class.
pub proof fn lemma_class_in(api: Api, ep: Endpoint, args: Seq<(String, RawValue)>, c: ArgClass, i: int)
    requires
        0 <= i < class_indices(api, ep, args, c).len(),
    ensures
        0 <= class_indices(api, ep, args, c)[i] < args.len(),
        classify(api, ep, args[class_indices(api, ep, args, c)[i]].0@) == c,
    decreases args.len(),
{
    lemma_class_indices(api, ep, args, c);
    let prev = class_indices(api, ep, args.drop_last(), c);
    if i < prev.len() {
        lemma_class_in(api, ep, args.drop_last(), c, i);
        assert(class_indices(api, ep, args, c)[i] == prev[i]);
    }
}


/// The selector of a URL template: the parts enumeration, its variant, and
/// the part values in the template's order.
#[derive(Debug, Clone, PartialEq)]
pub struct PartsLiteral {
    pub enum_name: String,
    pub variant: String,
    pub values: Vec<Literal>,
}

pub struct PartsView {
    pub enum_name: Seq<char>,
    pub variant: Seq<char>,
    pub values: Seq<LiteralView>,
}

impl View for PartsLiteral {
    type V = PartsView;

    open spec fn view(&self) -> PartsView {
        PartsView {
            enum_name: self.enum_name@,
            variant: self.variant@,
            values: self.values@.map_values(|l: Literal| l@),
        }
    }
}

/// The position of the first argument named `name`, or -1.
pub open spec fn find_key(args: Seq<(String, RawValue)>, name: Seq<char>) -> int
    decreases args.len(),
{
    if args.len() == 0 {
        -1
    } else if find_key(args.drop_last(), name) >= 0 {
        find_key(args.drop_last(), name)
    } else if args.last().0@ == name {
        args.len() - 1
    } else {
        -1
    }
}

pub proof fn lemma_find_key(args: Seq<(String, RawValue)>, name: Seq<char>)
    ensures
        -1 <= find_key(args, name) < args.len(),
        find_key(args, name) >= 0 ==> args[find_key(args, name)].0@ == name,
    decreases args.len(),
{
    if args.len() > 0 {
        lemma_find_key(args.drop_last(), name);
    }
}

proof fn lemma_prefix_find_key(args: Seq<(String, RawValue)>, name: Seq<char>, n: int)
    requires
        0 <= n <= args.len(),
        find_key(args.take(n), name) >= 0,
    ensures
        find_key(args, name) == find_key(args.take(n), name),
    decreases args.len() - n,
{
    if n < args.len() {
        assert(args.take(n + 1).drop_last() == args.take(n));
        lemma_prefix_find_key(args, name, n + 1);
    } else {
        assert(args.take(n) == args);
    }
}

/// Finds the first argument named `name`.
pub fn find_key_index(args: &Vec<(String, RawValue)>, name: &str) -> (r: Option<usize>)
    ensures
        match r {
            Some(i) => find_key(args@, name@) == i,
            None => find_key(args@, name@) == -1,
        },
{
    let mut i: usize = 0;
    while i < args.len()
        invariant
            i <= args@.len(),
            find_key(args@.take(i as int), name@) == -1,
        decreases args@.len() - i,
    {
        assert(args@.take(i + 1).drop_last() == args@.take(i as int));
        if same_text(args[i].0.as_str(), name) {
            proof {
                lemma_prefix_find_key(args@, name@, i + 1);
            }
            return Some(i);
        }
        i = i + 1;
    }
    assert(args@.take(args@.len() as int) == args@);
    None
}

/// The literal for one path parameter of the chosen template.
pub open spec fn part_value(args: Seq<(String, RawValue)>, p: Param) -> Result<
    LiteralView,
    Seq<ErrorView>,
> {
    let k = find_key(args, p.name@);
    if k < 0 {
        Err(seq![ErrorView::UnresolvedArgument(p.name@)])
    } else {
        coerce_spec(p.name@, args[k].1, p.ty)
    }
}

/// Whether some template has a path parameter named `n`.
pub open spec fn in_any_template(ts: Seq<UrlTemplate>, n: Seq<char>) -> bool
    decreases ts.len(),
{
    ts.len() > 0 && (in_any_template(ts.drop_last(), n) || template_names(ts.last()).contains(n))
}

/// One error for each supplied name that no template has.
pub open spec fn unresolved(ts: Seq<UrlTemplate>, names: Seq<Seq<char>>) -> Seq<ErrorView>
    decreases names.len(),
{
    if names.len() == 0 {
        Seq::empty()
    } else if in_any_template(ts, names.last()) {
        unresolved(ts, names.drop_last())
    } else {
        unresolved(ts, names.drop_last()).push(ErrorView::UnresolvedArgument(names.last()))
    }
}

/// The name of the parts enumeration of an operation.
pub open spec fn parts_enum_name(op: Seq<char>) -> Seq<char> {
    without_dots(pascal_case_of(op)) + "Parts"@
}

/// The variant that selects a template: its parameter names in Pascal case,
/// one after another, or `None` for a template without parameters.
pub open spec fn variant_name(t: UrlTemplate) -> Seq<char> {
    if t.params@.len() == 0 {
        "None"@
    } else {
        concat_all(template_names(t).map_values(|n: Seq<char>| pascal_case_of(n)))
    }
}

/// The names of the arguments classed as path parameters, in order.
pub open spec fn part_names(api: Api, ep: Endpoint, args: Seq<(String, RawValue)>) -> Seq<Seq<char>> {
    class_indices(api, ep, args, ArgClass::Part).map_values(|k: int| args[k].0@)
}

/// The template selector of a call record.
pub open spec fn parts_spec(api: Api, ep: Endpoint, args: Seq<(String, RawValue)>) -> Result<
    Option<PartsView>,
    Seq<ErrorView>,
> {
    let names = part_names(api, ep, args);
    match resolve_spec(ep.templates@, names) {
        Err(_) => Err(
            seq![ErrorView::AmbiguousOrMissingTemplate { operation: ep.name@, parts: names }]
                + unresolved(ep.templates@, names),
        ),
        Ok(None) => Ok(None),
        Ok(Some(j)) => {
            let t = ep.templates@[j];
            match collect_results(t.params@.map_values(|p: Param| part_value(args, p))) {
                Ok(vs) => Ok(
                    Some(
                        PartsView {
                            enum_name: parts_enum_name(ep.name@),
                            variant: variant_name(t),
                            values: vs,
                        },
                    ),
                ),
                Err(e) => Err(e),
            }
        },
    }
}


/// Whether some template has a path parameter named `n`.
fn in_any_template_exec(ts: &Vec<UrlTemplate>, n: &str) -> (r: bool)
    ensures
        r == in_any_template(ts@, n@),
{
    let mut i: usize = 0;
    let mut found = false;
    while i < ts.len()
        invariant
            i <= ts@.len(),
            found == in_any_template(ts@.take(i as int), n@),
        decreases ts@.len() - i,
    {
        assert(ts@.take(i + 1).drop_last() == ts@.take(i as int));
        proof {
            lemma_find_param(ts@[i as int].params@, n@);
        }
        if find_param_index(&ts[i].params, n).is_some() {
            found = true;
        }
        i = i + 1;
    }
    assert(ts@.take(ts@.len() as int) == ts@);
    found
}

fn unresolved_exec(ts: &Vec<UrlTemplate>, names: &Vec<String>) -> (r: Vec<CallError>)
    ensures
        error_views(r@) == unresolved(ts@, views(names@)),
{
    let mut out: Vec<CallError> = Vec::new();
    let mut i: usize = 0;
    while i < names.len()
        invariant
            i <= names@.len(),
            error_views(out@) == unresolved(ts@, views(names@.take(i as int))),
        decreases names@.len() - i,
    {
        proof {
            let t = views(names@.take(i + 1));
            assert(t.drop_last() =~= views(names@.take(i as int)));
            assert(t.last() == names@[i as int]@);
        }
        if !in_any_template_exec(ts, names[i].as_str()) {
            let ghost prev = error_views(out@);
            out.push(CallError::UnresolvedArgument(names[i].clone()));
            assert(error_views(out@) =~= prev.push(ErrorView::UnresolvedArgument(names@[i as int]@)));
        }
        i = i + 1;
    }
    assert(names@.take(names@.len() as int) == names@);
    out
}

fn variant_of(t: &UrlTemplate) -> (r: String)
    ensures
        r@ == variant_name(*t),
{
    if t.params.len() == 0 {
        return String::from_str("None");
    }
    let ghost f = |n: Seq<char>| pascal_case_of(n);
    let mut out = String::new();
    let mut i: usize = 0;
    while i < t.params.len()
        invariant
            i <= t.params@.len(),
            f == (|n: Seq<char>| pascal_case_of(n)),
            out@ == concat_all(template_names(*t).take(i as int).map_values(f)),
        decreases t.params@.len() - i,
    {
        proof {
            let s = template_names(*t).take(i + 1).map_values(f);
            assert(s.drop_last() =~= template_names(*t).take(i as int).map_values(f));
            assert(s.last() == pascal_case_of(t.params@[i as int].name@));
        }
        let p = pascal_case(t.params[i].name.as_str());
        out.append(p.as_str());
        i = i + 1;
    }
    assert(template_names(*t).take(t.params@.len() as int) == template_names(*t));
    out
}

/// The name of the parts enumeration of an operation.
pub fn parts_enum_name_of(op: &str) -> (r: String)
    ensures
        r@ == parts_enum_name(op@),
{
    let p = pascal_case(op);
    let mut out = remove_dots(p.as_str());
    out.append("Parts");
    out
}

fn names_at(args: &Vec<(String, RawValue)>, idx: &Vec<usize>) -> (r: Vec<String>)
    requires
        forall|k: int| 0 <= k < idx@.len() ==> #[trigger] idx@[k] < args@.len(),
    ensures
        views(r@) == idx@.map_values(|k: usize| k as int).map_values(|k: int| args@[k].0@),
{
    let mut out: Vec<String> = Vec::new();
    let mut i: usize = 0;
    while i < idx.len()
        invariant
            i <= idx@.len(),
            forall|k: int| 0 <= k < idx@.len() ==> #[trigger] idx@[k] < args@.len(),
            views(out@) == idx@.take(i as int).map_values(|k: usize| k as int).map_values(
                |k: int| args@[k].0@,
            ),
        decreases idx@.len() - i,
    {
        let ghost prev = views(out@);
        out.push(args[idx[i]].0.clone());
        assert(views(out@) =~= prev.push(args@[idx@[i as int] as int].0@));
        assert(idx@.take(i + 1).map_values(|k: usize| k as int).map_values(|k: int| args@[k].0@)
            =~= prev.push(args@[idx@[i as int] as int].0@));
        i = i + 1;
    }
    assert(idx@.take(idx@.len() as int) == idx@);
    out
}

pub open spec fn parts_result(r: Result<Option<PartsLiteral>, Vec<CallError>>) -> Result<
    Option<PartsView>,
    Seq<ErrorView>,
> {
    match r {
        Ok(Some(p)) => Ok(Some(p@)),
        Ok(None) => Ok(None),
        Err(e) => Err(error_views(e@)),
    }
}

fn part_values(args: &Vec<(String, RawValue)>, t: &UrlTemplate) -> (r: Result<Vec<Literal>, Vec<CallError>>)
    ensures
        match r {
            Ok(v) => collect_results(t.params@.map_values(|p: Param| part_value(args@, p)))
                == Ok::<Seq<LiteralView>, Seq<ErrorView>>(v@.map_values(|l: Literal| l@)),
            Err(e) => collect_results(t.params@.map_values(|p: Param| part_value(args@, p)))
                == Err::<Seq<LiteralView>, Seq<ErrorView>>(error_views(e@)),
        },
{
    let ghost f = |p: Param| part_value(args@, p);
    let mut oks: Vec<Literal> = Vec::new();
    let mut errs: Vec<CallError> = Vec::new();
    let mut failed = false;
    let mut i: usize = 0;
    assert(t.params@.take(0).map_values(f) =~= Seq::empty());
    assert(oks@.map_values(|l: Literal| l@) =~= Seq::empty());
    while i < t.params.len()
        invariant
            i <= t.params@.len(),
            f == (|p: Param| part_value(args@, p)),
            collect_results(t.params@.take(i as int).map_values(f)) == (if failed {
                Err(error_views(errs@))
            } else {
                Ok(oks@.map_values(|l: Literal| l@))
            }),
        decreases t.params@.len() - i,
    {
        let p = &t.params[i];
        proof {
            let rs = t.params@.take(i + 1).map_values(f);
            assert(rs.drop_last() =~= t.params@.take(i as int).map_values(f));
            assert(rs.last() == f(*p));
            lemma_find_key(args@, p.name@);
        }
        let res: Result<Literal, Vec<CallError>> = match find_key_index(args, p.name.as_str()) {
            None => Err(one_error(CallError::UnresolvedArgument(p.name.clone()))),
            Some(k) => coerce(p.name.as_str(), &args[k].1, &p.ty),
        };
        assert(literal_result(res) == f(*p));
        match res {
            Ok(l) => {
                let ghost prev = oks@.map_values(|l: Literal| l@);
                oks.push(l);
                assert(oks@.map_values(|l: Literal| l@) =~= prev.push(l@));
            },
            Err(mut e) => {
                let ghost ev = error_views(e@);
                if !failed {
                    errs = Vec::new();
                }
                let ghost before = error_views(errs@);
                errs.append(&mut e);
                assert(error_views(errs@) =~= before + ev);
                failed = true;
            },
        }
        i = i + 1;
    }
    assert(t.params@.take(t.params@.len() as int) == t.params@);
    assert(t.params@.map_values(f) =~= t.params@.map_values(|p: Param| part_value(args@, p)));
    if failed {
        Err(errs)
    } else {
        Ok(oks)
    }
}

/// Resolves the template of a call record and orders its part values by
/// the template's parameter order.
pub fn generate_parts(api: &Api, ep: &Endpoint, args: &Vec<(String, RawValue)>) -> (r: Result<
    Option<PartsLiteral>,
    Vec<CallError>,
>)
    ensures
        parts_result(r) == parts_spec(*api, *ep, args@),
{
    let idx = indices_of_class(api, ep, args, ArgClass::Part);
    proof {
        lemma_class_indices(*api, *ep, args@, ArgClass::Part);
        let ks = class_indices(*api, *ep, args@, ArgClass::Part);
        assert forall|k: int| 0 <= k < idx@.len() implies #[trigger] idx@[k] < args@.len() by {
            assert(idx@.map_values(|k: usize| k as int)[k] == ks[k]);
        }
    }
    let names = names_at(args, &idx);
    let ghost ns = part_names(*api, *ep, args@);
    assert(views(names@) == ns);
    match resolve_template(&ep.templates, &names) {
        Err(()) => {
            let mut errs = vec![
                CallError::AmbiguousOrMissingTemplate {
                    operation: ep.name.clone(),
                    parts: crate::coerce::copy_strings(&names),
                },
            ];
            let ghost first = error_views(errs@);
            assert(first =~= seq![ErrorView::AmbiguousOrMissingTemplate { operation: ep.name@, parts: ns }]);
            let mut rest = unresolved_exec(&ep.templates, &names);
            let ghost rv = error_views(rest@);
            errs.append(&mut rest);
            assert(error_views(errs@) =~= first + rv);
            Err(errs)
        },
        Ok(None) => Ok(None),
        Ok(Some(j)) => {
            proof {
                lemma_first_match(ep.templates@, ns);
            }
            let t = &ep.templates[j];
            match part_values(args, t) {
                Ok(values) => Ok(
                    Some(
                        PartsLiteral {
                            enum_name: parts_enum_name_of(ep.name.as_str()),
                            variant: variant_of(t),
                            values,
                        },
                    ),
                ),
                Err(e) => Err(e),
            }
        },
    }
}


/// The status code that the call ignores: an integer, or the first item of
/// a sequence of integers.
pub open spec fn ignore_spec(api: Api, ep: Endpoint, args: Seq<(String, RawValue)>) -> Result<
    Option<int>,
    Seq<ErrorView>,
> {
    let ks = class_indices(api, ep, args, ArgClass::Ignore);
    let fail = Err(seq![ErrorView::TypeCoercionFailure("ignore"@)]);
    if ks.len() == 0 {
        Ok(None)
    } else {
        match args[ks.last()].1 {
            RawValue::Int(i) => Ok(Some(i as int)),
            RawValue::Array(items) => if items@.len() > 0 && items@[0] is Int {
                Ok(Some(items@[0]->Int_0 as int))
            } else {
                fail
            },
            _ => fail,
        }
    }
}

/// The encoded body of a call record, if it has one.
pub open spec fn body_of(api: Api, ep: Endpoint, args: Seq<(String, RawValue)>) -> Option<BodyView> {
    let ks = class_indices(api, ep, args, ArgClass::Body);
    if ks.len() == 0 {
        None
    } else {
        Some(body_spec(ep.body, args[ks.last()].1))
    }
}

/// The position of the first `.` of `s`, or -1.
pub open spec fn first_dot(s: Seq<char>) -> int
    decreases s.len(),
{
    if s.len() == 0 {
        -1
    } else if first_dot(s.drop_last()) >= 0 {
        first_dot(s.drop_last())
    } else if s.last() == '.' {
        s.len() - 1
    } else {
        -1
    }
}

pub proof fn lemma_first_dot(s: Seq<char>)
    ensures
        -1 <= first_dot(s) < s.len(),
        first_dot(s) >= 0 ==> s[first_dot(s)] == '.',
    decreases s.len(),
{
    if s.len() > 0 {
        lemma_first_dot(s.drop_last());
    }
}

/// The namespace of an operation: what stands before its first `.`.
pub open spec fn namespace_spec(op: Seq<char>) -> Option<Seq<char>> {
    if first_dot(op) >= 0 {
        Some(op.take(first_dot(op)))
    } else {
        None
    }
}

/// The operation's own name: what follows its first `.`, or all of it.
pub open spec fn function_spec(op: Seq<char>) -> Seq<char> {
    if first_dot(op) >= 0 {
        op.skip(first_dot(op) + 1)
    } else {
        op
    }
}

/// The errors of a result, none for a success.
pub open spec fn errors_of<T>(r: Result<T, Seq<ErrorView>>) -> Seq<ErrorView> {
    match r {
        Ok(_) => Seq::empty(),
        Err(e) => e,
    }
}

/// The components of an API call.
#[derive(Debug, Clone, PartialEq)]
pub struct ApiCall {
    pub namespace: Option<String>,
    pub function: String,
    pub parts: Option<PartsLiteral>,
    pub params: Vec<(String, Literal)>,
    pub body: Option<BodyLiteral>,
    pub ignore: Option<i64>,
}

pub struct CallView {
    pub namespace: Option<Seq<char>>,
    pub function: Seq<char>,
    pub parts: Option<PartsView>,
    pub params: Seq<(Seq<char>, LiteralView)>,
    pub body: Option<BodyView>,
    pub ignore: Option<int>,
}

impl View for ApiCall {
    type V = CallView;

    open spec fn view(&self) -> CallView {
        CallView {
            namespace: match self.namespace {
                Some(n) => Some(n@),
                None => None,
            },
            function: self.function@,
            parts: match self.parts {
                Some(p) => Some(p@),
                None => None,
            },
            params: assignment_views(self.params@),
            body: match self.body {
                Some(b) => Some(b@),
                None => None,
            },
            ignore: match self.ignore {
                Some(i) => Some(i as int),
                None => None,
            },
        }
    }
}

/// The call description of a call record, or every error found in it.
pub open spec fn call_spec(api: Api, ep: Endpoint, args: Seq<(String, RawValue)>) -> Result<
    CallView,
    Seq<ErrorView>,
> {
    let parts = parts_spec(api, ep, args);
    let params = params_spec(api, ep, args);
    let ignore = ignore_spec(api, ep, args);
    if parts is Ok && params is Ok && ignore is Ok {
        Ok(
            CallView {
                namespace: namespace_spec(ep.name@),
                function: function_spec(ep.name@),
                parts: parts->Ok_0,
                params: params->Ok_0,
                body: body_of(api, ep, args),
                ignore: ignore->Ok_0,
            },
        )
    } else {
        Err(errors_of(parts) + errors_of(params) + errors_of(ignore))
    }
}

pub open spec fn call_result(r: Result<ApiCall, Vec<CallError>>) -> Result<CallView, Seq<ErrorView>> {
    match r {
        Ok(c) => Ok(c@),
        Err(e) => Err(error_views(e@)),
    }
}

fn last_index(idx: &Vec<usize>) -> (r: Option<usize>)
    ensures
        match r {
            Some(k) => idx@.len() > 0 && k == idx@.last(),
            None => idx@.len() == 0,
        },
{
    if idx.len() == 0 {
        None
    } else {
        Some(idx[idx.len() - 1])
    }
}

fn generate_ignore(api: &Api, ep: &Endpoint, args: &Vec<(String, RawValue)>) -> (r: Result<
    Option<i64>,
    Vec<CallError>,
>)
    ensures
        match r {
            Ok(Some(i)) => ignore_spec(*api, *ep, args@) == Ok::<Option<int>, Seq<ErrorView>>(Some(i as int)),
            Ok(None) => ignore_spec(*api, *ep, args@) == Ok::<Option<int>, Seq<ErrorView>>(None),
            Err(e) => ignore_spec(*api, *ep, args@) == Err::<Option<int>, Seq<ErrorView>>(error_views(e@)),
        },
{
    let idx = indices_of_class(api, ep, args, ArgClass::Ignore);
    proof {
        lemma_class_indices(*api, *ep, args@, ArgClass::Ignore);
    }
    match last_index(&idx) {
        None => Ok(None),
        Some(k) => {
            assert(idx@.map_values(|k: usize| k as int)[idx@.len() - 1] == k as int);
            match &args[k].1 {
                RawValue::Int(i) => Ok(Some(*i)),
                RawValue::Array(items) => {
                    if items.len() > 0 {
                        match &items[0] {
                            RawValue::Int(i) => {
                                return Ok(Some(*i));
                            },
                            _ => {},
                        }
                    }
                    Err(one_error(CallError::TypeCoercionFailure(String::from_str("ignore"))))
                },
                _ => Err(one_error(CallError::TypeCoercionFailure(String::from_str("ignore")))),
            }
        },
    }
}

fn generate_body(api: &Api, ep: &Endpoint, args: &Vec<(String, RawValue)>) -> (r: Option<BodyLiteral>)
    ensures
        match r {
            Some(b) => body_of(*api, *ep, args@) == Some(b@),
            None => body_of(*api, *ep, args@) == None::<BodyView>,
        },
{
    let idx = indices_of_class(api, ep, args, ArgClass::Body);
    proof {
        lemma_class_indices(*api, *ep, args@, ArgClass::Body);
    }
    match last_index(&idx) {
        None => None,
        Some(k) => {
            assert(idx@.map_values(|k: usize| k as int)[idx@.len() - 1] == k as int);
            Some(encode_body(ep.body, &args[k].1))
        },
    }
}

/// Splits an operation name at its first `.`.
pub fn split_operation(op: &str) -> (r: (Option<String>, String))
    ensures
        match r.0 {
            Some(n) => namespace_spec(op@) == Some(n@),
            None => namespace_spec(op@) == None::<Seq<char>>,
        },
        r.1@ == function_spec(op@),
{
    let n = op.unicode_len();
    let mut i: usize = 0;
    while i < n
        invariant
            n == op@.len(),
            i <= n,
            first_dot(op@.take(i as int)) == -1,
        decreases n - i,
    {
        assert(op@.take(i + 1).drop_last() == op@.take(i as int));
        if op.get_char(i) == '.' {
            proof {
                lemma_prefix_first_dot(op@, i + 1);
            }
            let ns = String::from_str(op.substring_char(0, i));
            let rest = String::from_str(op.substring_char(i + 1, n));
            assert(op@.take(i as int) == op@.subrange(0, i as int));
            assert(op@.skip(i + 1) == op@.subrange(i + 1, n as int));
            return (Some(ns), rest);
        }
        i = i + 1;
    }
    assert(op@.take(n as int) == op@);
    (None, String::from_str(op))
}

proof fn lemma_prefix_first_dot(s: Seq<char>, n: int)
    requires
        0 <= n <= s.len(),
        first_dot(s.take(n)) >= 0,
    ensures
        first_dot(s) == first_dot(s.take(n)),
    decreases s.len() - n,
{
    if n < s.len() {
        assert(s.take(n + 1).drop_last() == s.take(n));
        lemma_prefix_first_dot(s, n + 1);
    } else {
        assert(s.take(n) == s);
    }
}

impl ApiCall {
    /// Turns a call record into a call description. Every error of the
    /// record's path parameters, query parameters and `ignore` directive is
    /// reported together.
    pub fn try_from(api: &Api, endpoint: &Endpoint, args: &Vec<(String, RawValue)>) -> (r: Result<
        ApiCall,
        Vec<CallError>,
    >)
        ensures
            call_result(r) == call_spec(*api, *endpoint, args@),
    {
        let parts = generate_parts(api, endpoint, args);
        let params = generate_params(api, endpoint, args);
        let ignore = generate_ignore(api, endpoint, args);
        let body = generate_body(api, endpoint, args);
        let ghost ps = parts_spec(*api, *endpoint, args@);
        let ghost qs = params_spec(*api, *endpoint, args@);
        let ghost is = ignore_spec(*api, *endpoint, args@);
        match (parts, params, ignore) {
            (Ok(parts), Ok(params), Ok(ignore)) => {
                let (namespace, function) = split_operation(endpoint.name.as_str());
                Ok(ApiCall { namespace, function, parts, params, body, ignore })
            },
            (parts, params, ignore) => {
                let mut errs: Vec<CallError> = Vec::new();
                match parts {
                    Err(mut e) => errs.append(&mut e),
                    Ok(_) => {},
                }
                let ghost e1 = error_views(errs@);
                assert(e1 =~= errors_of(ps));
                match params {
                    Err(mut e) => errs.append(&mut e),
                    Ok(_) => {},
                }
                let ghost e2 = error_views(errs@);
                assert(e2 =~= errors_of(ps) + errors_of(qs));
                match ignore {
                    Err(mut e) => errs.append(&mut e),
                    Ok(_) => {},
                }
                assert(error_views(errs@) =~= errors_of(ps) + errors_of(qs) + errors_of(is));
                Err(errs)
            },
        }
    }
}

} // verus!
