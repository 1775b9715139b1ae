//! The typed value coercer: one central table from (value kind, declared
//! type) to a typed literal or an error.
use vstd::prelude::*;
use vstd::string::*;
use crate::error::{CallError, ErrorView, error_views};
use crate::literal::{EnumLiteral, EnumView, Literal, LiteralView, enum_views};
use crate::naming::{pascal_case, pascal_case_of};
use crate::raw::{RawValue, all_strings, string_items};
use crate::schema::DeclaredType;
use crate::text::{
    decimal, decimal_text, integer_value, join_commas, join_with_commas, parse_integer,
    same_text, split_at_commas, split_commas, views,
};

verus! {

/// Gathers a list of results: every value where all succeeded, else every
/// error, in order.
pub open spec fn collect_results<T>(rs: Seq<Result<T, Seq<ErrorView>>>) -> Result<
    Seq<T>,
    Seq<ErrorView>,
>
    decreases rs.len(),
{
    if rs.len() == 0 {
        Ok(Seq::empty())
    } else {
        match (collect_results(rs.drop_last()), rs.last()) {
            (Ok(vs), Ok(v)) => Ok(vs.push(v)),
            (Ok(_), Err(e)) => Err(e),
            (Err(es), Ok(_)) => Err(es),
            (Err(es), Err(e)) => Err(es + e),
        }
    }
}

/// The variant that `value` selects of the enumeration named after `name`.
/// An empty value selects a default for the two parameter families that
/// have one.
pub open spec fn enum_spec(name: Seq<char>, value: Seq<char>, options: Seq<Seq<char>>) -> Result<
    EnumView,
    Seq<ErrorView>,
> {
    if value.len() > 0 && !options.contains(value) {
        Err(seq![ErrorView::EnumValidationFailure { options, value }])
    } else if value.len() > 0 {
        Ok(EnumView { enum_name: pascal_case_of(name), variant: pascal_case_of(value) })
    } else if pascal_case_of(name) == "Refresh"@ {
        Ok(EnumView { enum_name: pascal_case_of(name), variant: "True"@ })
    } else if pascal_case_of(name) == "Size"@ {
        Ok(EnumView { enum_name: pascal_case_of(name), variant: "Unspecified"@ })
    } else {
        Err(seq![ErrorView::TypeCoercionFailure(name)])
    }
}

/// Each value through the enumeration rule, in order.
pub open spec fn enum_each(name: Seq<char>, values: Seq<Seq<char>>, options: Seq<Seq<char>>) -> Result<
    Seq<EnumView>,
    Seq<ErrorView>,
> {
    collect_results(values.map_values(|v: Seq<char>| enum_spec(name, v, options)))
}

/// How a boolean is written.
pub open spec fn bool_text(b: bool) -> Seq<char> {
    if b {
        "true"@
    } else {
        "false"@
    }
}

/// The one parameter whose string form may list several enumeration values.
pub open spec fn is_wildcard_param(name: Seq<char>) -> bool {
    name == "expand_wildcards"@
}

pub open spec fn as_enum_list(r: Result<Seq<EnumView>, Seq<ErrorView>>) -> Result<
    LiteralView,
    Seq<ErrorView>,
> {
    match r {
        Ok(es) => Ok(LiteralView::EnumList(es)),
        Err(e) => Err(e),
    }
}

/// The literal that `raw` becomes as an argument `name` of type `ty`.
pub open spec fn coerce_spec(name: Seq<char>, raw: RawValue, ty: DeclaredType) -> Result<
    LiteralView,
    Seq<ErrorView>,
> {
    let fail = Err(seq![ErrorView::TypeCoercionFailure(name)]);
    match raw {
        RawValue::Str(s) => match ty {
            DeclaredType::Enum(opts) => if is_wildcard_param(name) {
                as_enum_list(enum_each(name, split_commas(s@), views(opts@)))
            } else {
                match enum_spec(name, s@, views(opts@)) {
                    Ok(e) => Ok(LiteralView::Enum(e)),
                    Err(e) => Err(e),
                }
            },
            DeclaredType::List => Ok(LiteralView::StrList(split_commas(s@))),
            DeclaredType::Boolean => if s@ == "true"@ {
                Ok(LiteralView::Bool(true))
            } else if s@ == "false"@ {
                Ok(LiteralView::Bool(false))
            } else {
                fail
            },
            DeclaredType::Integer | DeclaredType::Number => match integer_value(s@) {
                Some(v) => if i32::MIN <= v <= i32::MAX {
                    Ok(LiteralView::Int(v))
                } else {
                    fail
                },
                None => fail,
            },
            DeclaredType::Long => match integer_value(s@) {
                Some(v) => if i64::MIN <= v <= i64::MAX {
                    Ok(LiteralView::Int(v))
                } else {
                    fail
                },
                None => fail,
            },
            DeclaredType::Float | DeclaredType::Double => fail,
            DeclaredType::Str => Ok(LiteralView::Str(s@)),
        },
        RawValue::Bool(b) => match ty {
            DeclaredType::Enum(_) => Ok(
                LiteralView::Enum(
                    EnumView {
                        enum_name: pascal_case_of(name),
                        variant: pascal_case_of(bool_text(b)),
                    },
                ),
            ),
            DeclaredType::List => Ok(LiteralView::StrList(seq![bool_text(b)])),
            _ => Ok(LiteralView::Bool(b)),
        },
        RawValue::Int(i) => match ty {
            DeclaredType::Str => Ok(LiteralView::Str(decimal_text(i as int))),
            DeclaredType::Integer | DeclaredType::Number | DeclaredType::Long => Ok(
                LiteralView::Int(i as int),
            ),
            DeclaredType::Float => Ok(LiteralView::Float(i as int)),
            DeclaredType::Double => Ok(LiteralView::Double(i as int)),
            _ => fail,
        },
        RawValue::Array(items) => if !all_strings(items@) {
            Err(seq![ErrorView::UnsupportedValueShape(name)])
        } else {
            match ty {
                DeclaredType::Enum(opts) => as_enum_list(
                    enum_each(name, string_items(items@), views(opts@)),
                ),
                DeclaredType::List => Ok(LiteralView::StrList(string_items(items@))),
                DeclaredType::Str => Ok(LiteralView::Str(join_commas(string_items(items@)))),
                _ => fail,
            }
        },
        RawValue::Hash(_) => Err(seq![ErrorView::UnsupportedValueShape(name)]),
    }
}

/// The view of a coercion's outcome.
pub open spec fn literal_result(r: Result<Literal, Vec<CallError>>) -> Result<
    LiteralView,
    Seq<ErrorView>,
> {
    match r {
        Ok(l) => Ok(l@),
        Err(e) => Err(error_views(e@)),
    }
}

/// Copies a list of strings.
pub fn copy_strings(v: &Vec<String>) -> (r: Vec<String>)
    ensures
        views(r@) == views(v@),
{
    let mut out: Vec<String> = Vec::new();
    let mut i: usize = 0;
    while i < v.len()
        invariant
            i <= v@.len(),
            views(out@) == views(v@.take(i as int)),
        decreases v@.len() - i,
    {
        out.push(v[i].clone());
        assert(views(v@.take(i + 1)) == views(v@.take(i as int)).push(v@[i as int]@));
        i = i + 1;
    }
    assert(v@.take(v@.len() as int) == v@);
    out
}

/// Whether `value` is one of `options`.
pub fn contains_text(options: &Vec<String>, value: &str) -> (r: bool)
    ensures
        r == views(options@).contains(value@),
{
    let mut i: usize = 0;
    while i < options.len()
        invariant
            i <= options@.len(),
            forall|k: int| 0 <= k < i ==> options@[k]@ != value@,
        decreases options@.len() - i,
    {
        if same_text(options[i].as_str(), value) {
            assert(views(options@)[i as int] == value@);
            return true;
        }
        i = i + 1;
    }
    assert forall|k: int| 0 <= k < views(options@).len() implies views(options@)[k] != value@ by {
        assert(views(options@)[k] == options@[k]@);
    }
    false
}

pub open spec fn enum_result(r: Result<EnumLiteral, Vec<CallError>>) -> Result<
    EnumView,
    Seq<ErrorView>,
> {
    match r {
        Ok(e) => Ok(e@),
        Err(e) => Err(error_views(e@)),
    }
}

/// Validates `value` against the options and names its variant.
pub fn create_enum(name: &str, value: &str, options: &Vec<String>) -> (r: Result<
    EnumLiteral,
    Vec<CallError>,
>)
    ensures
        enum_result(r) == enum_spec(name@, value@, views(options@)),
{
    let n = value.unicode_len();
    if n > 0 && !contains_text(options, value) {
        let e = CallError::EnumValidationFailure {
            options: copy_strings(options),
            value: String::from_str(value),
        };
        let errs = vec![e];
        assert(error_views(errs@) =~= seq![errs@[0]@]);
        return Err(errs);
    }
    let enum_name = pascal_case(name);
    if n > 0 {
        return Ok(EnumLiteral { enum_name, variant: pascal_case(value) });
    }
    if same_text(enum_name.as_str(), "Refresh") {
        Ok(EnumLiteral { enum_name, variant: String::from_str("True") })
    } else if same_text(enum_name.as_str(), "Size") {
        Ok(EnumLiteral { enum_name, variant: String::from_str("Unspecified") })
    } else {
        let errs = vec![CallError::TypeCoercionFailure(String::from_str(name))];
        assert(error_views(errs@) =~= seq![errs@[0]@]);
        Err(errs)
    }
}

pub open spec fn enum_list_result(r: Result<Vec<EnumLiteral>, Vec<CallError>>) -> Result<
    Seq<EnumView>,
    Seq<ErrorView>,
> {
    match r {
        Ok(e) => Ok(enum_views(e@)),
        Err(e) => Err(error_views(e@)),
    }
}

/// Each value through the enumeration rule; every failure is reported.
pub fn enum_each_exec(name: &str, values: &Vec<String>, options: &Vec<String>) -> (r: Result<
    Vec<EnumLiteral>,
    Vec<CallError>,
>)
    ensures
        enum_list_result(r) == enum_each(name@, views(values@), views(options@)),
{
    let ghost f = |v: Seq<char>| enum_spec(name@, v, views(options@));
    let mut oks: Vec<EnumLiteral> = Vec::new();
    let mut errs: Vec<CallError> = Vec::new();
    let mut failed = false;
    let mut i: usize = 0;
    assert(views(values@.take(0)).map_values(f) =~= Seq::empty());
    assert(enum_views(oks@) =~= Seq::empty());
    while i < values.len()
        invariant
            i <= values@.len(),
            f == (|v: Seq<char>| enum_spec(name@, v, views(options@))),
            collect_results(views(values@.take(i as int)).map_values(f)) == (if failed {
                Err(error_views(errs@))
            } else {
                Ok(enum_views(oks@))
            }),
        decreases values@.len() - i,
    {
        proof {
            let rs = views(values@.take(i + 1)).map_values(f);
            assert(rs.drop_last() =~= views(values@.take(i as int)).map_values(f));
            assert(rs.last() == f(values@[i as int]@));
        }
        let ghost prev_errs = error_views(errs@);
        match create_enum(name, values[i].as_str(), options) {
            Ok(e) => {
                let ghost prev = enum_views(oks@);
                oks.push(e);
                assert(enum_views(oks@) =~= prev.push(e@));
            },
            Err(mut e) => {
                let ghost ev = error_views(e@);
                if !failed {
                    errs = Vec::new();
                }
                let ghost before = error_views(errs@);
                errs.append(&mut e);
                assert(error_views(errs@) =~= before + ev);
                failed = true;
            },
        }
        i = i + 1;
    }
    assert(values@.take(values@.len() as int) == values@);
    assert(views(values@).map_values(f) =~= views(values@).map_values(
        |v: Seq<char>| enum_spec(name@, v, views(options@)),
    ));
    if failed {
        Err(errs)
    } else {
        Ok(oks)
    }
}


/// A list that holds one error.
pub fn one_error(e: CallError) -> (r: Vec<CallError>)
    ensures
        error_views(r@) == seq![e@],
{
    let r = vec![e];
    assert(error_views(r@) =~= seq![e@]);
    r
}

fn coercion_failure(name: &str) -> (r: Result<Literal, Vec<CallError>>)
    ensures
        literal_result(r) == Err::<LiteralView, Seq<ErrorView>>(
            seq![ErrorView::TypeCoercionFailure(name@)],
        ),
{
    Err(one_error(CallError::TypeCoercionFailure(String::from_str(name))))
}

/// The texts of the items, where every item is a string.
pub fn string_items_of(items: &Vec<RawValue>) -> (r: Option<Vec<String>>)
    ensures
        match r {
            Some(v) => all_strings(items@) && views(v@) == string_items(items@),
            None => !all_strings(items@),
        },
{
    let mut out: Vec<String> = Vec::new();
    let mut i: usize = 0;
    while i < items.len()
        invariant
            i <= items@.len(),
            all_strings(items@.take(i as int)),
            views(out@) == string_items(items@.take(i as int)),
        decreases items@.len() - i,
    {
        match &items[i] {
            RawValue::Str(s) => {
                out.push(s.clone());
                assert(items@.take(i + 1) =~= items@.take(i as int).push(items@[i as int]));
                assert(string_items(items@.take(i + 1)) =~= string_items(items@.take(i as int)).push(s@));
            },
            _ => {
                assert(!(items@[i as int] is Str));
                return None;
            },
        }
        i = i + 1;
    }
    assert(items@.take(items@.len() as int) == items@);
    Some(out)
}

fn enum_list_literal(name: &str, values: &Vec<String>, options: &Vec<String>) -> (r: Result<
    Literal,
    Vec<CallError>,
>)
    ensures
        literal_result(r) == as_enum_list(enum_each(name@, views(values@), views(options@))),
{
    match enum_each_exec(name, values, options) {
        Ok(es) => Ok(Literal::EnumList(es)),
        Err(e) => Err(e),
    }
}

fn is_wildcard(name: &str) -> (r: bool)
    ensures
        r == is_wildcard_param(name@),
{
    same_text(name, "expand_wildcards")
}

/// Coerces `raw` to the type `ty` declared for the argument `name`.
pub fn coerce(name: &str, raw: &RawValue, ty: &DeclaredType) -> (r: Result<
    Literal,
    Vec<CallError>,
>)
    ensures
        literal_result(r) == coerce_spec(name@, *raw, *ty),
{
    match raw {
        RawValue::Str(s) => match ty {
            DeclaredType::Enum(opts) => {
                if is_wildcard(name) {
                    let values = split_at_commas(s.as_str());
                    enum_list_literal(name, &values, opts)
                } else {
                    match create_enum(name, s.as_str(), opts) {
                        Ok(e) => Ok(Literal::Enum(e)),
                        Err(e) => Err(e),
                    }
                }
            },
            DeclaredType::List => Ok(Literal::StrList(split_at_commas(s.as_str()))),
            DeclaredType::Boolean => {
                if same_text(s.as_str(), "true") {
                    Ok(Literal::Bool(true))
                } else if same_text(s.as_str(), "false") {
                    Ok(Literal::Bool(false))
                } else {
                    coercion_failure(name)
                }
            },
            DeclaredType::Integer | DeclaredType::Number => {
                match parse_integer(s.as_str(), i32::MIN as i128, i32::MAX as i128) {
                    Some(v) => Ok(Literal::Int(v as i64)),
                    None => coercion_failure(name),
                }
            },
            DeclaredType::Long => {
                match parse_integer(s.as_str(), i64::MIN as i128, i64::MAX as i128) {
                    Some(v) => Ok(Literal::Int(v as i64)),
                    None => coercion_failure(name),
                }
            },
            DeclaredType::Float | DeclaredType::Double => coercion_failure(name),
            DeclaredType::Str => Ok(Literal::Str(s.clone())),
        },
        RawValue::Bool(b) => match ty {
            DeclaredType::Enum(_) => {
                let text = if *b { "true" } else { "false" };
                Ok(
                    Literal::Enum(
                        EnumLiteral { enum_name: pascal_case(name), variant: pascal_case(text) },
                    ),
                )
            },
            DeclaredType::List => {
                let text = if *b { "true" } else { "false" };
                let v = vec![String::from_str(text)];
                assert(views(v@) =~= seq![bool_text(*b)]);
                Ok(Literal::StrList(v))
            },
            _ => Ok(Literal::Bool(*b)),
        },
        RawValue::Int(i) => match ty {
            DeclaredType::Str => Ok(Literal::Str(decimal(*i))),
            DeclaredType::Integer | DeclaredType::Number | DeclaredType::Long => Ok(
                Literal::Int(*i),
            ),
            DeclaredType::Float => Ok(Literal::Float(*i)),
            DeclaredType::Double => Ok(Literal::Double(*i)),
            _ => coercion_failure(name),
        },
        RawValue::Array(items) => match string_items_of(items) {
            None => Err(one_error(CallError::UnsupportedValueShape(String::from_str(name)))),
            Some(strs) => match ty {
                DeclaredType::Enum(opts) => enum_list_literal(name, &strs, opts),
                DeclaredType::List => Ok(Literal::StrList(strs)),
                DeclaredType::Str => Ok(Literal::Str(join_with_commas(&strs))),
                _ => coercion_failure(name),
            },
        },
        RawValue::Hash(_) => Err(one_error(CallError::UnsupportedValueShape(String::from_str(name)))),
    }
}

} // verus!
