//! The "do" action of a test: the call record together with the headers,
//! expected failure and expected warnings that accompany it.
use vstd::prelude::*;
use vstd::string::*;
use crate::call::{ApiCall, CallView, call_spec};
use crate::coerce::one_error;
use crate::error::{CallError, ErrorView, error_views};
use crate::raw::{RawValue, all_strings, string_items};
use crate::schema::{Api, find_endpoint, lemma_find_endpoint};
use crate::text::{same_text, views};

verus! {

/// A parsed "do" action.
#[derive(Debug, Clone, PartialEq)]
pub struct Do {
    pub headers: Vec<(String, String)>,
    pub catch: Option<String>,
    pub api_call: ApiCall,
    pub warnings: Vec<String>,
}

pub struct DoView {
    pub headers: Seq<(Seq<char>, Seq<char>)>,
    pub catch: Option<Seq<char>>,
    pub api_call: CallView,
    pub warnings: Seq<Seq<char>>,
}

/// What has been read of an action so far.
pub struct ActionState {
    pub errors: Seq<ErrorView>,
    pub call: Option<CallView>,
    pub catch: Option<Seq<char>>,
    pub headers: Seq<(Seq<char>, Seq<char>)>,
    pub warnings: Seq<Seq<char>>,
}

/// Whether every entry maps to a string.
pub open spec fn all_string_values(es: Seq<(String, RawValue)>) -> bool {
    forall|k: int| 0 <= k < es.len() ==> (#[trigger] es[k]).1 is Str
}

/// The entries as pairs of texts.
pub open spec fn text_pairs(es: Seq<(String, RawValue)>) -> Seq<(Seq<char>, Seq<char>)> {
    es.map_values(|e: (String, RawValue)| (e.0@, e.1->Str_0@))
}

pub open spec fn with_error(st: ActionState, e: ErrorView) -> ActionState {
    ActionState { errors: st.errors.push(e), ..st }
}

/// Reads one entry of an action.
pub open spec fn action_step(api: Api, st: ActionState, key: Seq<char>, v: RawValue) -> ActionState {
    if key == "headers"@ {
        match v {
            RawValue::Hash(es) => if all_string_values(es@) {
                ActionState { headers: text_pairs(es@), ..st }
            } else {
                with_error(st, ErrorView::UnsupportedValueShape(key))
            },
            _ => with_error(st, ErrorView::UnsupportedValueShape(key)),
        }
    } else if key == "catch"@ {
        ActionState {
            catch: match v {
                RawValue::Str(s) => Some(s@),
                _ => None,
            },
            ..st
        }
    } else if key == "node_selector"@ {
        st
    } else if key == "warnings"@ {
        match v {
            RawValue::Array(items) => if all_strings(items@) {
                ActionState { warnings: string_items(items@), ..st }
            } else {
                with_error(st, ErrorView::UnsupportedValueShape(key))
            },
            _ => with_error(st, ErrorView::UnsupportedValueShape(key)),
        }
    } else {
        match v {
            RawValue::Hash(es) => {
                let k = find_endpoint(api.endpoints@, key);
                if k < 0 {
                    with_error(st, ErrorView::UnknownOperation(key))
                } else {
                    match call_spec(api, api.endpoints@[k], es@) {
                        Ok(c) => ActionState { call: Some(c), ..st },
                        Err(e) => ActionState { errors: st.errors + e, ..st },
                    }
                }
            },
            _ => with_error(st, ErrorView::UnsupportedValueShape(key)),
        }
    }
}

/// Reads the entries of an action in order.
pub open spec fn action_fold(api: Api, es: Seq<(String, RawValue)>) -> ActionState
    decreases es.len(),
{
    if es.len() == 0 {
        ActionState {
            errors: Seq::empty(),
            call: None,
            catch: None,
            headers: Seq::empty(),
            warnings: Seq::empty(),
        }
    } else {
        action_step(api, action_fold(api, es.drop_last()), es.last().0@, es.last().1)
    }
}

/// The parsed action, or every error found in it.
pub open spec fn do_spec(api: Api, step: RawValue) -> Result<DoView, Seq<ErrorView>> {
    match step {
        RawValue::Hash(es) => {
            let st = action_fold(api, es@);
            if st.errors.len() > 0 {
                Err(st.errors)
            } else if st.call is None {
                Err(seq![ErrorView::MissingCall])
            } else {
                Ok(
                    DoView {
                        headers: st.headers,
                        catch: st.catch,
                        api_call: st.call->Some_0,
                        warnings: st.warnings,
                    },
                )
            }
        },
        _ => Err(seq![ErrorView::UnsupportedValueShape("do"@)]),
    }
}

impl View for Do {
    type V = DoView;

    open spec fn view(&self) -> DoView {
        DoView {
            headers: self.headers@.map_values(|h: (String, String)| (h.0@, h.1@)),
            catch: match self.catch {
                Some(c) => Some(c@),
                None => None,
            },
            api_call: self.api_call@,
            warnings: views(self.warnings@),
        }
    }
}

pub open spec fn do_result(r: Result<Do, Vec<CallError>>) -> Result<DoView, Seq<ErrorView>> {
    match r {
        Ok(d) => Ok(d@),
        Err(e) => Err(error_views(e@)),
    }
}

fn string_pairs(es: &Vec<(String, RawValue)>) -> (r: Option<Vec<(String, String)>>)
    ensures
        match r {
            Some(v) => all_string_values(es@) && v@.map_values(|h: (String, String)| (h.0@, h.1@))
                == text_pairs(es@),
            None => !all_string_values(es@),
        },
{
    let mut out: Vec<(String, String)> = Vec::new();
    let mut i: usize = 0;
    while i < es.len()
        invariant
            i <= es@.len(),
            all_string_values(es@.take(i as int)),
            out@.map_values(|h: (String, String)| (h.0@, h.1@)) == text_pairs(es@.take(i as int)),
        decreases es@.len() - i,
    {
        match &es[i].1 {
            RawValue::Str(s) => {
                let ghost prev = out@.map_values(|h: (String, String)| (h.0@, h.1@));
                out.push((es[i].0.clone(), s.clone()));
                assert(es@.take(i + 1) =~= es@.take(i as int).push(es@[i as int]));
                assert(out@.map_values(|h: (String, String)| (h.0@, h.1@)) =~= prev.push(
                    (es@[i as int].0@, s@),
                ));
                assert(text_pairs(es@.take(i + 1)) =~= text_pairs(es@.take(i as int)).push(
                    (es@[i as int].0@, s@),
                ));
            },
            _ => {
                assert(!(es@[i as int].1 is Str));
                return None;
            },
        }
        i = i + 1;
    }
    assert(es@.take(es@.len() as int) == es@);
    Some(out)
}

impl Do {
    /// Reads a "do" action: its call, headers, expected failure and expected
    /// warnings. Every error found in its entries is reported together.
    pub fn try_parse(api: &Api, step: &RawValue) -> (r: Result<Do, Vec<CallError>>)
        ensures
            do_result(r) == do_spec(*api, *step),
    {
        let es = match step {
            RawValue::Hash(es) => es,
            _ => {
                return Err(one_error(CallError::UnsupportedValueShape(String::from_str("do"))));
            },
        };
        let mut errs: Vec<CallError> = Vec::new();
        let mut call: Option<ApiCall> = None;
        let mut catch: Option<String> = None;
        let mut headers: Vec<(String, String)> = Vec::new();
        let mut warnings: Vec<String> = Vec::new();
        let mut i: usize = 0;
        assert(headers@.map_values(|h: (String, String)| (h.0@, h.1@)) =~= Seq::empty());
        assert(views(warnings@) =~= Seq::empty());
        assert(error_views(errs@) =~= Seq::empty());
        while i < es.len()
            invariant
                i <= es@.len(),
                ({
                    let st = action_fold(*api, es@.take(i as int));
                    &&& st.errors == error_views(errs@)
                    &&& st.call == match call {
                        Some(c) => Some(c@),
                        None => None::<CallView>,
                    }
                    &&& st.catch == match catch {
                        Some(c) => Some(c@),
                        None => None::<Seq<char>>,
                    }
                    &&& st.headers == headers@.map_values(|h: (String, String)| (h.0@, h.1@))
                    &&& st.warnings == views(warnings@)
                }),
            decreases es@.len() - i,
        {
            assert(es@.take(i + 1).drop_last() == es@.take(i as int));
            let key = es[i].0.as_str();
            let v = &es[i].1;
            if same_text(key, "headers") {
                let ok = match v {
                    RawValue::Hash(hs) => match string_pairs(hs) {
                        Some(pairs) => {
                            headers = pairs;
                            true
                        },
                        None => false,
                    },
                    _ => false,
                };
                if !ok {
                    let ghost prev = error_views(errs@);
                    errs.push(CallError::UnsupportedValueShape(String::from_str(key)));
                    assert(error_views(errs@) =~= prev.push(ErrorView::UnsupportedValueShape(key@)));
                }
            } else if same_text(key, "catch") {
                catch = match v {
                    RawValue::Str(s) => Some(s.clone()),
                    _ => None,
                };
            } else if same_text(key, "node_selector") {
            } else if same_text(key, "warnings") {
                let ok = match v {
                    RawValue::Array(items) => match crate::coerce::string_items_of(items) {
                        Some(ws) => {
                            warnings = ws;
                            true
                        },
                        None => false,
                    },
                    _ => false,
                };
                if !ok {
                    let ghost prev = error_views(errs@);
                    errs.push(CallError::UnsupportedValueShape(String::from_str(key)));
                    assert(error_views(errs@) =~= prev.push(ErrorView::UnsupportedValueShape(key@)));
                }
            } else {
                match v {
                    RawValue::Hash(args) => {
                        proof {
                            lemma_find_endpoint(api.endpoints@, key@);
                        }
                        match api.endpoint_for_api_call(key) {
                            None => {
                                let ghost prev = error_views(errs@);
                                errs.push(CallError::UnknownOperation(String::from_str(key)));
                                assert(error_views(errs@) =~= prev.push(
                                    ErrorView::UnknownOperation(key@),
                                ));
                            },
                            Some(ep) => match ApiCall::try_from(api, ep, args) {
                                Ok(c) => {
                                    call = Some(c);
                                },
                                Err(mut e) => {
                                    let ghost prev = error_views(errs@);
                                    let ghost ev = error_views(e@);
                                    errs.append(&mut e);
                                    assert(error_views(errs@) =~= prev + ev);
                                },
                            },
                        }
                    },
                    _ => {
                        let ghost prev = error_views(errs@);
                        errs.push(CallError::UnsupportedValueShape(String::from_str(key)));
                        assert(error_views(errs@) =~= prev.push(ErrorView::UnsupportedValueShape(key@)));
                    },
                }
            }
            i = i + 1;
        }
        assert(es@.take(es@.len() as int) == es@);
        if errs.len() > 0 {
            return Err(errs);
        }
        match call {
            None => Err(one_error(CallError::MissingCall)),
            Some(api_call) => Ok(Do { headers, catch, api_call, warnings }),
        }
    }

    /// Reads a batch of actions. Each is read on its own: a failing action
    /// leaves the others as they would be alone.
    pub fn try_parse_all(api: &Api, steps: &Vec<RawValue>) -> (r: Vec<Result<Do, Vec<CallError>>>)
        ensures
            r@.len() == steps@.len(),
            forall|k: int| 0 <= k < steps@.len() ==> do_result(#[trigger] r@[k]) == do_spec(*api, steps@[k]),
    {
        let mut out: Vec<Result<Do, Vec<CallError>>> = Vec::new();
        let mut i: usize = 0;
        while i < steps.len()
            invariant
                i <= steps@.len(),
                out@.len() == i,
                forall|k: int| 0 <= k < i ==> do_result(#[trigger] out@[k]) == do_spec(*api, steps@[k]),
            decreases steps@.len() - i,
        {
            out.push(Do::try_parse(api, &steps[i]));
            i = i + 1;
        }
        out
    }
}

} // verus!
