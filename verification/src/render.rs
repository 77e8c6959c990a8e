use vstd::prelude::*;

use crate::emit::{calls_view, DynArgV, FmtCall, FmtCallV};
use crate::escape::{escaped_attr, escaped_text};
use crate::fmt::{
    bytes_comment_end, bytes_comment_start, bytes_doctype_start, bytes_end_tag_start, bytes_eq_quote,
    bytes_gt, bytes_lt, bytes_quote, bytes_self_close, bytes_space, HtmlAttributeValue,
    HtmlFormatter,
};
use crate::node::{clone_bytes, ExprV};
use crate::num::bool_rep;

verus! {

/// A run-time value for one dynamic slot of a replayed template, in the
/// order the slots appear.
#[derive(Debug)]
pub enum RenderValue {
    /// What a dynamic content expression evaluated to; written escaped.
    Content { text: String },
    /// What an attribute value expression evaluated to; written escaped,
    /// between `="` and `"`.
    AttrValue { text: String },
    /// Bytes written as they are: what a component or a nested closure
    /// wrote.
    Raw { bytes: Vec<u8> },
}

/// Ghost mirror of [`RenderValue`].
pub enum RenderValueV {
    Content { text: Seq<char> },
    AttrValue { text: Seq<char> },
    Raw { bytes: Seq<u8> },
}

impl View for RenderValue {
    type V = RenderValueV;

    open spec fn view(&self) -> RenderValueV {
        match self {
            RenderValue::Content { text } => RenderValueV::Content { text: text@ },
            RenderValue::AttrValue { text } => RenderValueV::AttrValue { text: text@ },
            RenderValue::Raw { bytes } => RenderValueV::Raw { bytes: bytes@ },
        }
    }
}

/// The views of an environment.
pub open spec fn env_view(env: Seq<RenderValue>) -> Seq<RenderValueV> {
    env.map_values(|v: RenderValue| v@)
}

/// Why a replay failed.
#[derive(Clone, Copy, Debug, PartialEq, Eq, Structural)]
pub enum RenderError {
    /// A content or attribute write failed.
    Formatting,
    /// A dynamic slot had no value left in the environment.
    MissingValue,
    /// A dynamic slot met a value of the wrong kind.
    WrongValue,
    /// Values were left over after the last call.
    ExtraValue,
    /// A dynamic attribute set cannot be replayed against the formatter.
    UnsupportedDynamicAttributes,
}

/// How many environment values one call consumes: one for each dynamic slot
/// whose value is not fixed by the template itself.
pub open spec fn call_uses(c: FmtCallV) -> nat {
    match c {
        FmtCallV::AttributeValueExpression { expr } => match expr {
            ExprV::Verbatim { src } => 1nat,
            _ => 0nat,
        },
        FmtCallV::DynamicContent { arg } => match arg {
            DynArgV::Expr { expr } => match expr {
                ExprV::Verbatim { src } => 1nat,
                _ => 0nat,
            },
            DynArgV::Block { block } => 1nat,
        },
        FmtCallV::Component { path, props } => 1nat,
        _ => 0nat,
    }
}

/// Whether the call can be replayed at all.
pub open spec fn call_renderable(c: FmtCallV) -> bool {
    !(c is DynamicAttributes)
}

/// Whether a value fits a call's dynamic slot.
pub open spec fn call_accepts(c: FmtCallV, v: RenderValueV) -> bool {
    match c {
        FmtCallV::AttributeValueExpression { expr } => v is AttrValue,
        FmtCallV::DynamicContent { arg } => v is Content || v is Raw,
        FmtCallV::Component { path, props } => v is Raw,
        _ => false,
    }
}

/// The exact bytes one call appends, given the value of its dynamic slot.
pub open spec fn call_bytes(c: FmtCallV, v: Option<RenderValueV>) -> Seq<u8> {
    match c {
        FmtCallV::Doctype { value } => bytes_doctype_start() + escaped_text(value) + bytes_gt(),
        FmtCallV::OpenTagStart { name } => bytes_lt() + name,
        FmtCallV::AttributeName { name } => bytes_space() + name,
        FmtCallV::AttributeValueConstant { value } => bytes_eq_quote() + escaped_attr(value)
            + bytes_quote(),
        FmtCallV::AttributeValueExpression { expr } => match expr {
            ExprV::StrLit { value } => bytes_eq_quote() + escaped_attr(value) + bytes_quote(),
            ExprV::BoolLit { value } => bytes_eq_quote() + bool_rep(value) + bytes_quote(),
            ExprV::Verbatim { src } => match v {
                Some(RenderValueV::AttrValue { text }) => bytes_eq_quote() + escaped_attr(
                    vstd::utf8::encode_utf8(text)) + bytes_quote(),
                _ => Seq::empty(),
            },
        },
        FmtCallV::OpenTagEnd => bytes_gt(),
        FmtCallV::SelfCloseTag => bytes_self_close(),
        FmtCallV::EndTag { name } => bytes_end_tag_start() + name + bytes_gt(),
        FmtCallV::Bytes { value } => value,
        FmtCallV::Comment { value } => bytes_comment_start() + escaped_text(value)
            + bytes_comment_end(),
        FmtCallV::DynamicAttributes { arg } => Seq::empty(),
        FmtCallV::DynamicContent { arg } => match arg {
            DynArgV::Expr { expr: ExprV::StrLit { value } } => escaped_text(value),
            DynArgV::Expr { expr: ExprV::BoolLit { value } } => bool_rep(value),
            _ => match v {
                Some(RenderValueV::Content { text }) => escaped_text(
                    vstd::utf8::encode_utf8(text)),
                Some(RenderValueV::Raw { bytes }) => bytes,
                _ => Seq::empty(),
            },
        },
        FmtCallV::Component { path, props } => match v {
            Some(RenderValueV::Raw { bytes }) => bytes,
            _ => Seq::empty(),
        },
    }
}

/// Whether an environment fits a call list: every dynamic slot meets a value
/// of the right kind, every call is replayable, and no value is left over.
pub open spec fn env_matches(calls: Seq<FmtCallV>, env: Seq<RenderValueV>) -> bool
    decreases calls,
{
    if calls.len() == 0 {
        env.len() == 0
    } else {
        let u = call_uses(calls[0]);
        &&& call_renderable(calls[0])
        &&& (u == 1 ==> env.len() >= 1 && call_accepts(calls[0], env[0]))
        &&& env_matches(calls.drop_first(), env.skip(u as int))
    }
}

/// The exact bytes a call list appends when its environment fits.
pub open spec fn render_bytes(calls: Seq<FmtCallV>, env: Seq<RenderValueV>) -> Seq<u8>
    decreases calls,
{
    if calls.len() == 0 {
        Seq::empty()
    } else {
        let u = call_uses(calls[0]);
        call_bytes(calls[0], if u == 1 && env.len() >= 1 {
            Some(env[0])
        } else {
            None
        }) + render_bytes(calls.drop_first(), env.skip(u as int))
    }
}

/// Replays emitted formatter calls in order, taking the value of each
/// dynamic slot from `env`, front to back.  Exactly when the environment
/// fits the calls, the replay succeeds and appends exactly the serialized
/// markup; otherwise an error names the first mismatch.
pub fn render(
    formatter: &mut HtmlFormatter,
    calls: &Vec<FmtCall>,
    env: &Vec<RenderValue>,
) -> (r: Result<(), RenderError>)
    ensures
        env_matches(calls_view(calls@), env_view(env@)) ==> r is Ok && final(formatter)@ == old(
            formatter,
        )@ + render_bytes(calls_view(calls@), env_view(env@)),
        !env_matches(calls_view(calls@), env_view(env@)) ==> r is Err,
{
    let ghost cv = calls_view(calls@);
    let ghost ev = env_view(env@);
    let ghost pre = old(formatter)@;
    let count = calls.len();
    let env_count = env.len();
    let mut idx: usize = 0;
    let mut cursor: usize = 0;
    proof {
        crate::emit::lemma_calls_view_index(calls@);
        assert(cv.skip(0) =~= cv);
        assert(ev.skip(0) =~= ev);
    }
    while idx < count
        invariant
            count == calls@.len(),
            env_count == env@.len(),
            cv == calls_view(calls@),
            ev == env_view(env@),
            cv.len() == count,
            forall|j: int| 0 <= j < count ==> cv[j] == crate::emit::call_view(calls@[j]),
            idx <= count,
            cursor <= env_count,
            env_matches(cv, ev) ==> env_matches(cv.skip(idx as int), ev.skip(cursor as int)),
            env_matches(cv.skip(idx as int), ev.skip(cursor as int)) ==> env_matches(cv, ev),
            env_matches(cv, ev) ==> formatter@ + render_bytes(cv.skip(idx as int),
                ev.skip(cursor as int)) == pre + render_bytes(cv, ev),
        decreases count - idx,
    {
        let ghost rest_calls = cv.skip(idx as int);
        let ghost rest_env = ev.skip(cursor as int);
        proof {
            assert(rest_calls[0] == cv[idx as int]);
            assert(rest_calls.drop_first() =~= cv.skip(idx + 1));
        }
        let call = &calls[idx];
        let ghost callv = cv[idx as int];
        let ghost uses = call_uses(callv);
        match call {
            FmtCall::Doctype { value } => {
                formatter.write_doctype(value.as_slice());
            },
            FmtCall::OpenTagStart { name } => {
                formatter.write_open_tag_start(name.as_slice());
            },
            FmtCall::AttributeName { name } => {
                formatter.write_attribute_name(name.as_slice());
            },
            FmtCall::AttributeValueConstant { value } => {
                let val = clone_bytes(value);
                let ghost valg = val;
                let ghost vg = val@;
                let ghost fpre = formatter@;
                let res = formatter.write_attribute_value(val);
                proof {
                    assert(res is Ok && formatter@ == fpre + bytes_eq_quote() + escaped_attr(vg)
                        + bytes_quote()) by {
                        let (mid, mid_any): (Seq<u8>, bool) = choose|mid: Seq<u8>, mid_any: bool|
                            {
                                &&& #[trigger] valg.av_ens(fpre, false, mid, mid_any, res)
                                &&& formatter@ == if (res is Ok && mid_any) {
                                    mid + bytes_quote()
                                } else {
                                    mid
                                }
                            };
                        assert(formatter@ =~= fpre + bytes_eq_quote() + escaped_attr(vg)
                            + bytes_quote());
                    }
                }
                if res.is_err() {
                    return Err(RenderError::Formatting);
                }
            },
            FmtCall::AttributeValueExpression { expr } => {
                match expr {
                    crate::node::Expr::StrLit { value } => {
                        let val = clone_bytes(value);
                        let ghost valg = val;
                        let ghost vg = val@;
                        let ghost fpre = formatter@;
                        let res = formatter.write_attribute_value(val);
                        proof {
                            assert(res is Ok && formatter@ == fpre + bytes_eq_quote()
                                + escaped_attr(vg) + bytes_quote()) by {
                                let (mid, mid_any): (Seq<u8>, bool) = choose|
                                    mid: Seq<u8>,
                                    mid_any: bool,
                                |
                                    {
                                        &&& #[trigger] valg.av_ens(fpre, false, mid, mid_any, res)
                                        &&& formatter@ == if (res is Ok && mid_any) {
                                            mid + bytes_quote()
                                        } else {
                                            mid
                                        }
                                    };
                                assert(formatter@ =~= fpre + bytes_eq_quote() + escaped_attr(vg)
                                    + bytes_quote());
                            }
                        }
                        if res.is_err() {
                            return Err(RenderError::Formatting);
                        }
                    },
                    crate::node::Expr::BoolLit { value } => {
                        let b = *value;
                        let ghost fpre = formatter@;
                        let res = formatter.write_attribute_value(b);
                        proof {
                            assert(res is Ok && formatter@ == fpre + bytes_eq_quote() + bool_rep(b)
                                + bytes_quote()) by {
                                let (mid, mid_any): (Seq<u8>, bool) = choose|
                                    mid: Seq<u8>,
                                    mid_any: bool,
                                |
                                    {
                                        &&& #[trigger] b.av_ens(fpre, false, mid, mid_any, res)
                                        &&& formatter@ == if (res is Ok && mid_any) {
                                            mid + bytes_quote()
                                        } else {
                                            mid
                                        }
                                    };
                                assert(formatter@ =~= fpre + bytes_eq_quote() + bool_rep(b)
                                    + bytes_quote());
                            }
                        }
                        if res.is_err() {
                            return Err(RenderError::Formatting);
                        }
                    },
                    crate::node::Expr::Verbatim { src } => {
                        if cursor >= env_count {
                            proof {
                                assert(!env_matches(rest_calls, rest_env));
                            }
                            return Err(RenderError::MissingValue);
                        }
                        let v = &env[cursor];
                        match v {
                            RenderValue::AttrValue { text } => {
                                let ghost tg = text@;
                                let s = text.as_str();
                                let ghost sg = s;
                                let ghost fpre = formatter@;
                                let res = formatter.write_attribute_value(s);
                                proof {
                                    assert(res is Ok && formatter@ == fpre + bytes_eq_quote()
                                        + escaped_attr(vstd::utf8::encode_utf8(tg))
                                        + bytes_quote()) by {
                                        let (mid, mid_any): (Seq<u8>, bool) = choose|
                                            mid: Seq<u8>,
                                            mid_any: bool,
                                        |
                                            {
                                                &&& #[trigger] sg.av_ens(fpre, false, mid, mid_any,
                                                    res)
                                                &&& formatter@ == if (res is Ok && mid_any) {
                                                    mid + bytes_quote()
                                                } else {
                                                    mid
                                                }
                                            };
                                        assert(formatter@ =~= fpre + bytes_eq_quote()
                                            + escaped_attr(vstd::utf8::encode_utf8(tg))
                                            + bytes_quote());
                                    }
                                }
                                if res.is_err() {
                                    return Err(RenderError::Formatting);
                                }
                                cursor = cursor + 1;
                            },
                            _ => {
                                proof {
                                    assert(!call_accepts(callv, ev[cursor as int]));
                                    assert(!env_matches(rest_calls, rest_env));
                                }
                                return Err(RenderError::WrongValue);
                            },
                        }
                    },
                }
            },
            FmtCall::OpenTagEnd => {
                formatter.write_open_tag_end();
            },
            FmtCall::SelfCloseTag => {
                formatter.write_self_close_tag();
            },
            FmtCall::EndTag { name } => {
                formatter.write_end_tag(name.as_slice());
            },
            FmtCall::Bytes { value } => {
                formatter.write_bytes(value.as_slice());
            },
            FmtCall::Comment { value } => {
                formatter.write_comment(value.as_slice());
            },
            FmtCall::DynamicAttributes { arg } => {
                proof {
                    assert(!env_matches(rest_calls, rest_env));
                }
                return Err(RenderError::UnsupportedDynamicAttributes);
            },
            FmtCall::DynamicContent { arg } => {
                let fixed: Option<&crate::node::Expr> = match arg {
                    crate::emit::DynArg::Expr { expr } => match expr {
                        crate::node::Expr::Verbatim { src } => None,
                        _ => Some(expr),
                    },
                    crate::emit::DynArg::Block { block } => None,
                };
                match fixed {
                    Some(crate::node::Expr::StrLit { value }) => {
                        formatter.write(value.as_slice());
                    },
                    Some(crate::node::Expr::BoolLit { value }) => {
                        let ghost fpre = formatter@;
                        let res = formatter.write_content(*value);
                        proof {
                            assert(res is Ok && formatter@ == fpre + bool_rep(*value));
                        }
                        if res.is_err() {
                            return Err(RenderError::Formatting);
                        }
                    },
                    _ => {
                        if cursor >= env_count {
                            proof {
                                assert(!env_matches(rest_calls, rest_env));
                            }
                            return Err(RenderError::MissingValue);
                        }
                        let v = &env[cursor];
                        match v {
                            RenderValue::Content { text } => {
                                let ghost tg = text@;
                                let ghost fpre = formatter@;
                                let res = formatter.write_content(text.as_str());
                                proof {
                                    assert(res is Ok && formatter@ == fpre + escaped_text(
                                        vstd::utf8::encode_utf8(tg)));
                                }
                                if res.is_err() {
                                    return Err(RenderError::Formatting);
                                }
                                cursor = cursor + 1;
                            },
                            RenderValue::Raw { bytes } => {
                                formatter.write_bytes(bytes.as_slice());
                                cursor = cursor + 1;
                            },
                            _ => {
                                proof {
                                    assert(!call_accepts(callv, ev[cursor as int]));
                                    assert(!env_matches(rest_calls, rest_env));
                                }
                                return Err(RenderError::WrongValue);
                            },
                        }
                    },
                }
            },
            FmtCall::Component { path, props } => {
                if cursor >= env_count {
                    proof {
                        assert(!env_matches(rest_calls, rest_env));
                    }
                    return Err(RenderError::MissingValue);
                }
                let v = &env[cursor];
                match v {
                    RenderValue::Raw { bytes } => {
                        formatter.write_bytes(bytes.as_slice());
                        cursor = cursor + 1;
                    },
                    _ => {
                        proof {
                            assert(!call_accepts(callv, ev[cursor as int]));
                            assert(!env_matches(rest_calls, rest_env));
                        }
                        return Err(RenderError::WrongValue);
                    },
                }
            },
        }
        proof {
            assert(rest_env.skip(uses as int) =~= ev.skip(cursor as int));
            assert(call_renderable(callv));
            assert(uses == 1 ==> rest_env.len() >= 1 && call_accepts(callv, rest_env[0]));
            assert(env_matches(cv.skip(idx + 1), ev.skip(cursor as int)) ==> env_matches(
                rest_calls, rest_env));
            if env_matches(cv, ev) {
                assert(formatter@ + render_bytes(cv.skip(idx + 1), ev.skip(cursor as int)) =~= pre
                    + render_bytes(cv, ev));
            }
        }
        idx = idx + 1;
    }
    if cursor < env_count {
        proof {
            assert(cv.skip(count as int).len() == 0);
            assert(ev.skip(cursor as int).len() > 0);
            assert(!env_matches(cv.skip(count as int), ev.skip(cursor as int)));
        }
        return Err(RenderError::ExtraValue);
    }
    proof {
        assert(cv.skip(count as int).len() == 0);
        assert(ev.skip(cursor as int).len() == 0);
        assert(env_matches(cv.skip(count as int), ev.skip(cursor as int)));
        assert(env_matches(cv, ev));
        assert(render_bytes(cv.skip(count as int), ev.skip(cursor as int)) =~= Seq::<u8>::empty());
        assert(final(formatter)@ =~= pre + render_bytes(cv, ev));
    }
    Ok(())
}

} // verus!
