use vstd::prelude::*;

use crate::buffer::bytes_mut_new;
use crate::escape::{escaped_attr, escaped_text};
use crate::fmt::{
    bytes_eq_quote, FmtError, HtmlAttributeFormatter, HtmlAttributeValue, HtmlContent,
    HtmlFormatter,
};

verus! {

/// What an attribute-value write through the attribute formatter appends:
/// the `="` marker unless a chunk was written before, then the payload.
pub open spec fn attr_chunk(pre_any: bool, payload: Seq<u8>) -> Seq<u8> {
    (if pre_any {
        Seq::<u8>::empty()
    } else {
        bytes_eq_quote()
    }) + payload
}

/// A value that exposes its contents as one borrowed byte slice.
pub trait ByteSource: Sized {
    /// The bytes the value stands for.
    spec fn byte_view(&self) -> Seq<u8>;

    fn byte_slice(&self) -> (s: &[u8])
        ensures
            s@ == self.byte_view(),
    ;
}

impl<'a> ByteSource for &'a str {
    open spec fn byte_view(&self) -> Seq<u8> {
        vstd::utf8::encode_utf8(self@)
    }

    fn byte_slice(&self) -> (s: &[u8]) {
        self.as_bytes()
    }
}

impl ByteSource for String {
    open spec fn byte_view(&self) -> Seq<u8> {
        vstd::utf8::encode_utf8(self@)
    }

    fn byte_slice(&self) -> (s: &[u8]) {
        self.as_str().as_bytes()
    }
}

impl ByteSource for Vec<u8> {
    open spec fn byte_view(&self) -> Seq<u8> {
        self@
    }

    fn byte_slice(&self) -> (s: &[u8]) {
        self.as_slice()
    }
}

impl<'a> ByteSource for &'a [u8] {
    open spec fn byte_view(&self) -> Seq<u8> {
        self@
    }

    fn byte_slice(&self) -> (s: &[u8]) {
        self
    }
}

impl ByteSource for bytes::Bytes {
    open spec fn byte_view(&self) -> Seq<u8> {
        crate::buffer::bytes_view(*self)
    }

    fn byte_slice(&self) -> (s: &[u8]) {
        crate::buffer::bytes_as_slice(self)
    }
}

/// Raw, pre-sanitized HTML content: embedded without any escaping.
pub struct RawText<V>(V);

impl<V> RawText<V> {
    /// The wrapped value.
    pub closed spec fn value(&self) -> &V {
        &self.0
    }

    /// Wraps raw HTML content that is embedded as it is.
    pub fn new(value: V) -> (r: Self)
        ensures
            *r.value() == value,
    {
        Self(value)
    }
}

impl<V: ByteSource> HtmlContent for RawText<V> {
    open spec fn fmt_req(self, pre: Seq<u8>) -> bool {
        true
    }

    open spec fn fmt_ens(self, pre: Seq<u8>, post: Seq<u8>, r: Result<(), FmtError>) -> bool {
        r is Ok && post == pre + self.value().byte_view()
    }

    fn fmt(self, formatter: &mut HtmlFormatter) -> (r: Result<(), FmtError>) {
        formatter.write_bytes(self.0.byte_slice());
        Ok(())
    }
}

impl<V: ByteSource> HtmlAttributeValue for RawText<V> {
    open spec fn av_req(self, pre: Seq<u8>, pre_any: bool) -> bool {
        true
    }

    open spec fn av_ens(self, pre: Seq<u8>, pre_any: bool, post: Seq<u8>, post_any: bool,
        r: Result<(), FmtError>) -> bool {
        r is Ok && post == pre + attr_chunk(pre_any, self.value().byte_view()) && post_any
    }

    fn fmt(self, formatter: &mut HtmlAttributeFormatter) -> (r: Result<(), FmtError>) {
        formatter.write_bytes(self.0.byte_slice());
        assert(final(formatter)@ =~= old(formatter)@
            + attr_chunk(old(formatter).spec_any_written(), self.value().byte_view()));
        Ok(())
    }
}

impl<'a> HtmlContent for &'a str {
    open spec fn fmt_req(self, pre: Seq<u8>) -> bool {
        true
    }

    open spec fn fmt_ens(self, pre: Seq<u8>, post: Seq<u8>, r: Result<(), FmtError>) -> bool {
        r is Ok && post == pre + escaped_text(vstd::utf8::encode_utf8(self@))
    }

    fn fmt(self, formatter: &mut HtmlFormatter) -> (r: Result<(), FmtError>) {
        formatter.write(self.as_bytes());
        Ok(())
    }
}

impl<'a> HtmlAttributeValue for &'a str {
    open spec fn av_req(self, pre: Seq<u8>, pre_any: bool) -> bool {
        true
    }

    open spec fn av_ens(self, pre: Seq<u8>, pre_any: bool, post: Seq<u8>, post_any: bool,
        r: Result<(), FmtError>) -> bool {
        r is Ok && post == pre + attr_chunk(pre_any, escaped_attr(vstd::utf8::encode_utf8(self@)))
            && post_any
    }

    fn fmt(self, formatter: &mut HtmlAttributeFormatter) -> (r: Result<(), FmtError>) {
        formatter.write(self.as_bytes());
        assert(final(formatter)@ =~= old(formatter)@
            + attr_chunk(old(formatter).spec_any_written(),
                escaped_attr(vstd::utf8::encode_utf8(self@))));
        Ok(())
    }
}

impl HtmlContent for String {
    open spec fn fmt_req(self, pre: Seq<u8>) -> bool {
        true
    }

    open spec fn fmt_ens(self, pre: Seq<u8>, post: Seq<u8>, r: Result<(), FmtError>) -> bool {
        r is Ok && post == pre + escaped_text(vstd::utf8::encode_utf8(self@))
    }

    fn fmt(self, formatter: &mut HtmlFormatter) -> (r: Result<(), FmtError>) {
        formatter.write(self.as_str().as_bytes());
        Ok(())
    }
}

impl HtmlAttributeValue for String {
    open spec fn av_req(self, pre: Seq<u8>, pre_any: bool) -> bool {
        true
    }

    open spec fn av_ens(self, pre: Seq<u8>, pre_any: bool, post: Seq<u8>, post_any: bool,
        r: Result<(), FmtError>) -> bool {
        r is Ok && post == pre + attr_chunk(pre_any, escaped_attr(vstd::utf8::encode_utf8(self@)))
            && post_any
    }

    fn fmt(self, formatter: &mut HtmlAttributeFormatter) -> (r: Result<(), FmtError>) {
        formatter.write(self.as_str().as_bytes());
        assert(final(formatter)@ =~= old(formatter)@
            + attr_chunk(old(formatter).spec_any_written(),
                escaped_attr(vstd::utf8::encode_utf8(self@))));
        Ok(())
    }
}

impl HtmlContent for Vec<u8> {
    open spec fn fmt_req(self, pre: Seq<u8>) -> bool {
        true
    }

    open spec fn fmt_ens(self, pre: Seq<u8>, post: Seq<u8>, r: Result<(), FmtError>) -> bool {
        r is Ok && post == pre + escaped_text(self@)
    }

    fn fmt(self, formatter: &mut HtmlFormatter) -> (r: Result<(), FmtError>) {
        formatter.write(self.as_slice());
        Ok(())
    }
}

impl HtmlAttributeValue for Vec<u8> {
    open spec fn av_req(self, pre: Seq<u8>, pre_any: bool) -> bool {
        true
    }

    open spec fn av_ens(self, pre: Seq<u8>, pre_any: bool, post: Seq<u8>, post_any: bool,
        r: Result<(), FmtError>) -> bool {
        r is Ok && post == pre + attr_chunk(pre_any, escaped_attr(self@)) && post_any
    }

    fn fmt(self, formatter: &mut HtmlAttributeFormatter) -> (r: Result<(), FmtError>) {
        let ghost pre = old(formatter)@;
        let ghost pre_any = old(formatter).spec_any_written();
        let ghost me = self@;
        formatter.write(self.as_slice());
        assert(final(formatter)@ =~= pre + attr_chunk(pre_any, escaped_attr(me)));
        Ok(())
    }
}

impl HtmlContent for bytes::Bytes {
    open spec fn fmt_req(self, pre: Seq<u8>) -> bool {
        true
    }

    open spec fn fmt_ens(self, pre: Seq<u8>, post: Seq<u8>, r: Result<(), FmtError>) -> bool {
        r is Ok && post == pre + escaped_text(crate::buffer::bytes_view(self))
    }

    fn fmt(self, formatter: &mut HtmlFormatter) -> (r: Result<(), FmtError>) {
        formatter.write(crate::buffer::bytes_as_slice(&self));
        Ok(())
    }
}

impl HtmlAttributeValue for bytes::Bytes {
    open spec fn av_req(self, pre: Seq<u8>, pre_any: bool) -> bool {
        true
    }

    open spec fn av_ens(self, pre: Seq<u8>, pre_any: bool, post: Seq<u8>, post_any: bool,
        r: Result<(), FmtError>) -> bool {
        r is Ok && post == pre + attr_chunk(pre_any, escaped_attr(crate::buffer::bytes_view(self)))
            && post_any
    }

    fn fmt(self, formatter: &mut HtmlAttributeFormatter) -> (r: Result<(), FmtError>) {
        let ghost pre = old(formatter)@;
        let ghost pre_any = old(formatter).spec_any_written();
        formatter.write(crate::buffer::bytes_as_slice(&self));
        assert(final(formatter)@ =~= pre
            + attr_chunk(pre_any, escaped_attr(crate::buffer::bytes_view(self))));
        Ok(())
    }
}

impl HtmlContent for () {
    open spec fn fmt_req(self, pre: Seq<u8>) -> bool {
        true
    }

    open spec fn fmt_ens(self, pre: Seq<u8>, post: Seq<u8>, r: Result<(), FmtError>) -> bool {
        r is Ok && post == pre
    }

    fn fmt(self, formatter: &mut HtmlFormatter) -> (r: Result<(), FmtError>) {
        Ok(())
    }
}

impl HtmlAttributeValue for () {
    open spec fn av_req(self, pre: Seq<u8>, pre_any: bool) -> bool {
        true
    }

    open spec fn av_ens(self, pre: Seq<u8>, pre_any: bool, post: Seq<u8>, post_any: bool,
        r: Result<(), FmtError>) -> bool {
        r is Ok && post == pre && post_any == pre_any
    }

    fn fmt(self, formatter: &mut HtmlAttributeFormatter) -> (r: Result<(), FmtError>) {
        Ok(())
    }
}

impl<T: HtmlContent> HtmlContent for Option<T> {
    open spec fn fmt_req(self, pre: Seq<u8>) -> bool {
        self matches Some(t) ==> t.fmt_req(pre)
    }

    open spec fn fmt_ens(self, pre: Seq<u8>, post: Seq<u8>, r: Result<(), FmtError>) -> bool {
        match self {
            None => r is Ok && post == pre,
            Some(t) => t.fmt_ens(pre, post, r),
        }
    }

    fn fmt(self, formatter: &mut HtmlFormatter) -> (r: Result<(), FmtError>) {
        match self {
            None => Ok(()),
            Some(template) => template.fmt(formatter),
        }
    }
}

impl<T: HtmlAttributeValue> HtmlAttributeValue for Option<T> {
    open spec fn av_req(self, pre: Seq<u8>, pre_any: bool) -> bool {
        self matches Some(t) ==> t.av_req(pre, pre_any)
    }

    open spec fn av_ens(self, pre: Seq<u8>, pre_any: bool, post: Seq<u8>, post_any: bool,
        r: Result<(), FmtError>) -> bool {
        match self {
            None => r is Ok && post == pre && post_any == pre_any,
            Some(t) => t.av_ens(pre, pre_any, post, post_any, r),
        }
    }

    fn fmt(self, formatter: &mut HtmlAttributeFormatter) -> (r: Result<(), FmtError>) {
        match self {
            None => Ok(()),
            Some(template) => template.fmt(formatter),
        }
    }
}

impl<F: Fn(HtmlFormatter) -> (HtmlFormatter, Result<(), FmtError>)> HtmlContent for F {
    /// The render closure must accept every formatter state.
    open spec fn fmt_req(self, pre: Seq<u8>) -> bool {
        forall|f: HtmlFormatter| #[trigger] call_requires(self, (f,))
    }

    /// One call of the closure takes the formatter from the old buffer to
    /// the new one and returns the result.
    open spec fn fmt_ens(self, pre: Seq<u8>, post: Seq<u8>, r: Result<(), FmtError>) -> bool {
        exists|f0: HtmlFormatter, f1: HtmlFormatter|
            {
                &&& f0@ == pre
                &&& f1@ == post
                &&& #[trigger] call_ensures(self, (f0,), (f1, r))
            }
    }

    fn fmt(self, formatter: &mut HtmlFormatter) -> (r: Result<(), FmtError>) {
        let mut cur = HtmlFormatter::new(bytes_mut_new());
        core::mem::swap(&mut cur, formatter);
        let ghost f0 = cur;
        let pair = (self)(cur);
        let mut f1 = pair.0;
        let ghost f1g = f1;
        core::mem::swap(formatter, &mut f1);
        proof {
            assert(pair == (f1g, pair.1));
            assert(f0@ == old(formatter)@ && f1g@ == final(formatter)@ && call_ensures(self, (f0,),
                (f1g, pair.1)));
        }
        pair.1
    }
}


} // verus!
