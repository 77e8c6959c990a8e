use vstd::prelude::*;

use crate::buffer::{bytes_mut_extend, bytes_mut_new, bytes_mut_reserve_checked, bytes_mut_view, bytes_view};
use crate::escape::{escaped_attr, escaped_text};

verus! {

/// The single run-time formatting failure: a write into the buffer could not
/// be completed.  It aborts the remainder of one formatting pass.
#[derive(Clone, Copy, Debug, PartialEq, Eq, Structural)]
pub enum FmtError {
    Error,
}

/// `"<!DOCTYPE "` as bytes.
pub open spec fn bytes_doctype_start() -> Seq<u8> {
    seq![60u8, 33u8, 68u8, 79u8, 67u8, 84u8, 89u8, 80u8, 69u8, 32u8]
}

/// `"<"` as bytes.
pub open spec fn bytes_lt() -> Seq<u8> {
    seq![60u8]
}

/// `">"` as bytes.
pub open spec fn bytes_gt() -> Seq<u8> {
    seq![62u8]
}

/// `" "` as bytes.
pub open spec fn bytes_space() -> Seq<u8> {
    seq![32u8]
}

/// `"</"` as bytes.
pub open spec fn bytes_end_tag_start() -> Seq<u8> {
    seq![60u8, 47u8]
}

/// `" />"` as bytes.
pub open spec fn bytes_self_close() -> Seq<u8> {
    seq![32u8, 47u8, 62u8]
}

/// `"<!--"` as bytes.
pub open spec fn bytes_comment_start() -> Seq<u8> {
    seq![60u8, 33u8, 45u8, 45u8]
}

/// `"-->"` as bytes.
pub open spec fn bytes_comment_end() -> Seq<u8> {
    seq![45u8, 45u8, 62u8]
}

/// `"=\""` as bytes: what precedes the first chunk of an attribute value.
pub open spec fn bytes_eq_quote() -> Seq<u8> {
    seq![61u8, 34u8]
}

/// `"\""` as bytes: what closes a written attribute value.
pub open spec fn bytes_quote() -> Seq<u8> {
    seq![34u8]
}

/// Relies on `String::from_utf8`: returns the string holding exactly the
/// given bytes when they are valid UTF-8, and an error otherwise.
#[verifier::external_body]
fn string_from_utf8(v: Vec<u8>) -> (r: Result<String, FmtError>)
    ensures
        r is Ok <==> vstd::utf8::valid_utf8(v@),
        r matches Ok(s) ==> s@ == vstd::utf8::decode_utf8(v@),
{
    String::from_utf8(v).map_err(|_| FmtError::Error)
}

/// A formatter for serializing HTML attribute values.  The view `self@` is
/// the whole underlying buffer; the first chunk written through it is
/// preceded by `="` and the caller closes the quote afterwards.
pub struct HtmlAttributeFormatter {
    any_written: bool,
    buffer: bytes::BytesMut,
}

impl View for HtmlAttributeFormatter {
    type V = Seq<u8>;

    closed spec fn view(&self) -> Seq<u8> {
        bytes_mut_view(self.buffer)
    }
}

impl HtmlAttributeFormatter {
    /// Whether any chunk of the attribute value has been written yet.
    pub closed spec fn spec_any_written(&self) -> bool {
        self.any_written
    }

    fn new(buffer: bytes::BytesMut) -> (r: Self)
        ensures
            r@ == bytes_mut_view(buffer),
            !r.spec_any_written(),
    {
        Self { any_written: false, buffer }
    }

    fn into_buffer(self) -> (b: bytes::BytesMut)
        ensures
            bytes_mut_view(b) == self@,
    {
        self.buffer
    }

    /// Writes raw bytes of the attribute value without escaping; the very
    /// first write is preceded by `="`.
    pub fn write_bytes(&mut self, raw: &[u8])
        ensures
            final(self)@ == old(self)@
                + (if old(self).spec_any_written() { Seq::<u8>::empty() } else { bytes_eq_quote() })
                + raw@,
            final(self).spec_any_written(),
    {
        if raw.len() <= usize::MAX - 3 {
            bytes_mut_reserve_checked(&mut self.buffer, raw.len() + 3);
        }
        if !self.any_written {
            self.any_written = true;
            let marker = [61u8, 34u8];
            crate::buffer::bytes_mut_put_slice(&mut self.buffer, marker.as_slice());
        }
        crate::buffer::bytes_mut_put_slice(&mut self.buffer, raw);
        assert(final(self)@ =~= old(self)@
            + (if old(self).spec_any_written() { Seq::<u8>::empty() } else { bytes_eq_quote() })
            + raw@);
    }

    /// Writes bytes escaped for attribute-value context.
    pub fn write(&mut self, value: &[u8])
        ensures
            final(self)@ == old(self)@
                + (if old(self).spec_any_written() { Seq::<u8>::empty() } else { bytes_eq_quote() })
                + escaped_attr(value@),
            final(self).spec_any_written(),
    {
        let escaped = crate::escape::attribute(value);
        self.write_bytes(escaped.as_slice());
    }

    /// Reserves buffer capacity; the contents stay as they are.  A request
    /// past the machine's address range is ignored rather than overflowing
    /// the capacity.
    pub fn reserve(&mut self, additional: usize)
        ensures
            final(self)@ == old(self)@,
            final(self).spec_any_written() == old(self).spec_any_written(),
    {
        if additional <= usize::MAX - 3 {
            bytes_mut_reserve_checked(&mut self.buffer, additional + 3);
        } else {
            bytes_mut_reserve_checked(&mut self.buffer, additional);
        }
    }

    /// Closes the value: a final `"` if any chunk was written, else nothing.
    fn finish(&mut self)
        ensures
            final(self)@ == old(self)@
                + (if old(self).spec_any_written() { bytes_quote() } else { Seq::<u8>::empty() }),
            final(self).spec_any_written() == old(self).spec_any_written(),
    {
        if self.any_written {
            let quote = [34u8];
            crate::buffer::bytes_mut_put_slice(&mut self.buffer, quote.as_slice());
        }
        assert(final(self)@ =~= old(self)@
            + (if old(self).spec_any_written() { bytes_quote() } else { Seq::<u8>::empty() }));
    }
}

/// A value usable in attribute-value position.  Each implementation states in
/// `av_ens` what its `fmt` appends to the buffer, over the buffer bytes and
/// the written-yet flag of the attribute formatter.
pub trait HtmlAttributeValue: Sized {
    /// What the value's `fmt` needs of the formatter state.
    spec fn av_req(self, pre: Seq<u8>, pre_any: bool) -> bool;

    /// What the value's `fmt` did: relates the buffer and flag before and
    /// after to the returned result.
    spec fn av_ens(self, pre: Seq<u8>, pre_any: bool, post: Seq<u8>, post_any: bool,
        r: Result<(), FmtError>) -> bool;

    fn fmt(self, formatter: &mut HtmlAttributeFormatter) -> (r: Result<(), FmtError>)
        requires
            self.av_req(old(formatter)@, old(formatter).spec_any_written()),
        ensures
            self.av_ens(old(formatter)@, old(formatter).spec_any_written(), final(formatter)@,
                final(formatter).spec_any_written(), r),
    ;
}

/// A value formattable as HTML content.  Each implementation states in
/// `fmt_ens` what its `fmt` appends to the buffer.
pub trait HtmlContent: Sized {
    /// What the content's `fmt` needs of the bytes written so far.
    spec fn fmt_req(self, pre: Seq<u8>) -> bool;

    /// What the content's `fmt` did: relates the buffer bytes before and
    /// after to the returned result.
    spec fn fmt_ens(self, pre: Seq<u8>, post: Seq<u8>, r: Result<(), FmtError>) -> bool;

    fn fmt(self, formatter: &mut HtmlFormatter) -> (r: Result<(), FmtError>)
        requires
            self.fmt_req(old(formatter)@),
        ensures
            self.fmt_ens(old(formatter)@, final(formatter)@, r),
    ;

    /// Formats the content into the given buffer.
    fn write_to(self, buffer: bytes::BytesMut) -> (res: (bytes::BytesMut, Result<(), FmtError>))
        requires
            self.fmt_req(bytes_mut_view(buffer)),
        ensures
            self.fmt_ens(bytes_mut_view(buffer), bytes_mut_view(res.0), res.1),
    {
        let mut formatter = HtmlFormatter::new(buffer);
        let r = self.fmt(&mut formatter);
        (formatter.into_inner(), r)
    }

    /// Formats the content into a fresh frozen byte buffer.
    fn into_bytes(self) -> (r: Result<bytes::Bytes, FmtError>)
        requires
            self.fmt_req(Seq::<u8>::empty()),
        ensures
            r matches Ok(b) ==> self.fmt_ens(Seq::<u8>::empty(), bytes_view(b), Ok(())),
            r matches Err(e) ==> exists|post: Seq<u8>|
                self.fmt_ens(Seq::<u8>::empty(), post, Err(e)),
    {
        let buffer = bytes_mut_new();
        let (buffer, r) = self.write_to(buffer);
        match r {
            Ok(u) => {
                proof {
                    assert(r == Ok::<(), FmtError>(u));
                }
                Ok(crate::buffer::bytes_mut_freeze(buffer))
            },
            Err(e) => Err(e),
        }
    }

    /// Formats the content and converts the bytes to a UTF-8 string; the
    /// uniform error comes exactly when formatting failed or the formatted
    /// bytes were not valid UTF-8.
    fn into_string(self) -> (r: Result<String, FmtError>)
        requires
            self.fmt_req(Seq::<u8>::empty()),
        ensures
            r matches Ok(s) ==> exists|post: Seq<u8>|
                {
                    &&& #[trigger] self.fmt_ens(Seq::<u8>::empty(), post, Ok(()))
                    &&& vstd::utf8::valid_utf8(post)
                    &&& s@ == vstd::utf8::decode_utf8(post)
                },
            r matches Err(e) ==> (exists|post: Seq<u8>|
                #[trigger] self.fmt_ens(Seq::<u8>::empty(), post, Err(e))) || (exists|post: Seq<u8>|
                #[trigger] self.fmt_ens(Seq::<u8>::empty(), post, Ok(()))
                && !vstd::utf8::valid_utf8(post)),
    {
        let bytes = match self.into_bytes() {
            Ok(bytes) => bytes,
            Err(e) => {
                return Err(e);
            },
        };
        let v = crate::buffer::bytes_to_vec(&bytes);
        let ghost post = bytes_view(bytes);
        match string_from_utf8(v) {
            Ok(s) => Ok(s),
            Err(e) => {
                proof {
                    assert(self.fmt_ens(Seq::<u8>::empty(), post, Ok(()))
                        && !vstd::utf8::valid_utf8(post));
                }
                Err(e)
            },
        }
    }
}

/// A formatter for serializing HTML nodes and content.  It owns the byte
/// buffer for the duration of one formatting pass; the view `self@` is the
/// sequence of bytes written so far.
pub struct HtmlFormatter {
    buffer: bytes::BytesMut,
}

impl View for HtmlFormatter {
    type V = Seq<u8>;

    closed spec fn view(&self) -> Seq<u8> {
        bytes_mut_view(self.buffer)
    }
}

impl HtmlFormatter {
    /// Creates a formatter that appends to the provided buffer.
    pub fn new(buffer: bytes::BytesMut) -> (r: Self)
        ensures
            r@ == bytes_mut_view(buffer),
    {
        Self { buffer }
    }

    /// Hands the buffer back at the end of a formatting pass.
    pub fn into_inner(self) -> (b: bytes::BytesMut)
        ensures
            bytes_mut_view(b) == self@,
    {
        self.buffer
    }

    /// Writes raw bytes without escaping.
    pub fn write_bytes(&mut self, raw: &[u8])
        ensures
            final(self)@ == old(self)@ + raw@,
    {
        bytes_mut_extend(&mut self.buffer, raw);
    }

    /// Writes bytes escaped for text context.
    pub fn write(&mut self, value: &[u8])
        ensures
            final(self)@ == old(self)@ + escaped_text(value@),
    {
        let escaped = crate::escape::text(value);
        self.write_bytes(escaped.as_slice());
    }

    /// Writes a `<!DOCTYPE ...>` declaration; the value is text-escaped.
    pub fn write_doctype(&mut self, value: &[u8])
        ensures
            final(self)@ == old(self)@ + bytes_doctype_start() + escaped_text(value@)
                + bytes_gt(),
    {
        let escaped = crate::escape::text(value);
        bytes_mut_reserve_checked(&mut self.buffer, escaped.len());
        let prefix = [60u8, 33u8, 68u8, 79u8, 67u8, 84u8, 89u8, 80u8, 69u8, 32u8];
        self.write_bytes(prefix.as_slice());
        self.write_bytes(escaped.as_slice());
        let suffix = [62u8];
        self.write_bytes(suffix.as_slice());
        assert(final(self)@ =~= old(self)@ + bytes_doctype_start() + escaped_text(value@)
            + bytes_gt());
    }

    /// Writes `<` and the tag name, leaving the tag open.
    pub fn write_open_tag_start(&mut self, tag: &[u8])
        ensures
            final(self)@ == old(self)@ + bytes_lt() + tag@,
    {
        let open = [60u8];
        self.write_bytes(open.as_slice());
        self.write_bytes(tag);
        assert(final(self)@ =~= old(self)@ + bytes_lt() + tag@);
    }

    /// Writes a space and the attribute name.
    pub fn write_attribute_name(&mut self, name: &[u8])
        ensures
            final(self)@ == old(self)@ + bytes_space() + name@,
    {
        let space = [32u8];
        self.write_bytes(space.as_slice());
        self.write_bytes(name);
        assert(final(self)@ =~= old(self)@ + bytes_space() + name@);
    }

    /// Writes the self-closing indicator `" />"`.
    pub fn write_self_close_tag(&mut self)
        ensures
            final(self)@ == old(self)@ + bytes_self_close(),
    {
        let close = [32u8, 47u8, 62u8];
        self.write_bytes(close.as_slice());
        assert(final(self)@ =~= old(self)@ + bytes_self_close());
    }

    /// Writes the end `">"` of an opening tag.
    pub fn write_open_tag_end(&mut self)
        ensures
            final(self)@ == old(self)@ + bytes_gt(),
    {
        let end = [62u8];
        self.write_bytes(end.as_slice());
        assert(final(self)@ =~= old(self)@ + bytes_gt());
    }

    /// Writes an end tag `</tag>`.
    pub fn write_end_tag(&mut self, tag: &[u8])
        ensures
            final(self)@ == old(self)@ + bytes_end_tag_start() + tag@ + bytes_gt(),
    {
        let start = [60u8, 47u8];
        self.write_bytes(start.as_slice());
        self.write_bytes(tag);
        let end = [62u8];
        self.write_bytes(end.as_slice());
        assert(final(self)@ =~= old(self)@ + bytes_end_tag_start() + tag@ + bytes_gt());
    }

    /// Writes an HTML comment `<!--...-->`; the contents are text-escaped.
    pub fn write_comment(&mut self, comment: &[u8])
        ensures
            final(self)@ == old(self)@ + bytes_comment_start() + escaped_text(comment@)
                + bytes_comment_end(),
    {
        let escaped = crate::escape::text(comment);
        bytes_mut_reserve_checked(&mut self.buffer, escaped.len());
        let prefix = [60u8, 33u8, 45u8, 45u8];
        self.write_bytes(prefix.as_slice());
        self.write_bytes(escaped.as_slice());
        let suffix = [45u8, 45u8, 62u8];
        self.write_bytes(suffix.as_slice());
        assert(final(self)@ =~= old(self)@ + bytes_comment_start() + escaped_text(comment@)
            + bytes_comment_end());
    }

    /// Reserves buffer capacity; the contents stay as they are.  A request
    /// past the machine's address range is ignored rather than overflowing
    /// the capacity.
    pub fn reserve(&mut self, additional: usize)
        ensures
            final(self)@ == old(self)@,
    {
        bytes_mut_reserve_checked(&mut self.buffer, additional);
    }

    /// Writes HTML content by delegating to its `fmt` implementation.
    pub fn write_content<C: HtmlContent>(&mut self, content: C) -> (r: Result<(), FmtError>)
        requires
            content.fmt_req(old(self)@),
        ensures
            content.fmt_ens(old(self)@, final(self)@, r),
    {
        content.fmt(self)
    }

    /// Writes an attribute value: `="` before its first chunk, a closing `"`
    /// after a successfully written non-empty value, nothing at all for a
    /// value that wrote no chunk.
    pub fn write_attribute_value<V: HtmlAttributeValue>(&mut self, value: V) -> (r: Result<
        (),
        FmtError,
    >)
        requires
            value.av_req(old(self)@, false),
        ensures
            exists|mid: Seq<u8>, mid_any: bool|
                {
                    &&& #[trigger] value.av_ens(old(self)@, false, mid, mid_any, r)
                    &&& final(self)@ == if (r is Ok && mid_any) {
                        mid + bytes_quote()
                    } else {
                        mid
                    }
                },
    {
        let mut tmp = bytes_mut_new();
        core::mem::swap(&mut tmp, &mut self.buffer);
        let mut af = HtmlAttributeFormatter::new(tmp);
        let r = value.fmt(&mut af);
        let ghost mid = af@;
        let ghost mid_any = af.spec_any_written();
        if r.is_ok() {
            af.finish();
        }
        let mut buf = af.into_buffer();
        core::mem::swap(&mut self.buffer, &mut buf);
        proof {
            assert(value.av_ens(old(self)@, false, mid, mid_any, r));
        }
        r
    }
}

} // verus!
