use vstd::prelude::*;

use crate::fmt::{FmtError, HtmlContent, HtmlFormatter};

verus! {

/// A response wrapper that marks content as HTML.  A serving layer turns a
/// formatted `Html` value into an HTML-typed response at its edge.
pub struct Html<C>(pub C);

impl<C> Html<C> {
    /// Wraps a content value as an HTML response body.
    pub fn from_fn(f: C) -> (r: Self)
        ensures
            r.0 == f,
    {
        Html(f)
    }
}

impl<C: HtmlContent> From<C> for Html<C> {
    fn from(value: C) -> (r: Self) {
        Html(value)
    }
}

impl<C: HtmlContent> vstd::std_specs::convert::FromSpecImpl<C> for Html<C> {
    open spec fn obeys_from_spec() -> bool {
        true
    }

    open spec fn from_spec(value: C) -> Self {
        Html(value)
    }
}

impl<C: HtmlContent> HtmlContent for Html<C> {
    open spec fn fmt_req(self, pre: Seq<u8>) -> bool {
        self.0.fmt_req(pre)
    }

    open spec fn fmt_ens(self, pre: Seq<u8>, post: Seq<u8>, r: Result<(), FmtError>) -> bool {
        self.0.fmt_ens(pre, post, r)
    }

    fn fmt(self, formatter: &mut HtmlFormatter) -> (r: Result<(), FmtError>) {
        self.0.fmt(formatter)
    }
}

} // verus!
