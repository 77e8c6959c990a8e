use vstd::prelude::*;

use crate::content::ByteSource;
use crate::fmt::{FmtError, HtmlContent, HtmlFormatter};

verus! {

/// The views of a list of strings.
pub open spec fn strings_view(v: Seq<String>) -> Seq<Seq<char>> {
    v.map_values(|s: String| s@)
}

/// The views of an optional list of strings.
pub open spec fn opt_strings_view(v: Option<Vec<String>>) -> Option<Seq<Seq<char>>> {
    match v {
        Some(list) => Some(strings_view(list@)),
        None => None,
    }
}

/// A sanitizer policy over the sanitizer library's fixed default: it may
/// replace the set of allowed elements and the set of attributes allowed on
/// every element; any other setting keeps its default.  The policy's
/// well-formedness excludes the combinations that the sanitizer documents as
/// contradictory and answers with a panic: allowing the elements whose whole
/// content the default strips (`script`, `style`), and allowing the `rel`
/// attribute everywhere while the default forces the links' `rel`.
pub struct SanitizeConfig {
    tags: Option<Vec<String>>,
    generic_attributes: Option<Vec<String>>,
}

/// Ghost mirror of [`SanitizeConfig`].
pub struct SanitizeConfigV {
    pub tags: Option<Seq<Seq<char>>>,
    pub generic_attributes: Option<Seq<Seq<char>>>,
}

impl View for SanitizeConfig {
    type V = SanitizeConfigV;

    closed spec fn view(&self) -> SanitizeConfigV {
        SanitizeConfigV {
            tags: opt_strings_view(self.tags),
            generic_attributes: opt_strings_view(self.generic_attributes),
        }
    }
}

impl SanitizeConfigV {
    /// Nothing replaced: the default policy throughout.
    pub open spec fn default_config() -> SanitizeConfigV {
        SanitizeConfigV { tags: None, generic_attributes: None }
    }

    /// The policy avoids the sanitizer's documented contradictory settings.
    pub open spec fn wf(self) -> bool {
        &&& (self.tags matches Some(tags) ==> !tags.contains("script"@) && !tags.contains(
            "style"@,
        ))
        &&& (self.generic_attributes matches Some(attrs) ==> !attrs.contains("rel"@))
    }
}

impl SanitizeConfig {
    /// The default policy, with nothing replaced.
    pub fn new() -> (r: Self)
        ensures
            r@ == SanitizeConfigV::default_config(),
    {
        Self { tags: None, generic_attributes: None }
    }

    /// Replaces the set of allowed elements.  The elements whose whole
    /// content the default policy strips, `script` and `style`, must stay
    /// disallowed.
    pub fn tags(self, tags: Vec<String>) -> (r: Self)
        requires
            !strings_view(tags@).contains("script"@),
            !strings_view(tags@).contains("style"@),
        ensures
            r@ == (SanitizeConfigV {
                tags: Some(strings_view(tags@)),
                ..self@
            }),
            self@.wf() ==> r@.wf(),
    {
        Self { tags: Some(tags), generic_attributes: self.generic_attributes }
    }

    /// Replaces the set of attributes allowed on every element.  The `rel`
    /// attribute must stay disallowed, since the default policy forces the
    /// links' `rel`.
    pub fn generic_attributes(self, attributes: Vec<String>) -> (r: Self)
        requires
            !strings_view(attributes@).contains("rel"@),
        ensures
            r@ == (SanitizeConfigV {
                generic_attributes: Some(strings_view(attributes@)),
                ..self@
            }),
            self@.wf() ==> r@.wf(),
    {
        Self { tags: self.tags, generic_attributes: Some(attributes) }
    }
}

/// What the sanitizer leaves of the given HTML bytes under the policy: a
/// function of the policy's sets and the input alone, since every other
/// setting is fixed and the sets only gate membership.
pub uninterp spec fn sanitized_by(
    tags: Option<Seq<Seq<char>>>,
    generic_attributes: Option<Seq<Seq<char>>>,
    input: Seq<u8>,
) -> Seq<u8>;

/// Relies on `ammonia::Builder::default`, `Builder::tags`,
/// `Builder::generic_attributes` and `Builder::clean_from_reader`: the two
/// branches only apply the policy's optional replacements to the default
/// configuration before the one cleaning call.  A well-formed policy passes
/// the sanitizer's configuration asserts, and reading from an in-memory
/// slice cannot fail, so cleaning returns; the result depends on the
/// policy's sets (used for membership alone) and the input.
#[verifier::external_body]
fn ammonia_clean(
    tags: &Option<Vec<String>>,
    generic_attributes: &Option<Vec<String>>,
    input: &[u8],
) -> (r: Result<Vec<u8>, FmtError>)
    requires
        (*tags) matches Some(list) ==> !strings_view(list@).contains("script"@)
            && !strings_view(list@).contains("style"@),
        (*generic_attributes) matches Some(list) ==> !strings_view(list@).contains("rel"@),
    ensures
        r is Ok,
        r matches Ok(v) ==> v@ == sanitized_by(opt_strings_view(*tags),
            opt_strings_view(*generic_attributes), input@),
{
    let mut builder = ammonia::Builder::default();
    if let Some(tags) = tags {
        builder.tags(tags.iter().map(|t| t.as_str()).collect());
    }
    if let Some(attributes) = generic_attributes {
        builder.generic_attributes(attributes.iter().map(|a| a.as_str()).collect());
    }
    builder.clean_from_reader(input).map(|doc| doc.to_string().into_bytes()).map_err(
        |_| FmtError::Error,
    )
}

/// Potentially unsafe HTML content, sanitized before rendering: the wrapped
/// value is cleaned under the default policy, or a custom one.
pub struct Sanitized<V> {
    value: V,
    sanitizer: SanitizeConfig,
}

impl<V> Sanitized<V> {
    /// The policy this instance cleans under.
    pub closed spec fn config(&self) -> SanitizeConfigV {
        self.sanitizer@
    }

    /// The wrapped value.
    pub closed spec fn value(&self) -> &V {
        &self.value
    }

    /// Wraps HTML content to be sanitized under the default policy.
    pub fn new(value: V) -> (r: Self)
        ensures
            *r.value() == value,
            r.config() == SanitizeConfigV::default_config(),
    {
        Self { value, sanitizer: SanitizeConfig::new() }
    }

    /// Wraps HTML content to be sanitized under the given policy.
    pub fn new_with_sanitizer(value: V, sanitizer: SanitizeConfig) -> (r: Self)
        ensures
            *r.value() == value,
            r.config() == sanitizer@,
    {
        Self { value, sanitizer }
    }

    /// Replaces the policy of this instance.
    pub fn with_sanitizer(self, sanitizer: SanitizeConfig) -> (r: Self)
        ensures
            *r.value() == *self.value(),
            r.config() == sanitizer@,
    {
        Self { value: self.value, sanitizer }
    }
}

impl<V: ByteSource> HtmlContent for Sanitized<V> {
    /// The policy must be well-formed; the constructors and policy setters
    /// keep it so.
    open spec fn fmt_req(self, pre: Seq<u8>) -> bool {
        self.config().wf()
    }

    /// The appended bytes are exactly what the sanitizer leaves of the
    /// wrapped bytes under the instance's policy; a well-formed policy
    /// cleans without failing.
    open spec fn fmt_ens(self, pre: Seq<u8>, post: Seq<u8>, r: Result<(), FmtError>) -> bool {
        r is Ok && post == pre + sanitized_by(self.config().tags,
            self.config().generic_attributes, self.value().byte_view())
    }

    fn fmt(self, formatter: &mut HtmlFormatter) -> (r: Result<(), FmtError>) {
        let ghost me = self;
        let Sanitized { value, sanitizer } = self;
        let cleaned = ammonia_clean(&sanitizer.tags, &sanitizer.generic_attributes,
            value.byte_slice());
        match cleaned {
            Ok(bytes) => {
                formatter.write_bytes(bytes.as_slice());
                Ok(())
            },
            Err(e) => Err(e),
        }
    }
}

} // verus!
