use vstd::prelude::*;

verus! {

// ---------------------------------------------------------------------------
// Ghost mirrors: the mathematical form of the markup-node vocabulary.  Exec
// values map onto these through their views, and the lowering pass is
// specified entirely over them.
// ---------------------------------------------------------------------------

/// The name of a tag or attribute, as the tokenizer hands it over.
pub enum TagNameV {
    /// A path-shaped name such as `div`, `Comp` or `foo::Bar`; `qualified`
    /// marks a leading `::` or an explicitly qualified form.
    Path { qualified: bool, segments: Seq<Seq<u8>> },
    /// A punctuated name such as `data-value`, kept as its source text.
    Punctuated { text: Seq<u8> },
    /// A name computed by a block expression.
    Block,
}

/// An expression, as far as the lowering pass reads it: string and boolean
/// literals are distinguished, everything else is carried as source text.
pub enum ExprV {
    StrLit { value: Seq<u8> },
    BoolLit { value: bool },
    Verbatim { src: Seq<u8> },
}

/// One statement of a dynamic block.
pub enum StmtV {
    /// An expression statement; `semi` marks a trailing semicolon.
    Expr { expr: ExprV, semi: bool },
    /// Any other statement, kept as source text.
    Other { src: Seq<u8> },
}

/// A brace-delimited dynamic block.
pub enum DynBlockV {
    Valid { stmts: Seq<StmtV> },
    Invalid { src: Seq<u8> },
}

/// The value position of a keyed attribute.
pub enum AttrValueV {
    /// No value: a presence attribute.
    Missing,
    /// A function-call-shaped binding (always rejected by the lowering).
    Binding,
    /// `= expr`.
    Value { value: ExprV },
}

/// A keyed attribute: `name` or `name=value`.
pub struct KeyedAttributeV {
    pub key: TagNameV,
    pub value: AttrValueV,
}

/// An attribute position: keyed, or a whole dynamic attribute block.
pub enum NodeAttributeV {
    Block { block: DynBlockV },
    Attribute { attribute: KeyedAttributeV },
}

/// The open tag of an element: its name and ordered attributes.
pub struct OpenTagV {
    pub name: TagNameV,
    pub attributes: Seq<NodeAttributeV>,
}

/// One markup node.
pub enum NodeV {
    Doctype { value: Seq<u8> },
    Element { open_tag: OpenTagV, close_tag: Option<TagNameV>, children: Seq<NodeV> },
    Text { value: Seq<u8> },
    RawText { value: Seq<u8> },
    Fragment { children: Seq<NodeV> },
    Comment { value: Seq<u8> },
    Block { block: DynBlockV },
}

/// One accumulated compile-time diagnostic.
pub enum DiagnosticV {
    /// Reported by the outside tokenizer and passed through.
    Parse { message: Seq<u8> },
    /// A non-keyed attribute on a component tag.
    NonKeyedComponentAttribute,
    /// A component prop name that is not a single simple identifier.
    ComplexPropName,
    /// A normalized punctuated prop name that is no legal identifier.
    InvalidPropName { name: Seq<u8> },
    /// A dynamic (block) name in component prop position.
    DynamicPropName,
    /// A function-call-shaped binding on a component prop.
    PropFunction,
    /// An explicit prop with the reserved name `children`.
    ReservedChildrenProp,
    /// A dynamic (block) element name.
    DynamicElement,
    /// A function-call-shaped binding on an element attribute.
    AttributeBinding,
    /// Children supplied to a self-closing (void) element.
    EmptyElementWithChildren,
}

// ---------------------------------------------------------------------------
// Exec types
// ---------------------------------------------------------------------------

/// The name of a tag or attribute.
#[derive(Clone, PartialEq, Debug)]
pub enum TagName {
    Path { qualified: bool, segments: Vec<Vec<u8>> },
    Punctuated { text: Vec<u8> },
    Block,
}

/// An expression, as far as the lowering pass reads it.
#[derive(Clone, PartialEq, Debug)]
pub enum Expr {
    StrLit { value: Vec<u8> },
    BoolLit { value: bool },
    Verbatim { src: Vec<u8> },
}

/// One statement of a dynamic block.
#[derive(Clone, PartialEq, Debug)]
pub enum Stmt {
    Expr { expr: Expr, semi: bool },
    Other { src: Vec<u8> },
}

/// A brace-delimited dynamic block.
#[derive(Clone, PartialEq, Debug)]
pub enum DynBlock {
    Valid { stmts: Vec<Stmt> },
    Invalid { src: Vec<u8> },
}

/// The value position of a keyed attribute.
#[derive(Clone, PartialEq, Debug)]
pub enum AttrValue {
    Missing,
    Binding,
    Value { value: Expr },
}

/// A keyed attribute: `name` or `name=value`.
#[derive(Clone, PartialEq, Debug)]
pub struct KeyedAttribute {
    pub key: TagName,
    pub value: AttrValue,
}

/// An attribute position: keyed, or a whole dynamic attribute block.
#[derive(Clone, PartialEq, Debug)]
pub enum NodeAttribute {
    Block { block: DynBlock },
    Attribute { attribute: KeyedAttribute },
}

/// The open tag of an element.
#[derive(Clone, PartialEq, Debug)]
pub struct OpenTag {
    pub name: TagName,
    pub attributes: Vec<NodeAttribute>,
}

/// One markup node.
#[derive(Debug)]
pub enum Node {
    Doctype { value: Vec<u8> },
    Element { open_tag: OpenTag, close_tag: Option<TagName>, children: Vec<Node> },
    Text { value: Vec<u8> },
    RawText { value: Vec<u8> },
    Fragment { children: Vec<Node> },
    Comment { value: Vec<u8> },
    Block { block: DynBlock },
}

/// One accumulated compile-time diagnostic.
#[derive(Clone, PartialEq, Debug)]
pub enum Diagnostic {
    Parse { message: Vec<u8> },
    NonKeyedComponentAttribute,
    ComplexPropName,
    InvalidPropName { name: Vec<u8> },
    DynamicPropName,
    PropFunction,
    ReservedChildrenProp,
    DynamicElement,
    AttributeBinding,
    EmptyElementWithChildren,
}

// ---------------------------------------------------------------------------
// Views
// ---------------------------------------------------------------------------

/// The views of a list of byte vectors.
pub open spec fn bytes_list_view(v: Seq<Vec<u8>>) -> Seq<Seq<u8>> {
    v.map_values(|b: Vec<u8>| b@)
}

impl View for TagName {
    type V = TagNameV;

    open spec fn view(&self) -> TagNameV {
        match self {
            TagName::Path { qualified, segments } => TagNameV::Path {
                qualified: *qualified,
                segments: bytes_list_view(segments@),
            },
            TagName::Punctuated { text } => TagNameV::Punctuated { text: text@ },
            TagName::Block => TagNameV::Block,
        }
    }
}

impl View for Expr {
    type V = ExprV;

    open spec fn view(&self) -> ExprV {
        match self {
            Expr::StrLit { value } => ExprV::StrLit { value: value@ },
            Expr::BoolLit { value } => ExprV::BoolLit { value: *value },
            Expr::Verbatim { src } => ExprV::Verbatim { src: src@ },
        }
    }
}

impl View for Stmt {
    type V = StmtV;

    open spec fn view(&self) -> StmtV {
        match self {
            Stmt::Expr { expr, semi } => StmtV::Expr { expr: expr@, semi: *semi },
            Stmt::Other { src } => StmtV::Other { src: src@ },
        }
    }
}

impl View for DynBlock {
    type V = DynBlockV;

    open spec fn view(&self) -> DynBlockV {
        match self {
            DynBlock::Valid { stmts } => DynBlockV::Valid {
                stmts: stmts@.map_values(|s: Stmt| s@),
            },
            DynBlock::Invalid { src } => DynBlockV::Invalid { src: src@ },
        }
    }
}

impl View for AttrValue {
    type V = AttrValueV;

    open spec fn view(&self) -> AttrValueV {
        match self {
            AttrValue::Missing => AttrValueV::Missing,
            AttrValue::Binding => AttrValueV::Binding,
            AttrValue::Value { value } => AttrValueV::Value { value: value@ },
        }
    }
}

impl View for KeyedAttribute {
    type V = KeyedAttributeV;

    open spec fn view(&self) -> KeyedAttributeV {
        KeyedAttributeV { key: self.key@, value: self.value@ }
    }
}

impl View for NodeAttribute {
    type V = NodeAttributeV;

    open spec fn view(&self) -> NodeAttributeV {
        match self {
            NodeAttribute::Block { block } => NodeAttributeV::Block { block: block@ },
            NodeAttribute::Attribute { attribute } => NodeAttributeV::Attribute {
                attribute: attribute@,
            },
        }
    }
}

impl View for OpenTag {
    type V = OpenTagV;

    open spec fn view(&self) -> OpenTagV {
        OpenTagV {
            name: self.name@,
            attributes: self.attributes@.map_values(|a: NodeAttribute| a@),
        }
    }
}

impl View for Diagnostic {
    type V = DiagnosticV;

    open spec fn view(&self) -> DiagnosticV {
        match self {
            Diagnostic::Parse { message } => DiagnosticV::Parse { message: message@ },
            Diagnostic::NonKeyedComponentAttribute => DiagnosticV::NonKeyedComponentAttribute,
            Diagnostic::ComplexPropName => DiagnosticV::ComplexPropName,
            Diagnostic::InvalidPropName { name } => DiagnosticV::InvalidPropName { name: name@ },
            Diagnostic::DynamicPropName => DiagnosticV::DynamicPropName,
            Diagnostic::PropFunction => DiagnosticV::PropFunction,
            Diagnostic::ReservedChildrenProp => DiagnosticV::ReservedChildrenProp,
            Diagnostic::DynamicElement => DiagnosticV::DynamicElement,
            Diagnostic::AttributeBinding => DiagnosticV::AttributeBinding,
            Diagnostic::EmptyElementWithChildren => DiagnosticV::EmptyElementWithChildren,
        }
    }
}

/// The view of one node.
pub open spec fn node_view(n: Node) -> NodeV
    decreases n,
{
    match n {
        Node::Doctype { value } => NodeV::Doctype { value: value@ },
        Node::Element { open_tag, close_tag, children } => NodeV::Element {
            open_tag: open_tag@,
            close_tag: match close_tag {
                Some(t) => Some(t@),
                None => None,
            },
            children: nodes_view(children@),
        },
        Node::Text { value } => NodeV::Text { value: value@ },
        Node::RawText { value } => NodeV::RawText { value: value@ },
        Node::Fragment { children } => NodeV::Fragment { children: nodes_view(children@) },
        Node::Comment { value } => NodeV::Comment { value: value@ },
        Node::Block { block } => NodeV::Block { block: block@ },
    }
}

/// The views of a list of nodes.
pub open spec fn nodes_view(ns: Seq<Node>) -> Seq<NodeV>
    decreases ns,
{
    if ns.len() == 0 {
        Seq::empty()
    } else {
        seq![node_view(ns[0])] + nodes_view(ns.drop_first())
    }
}

impl View for Node {
    type V = NodeV;

    open spec fn view(&self) -> NodeV {
        node_view(*self)
    }
}

/// A list-of-nodes view indexes pointwise into the node views.
pub proof fn lemma_nodes_view_index(ns: Seq<Node>)
    ensures
        nodes_view(ns).len() == ns.len(),
        forall|i: int| 0 <= i < ns.len() ==> nodes_view(ns)[i] == node_view(ns[i]),
    decreases ns,
{
    if ns.len() > 0 {
        lemma_nodes_view_index(ns.drop_first());
    }
}

// ---------------------------------------------------------------------------
// Tag classification and names
// ---------------------------------------------------------------------------

/// The class of a tag name: exactly one per name.
#[derive(Clone, Copy, PartialEq, Eq, Structural, Debug)]
pub enum TagType {
    /// The tag constructs a typed component value.
    Component,
    /// The tag is a literal HTML element.
    Element,
    /// The tag name is a computed expression: always rejected.
    Block,
}

/// Whether a name's first byte is an ASCII lowercase letter.  The
/// classification reads names as bytes: only the ASCII letters `a`-`z`
/// count as lowercase-leading, so a simple name whose first character is
/// outside ASCII classifies as a component, not an element.
pub open spec fn starts_lowercase(s: Seq<u8>) -> bool {
    s.len() > 0 && 97 <= s[0] <= 122
}

/// Classifies a tag name: a block name is dynamic; a punctuated name is an
/// element; a path is an element exactly when it is one unqualified segment
/// that leads with an ASCII lowercase letter, and a component otherwise (an
/// uppercase-leading or non-ASCII-leading bare identifier, or a qualified
/// path).
pub open spec fn tag_class(name: TagNameV) -> TagType {
    match name {
        TagNameV::Block => TagType::Block,
        TagNameV::Punctuated { text } => TagType::Element,
        TagNameV::Path { qualified, segments } => {
            if !qualified && segments.len() == 1 && starts_lowercase(segments[0]) {
                TagType::Element
            } else {
                TagType::Component
            }
        },
    }
}

/// Joins path segments with `::`.
pub open spec fn join_segments(segs: Seq<Seq<u8>>) -> Seq<u8>
    decreases segs,
{
    if segs.len() == 0 {
        Seq::empty()
    } else if segs.len() == 1 {
        segs[0]
    } else {
        segs[0] + seq![58u8, 58u8] + join_segments(segs.drop_first())
    }
}

/// The flat text of a tag name, as it is written into the output.
pub open spec fn name_text(name: TagNameV) -> Seq<u8> {
    match name {
        TagNameV::Path { qualified, segments } => (if qualified {
            seq![58u8, 58u8]
        } else {
            Seq::<u8>::empty()
        }) + join_segments(segments),
        TagNameV::Punctuated { text } => text,
        TagNameV::Block => Seq::empty(),
    }
}

/// The names of the void elements: self-closing, never with children.
pub open spec fn void_tag_list() -> Seq<Seq<u8>> {
    seq![
        seq![97u8, 114u8, 101u8, 97u8],  // area
        seq![98u8, 97u8, 115u8, 101u8],  // base
        seq![98u8, 114u8],  // br
        seq![99u8, 111u8, 108u8],  // col
        seq![101u8, 109u8, 98u8, 101u8, 100u8],  // embed
        seq![104u8, 114u8],  // hr
        seq![105u8, 109u8, 103u8],  // img
        seq![105u8, 110u8, 112u8, 117u8, 116u8],  // input
        seq![108u8, 105u8, 110u8, 107u8],  // link
        seq![109u8, 101u8, 116u8, 97u8],  // meta
        seq![112u8, 97u8, 114u8, 97u8, 109u8],  // param
        seq![115u8, 111u8, 117u8, 114u8, 99u8, 101u8],  // source
        seq![116u8, 114u8, 97u8, 99u8, 107u8],  // track
        seq![119u8, 98u8, 114u8],  // wbr
    ]
}

/// Whether a tag name text is one of the void elements.
pub open spec fn is_void_tag(name: Seq<u8>) -> bool {
    void_tag_list().contains(name)
}

/// The names of the raw-text elements, whose contents are not parsed as
/// markup: `script` and `style`.
pub open spec fn raw_text_tag_list() -> Seq<Seq<u8>> {
    seq![
        seq![115u8, 99u8, 114u8, 105u8, 112u8, 116u8],  // script
        seq![115u8, 116u8, 121u8, 108u8, 101u8],  // style
    ]
}

/// Whether a byte is an ASCII letter.
pub open spec fn is_ascii_alpha(b: u8) -> bool {
    (65 <= b <= 90) || (97 <= b <= 122)
}

/// Whether a byte is an ASCII letter, digit, or underscore.
pub open spec fn is_ident_tail(b: u8) -> bool {
    is_ascii_alpha(b) || (48 <= b <= 57) || b == 95
}

/// Whether a byte string is a legal simple identifier: non-empty, leading
/// letter, then letters, digits and underscores.
pub open spec fn is_valid_ident(s: Seq<u8>) -> bool {
    &&& s.len() > 0
    &&& is_ascii_alpha(s[0])
    &&& forall|i: int| 1 <= i < s.len() ==> is_ident_tail(#[trigger] s[i])
}

/// Whether a byte is ASCII whitespace.
pub open spec fn is_ascii_ws(b: u8) -> bool {
    b == 32 || b == 9 || b == 10 || b == 12 || b == 13
}

/// Normalizes a punctuated prop name: ASCII whitespace stripped, `-`
/// replaced by `_`.
pub open spec fn normalize_prop_name(s: Seq<u8>) -> Seq<u8> {
    s.filter(|b: u8| !is_ascii_ws(b)).map_values(|b: u8| if b == 45 { 95u8 } else { b })
}

/// `children` as bytes: the reserved prop name.
pub open spec fn children_name() -> Seq<u8> {
    seq![99u8, 104u8, 105u8, 108u8, 100u8, 114u8, 101u8, 110u8]
}

// ---------------------------------------------------------------------------
// Exec helpers
// ---------------------------------------------------------------------------

/// The reserved prop name `children` as a byte vector.
pub fn children_name_vec() -> (r: Vec<u8>)
    ensures
        r@ == children_name(),
{
    let r = vec![99u8, 104u8, 105u8, 108u8, 100u8, 114u8, 101u8, 110u8];
    proof {
        assert(r@ =~= children_name());
    }
    r
}

/// Compares two byte strings.
pub fn bytes_eq(a: &[u8], b: &[u8]) -> (r: bool)
    ensures
        r == (a@ == b@),
{
    if a.len() != b.len() {
        assert(a@ != b@);
        return false;
    }
    let n = a.len();
    let mut i: usize = 0;
    while i < n
        invariant
            n == a@.len() == b@.len(),
            i <= n,
            forall|j: int| 0 <= j < i ==> a@[j] == b@[j],
        decreases n - i,
    {
        if a[i] != b[i] {
            assert(a@ != b@);
            return false;
        }
        i = i + 1;
    }
    proof {
        assert(a@ =~= b@);
    }
    true
}

/// Copies a byte vector.
pub fn clone_bytes(v: &Vec<u8>) -> (r: Vec<u8>)
    ensures
        r@ == v@,
{
    vstd::slice::slice_to_vec(v.as_slice())
}

/// Copies a tag name.
pub fn clone_tag_name(n: &TagName) -> (r: TagName)
    ensures
        r@ == n@,
{
    match n {
        TagName::Path { qualified, segments } => {
            let mut segs: Vec<Vec<u8>> = Vec::new();
            let count = segments.len();
            let mut i: usize = 0;
            while i < count
                invariant
                    count == segments@.len(),
                    i <= count,
                    segs@.len() == i,
                    forall|j: int| 0 <= j < i ==> segs@[j]@ == #[trigger] segments@[j]@,
                decreases count - i,
            {
                segs.push(clone_bytes(&segments[i]));
                i = i + 1;
            }
            proof {
                assert(bytes_list_view(segs@) =~= bytes_list_view(segments@));
            }
            TagName::Path { qualified: *qualified, segments: segs }
        },
        TagName::Punctuated { text } => TagName::Punctuated { text: clone_bytes(text) },
        TagName::Block => TagName::Block,
    }
}

/// Copies an expression.
pub fn clone_expr(e: &Expr) -> (r: Expr)
    ensures
        r@ == e@,
{
    match e {
        Expr::StrLit { value } => Expr::StrLit { value: clone_bytes(value) },
        Expr::BoolLit { value } => Expr::BoolLit { value: *value },
        Expr::Verbatim { src } => Expr::Verbatim { src: clone_bytes(src) },
    }
}

/// Copies a dynamic block.
pub fn clone_dyn_block(b: &DynBlock) -> (r: DynBlock)
    ensures
        r@ == b@,
{
    match b {
        DynBlock::Valid { stmts } => {
            let mut out: Vec<Stmt> = Vec::new();
            let count = stmts.len();
            let mut i: usize = 0;
            while i < count
                invariant
                    count == stmts@.len(),
                    i <= count,
                    out@.len() == i,
                    forall|j: int| 0 <= j < i ==> out@[j]@ == #[trigger] stmts@[j]@,
                decreases count - i,
            {
                let s = match &stmts[i] {
                    Stmt::Expr { expr, semi } => Stmt::Expr { expr: clone_expr(expr), semi: *semi },
                    Stmt::Other { src } => Stmt::Other { src: clone_bytes(src) },
                };
                out.push(s);
                i = i + 1;
            }
            proof {
                assert(out@.map_values(|s: Stmt| s@) =~= stmts@.map_values(|s: Stmt| s@));
            }
            DynBlock::Valid { stmts: out }
        },
        DynBlock::Invalid { src } => DynBlock::Invalid { src: clone_bytes(src) },
    }
}

/// The flat text of a tag name.
pub fn tag_name_text(n: &TagName) -> (r: Vec<u8>)
    ensures
        r@ == name_text(n@),
{
    match n {
        TagName::Path { qualified, segments } => {
            let mut out: Vec<u8> = Vec::new();
            if *qualified {
                out.push(58);
                out.push(58);
            }
            let count = segments.len();
            let mut i: usize = 0;
            while i < count
                invariant
                    count == segments@.len(),
                    i <= count,
                    i == 0 ==> out@ == (if *qualified { seq![58u8, 58u8] } else { Seq::<u8>::empty() }),
                    i > 0 ==> out@ == (if *qualified { seq![58u8, 58u8] } else { Seq::<u8>::empty() })
                        + join_segments(bytes_list_view(segments@.subrange(0, i as int))),
                decreases count - i,
            {
                if i > 0 {
                    out.push(58);
                    out.push(58);
                }
                let mut piece = clone_bytes(&segments[i]);
                out.append(&mut piece);
                proof {
                    lemma_join_segments_snoc(bytes_list_view(segments@.subrange(0, i as int)),
                        segments@[i as int]@);
                    assert(bytes_list_view(segments@.subrange(0, i as int)).push(segments@[i as int]@)
                        =~= bytes_list_view(segments@.subrange(0, i + 1)));
                    assert(out@ =~= (if *qualified { seq![58u8, 58u8] } else { Seq::<u8>::empty() })
                        + join_segments(bytes_list_view(segments@.subrange(0, i + 1))));
                }
                i = i + 1;
            }
            proof {
                if count == 0 {
                    assert(join_segments(bytes_list_view(segments@)) =~= Seq::<u8>::empty());
                    assert(out@ =~= name_text(n@));
                } else {
                    assert(segments@.subrange(0, count as int) =~= segments@);
                    assert(out@ =~= name_text(n@));
                }
            }
            out
        },
        TagName::Punctuated { text } => clone_bytes(text),
        TagName::Block => Vec::new(),
    }
}

/// Appending one more segment joins it after a final `::`.
pub proof fn lemma_join_segments_snoc(segs: Seq<Seq<u8>>, last: Seq<u8>)
    ensures
        join_segments(segs.push(last)) == if segs.len() == 0 {
            last
        } else {
            join_segments(segs) + seq![58u8, 58u8] + last
        },
    decreases segs,
{
    if segs.len() == 0 {
        assert(segs.push(last).len() == 1);
        assert(segs.push(last)[0] == last);
    } else {
        lemma_join_segments_snoc(segs.drop_first(), last);
        assert(segs.push(last).drop_first() =~= segs.drop_first().push(last));
        assert(segs.push(last)[0] == segs[0]);
        if segs.len() == 1 {
            assert(segs.drop_first().len() == 0);
            assert(join_segments(segs.push(last)) =~= join_segments(segs) + seq![58u8, 58u8] + last);
        } else {
            assert(join_segments(segs.push(last)) =~= join_segments(segs) + seq![58u8, 58u8] + last);
        }
    }
}

/// Classifies a tag name.
pub fn tag_type(name: &TagName) -> (t: TagType)
    ensures
        t == tag_class(name@),
{
    match name {
        TagName::Block => TagType::Block,
        TagName::Punctuated { text } => TagType::Element,
        TagName::Path { qualified, segments } => {
            if !*qualified && segments.len() == 1 {
                let seg = &segments[0];
                if seg.len() > 0 {
                    let b = seg[0];
                    if 97 <= b && b <= 122 {
                        proof {
                            assert(name@->Path_segments[0] == segments@[0]@);
                        }
                        return TagType::Element;
                    }
                }
                proof {
                    assert(name@->Path_segments[0] == segments@[0]@);
                }
                TagType::Component
            } else {
                TagType::Component
            }
        },
    }
}

/// Whether a tag name text is one of the void elements.
pub fn is_void_tag_name(name: &[u8]) -> (r: bool)
    ensures
        r == is_void_tag(name@),
{
    let names = default_empty_elements();
    let count = names.len();
    let mut i: usize = 0;
    while i < count
        invariant
            count == names@.len(),
            bytes_list_view(names@) == void_tag_list(),
            i <= count,
            forall|j: int| 0 <= j < i ==> void_tag_list()[j] != name@,
        decreases count - i,
    {
        if bytes_eq(names[i].as_slice(), name) {
            proof {
                assert(void_tag_list()[i as int] == name@);
            }
            return true;
        }
        i = i + 1;
    }
    proof {
        assert(forall|j: int| 0 <= j < void_tag_list().len() ==> void_tag_list()[j] != name@);
        assert(!is_void_tag(name@));
    }
    false
}

/// The standard void-element names, in their standard order.
pub fn default_empty_elements() -> (v: Vec<Vec<u8>>)
    ensures
        bytes_list_view(v@) == void_tag_list(),
{
    let mut v: Vec<Vec<u8>> = Vec::new();
    v.push(vec![97u8, 114u8, 101u8, 97u8]);
    v.push(vec![98u8, 97u8, 115u8, 101u8]);
    v.push(vec![98u8, 114u8]);
    v.push(vec![99u8, 111u8, 108u8]);
    v.push(vec![101u8, 109u8, 98u8, 101u8, 100u8]);
    v.push(vec![104u8, 114u8]);
    v.push(vec![105u8, 109u8, 103u8]);
    v.push(vec![105u8, 110u8, 112u8, 117u8, 116u8]);
    v.push(vec![108u8, 105u8, 110u8, 107u8]);
    v.push(vec![109u8, 101u8, 116u8, 97u8]);
    v.push(vec![112u8, 97u8, 114u8, 97u8, 109u8]);
    v.push(vec![115u8, 111u8, 117u8, 114u8, 99u8, 101u8]);
    v.push(vec![116u8, 114u8, 97u8, 99u8, 107u8]);
    v.push(vec![119u8, 98u8, 114u8]);
    proof {
        assert(bytes_list_view(v@) =~= void_tag_list());
    }
    v
}

/// The raw-text element names: their contents are not parsed as markup.
pub fn raw_text_elements() -> (v: Vec<Vec<u8>>)
    ensures
        bytes_list_view(v@) == raw_text_tag_list(),
{
    let mut v: Vec<Vec<u8>> = Vec::new();
    v.push(vec![115u8, 99u8, 114u8, 105u8, 112u8, 116u8]);
    v.push(vec![115u8, 116u8, 121u8, 108u8, 101u8]);
    proof {
        assert(bytes_list_view(v@) =~= raw_text_tag_list());
    }
    v
}

/// Normalizes a punctuated prop name and tests it for identifier shape.
pub fn normalize_ident(s: &[u8]) -> (r: Vec<u8>)
    ensures
        r@ == normalize_prop_name(s@),
{
    let mut out: Vec<u8> = Vec::new();
    let n = s.len();
    let mut i: usize = 0;
    while i < n
        invariant
            n == s@.len(),
            i <= n,
            out@ == normalize_prop_name(s@.subrange(0, i as int)),
        decreases n - i,
    {
        let b = s[i];
        let keep = !(b == 32 || b == 9 || b == 10 || b == 12 || b == 13);
        proof {
            let prefix = s@.subrange(0, i as int);
            let next = s@.subrange(0, i + 1);
            assert(next =~= prefix.push(b));
            assert(prefix.push(b).drop_last() =~= prefix);
            reveal_with_fuel(Seq::<_>::filter, 2);
            assert(prefix.push(b).filter(|x: u8| !is_ascii_ws(x)) =~= prefix.filter(
                |x: u8| !is_ascii_ws(x)) + (if !is_ascii_ws(b) { seq![b] } else { Seq::<u8>::empty() }));
        }
        if keep {
            if b == 45 {
                out.push(95);
            } else {
                out.push(b);
            }
        }
        proof {
            assert(out@ =~= normalize_prop_name(s@.subrange(0, i + 1)));
        }
        i = i + 1;
    }
    proof {
        assert(s@.subrange(0, n as int) =~= s@);
    }
    out
}

/// Tests a byte string for identifier shape.
pub fn check_valid_ident(s: &[u8]) -> (r: bool)
    ensures
        r == is_valid_ident(s@),
{
    if s.len() == 0 {
        return false;
    }
    let b0 = s[0];
    if !((65 <= b0 && b0 <= 90) || (97 <= b0 && b0 <= 122)) {
        return false;
    }
    let n = s.len();
    let mut i: usize = 1;
    while i < n
        invariant
            n == s@.len(),
            1 <= i <= n,
            is_ascii_alpha(s@[0]),
            forall|j: int| 1 <= j < i ==> is_ident_tail(#[trigger] s@[j]),
        decreases n - i,
    {
        let b = s[i];
        if !((65 <= b && b <= 90) || (97 <= b && b <= 122) || (48 <= b && b <= 57) || b == 95) {
            return false;
        }
        i = i + 1;
    }
    true
}

impl Diagnostic {
    /// The human-readable message of this diagnostic.  A parse diagnostic
    /// carries the outside tokenizer's own words as bytes and is summarized
    /// here; every other variant has its fixed text.
    pub fn message(&self) -> (r: String)
        ensures
            match self {
                Diagnostic::Parse { message } => true,
                Diagnostic::NonKeyedComponentAttribute => r@
                    == "Only keyed attributes are supported"@,
                Diagnostic::ComplexPropName => r@
                    == "Only simple identifiers are supported as component prop-names"@,
                Diagnostic::InvalidPropName { name } => r@ == "Invalid prop-name"@,
                Diagnostic::DynamicPropName => r@ == "Dynamic attributes are not supported"@,
                Diagnostic::PropFunction => r@ == "Component prop-functions are not supported."@,
                Diagnostic::ReservedChildrenProp => r@
                    == "The `children` prop is reserved for components."@,
                Diagnostic::DynamicElement => r@
                    == "Dynamic elements are not supported. Use a component or an HTML element instead."@,
                Diagnostic::AttributeBinding => r@ == "Attribute bindings are not supported."@,
                Diagnostic::EmptyElementWithChildren => r@
                    == "Empty elements cannot have children."@,
            },
    {
        match self {
            Diagnostic::Parse { message } => <String as vstd::string::StringExecFns>::from_str(
                "the markup tokenizer reported an error",
            ),
            Diagnostic::NonKeyedComponentAttribute => <String as vstd::string::StringExecFns>::from_str(
                "Only keyed attributes are supported",
            ),
            Diagnostic::ComplexPropName => <String as vstd::string::StringExecFns>::from_str(
                "Only simple identifiers are supported as component prop-names",
            ),
            Diagnostic::InvalidPropName { name } => <String as vstd::string::StringExecFns>::from_str(
                "Invalid prop-name",
            ),
            Diagnostic::DynamicPropName => <String as vstd::string::StringExecFns>::from_str(
                "Dynamic attributes are not supported",
            ),
            Diagnostic::PropFunction => <String as vstd::string::StringExecFns>::from_str(
                "Component prop-functions are not supported.",
            ),
            Diagnostic::ReservedChildrenProp => <String as vstd::string::StringExecFns>::from_str(
                "The `children` prop is reserved for components.",
            ),
            Diagnostic::DynamicElement => <String as vstd::string::StringExecFns>::from_str(
                "Dynamic elements are not supported. Use a component or an HTML element instead.",
            ),
            Diagnostic::AttributeBinding => <String as vstd::string::StringExecFns>::from_str(
                "Attribute bindings are not supported.",
            ),
            Diagnostic::EmptyElementWithChildren => <String as vstd::string::StringExecFns>::from_str(
                "Empty elements cannot have children.",
            ),
        }
    }
}


} // verus!
