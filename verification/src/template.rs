use vstd::prelude::*;

use crate::node::{
    bytes_list_view, children_name, is_valid_ident, is_void_tag, name_text, normalize_prop_name,
    tag_class, Diagnostic, DiagnosticV, DynBlock, DynBlockV, Expr, ExprV, NodeV, TagName, TagNameV,
    TagType,
};

verus! {

// ---------------------------------------------------------------------------
// The instruction vocabulary, exec and ghost
// ---------------------------------------------------------------------------

/// A lowered attribute value: a constant string, or an expression evaluated
/// at run time.
#[derive(Debug)]
pub enum AttributeValue {
    Constant { value: Vec<u8> },
    Expression { expr: Expr },
}

/// Ghost mirror of [`AttributeValue`].
pub enum AttributeValueV {
    Constant { value: Seq<u8> },
    Expression { expr: ExprV },
}

impl View for AttributeValue {
    type V = AttributeValueV;

    open spec fn view(&self) -> AttributeValueV {
        match self {
            AttributeValue::Constant { value } => AttributeValueV::Constant { value: value@ },
            AttributeValue::Expression { expr } => AttributeValueV::Expression { expr: expr@ },
        }
    }
}

/// One prop of a component: a simple identifier and its value expression.
#[derive(Debug)]
pub struct ComponentProp {
    pub name: Vec<u8>,
    pub value: Expr,
}

/// Ghost mirror of [`ComponentProp`].
pub struct ComponentPropV {
    pub name: Seq<u8>,
    pub value: ExprV,
}

impl View for ComponentProp {
    type V = ComponentPropV;

    open spec fn view(&self) -> ComponentPropV {
        ComponentPropV { name: self.name@, value: self.value@ }
    }
}

/// The children handed to a component: a single dynamic-block expression, or
/// a nested template rendered through a closure-shaped value.
#[derive(Debug)]
pub enum Children {
    Expr { block: DynBlock },
    Template { template: Template },
}

/// Ghost mirror of [`Children`].
pub enum ChildrenV {
    Expr { block: DynBlockV },
    Template { template: TemplateV },
}

/// A lowered component tag: its path, ordered props, and optional children.
#[derive(Debug)]
pub struct Component {
    pub path: TagName,
    pub props: Vec<ComponentProp>,
    pub children: Option<Children>,
}

/// Ghost mirror of [`Component`].
pub struct ComponentV {
    pub path: TagNameV,
    pub props: Seq<ComponentPropV>,
    pub children: Option<ChildrenV>,
}

/// One atomic formatter operation of the lowered output, emitted in source
/// order.  Replayed in order against a formatter, the sequence produces
/// exactly the serialized markup.
#[derive(Debug)]
pub enum TemplateWriteInstruction {
    Doctype { value: Vec<u8> },
    OpenTagStart { name: TagName },
    AttributeName { name: TagName },
    AttributeValue { value: AttributeValue },
    OpenTagEnd,
    SelfCloseTag,
    EndTag { name: TagName },
    Text { value: Vec<u8> },
    RawText { value: Vec<u8> },
    Comment { value: Vec<u8> },
    DynamicAttributes { block: DynBlock },
    DynamicContent { block: DynBlock },
    Component { component: Component },
}

/// Ghost mirror of [`TemplateWriteInstruction`].
pub enum TemplateWriteInstructionV {
    Doctype { value: Seq<u8> },
    OpenTagStart { name: TagNameV },
    AttributeName { name: TagNameV },
    AttributeValue { value: AttributeValueV },
    OpenTagEnd,
    SelfCloseTag,
    EndTag { name: TagNameV },
    Text { value: Seq<u8> },
    RawText { value: Seq<u8> },
    Comment { value: Seq<u8> },
    DynamicAttributes { block: DynBlockV },
    DynamicContent { block: DynBlockV },
    Component { component: ComponentV },
}

/// IDE-hint metadata: the tag and attribute names seen by one template pass,
/// for tooling that maps markup names back to their source spans.
#[derive(Debug)]
pub struct IdeHelper {
    open_tag_names: Vec<Vec<u8>>,
    close_tag_names: Vec<Vec<u8>>,
    attr_names: Vec<Vec<u8>>,
}

/// Ghost mirror of [`IdeHelper`].
pub struct IdeHelperV {
    pub open_tag_names: Seq<Seq<u8>>,
    pub close_tag_names: Seq<Seq<u8>>,
    pub attr_names: Seq<Seq<u8>>,
}

impl View for IdeHelper {
    type V = IdeHelperV;

    closed spec fn view(&self) -> IdeHelperV {
        IdeHelperV {
            open_tag_names: bytes_list_view(self.open_tag_names@),
            close_tag_names: bytes_list_view(self.close_tag_names@),
            attr_names: bytes_list_view(self.attr_names@),
        }
    }
}

impl IdeHelper {
    /// An empty set of hints.
    pub fn new() -> (r: Self)
        ensures
            r@ == IdeHelperV::empty(),
    {
        let r = IdeHelper { open_tag_names: Vec::new(), close_tag_names: Vec::new(),
            attr_names: Vec::new() };
        proof {
            assert(r@.open_tag_names =~= Seq::<Seq<u8>>::empty());
            assert(r@.close_tag_names =~= Seq::<Seq<u8>>::empty());
            assert(r@.attr_names =~= Seq::<Seq<u8>>::empty());
        }
        r
    }

    /// Records an open-tag name.
    pub fn mark_open_tag(&mut self, name: Vec<u8>)
        ensures
            final(self)@.open_tag_names == old(self)@.open_tag_names.push(name@),
            final(self)@.close_tag_names == old(self)@.close_tag_names,
            final(self)@.attr_names == old(self)@.attr_names,
    {
        self.open_tag_names.push(name);
        proof {
            assert(final(self)@.open_tag_names =~= old(self)@.open_tag_names.push(name@));
        }
    }

    /// Records a close-tag name.
    pub fn mark_close_tag(&mut self, name: Vec<u8>)
        ensures
            final(self)@.open_tag_names == old(self)@.open_tag_names,
            final(self)@.close_tag_names == old(self)@.close_tag_names.push(name@),
            final(self)@.attr_names == old(self)@.attr_names,
    {
        self.close_tag_names.push(name);
        proof {
            assert(final(self)@.close_tag_names =~= old(self)@.close_tag_names.push(name@));
        }
    }

    /// Records an attribute name.
    pub fn mark_attr_name(&mut self, name: Vec<u8>)
        ensures
            final(self)@.open_tag_names == old(self)@.open_tag_names,
            final(self)@.close_tag_names == old(self)@.close_tag_names,
            final(self)@.attr_names == old(self)@.attr_names.push(name@),
    {
        self.attr_names.push(name);
        proof {
            assert(final(self)@.attr_names =~= old(self)@.attr_names.push(name@));
        }
    }
}

impl IdeHelperV {
    /// No hints.
    pub open spec fn empty() -> IdeHelperV {
        IdeHelperV {
            open_tag_names: Seq::empty(),
            close_tag_names: Seq::empty(),
            attr_names: Seq::empty(),
        }
    }

    /// Hints of two passes in order.
    pub open spec fn concat(self, other: IdeHelperV) -> IdeHelperV {
        IdeHelperV {
            open_tag_names: self.open_tag_names + other.open_tag_names,
            close_tag_names: self.close_tag_names + other.close_tag_names,
            attr_names: self.attr_names + other.attr_names,
        }
    }
}

/// The finished artifact of one lowering pass: the ordered instruction list,
/// the accumulated diagnostics, and the IDE-hint metadata.
#[derive(Debug)]
pub struct Template {
    pub instructions: Vec<TemplateWriteInstruction>,
    pub diagnostics: Vec<Diagnostic>,
    pub ide_helper: IdeHelper,
}

/// Ghost mirror of [`Template`].
pub struct TemplateV {
    pub instructions: Seq<TemplateWriteInstructionV>,
    pub diagnostics: Seq<DiagnosticV>,
    pub ide_helper: IdeHelperV,
}

// ---------------------------------------------------------------------------
// Views of the recursive instruction side
// ---------------------------------------------------------------------------

/// The view of one instruction.
pub open spec fn instr_view(i: TemplateWriteInstruction) -> TemplateWriteInstructionV
    decreases i,
{
    match i {
        TemplateWriteInstruction::Doctype { value } => TemplateWriteInstructionV::Doctype {
            value: value@,
        },
        TemplateWriteInstruction::OpenTagStart { name } => TemplateWriteInstructionV::OpenTagStart {
            name: name@,
        },
        TemplateWriteInstruction::AttributeName { name } => TemplateWriteInstructionV::AttributeName {
            name: name@,
        },
        TemplateWriteInstruction::AttributeValue { value } => TemplateWriteInstructionV::AttributeValue {
            value: value@,
        },
        TemplateWriteInstruction::OpenTagEnd => TemplateWriteInstructionV::OpenTagEnd,
        TemplateWriteInstruction::SelfCloseTag => TemplateWriteInstructionV::SelfCloseTag,
        TemplateWriteInstruction::EndTag { name } => TemplateWriteInstructionV::EndTag { name: name@ },
        TemplateWriteInstruction::Text { value } => TemplateWriteInstructionV::Text { value: value@ },
        TemplateWriteInstruction::RawText { value } => TemplateWriteInstructionV::RawText {
            value: value@,
        },
        TemplateWriteInstruction::Comment { value } => TemplateWriteInstructionV::Comment {
            value: value@,
        },
        TemplateWriteInstruction::DynamicAttributes { block } => TemplateWriteInstructionV::DynamicAttributes {
            block: block@,
        },
        TemplateWriteInstruction::DynamicContent { block } => TemplateWriteInstructionV::DynamicContent {
            block: block@,
        },
        TemplateWriteInstruction::Component { component } => TemplateWriteInstructionV::Component {
            component: component_view(component),
        },
    }
}

/// The views of a list of instructions.
pub open spec fn instrs_view(s: Seq<TemplateWriteInstruction>) -> Seq<TemplateWriteInstructionV>
    decreases s,
{
    if s.len() == 0 {
        Seq::empty()
    } else {
        seq![instr_view(s[0])] + instrs_view(s.drop_first())
    }
}

/// The view of a component.
pub open spec fn component_view(c: Component) -> ComponentV
    decreases c,
{
    ComponentV {
        path: c.path@,
        props: c.props@.map_values(|p: ComponentProp| p@),
        children: match c.children {
            Some(ch) => Some(children_view(ch)),
            None => None,
        },
    }
}

/// The view of component children.
pub open spec fn children_view(c: Children) -> ChildrenV
    decreases c,
{
    match c {
        Children::Expr { block } => ChildrenV::Expr { block: block@ },
        Children::Template { template } => ChildrenV::Template { template: template_view(template) },
    }
}

/// The view of a template.
pub open spec fn template_view(t: Template) -> TemplateV
    decreases t,
{
    TemplateV {
        instructions: instrs_view(t.instructions@),
        diagnostics: t.diagnostics@.map_values(|d: Diagnostic| d@),
        ide_helper: t.ide_helper@,
    }
}

impl View for Template {
    type V = TemplateV;

    open spec fn view(&self) -> TemplateV {
        template_view(*self)
    }
}

/// An instruction-list view indexes pointwise into the instruction views.
pub proof fn lemma_instrs_view_index(s: Seq<TemplateWriteInstruction>)
    ensures
        instrs_view(s).len() == s.len(),
        forall|i: int| 0 <= i < s.len() ==> instrs_view(s)[i] == instr_view(s[i]),
    decreases s,
{
    if s.len() > 0 {
        lemma_instrs_view_index(s.drop_first());
    }
}

/// View of a pushed instruction list.
pub proof fn lemma_instrs_view_push(s: Seq<TemplateWriteInstruction>, i: TemplateWriteInstruction)
    ensures
        instrs_view(s.push(i)) == instrs_view(s).push(instr_view(i)),
{
    lemma_instrs_view_index(s);
    lemma_instrs_view_index(s.push(i));
    assert(instrs_view(s.push(i)) =~= instrs_view(s).push(instr_view(i)));
}

// ---------------------------------------------------------------------------
// The lowering pass, specified
// ---------------------------------------------------------------------------

/// What one lowering step yields: instructions, diagnostics and hints, each
/// appended in source order.
pub struct LowerOut {
    pub instructions: Seq<TemplateWriteInstructionV>,
    pub diagnostics: Seq<DiagnosticV>,
    pub hints: IdeHelperV,
}

impl LowerOut {
    /// Yields nothing.
    pub open spec fn empty() -> LowerOut {
        LowerOut {
            instructions: Seq::empty(),
            diagnostics: Seq::empty(),
            hints: IdeHelperV::empty(),
        }
    }

    /// Two steps in order.
    pub open spec fn concat(self, other: LowerOut) -> LowerOut {
        LowerOut {
            instructions: self.instructions + other.instructions,
            diagnostics: self.diagnostics + other.diagnostics,
            hints: self.hints.concat(other.hints),
        }
    }
}

/// What lowering one attribute of an HTML element yields.
pub open spec fn lower_attr(a: crate::node::NodeAttributeV) -> LowerOut {
    match a {
        crate::node::NodeAttributeV::Block { block } => LowerOut {
            instructions: seq![TemplateWriteInstructionV::DynamicAttributes { block }],
            diagnostics: Seq::empty(),
            hints: IdeHelperV::empty(),
        },
        crate::node::NodeAttributeV::Attribute { attribute } => {
            let key = attribute.key;
            let name_instr = TemplateWriteInstructionV::AttributeName { name: key };
            let mark = IdeHelperV {
                open_tag_names: Seq::empty(),
                close_tag_names: Seq::empty(),
                attr_names: seq![name_text(key)],
            };
            match attribute.value {
                crate::node::AttrValueV::Binding => LowerOut {
                    instructions: seq![name_instr],
                    diagnostics: seq![DiagnosticV::AttributeBinding],
                    hints: mark,
                },
                crate::node::AttrValueV::Value { value } => LowerOut {
                    instructions: seq![
                        name_instr,
                        TemplateWriteInstructionV::AttributeValue {
                            value: match value {
                                ExprV::StrLit { value: v } => AttributeValueV::Constant { value: v },
                                _ => AttributeValueV::Expression { expr: value },
                            },
                        },
                    ],
                    diagnostics: Seq::empty(),
                    hints: mark,
                },
                crate::node::AttrValueV::Missing => LowerOut {
                    instructions: seq![name_instr],
                    diagnostics: Seq::empty(),
                    hints: mark,
                },
            }
        },
    }
}

/// What lowering the attribute list of an HTML element yields, in order.
pub open spec fn lower_attrs(attrs: Seq<crate::node::NodeAttributeV>) -> LowerOut
    decreases attrs,
{
    if attrs.len() == 0 {
        LowerOut::empty()
    } else {
        lower_attr(attrs[0]).concat(lower_attrs(attrs.drop_first()))
    }
}

/// The outcome of reading one component attribute: a prop, or a diagnostic.
pub enum PropOutcome {
    Prop { prop: ComponentPropV },
    Rejected { diag: DiagnosticV },
}

/// Reads one component attribute.  Only keyed attributes with simple (or
/// normalizable punctuated) identifier names are accepted; a missing value
/// defaults to boolean `true`; the name `children` is reserved.
pub open spec fn prop_outcome(a: crate::node::NodeAttributeV) -> PropOutcome {
    match a {
        crate::node::NodeAttributeV::Block { block } => PropOutcome::Rejected {
            diag: DiagnosticV::NonKeyedComponentAttribute,
        },
        crate::node::NodeAttributeV::Attribute { attribute } => {
            match attribute.key {
                TagNameV::Path { qualified, segments } => {
                    if qualified || segments.len() != 1 {
                        PropOutcome::Rejected { diag: DiagnosticV::ComplexPropName }
                    } else {
                        prop_with_name(segments[0], attribute.value)
                    }
                },
                TagNameV::Punctuated { text } => {
                    let s = normalize_prop_name(text);
                    if is_valid_ident(s) {
                        prop_with_name(s, attribute.value)
                    } else {
                        PropOutcome::Rejected { diag: DiagnosticV::InvalidPropName { name: s } }
                    }
                },
                TagNameV::Block => PropOutcome::Rejected { diag: DiagnosticV::DynamicPropName },
            }
        },
    }
}

/// Finishes one component prop once its name has resolved.
pub open spec fn prop_with_name(name: Seq<u8>, value: crate::node::AttrValueV) -> PropOutcome {
    match value {
        crate::node::AttrValueV::Binding => PropOutcome::Rejected {
            diag: DiagnosticV::PropFunction,
        },
        crate::node::AttrValueV::Value { value: v } => prop_unless_reserved(name, v),
        crate::node::AttrValueV::Missing => prop_unless_reserved(name, ExprV::BoolLit {
            value: true,
        }),
    }
}

/// Rejects the reserved name `children`; accepts any other prop.
pub open spec fn prop_unless_reserved(name: Seq<u8>, value: ExprV) -> PropOutcome {
    if name == children_name() {
        PropOutcome::Rejected { diag: DiagnosticV::ReservedChildrenProp }
    } else {
        PropOutcome::Prop { prop: ComponentPropV { name, value } }
    }
}

/// The accepted props of a component attribute list, in order.
pub open spec fn props_of(attrs: Seq<crate::node::NodeAttributeV>) -> Seq<ComponentPropV>
    decreases attrs,
{
    if attrs.len() == 0 {
        Seq::empty()
    } else {
        (match prop_outcome(attrs[0]) {
            PropOutcome::Prop { prop } => seq![prop],
            PropOutcome::Rejected { diag } => Seq::empty(),
        }) + props_of(attrs.drop_first())
    }
}

/// The diagnostics of a component attribute list, in order.
pub open spec fn prop_diags(attrs: Seq<crate::node::NodeAttributeV>) -> Seq<DiagnosticV>
    decreases attrs,
{
    if attrs.len() == 0 {
        Seq::empty()
    } else {
        (match prop_outcome(attrs[0]) {
            PropOutcome::Prop { prop } => Seq::empty(),
            PropOutcome::Rejected { diag } => seq![diag],
        }) + prop_diags(attrs.drop_first())
    }
}

/// What the children of a component tag lower to: exactly one dynamic block
/// becomes a direct expression; anything else becomes a nested template,
/// dropped entirely when that template is empty.
pub open spec fn lower_component_children(children: Seq<NodeV>) -> Option<ChildrenV>
    decreases children, 1int,
{
    if children.len() == 1 && children[0] is Block {
        Some(ChildrenV::Expr { block: children[0]->Block_block })
    } else {
        let sub = lower_nodes(children);
        if sub.instructions.len() == 0 && sub.diagnostics.len() == 0 {
            None
        } else {
            Some(ChildrenV::Template {
                template: TemplateV {
                    instructions: sub.instructions,
                    diagnostics: sub.diagnostics,
                    ide_helper: sub.hints,
                },
            })
        }
    }
}

/// What lowering one node yields.
pub open spec fn lower_node(n: NodeV) -> LowerOut
    decreases n, 2int,
{
    match n {
        NodeV::Doctype { value } => LowerOut {
            instructions: seq![TemplateWriteInstructionV::Doctype { value }],
            diagnostics: Seq::empty(),
            hints: IdeHelperV::empty(),
        },
        NodeV::Element { open_tag, close_tag, children } => {
            match tag_class(open_tag.name) {
                TagType::Block => LowerOut {
                    instructions: Seq::empty(),
                    diagnostics: seq![DiagnosticV::DynamicElement],
                    hints: IdeHelperV::empty(),
                },
                TagType::Element => lower_html_element(open_tag, close_tag, children),
                TagType::Component => LowerOut {
                    instructions: seq![
                        TemplateWriteInstructionV::Component {
                            component: ComponentV {
                                path: open_tag.name,
                                props: props_of(open_tag.attributes),
                                children: if children.len() > 0 {
                                    lower_component_children(children)
                                } else {
                                    None
                                },
                            },
                        },
                    ],
                    diagnostics: prop_diags(open_tag.attributes),
                    hints: IdeHelperV::empty(),
                },
            }
        },
        NodeV::Text { value } => LowerOut {
            instructions: seq![TemplateWriteInstructionV::Text { value }],
            diagnostics: Seq::empty(),
            hints: IdeHelperV::empty(),
        },
        NodeV::RawText { value } => LowerOut {
            instructions: seq![TemplateWriteInstructionV::RawText { value }],
            diagnostics: Seq::empty(),
            hints: IdeHelperV::empty(),
        },
        NodeV::Fragment { children } => lower_nodes(children),
        NodeV::Comment { value } => LowerOut {
            instructions: seq![TemplateWriteInstructionV::Comment { value }],
            diagnostics: Seq::empty(),
            hints: IdeHelperV::empty(),
        },
        NodeV::Block { block } => LowerOut {
            instructions: seq![TemplateWriteInstructionV::DynamicContent { block }],
            diagnostics: Seq::empty(),
            hints: IdeHelperV::empty(),
        },
    }
}

/// What lowering an element-classified tag yields: the open tag, its
/// attributes in order, then either a self-close for a void tag (children
/// are a diagnostic) or the children between `>` and the end tag.
pub open spec fn lower_html_element(
    open_tag: crate::node::OpenTagV,
    close_tag: Option<TagNameV>,
    children: Seq<NodeV>,
) -> LowerOut
    decreases children, 1int,
{
    let name = open_tag.name;
    let text = name_text(name);
    let marks = IdeHelperV {
        open_tag_names: seq![text],
        close_tag_names: match close_tag {
            Some(c) => seq![name_text(c)],
            None => Seq::empty(),
        },
        attr_names: Seq::empty(),
    };
    let attrs = lower_attrs(open_tag.attributes);
    if is_void_tag(text) {
        LowerOut {
            instructions: seq![TemplateWriteInstructionV::OpenTagStart { name }]
                + attrs.instructions + seq![TemplateWriteInstructionV::SelfCloseTag],
            diagnostics: attrs.diagnostics + if children.len() > 0 {
                seq![DiagnosticV::EmptyElementWithChildren]
            } else {
                Seq::empty()
            },
            hints: marks.concat(attrs.hints),
        }
    } else {
        let sub = lower_nodes(children);
        LowerOut {
            instructions: seq![TemplateWriteInstructionV::OpenTagStart { name }]
                + attrs.instructions + seq![TemplateWriteInstructionV::OpenTagEnd]
                + sub.instructions + seq![TemplateWriteInstructionV::EndTag { name }],
            diagnostics: attrs.diagnostics + sub.diagnostics,
            hints: marks.concat(attrs.hints).concat(sub.hints),
        }
    }
}

/// What lowering a list of sibling nodes yields, in order.
pub open spec fn lower_nodes(ns: Seq<NodeV>) -> LowerOut
    decreases ns, 0int,
{
    if ns.len() == 0 {
        LowerOut::empty()
    } else {
        lower_node(ns[0]).concat(lower_nodes(ns.drop_first()))
    }
}

impl Template {
    /// A parser for one template, configured with the standard void-element
    /// set.
    pub fn parser() -> (p: crate::parsing::TemplateParser)
        ensures
            p.wf(),
            p@.instructions == Seq::<TemplateWriteInstructionV>::empty(),
            p@.diagnostics == Seq::<DiagnosticV>::empty(),
            p@.ide_helper == IdeHelperV::empty(),
    {
        crate::parsing::TemplateParser::new()
    }

    /// Whether the template holds neither instructions nor diagnostics.
    pub fn is_empty(&self) -> (r: bool)
        ensures
            r == (self@.instructions.len() == 0 && self@.diagnostics.len() == 0),
    {
        proof {
            lemma_instrs_view_index(self.instructions@);
        }
        self.instructions.len() == 0 && self.diagnostics.len() == 0
    }
}

} // verus!
