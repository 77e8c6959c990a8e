use vstd::prelude::*;

use crate::node::{
    bytes_eq, bytes_list_view, clone_bytes, clone_dyn_block, clone_expr, clone_tag_name,
    check_valid_ident, default_empty_elements, lemma_nodes_view_index, node_view, nodes_view,
    normalize_ident, tag_class, tag_name_text, tag_type, void_tag_list, AttrValue, Diagnostic,
    DiagnosticV, Expr, Node, NodeAttribute, NodeV, TagName, TagType,
};
use crate::template::{
    children_view, component_view, instr_view, instrs_view, lemma_instrs_view_index,
    lemma_instrs_view_push, lower_attr, lower_attrs, lower_component_children, lower_html_element,
    lower_node, lower_nodes, prop_diags, prop_outcome, prop_unless_reserved, prop_with_name,
    props_of, template_view, AttributeValue, Children, ChildrenV, Component, ComponentProp,
    ComponentPropV, IdeHelper, IdeHelperV, LowerOut, PropOutcome, Template, TemplateV,
    TemplateWriteInstruction, TemplateWriteInstructionV,
};

verus! {

/// The view of optional component children.
pub open spec fn opt_children_view(c: Option<Children>) -> Option<ChildrenV> {
    match c {
        Some(ch) => Some(children_view(ch)),
        None => None,
    }
}

/// The node views of an optional node list.
pub open spec fn opt_nodes_view(ns: Option<Vec<Node>>) -> Seq<NodeV> {
    match ns {
        Some(v) => nodes_view(v@),
        None => Seq::empty(),
    }
}

/// Lowering one more attribute appends its outcome.
proof fn lemma_lower_attrs_snoc(s: Seq<crate::node::NodeAttributeV>, a: crate::node::NodeAttributeV)
    ensures
        lower_attrs(s.push(a)) == lower_attrs(s).concat(lower_attr(a)),
    decreases s,
{
    if s.len() == 0 {
        assert(s.push(a).drop_first() =~= Seq::<crate::node::NodeAttributeV>::empty());
        assert(s.push(a)[0] == a);
        assert(lower_attrs(Seq::<crate::node::NodeAttributeV>::empty()) == LowerOut::empty());
        assert(lower_attrs(s.push(a)).instructions =~= lower_attrs(s).concat(
            lower_attr(a)).instructions);
        assert(lower_attrs(s.push(a)).diagnostics =~= lower_attrs(s).concat(
            lower_attr(a)).diagnostics);
        assert(lower_attrs(s.push(a)).hints.open_tag_names =~= lower_attrs(s).concat(
            lower_attr(a)).hints.open_tag_names);
        assert(lower_attrs(s.push(a)).hints.close_tag_names =~= lower_attrs(s).concat(
            lower_attr(a)).hints.close_tag_names);
        assert(lower_attrs(s.push(a)).hints.attr_names =~= lower_attrs(s).concat(
            lower_attr(a)).hints.attr_names);
    } else {
        lemma_lower_attrs_snoc(s.drop_first(), a);
        assert(s.push(a).drop_first() =~= s.drop_first().push(a));
        assert(s.push(a)[0] == s[0]);
        assert(lower_attrs(s.push(a)).instructions =~= lower_attrs(s).concat(
            lower_attr(a)).instructions);
        assert(lower_attrs(s.push(a)).diagnostics =~= lower_attrs(s).concat(
            lower_attr(a)).diagnostics);
        assert(lower_attrs(s.push(a)).hints.open_tag_names =~= lower_attrs(s).concat(
            lower_attr(a)).hints.open_tag_names);
        assert(lower_attrs(s.push(a)).hints.close_tag_names =~= lower_attrs(s).concat(
            lower_attr(a)).hints.close_tag_names);
        assert(lower_attrs(s.push(a)).hints.attr_names =~= lower_attrs(s).concat(
            lower_attr(a)).hints.attr_names);
    }
}

/// Lowering one more sibling node appends its outcome.
proof fn lemma_lower_nodes_snoc(ns: Seq<NodeV>, n: NodeV)
    ensures
        lower_nodes(ns.push(n)) == lower_nodes(ns).concat(lower_node(n)),
    decreases ns,
{
    if ns.len() == 0 {
        assert(ns.push(n).drop_first() =~= Seq::<NodeV>::empty());
        assert(ns.push(n)[0] == n);
        assert(lower_nodes(Seq::<NodeV>::empty()) == LowerOut::empty());
        assert(lower_nodes(ns.push(n)).instructions =~= lower_nodes(ns).concat(
            lower_node(n)).instructions);
        assert(lower_nodes(ns.push(n)).diagnostics =~= lower_nodes(ns).concat(
            lower_node(n)).diagnostics);
        assert(lower_nodes(ns.push(n)).hints.open_tag_names =~= lower_nodes(ns).concat(
            lower_node(n)).hints.open_tag_names);
        assert(lower_nodes(ns.push(n)).hints.close_tag_names =~= lower_nodes(ns).concat(
            lower_node(n)).hints.close_tag_names);
        assert(lower_nodes(ns.push(n)).hints.attr_names =~= lower_nodes(ns).concat(
            lower_node(n)).hints.attr_names);
    } else {
        lemma_lower_nodes_snoc(ns.drop_first(), n);
        assert(ns.push(n).drop_first() =~= ns.drop_first().push(n));
        assert(ns.push(n)[0] == ns[0]);
        assert(lower_nodes(ns.push(n)).instructions =~= lower_nodes(ns).concat(
            lower_node(n)).instructions);
        assert(lower_nodes(ns.push(n)).diagnostics =~= lower_nodes(ns).concat(
            lower_node(n)).diagnostics);
        assert(lower_nodes(ns.push(n)).hints.open_tag_names =~= lower_nodes(ns).concat(
            lower_node(n)).hints.open_tag_names);
        assert(lower_nodes(ns.push(n)).hints.close_tag_names =~= lower_nodes(ns).concat(
            lower_node(n)).hints.close_tag_names);
        assert(lower_nodes(ns.push(n)).hints.attr_names =~= lower_nodes(ns).concat(
            lower_node(n)).hints.attr_names);
    }
}

/// Reading one more component attribute appends its prop or its diagnostic.
proof fn lemma_props_snoc(s: Seq<crate::node::NodeAttributeV>, a: crate::node::NodeAttributeV)
    ensures
        props_of(s.push(a)) == props_of(s) + (match prop_outcome(a) {
            PropOutcome::Prop { prop } => seq![prop],
            PropOutcome::Rejected { diag } => Seq::<ComponentPropV>::empty(),
        }),
        prop_diags(s.push(a)) == prop_diags(s) + (match prop_outcome(a) {
            PropOutcome::Prop { prop } => Seq::<DiagnosticV>::empty(),
            PropOutcome::Rejected { diag } => seq![diag],
        }),
    decreases s,
{
    if s.len() == 0 {
        assert(s.push(a).drop_first() =~= Seq::<crate::node::NodeAttributeV>::empty());
        assert(s.push(a)[0] == a);
        assert(props_of(Seq::<crate::node::NodeAttributeV>::empty()) == Seq::<ComponentPropV>::empty());
        assert(prop_diags(Seq::<crate::node::NodeAttributeV>::empty()) == Seq::<DiagnosticV>::empty());
        assert(props_of(s.push(a)) =~= props_of(s) + (match prop_outcome(a) {
            PropOutcome::Prop { prop } => seq![prop],
            PropOutcome::Rejected { diag } => Seq::<ComponentPropV>::empty(),
        }));
        assert(prop_diags(s.push(a)) =~= prop_diags(s) + (match prop_outcome(a) {
            PropOutcome::Prop { prop } => Seq::<DiagnosticV>::empty(),
            PropOutcome::Rejected { diag } => seq![diag],
        }));
    } else {
        lemma_props_snoc(s.drop_first(), a);
        assert(s.push(a).drop_first() =~= s.drop_first().push(a));
        assert(s.push(a)[0] == s[0]);
        assert(props_of(s.push(a)) =~= props_of(s) + (match prop_outcome(a) {
            PropOutcome::Prop { prop } => seq![prop],
            PropOutcome::Rejected { diag } => Seq::<ComponentPropV>::empty(),
        }));
        assert(prop_diags(s.push(a)) =~= prop_diags(s) + (match prop_outcome(a) {
            PropOutcome::Prop { prop } => Seq::<DiagnosticV>::empty(),
            PropOutcome::Rejected { diag } => seq![diag],
        }));
    }
}

/// The outcome of reading one component attribute.
enum PropRead {
    Prop { prop: ComponentProp },
    Rejected { diag: Diagnostic },
}

/// Reads one component attribute into a prop or a diagnostic.
fn read_prop(attribute: &NodeAttribute) -> (r: PropRead)
    ensures
        match r {
            PropRead::Prop { prop } => prop_outcome(attribute@) == (PropOutcome::Prop {
                prop: prop@,
            }),
            PropRead::Rejected { diag } => prop_outcome(attribute@) == (PropOutcome::Rejected {
                diag: diag@,
            }),
        },
{
    match attribute {
        NodeAttribute::Block { block } => PropRead::Rejected {
            diag: Diagnostic::NonKeyedComponentAttribute,
        },
        NodeAttribute::Attribute { attribute: ka } => {
            match &ka.key {
                TagName::Path { qualified, segments } => {
                    if *qualified || segments.len() != 1 {
                        PropRead::Rejected { diag: Diagnostic::ComplexPropName }
                    } else {
                        let name = clone_bytes(&segments[0]);
                        proof {
                            assert(ka.key@->Path_segments[0] == segments@[0]@);
                        }
                        finish_prop(name, &ka.value)
                    }
                },
                TagName::Punctuated { text } => {
                    let s = normalize_ident(text.as_slice());
                    if check_valid_ident(s.as_slice()) {
                        finish_prop(s, &ka.value)
                    } else {
                        PropRead::Rejected { diag: Diagnostic::InvalidPropName { name: s } }
                    }
                },
                TagName::Block => PropRead::Rejected { diag: Diagnostic::DynamicPropName },
            }
        },
    }
}

/// Finishes one component prop once its name has resolved.
fn finish_prop(name: Vec<u8>, value: &AttrValue) -> (r: PropRead)
    ensures
        match r {
            PropRead::Prop { prop } => prop_with_name(name@, value@) == (PropOutcome::Prop {
                prop: prop@,
            }),
            PropRead::Rejected { diag } => prop_with_name(name@, value@) == (PropOutcome::Rejected {
                diag: diag@,
            }),
        },
{
    match value {
        AttrValue::Binding => PropRead::Rejected { diag: Diagnostic::PropFunction },
        AttrValue::Value { value: v } => accept_unless_reserved(name, clone_expr(v)),
        AttrValue::Missing => accept_unless_reserved(name, Expr::BoolLit { value: true }),
    }
}

/// Rejects the reserved prop name `children`; accepts any other.
fn accept_unless_reserved(name: Vec<u8>, value: Expr) -> (r: PropRead)
    ensures
        match r {
            PropRead::Prop { prop } => prop_unless_reserved(name@, value@) == (PropOutcome::Prop {
                prop: prop@,
            }),
            PropRead::Rejected { diag } => prop_unless_reserved(name@, value@) == (
            PropOutcome::Rejected { diag: diag@ }),
        },
{
    let reserved = [99u8, 104u8, 105u8, 108u8, 100u8, 114u8, 101u8, 110u8];
    if bytes_eq(name.as_slice(), reserved.as_slice()) {
        proof {
            assert(name@ == crate::node::children_name());
        }
        PropRead::Rejected { diag: Diagnostic::ReservedChildrenProp }
    } else {
        proof {
            assert(name@ != crate::node::children_name());
        }
        PropRead::Prop { prop: ComponentProp { name, value } }
    }
}

/// The state of one lowering pass: the configured void-element set and the
/// three output accumulators.
pub struct TemplateParser {
    empty_elements: Vec<Vec<u8>>,
    instructions: Vec<TemplateWriteInstruction>,
    diagnostics: Vec<Diagnostic>,
    ide_helper: IdeHelper,
}

impl View for TemplateParser {
    type V = TemplateV;

    closed spec fn view(&self) -> TemplateV {
        TemplateV {
            instructions: instrs_view(self.instructions@),
            diagnostics: self.diagnostics@.map_values(|d: Diagnostic| d@),
            ide_helper: self.ide_helper@,
        }
    }
}

impl TemplateParser {
    /// The parser's configuration is the standard void-element set.
    pub closed spec fn wf(&self) -> bool {
        bytes_list_view(self.empty_elements@) == void_tag_list()
    }

    /// A fresh parser with empty accumulators.
    pub fn new() -> (p: Self)
        ensures
            p.wf(),
            p@.instructions == Seq::<TemplateWriteInstructionV>::empty(),
            p@.diagnostics == Seq::<DiagnosticV>::empty(),
            p@.ide_helper == IdeHelperV::empty(),
    {
        let p = TemplateParser {
            empty_elements: default_empty_elements(),
            instructions: Vec::new(),
            diagnostics: Vec::new(),
            ide_helper: IdeHelper::new(),
        };
        proof {
            assert(p@.instructions =~= Seq::<TemplateWriteInstructionV>::empty());
            assert(p@.diagnostics =~= Seq::<DiagnosticV>::empty());
        }
        p
    }

    fn push_instr(&mut self, i: TemplateWriteInstruction)
        ensures
            final(self).wf() == old(self).wf(),
            final(self)@.instructions == old(self)@.instructions.push(instr_view(i)),
            final(self)@.diagnostics == old(self)@.diagnostics,
            final(self)@.ide_helper == old(self)@.ide_helper,
    {
        proof {
            lemma_instrs_view_push(self.instructions@, i);
        }
        self.instructions.push(i);
    }

    fn push_diag(&mut self, d: Diagnostic)
        ensures
            final(self).wf() == old(self).wf(),
            final(self)@.instructions == old(self)@.instructions,
            final(self)@.diagnostics == old(self)@.diagnostics.push(d@),
            final(self)@.ide_helper == old(self)@.ide_helper,
    {
        self.diagnostics.push(d);
        proof {
            assert(final(self)@.diagnostics =~= old(self)@.diagnostics.push(d@));
        }
    }

    /// Lowers one node, appending its instructions, diagnostics and hints.
    fn visit_node(&mut self, node: &Node)
        requires
            old(self).wf(),
        ensures
            final(self).wf(),
            final(self)@.instructions == old(self)@.instructions + lower_node(node@).instructions,
            final(self)@.diagnostics == old(self)@.diagnostics + lower_node(node@).diagnostics,
            final(self)@.ide_helper == old(self)@.ide_helper.concat(lower_node(node@).hints),
        decreases *node, 2int,
    {
        let ghost pre = self@;
        let ghost out = lower_node(node@);
        match node {
            Node::Doctype { value } => {
                self.push_instr(TemplateWriteInstruction::Doctype { value: clone_bytes(value) });
            },
            Node::Element { open_tag, close_tag, children } => {
                let t = tag_type(&open_tag.name);
                match t {
                    TagType::Block => {
                        self.push_diag(Diagnostic::DynamicElement);
                    },
                    TagType::Element => {
                        proof {
                            assert(decreases_to!(*node => children@));
                        }
                        self.visit_html_element(open_tag, close_tag, children);
                    },
                    TagType::Component => {
                        proof {
                            assert(decreases_to!(*node => children@));
                        }
                        self.visit_component(open_tag, children);
                    },
                }
            },
            Node::Text { value } => {
                self.push_instr(TemplateWriteInstruction::Text { value: clone_bytes(value) });
            },
            Node::RawText { value } => {
                self.push_instr(TemplateWriteInstruction::RawText { value: clone_bytes(value) });
            },
            Node::Fragment { children } => {
                proof {
                    assert(decreases_to!(*node => children@));
                }
                self.visit_nodes(children);
            },
            Node::Comment { value } => {
                self.push_instr(TemplateWriteInstruction::Comment { value: clone_bytes(value) });
            },
            Node::Block { block } => {
                self.push_instr(TemplateWriteInstruction::DynamicContent {
                    block: clone_dyn_block(block),
                });
            },
        }
        proof {
            assert(final(self)@.instructions =~= pre.instructions + out.instructions);
            assert(final(self)@.diagnostics =~= pre.diagnostics + out.diagnostics);
            assert(final(self)@.ide_helper.open_tag_names =~= pre.ide_helper.concat(
                out.hints).open_tag_names);
            assert(final(self)@.ide_helper.close_tag_names =~= pre.ide_helper.concat(
                out.hints).close_tag_names);
            assert(final(self)@.ide_helper.attr_names =~= pre.ide_helper.concat(
                out.hints).attr_names);
        }
    }

    /// Lowers a list of sibling nodes in order.
    fn visit_nodes(&mut self, nodes: &Vec<Node>)
        requires
            old(self).wf(),
        ensures
            final(self).wf(),
            final(self)@.instructions == old(self)@.instructions + lower_nodes(
                nodes_view(nodes@)).instructions,
            final(self)@.diagnostics == old(self)@.diagnostics + lower_nodes(
                nodes_view(nodes@)).diagnostics,
            final(self)@.ide_helper == old(self)@.ide_helper.concat(lower_nodes(
                nodes_view(nodes@)).hints),
        decreases nodes@, 0int,
    {
        let ghost pre = self@;
        let count = nodes.len();
        let mut i: usize = 0;
        proof {
            lemma_nodes_view_index(nodes@);
        }
        while i < count
            invariant
                self.wf(),
                count == nodes@.len(),
                i <= count,
                self@.instructions == pre.instructions + lower_nodes(
                    nodes_view(nodes@.subrange(0, i as int))).instructions,
                self@.diagnostics == pre.diagnostics + lower_nodes(
                    nodes_view(nodes@.subrange(0, i as int))).diagnostics,
                self@.ide_helper == pre.ide_helper.concat(lower_nodes(
                    nodes_view(nodes@.subrange(0, i as int))).hints),
            decreases count - i,
        {
            proof {
                assert(decreases_to!(nodes@ => nodes@[i as int]));
            }
            let ghost prefix = nodes@.subrange(0, i as int);
            self.visit_node(&nodes[i]);
            proof {
                lemma_nodes_view_index(prefix);
                lemma_nodes_view_index(nodes@.subrange(0, i + 1));
                assert(nodes_view(nodes@.subrange(0, i + 1)) =~= nodes_view(prefix).push(
                    node_view(nodes@[i as int])));
                lemma_lower_nodes_snoc(nodes_view(prefix), node_view(nodes@[i as int]));
                assert(self@.instructions =~= pre.instructions + lower_nodes(
                    nodes_view(nodes@.subrange(0, i + 1))).instructions);
                assert(self@.diagnostics =~= pre.diagnostics + lower_nodes(
                    nodes_view(nodes@.subrange(0, i + 1))).diagnostics);
                assert(self@.ide_helper.open_tag_names =~= pre.ide_helper.concat(lower_nodes(
                    nodes_view(nodes@.subrange(0, i + 1))).hints).open_tag_names);
                assert(self@.ide_helper.close_tag_names =~= pre.ide_helper.concat(lower_nodes(
                    nodes_view(nodes@.subrange(0, i + 1))).hints).close_tag_names);
                assert(self@.ide_helper.attr_names =~= pre.ide_helper.concat(lower_nodes(
                    nodes_view(nodes@.subrange(0, i + 1))).hints).attr_names);
            }
            i = i + 1;
        }
        proof {
            assert(nodes@.subrange(0, count as int) =~= nodes@);
        }
    }

    /// Lowers one attribute of an HTML element.
    fn visit_html_attribute(&mut self, attribute: &NodeAttribute)
        requires
            old(self).wf(),
        ensures
            final(self).wf(),
            final(self)@.instructions == old(self)@.instructions + lower_attr(
                attribute@).instructions,
            final(self)@.diagnostics == old(self)@.diagnostics + lower_attr(
                attribute@).diagnostics,
            final(self)@.ide_helper == old(self)@.ide_helper.concat(lower_attr(attribute@).hints),
    {
        let ghost pre = self@;
        match attribute {
            NodeAttribute::Block { block } => {
                self.push_instr(TemplateWriteInstruction::DynamicAttributes {
                    block: clone_dyn_block(block),
                });
            },
            NodeAttribute::Attribute { attribute: ka } => {
                self.ide_helper.mark_attr_name(tag_name_text(&ka.key));
                self.push_instr(TemplateWriteInstruction::AttributeName {
                    name: clone_tag_name(&ka.key),
                });
                match &ka.value {
                    AttrValue::Binding => {
                        self.push_diag(Diagnostic::AttributeBinding);
                    },
                    AttrValue::Value { value } => {
                        let lowered = match value {
                            Expr::StrLit { value: v } => AttributeValue::Constant {
                                value: clone_bytes(v),
                            },
                            _ => AttributeValue::Expression { expr: clone_expr(value) },
                        };
                        self.push_instr(TemplateWriteInstruction::AttributeValue {
                            value: lowered,
                        });
                    },
                    AttrValue::Missing => {},
                }
            },
        }
        proof {
            assert(final(self)@.instructions =~= pre.instructions + lower_attr(
                attribute@).instructions);
            assert(final(self)@.diagnostics =~= pre.diagnostics + lower_attr(
                attribute@).diagnostics);
            assert(final(self)@.ide_helper.open_tag_names =~= pre.ide_helper.concat(lower_attr(
                attribute@).hints).open_tag_names);
            assert(final(self)@.ide_helper.close_tag_names =~= pre.ide_helper.concat(lower_attr(
                attribute@).hints).close_tag_names);
            assert(final(self)@.ide_helper.attr_names =~= pre.ide_helper.concat(lower_attr(
                attribute@).hints).attr_names);
        }
    }

    /// Lowers the attribute list of an HTML element in order.
    fn visit_html_attributes(&mut self, attributes: &Vec<NodeAttribute>)
        requires
            old(self).wf(),
        ensures
            final(self).wf(),
            final(self)@.instructions == old(self)@.instructions + lower_attrs(
                attributes@.map_values(|a: NodeAttribute| a@)).instructions,
            final(self)@.diagnostics == old(self)@.diagnostics + lower_attrs(
                attributes@.map_values(|a: NodeAttribute| a@)).diagnostics,
            final(self)@.ide_helper == old(self)@.ide_helper.concat(lower_attrs(
                attributes@.map_values(|a: NodeAttribute| a@)).hints),
    {
        let ghost pre = self@;
        let ghost views = attributes@.map_values(|a: NodeAttribute| a@);
        let count = attributes.len();
        let mut i: usize = 0;
        while i < count
            invariant
                self.wf(),
                count == attributes@.len(),
                views == attributes@.map_values(|a: NodeAttribute| a@),
                i <= count,
                self@.instructions == pre.instructions + lower_attrs(
                    views.subrange(0, i as int)).instructions,
                self@.diagnostics == pre.diagnostics + lower_attrs(
                    views.subrange(0, i as int)).diagnostics,
                self@.ide_helper == pre.ide_helper.concat(lower_attrs(
                    views.subrange(0, i as int)).hints),
            decreases count - i,
        {
            self.visit_html_attribute(&attributes[i]);
            proof {
                assert(views.subrange(0, i + 1) =~= views.subrange(0, i as int).push(
                    attributes@[i as int]@));
                lemma_lower_attrs_snoc(views.subrange(0, i as int), attributes@[i as int]@);
                assert(self@.instructions =~= pre.instructions + lower_attrs(
                    views.subrange(0, i + 1)).instructions);
                assert(self@.diagnostics =~= pre.diagnostics + lower_attrs(
                    views.subrange(0, i + 1)).diagnostics);
                assert(self@.ide_helper.open_tag_names =~= pre.ide_helper.concat(lower_attrs(
                    views.subrange(0, i + 1)).hints).open_tag_names);
                assert(self@.ide_helper.close_tag_names =~= pre.ide_helper.concat(lower_attrs(
                    views.subrange(0, i + 1)).hints).close_tag_names);
                assert(self@.ide_helper.attr_names =~= pre.ide_helper.concat(lower_attrs(
                    views.subrange(0, i + 1)).hints).attr_names);
            }
            i = i + 1;
        }
        proof {
            assert(views.subrange(0, count as int) =~= views);
        }
    }

    /// Lowers an element-classified tag.
    fn visit_html_element(
        &mut self,
        open_tag: &crate::node::OpenTag,
        close_tag: &Option<TagName>,
        children: &Vec<Node>,
    )
        requires
            old(self).wf(),
        ensures
            final(self).wf(),
            final(self)@.instructions == old(self)@.instructions + lower_html_element(open_tag@,
                match close_tag {
                    Some(c) => Some(c@),
                    None => None,
                }, nodes_view(children@)).instructions,
            final(self)@.diagnostics == old(self)@.diagnostics + lower_html_element(open_tag@,
                match close_tag {
                    Some(c) => Some(c@),
                    None => None,
                }, nodes_view(children@)).diagnostics,
            final(self)@.ide_helper == old(self)@.ide_helper.concat(lower_html_element(open_tag@,
                match close_tag {
                    Some(c) => Some(c@),
                    None => None,
                }, nodes_view(children@)).hints),
        decreases children@, 1int,
    {
        let ghost pre = self@;
        let ghost out = lower_html_element(open_tag@, match close_tag {
            Some(c) => Some(c@),
            None => None,
        }, nodes_view(children@));
        let text = tag_name_text(&open_tag.name);
        self.ide_helper.mark_open_tag(clone_bytes(&text));
        match close_tag {
            Some(c) => {
                self.ide_helper.mark_close_tag(tag_name_text(c));
            },
            None => {},
        }
        self.push_instr(TemplateWriteInstruction::OpenTagStart {
            name: clone_tag_name(&open_tag.name),
        });
        self.visit_html_attributes(&open_tag.attributes);
        let is_void = crate::node::is_void_tag_name(text.as_slice());
        if is_void {
            self.push_instr(TemplateWriteInstruction::SelfCloseTag);
            if children.len() > 0 {
                self.push_diag(Diagnostic::EmptyElementWithChildren);
            }
        } else {
            self.push_instr(TemplateWriteInstruction::OpenTagEnd);
            self.visit_nodes(children);
            self.push_instr(TemplateWriteInstruction::EndTag {
                name: clone_tag_name(&open_tag.name),
            });
        }
        proof {
            assert(final(self)@.instructions =~= pre.instructions + out.instructions);
            assert(final(self)@.diagnostics =~= pre.diagnostics + out.diagnostics);
            assert(final(self)@.ide_helper.open_tag_names =~= pre.ide_helper.concat(
                out.hints).open_tag_names);
            assert(final(self)@.ide_helper.close_tag_names =~= pre.ide_helper.concat(
                out.hints).close_tag_names);
            assert(final(self)@.ide_helper.attr_names =~= pre.ide_helper.concat(
                out.hints).attr_names);
        }
    }

    /// Lowers the children of a component tag: one lone dynamic block becomes
    /// a direct expression, anything else a nested template, dropped when
    /// empty.
    fn visit_component_children(&self, children: &Vec<Node>) -> (r: Option<Children>)
        ensures
            opt_children_view(r) == lower_component_children(nodes_view(children@)),
        decreases children@, 1int,
    {
        proof {
            lemma_nodes_view_index(children@);
        }
        if children.len() == 1 {
            if let Node::Block { block } = &children[0] {
                proof {
                    assert(nodes_view(children@)[0] == node_view(children@[0]));
                }
                return Some(Children::Expr { block: clone_dyn_block(block) });
            }
        }
        proof {
            if nodes_view(children@).len() == 1 && nodes_view(children@)[0] is Block {
                assert(children@[0] is Block);
            }
        }
        let mut sub = TemplateParser::new();
        sub.visit_nodes(children);
        let template = Template {
            instructions: sub.instructions,
            diagnostics: sub.diagnostics,
            ide_helper: sub.ide_helper,
        };
        proof {
            assert(template_view(template).instructions =~= lower_nodes(
                nodes_view(children@)).instructions);
            assert(template_view(template).diagnostics =~= lower_nodes(
                nodes_view(children@)).diagnostics);
        }
        if template.is_empty() {
            None
        } else {
            Some(Children::Template { template })
        }
    }

    /// Lowers a component tag: children first, then the props in attribute
    /// order, then one `Component` instruction.
    fn visit_component(&mut self, open_tag: &crate::node::OpenTag, children: &Vec<Node>)
        requires
            old(self).wf(),
            tag_class(open_tag@.name) == TagType::Component,
        ensures
            final(self).wf(),
            final(self)@.instructions == old(self)@.instructions + lower_node_component(open_tag@,
                nodes_view(children@)).instructions,
            final(self)@.diagnostics == old(self)@.diagnostics + lower_node_component(open_tag@,
                nodes_view(children@)).diagnostics,
            final(self)@.ide_helper == old(self)@.ide_helper.concat(lower_node_component(open_tag@,
                nodes_view(children@)).hints),
        decreases children@, 2int,
    {
        let ghost pre = self@;
        let children_lowered: Option<Children> = if children.len() > 0 {
            self.visit_component_children(children)
        } else {
            None
        };
        let mut props: Vec<ComponentProp> = Vec::new();
        let ghost views = open_tag.attributes@.map_values(|a: NodeAttribute| a@);
        let count = open_tag.attributes.len();
        let mut i: usize = 0;
        while i < count
            invariant
                self.wf(),
                count == open_tag.attributes@.len(),
                views == open_tag.attributes@.map_values(|a: NodeAttribute| a@),
                i <= count,
                props@.map_values(|p: ComponentProp| p@) == props_of(views.subrange(0, i as int)),
                self@.instructions == pre.instructions,
                self@.diagnostics == pre.diagnostics + prop_diags(views.subrange(0, i as int)),
                self@.ide_helper == pre.ide_helper,
            decreases count - i,
        {
            let outcome = read_prop(&open_tag.attributes[i]);
            match outcome {
                PropRead::Prop { prop } => {
                    props.push(prop);
                },
                PropRead::Rejected { diag } => {
                    self.push_diag(diag);
                },
            }
            proof {
                assert(views.subrange(0, i + 1) =~= views.subrange(0, i as int).push(
                    open_tag.attributes@[i as int]@));
                lemma_props_snoc(views.subrange(0, i as int), open_tag.attributes@[i as int]@);
                assert(props@.map_values(|p: ComponentProp| p@) =~= props_of(
                    views.subrange(0, i + 1)));
                assert(self@.diagnostics =~= pre.diagnostics + prop_diags(
                    views.subrange(0, i + 1)));
            }
            i = i + 1;
        }
        proof {
            assert(views.subrange(0, count as int) =~= views);
        }
        let component = Component {
            path: clone_tag_name(&open_tag.name),
            props,
            children: children_lowered,
        };
        proof {
            assert(component_view(component).children == (if nodes_view(children@).len() > 0 {
                lower_component_children(nodes_view(children@))
            } else {
                None::<ChildrenV>
            }));
        }
        self.push_instr(TemplateWriteInstruction::Component { component });
        proof {
            let out = lower_node_component(open_tag@, nodes_view(children@));
            assert(final(self)@.instructions =~= pre.instructions + out.instructions);
            assert(final(self)@.diagnostics =~= pre.diagnostics + out.diagnostics);
            assert(final(self)@.ide_helper.open_tag_names =~= pre.ide_helper.concat(
                out.hints).open_tag_names);
            assert(final(self)@.ide_helper.close_tag_names =~= pre.ide_helper.concat(
                out.hints).close_tag_names);
            assert(final(self)@.ide_helper.attr_names =~= pre.ide_helper.concat(
                out.hints).attr_names);
        }
    }

    /// Lowers an optional node list into a finished template.
    pub fn parse_nodes(self, nodes: Option<Vec<Node>>) -> (t: Template)
        requires
            self.wf(),
        ensures
            t@.instructions == self@.instructions + lower_nodes(opt_nodes_view(nodes)).instructions,
            t@.diagnostics == self@.diagnostics + lower_nodes(opt_nodes_view(nodes)).diagnostics,
            t@.ide_helper == self@.ide_helper.concat(lower_nodes(opt_nodes_view(nodes)).hints),
    {
        let ghost pre = self@;
        let mut this = self;
        match nodes {
            Some(ns) => {
                if ns.len() > 0 {
                    this.visit_nodes(&ns);
                } else {
                    proof {
                        assert(nodes_view(ns@).len() == 0);
                        assert(lower_nodes(nodes_view(ns@)) == LowerOut::empty());
                    }
                }
            },
            None => {},
        }
        let t = Template {
            instructions: this.instructions,
            diagnostics: this.diagnostics,
            ide_helper: this.ide_helper,
        };
        proof {
            assert(t@.instructions =~= pre.instructions + lower_nodes(
                opt_nodes_view(nodes)).instructions);
            assert(t@.diagnostics =~= pre.diagnostics + lower_nodes(
                opt_nodes_view(nodes)).diagnostics);
            assert(t@.ide_helper.open_tag_names =~= pre.ide_helper.concat(lower_nodes(
                opt_nodes_view(nodes)).hints).open_tag_names);
            assert(t@.ide_helper.close_tag_names =~= pre.ide_helper.concat(lower_nodes(
                opt_nodes_view(nodes)).hints).close_tag_names);
            assert(t@.ide_helper.attr_names =~= pre.ide_helper.concat(lower_nodes(
                opt_nodes_view(nodes)).hints).attr_names);
        }
        t
    }

    /// Lowers the split result of the outside markup parser: its recovered
    /// nodes, and its own diagnostics, which come first in the template.
    pub fn parse(self, nodes: Option<Vec<Node>>, diagnostics: Vec<Diagnostic>) -> (t: Template)
        requires
            self.wf(),
            self@.diagnostics == Seq::<DiagnosticV>::empty(),
        ensures
            t@.instructions == self@.instructions + lower_nodes(opt_nodes_view(nodes)).instructions,
            t@.diagnostics == diagnostics@.map_values(|d: Diagnostic| d@) + lower_nodes(
                opt_nodes_view(nodes)).diagnostics,
            t@.ide_helper == self@.ide_helper.concat(lower_nodes(opt_nodes_view(nodes)).hints),
    {
        let mut this = self;
        this.diagnostics = diagnostics;
        this.parse_nodes(nodes)
    }
}

/// What lowering a component-classified element yields.
pub open spec fn lower_node_component(
    open_tag: crate::node::OpenTagV,
    children: Seq<NodeV>,
) -> LowerOut {
    LowerOut {
        instructions: seq![
            TemplateWriteInstructionV::Component {
                component: crate::template::ComponentV {
                    path: open_tag.name,
                    props: props_of(open_tag.attributes),
                    children: if children.len() > 0 {
                        lower_component_children(children)
                    } else {
                        None
                    },
                },
            },
        ],
        diagnostics: prop_diags(open_tag.attributes),
        hints: IdeHelperV::empty(),
    }
}

} // verus!
