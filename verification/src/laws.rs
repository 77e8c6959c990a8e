use vstd::prelude::*;

use crate::emit::{emit_instr, emit_instrs, FmtCallV};
use crate::escape::{escape_byte, escaped_attr, escaped_text, is_attr_special, is_text_special,
    lemma_escape_seq_snoc};
use crate::node::{
    is_void_tag, name_text, tag_class, AttrValueV, DiagnosticV, DynBlockV, KeyedAttributeV,
    NodeAttributeV, NodeV, OpenTagV, TagNameV, TagType,
};
use crate::render::{call_bytes, call_renderable, call_uses, env_matches, render_bytes,
    RenderValueV};
use crate::template::{
    lower_attrs, lower_component_children, lower_node, lower_nodes, props_of, ChildrenV, LowerOut,
    TemplateWriteInstructionV,
};

verus! {

/// An element with no attributes and no children lowers to exactly
/// `OpenTagStart, OpenTagEnd, EndTag`, with no diagnostics; and whether the
/// source wrote a separate close tag or a self-closing form makes no
/// difference to the instructions — `<div></div>` and `<div />` come out the
/// same.
pub proof fn lemma_plain_element_round_trip(
    name: TagNameV,
    close_tag: Option<TagNameV>,
    other_close: Option<TagNameV>,
)
    requires
        tag_class(name) == TagType::Element,
        !is_void_tag(name_text(name)),
    ensures
        lower_node(NodeV::Element {
            open_tag: OpenTagV { name, attributes: Seq::empty() },
            close_tag,
            children: Seq::empty(),
        }).instructions =~= seq![
            TemplateWriteInstructionV::OpenTagStart { name },
            TemplateWriteInstructionV::OpenTagEnd,
            TemplateWriteInstructionV::EndTag { name },
        ],
        lower_node(NodeV::Element {
            open_tag: OpenTagV { name, attributes: Seq::empty() },
            close_tag,
            children: Seq::empty(),
        }).diagnostics =~= Seq::<DiagnosticV>::empty(),
        lower_node(NodeV::Element {
            open_tag: OpenTagV { name, attributes: Seq::empty() },
            close_tag,
            children: Seq::empty(),
        }).instructions == lower_node(NodeV::Element {
            open_tag: OpenTagV { name, attributes: Seq::empty() },
            close_tag: other_close,
            children: Seq::empty(),
        }).instructions,
{
    assert(lower_attrs(Seq::<NodeAttributeV>::empty()) == LowerOut::empty());
    assert(lower_nodes(Seq::<NodeV>::empty()) == LowerOut::empty());
}

/// No instruction that the attribute lowering yields is an `EndTag`, an
/// `OpenTagEnd` or a `SelfCloseTag`.
pub proof fn lemma_lower_attrs_shape(attrs: Seq<NodeAttributeV>)
    ensures
        forall|i: int| 0 <= i < lower_attrs(attrs).instructions.len() ==> {
            let instr = #[trigger] lower_attrs(attrs).instructions[i];
            !(instr is EndTag) && !(instr is OpenTagEnd) && !(instr is SelfCloseTag)
        },
    decreases attrs,
{
    if attrs.len() > 0 {
        lemma_lower_attrs_shape(attrs.drop_first());
    }
}

/// A void tag always lowers to `OpenTagStart`, its attributes, and a
/// `SelfCloseTag`, and never contains an `EndTag`; supplying children adds
/// one diagnostic but the element still degrades to the same valid
/// self-close — the children change no instruction.
pub proof fn lemma_void_element_self_closes(
    open_tag: OpenTagV,
    close_tag: Option<TagNameV>,
    children: Seq<NodeV>,
)
    requires
        tag_class(open_tag.name) == TagType::Element,
        is_void_tag(name_text(open_tag.name)),
    ensures
        lower_node(NodeV::Element { open_tag, close_tag, children }).instructions =~= seq![
            TemplateWriteInstructionV::OpenTagStart { name: open_tag.name },
        ] + lower_attrs(open_tag.attributes).instructions + seq![
            TemplateWriteInstructionV::SelfCloseTag,
        ],
        forall|i: int| 0 <= i < lower_node(NodeV::Element { open_tag, close_tag,
            children }).instructions.len() ==> !(#[trigger] lower_node(NodeV::Element { open_tag,
            close_tag, children }).instructions[i] is EndTag),
        lower_node(NodeV::Element { open_tag, close_tag, children }).instructions == lower_node(
            NodeV::Element { open_tag, close_tag, children: Seq::empty() },
        ).instructions,
        children.len() > 0 ==> lower_node(NodeV::Element { open_tag, close_tag,
            children }).diagnostics =~= lower_attrs(open_tag.attributes).diagnostics + seq![
            DiagnosticV::EmptyElementWithChildren,
        ],
{
    lemma_lower_attrs_shape(open_tag.attributes);
    let out = lower_node(NodeV::Element { open_tag, close_tag, children });
    assert forall|i: int| 0 <= i < out.instructions.len() implies !(#[trigger] out.instructions[i]
        is EndTag) by {
        let attr_instrs = lower_attrs(open_tag.attributes).instructions;
        if 1 <= i < 1 + attr_instrs.len() {
            assert(out.instructions[i] == attr_instrs[i - 1]);
        }
    }
}

/// Fragments are transparent: a fragment lowers to exactly what its children
/// lower to, with no wrapping instruction.
pub proof fn lemma_fragment_transparent(children: Seq<NodeV>)
    ensures
        lower_node(NodeV::Fragment { children }) == lower_nodes(children),
{
}

/// A component tag whose children are exactly one dynamic block, and nothing
/// else, binds its children to that expression directly, never to a nested
/// template closure.
pub proof fn lemma_single_block_child_is_expr(children: Seq<NodeV>, block: DynBlockV)
    requires
        children =~= seq![NodeV::Block { block }],
    ensures
        lower_component_children(children) == Some(ChildrenV::Expr { block }),
{
    assert(children[0] is Block);
}

/// A prop literally named `children` is always rejected, whatever the shape
/// of its value: no accepted prop of any component attribute list carries
/// the reserved name.
pub proof fn lemma_children_prop_always_rejected(attrs: Seq<NodeAttributeV>)
    ensures
        forall|i: int| 0 <= i < props_of(attrs).len() ==> (#[trigger] props_of(attrs)[i]).name
            != crate::node::children_name(),
    decreases attrs,
{
    if attrs.len() > 0 {
        lemma_children_prop_always_rejected(attrs.drop_first());
    }
}

/// An explicit `children` prop yields the reserved-name diagnostic whenever
/// its name resolves to `children` and its value is an ordinary one — a
/// literal, an expression, or no value at all.
pub proof fn lemma_children_prop_diagnostic(key_segments: Seq<Seq<u8>>, value: AttrValueV)
    requires
        key_segments =~= seq![crate::node::children_name()],
        !(value is Binding),
    ensures
        crate::template::prop_outcome(NodeAttributeV::Attribute {
            attribute: KeyedAttributeV {
                key: TagNameV::Path { qualified: false, segments: key_segments },
                value,
            },
        }) == (crate::template::PropOutcome::Rejected {
            diag: DiagnosticV::ReservedChildrenProp,
        }),
{
}

/// Lowering is a pure function of the node tree: the same tree lowers to the
/// same instructions, diagnostics and hints, every time.
pub proof fn lemma_lowering_idempotent(first: Seq<NodeV>, second: Seq<NodeV>)
    requires
        first == second,
    ensures
        lower_nodes(first) == lower_nodes(second),
{
}

/// A keyed attribute without a value lowers to an `AttributeName` with no
/// following `AttributeValue`: the presence attribute renders as the bare
/// name, with no `=""`.
pub proof fn lemma_presence_attribute(key: TagNameV)
    ensures
        crate::template::lower_attr(NodeAttributeV::Attribute {
            attribute: KeyedAttributeV { key, value: AttrValueV::Missing },
        }).instructions =~= seq![TemplateWriteInstructionV::AttributeName { name: key }],
        crate::template::lower_attr(NodeAttributeV::Attribute {
            attribute: KeyedAttributeV { key, value: AttrValueV::Missing },
        }).diagnostics =~= Seq::<DiagnosticV>::empty(),
{
}

/// Whether a call is fixed by the template itself: it consumes no run-time
/// value and can be replayed.
pub open spec fn call_static(c: FmtCallV) -> bool {
    call_uses(c) == 0 && call_renderable(c)
}

/// Whether every instruction of a list emits a static call.
pub open spec fn instrs_static(s: Seq<TemplateWriteInstructionV>) -> bool {
    forall|i: int| 0 <= i < s.len() ==> call_static(#[trigger] emit_instr(s[i]))
}

/// The serialization of a static instruction list: each instruction's own
/// bytes, concatenated in order.
pub open spec fn static_bytes(s: Seq<TemplateWriteInstructionV>) -> Seq<u8>
    decreases s,
{
    if s.len() == 0 {
        Seq::empty()
    } else {
        call_bytes(emit_instr(s[0]), None) + static_bytes(s.drop_first())
    }
}

/// The instruction-sequence invariant, for templates with no dynamic part:
/// the emitted calls, replayed in order against a formatter with an empty
/// environment, append exactly the serialized markup — no instruction is
/// skipped or reordered.
pub proof fn lemma_static_instructions_serialize(s: Seq<TemplateWriteInstructionV>)
    requires
        instrs_static(s),
    ensures
        env_matches(emit_instrs(s), Seq::<RenderValueV>::empty()),
        render_bytes(emit_instrs(s), Seq::<RenderValueV>::empty()) == static_bytes(s),
    decreases s,
{
    if s.len() == 0 {
    } else {
        assert(call_static(emit_instr(s[0])));
        assert(forall|i: int| 0 <= i < s.drop_first().len() ==> call_static(
            #[trigger] emit_instr(s.drop_first()[i]))) by {
            assert(forall|i: int| 0 <= i < s.drop_first().len() ==> s.drop_first()[i] == s[i + 1]);
        }
        lemma_static_instructions_serialize(s.drop_first());
        let calls = emit_instrs(s);
        assert(calls[0] == emit_instr(s[0]));
        assert(calls.drop_first() =~= emit_instrs(s.drop_first()));
        assert(Seq::<RenderValueV>::empty().skip(0) =~= Seq::<RenderValueV>::empty());
        assert(render_bytes(calls, Seq::<RenderValueV>::empty()) =~= static_bytes(s));
    }
}


/// Text-context escaping, character by character: `<`, `>` and `&` become
/// `&lt;`, `&gt;` and `&amp;`, and every other byte stands as it is.  In
/// attribute-value context, `'` and `"` are additionally escaped, to
/// `&apos;` and `&quot;`.
pub proof fn lemma_escaping_per_byte(s: Seq<u8>, b: u8)
    ensures
        escaped_text(s.push(b)) == escaped_text(s) + escape_byte(b, is_text_special(b)),
        escaped_attr(s.push(b)) == escaped_attr(s) + escape_byte(b, is_attr_special(b)),
        is_text_special(b) <==> (b == 60 || b == 62 || b == 38),
        is_attr_special(b) <==> (b == 60 || b == 62 || b == 38 || b == 39 || b == 34),
        escape_byte(60u8, true) == seq![38u8, 108u8, 116u8, 59u8],
        escape_byte(62u8, true) == seq![38u8, 103u8, 116u8, 59u8],
        escape_byte(38u8, true) == seq![38u8, 97u8, 109u8, 112u8, 59u8],
        escape_byte(39u8, true) == seq![38u8, 97u8, 112u8, 111u8, 115u8, 59u8],
        escape_byte(34u8, true) == seq![38u8, 113u8, 117u8, 111u8, 116u8, 59u8],
        escape_byte(b, false) == seq![b],
{
    lemma_escape_seq_snoc(s, b, |x: u8| is_text_special(x));
    lemma_escape_seq_snoc(s, b, |x: u8| is_attr_special(x));
}


} // verus!
