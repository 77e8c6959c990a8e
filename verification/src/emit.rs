use vstd::prelude::*;

use crate::node::{
    clone_bytes, clone_dyn_block, clone_expr, clone_tag_name, name_text, tag_name_text, DynBlock,
    DynBlockV, Expr, ExprV, StmtV,
};
use crate::node::children_name_vec;
use crate::template::{
    instrs_view, lemma_instrs_view_index, AttributeValueV, ComponentPropV,
    ChildrenV, Template, TemplateWriteInstruction, TemplateWriteInstructionV,
};

verus! {

/// The argument handed to a dynamic write: the block itself, or — the one
/// peephole rule — its single bare expression statement unwrapped.
#[derive(Debug)]
pub enum DynArg {
    Expr { expr: Expr },
    Block { block: DynBlock },
}

/// Ghost mirror of [`DynArg`].
pub enum DynArgV {
    Expr { expr: ExprV },
    Block { block: DynBlockV },
}

impl View for DynArg {
    type V = DynArgV;

    open spec fn view(&self) -> DynArgV {
        match self {
            DynArg::Expr { expr } => DynArgV::Expr { expr: expr@ },
            DynArg::Block { block } => DynArgV::Block { block: block@ },
        }
    }
}

/// The value of one field initializer of a constructed component.
#[derive(Debug)]
pub enum PropValue {
    /// An ordinary prop expression.
    Expr { expr: Expr },
    /// The `children` field bound to a single dynamic-block expression.
    ChildrenExpr { block: DynBlock },
    /// The `children` field bound to a closure that renders a nested
    /// template: the closure body replays these calls.
    ChildrenTemplate { calls: Vec<FmtCall> },
}

/// Ghost mirror of [`PropValue`].
pub enum PropValueV {
    Expr { expr: ExprV },
    ChildrenExpr { block: DynBlockV },
    ChildrenTemplate { calls: Seq<FmtCallV> },
}

/// One field initializer of a constructed component.
#[derive(Debug)]
pub struct EmittedProp {
    pub name: Vec<u8>,
    pub value: PropValue,
}

/// Ghost mirror of [`EmittedProp`].
pub struct EmittedPropV {
    pub name: Seq<u8>,
    pub value: PropValueV,
}

/// One formatter call of the emitted output code.  Each instruction becomes
/// exactly one call, in order.
#[derive(Debug)]
pub enum FmtCall {
    /// `write_doctype(value)`
    Doctype { value: Vec<u8> },
    /// `write_open_tag_start(name)`
    OpenTagStart { name: Vec<u8> },
    /// `write_attribute_name(name)`
    AttributeName { name: Vec<u8> },
    /// `write_attribute_value(value)` with a constant string value
    AttributeValueConstant { value: Vec<u8> },
    /// `write_attribute_value(expr)`
    AttributeValueExpression { expr: Expr },
    /// `write_open_tag_end()`
    OpenTagEnd,
    /// `write_self_close_tag()`
    SelfCloseTag,
    /// `write_end_tag(name)`
    EndTag { name: Vec<u8> },
    /// `write_bytes(value)`: literal text or raw text
    Bytes { value: Vec<u8> },
    /// `write_comment(value)`
    Comment { value: Vec<u8> },
    /// `write_attributes(arg)`
    DynamicAttributes { arg: DynArg },
    /// `write_content(arg)`
    DynamicContent { arg: DynArg },
    /// `write_content(Path { props... })`: construct and format a component
    Component { path: crate::node::TagName, props: Vec<EmittedProp> },
}

/// Ghost mirror of [`FmtCall`].
pub enum FmtCallV {
    Doctype { value: Seq<u8> },
    OpenTagStart { name: Seq<u8> },
    AttributeName { name: Seq<u8> },
    AttributeValueConstant { value: Seq<u8> },
    AttributeValueExpression { expr: ExprV },
    OpenTagEnd,
    SelfCloseTag,
    EndTag { name: Seq<u8> },
    Bytes { value: Seq<u8> },
    Comment { value: Seq<u8> },
    DynamicAttributes { arg: DynArgV },
    DynamicContent { arg: DynArgV },
    Component { path: crate::node::TagNameV, props: Seq<EmittedPropV> },
}

/// The view of one call.
pub open spec fn call_view(c: FmtCall) -> FmtCallV
    decreases c,
{
    match c {
        FmtCall::Doctype { value } => FmtCallV::Doctype { value: value@ },
        FmtCall::OpenTagStart { name } => FmtCallV::OpenTagStart { name: name@ },
        FmtCall::AttributeName { name } => FmtCallV::AttributeName { name: name@ },
        FmtCall::AttributeValueConstant { value } => FmtCallV::AttributeValueConstant {
            value: value@,
        },
        FmtCall::AttributeValueExpression { expr } => FmtCallV::AttributeValueExpression {
            expr: expr@,
        },
        FmtCall::OpenTagEnd => FmtCallV::OpenTagEnd,
        FmtCall::SelfCloseTag => FmtCallV::SelfCloseTag,
        FmtCall::EndTag { name } => FmtCallV::EndTag { name: name@ },
        FmtCall::Bytes { value } => FmtCallV::Bytes { value: value@ },
        FmtCall::Comment { value } => FmtCallV::Comment { value: value@ },
        FmtCall::DynamicAttributes { arg } => FmtCallV::DynamicAttributes { arg: arg@ },
        FmtCall::DynamicContent { arg } => FmtCallV::DynamicContent { arg: arg@ },
        FmtCall::Component { path, props } => FmtCallV::Component {
            path: path@,
            props: props_view(props@),
        },
    }
}

/// The views of a list of calls.
pub open spec fn calls_view(s: Seq<FmtCall>) -> Seq<FmtCallV>
    decreases s,
{
    if s.len() == 0 {
        Seq::empty()
    } else {
        seq![call_view(s[0])] + calls_view(s.drop_first())
    }
}

/// The views of a list of emitted props.
pub open spec fn props_view(s: Seq<EmittedProp>) -> Seq<EmittedPropV>
    decreases s,
{
    if s.len() == 0 {
        Seq::empty()
    } else {
        seq![prop_view(s[0])] + props_view(s.drop_first())
    }
}

/// The view of one emitted prop.
pub open spec fn prop_view(p: EmittedProp) -> EmittedPropV
    decreases p,
{
    EmittedPropV {
        name: p.name@,
        value: match p.value {
            PropValue::Expr { expr } => PropValueV::Expr { expr: expr@ },
            PropValue::ChildrenExpr { block } => PropValueV::ChildrenExpr { block: block@ },
            PropValue::ChildrenTemplate { calls } => PropValueV::ChildrenTemplate {
                calls: calls_view(calls@),
            },
        },
    }
}

/// A call-list view indexes pointwise into the call views.
pub proof fn lemma_calls_view_index(s: Seq<FmtCall>)
    ensures
        calls_view(s).len() == s.len(),
        forall|i: int| 0 <= i < s.len() ==> calls_view(s)[i] == call_view(s[i]),
    decreases s,
{
    if s.len() > 0 {
        lemma_calls_view_index(s.drop_first());
    }
}

/// View of a pushed call list.
pub proof fn lemma_calls_view_push(s: Seq<FmtCall>, c: FmtCall)
    ensures
        calls_view(s.push(c)) == calls_view(s).push(call_view(c)),
{
    lemma_calls_view_index(s);
    lemma_calls_view_index(s.push(c));
    assert(calls_view(s.push(c)) =~= calls_view(s).push(call_view(c)));
}

// ---------------------------------------------------------------------------
// The emitter, specified
// ---------------------------------------------------------------------------

/// The peephole rule: a block whose body is exactly one expression statement
/// without a semicolon is passed as that expression; any other block is
/// passed whole.
pub open spec fn unwrap_block(b: DynBlockV) -> DynArgV {
    if b matches DynBlockV::Valid { stmts } && stmts.len() == 1 && (stmts[0] matches StmtV::Expr {
        expr,
        semi: false,
    }) {
        DynArgV::Expr { expr: b->Valid_stmts[0]->expr }
    } else {
        DynArgV::Block { block: b }
    }
}

/// The emitted field initializers of a component: its props in order, then a
/// synthesized `children` field when the component has children.
pub open spec fn emit_component_props(
    props: Seq<ComponentPropV>,
    children: Option<ChildrenV>,
) -> Seq<EmittedPropV>
    decreases children, 2int,
{
    props.map_values(|p: ComponentPropV| EmittedPropV {
        name: p.name,
        value: PropValueV::Expr { expr: p.value },
    }) + match children {
        None => Seq::<EmittedPropV>::empty(),
        Some(ChildrenV::Expr { block }) => seq![
            EmittedPropV {
                name: crate::node::children_name(),
                value: PropValueV::ChildrenExpr { block },
            },
        ],
        Some(ChildrenV::Template { template }) => seq![
            EmittedPropV {
                name: crate::node::children_name(),
                value: PropValueV::ChildrenTemplate { calls: emit_instrs(template.instructions) },
            },
        ],
    }
}

/// The one formatter call that an instruction becomes.
pub open spec fn emit_instr(i: TemplateWriteInstructionV) -> FmtCallV
    decreases i, 1int,
{
    match i {
        TemplateWriteInstructionV::Doctype { value } => FmtCallV::Doctype { value },
        TemplateWriteInstructionV::OpenTagStart { name } => FmtCallV::OpenTagStart {
            name: name_text(name),
        },
        TemplateWriteInstructionV::AttributeName { name } => FmtCallV::AttributeName {
            name: name_text(name),
        },
        TemplateWriteInstructionV::AttributeValue { value } => match value {
            AttributeValueV::Constant { value } => FmtCallV::AttributeValueConstant { value },
            AttributeValueV::Expression { expr } => FmtCallV::AttributeValueExpression { expr },
        },
        TemplateWriteInstructionV::OpenTagEnd => FmtCallV::OpenTagEnd,
        TemplateWriteInstructionV::SelfCloseTag => FmtCallV::SelfCloseTag,
        TemplateWriteInstructionV::EndTag { name } => FmtCallV::EndTag { name: name_text(name) },
        TemplateWriteInstructionV::Text { value } => FmtCallV::Bytes { value },
        TemplateWriteInstructionV::RawText { value } => FmtCallV::Bytes { value },
        TemplateWriteInstructionV::Comment { value } => FmtCallV::Comment { value },
        TemplateWriteInstructionV::DynamicAttributes { block } => FmtCallV::DynamicAttributes {
            arg: unwrap_block(block),
        },
        TemplateWriteInstructionV::DynamicContent { block } => FmtCallV::DynamicContent {
            arg: unwrap_block(block),
        },
        TemplateWriteInstructionV::Component { component } => FmtCallV::Component {
            path: component.path,
            props: emit_component_props(component.props, component.children),
        },
    }
}

/// The calls of an instruction list, one per instruction, in order.
pub open spec fn emit_instrs(s: Seq<TemplateWriteInstructionV>) -> Seq<FmtCallV>
    decreases s, 0int,
{
    if s.len() == 0 {
        Seq::empty()
    } else {
        seq![emit_instr(s[0])] + emit_instrs(s.drop_first())
    }
}

/// Emitting one more instruction appends its call.
pub proof fn lemma_emit_instrs_snoc(s: Seq<TemplateWriteInstructionV>, i: TemplateWriteInstructionV)
    ensures
        emit_instrs(s.push(i)) == emit_instrs(s).push(emit_instr(i)),
    decreases s,
{
    if s.len() == 0 {
        assert(s.push(i).drop_first() =~= Seq::<TemplateWriteInstructionV>::empty());
        assert(s.push(i)[0] == i);
        assert(emit_instrs(Seq::<TemplateWriteInstructionV>::empty())
            == Seq::<FmtCallV>::empty());
        assert(emit_instrs(s.push(i)) =~= emit_instrs(s).push(emit_instr(i)));
    } else {
        lemma_emit_instrs_snoc(s.drop_first(), i);
        assert(s.push(i).drop_first() =~= s.drop_first().push(i));
        assert(s.push(i)[0] == s[0]);
        assert(emit_instrs(s.push(i)) =~= emit_instrs(s).push(emit_instr(i)));
    }
}

// ---------------------------------------------------------------------------
// The emitter, executed
// ---------------------------------------------------------------------------

/// Applies the peephole rule to a dynamic block.
fn unwrap_block_exec(b: &DynBlock) -> (r: DynArg)
    ensures
        r@ == unwrap_block(b@),
{
    if let DynBlock::Valid { stmts } = b {
        if stmts.len() == 1 {
            if let crate::node::Stmt::Expr { expr, semi } = &stmts[0] {
                if !*semi {
                    proof {
                        assert(b@->Valid_stmts[0] == stmts@[0]@);
                    }
                    return DynArg::Expr { expr: clone_expr(expr) };
                }
            }
        }
    }
    proof {
        if b@ matches DynBlockV::Valid { stmts } && stmts.len() == 1 && (stmts[0]
            matches StmtV::Expr { expr, semi: false }) {
            assert(b matches DynBlock::Valid { stmts } && stmts@.len() == 1);
        }
    }
    DynArg::Block { block: clone_dyn_block(b) }
}

/// Emits the one call of one instruction.
fn emit_call(i: &TemplateWriteInstruction) -> (r: FmtCall)
    ensures
        call_view(r) == emit_instr(crate::template::instr_view(*i)),
    decreases *i, 1int,
{
    match i {
        TemplateWriteInstruction::Doctype { value } => FmtCall::Doctype {
            value: clone_bytes(value),
        },
        TemplateWriteInstruction::OpenTagStart { name } => FmtCall::OpenTagStart {
            name: tag_name_text(name),
        },
        TemplateWriteInstruction::AttributeName { name } => FmtCall::AttributeName {
            name: tag_name_text(name),
        },
        TemplateWriteInstruction::AttributeValue { value } => match value {
            crate::template::AttributeValue::Constant { value } => FmtCall::AttributeValueConstant {
                value: clone_bytes(value),
            },
            crate::template::AttributeValue::Expression { expr } => FmtCall::AttributeValueExpression {
                expr: clone_expr(expr),
            },
        },
        TemplateWriteInstruction::OpenTagEnd => FmtCall::OpenTagEnd,
        TemplateWriteInstruction::SelfCloseTag => FmtCall::SelfCloseTag,
        TemplateWriteInstruction::EndTag { name } => FmtCall::EndTag { name: tag_name_text(name) },
        TemplateWriteInstruction::Text { value } => FmtCall::Bytes { value: clone_bytes(value) },
        TemplateWriteInstruction::RawText { value } => FmtCall::Bytes { value: clone_bytes(value) },
        TemplateWriteInstruction::Comment { value } => FmtCall::Comment {
            value: clone_bytes(value),
        },
        TemplateWriteInstruction::DynamicAttributes { block } => FmtCall::DynamicAttributes {
            arg: unwrap_block_exec(block),
        },
        TemplateWriteInstruction::DynamicContent { block } => FmtCall::DynamicContent {
            arg: unwrap_block_exec(block),
        },
        TemplateWriteInstruction::Component { component } => {
            let mut props: Vec<EmittedProp> = Vec::new();
            let count = component.props.len();
            let ghost spec_props = component.props@.map_values(|p: crate::template::ComponentProp| p@);
            let mut k: usize = 0;
            while k < count
                invariant
                    count == component.props@.len(),
                    spec_props == component.props@.map_values(
                        |p: crate::template::ComponentProp| p@),
                    k <= count,
                    props_view(props@) == spec_props.subrange(0, k as int).map_values(
                        |p: ComponentPropV| EmittedPropV {
                            name: p.name,
                            value: PropValueV::Expr { expr: p.value },
                        }),
                decreases count - k,
            {
                let p = &component.props[k];
                let ep = EmittedProp {
                    name: clone_bytes(&p.name),
                    value: PropValue::Expr { expr: clone_expr(&p.value) },
                };
                let ghost oldp = props@;
                let ghost epg = ep;
                props.push(ep);
                proof {
                    lemma_props_view_push(oldp, epg);
                    assert(prop_view(epg) == (EmittedPropV {
                        name: spec_props[k as int].name,
                        value: PropValueV::Expr { expr: spec_props[k as int].value },
                    }));
                    assert(props_view(props@) =~= spec_props.subrange(0, k + 1).map_values(
                        |p: ComponentPropV| EmittedPropV {
                            name: p.name,
                            value: PropValueV::Expr { expr: p.value },
                        }));
                }
                k = k + 1;
            }
            proof {
                assert(spec_props.subrange(0, count as int) =~= spec_props);
            }
            let ghost cv = crate::template::component_view(*component);
            match &component.children {
                None => {
                    proof {
                        assert(props_view(props@) =~= emit_component_props(cv.props, cv.children));
                    }
                },
                Some(crate::template::Children::Expr { block }) => {
                    let ep = EmittedProp {
                        name: children_name_vec(),
                        value: PropValue::ChildrenExpr { block: clone_dyn_block(block) },
                    };
                    let ghost oldp = props@;
                    let ghost epg = ep;
                    props.push(ep);
                    proof {
                        lemma_props_view_push(oldp, epg);
                        assert(props_view(props@) =~= emit_component_props(cv.props, cv.children));
                    }
                },
                Some(crate::template::Children::Template { template }) => {
                    proof {
                        let comp = i->Component_component;
                        assert(decreases_to!(*i => comp));
                        assert(decreases_to!(comp => comp.children));
                        assert(decreases_to!(comp.children => comp.children->0));
                        assert(decreases_to!(comp.children->0 => comp.children->0->Template_template));
                    }
                    let calls = emit_template_calls(template);
                    let ep = EmittedProp {
                        name: children_name_vec(),
                        value: PropValue::ChildrenTemplate { calls },
                    };
                    let ghost oldp = props@;
                    let ghost epg = ep;
                    props.push(ep);
                    proof {
                        lemma_props_view_push(oldp, epg);
                        assert(props_view(props@) =~= emit_component_props(cv.props, cv.children));
                    }
                },
            }
            let r = FmtCall::Component { path: clone_tag_name(&component.path), props };
            proof {
                assert(emit_instr(crate::template::instr_view(*i))->Component_props
                    == emit_component_props(cv.props, cv.children));
                assert(call_view(r)->Component_props == props_view(props@));
            }
            r
        },
    }
}

/// A props-list view indexes pointwise into the prop views.
pub proof fn lemma_props_view_index(s: Seq<EmittedProp>)
    ensures
        props_view(s).len() == s.len(),
        forall|i: int| 0 <= i < s.len() ==> props_view(s)[i] == prop_view(s[i]),
    decreases s,
{
    if s.len() > 0 {
        lemma_props_view_index(s.drop_first());
    }
}

/// View of a pushed prop list.
pub proof fn lemma_props_view_push(s: Seq<EmittedProp>, p: EmittedProp)
    ensures
        props_view(s.push(p)) == props_view(s).push(prop_view(p)),
{
    lemma_props_view_index(s);
    lemma_props_view_index(s.push(p));
    assert(props_view(s.push(p)) =~= props_view(s).push(prop_view(p)));
}

/// Emits the calls of a template's instruction list.
fn emit_template_calls(t: &Template) -> (r: Vec<FmtCall>)
    ensures
        calls_view(r@) == emit_instrs(t@.instructions),
    decreases *t, 0int,
{
    let mut calls: Vec<FmtCall> = Vec::new();
    let count = t.instructions.len();
    let mut k: usize = 0;
    proof {
        lemma_instrs_view_index(t.instructions@);
    }
    while k < count
        invariant
            count == t.instructions@.len(),
            k <= count,
            instrs_view(t.instructions@) == t@.instructions,
            instrs_view(t.instructions@).len() == count,
            forall|j: int| 0 <= j < count ==> instrs_view(t.instructions@)[j]
                == crate::template::instr_view(t.instructions@[j]),
            calls_view(calls@) == emit_instrs(t@.instructions.subrange(0, k as int)),
        decreases count - k,
    {
        proof {
            assert(decreases_to!(*t => t.instructions@));
            assert(decreases_to!(t.instructions@ => t.instructions@[k as int]));
        }
        let c = emit_call(&t.instructions[k]);
        let ghost oldc = calls@;
        let ghost cg = c;
        calls.push(c);
        proof {
            lemma_calls_view_push(oldc, cg);
            assert(t@.instructions.subrange(0, k + 1) =~= t@.instructions.subrange(0,
                k as int).push(crate::template::instr_view(t.instructions@[k as int])));
            lemma_emit_instrs_snoc(t@.instructions.subrange(0, k as int),
                crate::template::instr_view(t.instructions@[k as int]));
            assert(calls_view(calls@) =~= emit_instrs(t@.instructions.subrange(0, k + 1)));
        }
        k = k + 1;
    }
    proof {
        assert(t@.instructions.subrange(0, count as int) =~= t@.instructions);
    }
    calls
}

impl Template {
    /// Emits the template's formatter calls: one per instruction, in order,
    /// with the peephole rule applied to dynamic blocks.
    pub fn emit(&self) -> (r: Vec<FmtCall>)
        ensures
            calls_view(r@) == emit_instrs(self@.instructions),
    {
        emit_template_calls(self)
    }
}

} // verus!
