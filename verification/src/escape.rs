use vstd::prelude::*;

verus! {

/// The bytes that the escaper knows a replacement for: `<`, `>`, `&`, `'`,
/// `"`, and the list-delimiter characters tab, newline, carriage return and
/// space.
pub open spec fn is_escapable(b: u8) -> bool {
    ||| b == 60  // '<'
    ||| b == 62  // '>'
    ||| b == 38  // '&'
    ||| b == 39  // '\''
    ||| b == 34  // '"'
    ||| b == 9   // '\t'
    ||| b == 10  // '\n'
    ||| b == 13  // '\r'
    ||| b == 32  // ' '
}

/// The bytes escaped in text context: `<`, `>`, `&`.
pub open spec fn is_text_special(b: u8) -> bool {
    b == 60 || b == 62 || b == 38
}

/// The bytes escaped in attribute-value context: `<`, `>`, `&`, `'`, `"`.
pub open spec fn is_attr_special(b: u8) -> bool {
    b == 60 || b == 62 || b == 38 || b == 39 || b == 34
}

/// The replacement for one byte: the escape sequence for a byte selected for
/// escaping, the byte itself otherwise.
pub open spec fn escape_byte(b: u8, escaped: bool) -> Seq<u8> {
    if escaped {
        if b == 60 {
            seq![38u8, 108u8, 116u8, 59u8]  // &lt;
        } else if b == 62 {
            seq![38u8, 103u8, 116u8, 59u8]  // &gt;
        } else if b == 38 {
            seq![38u8, 97u8, 109u8, 112u8, 59u8]  // &amp;
        } else if b == 39 {
            seq![38u8, 97u8, 112u8, 111u8, 115u8, 59u8]  // &apos;
        } else if b == 34 {
            seq![38u8, 113u8, 117u8, 111u8, 116u8, 59u8]  // &quot;
        } else if b == 9 {
            seq![38u8, 35u8, 57u8, 59u8]  // &#9;
        } else if b == 10 {
            seq![38u8, 35u8, 49u8, 48u8, 59u8]  // &#10;
        } else if b == 13 {
            seq![38u8, 35u8, 49u8, 51u8, 59u8]  // &#13;
        } else if b == 32 {
            seq![38u8, 35u8, 51u8, 50u8, 59u8]  // &#32;
        } else {
            seq![b]
        }
    } else {
        seq![b]
    }
}

/// Byte-by-byte escaping of a whole sequence, selecting bytes with `esc`.
pub open spec fn escape_seq(s: Seq<u8>, esc: spec_fn(u8) -> bool) -> Seq<u8>
    decreases s.len(),
{
    if s.len() == 0 {
        Seq::empty()
    } else {
        escape_byte(s[0], esc(s[0])) + escape_seq(s.drop_first(), esc)
    }
}

/// Text-context escaping: `<`, `>`, `&` replaced by their entities.
pub open spec fn escaped_text(s: Seq<u8>) -> Seq<u8> {
    escape_seq(s, |b: u8| is_text_special(b))
}

/// Attribute-value-context escaping: `'` and `"` are escaped as well.
pub open spec fn escaped_attr(s: Seq<u8>) -> Seq<u8> {
    escape_seq(s, |b: u8| is_attr_special(b))
}

/// Escaping a sequence extended by one byte appends that byte's replacement.
pub proof fn lemma_escape_seq_snoc(s: Seq<u8>, b: u8, esc: spec_fn(u8) -> bool)
    ensures
        escape_seq(s.push(b), esc) == escape_seq(s, esc) + escape_byte(b, esc(b)),
    decreases s.len(),
{
    if s.len() == 0 {
        assert(s.push(b)[0] == b);
        assert(s.push(b).drop_first() =~= Seq::<u8>::empty());
        assert(escape_seq(Seq::<u8>::empty(), esc) =~= Seq::<u8>::empty());
        assert(escape_seq(s.push(b), esc) =~= escape_byte(b, esc(b)));
        assert(escape_seq(s, esc) + escape_byte(b, esc(b)) =~= escape_byte(b, esc(b)));
    } else {
        assert(s.push(b).drop_first() =~= s.drop_first().push(b));
        lemma_escape_seq_snoc(s.drop_first(), b, esc);
        assert(escape_seq(s.push(b), esc) =~= escape_seq(s, esc) + escape_byte(b, esc(b)));
    }
}

/// Escaping distributes over concatenation.
pub proof fn lemma_escape_seq_concat(a: Seq<u8>, b: Seq<u8>, esc: spec_fn(u8) -> bool)
    ensures
        escape_seq(a + b, esc) == escape_seq(a, esc) + escape_seq(b, esc),
    decreases b.len(),
{
    if b.len() == 0 {
        assert(a + b =~= a);
        assert(escape_seq(a, esc) + escape_seq(b, esc) =~= escape_seq(a, esc));
    } else {
        let b0 = b.drop_last();
        lemma_escape_seq_concat(a, b0, esc);
        lemma_escape_seq_snoc(a + b0, b.last(), esc);
        lemma_escape_seq_snoc(b0, b.last(), esc);
        assert((a + b0).push(b.last()) =~= a + b);
        assert(b0.push(b.last()) =~= b);
        assert(escape_seq(a + b, esc) =~= escape_seq(a, esc) + escape_seq(b, esc));
    }
}

/// Pushes the replacement of one byte onto `out`.
fn push_escaped(out: &mut Vec<u8>, b: u8, escaped: bool)
    requires
        escaped ==> is_escapable(b),
    ensures
        final(out)@ == old(out)@ + escape_byte(b, escaped),
{
    if !escaped {
        out.push(b);
    } else if b == 60 {
        out.push(38); out.push(108); out.push(116); out.push(59);
    } else if b == 62 {
        out.push(38); out.push(103); out.push(116); out.push(59);
    } else if b == 38 {
        out.push(38); out.push(97); out.push(109); out.push(112); out.push(59);
    } else if b == 39 {
        out.push(38); out.push(97); out.push(112); out.push(111); out.push(115); out.push(59);
    } else if b == 34 {
        out.push(38); out.push(113); out.push(117); out.push(111); out.push(116); out.push(59);
    } else if b == 9 {
        out.push(38); out.push(35); out.push(57); out.push(59);
    } else if b == 10 {
        out.push(38); out.push(35); out.push(49); out.push(48); out.push(59);
    } else if b == 13 {
        out.push(38); out.push(35); out.push(49); out.push(51); out.push(59);
    } else {
        out.push(38); out.push(35); out.push(51); out.push(50); out.push(59);
    }
    assert(out@ =~= old(out)@ + escape_byte(b, escaped));
}

/// Replaces every byte that `escape_chars` selects with its escape sequence.
/// The ghost predicate `esc` pins down which bytes the closure selects.
pub fn _escape<F: Fn(u8) -> bool>(
    bytes: &[u8],
    escape_chars: F,
    Ghost(esc): Ghost<spec_fn(u8) -> bool>,
) -> (out: Vec<u8>)
    requires
        forall|b: u8| #[trigger] call_requires(escape_chars, (b,)),
        forall|b: u8, r: bool| #[trigger] call_ensures(escape_chars, (b,), r) ==> r == esc(b),
        forall|b: u8| #[trigger] esc(b) ==> is_escapable(b),
    ensures
        out@ == escape_seq(bytes@, esc),
{
    let mut out: Vec<u8> = Vec::new();
    let mut i: usize = 0;
    while i < bytes.len()
        invariant
            i <= bytes@.len(),
            out@ == escape_seq(bytes@.subrange(0, i as int), esc),
            forall|b: u8| #[trigger] call_requires(escape_chars, (b,)),
            forall|b: u8, r: bool| #[trigger] call_ensures(escape_chars, (b,), r) ==> r == esc(b),
            forall|b: u8| #[trigger] esc(b) ==> is_escapable(b),
        decreases bytes@.len() - i,
    {
        let b = bytes[i];
        let selected = escape_chars(b);
        proof {
            lemma_escape_seq_snoc(bytes@.subrange(0, i as int), b, esc);
            assert(bytes@.subrange(0, i as int).push(b) =~= bytes@.subrange(0, i + 1));
        }
        push_escaped(&mut out, b, selected);
        i = i + 1;
    }
    proof {
        assert(bytes@.subrange(0, bytes@.len() as int) =~= bytes@);
    }
    out
}

/// Escapes the five attribute-special characters `<`, `>`, `&`, `'`, `"`.
pub fn attribute(raw: &[u8]) -> (out: Vec<u8>)
    ensures
        out@ == escaped_attr(raw@),
{
    let select = |ch: u8| -> (r: bool)
        ensures
            r == is_attr_special(ch),
        {
            ch == 60 || ch == 62 || ch == 38 || ch == 39 || ch == 34
        };
    _escape(raw, select, Ghost(|b: u8| is_attr_special(b)))
}

/// Escapes the three text-special characters `<`, `>`, `&`.
pub fn text(raw: &[u8]) -> (out: Vec<u8>)
    ensures
        out@ == escaped_text(raw@),
{
    let select = |ch: u8| -> (r: bool)
        ensures
            r == is_text_special(ch),
        {
            ch == 60 || ch == 62 || ch == 38
        };
    _escape(raw, select, Ghost(|b: u8| is_text_special(b)))
}

} // verus!
