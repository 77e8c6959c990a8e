use vstd::prelude::*;

use crate::content::attr_chunk;
use crate::fmt::{FmtError, HtmlAttributeFormatter, HtmlAttributeValue, HtmlContent, HtmlFormatter};

verus! {

/// The decimal digits of `n`, most significant first.
pub open spec fn dec_rep(n: nat) -> Seq<u8>
    decreases n,
{
    if n < 10 {
        seq![(48 + n) as u8]
    } else {
        dec_rep(n / 10).push((48 + (n % 10)) as u8)
    }
}

/// The decimal form of a possibly negative integer: a `-` sign, then digits.
pub open spec fn int_dec_rep(i: int) -> Seq<u8> {
    if i < 0 {
        seq![45u8] + dec_rep((-i) as nat)
    } else {
        dec_rep(i as nat)
    }
}

/// `"true"` or `"false"` as bytes.
pub open spec fn bool_rep(b: bool) -> Seq<u8> {
    if b {
        seq![116u8, 114u8, 117u8, 101u8]
    } else {
        seq![102u8, 97u8, 108u8, 115u8, 101u8]
    }
}

/// Appends the decimal digits of `n`.
fn push_dec(out: &mut Vec<u8>, n: u128)
    ensures
        final(out)@ == old(out)@ + dec_rep(n as nat),
    decreases n,
{
    if n < 10 {
        out.push(48 + n as u8);
        assert(out@ =~= old(out)@ + dec_rep(n as nat));
    } else {
        push_dec(out, n / 10);
        out.push(48 + (n % 10) as u8);
        assert(out@ =~= old(out)@ + dec_rep(n as nat));
    }
}

/// The decimal digits of an unsigned value.
pub fn dec_bytes_u(n: u128) -> (v: Vec<u8>)
    ensures
        v@ == dec_rep(n as nat),
{
    let mut v: Vec<u8> = Vec::new();
    push_dec(&mut v, n);
    assert(v@ =~= dec_rep(n as nat));
    v
}

/// The decimal form of a signed value, with a leading `-` when negative.
pub fn dec_bytes_i(n: i128) -> (v: Vec<u8>)
    ensures
        v@ == int_dec_rep(n as int),
{
    let mut v: Vec<u8> = Vec::new();
    if n < 0 {
        v.push(45);
        let a: i128 = -(n + 1);
        let m: u128 = (a as u128) + 1;
        assert(m == -(n as int));
        push_dec(&mut v, m);
        assert(v@ =~= int_dec_rep(n as int));
    } else {
        push_dec(&mut v, n as u128);
        assert(v@ =~= int_dec_rep(n as int));
    }
    v
}

impl HtmlContent for bool {
    open spec fn fmt_req(self, pre: Seq<u8>) -> bool {
        true
    }

    open spec fn fmt_ens(self, pre: Seq<u8>, post: Seq<u8>, r: Result<(), FmtError>) -> bool {
        r is Ok && post == pre + bool_rep(self)
    }

    fn fmt(self, formatter: &mut HtmlFormatter) -> (r: Result<(), FmtError>) {
        if self {
            let word = [116u8, 114u8, 117u8, 101u8];
            formatter.write_bytes(word.as_slice());
        } else {
            let word = [102u8, 97u8, 108u8, 115u8, 101u8];
            formatter.write_bytes(word.as_slice());
        }
        Ok(())
    }
}

impl HtmlAttributeValue for bool {
    open spec fn av_req(self, pre: Seq<u8>, pre_any: bool) -> bool {
        true
    }

    open spec fn av_ens(self, pre: Seq<u8>, pre_any: bool, post: Seq<u8>, post_any: bool,
        r: Result<(), FmtError>) -> bool {
        r is Ok && post == pre + attr_chunk(pre_any, bool_rep(self)) && post_any
    }

    fn fmt(self, formatter: &mut HtmlAttributeFormatter) -> (r: Result<(), FmtError>) {
        if self {
            let word = [116u8, 114u8, 117u8, 101u8];
            formatter.write_bytes(word.as_slice());
        } else {
            let word = [102u8, 97u8, 108u8, 115u8, 101u8];
            formatter.write_bytes(word.as_slice());
        }
        assert(final(formatter)@ =~= old(formatter)@
            + attr_chunk(old(formatter).spec_any_written(), bool_rep(self)));
        Ok(())
    }
}

impl HtmlContent for u8 {
    open spec fn fmt_req(self, pre: Seq<u8>) -> bool {
        true
    }

    open spec fn fmt_ens(self, pre: Seq<u8>, post: Seq<u8>, r: Result<(), FmtError>) -> bool {
        r is Ok && post == pre + dec_rep(self as nat)
    }

    fn fmt(self, formatter: &mut HtmlFormatter) -> (r: Result<(), FmtError>) {
        let digits = dec_bytes_u(self as u128);
        formatter.write_bytes(digits.as_slice());
        Ok(())
    }
}

impl HtmlAttributeValue for u8 {
    open spec fn av_req(self, pre: Seq<u8>, pre_any: bool) -> bool {
        true
    }

    open spec fn av_ens(self, pre: Seq<u8>, pre_any: bool, post: Seq<u8>, post_any: bool,
        r: Result<(), FmtError>) -> bool {
        r is Ok && post == pre + attr_chunk(pre_any, dec_rep(self as nat)) && post_any
    }

    fn fmt(self, formatter: &mut HtmlAttributeFormatter) -> (r: Result<(), FmtError>) {
        let digits = dec_bytes_u(self as u128);
        formatter.write_bytes(digits.as_slice());
        assert(final(formatter)@ =~= old(formatter)@
            + attr_chunk(old(formatter).spec_any_written(), dec_rep(self as nat)));
        Ok(())
    }
}

impl HtmlContent for u16 {
    open spec fn fmt_req(self, pre: Seq<u8>) -> bool {
        true
    }

    open spec fn fmt_ens(self, pre: Seq<u8>, post: Seq<u8>, r: Result<(), FmtError>) -> bool {
        r is Ok && post == pre + dec_rep(self as nat)
    }

    fn fmt(self, formatter: &mut HtmlFormatter) -> (r: Result<(), FmtError>) {
        let digits = dec_bytes_u(self as u128);
        formatter.write_bytes(digits.as_slice());
        Ok(())
    }
}

impl HtmlAttributeValue for u16 {
    open spec fn av_req(self, pre: Seq<u8>, pre_any: bool) -> bool {
        true
    }

    open spec fn av_ens(self, pre: Seq<u8>, pre_any: bool, post: Seq<u8>, post_any: bool,
        r: Result<(), FmtError>) -> bool {
        r is Ok && post == pre + attr_chunk(pre_any, dec_rep(self as nat)) && post_any
    }

    fn fmt(self, formatter: &mut HtmlAttributeFormatter) -> (r: Result<(), FmtError>) {
        let digits = dec_bytes_u(self as u128);
        formatter.write_bytes(digits.as_slice());
        assert(final(formatter)@ =~= old(formatter)@
            + attr_chunk(old(formatter).spec_any_written(), dec_rep(self as nat)));
        Ok(())
    }
}

impl HtmlContent for u32 {
    open spec fn fmt_req(self, pre: Seq<u8>) -> bool {
        true
    }

    open spec fn fmt_ens(self, pre: Seq<u8>, post: Seq<u8>, r: Result<(), FmtError>) -> bool {
        r is Ok && post == pre + dec_rep(self as nat)
    }

    fn fmt(self, formatter: &mut HtmlFormatter) -> (r: Result<(), FmtError>) {
        let digits = dec_bytes_u(self as u128);
        formatter.write_bytes(digits.as_slice());
        Ok(())
    }
}

impl HtmlAttributeValue for u32 {
    open spec fn av_req(self, pre: Seq<u8>, pre_any: bool) -> bool {
        true
    }

    open spec fn av_ens(self, pre: Seq<u8>, pre_any: bool, post: Seq<u8>, post_any: bool,
        r: Result<(), FmtError>) -> bool {
        r is Ok && post == pre + attr_chunk(pre_any, dec_rep(self as nat)) && post_any
    }

    fn fmt(self, formatter: &mut HtmlAttributeFormatter) -> (r: Result<(), FmtError>) {
        let digits = dec_bytes_u(self as u128);
        formatter.write_bytes(digits.as_slice());
        assert(final(formatter)@ =~= old(formatter)@
            + attr_chunk(old(formatter).spec_any_written(), dec_rep(self as nat)));
        Ok(())
    }
}

impl HtmlContent for u64 {
    open spec fn fmt_req(self, pre: Seq<u8>) -> bool {
        true
    }

    open spec fn fmt_ens(self, pre: Seq<u8>, post: Seq<u8>, r: Result<(), FmtError>) -> bool {
        r is Ok && post == pre + dec_rep(self as nat)
    }

    fn fmt(self, formatter: &mut HtmlFormatter) -> (r: Result<(), FmtError>) {
        let digits = dec_bytes_u(self as u128);
        formatter.write_bytes(digits.as_slice());
        Ok(())
    }
}

impl HtmlAttributeValue for u64 {
    open spec fn av_req(self, pre: Seq<u8>, pre_any: bool) -> bool {
        true
    }

    open spec fn av_ens(self, pre: Seq<u8>, pre_any: bool, post: Seq<u8>, post_any: bool,
        r: Result<(), FmtError>) -> bool {
        r is Ok && post == pre + attr_chunk(pre_any, dec_rep(self as nat)) && post_any
    }

    fn fmt(self, formatter: &mut HtmlAttributeFormatter) -> (r: Result<(), FmtError>) {
        let digits = dec_bytes_u(self as u128);
        formatter.write_bytes(digits.as_slice());
        assert(final(formatter)@ =~= old(formatter)@
            + attr_chunk(old(formatter).spec_any_written(), dec_rep(self as nat)));
        Ok(())
    }
}

impl HtmlContent for u128 {
    open spec fn fmt_req(self, pre: Seq<u8>) -> bool {
        true
    }

    open spec fn fmt_ens(self, pre: Seq<u8>, post: Seq<u8>, r: Result<(), FmtError>) -> bool {
        r is Ok && post == pre + dec_rep(self as nat)
    }

    fn fmt(self, formatter: &mut HtmlFormatter) -> (r: Result<(), FmtError>) {
        let digits = dec_bytes_u(self as u128);
        formatter.write_bytes(digits.as_slice());
        Ok(())
    }
}

impl HtmlAttributeValue for u128 {
    open spec fn av_req(self, pre: Seq<u8>, pre_any: bool) -> bool {
        true
    }

    open spec fn av_ens(self, pre: Seq<u8>, pre_any: bool, post: Seq<u8>, post_any: bool,
        r: Result<(), FmtError>) -> bool {
        r is Ok && post == pre + attr_chunk(pre_any, dec_rep(self as nat)) && post_any
    }

    fn fmt(self, formatter: &mut HtmlAttributeFormatter) -> (r: Result<(), FmtError>) {
        let digits = dec_bytes_u(self as u128);
        formatter.write_bytes(digits.as_slice());
        assert(final(formatter)@ =~= old(formatter)@
            + attr_chunk(old(formatter).spec_any_written(), dec_rep(self as nat)));
        Ok(())
    }
}

impl HtmlContent for usize {
    open spec fn fmt_req(self, pre: Seq<u8>) -> bool {
        true
    }

    open spec fn fmt_ens(self, pre: Seq<u8>, post: Seq<u8>, r: Result<(), FmtError>) -> bool {
        r is Ok && post == pre + dec_rep(self as nat)
    }

    fn fmt(self, formatter: &mut HtmlFormatter) -> (r: Result<(), FmtError>) {
        let digits = dec_bytes_u(self as u128);
        formatter.write_bytes(digits.as_slice());
        Ok(())
    }
}

impl HtmlAttributeValue for usize {
    open spec fn av_req(self, pre: Seq<u8>, pre_any: bool) -> bool {
        true
    }

    open spec fn av_ens(self, pre: Seq<u8>, pre_any: bool, post: Seq<u8>, post_any: bool,
        r: Result<(), FmtError>) -> bool {
        r is Ok && post == pre + attr_chunk(pre_any, dec_rep(self as nat)) && post_any
    }

    fn fmt(self, formatter: &mut HtmlAttributeFormatter) -> (r: Result<(), FmtError>) {
        let digits = dec_bytes_u(self as u128);
        formatter.write_bytes(digits.as_slice());
        assert(final(formatter)@ =~= old(formatter)@
            + attr_chunk(old(formatter).spec_any_written(), dec_rep(self as nat)));
        Ok(())
    }
}

impl HtmlContent for i8 {
    open spec fn fmt_req(self, pre: Seq<u8>) -> bool {
        true
    }

    open spec fn fmt_ens(self, pre: Seq<u8>, post: Seq<u8>, r: Result<(), FmtError>) -> bool {
        r is Ok && post == pre + int_dec_rep(self as int)
    }

    fn fmt(self, formatter: &mut HtmlFormatter) -> (r: Result<(), FmtError>) {
        let digits = dec_bytes_i(self as i128);
        formatter.write_bytes(digits.as_slice());
        Ok(())
    }
}

impl HtmlAttributeValue for i8 {
    open spec fn av_req(self, pre: Seq<u8>, pre_any: bool) -> bool {
        true
    }

    open spec fn av_ens(self, pre: Seq<u8>, pre_any: bool, post: Seq<u8>, post_any: bool,
        r: Result<(), FmtError>) -> bool {
        r is Ok && post == pre + attr_chunk(pre_any, int_dec_rep(self as int)) && post_any
    }

    fn fmt(self, formatter: &mut HtmlAttributeFormatter) -> (r: Result<(), FmtError>) {
        let digits = dec_bytes_i(self as i128);
        formatter.write_bytes(digits.as_slice());
        assert(final(formatter)@ =~= old(formatter)@
            + attr_chunk(old(formatter).spec_any_written(), int_dec_rep(self as int)));
        Ok(())
    }
}

impl HtmlContent for i16 {
    open spec fn fmt_req(self, pre: Seq<u8>) -> bool {
        true
    }

    open spec fn fmt_ens(self, pre: Seq<u8>, post: Seq<u8>, r: Result<(), FmtError>) -> bool {
        r is Ok && post == pre + int_dec_rep(self as int)
    }

    fn fmt(self, formatter: &mut HtmlFormatter) -> (r: Result<(), FmtError>) {
        let digits = dec_bytes_i(self as i128);
        formatter.write_bytes(digits.as_slice());
        Ok(())
    }
}

impl HtmlAttributeValue for i16 {
    open spec fn av_req(self, pre: Seq<u8>, pre_any: bool) -> bool {
        true
    }

    open spec fn av_ens(self, pre: Seq<u8>, pre_any: bool, post: Seq<u8>, post_any: bool,
        r: Result<(), FmtError>) -> bool {
        r is Ok && post == pre + attr_chunk(pre_any, int_dec_rep(self as int)) && post_any
    }

    fn fmt(self, formatter: &mut HtmlAttributeFormatter) -> (r: Result<(), FmtError>) {
        let digits = dec_bytes_i(self as i128);
        formatter.write_bytes(digits.as_slice());
        assert(final(formatter)@ =~= old(formatter)@
            + attr_chunk(old(formatter).spec_any_written(), int_dec_rep(self as int)));
        Ok(())
    }
}

impl HtmlContent for i32 {
    open spec fn fmt_req(self, pre: Seq<u8>) -> bool {
        true
    }

    open spec fn fmt_ens(self, pre: Seq<u8>, post: Seq<u8>, r: Result<(), FmtError>) -> bool {
        r is Ok && post == pre + int_dec_rep(self as int)
    }

    fn fmt(self, formatter: &mut HtmlFormatter) -> (r: Result<(), FmtError>) {
        let digits = dec_bytes_i(self as i128);
        formatter.write_bytes(digits.as_slice());
        Ok(())
    }
}

impl HtmlAttributeValue for i32 {
    open spec fn av_req(self, pre: Seq<u8>, pre_any: bool) -> bool {
        true
    }

    open spec fn av_ens(self, pre: Seq<u8>, pre_any: bool, post: Seq<u8>, post_any: bool,
        r: Result<(), FmtError>) -> bool {
        r is Ok && post == pre + attr_chunk(pre_any, int_dec_rep(self as int)) && post_any
    }

    fn fmt(self, formatter: &mut HtmlAttributeFormatter) -> (r: Result<(), FmtError>) {
        let digits = dec_bytes_i(self as i128);
        formatter.write_bytes(digits.as_slice());
        assert(final(formatter)@ =~= old(formatter)@
            + attr_chunk(old(formatter).spec_any_written(), int_dec_rep(self as int)));
        Ok(())
    }
}

impl HtmlContent for i64 {
    open spec fn fmt_req(self, pre: Seq<u8>) -> bool {
        true
    }

    open spec fn fmt_ens(self, pre: Seq<u8>, post: Seq<u8>, r: Result<(), FmtError>) -> bool {
        r is Ok && post == pre + int_dec_rep(self as int)
    }

    fn fmt(self, formatter: &mut HtmlFormatter) -> (r: Result<(), FmtError>) {
        let digits = dec_bytes_i(self as i128);
        formatter.write_bytes(digits.as_slice());
        Ok(())
    }
}

impl HtmlAttributeValue for i64 {
    open spec fn av_req(self, pre: Seq<u8>, pre_any: bool) -> bool {
        true
    }

    open spec fn av_ens(self, pre: Seq<u8>, pre_any: bool, post: Seq<u8>, post_any: bool,
        r: Result<(), FmtError>) -> bool {
        r is Ok && post == pre + attr_chunk(pre_any, int_dec_rep(self as int)) && post_any
    }

    fn fmt(self, formatter: &mut HtmlAttributeFormatter) -> (r: Result<(), FmtError>) {
        let digits = dec_bytes_i(self as i128);
        formatter.write_bytes(digits.as_slice());
        assert(final(formatter)@ =~= old(formatter)@
            + attr_chunk(old(formatter).spec_any_written(), int_dec_rep(self as int)));
        Ok(())
    }
}

impl HtmlContent for i128 {
    open spec fn fmt_req(self, pre: Seq<u8>) -> bool {
        true
    }

    open spec fn fmt_ens(self, pre: Seq<u8>, post: Seq<u8>, r: Result<(), FmtError>) -> bool {
        r is Ok && post == pre + int_dec_rep(self as int)
    }

    fn fmt(self, formatter: &mut HtmlFormatter) -> (r: Result<(), FmtError>) {
        let digits = dec_bytes_i(self as i128);
        formatter.write_bytes(digits.as_slice());
        Ok(())
    }
}

impl HtmlAttributeValue for i128 {
    open spec fn av_req(self, pre: Seq<u8>, pre_any: bool) -> bool {
        true
    }

    open spec fn av_ens(self, pre: Seq<u8>, pre_any: bool, post: Seq<u8>, post_any: bool,
        r: Result<(), FmtError>) -> bool {
        r is Ok && post == pre + attr_chunk(pre_any, int_dec_rep(self as int)) && post_any
    }

    fn fmt(self, formatter: &mut HtmlAttributeFormatter) -> (r: Result<(), FmtError>) {
        let digits = dec_bytes_i(self as i128);
        formatter.write_bytes(digits.as_slice());
        assert(final(formatter)@ =~= old(formatter)@
            + attr_chunk(old(formatter).spec_any_written(), int_dec_rep(self as int)));
        Ok(())
    }
}

impl HtmlContent for isize {
    open spec fn fmt_req(self, pre: Seq<u8>) -> bool {
        true
    }

    open spec fn fmt_ens(self, pre: Seq<u8>, post: Seq<u8>, r: Result<(), FmtError>) -> bool {
        r is Ok && post == pre + int_dec_rep(self as int)
    }

    fn fmt(self, formatter: &mut HtmlFormatter) -> (r: Result<(), FmtError>) {
        let digits = dec_bytes_i(self as i128);
        formatter.write_bytes(digits.as_slice());
        Ok(())
    }
}

impl HtmlAttributeValue for isize {
    open spec fn av_req(self, pre: Seq<u8>, pre_any: bool) -> bool {
        true
    }

    open spec fn av_ens(self, pre: Seq<u8>, pre_any: bool, post: Seq<u8>, post_any: bool,
        r: Result<(), FmtError>) -> bool {
        r is Ok && post == pre + attr_chunk(pre_any, int_dec_rep(self as int)) && post_any
    }

    fn fmt(self, formatter: &mut HtmlAttributeFormatter) -> (r: Result<(), FmtError>) {
        let digits = dec_bytes_i(self as i128);
        formatter.write_bytes(digits.as_slice());
        assert(final(formatter)@ =~= old(formatter)@
            + attr_chunk(old(formatter).spec_any_written(), int_dec_rep(self as int)));
        Ok(())
    }
}

} // verus!
