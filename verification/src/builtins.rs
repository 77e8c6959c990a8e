use vstd::prelude::*;

use crate::buffer::bytes_mut_new;
use crate::component::HtmlComponent;
use crate::fmt::{FmtError, HtmlContent, HtmlFormatter};

verus! {

/// Renders a piece of content once per item: the child render closure is
/// invoked for each item of `items`, in input order, with nothing inserted
/// between the renderings.  The closure takes the formatter and one item and
/// hands the formatter back with its result.
pub struct For<T, F> {
    pub items: Vec<T>,
    pub children: F,
}

/// Consecutive formatter states chained by successful closure calls: state
/// `i` and item `i` give state `i + 1`, for every `i` below `upto`.
pub open spec fn for_chain<T, F: Fn(HtmlFormatter, T) -> (HtmlFormatter, Result<(), FmtError>)>(
    children: F,
    items: Seq<T>,
    fs: Seq<HtmlFormatter>,
    upto: int,
) -> bool {
    forall|i: int| 0 <= i < upto ==> call_ensures(children, (fs[i], items[i]), (
        fs[i + 1],
        Ok::<(), FmtError>(()),
    ))
}

impl<T, F: Fn(HtmlFormatter, T) -> (HtmlFormatter, Result<(), FmtError>)> HtmlComponent for For<
    T,
    F,
> {
    type Content = Self;

    open spec fn content_spec(self) -> Self {
        self
    }

    fn into_content(self) -> (r: Self) {
        self
    }
}

impl<T, F: Fn(HtmlFormatter, T) -> (HtmlFormatter, Result<(), FmtError>)> HtmlContent for For<
    T,
    F,
> {
    /// The closure must accept every item, whatever the formatter state.
    open spec fn fmt_req(self, pre: Seq<u8>) -> bool {
        forall|f: HtmlFormatter, i: int| 0 <= i < self.items@.len() ==> #[trigger] call_requires(
            self.children,
            (f, self.items@[i]),
        )
    }

    /// On success, some chain of formatter states runs from the old buffer
    /// to the new one, one successful closure call per item, in input order.
    /// On failure, the chain stops at the first item whose call failed.
    open spec fn fmt_ens(self, pre: Seq<u8>, post: Seq<u8>, r: Result<(), FmtError>) -> bool {
        match r {
            Ok(u) => exists|fs: Seq<HtmlFormatter>|
                {
                    &&& fs.len() == self.items@.len() + 1
                    &&& fs[0]@ == pre
                    &&& fs[fs.len() - 1]@ == post
                    &&& #[trigger] for_chain(self.children, self.items@, fs,
                        self.items@.len() as int)
                },
            Err(e) => exists|fs: Seq<HtmlFormatter>, k: int|
                {
                    &&& 0 <= k < self.items@.len()
                    &&& fs.len() == k + 2
                    &&& fs[0]@ == pre
                    &&& fs[k + 1]@ == post
                    &&& #[trigger] for_chain(self.children, self.items@, fs, k)
                    &&& call_ensures(self.children, (fs[k], self.items@[k]), (
                        fs[k + 1],
                        Err::<(), FmtError>(e),
                    ))
                },
        }
    }

    fn fmt(self, formatter: &mut HtmlFormatter) -> (r: Result<(), FmtError>) {
        let ghost me = self;
        let ghost pre = old(formatter)@;
        let For { items, children } = self;
        let ghost items0 = items@;
        let mut items = items;
        let mut cur = HtmlFormatter::new(bytes_mut_new());
        core::mem::swap(&mut cur, formatter);
        let ghost mut fs: Seq<HtmlFormatter> = seq![cur];
        let ghost mut done: int = 0;
        proof {
            assert(items@ =~= items0.skip(0));
        }
        #[verifier::loop_isolation(false)]
        while items.len() > 0
            invariant
                forall|f: HtmlFormatter, i: int| 0 <= i < items0.len()
                    ==> #[trigger] call_requires(children, (f, items0[i])),
                0 <= done <= items0.len(),
                items@ == items0.skip(done),
                fs.len() == done + 1,
                fs[0]@ == pre,
                fs[done] == cur,
                for_chain(children, items0, fs, done),
            decreases items@.len(),
        {
            let item = items.remove(0);
            proof {
                assert(item == items0[done]);
                assert(items@ =~= items0.skip(done + 1));
            }
            let ghost cur_prev = cur;
            let (f2, res) = (children)(cur, item);
            proof {
                fs = fs.push(f2);
            }
            cur = f2;
            match res {
                Ok(u) => {
                    proof {
                        assert(res == Ok::<(), FmtError>(u));
                        assert(u == ());
                        assert(fs[done] == cur_prev);
                        assert(fs[done + 1] == cur);
                        assert(call_ensures(children, (cur_prev, items0[done]), (
                            cur,
                            Ok::<(), FmtError>(()),
                        )));
                        done = done + 1;
                        assert(for_chain(children, items0, fs, done));
                    }
                },
                Err(e) => {
                    core::mem::swap(formatter, &mut cur);
                    proof {
                        assert(me.items@ == items0);
                        assert(me.children == children);
                        assert(0 <= done < items0.len());
                        assert(fs.len() == done + 2);
                        assert(fs[0]@ == pre);
                        assert(fs[done + 1]@ == final(formatter)@);
                        assert(for_chain(children, items0, fs, done));
                        assert(call_ensures(children, (fs[done], items0[done]), (
                            fs[done + 1],
                            Err::<(), FmtError>(e),
                        )));
                        assert(me.fmt_ens(pre, final(formatter)@, Err(e)));
                    }
                    return Err(e);
                },
            }
        }
        core::mem::swap(formatter, &mut cur);
        proof {
            assert(me.items@ == items0);
            assert(me.children == children);
            assert(done == items0.len());
            assert(fs.len() == items0.len() + 1);
            assert(fs[0]@ == pre);
            assert(fs[fs.len() - 1]@ == final(formatter)@);
            assert(for_chain(children, items0, fs, items0.len() as int));
            assert(me.fmt_ens(pre, final(formatter)@, Ok(())));
        }
        Ok(())
    }
}

} // verus!
