//! Aggregation over any container of investigations: counting how many
//! soundings used each measurement method.

use vstd::prelude::*;
use vstd::pervasive::VecAdditionalExecFns;

use crate::investigation::{Investigation, InvestigationV};
use crate::investigation::method::MethodToken;
use crate::parse_result::{ParseResult, ParseResultV};

verus! {

/// How many investigations in `invs` decoded their method token to `t`.
pub open spec fn spec_count_token(invs: Seq<InvestigationV>, t: MethodToken) -> int
    decreases invs.len(),
{
    if invs.len() == 0 {
        0
    } else {
        spec_count_token(invs.drop_last(), t) + if invs.last().method.token
            == ParseResultV::<MethodToken>::Parsed(t) {
            1int
        } else {
            0int
        }
    }
}

pub proof fn lemma_count_token_le(invs: Seq<InvestigationV>, t: MethodToken)
    ensures
        0 <= spec_count_token(invs, t) <= invs.len(),
    decreases invs.len(),
{
    if invs.len() > 0 {
        lemma_count_token_le(invs.drop_last(), t);
    }
}

/// Extending the counted prefix by one investigation raises exactly the
/// count of that investigation's decoded token.
pub proof fn lemma_count_token_step(invs: Seq<InvestigationV>, i: int, t: MethodToken)
    requires
        0 <= i < invs.len(),
    ensures
        spec_count_token(invs.take(i + 1), t) == spec_count_token(invs.take(i), t) + (
        if invs[i].method.token == ParseResultV::<MethodToken>::Parsed(t) {
            1int
        } else {
            0int
        }),
{
    assert(invs.take(i + 1).drop_last() =~= invs.take(i));
    assert(invs.take(i + 1).last() == invs[i]);
}

/// A container that exposes its investigations in order.
pub trait HasInvestigations {
    spec fn spec_investigations(&self) -> Seq<InvestigationV>;

    fn investigations(&self) -> (r: &Vec<Investigation>)
        ensures
            r.deep_view() == self.spec_investigations(),
    ;
}

/// Derived aggregation over a container of investigations.
pub trait InvestigationAggregator: HasInvestigations {
    /// One entry per method token that at least one investigation decoded,
    /// with the exact number of investigations that used it; tokens appear
    /// at most once.
    fn count_investigations(&self) -> (r: Vec<(MethodToken, usize)>)
        ensures
            forall|p: int, q: int|
                0 <= p < q < r@.len() ==> (#[trigger] r@[p]).0 != (#[trigger] r@[q]).0,
            forall|p: int|
                0 <= p < r@.len() ==> 0 < (#[trigger] r@[p]).1 && r@[p].1 as int
                    == spec_count_token(self.spec_investigations(), r@[p].0),
            forall|t: MethodToken|
                spec_count_token(self.spec_investigations(), t) > 0 ==> exists|p: int|
                    0 <= p < r@.len() && (#[trigger] r@[p]).0 == t,
    {
        let invs = self.investigations();
        let ghost all = self.spec_investigations();
        let mut acc: Vec<(MethodToken, usize)> = Vec::new();
        let n = invs.len();
        let mut i: usize = 0;
        proof {
            assert(all.take(0) =~= Seq::<InvestigationV>::empty());
        }
        while i < n
            invariant
                i <= n,
                n == invs@.len(),
                invs.deep_view() == all,
                forall|p: int, q: int|
                    0 <= p < q < acc@.len() ==> (#[trigger] acc@[p]).0 != (#[trigger] acc@[q]).0,
                forall|p: int|
                    0 <= p < acc@.len() ==> 0 < (#[trigger] acc@[p]).1 && acc@[p].1 as int
                        == spec_count_token(all.take(i as int), acc@[p].0),
                forall|t: MethodToken|
                    spec_count_token(all.take(i as int), t) > 0 ==> exists|p: int|
                        0 <= p < acc@.len() && (#[trigger] acc@[p]).0 == t,
            decreases n - i,
        {
            let ghost gi = i as int;
            let ghost gnext: int = gi + 1;
            let ghost acc0 = acc@;
            proof {
                assert(invs.deep_view()[gi] == invs@[gi].deep_view());
            }
            let tok: Option<MethodToken> = match &invs[i].method.token {
                ParseResult::Parsed(m) => Some(*m),
                _ => None,
            };
            let mut found: Option<usize> = None;
            if let Some(t) = tok {
                proof {
                    assert(all[gi].method.token == ParseResultV::<MethodToken>::Parsed(t));
                }
                let m = acc.len();
                let mut j: usize = 0;
                while j < m
                    invariant
                        j <= m,
                        m == acc@.len(),
                        match found {
                            Some(idx) => idx < m && acc@[idx as int].0 == t,
                            None => forall|p: int| 0 <= p < j ==> (#[trigger] acc@[p]).0 != t,
                        },
                    decreases m - j,
                {
                    if found.is_none() && acc[j].0 == t {
                        found = Some(j);
                    }
                    j = j + 1;
                }
                match found {
                    Some(idx) => {
                        proof {
                            lemma_count_token_le(all.take(gi), t);
                        }
                        let entry = acc[idx];
                        acc.set(idx, (entry.0, entry.1 + 1));
                        proof {
                            assert(acc@ =~= acc0.update(idx as int, (t, (entry.1 + 1) as usize)));
                        }
                    }
                    None => {
                        proof {
                            lemma_count_token_le(all.take(gi), t);
                            if spec_count_token(all.take(gi), t) > 0 {
                                let p = choose|p: int|
                                    0 <= p < acc0.len() && (#[trigger] acc0[p]).0 == t;
                                assert(false);
                            }
                        }
                        acc.push((t, 1));
                        proof {
                            assert(acc@ =~= acc0.push((t, 1usize)));
                        }
                    }
                }
            }
            proof {
                assert forall|p: int| 0 <= p < acc@.len() implies 0 < (#[trigger] acc@[p]).1
                    && acc@[p].1 as int == spec_count_token(all.take(gi + 1), acc@[p].0) by {
                    lemma_count_token_step(all, gi, acc@[p].0);
                    if tok is Some {
                        let t = tok->0;
                        if found is Some {
                            let idx = found->0 as int;
                            if p != idx {
                                assert(acc@[p] == acc0[p]);
                                assert(acc0[idx].0 == t);
                                assert(acc0[p].0 != t);
                            }
                        } else {
                            if p < acc0.len() {
                                assert(acc@[p] == acc0[p]);
                                assert(acc0[p].0 != t);
                            } else {
                                assert(acc@[p] == (t, 1usize));
                                assert(spec_count_token(all.take(gi), t) == 0);
                            }
                        }
                    } else {
                        assert(acc@[p] == acc0[p]);
                        assert(all[gi].method.token != ParseResultV::<MethodToken>::Parsed(
                            acc@[p].0,
                        ));
                    }
                }
                assert forall|t2: MethodToken| #[trigger] spec_count_token(all.take(gnext), t2)
                    > 0 implies exists|p: int| 0 <= p < acc@.len() && (#[trigger] acc@[p]).0
                    == t2 by {
                    lemma_count_token_step(all, gi, t2);
                    if spec_count_token(all.take(gi), t2) > 0 {
                        let p = choose|p: int|
                            0 <= p < acc0.len() && (#[trigger] acc0[p]).0 == t2;
                        assert(acc@[p].0 == t2);
                    } else {
                        assert(all[gi].method.token == ParseResultV::<MethodToken>::Parsed(t2));
                        let t = tok->0;
                        assert(t2 == t);
                        if found is Some {
                            assert(acc@[found->0 as int].0 == t2);
                        } else {
                            assert(acc@[acc0.len() as int].0 == t2);
                        }
                    }
                }
                assert forall|p: int, q: int| 0 <= p < q < acc@.len() implies (
                #[trigger] acc@[p]).0 != (#[trigger] acc@[q]).0 by {
                    if tok is Some && found is None {
                        let t = tok->0;
                        if q == acc0.len() as int {
                            assert(acc@[p] == acc0[p]);
                            assert(acc0[p].0 != t);
                        }
                    }
                }
            }
            i = i + 1;
        }
        proof {
            assert(all.take(n as int) =~= all);
        }
        acc
    }
}

} // verus!
