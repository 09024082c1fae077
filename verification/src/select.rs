//! The recency selector: among a directory's candidates, the newest with
//! the wanted version tag, admitted only when it is dated today or
//! yesterday.

use vstd::prelude::*;
use crate::calendar::{Date, Stamp, opt_lt, is_recent, lemma_opt_lt_trans, lemma_opt_not_lt_lt};
use crate::pattern::Candidate;

verus! {

/// Index of the candidate a scan selects for `version`: the earliest
/// listed among those with that version tag whose timestamp none of them
/// exceeds; nothing when no candidate carries the tag.
pub open spec fn spec_select(cands: Seq<Candidate>, version: Seq<char>) -> Option<int>
    decreases cands.len(),
{
    if cands.len() == 0 {
        Option::None
    } else {
        let prev = spec_select(cands.drop_last(), version);
        let k = cands.len() - 1;
        if cands[k].version@ == version {
            match prev {
                Option::None => Option::Some(k),
                Option::Some(i) => if opt_lt(cands[i].stamp, cands[k].stamp) {
                    Option::Some(k)
                } else {
                    Option::Some(i)
                },
            }
        } else {
            prev
        }
    }
}

/// The selected candidate carries the wanted tag, no candidate with that
/// tag is strictly newer, and every earlier-listed candidate with that tag
/// is strictly older; nothing is selected exactly when no candidate
/// carries the tag.
pub proof fn lemma_select_props(cands: Seq<Candidate>, version: Seq<char>)
    ensures
        match spec_select(cands, version) {
            Option::Some(i) => {
                &&& 0 <= i < cands.len()
                &&& cands[i].version@ == version
                &&& forall|j: int|
                    0 <= j < cands.len() && cands[j].version@ == version ==> !opt_lt(
                        cands[i].stamp,
                        cands[j].stamp,
                    )
                &&& forall|j: int|
                    0 <= j < i && cands[j].version@ == version ==> opt_lt(
                        cands[j].stamp,
                        cands[i].stamp,
                    )
            },
            Option::None => forall|j: int|
                0 <= j < cands.len() ==> cands[j].version@ != version,
        },
    decreases cands.len(),
{
    if cands.len() > 0 {
        let head = cands.drop_last();
        let k = cands.len() - 1;
        lemma_select_props(head, version);
        assert(forall|j: int| 0 <= j < k ==> head[j] == cands[j]);
        match spec_select(head, version) {
            Option::Some(i) => {
                if cands[k].version@ == version && opt_lt(cands[i].stamp, cands[k].stamp) {
                    assert forall|j: int|
                        0 <= j < cands.len() && cands[j].version@ == version implies !opt_lt(
                        cands[k].stamp,
                        cands[j].stamp,
                    ) by {
                        if j < k && opt_lt(cands[k].stamp, cands[j].stamp) {
                            lemma_opt_lt_trans(cands[i].stamp, cands[k].stamp, cands[j].stamp);
                        }
                    }
                    assert forall|j: int|
                        0 <= j < k && cands[j].version@ == version implies opt_lt(
                        cands[j].stamp,
                        cands[k].stamp,
                    ) by {
                        if j < i {
                            lemma_opt_lt_trans(cands[j].stamp, cands[i].stamp, cands[k].stamp);
                        } else {
                            lemma_opt_not_lt_lt(cands[i].stamp, cands[j].stamp, cands[k].stamp);
                        }
                    }
                }
            },
            Option::None => {},
        }
    }
}

/// Whether `st` is a real timestamp dated today or yesterday.
pub open spec fn stamp_recent(st: Option<Stamp>, today: Date) -> bool {
    st matches Option::Some(x) && (x.date == today || x.date == today.prev_spec())
}

/// Parse every name of a directory listing into a candidate, in listing
/// order.
pub fn parse_listing(names: &Vec<String>) -> (cands: Vec<Candidate>)
    ensures
        cands@.len() == names@.len(),
        forall|i: int| 0 <= i < names@.len() ==> cands@[i].parses(names.deep_view()[i]),
{
    let n = names.len();
    let mut cands: Vec<Candidate> = Vec::new();
    let mut i: usize = 0;
    while i < n
        invariant
            i <= n,
            n == names@.len(),
            cands@.len() == i,
            forall|q: int| 0 <= q < i ==> cands@[q].parses(names.deep_view()[q]),
        decreases n - i,
    {
        let c = crate::pattern::parse_candidate(names[i].as_str());
        cands.push(c);
        i += 1;
    }
    cands
}

/// Index of the newest candidate carrying `version`, as `spec_select`
/// describes, before any recency check.
pub fn select_latest(cands: &Vec<Candidate>, version: &str) -> (r: Option<usize>)
    ensures
        match r {
            Option::Some(i) => spec_select(cands@, version@) == Option::Some(i as int),
            Option::None => spec_select(cands@, version@) is None,
        },
{
    let n = cands.len();
    let mut best: Option<usize> = Option::None;
    let mut j: usize = 0;
    proof {
        assert(cands@.take(0) =~= Seq::<Candidate>::empty());
    }
    while j < n
        invariant
            j <= n,
            n == cands@.len(),
            match best {
                Option::Some(i) => i < j && spec_select(cands@.take(j as int), version@)
                    == Option::Some(i as int),
                Option::None => spec_select(cands@.take(j as int), version@) is None,
            },
        decreases n - j,
    {
        let ghost pre = cands@.take(j as int);
        let ghost post = cands@.take(j + 1);
        proof {
            assert(post.drop_last() =~= pre);
            assert(post[j as int] == cands@[j as int]);
        }
        if crate::text::str_eq(cands[j].version.as_str(), version) {
            match best {
                Option::None => {
                    best = Option::Some(j);
                },
                Option::Some(i) => {
                    if crate::calendar::opt_before(&cands[i].stamp, &cands[j].stamp) {
                        best = Option::Some(j);
                    }
                },
            }
        }
        j += 1;
    }
    proof {
        assert(cands@.take(n as int) =~= cands@);
    }
    best
}

/// Select for `version` and admit the result only when its timestamp is
/// dated today or yesterday relative to `today`: what comes back is never
/// older than yesterday, and a selection is withheld exactly when no
/// candidate carries the tag or the newest tagged candidate is stale.
pub fn select_recent(cands: &Vec<Candidate>, version: &str, today: Date) -> (r: Option<usize>)
    requires
        today.wf(),
        today.year >= 1,
    ensures
        ({
            let sel = spec_select(cands@, version@);
            match r {
                Option::Some(i) => sel == Option::Some(i as int) && stamp_recent(
                    cands@[i as int].stamp,
                    today,
                ),
                Option::None => sel is None || !stamp_recent(cands@[sel->0].stamp, today),
            }
        }),
{
    match select_latest(cands, version) {
        Option::None => Option::None,
        Option::Some(i) => {
            proof {
                lemma_select_props(cands@, version@);
            }
            match &cands[i].stamp {
                Option::None => Option::None,
                Option::Some(st) => {
                    if is_recent(st.date, today) {
                        Option::Some(i)
                    } else {
                        Option::None
                    }
                },
            }
        },
    }
}

} // verus!
