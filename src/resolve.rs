//! Joining the outcomes of the fetches that resolve a set of projects.
use vstd::prelude::*;

verus! {

/// How the failure of one fetch bears on a whole resolution.
#[derive(Clone, Copy, Debug, PartialEq, Eq, Structural)]
pub enum FailurePolicy {
    /// Any failed fetch fails the resolution.
    FailFast,
    /// Failed fetches contribute nothing; the others still count.
    BestEffort,
}

/// The ways to choose the projects to search.
pub enum Selector {
    /// Each project by its id, with one fetch per id.
    Ids(Vec<u64>),
    /// Every project of each group, with one paginated listing per group.
    GroupIds(Vec<u64>),
    /// The projects that a search by name finds.
    Name(String),
}

/// The failure policy of each way to resolve: by ids it is fail-fast, the
/// other ways are best-effort.
pub open spec fn policy_of(s: Selector) -> FailurePolicy {
    match s {
        Selector::Ids(_) => FailurePolicy::FailFast,
        _ => FailurePolicy::BestEffort,
    }
}

impl Selector {
    /// The failure policy that resolution by this selector follows.
    pub fn policy(&self) -> (r: FailurePolicy)
        ensures
            r == policy_of(*self),
    {
        match self {
            Selector::Ids(_) => FailurePolicy::FailFast,
            _ => FailurePolicy::BestEffort,
        }
    }
}

/// The items of the successful outcomes, concatenated in order.
pub open spec fn gathered<T>(outcomes: Seq<Result<Vec<T>, String>>) -> Seq<T>
    decreases outcomes.len(),
{
    if outcomes.len() == 0 {
        Seq::empty()
    } else {
        gathered(outcomes.drop_last()) + match outcomes.last() {
            Ok(v) => v@,
            Err(_) => Seq::empty(),
        }
    }
}

/// Whether every fetch succeeded.
pub open spec fn all_ok<T>(outcomes: Seq<Result<Vec<T>, String>>) -> bool {
    forall|i: int| 0 <= i < outcomes.len() ==> (#[trigger] outcomes[i]) is Ok
}

/// Whether `i` is the first failed fetch.
pub open spec fn is_first_error<T>(outcomes: Seq<Result<Vec<T>, String>>, i: int) -> bool {
    &&& 0 <= i < outcomes.len()
    &&& outcomes[i] is Err
    &&& forall|j: int| 0 <= j < i ==> (#[trigger] outcomes[j]) is Ok
}

/// Joins the outcomes of a resolution's fetches, one outcome per fetch, in
/// the order given.
///
/// Best-effort: the items of every successful fetch, concatenated; failures
/// are skipped. Fail-fast: the same where every fetch succeeded, and otherwise
/// the first failure's message and no items. Duplicates are kept.
pub fn combine_outcomes<T>(policy: FailurePolicy, outcomes: Vec<Result<Vec<T>, String>>) -> (r: Result<Vec<T>, String>)
    ensures
        policy == FailurePolicy::BestEffort ==> r is Ok && r->Ok_0@ == gathered(outcomes@),
        policy == FailurePolicy::FailFast ==> (r is Ok <==> all_ok(outcomes@)),
        policy == FailurePolicy::FailFast && r is Ok ==> r->Ok_0@ == gathered(outcomes@),
        policy == FailurePolicy::FailFast && r is Err ==> exists|i: int|
            #[trigger] is_first_error(outcomes@, i) && r->Err_0 == outcomes@[i]->Err_0,
{
    if policy == FailurePolicy::FailFast {
        let first = first_error(&outcomes);
        if first < outcomes.len() {
            match &outcomes[first] {
                Err(m) => {
                    return Err(m.clone());
                },
                Ok(_) => {},
            }
        }
    }
    Ok(gather(outcomes))
}

/// The index of the first failed fetch, or `outcomes.len()` if none failed.
fn first_error<T>(outcomes: &Vec<Result<Vec<T>, String>>) -> (r: usize)
    ensures
        r == outcomes@.len() ==> all_ok(outcomes@),
        r < outcomes@.len() ==> is_first_error(outcomes@, r as int),
        r <= outcomes@.len(),
{
    let mut i: usize = 0;
    while i < outcomes.len()
        invariant
            i <= outcomes@.len(),
            forall|j: int| 0 <= j < i ==> (#[trigger] outcomes@[j]) is Ok,
        decreases outcomes@.len() - i,
    {
        if outcomes[i].is_err() {
            return i;
        }
        i = i + 1;
    }
    i
}

/// The items of the successful outcomes, concatenated in order.
fn gather<T>(outcomes: Vec<Result<Vec<T>, String>>) -> (r: Vec<T>)
    ensures
        r@ == gathered(outcomes@),
{
    let mut rest = outcomes;
    let mut acc: Vec<T> = Vec::new();
    while rest.len() > 0
        invariant
            gathered(outcomes@) == gathered(rest@) + acc@,
        decreases rest@.len(),
    {
        let ghost before = rest@;
        let last = rest.pop().unwrap();
        proof {
            assert(before.drop_last() == rest@);
        }
        match last {
            Ok(mut v) => {
                proof {
                    assert(gathered(outcomes@) =~= gathered(rest@) + (v@ + acc@));
                }
                v.append(&mut acc);
                acc = v;
            },
            Err(_) => {
                proof {
                    assert(gathered(before) =~= gathered(rest@));
                }
            },
        }
    }
    proof {
        assert(acc@ =~= gathered(outcomes@));
    }
    acc
}

} // verus!
