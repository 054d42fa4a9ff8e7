//! Per-project search records: starting one, finishing it with the outcome of
//! its page walk, and joining the matches with project metadata.
use vstd::prelude::*;
use crate::model::{presents, Project, ReturnResult, SearchBlob, SearchResult, FAILED_COUNT};

verus! {

/// The index of the last project in `projects` whose id is `id`, or `-1`.
pub open spec fn last_with_id(projects: Seq<Project>, id: i64) -> int
    decreases projects.len(),
{
    if projects.len() == 0 {
        -1
    } else if projects.last().id == id {
        projects.len() - 1
    } else {
        last_with_id(projects.drop_last(), id)
    }
}

/// The widest project name, in characters, and never under the minimum.
pub open spec fn column_width(projects: Seq<Project>) -> nat
    decreases projects.len(),
{
    if projects.len() == 0 {
        MIN_COLUMN_WIDTH as nat
    } else {
        let rest = column_width(projects.drop_last());
        let here = projects.last().name@.len();
        if here > rest { here } else { rest }
    }
}

/// The smallest width of the project column in a progress report.
pub const MIN_COLUMN_WIDTH: usize = 30;

proof fn lemma_last_with_id_bounds(projects: Seq<Project>, id: i64)
    ensures
        -1 <= last_with_id(projects, id) < projects.len(),
        last_with_id(projects, id) >= 0 ==> projects[last_with_id(projects, id)].id == id,
        last_with_id(projects, id) == -1 ==> forall|k: int| 0 <= k < projects.len() ==> projects[k].id != id,
    decreases projects.len(),
{
    if projects.len() > 0 {
        let rest = projects.drop_last();
        lemma_last_with_id_bounds(rest, id);
        assert forall|k: int| 0 <= k < rest.len() implies rest[k] == projects[k] by {}
    }
}

/// The column width of a progress report over `projects`: the length of the
/// longest project name, at least `MIN_COLUMN_WIDTH`.
pub fn get_len(projects: &Vec<Project>) -> (r: usize)
    ensures
        r as nat == column_width(projects@),
        r >= MIN_COLUMN_WIDTH,
        forall|k: int| 0 <= k < projects@.len() ==> r >= projects@[k].name@.len(),
{
    let mut max: usize = MIN_COLUMN_WIDTH;
    let mut i: usize = 0;
    while i < projects.len()
        invariant
            i <= projects@.len(),
            max as nat == column_width(projects@.subrange(0, i as int)),
            max >= MIN_COLUMN_WIDTH,
            forall|k: int| 0 <= k < i ==> max >= projects@[k].name@.len(),
        decreases projects@.len() - i,
    {
        let n = projects[i].name.as_str().unicode_len();
        proof {
            assert(projects@.subrange(0, i as int + 1).drop_last() =~= projects@.subrange(0, i as int));
        }
        if n > max {
            max = n;
        }
        i = i + 1;
    }
    proof {
        assert(projects@.subrange(0, i as int) =~= projects@);
    }
    max
}

/// A search record for `p` before its search has run: no matches, no error.
pub fn start_search(p: &Project) -> (r: SearchResult)
    ensures
        r.id == p.id,
        r.name@ == p.name@,
        r.count == 0,
        r.error@.len() == 0,
        r.debug_url@.len() == 0,
        r.search_blob_list@.len() == 0,
        r.result_list@.len() == 0,
        r.wf(),
{
    SearchResult {
        id: p.id,
        name: p.name.clone(),
        count: 0,
        error: String::new(),
        debug_url: String::new(),
        search_blob_list: Vec::new(),
        result_list: Vec::new(),
    }
}

/// Records the outcome of a project's blob search in `sr`.
///
/// On success the matches are stored and the count becomes their number,
/// unless the record already carries the failure sentinel. On failure the
/// count becomes `-1`, the error holds the failure's description, and no
/// matches are kept.
pub fn finish_search(sr: &mut SearchResult, outcome: Result<Vec<SearchBlob>, String>)
    requires
        old(sr).wf(),
        outcome is Ok ==> outcome->Ok_0@.len() <= i32::MAX,
        outcome is Err ==> outcome->Err_0@.len() > 0,
    ensures
        final(sr).wf(),
        final(sr).id == old(sr).id,
        final(sr).name == old(sr).name,
        final(sr).debug_url == old(sr).debug_url,
        final(sr).result_list == old(sr).result_list,
        outcome is Ok ==> {
            &&& final(sr).search_blob_list@ == outcome->Ok_0@
            &&& final(sr).error == old(sr).error
            &&& old(sr).count == FAILED_COUNT ==> final(sr).count == FAILED_COUNT
            &&& old(sr).count != FAILED_COUNT ==> final(sr).count as int == outcome->Ok_0@.len()
        },
        outcome is Err ==> {
            &&& final(sr).count == FAILED_COUNT
            &&& final(sr).error@ == outcome->Err_0@
            &&& final(sr).search_blob_list@.len() == 0
        },
{
    match outcome {
        Ok(blobs) => {
            if sr.count != FAILED_COUNT {
                sr.count = blobs.len() as i32;
            }
            sr.search_blob_list = blobs;
        },
        Err(msg) => {
            sr.count = FAILED_COUNT;
            sr.error = msg;
            sr.search_blob_list = Vec::new();
        },
    }
}

/// The display records of `blobs` under project `p`, one per match, in order.
pub fn present_all(p: &Project, blobs: &Vec<SearchBlob>) -> (r: Vec<ReturnResult>)
    ensures
        r@.len() == blobs@.len(),
        forall|j: int| 0 <= j < blobs@.len() ==> presents(#[trigger] r@[j], *p, blobs@[j]),
{
    let mut list: Vec<ReturnResult> = Vec::new();
    let mut j: usize = 0;
    while j < blobs.len()
        invariant
            j <= blobs@.len(),
            list@.len() == j,
            forall|t: int| 0 <= t < j ==> presents(#[trigger] list@[t], *p, blobs@[t]),
        decreases blobs@.len() - j,
    {
        let rr = blobs[j].present(p);
        list.push(rr);
        j = j + 1;
    }
    list
}

/// Joins each search record with its project: where a project of `projects`
/// has the record's id (the last such one, when several do), the record's
/// `result_list` becomes one display record per match, in the order of the
/// matches. Records without a project keep their list. Nothing else changes,
/// and the records keep their order.
pub fn aggregate(projects: &Vec<Project>, results: Vec<SearchResult>) -> (r: Vec<SearchResult>)
    ensures
        r@.len() == results@.len(),
        forall|i: int| 0 <= i < r@.len() ==> {
            let before = #[trigger] results@[i];
            let after = r@[i];
            let k = last_with_id(projects@, before.id);
            &&& after.id == before.id
            &&& after.name == before.name
            &&& after.count == before.count
            &&& after.error == before.error
            &&& after.debug_url == before.debug_url
            &&& after.search_blob_list == before.search_blob_list
            &&& (k == -1 ==> after.result_list == before.result_list)
            &&& (k != -1 ==> {
                &&& after.result_list@.len() == before.search_blob_list@.len()
                &&& forall|j: int| 0 <= j < after.result_list@.len() ==>
                    presents(#[trigger] after.result_list@[j], projects@[k], before.search_blob_list@[j])
            })
        },
{
    let mut out = results;
    let mut i: usize = 0;
    while i < out.len()
        invariant
            i <= out@.len(),
            out@.len() == results@.len(),
            forall|t: int| i <= t < out@.len() ==> out@[t] == results@[t],
            forall|t: int| 0 <= t < i ==> {
                let before = #[trigger] results@[t];
                let after = out@[t];
                let k = last_with_id(projects@, before.id);
                &&& after.id == before.id
                &&& after.name == before.name
                &&& after.count == before.count
                &&& after.error == before.error
                &&& after.debug_url == before.debug_url
                &&& after.search_blob_list == before.search_blob_list
                &&& (k == -1 ==> after.result_list == before.result_list)
                &&& (k != -1 ==> {
                    &&& after.result_list@.len() == before.search_blob_list@.len()
                    &&& forall|j: int| 0 <= j < after.result_list@.len() ==>
                        presents(#[trigger] after.result_list@[j], projects@[k], before.search_blob_list@[j])
                })
            },
        decreases out@.len() - i,
    {
        let id = out[i].id;
        let found = find_last(projects, id);
        proof {
            lemma_last_with_id_bounds(projects@, id);
        }
        if found < projects.len() {
            let list = present_all(&projects[found], &out[i].search_blob_list);
            out[i].result_list = list;
        }
        proof {
            let before = results@[i as int];
            let after = out@[i as int];
            assert(before.id == id);
            assert(after.search_blob_list == before.search_blob_list);
        }
        i = i + 1;
    }
    out
}

/// The index of the last project with id `id`, or `projects.len()` where none
/// has it.
fn find_last(projects: &Vec<Project>, id: i64) -> (r: usize)
    ensures
        last_with_id(projects@, id) == -1 ==> r == projects@.len(),
        last_with_id(projects@, id) != -1 ==> r as int == last_with_id(projects@, id),
{
    proof {
        lemma_last_with_id_bounds(projects@, id);
    }
    let mut i: usize = projects.len();
    proof {
        assert(projects@.subrange(0, i as int) =~= projects@);
    }
    while i > 0
        invariant
            i <= projects@.len(),
            last_with_id(projects@, id) == last_with_id(projects@.subrange(0, i as int), id),
        decreases i,
    {
        proof {
            assert(projects@.subrange(0, i as int).drop_last() =~= projects@.subrange(0, i as int - 1));
        }
        if projects[i - 1].id == id {
            return i - 1;
        }
        i = i - 1;
    }
    projects.len()
}

} // verus!
