//! The records that resolution and search produce.
use vstd::prelude::*;
use vstd::string::*;

verus! {

/// A project of the hosting service, as resolution returns it.
#[derive(Debug, Clone)]
pub struct Project {
    pub id: i64,
    pub name: String,
    pub web_url: String,
}

/// One match of a blob search: a snippet of a file at a revision.
#[derive(Debug, Clone)]
pub struct SearchBlob {
    pub project_id: i64,
    pub data: String,
    pub ref_: String,
    pub filename: String,
}

/// A match made ready for display: the project's name, a deep link to the
/// matched file, and the snippet.
#[derive(Debug, Clone)]
pub struct ReturnResult {
    pub name: String,
    pub url: String,
    pub data: String,
}

/// The outcome of searching one project.
///
/// `count` is `-1` exactly when the search failed, and `error` then describes
/// the failure; otherwise `count` is the number of matches.
#[derive(Debug, Clone)]
pub struct SearchResult {
    pub id: i64,
    pub name: String,
    pub count: i32,
    pub error: String,
    pub debug_url: String,
    pub search_blob_list: Vec<SearchBlob>,
    pub result_list: Vec<ReturnResult>,
}

/// The count that marks a failed search.
pub const FAILED_COUNT: i32 = -1;

/// The deep link to `filename` at revision `ref_` under a project's web page:
/// `{web_url}/-/blob/{ref_}/{filename}`.
pub open spec fn deep_link(web_url: Seq<char>, ref_: Seq<char>, filename: Seq<char>) -> Seq<char> {
    web_url + seq!['/', '-', '/', 'b', 'l', 'o', 'b', '/'] + ref_ + seq!['/'] + filename
}

/// What the display record of `blob` under project `p` holds.
pub open spec fn presents(r: ReturnResult, p: Project, blob: SearchBlob) -> bool {
    &&& r.name@ == p.name@
    &&& r.url@ == deep_link(p.web_url@, blob.ref_@, blob.filename@)
    &&& r.data@ == blob.data@
}

impl Project {
    /// A copy of this project.
    pub fn duplicate(&self) -> (r: Project)
        ensures
            r == *self,
    {
        Project { id: self.id, name: self.name.clone(), web_url: self.web_url.clone() }
    }
}

impl SearchBlob {
    /// The display record of this match under project `p`.
    pub fn present(&self, p: &Project) -> (r: ReturnResult)
        ensures
            presents(r, *p, *self),
    {
        let mut url = p.web_url.clone();
        let sep: &str = "/-/blob/";
        let slash: &str = "/";
        proof {
            reveal_strlit("/-/blob/");
            reveal_strlit("/");
        }
        url.append(sep);
        url.append(self.ref_.as_str());
        url.append(slash);
        url.append(self.filename.as_str());
        proof {
            assert(url@ =~= deep_link(p.web_url@, self.ref_@, self.filename@));
        }
        ReturnResult { name: p.name.clone(), url, data: self.data.clone() }
    }
}

impl SearchResult {
    /// A finished search obeys the sentinel rule: `count` is `-1` exactly when
    /// `error` is non-empty, and otherwise equals the number of matches.
    pub open spec fn wf(&self) -> bool {
        &&& (self.count == FAILED_COUNT <==> self.error@.len() > 0)
        &&& (self.count != FAILED_COUNT ==> self.count as int == self.search_blob_list@.len())
    }

    /// Whether the search of this project failed.
    pub fn failed(&self) -> (r: bool)
        ensures
            r == (self.count == FAILED_COUNT),
    {
        self.count == FAILED_COUNT
    }
}

/// For every well-formed search result, the count is the failure sentinel if
/// and only if an error is recorded.
pub proof fn sentinel_iff_error(sr: SearchResult)
    requires
        sr.wf(),
    ensures
        (sr.count == -1) <==> sr.error@.len() > 0,
{
}

} // verus!
