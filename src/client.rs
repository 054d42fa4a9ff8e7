//! The session settings of a client, and the requests it makes from them.
use vstd::prelude::*;
use vstd::string::*;
use crate::text::{decimal, i64_text, signed_decimal, u64_text};

verus! {

/// The settings of a session with a GitLab-compatible server: where it is,
/// the bearer token, the per-request timeout and the TLS policy.
pub struct GitlabClient {
    url: String,
    token: String,
    timeout_seconds: u64,
    accept_invalid_certs: bool,
    verbose: bool,
}

/// `{base}/api/v4/projects/{id}`.
pub open spec fn project_path(base: Seq<char>, id: nat) -> Seq<char> {
    base + "/api/v4/projects/"@ + decimal(id)
}

/// `{base}/api/v4/groups/{id}/projects`: a group's project listing, without a
/// query string.
pub open spec fn group_projects_path(base: Seq<char>, id: nat) -> Seq<char> {
    base + "/api/v4/groups/"@ + decimal(id) + "/projects"@
}

/// `{base}/api/v4/search?scope=projects&search={name}`.
pub open spec fn project_search_path(base: Seq<char>, name: Seq<char>) -> Seq<char> {
    base + "/api/v4/search?scope=projects&search="@ + name
}

/// `{base}/api/v4/projects/{id}/search?scope=blobs&search={keywords}`.
pub open spec fn blob_search_path(base: Seq<char>, id: int, keywords: Seq<char>) -> Seq<char> {
    base + "/api/v4/projects/"@ + signed_decimal(id) + "/search?scope=blobs&search="@ + keywords
}

impl GitlabClient {
    /// The server's base URL.
    pub closed spec fn base(&self) -> Seq<char> {
        self.url@
    }

    /// The bearer token.
    pub closed spec fn secret(&self) -> Seq<char> {
        self.token@
    }

    /// The per-request timeout, in seconds.
    pub closed spec fn timeout(&self) -> nat {
        self.timeout_seconds as nat
    }

    /// Whether invalid TLS certificates are accepted.
    pub closed spec fn insecure(&self) -> bool {
        self.accept_invalid_certs
    }

    /// Whether a progress line is reported for each searched project.
    pub closed spec fn chatty(&self) -> bool {
        self.verbose
    }

    /// Settings for `url` with `token`, accepting invalid TLS certificates, not
    /// verbose. Neither the URL nor the token may be empty.
    pub fn new_unsecure(url: &str, token: &str, timeout_seconds: u64) -> (r: GitlabClient)
        requires
            url@.len() > 0,
            token@.len() > 0,
        ensures
            r.base() == url@,
            r.secret() == token@,
            r.timeout() == timeout_seconds,
            r.insecure(),
            !r.chatty(),
    {
        GitlabClient {
            url: url.to_owned(),
            token: token.to_owned(),
            timeout_seconds,
            accept_invalid_certs: true,
            verbose: false,
        }
    }

    /// Whether a progress line is reported for each searched project.
    pub fn verbose(&self) -> (r: bool)
        ensures
            r == self.chatty(),
    {
        self.verbose
    }

    /// Turns the progress report on or off; nothing else changes.
    pub fn set_verbose(&mut self, verbose: bool)
        ensures
            final(self).chatty() == verbose,
            final(self).base() == old(self).base(),
            final(self).secret() == old(self).secret(),
            final(self).timeout() == old(self).timeout(),
            final(self).insecure() == old(self).insecure(),
    {
        self.verbose = verbose;
    }

    /// The server's base URL.
    pub fn url(&self) -> (r: &str)
        ensures
            r@ == self.base(),
    {
        self.url.as_str()
    }

    /// The per-request timeout, in seconds.
    pub fn timeout_seconds(&self) -> (r: u64)
        ensures
            r == self.timeout(),
    {
        self.timeout_seconds
    }

    /// Whether invalid TLS certificates are accepted.
    pub fn accepts_invalid_certs(&self) -> (r: bool)
        ensures
            r == self.insecure(),
    {
        self.accept_invalid_certs
    }

    /// The value of the `Authorization` header: `Bearer {token}`.
    pub fn authorization(&self) -> (r: String)
        ensures
            r@ == "Bearer "@ + self.secret(),
    {
        let mut r = String::from_str("Bearer ");
        r.append(self.token.as_str());
        r
    }

    /// The URL that fetches the single project `id`.
    pub fn project_url(&self, id: u64) -> (r: String)
        ensures
            r@ == project_path(self.base(), id as nat),
    {
        let mut r = self.url.clone();
        r.append("/api/v4/projects/");
        let n = u64_text(id);
        r.append(n.as_str());
        proof {
            assert(r@ =~= project_path(self.base(), id as nat));
        }
        r
    }

    /// The page-less URL of group `group_id`'s project listing; it carries no
    /// query string.
    pub fn group_projects_url(&self, group_id: u64) -> (r: String)
        ensures
            r@ == group_projects_path(self.base(), group_id as nat),
    {
        let mut r = self.url.clone();
        r.append("/api/v4/groups/");
        let n = u64_text(group_id);
        r.append(n.as_str());
        r.append("/projects");
        proof {
            assert(r@ =~= group_projects_path(self.base(), group_id as nat));
        }
        r
    }

    /// The page-less URL of a project search by name; it carries a query
    /// string, and the name goes in verbatim, even when empty.
    pub fn project_search_url(&self, name: &str) -> (r: String)
        ensures
            r@ == project_search_path(self.base(), name@),
    {
        let mut r = self.url.clone();
        r.append("/api/v4/search?scope=projects&search=");
        r.append(name);
        proof {
            assert(r@ =~= project_search_path(self.base(), name@));
        }
        r
    }

    /// The page-less URL of a blob search in project `id`; it carries a query
    /// string, and the keywords go in verbatim, even when empty.
    pub fn blob_search_url(&self, id: i64, keywords: &str) -> (r: String)
        ensures
            r@ == blob_search_path(self.base(), id as int, keywords@),
    {
        let mut r = self.url.clone();
        r.append("/api/v4/projects/");
        let n = i64_text(id);
        r.append(n.as_str());
        r.append("/search?scope=blobs&search=");
        r.append(keywords);
        proof {
            assert(r@ =~= blob_search_path(self.base(), id as int, keywords@));
        }
        r
    }
}

} // verus!
