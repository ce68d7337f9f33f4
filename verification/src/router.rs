//! The route table: an immutable set of (method, path) entries, each carrying
//! the fixed status, content type and body returned for that pair, plus a
//! not-found body returned for every other request.

use vstd::prelude::*;

verus! {

/// The request methods the route table distinguishes. `Other` stands for any
/// request method that is neither GET nor POST; all such methods are treated
/// alike, since the table never registers more than GET and POST routes.
#[derive(Clone, Copy, PartialEq, Eq, Structural, Debug)]
pub enum Method {
    Get,
    Post,
    Other,
}

/// One route: a (method, path) pair mapped to the fixed response returned for
/// it. `content_type` is `None` for a response without a `Content-Type`
/// header. The body bytes are loaded once and never change afterwards.
pub struct RouteEntry {
    pub method: Method,
    pub path: String,
    pub status: u16,
    pub content_type: Option<String>,
    pub body: Vec<u8>,
}

/// The mathematical image of a response: status, content-type characters (if
/// any header is set) and body bytes.
#[verifier::ext_equal]
pub struct ResponseModel {
    pub status: u16,
    pub content_type: Option<Seq<char>>,
    pub body: Seq<u8>,
}

/// A response as handed back to the caller: a read-only copy of the matched
/// entry's data (or of the not-found page), never a reference into the table.
pub struct HttpResponse {
    pub status: u16,
    pub content_type: Option<String>,
    pub body: Vec<u8>,
}

/// The content-type characters of an optional header value.
pub open spec fn content_type_view(ct: Option<String>) -> Option<Seq<char>> {
    match ct {
        Some(s) => Some(s@),
        None => None,
    }
}

impl View for HttpResponse {
    type V = ResponseModel;

    open spec fn view(&self) -> ResponseModel {
        ResponseModel {
            status: self.status,
            content_type: content_type_view(self.content_type),
            body: self.body@,
        }
    }
}

/// Whether entry `e` is registered for the request pair (`m`, `p`).
pub open spec fn entry_matches(e: RouteEntry, m: Method, p: Seq<char>) -> bool {
    e.method == m && e.path@ == p
}

/// Whether entry `e` is exactly the route (`m`, `p`) -> (`status`, `ct`, `body`).
pub open spec fn entry_is(
    e: RouteEntry,
    m: Method,
    p: Seq<char>,
    status: u16,
    ct: Option<Seq<char>>,
    body: Seq<u8>,
) -> bool {
    &&& e.method == m
    &&& e.path@ == p
    &&& e.status == status
    &&& content_type_view(e.content_type) == ct
    &&& e.body@ == body
}

/// The response an entry stands for.
pub open spec fn response_of(e: RouteEntry) -> ResponseModel {
    ResponseModel {
        status: e.status,
        content_type: content_type_view(e.content_type),
        body: e.body@,
    }
}

/// The first entry at index `i` or later that matches (`m`, `p`), if any.
pub open spec fn lookup_from(entries: Seq<RouteEntry>, m: Method, p: Seq<char>, i: int) -> Option<
    RouteEntry,
>
    decreases entries.len() - i,
{
    if i < 0 || i >= entries.len() {
        None
    } else if entry_matches(entries[i], m, p) {
        Some(entries[i])
    } else {
        lookup_from(entries, m, p, i + 1)
    }
}

/// The first entry of the table that matches (`m`, `p`), if any.
pub open spec fn spec_lookup(entries: Seq<RouteEntry>, m: Method, p: Seq<char>) -> Option<
    RouteEntry,
> {
    lookup_from(entries, m, p, 0)
}

/// The route table, immutable once built: the registered entries and the body
/// of the not-found page served for every unregistered pair.
pub struct RouteTable {
    pub entries: Vec<RouteEntry>,
    pub not_found_body: Vec<u8>,
}

impl RouteTable {
    /// Well-formed: no two entries are registered for the same (method, path).
    pub open spec fn wf(&self) -> bool {
        forall|i: int, j: int|
            0 <= i < self.entries@.len() && 0 <= j < self.entries@.len() && #[trigger] entry_matches(
                self.entries@[i],
                self.entries@[j].method,
                self.entries@[j].path@,
            ) ==> i == j
    }

    /// Whether some entry is registered for (`m`, `p`).
    pub open spec fn spec_contains(&self, m: Method, p: Seq<char>) -> bool {
        exists|i: int|
            0 <= i < self.entries@.len() && entry_matches(#[trigger] self.entries@[i], m, p)
    }

    /// The response for a request no entry matches: the not-found page.
    pub open spec fn not_found_response(&self) -> ResponseModel {
        ResponseModel { status: 404, content_type: Some("text/html"@), body: self.not_found_body@ }
    }

    /// The response the table gives for the request pair (`m`, `p`): the
    /// matched entry's data, or the not-found page if nothing matches.
    pub open spec fn spec_respond(&self, m: Method, p: Seq<char>) -> ResponseModel {
        match spec_lookup(self.entries@, m, p) {
            Some(e) => response_of(e),
            None => self.not_found_response(),
        }
    }

    /// An empty table that answers every request with the given not-found body.
    pub fn new(not_found_body: Vec<u8>) -> (r: RouteTable)
        ensures
            r.wf(),
            r.entries@.len() == 0,
            r.not_found_body@ == not_found_body@,
    {
        RouteTable { entries: Vec::new(), not_found_body }
    }

    /// Whether a route is registered for (`m`, `path`).
    pub fn contains_route(&self, m: Method, path: &String) -> (r: bool)
        ensures
            r == self.spec_contains(m, path@),
    {
        let mut i: usize = 0;
        while i < self.entries.len()
            invariant
                i <= self.entries@.len(),
                forall|k: int|
                    0 <= k < i ==> !entry_matches(#[trigger] self.entries@[k], m, path@),
            decreases self.entries@.len() - i,
        {
            let e = &self.entries[i];
            if e.method == m && e.path == *path {
                assert(entry_matches(self.entries@[i as int], m, path@));
                return true;
            }
            i += 1;
        }
        false
    }

    /// The index of the first entry matching (`m`, `path`), if any matches.
    fn find(&self, m: Method, path: &String) -> (r: Option<usize>)
        ensures
            match r {
                Some(i) => i < self.entries@.len() && spec_lookup(self.entries@, m, path@)
                    == Some(self.entries@[i as int]),
                None => spec_lookup(self.entries@, m, path@) is None,
            },
    {
        let mut i: usize = 0;
        while i < self.entries.len()
            invariant
                i <= self.entries@.len(),
                spec_lookup(self.entries@, m, path@) == lookup_from(
                    self.entries@,
                    m,
                    path@,
                    i as int,
                ),
            decreases self.entries@.len() - i,
        {
            let e = &self.entries[i];
            if e.method == m && e.path == *path {
                assert(entry_matches(self.entries@[i as int], m, path@));
                return Some(i);
            }
            i += 1;
        }
        None
    }

    /// Serve the request pair (`m`, `path`): a copy of the matched entry's
    /// status, content type and body, or the not-found page if no entry is
    /// registered for the pair.
    pub fn respond(&self, m: Method, path: &String) -> (r: HttpResponse)
        ensures
            r@ == self.spec_respond(m, path@),
    {
        match self.find(m, path) {
            Some(i) => {
                let e = &self.entries[i];
                HttpResponse {
                    status: e.status,
                    content_type: clone_content_type(&e.content_type),
                    body: clone_bytes(&e.body),
                }
            },
            None => HttpResponse {
                status: 404,
                content_type: Some("text/html".to_owned()),
                body: clone_bytes(&self.not_found_body),
            },
        }
    }

    /// Register one route. The entry is added only when no entry for the same
    /// (method, path) pair is present yet; a duplicate leaves the table
    /// unchanged, so a well-formed table stays well-formed.
    pub fn register(
        &mut self,
        m: Method,
        path: String,
        status: u16,
        content_type: Option<String>,
        body: Vec<u8>,
    ) -> (added: bool)
        requires
            old(self).wf(),
        ensures
            final(self).wf(),
            added == !old(self).spec_contains(m, path@),
            final(self).not_found_body@ == old(self).not_found_body@,
            !added ==> *final(self) == *old(self),
            added ==> final(self).entries@.len() == old(self).entries@.len() + 1,
            added ==> forall|k: int|
                0 <= k < old(self).entries@.len() ==> final(self).entries@[k] == old(
                    self,
                ).entries@[k],
            added ==> entry_is(
                final(self).entries@[old(self).entries@.len() as int],
                m,
                path@,
                status,
                content_type_view(content_type),
                body@,
            ),
    {
        if self.contains_route(m, &path) {
            return false;
        }
        let entry = RouteEntry { method: m, path, status, content_type, body };
        self.entries.push(entry);
        assert forall|i: int, j: int|
            0 <= i < self.entries@.len() && 0 <= j < self.entries@.len()
                && #[trigger] entry_matches(
                self.entries@[i],
                self.entries@[j].method,
                self.entries@[j].path@,
            ) implies i == j by {
            let n = old(self).entries@.len() as int;
            if i < n && j < n {
                assert(entry_matches(
                    old(self).entries@[i],
                    old(self).entries@[j].method,
                    old(self).entries@[j].path@,
                ));
            } else if i == n && j < n {
                assert(entry_matches(self.entries@[j], m, path@));
            } else if i < n && j == n {
                assert(entry_matches(self.entries@[i], m, path@));
            }
        }
        true
    }
}

proof fn lemma_lookup_from_finds(
    entries: Seq<RouteEntry>,
    m: Method,
    p: Seq<char>,
    i: int,
    k: int,
)
    requires
        0 <= i <= k < entries.len(),
        entry_matches(entries[k], m, p),
        forall|j: int| i <= j < k ==> !entry_matches(#[trigger] entries[j], m, p),
    ensures
        lookup_from(entries, m, p, i) == Some(entries[k]),
    decreases k - i,
{
    if i < k {
        lemma_lookup_from_finds(entries, m, p, i + 1, k);
    }
}

proof fn lemma_lookup_from_none(entries: Seq<RouteEntry>, m: Method, p: Seq<char>, i: int)
    requires
        0 <= i,
        forall|j: int| i <= j < entries.len() ==> !entry_matches(#[trigger] entries[j], m, p),
    ensures
        lookup_from(entries, m, p, i) is None,
    decreases entries.len() - i,
{
    if i < entries.len() {
        lemma_lookup_from_none(entries, m, p, i + 1);
    }
}

/// Every registered route is served exactly as registered: in a well-formed
/// table, a request for the (method, path) pair of any entry is answered with
/// that entry's own status, content type and body.
pub proof fn lemma_registered_pair_served(t: RouteTable, k: int)
    requires
        t.wf(),
        0 <= k < t.entries@.len(),
    ensures
        t.spec_respond(t.entries@[k].method, t.entries@[k].path@) == response_of(t.entries@[k]),
{
    let m = t.entries@[k].method;
    let p = t.entries@[k].path@;
    assert forall|j: int| 0 <= j < k implies !entry_matches(#[trigger] t.entries@[j], m, p) by {
        if entry_matches(t.entries@[j], m, p) {
            assert(entry_matches(t.entries@[j], t.entries@[k].method, t.entries@[k].path@));
        }
    }
    lemma_lookup_from_finds(t.entries@, m, p, 0, k);
}

/// Every unregistered (method, path) pair is answered with status 404 and the
/// not-found page body.
pub proof fn lemma_unmatched_pair_gets_not_found(t: RouteTable, m: Method, p: Seq<char>)
    requires
        !t.spec_contains(m, p),
    ensures
        t.spec_respond(m, p) == t.not_found_response(),
{
    assert forall|j: int| 0 <= j < t.entries@.len() implies !entry_matches(
        #[trigger] t.entries@[j],
        m,
        p,
    ) by {
        if entry_matches(t.entries@[j], m, p) {
            assert(t.spec_contains(m, p));
        }
    }
    lemma_lookup_from_none(t.entries@, m, p, 0);
}

/// A fresh copy of the given bytes.
fn clone_bytes(v: &Vec<u8>) -> (r: Vec<u8>)
    ensures
        r@ == v@,
{
    let mut r: Vec<u8> = Vec::new();
    let mut i: usize = 0;
    while i < v.len()
        invariant
            i <= v@.len(),
            r@ == v@.subrange(0, i as int),
        decreases v@.len() - i,
    {
        r.push(v[i]);
        i += 1;
        assert(r@ =~= v@.subrange(0, i as int));
    }
    assert(r@ =~= v@);
    r
}

/// A fresh copy of an optional content-type value.
fn clone_content_type(ct: &Option<String>) -> (r: Option<String>)
    ensures
        content_type_view(r) == content_type_view(*ct),
{
    match ct {
        Some(s) => Some(s.clone()),
        None => None,
    }
}

} // verus!
