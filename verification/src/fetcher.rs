use vstd::prelude::*;

use crate::error::{ConfigField, FetchError};
use crate::request::{url_spec, PageRequest};

verus! {

/// The fixed number of items asked of every page.
pub const PER_PAGE: u32 = 30;

/// One search result: the full name of a repository. Immutable once
/// decoded.
#[derive(Debug, Clone, PartialEq, Eq)]
pub struct SearchResult {
    pub full_name: String,
}

/// A decoded page: the total number of matches across all pages, and the
/// items of this page alone, in the order the server sent them.
#[derive(Debug, Clone, PartialEq, Eq)]
pub struct PageResponse {
    pub total_count: u32,
    pub items: Vec<SearchResult>,
}

/// A response body as the transport hands it over, field by field.
/// `None` stands for a field that is absent or not of the expected shape.
#[derive(Debug, Clone, PartialEq, Eq)]
pub struct RawBody {
    pub total_count: Option<u64>,
    pub items: Option<Vec<Option<String>>>,
}

/// What one attempt at a page came to, as the transport reports it.
#[derive(Debug, Clone, PartialEq, Eq)]
pub enum PageOutcome {
    /// The request could not be sent or no response was received; carries
    /// a description of the failure.
    Failed(String),
    /// A response arrived: its status code, its body field by field, and
    /// the body text, kept for diagnostics.
    Answered { status: u16, body: RawBody, text: String },
}

/// The fetcher's state as the contracts speak of it.
#[verifier::ext_equal]
pub ghost struct FetchView {
    pub search_str: Seq<char>,
    pub token: Seq<char>,
    pub page: int,
    pub per_page: int,
    pub total: int,
    pub total_known: bool,
    pub pending: bool,
    pub items: Seq<Seq<char>>,
}

/// The guard condition: pagination is complete once the total is known
/// and `page * per_page` has reached it.
pub open spec fn spec_done(v: FetchView) -> bool {
    v.total_known && v.page * v.per_page >= v.total
}

/// A freshly constructed state: page 0, total unknown, no request
/// outstanding, nothing accumulated.
pub open spec fn spec_init(v: FetchView, search: Seq<char>, token: Seq<char>) -> bool {
    &&& v.search_str == search
    &&& v.token == token
    &&& v.page == 0
    &&& v.per_page == PER_PAGE as int
    &&& v.total == 0
    &&& v.total_known == false
    &&& !v.pending
    &&& v.items == Seq::<Seq<char>>::empty()
}

/// A request was issued: the page counter advanced by one before it, the
/// request became the one outstanding, and nothing else changed.
/// Possible only while the guard has not fired and no request is already
/// in flight.
pub open spec fn spec_issue(pre: FetchView, post: FetchView) -> bool {
    &&& !spec_done(pre)
    &&& !pre.pending
    &&& post.pending
    &&& post.page == pre.page + 1
    &&& post.search_str == pre.search_str
    &&& post.token == pre.token
    &&& post.per_page == pre.per_page
    &&& post.total == pre.total
    &&& post.total_known == pre.total_known
    &&& post.items == pre.items
}

/// The outstanding request succeeded and its decoded page was applied:
/// the full names were appended in order, the total was replaced by the
/// freshly returned value, and the request is no longer outstanding.
pub open spec fn spec_apply(
    pre: FetchView,
    post: FetchView,
    total: int,
    names: Seq<Seq<char>>,
) -> bool {
    &&& pre.pending
    &&& !post.pending
    &&& post.total == total
    &&& post.total_known
    &&& post.items == pre.items + names
    &&& post.page == pre.page
    &&& post.search_str == pre.search_str
    &&& post.token == pre.token
    &&& post.per_page == pre.per_page
}

/// The outstanding request failed and was rolled back: the advanced page
/// counter stepped back, the request is no longer outstanding, and
/// nothing else changed — composed with the issuing step, the failed
/// attempt leaves the state exactly as it was.
pub open spec fn spec_rollback(pre: FetchView, post: FetchView) -> bool {
    &&& pre.pending
    &&& !post.pending
    &&& post.page == pre.page - 1
    &&& post.search_str == pre.search_str
    &&& post.token == pre.token
    &&& post.per_page == pre.per_page
    &&& post.total == pre.total
    &&& post.total_known == pre.total_known
    &&& post.items == pre.items
}

/// Any step a run that fetches without failures can make: issuing a
/// request, applying its response, or standing still (a declined call
/// changes nothing; a failed attempt nets to standing still, since its
/// rollback restores the state the issuing step started from).
pub open spec fn spec_step(pre: FetchView, post: FetchView) -> bool {
    ||| spec_issue(pre, post)
    ||| exists|total: int, names: Seq<Seq<char>>| spec_apply(pre, post, total, names)
    ||| post == pre
}

/// A status code that counts as success.
pub open spec fn spec_success(status: u16) -> bool {
    200 <= status < 300
}

/// Whether `status` counts as a success.
pub fn status_success(status: u16) -> (r: bool)
    ensures
        r == spec_success(status),
{
    200 <= status && status < 300
}

/// A body has the expected shape when both fields are present, the total
/// fits the counter width, and every item carries its full name.
pub open spec fn spec_body_ok(b: RawBody) -> bool {
    &&& b.total_count matches Some(t) && t <= u32::MAX
    &&& b.items matches Some(v) && (forall|i: int| 0 <= i < v@.len() ==> v@[i] is Some)
}

/// The full names of a well-shaped body, in server order.
pub open spec fn spec_body_names(b: RawBody) -> Seq<Seq<char>>
    recommends
        spec_body_ok(b),
{
    b.items->0@.map_values(|o: Option<String>| o->0@)
}

/// The total a well-shaped body reports.
pub open spec fn spec_body_total(b: RawBody) -> int
    recommends
        spec_body_ok(b),
{
    b.total_count->0 as int
}

/// The view of a sequence of results: their full names, in order.
pub open spec fn spec_names(items: Seq<SearchResult>) -> Seq<Seq<char>> {
    items.map_values(|it: SearchResult| it.full_name@)
}

/// Decodes a transport-delivered body into a page.
///
/// Fails with `Decode` exactly when the body is not of the expected
/// shape: a missing `total_count`, a total too large for the counter, a
/// missing `items` array, or an item without its full name. Order is
/// preserved.
pub fn decode_page(body: RawBody) -> (r: Result<PageResponse, FetchError>)
    ensures
        spec_body_ok(body) ==> ({
            &&& r matches Ok(p)
            &&& p.total_count == spec_body_total(body)
            &&& spec_names(p.items@) == spec_body_names(body)
        }),
        !spec_body_ok(body) ==> r == Err::<PageResponse, FetchError>(FetchError::Decode),
{
    let RawBody { total_count: total_field, items: items_field } = body;
    let total_u64: u64 = match total_field {
        Some(t) => t,
        None => {
            return Err(FetchError::Decode);
        },
    };
    if total_u64 > u32::MAX as u64 {
        return Err(FetchError::Decode);
    }
    let raw_items: Vec<Option<String>> = match items_field {
        Some(v) => v,
        None => {
            return Err(FetchError::Decode);
        },
    };
    let mut items: Vec<SearchResult> = Vec::new();
    let n = raw_items.len();
    let mut idx: usize = 0;
    while idx < n
        invariant
            n == raw_items@.len(),
            idx <= n,
            body.total_count matches Some(t) && t == total_u64,
            total_u64 <= u32::MAX,
            body.items matches Some(v) && v@ == raw_items@,
            forall|j: int| 0 <= j < idx ==> raw_items@[j] is Some,
            spec_names(items@) == raw_items@.take(idx as int).map_values(|o: Option<String>| o->0@),
        decreases n - idx,
    {
        let entry: &Option<String> = &raw_items[idx];
        if entry.is_some() {
            let name: &String = entry.as_ref().unwrap();
            items.push(SearchResult { full_name: name.clone() });
        } else {
            proof {
                assert(body.items->0@[idx as int] is None);
            }
            return Err(FetchError::Decode);
        }
        proof {
            let pushed = raw_items@.take(idx as int).push(raw_items@[idx as int]);
            assert(raw_items@.take(idx as int + 1) =~= pushed);
            assert(pushed.map_values(|o: Option<String>| o->0@) =~= raw_items@.take(
                idx as int,
            ).map_values(|o: Option<String>| o->0@).push(raw_items@[idx as int]->0@));
            assert(spec_names(items@) =~= raw_items@.take(idx as int + 1).map_values(
                |o: Option<String>| o->0@,
            ));
        }
        idx = idx + 1;
    }
    proof {
        assert(raw_items@.take(n as int) =~= raw_items@);
    }
    Ok(PageResponse { total_count: total_u64 as u32, items })
}

/// The fetcher's session state for one search run: the immutable search
/// string and token, the page counter, the fixed page size, the latest
/// total, whether one has been learned yet, and everything accumulated so
/// far.
#[derive(Debug)]
pub struct FetchState {
    search_str: String,
    token: String,
    page: u32,
    per_page: u32,
    total: u32,
    total_known: bool,
    pending: bool,
    items: Vec<SearchResult>,
}

impl View for FetchState {
    type V = FetchView;

    closed spec fn view(&self) -> FetchView {
        FetchView {
            search_str: self.search_str@,
            token: self.token@,
            page: self.page as int,
            per_page: self.per_page as int,
            total: self.total as int,
            total_known: self.total_known,
            pending: self.pending,
            items: spec_names(self.items@),
        }
    }
}

impl FetchState {
    /// A request is outstanding only after the page counter was advanced
    /// for it, so a rollback never underflows the counter.
    #[verifier::type_invariant]
    closed spec fn wf(self) -> bool {
        self.pending ==> self.page >= 1
    }

    /// Builds the fetcher for one search run.
    ///
    /// Both inputs are required and must be non-empty; an empty one is a
    /// configuration error, surfaced here, before any network activity.
    pub fn new(search_str: String, token: String) -> (r: Result<FetchState, FetchError>)
        ensures
            search_str@.len() == 0 ==> r == Err::<FetchState, FetchError>(
                FetchError::Configuration(ConfigField::SearchStr),
            ),
            search_str@.len() > 0 && token@.len() == 0 ==> r == Err::<FetchState, FetchError>(
                FetchError::Configuration(ConfigField::Token),
            ),
            search_str@.len() > 0 && token@.len() > 0 ==> ({
                &&& r matches Ok(f)
                &&& spec_init(f@, search_str@, token@)
            }),
    {
        if search_str.as_str().is_empty() {
            return Err(FetchError::Configuration(ConfigField::SearchStr));
        }
        if token.as_str().is_empty() {
            return Err(FetchError::Configuration(ConfigField::Token));
        }
        let f = FetchState {
            search_str,
            token,
            page: 0,
            per_page: PER_PAGE,
            total: 0,
            total_known: false,
            pending: false,
            items: Vec::new(),
        };
        proof {
            assert(f@.items =~= Seq::<Seq<char>>::empty());
        }
        Ok(f)
    }

    /// The guard condition on the current state.
    pub fn done(&self) -> (r: bool)
        ensures
            r == spec_done(self@),
    {
        if !self.total_known {
            return false;
        }
        proof {
            assert((self.page as int) * (self.per_page as int) <= 0xffff_ffff * 0xffff_ffff)
                by (nonlinear_arith)
                requires
                    self.page as int <= 0xffff_ffff,
                    self.per_page as int <= 0xffff_ffff,
                    0 <= self.page as int,
                    0 <= self.per_page as int,
            ;
        }
        let consumed: u64 = (self.page as u64) * (self.per_page as u64);
        consumed >= self.total as u64
    }

    /// The deciding half of the fetch-next-page step. At most one request
    /// is in flight, so it asks that none is outstanding.
    ///
    /// Returns `None` exactly when the guard reports pagination complete;
    /// nothing changes then, and no request is to be issued. Otherwise
    /// the page counter advances first, and the returned request carries
    /// the freshly advanced page number and becomes the outstanding one.
    pub fn next_request(&mut self) -> (r: Option<PageRequest>)
        requires
            !old(self)@.pending,
            old(self)@.page < u32::MAX,
        ensures
            spec_done(old(self)@) ==> r is None && *final(self) == *old(self),
            !spec_done(old(self)@) ==> ({
                &&& spec_issue(old(self)@, final(self)@)
                &&& r matches Some(req)
                &&& req.page == old(self)@.page + 1
                &&& req.per_page == old(self)@.per_page
                &&& req.url@ == url_spec(
                    old(self)@.search_str,
                    old(self)@.page + 1,
                    old(self)@.per_page,
                )
                &&& req.auth@ == "bearer "@ + old(self)@.token
            }),
    {
        if self.done() {
            return None;
        }
        self.page = self.page + 1;
        self.pending = true;
        let req = PageRequest::new(
            self.search_str.as_str(),
            self.token.as_str(),
            self.page,
            self.per_page,
        );
        Some(req)
    }

    /// The applying half of the fetch-next-page step, on success: appends
    /// the page's items in order, adopts the freshly returned total,
    /// which from now on is known, and settles the outstanding request.
    ///
    /// Returns whether more pages may remain: the negation of the guard
    /// on the new state.
    pub fn apply_response(&mut self, page: PageResponse) -> (more: bool)
        requires
            old(self)@.pending,
        ensures
            spec_apply(old(self)@, final(self)@, page.total_count as int, spec_names(page.items@)),
            more == !spec_done(final(self)@),
    {
        let mut incoming = page.items;
        let ghost incoming_names = spec_names(incoming@);
        self.pending = false;
        let mut acc: Vec<SearchResult> = Vec::new();
        core::mem::swap(&mut acc, &mut self.items);
        acc.append(&mut incoming);
        core::mem::swap(&mut acc, &mut self.items);
        self.total = page.total_count;
        self.total_known = true;
        proof {
            assert(self@.items =~= old(self)@.items + incoming_names);
        }
        !self.done()
    }

    /// Undoes the issuing half after a failed attempt: the page counter
    /// steps back to its pre-request value and nothing else changes.
    fn rollback(&mut self)
        requires
            old(self)@.pending,
        ensures
            spec_rollback(old(self)@, final(self)@),
    {
        proof {
            use_type_invariant(&*self);
        }
        self.pending = false;
        self.page = self.page - 1;
    }

    /// Applies what the outstanding attempt at a page came to.
    ///
    /// A transport failure or a non-success status fails with the
    /// matching error; a malformed body fails with `Decode`; in every
    /// failing case the attempt is rolled back, so the whole failed step
    /// leaves the state exactly as it stood before the request was
    /// issued — page counter included, the accumulated items in
    /// particular. A well-shaped body of a successful response is applied
    /// as `apply_response` does.
    pub fn apply_outcome(&mut self, outcome: PageOutcome) -> (r: Result<bool, FetchError>)
        requires
            old(self)@.pending,
        ensures
            outcome matches PageOutcome::Failed(msg) ==> r == Err::<bool, FetchError>(
                FetchError::Transport(msg),
            ) && spec_rollback(old(self)@, final(self)@),
            outcome matches PageOutcome::Answered { status, body, text } ==> ({
                &&& !spec_success(status) ==> r == Err::<bool, FetchError>(
                    FetchError::Protocol(status, text),
                ) && spec_rollback(old(self)@, final(self)@)
                &&& spec_success(status) && !spec_body_ok(body) ==> r == Err::<bool, FetchError>(
                    FetchError::Decode,
                ) && spec_rollback(old(self)@, final(self)@)
                &&& spec_success(status) && spec_body_ok(body) ==> ({
                    &&& r matches Ok(more)
                    &&& spec_apply(
                        old(self)@,
                        final(self)@,
                        spec_body_total(body),
                        spec_body_names(body),
                    )
                    &&& more == !spec_done(final(self)@)
                })
            }),
    {
        match outcome {
            PageOutcome::Failed(msg) => {
                self.rollback();
                Err(FetchError::Transport(msg))
            },
            PageOutcome::Answered { status, body, text } => {
                if !status_success(status) {
                    self.rollback();
                    return Err(FetchError::Protocol(status, text));
                }
                match decode_page(body) {
                    Ok(page) => Ok(self.apply_response(page)),
                    Err(e) => {
                        self.rollback();
                        Err(e)
                    },
                }
            },
        }
    }

    /// Whether a request is outstanding: `next_request` has issued one
    /// whose outcome has not been applied yet. At most one request is
    /// ever in flight.
    pub fn request_pending(&self) -> (r: bool)
        ensures
            r == self@.pending,
    {
        self.pending
    }

    /// The page number of the most recently issued request; 0 before any.
    pub fn page(&self) -> (r: u32)
        ensures
            r == self@.page,
    {
        self.page
    }

    /// The fixed page size.
    pub fn per_page(&self) -> (r: u32)
        ensures
            r == self@.per_page,
    {
        self.per_page
    }

    /// The total reported by the latest response; `None` until a first
    /// page has been applied.
    pub fn total(&self) -> (r: Option<u32>)
        ensures
            self@.total_known ==> (r matches Some(t) && t == self@.total),
            !self@.total_known ==> r is None,
    {
        if self.total_known {
            Some(self.total)
        } else {
            None
        }
    }

    /// The search string this run was built for.
    pub fn search_str(&self) -> (r: &String)
        ensures
            r@ == self@.search_str,
    {
        &self.search_str
    }

    /// The accumulated results so far, pages in fetch order and items in
    /// server order within each page. May be read at any time, including
    /// mid-pagination.
    pub fn accumulated(&self) -> (r: &Vec<SearchResult>)
        ensures
            spec_names(r@) == self@.items,
    {
        &self.items
    }
}

} // verus!
