//! The offset-based pagination protocol: follow the server-supplied
//! next-page link until a response lacks it, concatenating the records of
//! every page, and abort the whole fetch on the first bad page.
//!
//! The requests themselves happen outside the verified world; they feed the
//! [`PagedFetch`] state machine one [`PageResponse`] at a time.

use vstd::prelude::*;

use crate::error::Error;

verus! {

/// What one page request produced, as observed by the caller that performed
/// it.
#[derive(Debug)]
pub enum PageResponse<T> {
    /// A success status whose body decoded into records; `next_url` is the
    /// next-page link from the response header, absent on the last page.
    Success { items: Vec<T>, next_url: Option<String> },
    /// A non-success status; the response body is kept for diagnostics.
    Failure { body: String },
    /// A success status whose body did not decode into the expected
    /// records.
    Malformed { detail: String },
}

/// The records a page carries (none unless it is a success).
pub open spec fn spec_page_items<T>(p: PageResponse<T>) -> Seq<T> {
    match p {
        PageResponse::Success { items, .. } => items@,
        PageResponse::Failure { .. } => Seq::empty(),
        PageResponse::Malformed { .. } => Seq::empty(),
    }
}

/// The next-page link a page carries (none unless it is a success).
pub open spec fn spec_page_next<T>(p: PageResponse<T>) -> Option<Seq<char>> {
    match p {
        PageResponse::Success { next_url: Some(u), .. } => Some(u@),
        _ => None,
    }
}

/// The state of one paginated fetch: the records accumulated so far and the
/// URL still to be requested, absent once the last page has been seen.
#[derive(Debug)]
pub struct PagedFetch<T> {
    /// Records accumulated so far, in page order.
    pub items: Vec<T>,
    /// The URL of the next page to request; `None` when the fetch is
    /// complete.
    pub next: Option<String>,
}

/// Where a whole fetch ends up after a sequence of page responses.
pub enum FetchRun<T> {
    /// Every page up to one without a next-page link succeeded; these are
    /// the records, in page order.
    Complete(Seq<T>),
    /// A page came back with a non-success status carrying this body; no
    /// records are handed out.
    NetworkFailed(Seq<char>),
    /// A page body failed to decode, with this detail; no records are
    /// handed out.
    DecodeFailed(Seq<char>),
    /// The supplied responses ran out while a next-page link was still
    /// pending.
    Starved,
}

/// The view of an optional owned string.
pub open spec fn spec_opt_text(o: Option<String>) -> Option<Seq<char>> {
    match o {
        Some(s) => Some(s@),
        None => None,
    }
}

/// Runs the fetch protocol over a sequence of page responses: starting from
/// `acc` with `next` pending, every successful page appends its records and
/// replaces the pending link with its own, the first bad page aborts the
/// run, and a page without a next-page link completes it.
pub open spec fn spec_run<T>(
    acc: Seq<T>,
    next: Option<Seq<char>>,
    pages: Seq<PageResponse<T>>,
) -> FetchRun<T>
    decreases pages.len(),
{
    match next {
        None => FetchRun::Complete(acc),
        Some(_) => {
            if pages.len() == 0 {
                FetchRun::Starved
            } else {
                match pages[0] {
                    PageResponse::Success { items, next_url } => spec_run(
                        acc + items@,
                        spec_opt_text(next_url),
                        pages.drop_first(),
                    ),
                    PageResponse::Failure { body } => FetchRun::NetworkFailed(body@),
                    PageResponse::Malformed { detail } => FetchRun::DecodeFailed(detail@),
                }
            }
        },
    }
}

impl<T> PagedFetch<T> {
    /// Begins a fetch at the given URL, with nothing accumulated.
    pub fn new(url: String) -> (r: Self)
        ensures
            r.items@ == Seq::<T>::empty(),
            r.next == Some(url),
    {
        PagedFetch { items: Vec::new(), next: Some(url) }
    }

    /// Whether a page request is still pending.
    pub fn in_progress(&self) -> (r: bool)
        ensures
            r == (self.next is Some),
    {
        match &self.next {
            Some(_) => true,
            None => false,
        }
    }

    /// The URL of the pending page request, if any.
    pub fn pending_url(&self) -> (r: Option<String>)
        ensures
            r == self.next,
    {
        match &self.next {
            Some(u) => Some(u.clone()),
            None => None,
        }
    }

    /// Feeds the response of the pending page request into the fetch.  A
    /// successful page appends its records (in order) and leaves its own
    /// next-page link pending; a non-success status aborts with a network
    /// error carrying the response body; an undecodable body aborts with a
    /// decode error.  On an abort the accumulated state is left untouched
    /// and the caller discards it: no partial results are handed out.
    pub fn apply(&mut self, page: PageResponse<T>) -> (r: Result<(), Error>)
        requires
            old(self).next is Some,
        ensures
            match page {
                PageResponse::Success { items, next_url } => {
                    &&& r is Ok
                    &&& final(self).items@ == old(self).items@ + items@
                    &&& final(self).next == next_url
                },
                PageResponse::Failure { body } => {
                    &&& r == Result::<(), Error>::Err(Error::Network(body))
                    &&& *final(self) == *old(self)
                },
                PageResponse::Malformed { detail } => {
                    &&& r == Result::<(), Error>::Err(Error::Decode(detail))
                    &&& *final(self) == *old(self)
                },
            },
    {
        match page {
            PageResponse::Success { mut items, next_url } => {
                self.items.append(&mut items);
                self.next = next_url;
                Ok(())
            },
            PageResponse::Failure { body } => Err(Error::Network(body)),
            PageResponse::Malformed { detail } => Err(Error::Decode(detail)),
        }
    }
}

/// Replays a whole fetch over pre-obtained page responses, consumed in
/// order while a next-page link is pending.  The caller supplies enough
/// responses to cover the fetch; the result is exactly what the protocol
/// run yields.
#[verifier::loop_isolation(false)]
pub fn collect_pages<T>(start_url: String, pages: Vec<PageResponse<T>>) -> (r: Result<
    Vec<T>,
    Error,
>)
    requires
        !(spec_run(Seq::<T>::empty(), Some(start_url@), pages@) is Starved),
    ensures
        match r {
            Ok(v) => spec_run(Seq::<T>::empty(), Some(start_url@), pages@) == FetchRun::Complete(
                v@,
            ),
            Err(e) => match e {
                Error::Network(b) => spec_run(Seq::<T>::empty(), Some(start_url@), pages@)
                    == FetchRun::<T>::NetworkFailed(b@),
                Error::Decode(d) => spec_run(Seq::<T>::empty(), Some(start_url@), pages@)
                    == FetchRun::<T>::DecodeFailed(d@),
            },
        },
{
    let ghost whole_run = spec_run(Seq::<T>::empty(), Some(start_url@), pages@);
    let mut st = PagedFetch::<T>::new(start_url);
    let mut rest = pages;
    while st.in_progress()
        invariant
            spec_run(st.items@, spec_opt_text(st.next), rest@) == whole_run,
            !(whole_run is Starved),
        decreases rest@.len(),
    {
        if rest.len() == 0 {
            // A pending link with no response left would starve the run,
            // which the caller rules out.
            proof {
                assert(false);
            }
            return Err(Error::Network(String::new()));
        }
        let ghost prev_rest = rest@;
        let page = rest.remove(0);
        let ghost this_page = page;
        proof {
            assert(rest@ =~= prev_rest.drop_first());
            assert(prev_rest[0] == this_page);
        }
        match st.apply(page) {
            Ok(_) => {},
            Err(e) => {
                return Err(e);
            },
        }
    }
    Ok(st.items)
}

/// The concatenation of the records of a sequence of pages, in order.
pub open spec fn spec_concat_items<T>(pages: Seq<PageResponse<T>>) -> Seq<T>
    decreases pages.len(),
{
    if pages.len() == 0 {
        Seq::empty()
    } else {
        spec_page_items(pages[0]) + spec_concat_items(pages.drop_first())
    }
}

proof fn lemma_concat_items_snoc<T>(pages: Seq<PageResponse<T>>, k: int)
    requires
        0 <= k < pages.len(),
    ensures
        spec_concat_items(pages.take(k + 1)) == spec_concat_items(pages.take(k)) + spec_page_items(
            pages[k],
        ),
    decreases k,
{
    if k == 0 {
        assert(pages.take(1).drop_first() =~= Seq::<PageResponse<T>>::empty());
        assert(pages.take(0) =~= Seq::<PageResponse<T>>::empty());
        assert(pages.take(1)[0] == pages[0]);
        assert(spec_page_items(pages[0]) + Seq::<T>::empty() =~= Seq::<T>::empty()
            + spec_page_items(pages[0]));
    } else {
        let rest = pages.drop_first();
        lemma_concat_items_snoc(rest, k - 1);
        assert(pages.take(k + 1).drop_first() =~= rest.take(k));
        assert(pages.take(k).drop_first() =~= rest.take(k - 1));
        assert(rest[k - 1] == pages[k]);
        assert(pages.take(k + 1)[0] == pages[0]);
        assert(pages.take(k)[0] == pages[0]);
        assert(spec_page_items(pages[0]) + (spec_concat_items(rest.take(k - 1)) + spec_page_items(
            pages[k],
        )) =~= (spec_page_items(pages[0]) + spec_concat_items(rest.take(k - 1)))
            + spec_page_items(pages[k]));
    }
}

proof fn lemma_run_skips_success_prefix<T>(
    acc: Seq<T>,
    url: Seq<char>,
    pages: Seq<PageResponse<T>>,
    k: int,
)
    requires
        0 <= k <= pages.len(),
        forall|j: int|
            0 <= j < k ==> (#[trigger] pages[j]) is Success && spec_page_next(pages[j]) is Some,
    ensures
        spec_run(acc, Some(url), pages) == spec_run(
            acc + spec_concat_items(pages.take(k)),
            if k == 0 {
                Some(url)
            } else {
                spec_page_next(pages[k - 1])
            },
            pages.skip(k),
        ),
    decreases k,
{
    if k == 0 {
        assert(pages.take(0) =~= Seq::<PageResponse<T>>::empty());
        assert(acc + spec_concat_items(pages.take(0)) =~= acc);
        assert(pages.skip(0) =~= pages);
    } else {
        let p0 = pages[0];
        assert(p0 is Success && spec_page_next(p0) is Some);
        match p0 {
            PageResponse::Success { items, next_url } => {
                let rest = pages.drop_first();
                assert forall|j: int|
                    0 <= j < k - 1 implies (#[trigger] rest[j]) is Success && spec_page_next(
                    rest[j],
                ) is Some by {
                    assert(rest[j] == pages[j + 1]);
                }
                match next_url {
                    Some(u2) => {
                        lemma_run_skips_success_prefix(acc + items@, u2@, rest, k - 1);
                        assert(pages.take(k).drop_first() =~= rest.take(k - 1));
                        assert(pages.take(k)[0] == p0);
                        assert(acc + spec_concat_items(pages.take(k)) =~= (acc + items@)
                            + spec_concat_items(rest.take(k - 1)));
                        assert(rest.skip(k - 1) =~= pages.skip(k));
                        if k > 1 {
                            assert(rest[k - 2] == pages[k - 1]);
                        }
                    },
                    None => {
                        assert(false);
                    },
                }
            },
            PageResponse::Failure { .. } => {
                assert(false);
            },
            PageResponse::Malformed { .. } => {
                assert(false);
            },
        }
    }
}

/// For a chain whose pages up to position `k` all succeed, where each of
/// those before `k` carries a next-page link and the `k`-th does not, the
/// fetch completes with exactly the concatenation of the records of pages
/// `0..=k`, in their order.  For a complete chain `k` is the last page;
/// when an earlier page lacks the next-link, the result is truncated to
/// the pages up to and including that one.
pub proof fn lemma_fetch_concatenates_pages<T>(
    url: Seq<char>,
    pages: Seq<PageResponse<T>>,
    k: int,
)
    requires
        0 <= k < pages.len(),
        forall|j: int|
            0 <= j < k ==> (#[trigger] pages[j]) is Success && spec_page_next(pages[j]) is Some,
        pages[k] is Success,
        spec_page_next(pages[k]) is None,
    ensures
        spec_run(Seq::<T>::empty(), Some(url), pages) == FetchRun::Complete(
            spec_concat_items(pages.take(k + 1)),
        ),
{
    lemma_run_skips_success_prefix(Seq::<T>::empty(), url, pages, k);
    lemma_concat_items_snoc(pages, k);
    assert(pages.skip(k)[0] == pages[k]);
    match pages[k] {
        PageResponse::Success { items, next_url } => {
            assert(spec_opt_text(next_url) is None);
            let c0 = Seq::<T>::empty() + spec_concat_items(pages.take(k));
            let nk = if k == 0 {
                Some(url)
            } else {
                spec_page_next(pages[k - 1])
            };
            if k > 0 {
                assert(pages[k - 1] is Success && spec_page_next(pages[k - 1]) is Some);
            }
            assert(pages.skip(k).len() > 0);
            assert(spec_run(c0 + items@, spec_opt_text(next_url), pages.skip(k).drop_first())
                == FetchRun::Complete(c0 + items@));
            assert(spec_run(c0, nk, pages.skip(k)) == spec_run(
                c0 + items@,
                spec_opt_text(next_url),
                pages.skip(k).drop_first(),
            ));
            assert(c0 + items@ =~= spec_concat_items(pages.take(k)) + spec_page_items(pages[k]));
        },
        PageResponse::Failure { .. } => {
            assert(false);
        },
        PageResponse::Malformed { .. } => {
            assert(false);
        },
    }
}

/// A page that comes back with a non-success status fails the whole fetch
/// with a network error carrying that page's body — also when every
/// earlier page succeeded: none of their records leak through.
pub proof fn lemma_fetch_fails_on_error_status<T>(
    url: Seq<char>,
    pages: Seq<PageResponse<T>>,
    k: int,
)
    requires
        0 <= k < pages.len(),
        forall|j: int|
            0 <= j < k ==> (#[trigger] pages[j]) is Success && spec_page_next(pages[j]) is Some,
        pages[k] is Failure,
    ensures
        pages[k] matches PageResponse::Failure { body } && spec_run(
            Seq::<T>::empty(),
            Some(url),
            pages,
        ) == FetchRun::<T>::NetworkFailed(body@),
{
    lemma_run_skips_success_prefix(Seq::<T>::empty(), url, pages, k);
    assert(pages.skip(k)[0] == pages[k]);
}

/// The next-page target of a pagination header: the raw URI of the entry
/// whose relation is `next`, if the header parses and carries one.
pub uninterp spec fn spec_next_rel_target(header: Seq<char>) -> Option<Seq<char>>;

/// Relies on parse_link_header's `parse_with_rel`: it splits a `link`
/// response header into its relation-keyed entries.  The wrapper hands back
/// the raw URI of the `next` relation, and `None` when the header does not
/// parse or has no such entry.
#[verifier::external_body]
fn next_rel_of(header: &str) -> (r: Option<String>)
    ensures
        match (r, spec_next_rel_target(header@)) {
            (Some(u), Some(v)) => u@ == v,
            (None, None) => true,
            _ => false,
        },
{
    match parse_link_header::parse_with_rel(header) {
        Ok(links) => links.get("next").map(|link| link.raw_uri.clone()),
        Err(_) => None,
    }
}

/// The next page URL carried by an optional `link` response header: absent
/// when the header itself is absent, does not parse, or lacks a `next`
/// relation.
pub fn next_page_url(header: Option<&str>) -> (r: Option<String>)
    ensures
        match header {
            Some(h) => match (r, spec_next_rel_target(h@)) {
                (Some(u), Some(v)) => u@ == v,
                (None, None) => true,
                _ => false,
            },
            None => r is None,
        },
{
    match header {
        Some(h) => next_rel_of(h),
        None => None,
    }
}

} // verus!
