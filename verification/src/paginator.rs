//! Cursor pagination with rate-limit backoff.
//!
//! A paginated endpoint answers each fetch with a page: a `data` array, a
//! `nextPageCursor` that is a string or null, and possibly an `errors`
//! array. [`Traversal`] materializes the whole collection: the transport
//! fetches the traversal's current URL, parses the response into a
//! [`Page`] of plain values, and hands it to [`Traversal::step`], which
//! accumulates the items in received order and decides the next fetch.
//!
//! A page whose first error message is the throttling sentinel is retried
//! once at the very same URL after a backoff delay. A page whose `data`
//! failed to parse contributes nothing but never aborts the traversal: its
//! cursor is still honoured. The traversal ends exactly when a page carries
//! a null or absent cursor.

use vstd::prelude::*;
use vstd::string::StringExecFns;

use crate::errors::{RobloxApiErrorResponse, opt_string_view};
use crate::urls::{page_url, spec_page_url};

verus! {

/// How long the transport waits before re-fetching a throttled page.
pub const BACKOFF_SECONDS: u64 = 3;

/// One page response, reduced to the plain fields the traversal reads.
pub struct Page<T> {
    /// The page's items, in server order; `None` when the `data` field was
    /// absent or failed to parse as the target type.
    pub data: Option<Vec<T>>,
    /// The cursor of the next page; `None` when null or absent.
    pub next_cursor: Option<String>,
    /// The page's `errors` array, when present.
    pub errors: Option<Vec<RobloxApiErrorResponse>>,
}

/// A traversal in progress: the accumulator and the URL to fetch next.
pub struct Traversal<T> {
    /// The URL of the collection's first page; cursors are appended to it.
    pub base_url: String,
    /// The URL whose response the traversal expects next.
    pub current_url: String,
    /// Every item received so far, in page order and within-page order.
    pub items: Vec<T>,
    /// Whether the current URL has already been retried after throttling.
    pub throttle_retried: bool,
    /// Whether a page with a null cursor has ended the traversal.
    pub done: bool,
}

/// What the transport must do next with the traversal.
pub enum FetchPlan {
    /// Fetch this URL; after the backoff delay when `backoff` is set.
    Fetch { url: String, backoff: bool },
    /// The collection is fully materialized.
    Done,
}

/// The mathematical state of a traversal.
#[verifier::ext_equal]
pub struct TraversalModel<T> {
    pub base: Seq<char>,
    pub current: Seq<char>,
    pub items: Seq<T>,
    pub throttle_retried: bool,
    pub done: bool,
}

/// The mathematical content of a page.
#[verifier::ext_equal]
pub struct PageModel<T> {
    pub data: Option<Seq<T>>,
    pub cursor: Option<Seq<char>>,
    pub throttled: bool,
}

/// The mathematical content of a fetch plan.
#[verifier::ext_equal]
pub enum PlanModel {
    Fetch { url: Seq<char>, backoff: bool },
    Done,
}

/// Whether a page reports throttling: its first error entry's message is
/// the sentinel "TooManyRequests".
pub open spec fn spec_throttled<T>(p: Page<T>) -> bool {
    match p.errors {
        Some(es) => es@.len() > 0 && (match es@[0].message {
            Some(m) => m@ == "TooManyRequests"@,
            None => false,
        }),
        None => false,
    }
}

impl<T> View for Page<T> {
    type V = PageModel<T>;

    open spec fn view(&self) -> PageModel<T> {
        PageModel {
            data: match self.data {
                Some(d) => Some(d@),
                None => None,
            },
            cursor: opt_string_view(self.next_cursor),
            throttled: spec_throttled(*self),
        }
    }
}

impl<T> View for Traversal<T> {
    type V = TraversalModel<T>;

    open spec fn view(&self) -> TraversalModel<T> {
        TraversalModel {
            base: self.base_url@,
            current: self.current_url@,
            items: self.items@,
            throttle_retried: self.throttle_retried,
            done: self.done,
        }
    }
}

impl View for FetchPlan {
    type V = PlanModel;

    open spec fn view(&self) -> PlanModel {
        match *self {
            FetchPlan::Fetch { url, backoff } => PlanModel::Fetch { url: url@, backoff },
            FetchPlan::Done => PlanModel::Done,
        }
    }
}

/// Whether a plan asks for a delayed fetch.
pub open spec fn spec_plan_backoff(p: PlanModel) -> bool {
    match p {
        PlanModel::Fetch { url, backoff } => backoff,
        PlanModel::Done => false,
    }
}

/// One transition of the traversal. A throttled page that has not yet been
/// retried is discarded and its URL re-fetched after a backoff. Any other
/// page is consumed: its items (none, when malformed) extend the
/// accumulator, and its cursor either ends the traversal or names the next
/// page.
pub open spec fn spec_traversal_step<T>(t: TraversalModel<T>, p: PageModel<T>) -> (
    TraversalModel<T>,
    PlanModel,
) {
    if p.throttled && !t.throttle_retried {
        (
            TraversalModel { throttle_retried: true, ..t },
            PlanModel::Fetch { url: t.current, backoff: true },
        )
    } else {
        let items = match p.data {
            Some(d) => t.items + d,
            None => t.items,
        };
        match p.cursor {
            None => (TraversalModel { items, done: true, ..t }, PlanModel::Done),
            Some(c) => (
                TraversalModel {
                    items,
                    current: spec_page_url(t.base, c),
                    throttle_retried: false,
                    ..t
                },
                PlanModel::Fetch { url: spec_page_url(t.base, c), backoff: false },
            ),
        }
    }
}

/// Whether a page reports throttling.
pub fn is_throttled<T>(p: &Page<T>) -> (r: bool)
    ensures
        r == spec_throttled(*p),
{
    match &p.errors {
        Some(es) => {
            if es.len() > 0 {
                match &es[0].message {
                    Some(m) => {
                        let sentinel = String::from_str("TooManyRequests");
                        *m == sentinel
                    },
                    None => false,
                }
            } else {
                false
            }
        },
        None => false,
    }
}

impl<T> Traversal<T> {
    /// Begin a traversal: the first fetch targets the base URL itself.
    pub fn new(base_url: String) -> (t: Traversal<T>)
        ensures
            t@.base == base_url@,
            t@.current == base_url@,
            t@.items == Seq::<T>::empty(),
            !t@.throttle_retried,
            !t@.done,
    {
        let current_url = base_url.clone();
        Traversal { base_url, current_url, items: Vec::new(), throttle_retried: false, done: false }
    }

    /// Consume one page response and decide the next fetch.
    pub fn step(&mut self, page: Page<T>) -> (plan: FetchPlan)
        requires
            !old(self)@.done,
        ensures
            final(self)@ == spec_traversal_step(old(self)@, page@).0,
            plan@ == spec_traversal_step(old(self)@, page@).1,
    {
        let ghost t0 = self@;
        let ghost p0 = page@;
        let throttled = is_throttled(&page);
        if throttled && !self.throttle_retried {
            self.throttle_retried = true;
            let url = self.current_url.clone();
            let plan = FetchPlan::Fetch { url, backoff: true };
            proof {
                assert(self@ =~= spec_traversal_step(t0, p0).0);
                assert(plan@ =~= spec_traversal_step(t0, p0).1);
            }
            plan
        } else {
            match page.data {
                Some(mut d) => self.items.append(&mut d),
                None => {},
            }
            match page.next_cursor {
                None => {
                    self.done = true;
                    proof {
                        assert(self@ =~= spec_traversal_step(t0, p0).0);
                        assert(FetchPlan::Done@ =~= spec_traversal_step(t0, p0).1);
                    }
                    FetchPlan::Done
                },
                Some(c) => {
                    let url = page_url(self.base_url.as_str(), c.as_str());
                    self.current_url = url.clone();
                    self.throttle_retried = false;
                    let plan = FetchPlan::Fetch { url, backoff: false };
                    proof {
                        assert(self@ =~= spec_traversal_step(t0, p0).0);
                        assert(plan@ =~= spec_traversal_step(t0, p0).1);
                    }
                    plan
                },
            }
        }
    }
}

/// A traversal never terminates early: it is done after a step exactly
/// when the page was consumed (not discarded for a throttle retry) and its
/// cursor was null or absent — and the plan is `Done` exactly then.
pub proof fn lemma_ends_only_on_null_cursor<T>(t: TraversalModel<T>, p: PageModel<T>)
    requires
        !t.done,
    ensures
        ({
            let (t1, a1) = spec_traversal_step(t, p);
            &&& (t1.done <==> !(p.throttled && !t.throttle_retried) && p.cursor is None)
            &&& (a1 is Done <==> t1.done)
        }),
{
}

/// Pagination termination: from a fresh traversal, three pages whose
/// cursors run `c1`, `c2`, then null make exactly three fetches — the base
/// URL, then the base with each cursor appended — end the traversal, and
/// accumulate the three pages' items in page order and within-page order.
pub proof fn lemma_pagination_termination<T>(
    t0: TraversalModel<T>,
    p1: PageModel<T>,
    p2: PageModel<T>,
    p3: PageModel<T>,
    c1: Seq<char>,
    c2: Seq<char>,
)
    requires
        !t0.done,
        !t0.throttle_retried,
        t0.items == Seq::<T>::empty(),
        t0.current == t0.base,
        !p1.throttled,
        p1.cursor == Some(c1),
        p1.data is Some,
        !p2.throttled,
        p2.cursor == Some(c2),
        p2.data is Some,
        !p3.throttled,
        p3.cursor is None,
        p3.data is Some,
    ensures
        ({
            let (t1, a1) = spec_traversal_step(t0, p1);
            let (t2, a2) = spec_traversal_step(t1, p2);
            let (t3, a3) = spec_traversal_step(t2, p3);
            &&& a1 == (PlanModel::Fetch { url: spec_page_url(t0.base, c1), backoff: false })
            &&& a2 == (PlanModel::Fetch { url: spec_page_url(t0.base, c2), backoff: false })
            &&& a3 is Done
            &&& t3.done
            &&& t3.items =~= p1.data->0 + p2.data->0 + p3.data->0
        }),
{
}

/// Rate-limit backoff: a throttled page is not consumed; the traversal
/// re-fetches the very URL that produced it, once, after a backoff delay —
/// and the page that answers the retry is handled normally, with no second
/// backoff for the same cursor.
pub proof fn lemma_throttle_retries_same_url<T>(
    t: TraversalModel<T>,
    p: PageModel<T>,
    retry_page: PageModel<T>,
)
    requires
        !t.done,
        !t.throttle_retried,
        p.throttled,
    ensures
        ({
            let (t1, a1) = spec_traversal_step(t, p);
            &&& a1 == (PlanModel::Fetch { url: t.current, backoff: true })
            &&& t1.current == t.current
            &&& t1.items == t.items
            &&& t1.throttle_retried
            &&& !t1.done
            &&& !spec_plan_backoff(spec_traversal_step(t1, retry_page).1)
        }),
{
}

/// Malformed page resilience: a page whose `data` failed to parse
/// contributes no items, yet its cursor is still honoured — the traversal
/// proceeds or terminates exactly as the cursor says.
pub proof fn lemma_malformed_page_keeps_going<T>(t: TraversalModel<T>, p: PageModel<T>)
    requires
        !t.done,
        p.data is None,
        !(p.throttled && !t.throttle_retried),
    ensures
        ({
            let (t1, a1) = spec_traversal_step(t, p);
            &&& t1.items == t.items
            &&& (p.cursor matches Some(c) ==> !t1.done && a1 == (PlanModel::Fetch {
                url: spec_page_url(t.base, c),
                backoff: false,
            }))
            &&& (p.cursor is None ==> t1.done && a1 is Done)
        }),
{
}

} // verus!
