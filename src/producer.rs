use vstd::prelude::*;

use crate::catalog::{
    expand_posts, first_page_url, first_url, next_page_url, next_url, work_items,
    DownloadablePhoto, Response, ResponseEnvelope, WorkItem,
};

verus! {

/// What the catalog walker asks its driver to do next.
pub enum ProducerAction {
    /// Fetch the page at this locator and hand it to `on_page`.
    Fetch(String),
    /// Put this download on the queue.
    Send(DownloadablePhoto),
    /// Close the queue: the catalog is exhausted.
    Close,
}

/// The value of a `ProducerAction`.
pub enum Step {
    Fetch(Seq<char>),
    Send(WorkItem),
    Close,
}

impl View for ProducerAction {
    type V = Step;

    open spec fn view(&self) -> Step {
        match self {
            ProducerAction::Fetch(u) => Step::Fetch(u@),
            ProducerAction::Send(d) => Step::Send(d@),
            ProducerAction::Close => Step::Close,
        }
    }
}

/// The catalog reported an application-level failure.
pub struct StatusError {
    pub status: u16,
    pub msg: String,
}

/// What a fetched page means to the walker: whether the catalog reported
/// success, the downloads of its entries in order, and the next page's locator.
pub struct Page {
    pub ok: bool,
    pub items: Seq<WorkItem>,
    pub next: Option<Seq<char>>,
}

/// The meaning of a fetched page, for a walker that holds `api_key`.
pub open spec fn page_of(page: ResponseEnvelope<Response>, api_key: Seq<char>) -> Page {
    Page {
        ok: page.meta.status == 200,
        items: expand_posts(page.response.posts@),
        next: match page.response.links {
            Some(l) => Some(next_page_url(l.next.href@, api_key)),
            None => None,
        },
    }
}

/// The state of the catalog walker.
pub struct ProducerView {
    pub api_key: Seq<char>,
    /// Downloads of the current page not yet put on the queue.
    pub pending: Seq<WorkItem>,
    /// Locator of the page to fetch once `pending` is empty.
    pub next: Option<Seq<char>>,
    /// A fetch was asked for and its page has not arrived.
    pub awaiting: bool,
    /// A page reported failure; the walker has stopped.
    pub failed: bool,
}

/// The walk of one collection: the current page's downloads and where the next page is.
pub struct Producer {
    api_key: String,
    pending: Vec<DownloadablePhoto>,
    next: Option<String>,
    awaiting: bool,
    failed: bool,
}

impl View for Producer {
    type V = ProducerView;

    closed spec fn view(&self) -> ProducerView {
        ProducerView {
            api_key: self.api_key@,
            pending: work_items(self.pending@),
            next: match self.next {
                Some(u) => Some(u@),
                None => None,
            },
            awaiting: self.awaiting,
            failed: self.failed,
        }
    }
}

/// The walker before anything was fetched.
pub open spec fn initial(blog: Seq<char>, api_key: Seq<char>) -> ProducerView {
    ProducerView {
        api_key,
        pending: Seq::empty(),
        next: Some(first_page_url(blog, api_key)),
        awaiting: false,
        failed: false,
    }
}

/// The action a walker takes in state `v`: send the next pending download,
/// else fetch the next page, else close.
pub open spec fn step_of(v: ProducerView) -> Step {
    if v.pending.len() > 0 {
        Step::Send(v.pending[0])
    } else if v.next is Some {
        Step::Fetch(v.next->0)
    } else {
        Step::Close
    }
}

/// The state after the action of `step_of(v)`.
pub open spec fn after_step(v: ProducerView) -> ProducerView {
    if v.pending.len() > 0 {
        ProducerView { pending: v.pending.drop_first(), ..v }
    } else if v.next is Some {
        ProducerView { next: None, awaiting: true, ..v }
    } else {
        v
    }
}

/// The state once the awaited page `pg` has arrived.
pub open spec fn loaded(v: ProducerView, pg: Page) -> ProducerView {
    if pg.ok {
        ProducerView { pending: pg.items, next: pg.next, awaiting: false, ..v }
    } else {
        ProducerView { awaiting: false, failed: true, ..v }
    }
}

/// The actions of a walker in state `v` when each fetch is answered by the
/// next of `pages`; it stops at a failed page or when `pages` runs out.
pub open spec fn drive(v: ProducerView, pages: Seq<Page>) -> Seq<Step>
    decreases pages.len(), v.pending.len(), if v.next is Some { 1nat } else { 0nat },
{
    if v.pending.len() > 0 {
        seq![step_of(v)] + drive(after_step(v), pages)
    } else if v.next is Some {
        seq![step_of(v)] + if pages.len() == 0 || !pages[0].ok {
            Seq::empty()
        } else {
            drive(loaded(after_step(v), pages[0]), pages.drop_first())
        }
    } else {
        seq![Step::Close]
    }
}

/// The actions that one page of a catalog calls for: each of its downloads in
/// order, then the fetch of the next page, or the close when it has none.
pub open spec fn page_steps(pg: Page) -> Seq<Step> {
    pg.items.map_values(|w: WorkItem| Step::Send(w)) + seq![
        match pg.next {
            Some(u) => Step::Fetch(u),
            None => Step::Close,
        },
    ]
}

/// The actions that a sequence of pages calls for, page after page.
pub open spec fn catalog_steps(pages: Seq<Page>) -> Seq<Step>
    decreases pages.len(),
{
    if pages.len() == 0 {
        Seq::empty()
    } else {
        page_steps(pages[0]) + catalog_steps(pages.drop_first())
    }
}

/// A catalog of successful pages, each but the last linking to a next one.
pub open spec fn well_linked(pages: Seq<Page>) -> bool {
    &&& pages.len() > 0
    &&& forall|i: int| 0 <= i < pages.len() ==> #[trigger] pages[i].ok
    &&& forall|i: int| 0 <= i < pages.len() ==> (#[trigger] pages[i].next is Some <==> i < pages.len() - 1)
}

impl Producer {
    /// A walker of the collection `blog_identifier`, whose first action is
    /// the fetch of its first page.
    pub fn new(blog_identifier: &str, api_key: &str) -> (r: Producer)
        ensures
            r@ == initial(blog_identifier@, api_key@),
    {
        let first = first_url(blog_identifier, api_key);
        let p = Producer {
            api_key: String::from_str(api_key),
            pending: Vec::new(),
            next: Some(first),
            awaiting: false,
            failed: false,
        };
        assert(work_items(p.pending@) =~= Seq::empty());
        p
    }

    /// A fetch was asked for and its page has not been handed in yet.
    pub fn awaiting_page(&self) -> (r: bool)
        ensures
            r == self@.awaiting,
    {
        self.awaiting
    }

    /// A page reported failure and the walker has stopped.
    pub fn has_failed(&self) -> (r: bool)
        ensures
            r == self@.failed,
    {
        self.failed
    }

    /// The walker's next action; it must not be waiting for a page, nor have failed.
    pub fn next_action(&mut self) -> (r: ProducerAction)
        requires
            !old(self)@.awaiting,
            !old(self)@.failed,
        ensures
            r@ == step_of(old(self)@),
            final(self)@ == after_step(old(self)@),
    {
        if self.pending.len() > 0 {
            let ghost before = self.pending@;
            let item = self.pending.remove(0);
            assert(work_items(self.pending@) =~= work_items(before).drop_first());
            ProducerAction::Send(item)
        } else if let Some(url) = self.next.take() {
            self.awaiting = true;
            ProducerAction::Fetch(url)
        } else {
            ProducerAction::Close
        }
    }

    /// Takes in the awaited page. On a page that reports failure the walker
    /// stops and the failure is returned.
    pub fn on_page(&mut self, page: ResponseEnvelope<Response>) -> (r: Result<(), StatusError>)
        requires
            old(self)@.awaiting,
            !old(self)@.failed,
        ensures
            final(self)@ == loaded(old(self)@, page_of(page, old(self)@.api_key)),
            r is Ok <==> page.meta.status == 200,
            r matches Err(e) ==> e.status == page.meta.status && e.msg@ == page.meta.msg@,
    {
        if !page.meta.is_success() {
            self.awaiting = false;
            self.failed = true;
            return Err(StatusError { status: page.meta.status, msg: page.meta.msg });
        }
        let next = match &page.response.links {
            Some(l) => Some(next_url(l.next.href.as_str(), self.api_key.as_str())),
            None => None,
        };
        let posts = &page.response.posts;
        let mut items: Vec<DownloadablePhoto> = Vec::new();
        let mut i: usize = 0;
        while i < posts.len()
            invariant
                i <= posts@.len(),
                work_items(items@) == expand_posts(posts@.take(i as int)),
            decreases posts@.len() - i,
        {
            let mut more = posts[i].downloads();
            let ghost a = items@;
            let ghost b = more@;
            items.append(&mut more);
            assert(work_items(items@) =~= work_items(a) + work_items(b));
            assert(posts@.take(i + 1).drop_last() =~= posts@.take(i as int));
            i = i + 1;
        }
        assert(posts@.take(posts@.len() as int) =~= posts@);
        self.pending = items;
        self.next = next;
        self.awaiting = false;
        Ok(())
    }
}

/// A closed walker stays closed: after a close, its next action is a close again.
pub proof fn lemma_closed_stays_closed(v: ProducerView)
    requires
        step_of(v) == Step::Close,
    ensures
        after_step(v) == v,
        step_of(after_step(v)) == Step::Close,
{
}

/// Pending downloads go out one by one, in order, before anything else.
proof fn lemma_drain(v: ProducerView, pages: Seq<Page>)
    ensures
        drive(v, pages) == v.pending.map_values(|w: WorkItem| Step::Send(w)) + drive(
            ProducerView { pending: Seq::empty(), ..v },
            pages,
        ),
    decreases v.pending.len(),
{
    let sends = v.pending.map_values(|w: WorkItem| Step::Send(w));
    let rest = ProducerView { pending: Seq::empty(), ..v };
    if v.pending.len() == 0 {
        assert(v.pending =~= Seq::<WorkItem>::empty());
        assert(v == rest);
        assert(sends =~= Seq::empty());
    } else {
        let w = after_step(v);
        lemma_drain(w, pages);
        assert(ProducerView { pending: Seq::empty(), ..w } == rest);
        assert(sends =~= seq![step_of(v)] + w.pending.map_values(|x: WorkItem| Step::Send(x)));
    }
}

proof fn lemma_drive_loaded(v: ProducerView, pages: Seq<Page>)
    requires
        well_linked(pages),
    ensures
        drive(loaded(v, pages[0]), pages.drop_first()) == catalog_steps(pages),
    decreases pages.len(),
{
    let s = loaded(v, pages[0]);
    let rest = pages.drop_first();
    assert(pages[0].ok);
    lemma_drain(s, rest);
    let e = ProducerView { pending: Seq::empty(), ..s };
    if rest.len() == 0 {
        assert(pages[0].next is None);
        assert(catalog_steps(rest) =~= Seq::empty());
        assert(drive(e, rest) == seq![Step::Close]);
    } else {
        assert(pages[0].next is Some);
        assert forall|i: int| 0 <= i < rest.len() implies #[trigger] rest[i].ok by {
            assert(pages[i + 1].ok);
        }
        assert forall|i: int| 0 <= i < rest.len() implies (#[trigger] rest[i].next is Some <==> i
            < rest.len() - 1) by {
            assert(pages[i + 1].next is Some <==> i + 1 < pages.len() - 1);
        }
        assert(rest[0].ok);
        lemma_drive_loaded(after_step(e), rest);
        assert(drive(e, rest) == seq![Step::Fetch(pages[0].next->0)] + catalog_steps(rest));
    }
    assert(drive(s, rest) =~= catalog_steps(pages));
}

/// Walking a well-linked catalog, the walker fetches the first page, then for
/// each page puts all of its downloads on the queue in order before it fetches
/// the next page, and closes the queue after the last page's downloads,
/// fetching nothing more.
pub proof fn lemma_catalog_order(blog: Seq<char>, api_key: Seq<char>, pages: Seq<Page>)
    requires
        well_linked(pages),
    ensures
        drive(initial(blog, api_key), pages) == seq![Step::Fetch(first_page_url(blog, api_key))]
            + catalog_steps(pages),
{
    let v = initial(blog, api_key);
    assert(pages[0].ok);
    lemma_drive_loaded(after_step(v), pages);
}

} // verus!
