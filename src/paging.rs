use vstd::prelude::*;

verus! {

/// What the export does with a page it has just received.
#[derive(Debug, Clone, Copy, PartialEq, Eq, Structural)]
pub enum PageAction {
    /// The page is empty: nothing to encode or fetch, the history is over.
    Stop,
    /// The page is short: encode it and fetch its attachments, then stop.
    ProcessThenStop,
    /// The page is full: encode it, fetch its attachments, ask for the next.
    ProcessThenContinue,
}

/// The abstract state of a cursor over one user's history.
pub struct CursorView {
    pub start_index: nat,
    pub page_size: nat,
    pub finished: bool,
}

/// The state in which a user's export begins.
pub open spec fn initial_cursor(page_size: nat) -> CursorView {
    CursorView { start_index: 0, page_size, finished: false }
}

/// A page ends the history when it holds fewer items than were asked for;
/// an empty page is one such page.
pub open spec fn is_last_page_spec(page_len: nat, page_size: nat) -> bool {
    page_len < page_size || page_len == 0
}

/// What a page of `page_len` items does to the cursor, and the action taken.
pub open spec fn next_cursor(c: CursorView, page_len: nat) -> (CursorView, PageAction) {
    if page_len == 0 {
        (CursorView { finished: true, ..c }, PageAction::Stop)
    } else if page_len < c.page_size {
        (CursorView { finished: true, ..c }, PageAction::ProcessThenStop)
    } else {
        (
            CursorView { start_index: c.start_index + c.page_size, ..c },
            PageAction::ProcessThenContinue,
        )
    }
}

/// The requests an export issues when the service answers them with pages of
/// the lengths in `lens`, in order: for each, its start index and the action
/// taken on the page that came back.
pub open spec fn run_requests(c: CursorView, lens: Seq<nat>) -> Seq<(nat, PageAction)>
    decreases lens.len(),
{
    if c.finished || lens.len() == 0 {
        Seq::empty()
    } else {
        let (next, action) = next_cursor(c, lens[0]);
        seq![(c.start_index, action)] + run_requests(next, lens.drop_first())
    }
}

/// The request for one page of a user's private messages.
#[derive(Debug, Clone, PartialEq, Eq)]
pub struct PageRequest {
    pub start_index: u64,
    pub max_results: u64,
    /// Oldest first when false.
    pub reversed: bool,
    /// The moment the export run began, fixed for all its requests.
    pub date: String,
}

/// The position in one user's message history.
#[derive(Debug)]
pub struct PageCursor {
    start_index: u64,
    page_size: u64,
    finished: bool,
}

impl View for PageCursor {
    type V = CursorView;

    closed spec fn view(&self) -> CursorView {
        CursorView {
            start_index: self.start_index as nat,
            page_size: self.page_size as nat,
            finished: self.finished,
        }
    }
}

/// Whether a page of `page_len` items, asked for with `page_size`, is the
/// last of the history.
pub fn is_last_page(page_len: usize, page_size: u64) -> (r: bool)
    ensures
        r == is_last_page_spec(page_len as nat, page_size as nat),
{
    page_len == 0 || (page_len as u128) < (page_size as u128)
}

impl PageCursor {
    /// A cursor at the start of a user's history.
    pub fn new(page_size: u64) -> (r: PageCursor)
        ensures
            r@ == initial_cursor(page_size as nat),
    {
        PageCursor { start_index: 0, page_size, finished: false }
    }

    pub fn start_index(&self) -> (r: u64)
        ensures
            r as nat == self@.start_index,
    {
        self.start_index
    }

    pub fn page_size(&self) -> (r: u64)
        ensures
            r as nat == self@.page_size,
    {
        self.page_size
    }

    /// Whether the history is exhausted: no further page is to be asked for.
    pub fn is_finished(&self) -> (r: bool)
        ensures
            r == self@.finished,
    {
        self.finished
    }

    /// The request for the page at the cursor, dated `reference_date`.
    pub fn request(&self, reference_date: &String) -> (r: PageRequest)
        ensures
            r.start_index as nat == self@.start_index,
            r.max_results as nat == self@.page_size,
            !r.reversed,
            r.date@ == reference_date@,
    {
        PageRequest {
            start_index: self.start_index,
            max_results: self.page_size,
            reversed: false,
            date: reference_date.clone(),
        }
    }

    /// Takes in the length of the page that answered the request at the
    /// cursor: says what to do with the page and moves the cursor on by one
    /// page, or marks the history finished.
    pub fn on_page(&mut self, page_len: usize) -> (a: PageAction)
        requires
            !old(self)@.finished,
            old(self)@.start_index + old(self)@.page_size <= u64::MAX,
        ensures
            (final(self)@, a) == next_cursor(old(self)@, page_len as nat),
    {
        if page_len == 0 {
            self.finished = true;
            PageAction::Stop
        } else if is_last_page(page_len, self.page_size) {
            self.finished = true;
            PageAction::ProcessThenStop
        } else {
            self.start_index = self.start_index + self.page_size;
            PageAction::ProcessThenContinue
        }
    }
}

proof fn lemma_run_starts_from(c: CursorView, lens: Seq<nat>)
    ensures
        forall|i: int|
            0 <= i < run_requests(c, lens).len() ==> #[trigger] run_requests(c, lens)[i].0
                == c.start_index + i * c.page_size,
    decreases lens.len(),
{
    if !c.finished && lens.len() > 0 {
        let next = next_cursor(c, lens[0]).0;
        lemma_run_starts_from(next, lens.drop_first());
        let rest = run_requests(next, lens.drop_first());
        assert forall|i: int| 0 <= i < run_requests(c, lens).len() implies #[trigger] run_requests(
            c,
            lens,
        )[i].0 == c.start_index + i * c.page_size by {
            if i > 0 {
                assert(run_requests(c, lens)[i] == rest[i - 1]);
                if !next.finished {
                    assert(next.start_index == c.start_index + c.page_size);
                    assert(c.start_index + c.page_size + (i - 1) * c.page_size == c.start_index + i
                        * c.page_size) by (nonlinear_arith);
                }
            }
        }
    }
}

/// Over one user's export, the n-th request (from zero) asks for the page
/// that starts at n times the page size, whatever the pages that came back.
pub proof fn lemma_requests_advance_by_page_size(page_size: nat, lens: Seq<nat>)
    ensures
        forall|i: int|
            0 <= i < run_requests(initial_cursor(page_size), lens).len() ==> #[trigger] run_requests(
                initial_cursor(page_size),
                lens,
            )[i].0 == i * page_size,
{
    lemma_run_starts_from(initial_cursor(page_size), lens);
}

proof fn lemma_run_stops_from(c: CursorView, lens: Seq<nat>, k: int)
    requires
        !c.finished,
        0 <= k < lens.len(),
        is_last_page_spec(lens[k], c.page_size),
        forall|j: int| 0 <= j < k ==> !is_last_page_spec(#[trigger] lens[j], c.page_size),
    ensures
        run_requests(c, lens).len() == k + 1,
        forall|j: int| 0 <= j < k ==> #[trigger] run_requests(c, lens)[j].1
            == PageAction::ProcessThenContinue,
        run_requests(c, lens)[k].1 == (if lens[k] == 0 {
            PageAction::Stop
        } else {
            PageAction::ProcessThenStop
        }),
    decreases k,
{
    let next = next_cursor(c, lens[0]).0;
    let tail = lens.drop_first();
    if k > 0 {
        assert(!is_last_page_spec(lens[0], c.page_size));
        assert forall|j: int| 0 <= j < k - 1 implies !is_last_page_spec(
            #[trigger] tail[j],
            next.page_size,
        ) by {
            assert(tail[j] == lens[j + 1]);
        }
        lemma_run_stops_from(next, tail, k - 1);
        let rest = run_requests(next, tail);
        assert forall|j: int| 0 <= j < k implies #[trigger] run_requests(c, lens)[j].1
            == PageAction::ProcessThenContinue by {
            if j > 0 {
                assert(run_requests(c, lens)[j] == rest[j - 1]);
            }
        }
        assert(run_requests(c, lens)[k] == rest[k - 1]);
    } else {
        assert(next.finished);
        assert(run_requests(next, tail).len() == 0);
    }
}

/// An export asks for pages until the first page that is empty or short,
/// that one included, and no further. Every page before it is full and is
/// processed; the short one is processed too, the empty one is not.
pub proof fn lemma_requests_stop_at_first_last_page(page_size: nat, lens: Seq<nat>, k: int)
    requires
        0 <= k < lens.len(),
        is_last_page_spec(lens[k], page_size),
        forall|j: int| 0 <= j < k ==> !is_last_page_spec(#[trigger] lens[j], page_size),
    ensures
        run_requests(initial_cursor(page_size), lens).len() == k + 1,
        forall|j: int|
            0 <= j < k ==> #[trigger] run_requests(initial_cursor(page_size), lens)[j].1
                == PageAction::ProcessThenContinue,
        run_requests(initial_cursor(page_size), lens)[k].1 == (if lens[k] == 0 {
            PageAction::Stop
        } else {
            PageAction::ProcessThenStop
        }),
{
    lemma_run_stops_from(initial_cursor(page_size), lens, k);
}

} // verus!
