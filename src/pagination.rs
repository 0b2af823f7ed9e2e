use crate::error::AppError;
use vstd::prelude::*;

verus! {

/// The `result` field of a transaction-list reply: the list of records, or a
/// failure text where a list was expected.
pub enum PageResult<R> {
    Success(Vec<R>),
    Failed(Option<String>),
}

/// A decoded transaction-list reply: status `"1"` means success.
pub struct TransactionResponse<R> {
    pub status: String,
    pub message: String,
    pub result: PageResult<R>,
}

/// What came back for one page request.
pub enum PageReply<R> {
    /// The request could not be sent or no reply was received.
    SendFailed,
    /// A reply arrived with this HTTP status; `body` is its decoded envelope,
    /// or `None` when the body did not decode.
    Received { http_status: u16, body: Option<TransactionResponse<R>> },
}

/// Where the pagination stands.
#[derive(Clone, Copy, PartialEq, Eq, Structural, Debug)]
pub enum Phase {
    /// Another page is to be requested.
    Fetching,
    /// The last page has been seen.
    Complete,
    /// Stopped early: the next page would pass the results cap.
    Truncated,
}

/// What to do next.
#[derive(Clone, Copy, PartialEq, Eq, Structural, Debug)]
pub enum PagerStep {
    /// Request this page number.
    Fetch(usize),
    /// All records have been collected.
    Complete,
    /// Stop: the address has more records than the results cap lets one read.
    Truncated,
}

/// The message with which the API signals an empty result.
pub open spec fn no_transactions_message() -> Seq<char> {
    "No transactions found"@
}

/// The status text of a successful reply.
pub open spec fn success_status() -> Seq<char> {
    "1"@
}

/// Pagination seen as values.
pub ghost struct PagerState<R> {
    /// Records requested per page (the request's `offset`).
    pub page_size: nat,
    /// Highest `page * page_size` that may be requested.
    pub results_cap: nat,
    /// The page number to request next.
    pub page: nat,
    pub phase: Phase,
    /// Records collected so far, in arrival order.
    pub records: Seq<R>,
    /// The record lists of the pages received so far, in arrival order.
    pub pages: Seq<Seq<R>>,
}

impl<R> PagerState<R> {
    /// The state before the first request.
    pub open spec fn initial(page_size: nat, results_cap: nat) -> PagerState<R> {
        PagerState {
            page_size,
            results_cap,
            page: 1,
            phase: Phase::Fetching,
            records: seq![],
            pages: seq![],
        }
    }

    /// The records are the received pages one after another, and the page
    /// counter stays within one past the cap.
    pub open spec fn valid(self) -> bool {
        &&& self.page_size > 0
        &&& 1 <= self.page <= self.results_cap + 1
        &&& self.records == self.pages.flatten()
    }

    /// Whether the current page may be requested under the results cap.
    pub open spec fn within_cap(self) -> bool {
        self.page * self.page_size <= self.results_cap
    }

    /// Whether a request for the current page is outstanding: the state that
    /// `next_step` leaves when it answers `Fetch`.
    pub open spec fn awaiting_reply(self) -> bool {
        self.phase == Phase::Fetching && self.within_cap()
    }

    /// The next step and the state it leaves.
    pub open spec fn step(self) -> (PagerState<R>, PagerStep) {
        match self.phase {
            Phase::Fetching => if self.within_cap() {
                (self, PagerStep::Fetch(self.page as usize))
            } else {
                (PagerState { phase: Phase::Truncated, ..self }, PagerStep::Truncated)
            },
            Phase::Complete => (self, PagerStep::Complete),
            Phase::Truncated => (self, PagerStep::Truncated),
        }
    }

    /// The state after a page of `items` arrived with a success status: an
    /// empty page ends without adding, a short page is added and ends, a
    /// full page is added and the next page follows.
    pub open spec fn after_page(self, items: Seq<R>) -> PagerState<R> {
        let pages = self.pages.push(items);
        if items.len() == 0 {
            PagerState { phase: Phase::Complete, pages, ..self }
        } else if items.len() < self.page_size {
            PagerState { phase: Phase::Complete, records: self.records + items, pages, ..self }
        } else {
            PagerState { page: self.page + 1, records: self.records + items, pages, ..self }
        }
    }

    /// The state after a reply, or the error it is.
    pub open spec fn after_reply(self, reply: PageReply<R>) -> Result<PagerState<R>, AppError> {
        match reply {
            PageReply::SendFailed => Err(AppError::ErrorSendingHttpRequest),
            PageReply::Received { http_status, body } => if http_status != 200 {
                Err(AppError::ErrorHttpStatus(http_status))
            } else {
                match body {
                    None => Err(AppError::ErrorJsonParsing),
                    Some(resp) => if resp.status@ == success_status() {
                        match resp.result {
                            PageResult::Success(items) => Ok(self.after_page(items@)),
                            PageResult::Failed(text) => Err(AppError::ErrorUnexpectedResult(text)),
                        }
                    } else if resp.message@ == no_transactions_message() {
                        Ok(PagerState { phase: Phase::Complete, ..self })
                    } else {
                        Err(AppError::ErrorApiResponse(resp.message))
                    },
                }
            },
        }
    }
}

/// Pagination through a transaction list: it says which page to request
/// next and takes each reply in turn, collecting the records.
pub struct Pager<R> {
    page_size: usize,
    results_cap: usize,
    page: u128,
    phase: Phase,
    records: Vec<R>,
    pages: Ghost<Seq<Seq<R>>>,
}

impl<R> View for Pager<R> {
    type V = PagerState<R>;

    closed spec fn view(&self) -> PagerState<R> {
        PagerState {
            page_size: self.page_size as nat,
            results_cap: self.results_cap as nat,
            page: self.page as nat,
            phase: self.phase,
            records: self.records@,
            pages: self.pages@,
        }
    }
}

impl<R> Pager<R> {
    /// The pager's state is valid.
    pub open spec fn wf(&self) -> bool {
        self@.valid()
    }

    /// Pagination with `page_size` records per page that requests no page
    /// whose `page * page_size` passes `results_cap`.
    pub fn new(page_size: usize, results_cap: usize) -> (p: Pager<R>)
        requires
            page_size > 0,
        ensures
            p.wf(),
            p@ == PagerState::<R>::initial(page_size as nat, results_cap as nat),
    {
        let p = Pager {
            page_size,
            results_cap,
            page: 1,
            phase: Phase::Fetching,
            records: Vec::new(),
            pages: Ghost(Seq::empty()),
        };
        assert(p@.records =~= p@.pages.flatten());
        p
    }

    /// The next step: the page to request, or why to stop.
    pub fn next_step(&mut self) -> (r: PagerStep)
        requires
            old(self).wf(),
        ensures
            final(self).wf(),
            (final(self)@, r) == old(self)@.step(),
    {
        match self.phase {
            Phase::Fetching => {
                let ghost cap1 = self.results_cap as u128 + 1;
                assert(self.page * (self.page_size as u128) <= cap1 * (self.page_size as u128))
                    by (nonlinear_arith)
                    requires
                        self.page <= cap1,
                ;
                assert(cap1 * (self.page_size as u128) <= 0x1_0000_0000_0000_0000u128 * 0xffff_ffff_ffff_ffffu128)
                    by (nonlinear_arith)
                    requires
                        cap1 <= 0x1_0000_0000_0000_0000u128,
                        self.page_size <= 0xffff_ffff_ffff_ffffu128,
                ;
                if self.page * (self.page_size as u128) <= self.results_cap as u128 {
                    assert(self.page <= self.results_cap as u128) by (nonlinear_arith)
                        requires
                            self.page * (self.page_size as u128) <= self.results_cap as u128,
                            self.page_size >= 1,
                    ;
                    PagerStep::Fetch(self.page as usize)
                } else {
                    self.phase = Phase::Truncated;
                    PagerStep::Truncated
                }
            },
            Phase::Complete => PagerStep::Complete,
            Phase::Truncated => PagerStep::Truncated,
        }
    }

    /// Takes the reply to the outstanding request.
    pub fn on_reply(&mut self, reply: PageReply<R>) -> (r: Result<(), AppError>)
        requires
            old(self).wf(),
            old(self)@.awaiting_reply(),
        ensures
            final(self).wf(),
            match old(self)@.after_reply(reply) {
                Ok(s) => r is Ok && final(self)@ == s,
                Err(e) => r == Err::<(), AppError>(e) && final(self)@ == old(self)@,
            },
    {
        match reply {
            PageReply::SendFailed => Err(AppError::ErrorSendingHttpRequest),
            PageReply::Received { http_status, body } => {
                if http_status != 200 {
                    return Err(AppError::ErrorHttpStatus(http_status));
                }
                match body {
                    None => Err(AppError::ErrorJsonParsing),
                    Some(resp) => {
                        let ok_status = String::from_str("1");
                        if resp.status == ok_status {
                            match resp.result {
                                PageResult::Success(items) => {
                                    self.take_page(items);
                                    Ok(())
                                },
                                PageResult::Failed(text) => Err(AppError::ErrorUnexpectedResult(text)),
                            }
                        } else {
                            let empty = String::from_str("No transactions found");
                            if resp.message == empty {
                                self.phase = Phase::Complete;
                                Ok(())
                            } else {
                                Err(AppError::ErrorApiResponse(resp.message))
                            }
                        }
                    },
                }
            },
        }
    }

    fn take_page(&mut self, items: Vec<R>)
        requires
            old(self).wf(),
            old(self)@.awaiting_reply(),
        ensures
            final(self).wf(),
            final(self)@ == old(self)@.after_page(items@),
    {
        let mut items = items;
        let ghost received = items@;
        proof {
            self.pages@.lemma_flatten_push(received);
        }
        self.pages = Ghost(self.pages@.push(received));
        let n = items.len();
        if n == 0 {
            self.phase = Phase::Complete;
        } else if n < self.page_size {
            self.records.append(&mut items);
            self.phase = Phase::Complete;
        } else {
            self.records.append(&mut items);
            assert(self.page <= self.results_cap as u128) by (nonlinear_arith)
                requires
                    self.page * (self.page_size as u128) <= self.results_cap as u128,
                    self.page_size >= 1,
            ;
            self.page = self.page + 1;
        }
    }

    /// The records collected, in arrival order.
    pub fn into_records(self) -> (r: Vec<R>)
        ensures
            r@ == self@.records,
    {
        self.records
    }
}

/// The number of records over a list of pages.
pub open spec fn total_records<R>(pages: Seq<Seq<R>>) -> nat
    decreases pages.len(),
{
    if pages.len() == 0 {
        0
    } else {
        total_records(pages.drop_last()) + pages.last().len()
    }
}

/// The record list a reply delivers: `Some` exactly for an HTTP 200 reply
/// with status `"1"` whose result is a list.
pub open spec fn page_items<R>(reply: PageReply<R>) -> Option<Seq<R>> {
    match reply {
        PageReply::Received { http_status, body } => if http_status != 200 {
            None
        } else {
            match body {
                Some(resp) => if resp.status@ == success_status() {
                    match resp.result {
                        PageResult::Success(v) => Some(v@),
                        PageResult::Failed(_) => None,
                    }
                } else {
                    None
                },
                None => None,
            }
        },
        PageReply::SendFailed => None,
    }
}

/// Whether `reply` is an HTTP 200 reply with status `"1"` whose result is
/// the record list `items`.
pub open spec fn delivers_page<R>(reply: PageReply<R>, items: Seq<R>) -> bool {
    page_items(reply) == Some(items)
}

/// The record lists that `replies` deliver, in order.
pub open spec fn delivered_pages<R>(replies: Seq<PageReply<R>>) -> Seq<Seq<R>>
    decreases replies.len(),
{
    if replies.len() == 0 {
        seq![]
    } else {
        let rest = delivered_pages(replies.drop_first());
        match page_items(replies[0]) {
            Some(items) => seq![items] + rest,
            None => rest,
        }
    }
}

/// Pagination from `s` where each page request is answered by the next of
/// `replies`: the state in which no page is requested or the replies ran
/// out, or the first error.
pub open spec fn run<R>(s: PagerState<R>, replies: Seq<PageReply<R>>) -> Result<PagerState<R>, AppError>
    decreases replies.len(),
{
    let (t, step) = s.step();
    if step is Fetch && replies.len() > 0 {
        match t.after_reply(replies[0]) {
            Ok(u) => run(u, replies.drop_first()),
            Err(e) => Err(e),
        }
    } else {
        Ok(t)
    }
}

/// Whether `reply` is an HTTP 200 reply whose status is not `"1"` and whose
/// message is `message`.
pub open spec fn reports_failure<R>(reply: PageReply<R>, message: Seq<char>) -> bool {
    match reply {
        PageReply::Received { http_status, body } => http_status == 200 && match body {
            Some(resp) => resp.status@ != success_status() && resp.message@ == message,
            None => false,
        },
        PageReply::SendFailed => false,
    }
}

proof fn lemma_flatten_len<R>(pages: Seq<Seq<R>>)
    ensures
        pages.flatten().len() == total_records(pages),
    decreases pages.len(),
{
    if pages.len() > 0 {
        let init = pages.drop_last();
        lemma_flatten_len(init);
        init.lemma_flatten_push(pages.last());
        assert(init.push(pages.last()) =~= pages);
    }
}

/// Whatever replies came, the records collected are the received pages one
/// after another in arrival order, with nothing repeated or reordered, so
/// their count is the sum of the pages' counts.
pub proof fn lemma_records_are_pages_in_order<R>(s: PagerState<R>)
    requires
        s.valid(),
    ensures
        s.records == s.pages.flatten(),
        s.records.len() == total_records(s.pages),
{
    lemma_flatten_len(s.pages);
}

/// Each accepted reply keeps the state valid; a page that arrives is added
/// to the received pages as it came, and any other accepted reply adds none.
pub proof fn lemma_reply_records_its_page<R>(s: PagerState<R>, reply: PageReply<R>, items: Seq<R>)
    requires
        s.valid(),
        s.awaiting_reply(),
    ensures
        s.after_reply(reply) matches Ok(t) ==> t.valid(),
        delivers_page(reply, items) ==> s.after_reply(reply) == Ok::<PagerState<R>, AppError>(
            s.after_page(items),
        ),
        !(exists|v: Seq<R>| delivers_page(reply, v)) ==> (s.after_reply(reply) matches Ok(t)
            ==> t.pages == s.pages && t.records == s.records),
{
    assert(s.page <= s.results_cap) by (nonlinear_arith)
        requires
            s.page * s.page_size <= s.results_cap,
            s.page_size >= 1,
    ;
    s.pages.lemma_flatten_push(items);
    match reply {
        PageReply::Received { http_status, body } => {
            if let Some(resp) = body {
                if let PageResult::Success(v) = resp.result {
                    s.pages.lemma_flatten_push(v@);
                    if http_status == 200 && resp.status@ == success_status() {
                        assert(delivers_page(reply, v@));
                    }
                }
            }
        },
        PageReply::SendFailed => {},
    }
}

/// A page holding exactly `page_size` records is added and leads to a
/// request for the next page, unless that page would pass the results cap.
pub proof fn lemma_full_page_continues<R>(s: PagerState<R>, reply: PageReply<R>, items: Seq<R>)
    requires
        s.valid(),
        s.awaiting_reply(),
        delivers_page(reply, items),
        items.len() == s.page_size,
    ensures
        s.after_reply(reply) matches Ok(t) && t.page == s.page + 1 && t.records == s.records
            + items && t.step().1 == (if t.within_cap() {
            PagerStep::Fetch(t.page as usize)
        } else {
            PagerStep::Truncated
        }),
{
    lemma_reply_records_its_page(s, reply, items);
}

/// A page holding more than none but fewer than `page_size` records is added
/// and ends pagination.
pub proof fn lemma_short_page_ends<R>(s: PagerState<R>, reply: PageReply<R>, items: Seq<R>)
    requires
        s.valid(),
        s.awaiting_reply(),
        delivers_page(reply, items),
        0 < items.len() < s.page_size,
    ensures
        s.after_reply(reply) matches Ok(t) && t.records == s.records + items && t.step().1
            == PagerStep::Complete,
{
    lemma_reply_records_its_page(s, reply, items);
}

/// An empty page adds nothing and ends pagination.
pub proof fn lemma_empty_page_ends<R>(s: PagerState<R>, reply: PageReply<R>, items: Seq<R>)
    requires
        s.valid(),
        s.awaiting_reply(),
        delivers_page(reply, items),
        items.len() == 0,
    ensures
        s.after_reply(reply) matches Ok(t) && t.records == s.records && t.step().1
            == PagerStep::Complete,
{
    lemma_reply_records_its_page(s, reply, items);
}

/// A failure status with the message "No transactions found" is no error:
/// pagination ends with nothing added (an empty result from the start).
pub proof fn lemma_no_transactions_is_empty<R>(s: PagerState<R>, reply: PageReply<R>)
    requires
        s.valid(),
        s.awaiting_reply(),
        reports_failure(reply, no_transactions_message()),
    ensures
        s.after_reply(reply) matches Ok(t) && t.records == s.records && t.step().1
            == PagerStep::Complete,
{
}

/// A failure status with any other message is an API error carrying that
/// message.
pub proof fn lemma_other_failure_is_error<R>(s: PagerState<R>, reply: PageReply<R>, message: Seq<char>)
    requires
        reports_failure(reply, message),
        message != no_transactions_message(),
    ensures
        s.after_reply(reply) matches Err(AppError::ErrorApiResponse(m)) && m@ == message,
{
}

proof fn lemma_run_adds_delivered_pages<R>(s: PagerState<R>, replies: Seq<PageReply<R>>)
    requires
        s.valid(),
    ensures
        run(s, replies) matches Ok(t) ==> t.valid() && exists|k: int|
            0 <= k <= replies.len() && t.pages == s.pages + delivered_pages(#[trigger] replies.take(k)),
    decreases replies.len(),
{
    let (t, step) = s.step();
    if step is Fetch && replies.len() > 0 {
        let reply = replies[0];
        let rest = replies.drop_first();
        match page_items(reply) {
            Some(items) => lemma_reply_records_its_page(s, reply, items),
            None => {
                assert(!exists|v: Seq<R>| delivers_page(reply, v));
                lemma_reply_records_its_page(s, reply, seq![]);
            },
        }
        if let Ok(u) = t.after_reply(reply) {
            lemma_run_adds_delivered_pages(u, rest);
            if let Ok(w) = run(u, rest) {
                let k = choose|k: int| 0 <= k <= rest.len() && w.pages == u.pages + delivered_pages(
                    #[trigger] rest.take(k),
                );
                let taken = replies.take(k + 1);
                assert(taken.drop_first() =~= rest.take(k));
                assert(taken[0] == reply);
                match page_items(reply) {
                    Some(items) => {
                        assert(u.pages == s.pages.push(items));
                        assert(w.pages =~= s.pages + delivered_pages(taken));
                    },
                    None => {
                        assert(w.pages =~= s.pages + delivered_pages(taken));
                    },
                }
            }
        }
    } else {
        assert(replies.take(0) =~= seq![]);
        assert(t.pages =~= s.pages + delivered_pages(replies.take(0)));
    }
}

/// Whatever the replies, a pagination that ends without error has collected
/// exactly the record lists delivered by the replies it consumed, one after
/// another in arrival order, with nothing repeated or reordered: the number
/// of records is the sum of those pages' counts.
pub proof fn lemma_run_collects_delivered_pages<R>(
    replies: Seq<PageReply<R>>,
    page_size: nat,
    results_cap: nat,
)
    requires
        page_size > 0,
    ensures
        run(PagerState::initial(page_size, results_cap), replies) matches Ok(t) ==> exists|k: int|
            0 <= k <= replies.len() && t.pages == delivered_pages(#[trigger] replies.take(k))
                && t.records == t.pages.flatten() && t.records.len() == total_records(t.pages),
{
    let s = PagerState::<R>::initial(page_size, results_cap);
    assert(s.records =~= s.pages.flatten());
    lemma_run_adds_delivered_pages(s, replies);
    if let Ok(t) = run(s, replies) {
        let k = choose|k: int| 0 <= k <= replies.len() && t.pages == s.pages + delivered_pages(
            #[trigger] replies.take(k),
        );
        assert(s.pages + delivered_pages(replies.take(k)) =~= delivered_pages(replies.take(k)));
        lemma_flatten_len(t.pages);
    }
}

} // verus!
