//! High-level helpers for listing directories: a cursor-based iterator that
//! pages through the backend, sleeping through rate limits and retrying
//! other failures a bounded number of times.

use vstd::prelude::*;
use crate::{Error, MiscError};

verus! {

/// What the listing logic reads of a directory entry: its kind and its
/// path.  A deleted entry must not appear in a listing that excludes
/// deleted files; meeting one is a protocol violation, not something to
/// skip.
#[derive(Debug, Clone, PartialEq, Eq)]
pub enum ListEntry {
    File(String),
    Folder(String),
    Deleted(String),
}

/// The mathematical shape of a [`ListEntry`].
pub enum ListEntryV {
    File(Seq<char>),
    Folder(Seq<char>),
    Deleted(Seq<char>),
}

impl View for ListEntry {
    type V = ListEntryV;

    open spec fn view(&self) -> ListEntryV {
        match self {
            ListEntry::File(p) => ListEntryV::File(p@),
            ListEntry::Folder(p) => ListEntryV::Folder(p@),
            ListEntry::Deleted(p) => ListEntryV::Deleted(p@),
        }
    }
}

/// One page of a listing: its entries, and the cursor to continue with
/// when more pages exist.
pub struct ListPage {
    pub entries: Vec<ListEntry>,
    pub cursor: String,
    pub has_more: bool,
}

pub open spec fn view_entries(s: Seq<ListEntry>) -> Seq<ListEntryV>
    decreases s,
{
    if s.len() == 0 {
        Seq::empty()
    } else {
        seq![s[0]@] + view_entries(s.drop_first())
    }
}

pub proof fn lemma_view_entries_index(s: Seq<ListEntry>)
    ensures
        view_entries(s).len() == s.len(),
        forall|i: int| 0 <= i < s.len() ==> #[trigger] view_entries(s)[i] == s[i]@,
    decreases s,
{
    if s.len() > 0 {
        lemma_view_entries_index(s.drop_first());
        assert(view_entries(s) == seq![s[0]@] + view_entries(s.drop_first()));
        assert forall|i: int| 0 <= i < s.len() implies #[trigger] view_entries(s)[i] == s[i]@ by {
            if i > 0 {
                assert(view_entries(s)[i] == view_entries(s.drop_first())[i - 1]);
                assert(s.drop_first()[i - 1] == s[i]);
            }
        }
    }
}

/// An entry, copied.
fn clone_entry(e: &ListEntry) -> (r: ListEntry)
    ensures
        r@ == e@,
{
    match e {
        ListEntry::File(p) => ListEntry::File(p.clone()),
        ListEntry::Folder(p) => ListEntry::Folder(p.clone()),
        ListEntry::Deleted(p) => ListEntry::Deleted(p.clone()),
    }
}

/// The backend a listing pages through: the initial listing call, the
/// continuation call, and the wait that rate limiting asks for.
/// Implementations do the I/O; nothing is assumed about what they return.
pub trait ListBackend<E> {
    fn list_start(&mut self, path: &str, recursive: bool) -> Result<ListPage, Error<E>>;

    fn list_continue(&mut self, cursor: &str) -> Result<ListPage, Error<E>>;

    fn backoff(&self, seconds: u64);
}

/// How many attempts a page fetch gets when the backend keeps failing for
/// reasons other than rate limiting.
pub const FETCH_ATTEMPTS: u64 = 3;

/// What one fetch outcome calls for.
#[derive(Debug, Clone, Copy, PartialEq, Eq, Structural)]
pub enum FetchVerdict {
    /// A success: hand the page over.
    Deliver,
    /// Rate limited: wait the server-given seconds, then try the same page
    /// again; this never spends an attempt.
    Wait(u64),
    /// Some other failure with attempts left: try the same page again.
    Retry,
    /// Some other failure on the last attempt: surface it.
    GiveUp,
}

/// The retry policy, exactly: a success is delivered; rate limiting is
/// waited out and never counted; any other error is retried until it is
/// the last of [`FETCH_ATTEMPTS`] consecutive failures, and then given up.
pub open spec fn spec_fetch_verdict<E>(r: Result<ListPage, Error<E>>, errors: u64) -> FetchVerdict {
    match r {
        Ok(_) => FetchVerdict::Deliver,
        Err(Error::Other(MiscError::RateLimited { reason: _, retry_after_seconds })) => (
        FetchVerdict::Wait(retry_after_seconds)),
        Err(_) => if errors + 1 < FETCH_ATTEMPTS {
            FetchVerdict::Retry
        } else {
            FetchVerdict::GiveUp
        },
    }
}

/// Decides what a fetch outcome calls for, with `errors` failures already
/// seen for this page.
pub fn fetch_verdict<E>(r: &Result<ListPage, Error<E>>, errors: u64) -> (v: FetchVerdict)
    ensures
        v == spec_fetch_verdict(*r, errors),
{
    match r {
        Ok(_) => FetchVerdict::Deliver,
        Err(Error::Other(MiscError::RateLimited { reason: _, retry_after_seconds })) => (
        FetchVerdict::Wait(*retry_after_seconds)),
        Err(_) => if errors < FETCH_ATTEMPTS - 1 {
            FetchVerdict::Retry
        } else {
            FetchVerdict::GiveUp
        },
    }
}

/// Fetches one page, driving the retry policy that [`spec_fetch_verdict`]
/// states exactly: a success is delivered as the backend returned it, rate
/// limits are waited out (they are backpressure, not failure, and never
/// spend an attempt), and any other error is retried until the last of
/// [`FETCH_ATTEMPTS`] consecutive failures, which is surfaced.  A
/// rate-limit error is never what comes out: only a backend that stays
/// rate-limited through an astronomically large number of waits ends the
/// fetch, and then with a protocol error.
fn list_folder_internal<E, B: ListBackend<E>>(
    client: &mut B,
    cont: bool,
    path_or_cursor: &str,
    recursive: bool,
) -> (r: Result<ListPage, Error<E>>)
    ensures
        r matches Err(e) ==> !(e matches Error::Other(MiscError::RateLimited { .. })),
{
    let mut errors: u64 = 0;
    let mut waits_left: u64 = u64::MAX;
    loop
        invariant
            errors < FETCH_ATTEMPTS,
        decreases waits_left, FETCH_ATTEMPTS - errors,
    {
        let result = if cont {
            client.list_continue(path_or_cursor)
        } else {
            client.list_start(path_or_cursor, recursive)
        };
        match fetch_verdict(&result, errors) {
            FetchVerdict::Deliver => {
                return result;
            },
            FetchVerdict::Wait(seconds) => {
                if seconds > 0 {
                    client.backoff(seconds);
                }
                if waits_left == 0 {
                    return Err(Error::Other(MiscError::UnexpectedResponse(
                        "rate limited without end".to_owned(),
                    )));
                }
                waits_left = waits_left - 1;
            },
            FetchVerdict::Retry => {
                errors = errors + 1;
            },
            FetchVerdict::GiveUp => {
                return result;
            },
        }
    }
}

/// An iterator over directory entries which pages through the backend as
/// necessary.  Entries come in insertion order within a page and across
/// successive pages; the cursor is dropped once the final page arrived or
/// an error ended the iteration.
pub struct DirectoryIterator {
    buffer: Vec<ListEntry>,
    front: usize,
    cursor: Option<String>,
    arrived: Ghost<Seq<ListEntryV>>,
    delivered: Ghost<Seq<ListEntryV>>,
}

impl DirectoryIterator {
    /// The entries fetched but not yet handed out, in order.
    pub closed spec fn buffered(&self) -> Seq<ListEntryV> {
        view_entries(self.buffer@).skip(self.front as int)
    }

    /// Every entry the backend's pages carried, in page order.
    pub closed spec fn arrived(&self) -> Seq<ListEntryV> {
        self.arrived@
    }

    /// Every entry handed out, in order.
    pub closed spec fn delivered(&self) -> Seq<ListEntryV> {
        self.delivered@
    }

    /// Whether a continuation cursor is held.
    pub closed spec fn has_cursor(&self) -> bool {
        self.cursor is Some
    }

    /// Well-formedness: the entries that arrived are exactly those handed
    /// out followed by those still buffered — first-in, first-out, across
    /// page boundaries.
    pub closed spec fn wf(&self) -> bool {
        &&& self.front <= self.buffer@.len()
        &&& self.arrived() == self.delivered() + self.buffered()
    }

    /// Law: entries are handed out in arrival order.  What was delivered
    /// is always a prefix of what arrived.
    pub proof fn lemma_fifo(&self)
        requires
            self.wf(),
        ensures
            self.delivered() == self.arrived().take(self.delivered().len() as int),
    {
        assert(self.arrived().take(self.delivered().len() as int) =~= self.delivered());
    }

    /// The next entry: first anything buffered, then, when a cursor is
    /// held, the next page.  A deleted entry is a protocol violation and
    /// ends the iteration with an error, as does a page fetch that failed
    /// after its retries.
    pub fn next<E, B: ListBackend<E>>(&mut self, client: &mut B) -> (r: Option<
        Result<ListEntry, Error<E>>,
    >)
        requires
            old(self).wf(),
        ensures
            final(self).wf(),
            (old(self).buffered().len() > 0 && !(old(self).buffered()[0] matches
            ListEntryV::Deleted(_))) ==> (r matches Some(Ok(e))
                && e@ == old(self).buffered()[0]
                && final(self).buffered() == old(self).buffered().drop_first()
                && final(self).arrived() == old(self).arrived()
                && final(self).has_cursor() == old(self).has_cursor()),
            (old(self).buffered().len() > 0 && (old(self).buffered()[0] matches
            ListEntryV::Deleted(_))) ==> (r matches Some(Err(_))),
            (old(self).buffered().len() == 0 && !old(self).has_cursor()) ==> r is None,
            match r {
                Some(Ok(entry)) => {
                    &&& !(entry@ matches ListEntryV::Deleted(_))
                    &&& final(self).delivered() == old(self).delivered() + seq![entry@]
                },
                Some(Err(_)) => !final(self).has_cursor() && final(self).buffered().len() == 0
                    && final(self).delivered() == old(self).delivered(),
                None => old(self).buffered().len() == 0 && final(self).delivered() == old(
                    self,
                ).delivered(),
            },
    {
        proof {
            lemma_view_entries_index(self.buffer@);
        }
        if self.front < self.buffer.len() {
            let deleted = matches!(&self.buffer[self.front], ListEntry::Deleted(_));
            if deleted {
                self.halt();
                return Some(Err(Error::Other(MiscError::UnexpectedResponse(
                    "deleted entry in a listing that excludes deleted files".to_owned(),
                ))));
            }
            let entry = self.take_front();
            return Some(Ok(entry));
        }
        let cursor = match &self.cursor {
            Some(c) => c.clone(),
            None => {
                return None;
            },
        };
        self.cursor = None;
        match list_folder_internal(client, true, cursor.as_str(), false) {
            Ok(page) => {
                proof {
                    lemma_view_entries_index(page.entries@);
                    self.arrived@ = self.arrived@ + view_entries(page.entries@);
                }
                self.buffer = page.entries;
                self.front = 0;
                if page.has_more {
                    self.cursor = Some(page.cursor);
                }
                proof {
                    assert(self.buffered() =~= view_entries(self.buffer@));
                    assert(self.arrived() =~= self.delivered() + self.buffered());
                    lemma_view_entries_index(self.buffer@);
                }
                if self.front < self.buffer.len() {
                    let deleted = matches!(&self.buffer[self.front], ListEntry::Deleted(_));
                    if deleted {
                        self.halt();
                        return Some(Err(Error::Other(MiscError::UnexpectedResponse(
                            "deleted entry in a listing that excludes deleted files".to_owned(),
                        ))));
                    }
                    let entry = self.take_front();
                    Some(Ok(entry))
                } else {
                    None
                }
            },
            Err(e) => {
                self.halt();
                Some(Err(e))
            },
        }
    }

    /// Hands out the entry at the front of the buffer.
    fn take_front(&mut self) -> (r: ListEntry)
        requires
            old(self).wf(),
            old(self).front < old(self).buffer@.len(),
        ensures
            final(self).wf(),
            r@ == old(self).buffered()[0],
            final(self).buffered() == old(self).buffered().drop_first(),
            final(self).delivered() == old(self).delivered() + seq![r@],
            final(self).arrived() == old(self).arrived(),
            final(self).has_cursor() == old(self).has_cursor(),
    {
        proof {
            lemma_view_entries_index(self.buffer@);
        }
        let n = self.buffer.len();
        let entry = clone_entry(&self.buffer[self.front]);
        proof {
            assert(entry@ == self.buffered()[0]);
            self.delivered@ = self.delivered@ + seq![entry@];
        }
        self.front = self.front + 1;
        proof {
            assert(seq![entry@] + self.buffered() =~= old(self).buffered());
            assert(self.arrived() =~= self.delivered() + self.buffered());
            assert(self.buffered() =~= old(self).buffered().drop_first());
        }
        entry
    }

    /// Seeds an iterator from a listing's first page: everything the page
    /// carried is buffered, in order, nothing is delivered yet, and the
    /// cursor is kept exactly when the page says more pages exist.
    pub fn from_first_page(page: ListPage) -> (r: Self)
        ensures
            r.wf(),
            r.delivered().len() == 0,
            r.buffered() == view_entries(page.entries@),
            r.arrived() == view_entries(page.entries@),
            r.has_cursor() == page.has_more,
    {
        proof {
            lemma_view_entries_index(page.entries@);
        }
        let cursor = if page.has_more {
            Some(page.cursor)
        } else {
            None
        };
        let ghost entries_view = view_entries(page.entries@);
        let it = DirectoryIterator {
            buffer: page.entries,
            front: 0,
            cursor,
            arrived: Ghost(entries_view),
            delivered: Ghost(Seq::empty()),
        };
        proof {
            assert(it.buffered() =~= view_entries(it.buffer@));
            assert(it.arrived() =~= it.delivered() + it.buffered());
        }
        it
    }

    /// Enters the terminal state: no cursor, nothing buffered, and the
    /// entry or page that caused this is not delivered.
    fn halt(&mut self)
        ensures
            final(self).wf(),
            !final(self).has_cursor(),
            final(self).buffered().len() == 0,
            final(self).delivered() == old(self).delivered(),
    {
        self.cursor = None;
        self.buffer = Vec::new();
        self.front = 0;
        proof {
            self.arrived@ = self.delivered@;
            assert(self.buffered() =~= Seq::<ListEntryV>::empty());
            assert(self.arrived() =~= self.delivered() + self.buffered());
        }
    }
}

/// Make an iterator that yields directory entries under a given path,
/// optionally recursively.  The path must be absolute; the root folder is
/// requested as the empty string, as the wire protocol defines.  The
/// iterator is seeded from the fetched first page by
/// [`DirectoryIterator::from_first_page`], whose contract says exactly how.
pub fn list_directory<E, B: ListBackend<E>>(client: &mut B, path: &str, recursive: bool) -> (r:
    Result<DirectoryIterator, Error<E>>)
    requires
        path@.len() > 0 && path@[0] == '/',
    ensures
        match r {
            Ok(it) => it.wf() && it.delivered().len() == 0,
            Err(e) => !(e matches Error::Other(MiscError::RateLimited { .. })),
        },
{
    let owned = path.to_owned();
    let requested = if crate::strutil::string_eq_str(&owned, "/") {
        String::new()
    } else {
        owned
    };
    match list_folder_internal(client, false, requested.as_str(), recursive) {
        Ok(page) => Ok(DirectoryIterator::from_first_page(page)),
        Err(e) => Err(e),
    }
}

} // verus!
