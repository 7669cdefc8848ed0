use vstd::prelude::*;
use vstd::arithmetic::power2::{pow2, lemma2_to64, lemma_pow2_unfold};

verus! {

/// The address of an endpoint of the game server.
pub open spec fn api_url_of(link: Seq<char>) -> Seq<char> {
    "https://api.artifactsmmo.com/"@ + link
}

/// The address of an endpoint of the game server.
pub fn api_url(link: &String) -> (url: String)
    ensures
        url@ == api_url_of(link@),
{
    let mut url = String::from_str("https://api.artifactsmmo.com/");
    url.append(link.as_str());
    url
}

/// The page after `page` in a listing of `pages` pages; `None` once the last page is read.
pub open spec fn next_page_of(page: usize, pages: usize) -> Option<usize> {
    if page == pages {
        None
    } else {
        Some((page + 1) as usize)
    }
}

/// Decides whether a paged listing goes on after `page`. Listings start at page 1 and stop
/// exactly at the page count the server gives.
pub fn next_page(page: usize, pages: usize) -> (next: Option<usize>)
    requires
        page == pages || page < usize::MAX,
    ensures
        next == next_page_of(page, pages),
{
    if page == pages {
        None
    } else {
        Some(page + 1)
    }
}

/// A paged listing being read: the page to request next and the entries of the pages read so
/// far, in order.
#[derive(Debug)]
pub struct PagedListing<T> {
    pub page: usize,
    pub data: Vec<T>,
    pub done: bool,
}

impl<T> PagedListing<T> {
    /// A listing before its first page: page 1 comes first.
    pub fn new() -> (listing: PagedListing<T>)
        ensures
            listing.page == 1,
            listing.data@ == Seq::<T>::empty(),
            !listing.done,
    {
        PagedListing { page: 1, data: Vec::new(), done: false }
    }

    /// Takes in the page just read, which says how many pages there are: its entries go after
    /// those already read, and the listing moves to the next page or is done.
    pub fn receive(&mut self, entries: Vec<T>, pages: usize)
        requires
            !old(self).done,
            old(self).page == pages || old(self).page < usize::MAX,
        ensures
            final(self).data@ == old(self).data@ + entries@,
            final(self).done == (old(self).page == pages),
            final(self).page == if old(self).page == pages {
                old(self).page
            } else {
                (old(self).page + 1) as usize
            },
    {
        let mut entries = entries;
        self.data.append(&mut entries);
        match next_page(self.page, pages) {
            Some(next) => {
                self.page = next;
            },
            None => {
                self.done = true;
            },
        }
    }
}

/// The number of pages requested when a listing of `pages` pages is read from `page` on.
pub open spec fn pages_requested(page: int, pages: int) -> nat
    decreases pages - page,
{
    if page >= pages {
        1
    } else {
        1 + pages_requested(page + 1, pages)
    }
}

/// Law: a listing of `pages` pages read from page 1 is read page after page, each once, and
/// stops after exactly `pages` requests.
pub proof fn law_paging(pages: usize)
    requires
        pages >= 1,
    ensures
        pages_requested(1, pages as int) == pages,
        forall|p: usize| 1 <= p < pages ==> #[trigger] next_page_of(p, pages) == Some((p + 1) as usize),
        next_page_of(pages, pages) is None,
{
    lemma_pages_requested(1, pages as int);
}

proof fn lemma_pages_requested(page: int, pages: int)
    requires
        page <= pages,
    ensures
        pages_requested(page, pages) == pages - page + 1,
    decreases pages - page,
{
    if page < pages {
        lemma_pages_requested(page + 1, pages);
    }
}

/// The number of times a failed request is sent again.
pub const MAX_RETRIES: u8 = 10;

/// The waits between attempts to send a request: one second, then twice the previous wait,
/// for at most `MAX_RETRIES` attempts after the first.
#[derive(Debug)]
pub struct Backoff {
    retries_left: u8,
    delay_secs: u64,
}

impl Backoff {
    #[verifier::type_invariant]
    spec fn inv(self) -> bool {
        &&& self.retries_left <= MAX_RETRIES
        &&& self.delay_secs == pow2((MAX_RETRIES - self.retries_left) as nat)
    }

    /// The number of waits already handed out.
    pub closed spec fn retries_done(self) -> nat {
        (MAX_RETRIES - self.retries_left) as nat
    }

    /// A backoff before the first retry.
    pub fn new() -> (backoff: Backoff)
        ensures
            backoff.retries_done() == 0,
    {
        proof {
            lemma2_to64();
        }
        Backoff { retries_left: MAX_RETRIES, delay_secs: 1 }
    }

    /// The wait before the next attempt, in seconds, or `None` when no retry is left: the
    /// `k`-th retry waits `2^k` seconds, counting from 0.
    pub fn next_delay(&mut self) -> (delay: Option<u64>)
        ensures
            old(self).retries_done() < MAX_RETRIES ==> {
                &&& delay == Some(pow2(old(self).retries_done()) as u64)
                &&& final(self).retries_done() == old(self).retries_done() + 1
            },
            old(self).retries_done() >= MAX_RETRIES ==> {
                &&& delay is None
                &&& final(self).retries_done() == old(self).retries_done()
            },
            final(self).retries_done() <= MAX_RETRIES,
    {
        proof {
            use_type_invariant(&*self);
        }
        if self.retries_left == 0 {
            return None;
        }
        let delay = self.delay_secs;
        proof {
            let k = (MAX_RETRIES - self.retries_left) as nat;
            lemma2_to64();
            lemma_pow2_unfold(k + 1);
            assert(k + 1 <= 10);
            assert(pow2(k + 1) <= 1024) by {
                lemma_pow2_monotone(k + 1, 10);
            }
        }
        *self = Backoff { retries_left: self.retries_left - 1, delay_secs: self.delay_secs * 2 };
        Some(delay)
    }
}

/// Powers of two grow with the exponent.
proof fn lemma_pow2_monotone(a: nat, b: nat)
    requires
        a <= b,
    ensures
        pow2(a) <= pow2(b),
    decreases b - a,
{
    if a < b {
        lemma_pow2_monotone(a, (b - 1) as nat);
        lemma_pow2_unfold(b);
    }
}

/// The total wait before giving up, when the first `n` retries all wait.
pub open spec fn total_wait(n: nat) -> nat
    decreases n,
{
    if n == 0 {
        0
    } else {
        total_wait((n - 1) as nat) + pow2((n - 1) as nat)
    }
}

/// Law: a request that keeps failing is retried `MAX_RETRIES` times, after waiting 1023
/// seconds in all.
pub proof fn law_total_wait()
    ensures
        total_wait(MAX_RETRIES as nat) == 1023,
{
    lemma2_to64();
    reveal_with_fuel(total_wait, 11);
}

} // verus!
