//! A bounded number of permits for scan attempts that run at the same time.

use vstd::prelude::*;

verus! {

/// Counts the permits that are out. Never more are out than the limiter
/// was made for.
#[derive(Debug)]
pub struct ConcurrencyLimiter {
    permits: usize,
    held: usize,
}

/// What the contracts say of a `ConcurrencyLimiter`.
pub struct ConcurrencyLimiterView {
    /// How many attempts may hold a permit at the same time.
    pub permits: nat,
    /// How many permits are out.
    pub held: nat,
}

impl View for ConcurrencyLimiter {
    type V = ConcurrencyLimiterView;

    closed spec fn view(&self) -> ConcurrencyLimiterView {
        ConcurrencyLimiterView { permits: self.permits as nat, held: self.held as nat }
    }
}

/// What an attempt does with the limiter.
pub enum PermitRequest {
    /// Asks for a permit.
    Acquire,
    /// Gives a permit back.
    Release,
}

/// The limiter after one request: a permit goes out only while fewer are
/// out than the limiter has, and one comes back only if one is out.
pub open spec fn after_permit_request(limiter: ConcurrencyLimiterView, request: PermitRequest) -> ConcurrencyLimiterView {
    match request {
        PermitRequest::Acquire => if limiter.held < limiter.permits {
            ConcurrencyLimiterView { held: limiter.held + 1, ..limiter }
        } else {
            limiter
        },
        PermitRequest::Release => if limiter.held > 0 {
            ConcurrencyLimiterView { held: (limiter.held - 1) as nat, ..limiter }
        } else {
            limiter
        },
    }
}

/// The limiter after the requests of `requests`, in this order.
pub open spec fn after_permit_requests(
    limiter: ConcurrencyLimiterView,
    requests: Seq<PermitRequest>,
) -> ConcurrencyLimiterView
    decreases requests.len(),
{
    if requests.len() == 0 {
        limiter
    } else {
        after_permit_request(
            after_permit_requests(limiter, requests.drop_last()),
            requests.last(),
        )
    }
}

impl ConcurrencyLimiter {
    #[verifier::type_invariant]
    spec fn bounded(self) -> bool {
        self.held <= self.permits
    }

    /// A limiter with `max_concurrent_scans` permits, none of them out.
    pub fn new(max_concurrent_scans: usize) -> (limiter: ConcurrencyLimiter)
        ensures
            limiter@ == (ConcurrencyLimiterView { permits: max_concurrent_scans as nat, held: 0 }),
    {
        ConcurrencyLimiter { permits: max_concurrent_scans, held: 0 }
    }

    /// How many permits the limiter has.
    pub fn permits(&self) -> (permits: usize)
        ensures
            permits == self@.permits,
    {
        self.permits
    }

    /// How many permits are out; never more than the limiter has.
    pub fn held(&self) -> (held: usize)
        ensures
            held == self@.held,
            held <= self@.permits,
    {
        proof {
            use_type_invariant(self);
        }
        self.held
    }

    /// Takes a permit if one is left, and says whether it did.
    pub fn try_acquire(&mut self) -> (granted: bool)
        ensures
            granted == (old(self)@.held < old(self)@.permits),
            final(self)@ == after_permit_request(old(self)@, PermitRequest::Acquire),
            final(self)@.held <= final(self)@.permits,
    {
        proof {
            use_type_invariant(&*self);
        }
        if self.held < self.permits {
            self.held = self.held + 1;
            true
        } else {
            false
        }
    }

    /// Gives a permit back. With no permit out nothing changes.
    pub fn release(&mut self)
        ensures
            final(self)@ == after_permit_request(old(self)@, PermitRequest::Release),
            final(self)@.held <= final(self)@.permits,
    {
        proof {
            use_type_invariant(&*self);
        }
        if self.held > 0 {
            self.held = self.held - 1;
        }
    }
}

/// Whatever attempts ask of a limiter and in whatever order, never more
/// permits are out than it has.
pub proof fn lemma_permits_never_exceeded(
    limiter: ConcurrencyLimiterView,
    requests: Seq<PermitRequest>,
)
    requires
        limiter.held <= limiter.permits,
    ensures
        after_permit_requests(limiter, requests).held <= limiter.permits,
        after_permit_requests(limiter, requests).permits == limiter.permits,
    decreases requests.len(),
{
    if requests.len() > 0 {
        lemma_permits_never_exceeded(limiter, requests.drop_last());
    }
}

} // verus!
