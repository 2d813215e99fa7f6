//! The run state machine: one authentication, then a strict sequence of
//! fetch → aggregate → write passes, one per configured (realm, auction
//! house) pair, failing the whole run on the first error. The machine makes
//! every decision and every computation; the surrounding program only
//! performs the network calls it asks for and reports their outcomes.

use vstd::prelude::*;
use vstd::string::StringExecFns;
use crate::listing::{count_for, distinct_items, min_buyout_for, total_for, AuctionListing};
use crate::aggregate::aggregate_listings;
use crate::metrics::{build_points, MetricPoint};
use crate::names::NameResolver;
use crate::token::AccessToken;

verus! {

/// The error taxonomy of a run.
#[derive(Clone, Copy, Debug, PartialEq, Eq, Structural)]
pub enum ErrorKind {
    /// Bad or missing settings.
    Config,
    /// Credential exchange failure.
    Auth,
    /// Network or HTTP failure.
    Transport,
    /// A response did not match the expected schema.
    Parse,
    /// The time-series store rejected the write.
    Write,
}

/// Label under which an error kind is reported.
pub open spec fn kind_label(kind: ErrorKind) -> Seq<char> {
    match kind {
        ErrorKind::Config => "configuration error"@,
        ErrorKind::Auth => "authentication error"@,
        ErrorKind::Transport => "transport error"@,
        ErrorKind::Parse => "parse error"@,
        ErrorKind::Write => "write error"@,
    }
}

/// A fatal run error: its kind, and the context the failing step supplied.
#[derive(Debug)]
pub struct RunError {
    /// Which step failed.
    pub kind: ErrorKind,
    /// Descriptive context from the failing step.
    pub context: String,
}

impl RunError {
    /// The full description: the kind's label, a separator, the context.
    pub fn describe(&self) -> (r: String)
        ensures
            r@ == kind_label(self.kind) + ": "@ + self.context@,
    {
        let label = match self.kind {
            ErrorKind::Config => "configuration error",
            ErrorKind::Auth => "authentication error",
            ErrorKind::Transport => "transport error",
            ErrorKind::Parse => "parse error",
            ErrorKind::Write => "write error",
        };
        let mut out = String::from_str(label);
        out.append(": ");
        out.append(self.context.as_str());
        out
    }
}

/// One configured (realm, auction house) pair to poll.
#[derive(Clone, Copy, Debug, PartialEq, Eq, Structural)]
pub struct PairTask {
    /// Connected-realm id.
    pub realm: i64,
    /// Auction-house id within that realm.
    pub auction_house: i64,
}

/// Where the run stands.
#[derive(Clone, Copy, Debug, PartialEq, Eq, Structural)]
pub enum RunPhase {
    /// No token yet; nothing may be fetched or written.
    NeedAuth,
    /// Authenticated; the pair at `next_pair` awaits its fetch.
    NeedFetch,
    /// The current pair's points are built and await their write.
    NeedWrite,
    /// Every configured pair was fetched, aggregated and written.
    Done,
    /// A step failed; the run stops here.
    Failed,
}

/// The whole-run state machine.
pub struct UpdateRun {
    /// Configured pairs, processed strictly in order.
    pub pairs: Vec<PairTask>,
    /// Index of the pair whose fetch or write is pending.
    pub next_pair: usize,
    /// Number of pairs whose write has completed.
    pub pairs_written: usize,
    /// Current phase.
    pub phase: RunPhase,
    /// The bearer token, present from successful authentication on.
    pub token: Option<AccessToken>,
    /// The first error, present exactly in the failed phase.
    pub failure: Option<RunError>,
}

impl UpdateRun {
    /// The machine's invariant. In particular: whenever a fetch is pending,
    /// every earlier pair's write has already completed — a later pair can
    /// only be reached once all pairs before it went through their write.
    pub open spec fn wf(self) -> bool {
        &&& self.next_pair <= self.pairs@.len()
        &&& self.pairs_written <= self.pairs@.len()
        &&& match self.phase {
            RunPhase::NeedAuth => {
                &&& self.next_pair == 0
                &&& self.pairs_written == 0
                &&& self.token is None
                &&& self.failure is None
            },
            RunPhase::NeedFetch => {
                &&& self.token is Some
                &&& self.failure is None
                &&& self.next_pair < self.pairs@.len()
                &&& self.pairs_written == self.next_pair
            },
            RunPhase::NeedWrite => {
                &&& self.token is Some
                &&& self.failure is None
                &&& self.next_pair < self.pairs@.len()
                &&& self.pairs_written == self.next_pair
            },
            RunPhase::Done => {
                &&& self.failure is None
                &&& self.next_pair == self.pairs@.len()
                &&& self.pairs_written == self.pairs@.len()
            },
            RunPhase::Failed => self.failure is Some,
        }
    }

    /// A fresh run over the configured pairs, before authentication.
    pub fn new(pairs: Vec<PairTask>) -> (r: UpdateRun)
        ensures
            r.wf(),
            r.phase == RunPhase::NeedAuth,
            r.pairs@ == pairs@,
            r.pairs_written == 0,
    {
        UpdateRun {
            pairs,
            next_pair: 0,
            pairs_written: 0,
            phase: RunPhase::NeedAuth,
            token: None,
            failure: None,
        }
    }

    /// Authentication succeeded: store the token and move to the first
    /// pair's fetch, or finish at once when nothing is configured.
    pub fn auth_succeeded(&mut self, token: AccessToken)
        requires
            old(self).wf(),
            old(self).phase == RunPhase::NeedAuth,
        ensures
            final(self).wf(),
            final(self).pairs@ == old(self).pairs@,
            final(self).pairs_written == 0,
            final(self).next_pair == 0,
            old(self).pairs@.len() == 0 ==> final(self).phase == RunPhase::Done,
            old(self).pairs@.len() > 0 ==> final(self).phase == RunPhase::NeedFetch,
    {
        self.token = Some(token);
        if self.pairs.len() == 0 {
            self.phase = RunPhase::Done;
        } else {
            self.phase = RunPhase::NeedFetch;
        }
    }

    /// Authentication failed: the run is over before any data was fetched
    /// or written.
    pub fn auth_failed(&mut self, context: String)
        requires
            old(self).wf(),
            old(self).phase == RunPhase::NeedAuth,
        ensures
            final(self).wf(),
            final(self).phase == RunPhase::Failed,
            final(self).pairs@ == old(self).pairs@,
            final(self).pairs_written == 0,
            final(self).failure == Some(
                RunError { kind: ErrorKind::Auth, context },
            ),
    {
        self.phase = RunPhase::Failed;
        self.failure = Some(RunError { kind: ErrorKind::Auth, context });
    }

    /// The pair whose fetch is pending.
    pub fn current_pair(&self) -> (p: PairTask)
        requires
            self.wf(),
            self.phase == RunPhase::NeedFetch || self.phase == RunPhase::NeedWrite,
        ensures
            p == self.pairs@[self.next_pair as int],
    {
        self.pairs[self.next_pair]
    }

    /// The bearer token; available from authentication on.
    pub fn bearer(&self) -> (t: &AccessToken)
        requires
            self.wf(),
            self.phase == RunPhase::NeedFetch || self.phase == RunPhase::NeedWrite,
        ensures
            Some(*t) == self.token,
    {
        self.token.as_ref().unwrap()
    }

    /// The current pair's listings arrived: aggregate them, build one metric
    /// point per item id, and await the batched write. Each point carries
    /// the pending pair's realm and auction-house ids, its item's three
    /// statistics as the defining folds give them over exactly this listing
    /// sequence, and the display name exactly when the resolver knows the
    /// id.
    pub fn fetch_succeeded(
        &mut self,
        listings: &Vec<AuctionListing>,
        names: &NameResolver,
    ) -> (points: Vec<MetricPoint>)
        requires
            old(self).wf(),
            old(self).phase == RunPhase::NeedFetch,
            listings@.len() <= i64::MAX,
        ensures
            final(self).wf(),
            final(self).phase == RunPhase::NeedWrite,
            final(self).pairs@ == old(self).pairs@,
            final(self).next_pair == old(self).next_pair,
            final(self).pairs_written == old(self).pairs_written,
            final(self).token == old(self).token,
            points@.len() == distinct_items(listings@).len(),
            forall|j: int| 0 <= j < points@.len() ==> {
                let p = #[trigger] points@[j];
                &&& p.item_id == distinct_items(listings@)[j]
                &&& p.realm_id == old(self).pairs@[old(self).next_pair as int].realm
                &&& p.ah_id == old(self).pairs@[old(self).next_pair as int].auction_house
                &&& p.count == count_for(listings@, p.item_id)
                &&& p.total_items == total_for(listings@, p.item_id)
                &&& p.min_buyout == min_buyout_for(listings@, p.item_id)
                &&& match p.item_name {
                    Some(n) => names@.dom().contains(p.item_id) && n@ == names@[p.item_id],
                    None => !names@.dom().contains(p.item_id),
                }
            },
    {
        let pair = self.pairs[self.next_pair];
        let aggregates = aggregate_listings(listings);
        let points = build_points(&aggregates, pair.realm, pair.auction_house, names);
        self.phase = RunPhase::NeedWrite;
        points
    }

    /// The current pair's fetch failed, on the wire or in the response
    /// schema: the run is over, and no write for this or any later pair
    /// will happen — the number of completed writes stays exactly as it
    /// was.
    pub fn fetch_failed(&mut self, kind: ErrorKind, context: String)
        requires
            old(self).wf(),
            old(self).phase == RunPhase::NeedFetch,
            kind == ErrorKind::Transport || kind == ErrorKind::Parse,
        ensures
            final(self).wf(),
            final(self).phase == RunPhase::Failed,
            final(self).pairs@ == old(self).pairs@,
            final(self).pairs_written == old(self).pairs_written,
            final(self).next_pair == old(self).next_pair,
            final(self).failure == Some(RunError { kind, context }),
    {
        self.phase = RunPhase::Failed;
        self.failure = Some(RunError { kind, context });
    }

    /// The batched write for the current pair completed: that pair is done
    /// for good, and the next pair's fetch — if any is left — becomes
    /// pending.
    pub fn write_succeeded(&mut self) -> (next: Option<PairTask>)
        requires
            old(self).wf(),
            old(self).phase == RunPhase::NeedWrite,
        ensures
            final(self).wf(),
            final(self).pairs@ == old(self).pairs@,
            final(self).pairs_written == old(self).pairs_written + 1,
            final(self).next_pair == old(self).next_pair + 1,
            final(self).token == old(self).token,
            old(self).next_pair + 1 < old(self).pairs@.len() ==> {
                &&& final(self).phase == RunPhase::NeedFetch
                &&& next == Some(old(self).pairs@[old(self).next_pair + 1])
            },
            old(self).next_pair + 1 == old(self).pairs@.len() ==> {
                &&& final(self).phase == RunPhase::Done
                &&& next is None
            },
    {
        let n = self.pairs.len();
        assert(self.pairs_written < n && self.next_pair < n);
        self.pairs_written = self.pairs_written + 1;
        self.next_pair = self.next_pair + 1;
        if self.next_pair < self.pairs.len() {
            self.phase = RunPhase::NeedFetch;
            Some(self.pairs[self.next_pair])
        } else {
            self.phase = RunPhase::Done;
            None
        }
    }

    /// The time-series store rejected the current pair's write: the run is
    /// over; the failed pair is not counted as written.
    pub fn write_failed(&mut self, context: String)
        requires
            old(self).wf(),
            old(self).phase == RunPhase::NeedWrite,
        ensures
            final(self).wf(),
            final(self).phase == RunPhase::Failed,
            final(self).pairs@ == old(self).pairs@,
            final(self).pairs_written == old(self).pairs_written,
            final(self).failure == Some(RunError { kind: ErrorKind::Write, context }),
    {
        self.phase = RunPhase::Failed;
        self.failure = Some(RunError { kind: ErrorKind::Write, context });
    }
}

} // verus!
