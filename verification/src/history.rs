//! The completed scans, oldest first, up to a limit.

use crate::text::same_text;
use crate::virus_total::{result_views, ScanResult, ScanResultView};
use vstd::prelude::*;

verus! {

/// The records of completed scans in the order in which they were added.
/// Never more are kept than the limit; the oldest leave first.
#[derive(Debug)]
pub struct ScanHistory {
    entries: Vec<ScanResult>,
    limit: usize,
}

/// What the contracts say of a `ScanHistory`.
pub struct ScanHistoryView {
    pub entries: Seq<ScanResultView>,
    pub limit: nat,
}

impl View for ScanHistory {
    type V = ScanHistoryView;

    closed spec fn view(&self) -> ScanHistoryView {
        ScanHistoryView { entries: result_views(self.entries@), limit: self.limit as nat }
    }
}

/// The last `limit` of `entries`; all of them where they are no more.
pub open spec fn newest(entries: Seq<ScanResultView>, limit: nat) -> Seq<ScanResultView> {
    if entries.len() > limit {
        entries.skip(entries.len() - limit)
    } else {
        entries
    }
}

/// The instant of the latest scan of the file at `path` among `entries`.
pub open spec fn latest_scan(entries: Seq<ScanResultView>, path: Seq<char>) -> Option<u64>
    decreases entries.len(),
{
    if entries.len() == 0 {
        None
    } else {
        let earlier = latest_scan(entries.drop_last(), path);
        let last = entries.last();
        if last.file_path != path {
            earlier
        } else {
            match earlier {
                Some(instant) if instant > last.scan_date => earlier,
                _ => Some(last.scan_date),
            }
        }
    }
}

/// The records after those of `added` were added one by one, in this
/// order, to a history that held `entries`.
pub open spec fn after_pushes(
    entries: Seq<ScanResultView>,
    limit: nat,
    added: Seq<ScanResultView>,
) -> Seq<ScanResultView>
    decreases added.len(),
{
    if added.len() == 0 {
        entries
    } else {
        newest(after_pushes(entries, limit, added.drop_last()).push(added.last()), limit)
    }
}

/// However many records are added, the history never holds more than its
/// limit, and what it holds are the newest of all its records in the order
/// in which they came: each record added to a full history drives out
/// exactly the oldest.
pub proof fn lemma_history_holds_newest(
    entries: Seq<ScanResultView>,
    limit: nat,
    added: Seq<ScanResultView>,
)
    requires
        entries.len() <= limit,
    ensures
        after_pushes(entries, limit, added).len() <= limit,
        after_pushes(entries, limit, added) == newest(entries + added, limit),
    decreases added.len(),
{
    if added.len() == 0 {
        assert(entries + added =~= entries);
    } else {
        let earlier = added.drop_last();
        lemma_history_holds_newest(entries, limit, earlier);
        let all = entries + earlier;
        assert((entries + added) =~= all.push(added.last()));
        assert(newest(newest(all, limit).push(added.last()), limit) =~= newest(
            all.push(added.last()),
            limit,
        ));
    }
}

proof fn lemma_views_push(entries: Seq<ScanResult>, result: ScanResult)
    ensures
        result_views(entries.push(result)) == result_views(entries).push(result@),
{
    assert(result_views(entries.push(result)) =~= result_views(entries).push(result@));
}

proof fn lemma_views_skip(entries: Seq<ScanResult>, n: int)
    requires
        0 <= n <= entries.len(),
    ensures
        result_views(entries.skip(n)) == result_views(entries).skip(n),
{
    assert(result_views(entries.skip(n)) =~= result_views(entries).skip(n));
}

impl ScanHistory {
    #[verifier::type_invariant]
    spec fn within_limit(self) -> bool {
        self.entries@.len() <= self.limit
    }

    /// An empty history that keeps up to `limit` records.
    pub fn new(limit: usize) -> (history: ScanHistory)
        ensures
            history@.entries == Seq::<ScanResultView>::empty(),
            history@.limit == limit,
    {
        let history = ScanHistory { entries: Vec::new(), limit };
        assert(result_views(history.entries@) =~= Seq::<ScanResultView>::empty());
        history
    }

    /// How many records the history keeps at most.
    pub fn limit(&self) -> (limit: usize)
        ensures
            limit == self@.limit,
    {
        self.limit
    }

    /// How many records the history holds; never more than its limit.
    pub fn len(&self) -> (count: usize)
        ensures
            count == self@.entries.len(),
            count <= self@.limit,
    {
        proof {
            use_type_invariant(self);
        }
        self.entries.len()
    }

    /// Adds `result` as the newest record. A full history first drops its
    /// oldest record and keeps the others in their order; a history with
    /// the limit 0 stays empty.
    pub fn push(&mut self, result: ScanResult)
        ensures
            final(self)@.limit == old(self)@.limit,
            final(self)@.entries == newest(old(self)@.entries.push(result@), old(self)@.limit),
            final(self)@.entries.len() <= final(self)@.limit,
            old(self)@.entries.len() < old(self)@.limit ==> final(self)@.entries
                == old(self)@.entries.push(result@),
            old(self)@.entries.len() == old(self)@.limit && old(self)@.limit > 0
                ==> final(self)@.entries == old(self)@.entries.drop_first().push(result@),
    {
        proof {
            use_type_invariant(&*self);
        }
        if self.limit == 0 {
            assert(newest(self@.entries.push(result@), 0).len() == 0);
            assert(newest(self@.entries.push(result@), 0) =~= self@.entries);
            return ;
        }
        let ghost before = self.entries@;
        let mut entries: Vec<ScanResult> = Vec::new();
        core::mem::swap(&mut self.entries, &mut entries);
        if entries.len() >= self.limit {
            let _ = entries.remove(0);
            proof {
                assert(entries@ =~= before.skip(1));
                lemma_views_skip(before, 1);
            }
        }
        proof {
            lemma_views_push(entries@, result);
            lemma_views_push(before, result);
        }
        entries.push(result);
        core::mem::swap(&mut self.entries, &mut entries);
        proof {
            let grown = result_views(before).push(result@);
            if before.len() >= self.limit {
                assert(result_views(self.entries@) =~= grown.skip(1));
                assert(grown.skip(1) =~= result_views(before).drop_first().push(result@));
            }
        }
    }

    /// Changes the limit. Where the history holds more records than the
    /// new limit, the oldest are dropped.
    pub fn set_limit(&mut self, limit: usize)
        ensures
            final(self)@.limit == limit,
            final(self)@.entries == newest(old(self)@.entries, limit as nat),
    {
        proof {
            use_type_invariant(&*self);
        }
        let ghost before = self.entries@;
        let mut entries: Vec<ScanResult> = Vec::new();
        core::mem::swap(&mut self.entries, &mut entries);
        let mut dropped: usize = 0;
        while entries.len() > limit
            invariant
                before.len() <= usize::MAX,
                dropped <= before.len(),
                entries@ == before.skip(dropped as int),
                entries@.len() + dropped == before.len(),
                dropped > 0 ==> entries@.len() >= limit,
            decreases entries@.len(),
        {
            let _ = entries.remove(0);
            dropped = dropped + 1;
            assert(entries@ =~= before.skip(dropped as int));
        }
        proof {
            lemma_views_skip(before, dropped as int);
            if dropped == 0 {
                assert(before.skip(0) =~= before);
            }
        }
        self.limit = limit;
        core::mem::swap(&mut self.entries, &mut entries);
    }

    /// Replaces the records by `records`, oldest first. Where these are
    /// more than the limit, the oldest are dropped.
    pub fn replace(&mut self, records: Vec<ScanResult>)
        ensures
            final(self)@.limit == old(self)@.limit,
            final(self)@.entries == newest(result_views(records@), old(self)@.limit),
    {
        let ghost before = records@;
        let mut entries = records;
        let mut dropped: usize = 0;
        assert(before.skip(0) =~= before);
        assert(before.len() == entries.len());
        while entries.len() > self.limit
            invariant
                before.len() <= usize::MAX,
                dropped <= before.len(),
                entries@ == before.skip(dropped as int),
                entries@.len() + dropped == before.len(),
                dropped > 0 ==> entries@.len() >= self.limit,
            decreases entries@.len(),
        {
            let _ = entries.remove(0);
            dropped = dropped + 1;
            assert(entries@ =~= before.skip(dropped as int));
        }
        proof {
            lemma_views_skip(before, dropped as int);
        }
        core::mem::swap(&mut self.entries, &mut entries);
    }

    /// Drops every record.
    pub fn clear(&mut self)
        ensures
            final(self)@.limit == old(self)@.limit,
            final(self)@.entries == Seq::<ScanResultView>::empty(),
    {
        let mut entries: Vec<ScanResult> = Vec::new();
        core::mem::swap(&mut self.entries, &mut entries);
        assert(result_views(self.entries@) =~= Seq::<ScanResultView>::empty());
    }

    /// A copy of the records, oldest first.
    pub fn to_vec(&self) -> (records: Vec<ScanResult>)
        ensures
            result_views(records@) == self@.entries,
    {
        let mut records: Vec<ScanResult> = Vec::new();
        let mut i: usize = 0;
        while i < self.entries.len()
            invariant
                i <= self.entries.len(),
                records.len() == i,
                forall|j: int| 0 <= j < i ==> (#[trigger] records@[j])@ == self.entries@[j]@,
            decreases self.entries.len() - i,
        {
            records.push(self.entries[i].duplicate());
            i = i + 1;
        }
        assert(result_views(records@) =~= result_views(self.entries@));
        records
    }

    /// The instant of the latest scan of the file at `path`, if the history
    /// holds one.
    pub fn last_scan_of(&self, path: &str) -> (latest: Option<u64>)
        ensures
            latest == latest_scan(self@.entries, path@),
    {
        let mut latest: Option<u64> = None;
        let mut i: usize = 0;
        assert(result_views(self.entries@).take(0) =~= Seq::<ScanResultView>::empty());
        while i < self.entries.len()
            invariant
                i <= self.entries.len(),
                latest == latest_scan(result_views(self.entries@).take(i as int), path@),
            decreases self.entries.len() - i,
        {
            let ghost views = result_views(self.entries@);
            proof {
                assert(views.take(i + 1).drop_last() =~= views.take(i as int));
                assert(views.take(i + 1).last() == self.entries@[i as int]@);
            }
            if same_text(self.entries[i].file_path.as_str(), path) {
                let date = self.entries[i].scan_date;
                latest = match latest {
                    Some(instant) => if instant > date {
                        Some(instant)
                    } else {
                        Some(date)
                    },
                    None => Some(date),
                };
            }
            i = i + 1;
        }
        assert(result_views(self.entries@).take(i as int) =~= result_views(self.entries@));
        latest
    }
}

} // verus!
