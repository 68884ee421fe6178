//! The recall history: an ordered cache of past confirmed lines, most recent
//! first, and a browsing index over it.

use crate::text;
use vstd::prelude::*;

verus! {

/// Past confirmed lines, most recent first.
///
/// `browse_index` is 0 while not browsing; a value `k` in `1..=len` selects
/// `entries[k - 1]`, so larger values reach older lines.
pub struct HistoryCache {
    pub entries: Vec<Vec<char>>,
    pub browse_index: usize,
}

impl HistoryCache {
    /// The browsing index never points past the oldest entry.
    pub open spec fn wf(self) -> bool {
        self.browse_index <= self.entries@.len()
    }

    /// An empty cache, not browsing.
    pub fn new() -> (r: HistoryCache)
        ensures
            r.wf(),
            r.entries@.len() == 0,
            r.browse_index == 0,
    {
        HistoryCache { entries: Vec::new(), browse_index: 0 }
    }

    /// Steps to the next older entry and returns the text to load into the
    /// buffer, or returns nothing when the oldest entry is already selected
    /// (which includes the empty cache).
    pub fn move_up(&mut self) -> (r: Option<Vec<char>>)
        requires
            old(self).wf(),
        ensures
            final(self).wf(),
            final(self).entries@ == old(self).entries@,
            old(self).browse_index < old(self).entries@.len() ==> final(self).browse_index == old(self).browse_index + 1,
            old(self).browse_index < old(self).entries@.len() ==> (r matches Some(t) && t@ == old(self).entries@[old(self).browse_index as int]@),
            old(self).browse_index >= old(self).entries@.len() ==> final(self).browse_index == old(self).browse_index && r is None,
    {
        if self.browse_index < self.entries.len() {
            let t = text::copy_chars(&self.entries[self.browse_index]);
            self.browse_index = self.browse_index + 1;
            Some(t)
        } else {
            None
        }
    }

    /// Steps back toward the present. While not browsing it does nothing;
    /// from the most recent entry it leaves browsing and hands back an empty
    /// line; otherwise it selects the next newer entry and hands back its
    /// text.
    pub fn move_down(&mut self) -> (r: Option<Vec<char>>)
        requires
            old(self).wf(),
        ensures
            final(self).wf(),
            final(self).entries@ == old(self).entries@,
            old(self).browse_index == 0 ==> final(self).browse_index == 0 && r is None,
            old(self).browse_index == 1 ==> final(self).browse_index == 0 && (r matches Some(t)
                && t@.len() == 0),
            old(self).browse_index > 1 ==> final(self).browse_index == old(self).browse_index - 1,
            old(self).browse_index > 1 ==> (r matches Some(t) && t@ == old(self).entries@[old(self).browse_index - 2]@),
    {
        if self.browse_index == 0 {
            None
        } else if self.browse_index == 1 {
            self.browse_index = 0;
            Some(Vec::new())
        } else {
            self.browse_index = self.browse_index - 1;
            let t = text::copy_chars(&self.entries[self.browse_index - 1]);
            Some(t)
        }
    }

    /// Records a confirmed line and leaves browsing. The line is kept
    /// whenever it is non-empty or the cache holds nothing yet; duplicates
    /// are not folded together.
    pub fn record(&mut self, line: Vec<char>)
        requires
            old(self).wf(),
        ensures
            final(self).wf(),
            final(self).browse_index == 0,
            line@.len() > 0 || old(self).entries@.len() == 0 ==> final(self).entries@.len() == old(self).entries@.len() + 1 && final(self).entries@[0]@ == line@ && final(self).entries@.skip(1) == old(self).entries@,
            !(line@.len() > 0 || old(self).entries@.len() == 0) ==> final(self).entries@ == old(self).entries@,
    {
        self.browse_index = 0;
        if line.len() > 0 || self.entries.len() == 0 {
            self.entries.insert(0, line);
            assert(self.entries@.skip(1) =~= old(self).entries@);
        }
    }
}

} // verus!
