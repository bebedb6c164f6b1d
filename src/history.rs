//! The back/forward history of working directories.
use vstd::prelude::*;

use crate::text::texts;

verus! {

/// Directories left behind, most recent last, and directories gone back from.
pub struct History {
    pub back: Vec<String>,
    pub forward: Vec<String>,
}

/// The last `limit` entries, or all where there is no limit.
pub open spec fn keep_last(s: Seq<Seq<char>>, limit: Option<usize>) -> Seq<Seq<char>> {
    match limit {
        Some(l) => if s.len() > l {
            s.skip(s.len() - l)
        } else {
            s
        },
        None => s,
    }
}

impl History {
    /// An empty history.
    pub fn new() -> (h: History)
        ensures
            h.back@.len() == 0,
            h.forward@.len() == 0,
    {
        History { back: Vec::new(), forward: Vec::new() }
    }

    /// Records leaving `from` for a new directory: it goes on the back
    /// history, which keeps at most `limit` entries (the oldest go), and the
    /// forward history is cleared.
    pub fn visit(&mut self, from: String, limit: Option<usize>)
        ensures
            texts(final(self).back@) == keep_last(texts(old(self).back@).push(from@), limit),
            final(self).forward@.len() == 0,
    {
        let ghost full = texts(self.back@).push(from@);
        self.back.push(from);
        assert(texts(self.back@) =~= full);
        if let Some(l) = limit {
            while self.back.len() > l
                invariant
                    full.len() >= self.back@.len(),
                    full.len() > l ==> self.back@.len() >= l,
                    full.len() <= l ==> self.back@.len() == full.len(),
                    texts(self.back@) == full.skip(full.len() - self.back@.len()),
                decreases self.back.len(),
            {
                let ghost prev = self.back@;
                self.back.remove(0);
                assert(self.back@ =~= prev.remove(0));
                let ghost k = full.len() - prev.len();
                assert forall|j: int| 0 <= j < self.back@.len() implies texts(self.back@)[j] == full.skip(
                    k + 1,
                )[j] by {
                    assert(texts(prev)[j + 1] == full.skip(k)[j + 1]);
                }
                assert(texts(self.back@) =~= full.skip(full.len() - self.back@.len()));
            }
            assert(full.len() > l ==> self.back@.len() == l);
            assert(full.len() <= l ==> texts(self.back@) =~= full);
        }
        self.forward = Vec::new();
    }

    /// Goes back from `current`: the most recent directory left, if any,
    /// with `current` put on the forward history.
    pub fn go_back(&mut self, current: String) -> (r: Option<String>)
        ensures
            old(self).back@.len() == 0 ==> r is None && final(self).back@ == old(self).back@
                && final(self).forward@ == old(self).forward@,
            old(self).back@.len() > 0 ==> r == Some(old(self).back@.last()) && final(self).back@
                == old(self).back@.drop_last() && final(self).forward@ == old(self).forward@.push(
                current,
            ),
    {
        match self.back.pop() {
            Some(p) => {
                self.forward.push(current);
                Some(p)
            },
            None => None,
        }
    }

    /// Goes forward from `current`: the directory most recently gone back
    /// from, if any, with `current` put on the back history.
    pub fn go_forward(&mut self, current: String) -> (r: Option<String>)
        ensures
            old(self).forward@.len() == 0 ==> r is None && final(self).back@ == old(self).back@
                && final(self).forward@ == old(self).forward@,
            old(self).forward@.len() > 0 ==> r == Some(old(self).forward@.last())
                && final(self).forward@ == old(self).forward@.drop_last() && final(self).back@
                == old(self).back@.push(current),
    {
        match self.forward.pop() {
            Some(p) => {
                self.back.push(current);
                Some(p)
            },
            None => None,
        }
    }
}

} // verus!
