//! The grid of entries the UI consumer fills: one entry per decoded
//! thumbnail, appended in batch order, each carrying a visibility flag
//! kept in step with the current search query.

use vstd::prelude::*;
use crate::filter::matches_spec;
use crate::thumb::Thumbnail;

verus! {

/// One selectable unit of the grid: the source path as its identity, the
/// thumbnail's dimensions, and whether the current query lets it show.
pub struct GridEntry {
    pub path: String,
    pub width: u32,
    pub height: u32,
    pub visible: bool,
}

/// The grid entry a thumbnail becomes under query `q`.
pub open spec fn entry_of(t: Thumbnail, q: Seq<char>) -> GridEntry {
    GridEntry {
        path: t.path,
        width: t.width,
        height: t.height,
        visible: matches_spec(q, t.path@),
    }
}

/// `e` with its visibility recomputed under query `q`.
pub open spec fn entry_refiltered(e: GridEntry, q: Seq<char>) -> GridEntry {
    GridEntry { visible: matches_spec(q, e.path@), ..e }
}

/// All entries with their visibility recomputed under query `q`.
pub open spec fn refiltered(s: Seq<GridEntry>, q: Seq<char>) -> Seq<GridEntry> {
    s.map_values(|e: GridEntry| entry_refiltered(e, q))
}

/// Re-running the filter with an unchanged query changes nothing: the
/// visibility of an entry depends on the query and its path alone.
pub proof fn lemma_refilter_idempotent(s: Seq<GridEntry>, q: Seq<char>)
    ensures
        refiltered(refiltered(s, q), q) == refiltered(s, q),
{
    assert(refiltered(refiltered(s, q), q) =~= refiltered(s, q));
}

/// Batches appended one after the other land in the grid exactly as
/// their concatenation does: delivery order is kept entry by entry, both
/// across batches and inside each batch.
pub proof fn lemma_batch_order(
    entries: Seq<GridEntry>,
    first: Seq<Thumbnail>,
    second: Seq<Thumbnail>,
    q: Seq<char>,
)
    ensures
        (entries + first.map_values(|t: Thumbnail| entry_of(t, q))) + second.map_values(
            |t: Thumbnail| entry_of(t, q),
        ) == entries + (first + second).map_values(|t: Thumbnail| entry_of(t, q)),
{
    assert((entries + first.map_values(|t: Thumbnail| entry_of(t, q))) + second.map_values(
        |t: Thumbnail| entry_of(t, q),
    ) =~= entries + (first + second).map_values(|t: Thumbnail| entry_of(t, q)));
}

/// The grid as the single-threaded UI side owns it.
pub struct Grid {
    pub entries: Vec<GridEntry>,
}

impl Grid {
    /// An empty grid.
    pub fn new() -> (g: Grid)
        ensures
            g.entries@ == Seq::<GridEntry>::empty(),
    {
        Grid { entries: Vec::new() }
    }

    /// Appends one received batch: an entry per thumbnail, in batch
    /// order, each immediately subject to the current query.
    pub fn apply_batch(&mut self, batch: Vec<Thumbnail>, query: &str)
        ensures
            final(self).entries@ == old(self).entries@ + batch@.map_values(
                |t: Thumbnail| entry_of(t, query@),
            ),
    {
        let ghost orig = batch@;
        let ghost start = self.entries@;
        let mut rest = batch;
        proof {
            assert(self.entries@ =~= start + orig.subrange(0, 0).map_values(
                |t: Thumbnail| entry_of(t, query@),
            ));
        }
        while rest.len() > 0
            invariant
                rest@.len() <= orig.len(),
                rest@ == orig.subrange(orig.len() - rest@.len(), orig.len() as int),
                self.entries@ == start + orig.subrange(0, orig.len() - rest@.len()).map_values(
                    |t: Thumbnail| entry_of(t, query@),
                ),
            decreases rest.len(),
        {
            let ghost done = orig.len() - rest@.len();
            let t = rest.remove(0);
            proof {
                assert(t == orig[done]);
                assert(rest@ =~= orig.subrange(done + 1, orig.len() as int));
            }
            let visible = crate::filter::matches(query, t.path.as_str());
            self.entries.push(GridEntry { path: t.path, width: t.width, height: t.height, visible });
            proof {
                assert(self.entries@ =~= start + orig.subrange(0, done + 1).map_values(
                    |t: Thumbnail| entry_of(t, query@),
                )) by {
                    assert(orig.subrange(0, done + 1) =~= orig.subrange(0, done).push(orig[done]));
                    assert(orig.subrange(0, done + 1).map_values(
                        |t: Thumbnail| entry_of(t, query@),
                    ) =~= orig.subrange(0, done).map_values(|t: Thumbnail| entry_of(t, query@)).push(
                        entry_of(orig[done], query@),
                    ));
                }
            }
        }
        proof {
            assert(orig.subrange(0, orig.len() as int) =~= orig);
        }
    }

    /// Recomputes every entry's visibility under the current query; paths
    /// and dimensions stay as they are. Correct however many entries have
    /// arrived so far.
    pub fn refilter(&mut self, query: &str)
        ensures
            final(self).entries@ == refiltered(old(self).entries@, query@),
    {
        let ghost orig = self.entries@;
        let n = self.entries.len();
        let mut out: Vec<GridEntry> = Vec::new();
        let mut i: usize = 0;
        proof {
            assert(out@ =~= refiltered(orig.subrange(0, 0), query@));
        }
        while i < n
            invariant
                i <= n,
                n == self.entries@.len(),
                self.entries@ == orig,
                out@ == refiltered(orig.subrange(0, i as int), query@),
            decreases n - i,
        {
            let e = &self.entries[i];
            let visible = crate::filter::matches(query, e.path.as_str());
            out.push(GridEntry { path: e.path.clone(), width: e.width, height: e.height, visible });
            proof {
                assert(out@ =~= refiltered(orig.subrange(0, i + 1), query@)) by {
                    assert(orig.subrange(0, i + 1) =~= orig.subrange(0, i as int).push(
                        orig[i as int],
                    ));
                    assert(refiltered(orig.subrange(0, i + 1), query@) =~= refiltered(
                        orig.subrange(0, i as int),
                        query@,
                    ).push(entry_refiltered(orig[i as int], query@)));
                }
            }
            i = i + 1;
        }
        self.entries = out;
        proof {
            assert(orig.subrange(0, n as int) =~= orig);
        }
    }

    /// The paths of the entries the current query lets show, in grid
    /// order.
    pub fn visible_paths(&self) -> (r: Vec<String>)
        ensures
            r@ == visible_paths_spec(self.entries@),
    {
        let n = self.entries.len();
        let mut out: Vec<String> = Vec::new();
        let mut i: usize = 0;
        while i < n
            invariant
                i <= n,
                n == self.entries@.len(),
                out@ == visible_paths_spec(self.entries@.subrange(0, i as int)),
            decreases n - i,
        {
            proof {
                assert(self.entries@.subrange(0, i + 1).drop_last() =~= self.entries@.subrange(
                    0,
                    i as int,
                ));
            }
            if self.entries[i].visible {
                out.push(self.entries[i].path.clone());
            }
            i = i + 1;
        }
        proof {
            assert(self.entries@.subrange(0, n as int) =~= self.entries@);
        }
        out
    }
}

/// The paths of the visible entries, in grid order.
pub open spec fn visible_paths_spec(s: Seq<GridEntry>) -> Seq<String>
    decreases s.len(),
{
    if s.len() == 0 {
        Seq::empty()
    } else if s.last().visible {
        visible_paths_spec(s.drop_last()).push(s.last().path)
    } else {
        visible_paths_spec(s.drop_last())
    }
}

} // verus!
