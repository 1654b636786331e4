//! The producer side of the pipeline: the scanned path list is cut into
//! bounded batches, decoded batch by batch, and each batch is handed over
//! a bounded channel in order. The channel itself and the worker threads
//! live with the embedding; this module pins down how the batches are
//! formed and that, concatenated, they are exactly the scanned paths.

use vstd::prelude::*;

verus! {

/// The number of paths handed to the worker pool per batch.
pub const BATCH_SIZE: usize = 100;

/// The bound on batches in flight between producer and consumer; a full
/// channel blocks the producer rather than dropping or buffering more.
pub const CHANNEL_CAPACITY: usize = 10;

/// The path list cut into chunks of `BATCH_SIZE`, in order; only the last
/// chunk may be shorter.
pub open spec fn chunks_spec(s: Seq<String>) -> Seq<Seq<String>>
    decreases s.len(),
{
    if s.len() == 0 {
        Seq::empty()
    } else if s.len() <= BATCH_SIZE {
        seq![s]
    } else {
        seq![s.subrange(0, BATCH_SIZE as int)] + chunks_spec(
            s.subrange(BATCH_SIZE as int, s.len() as int),
        )
    }
}

/// Concatenating the chunks gives back the original path list: nothing
/// is lost, duplicated or reordered by batching.
pub proof fn lemma_chunks_flatten(s: Seq<String>)
    ensures
        chunks_spec(s).flatten() == s,
    decreases s.len(),
{
    if s.len() == 0 {
        assert(chunks_spec(s).flatten() =~= s);
    } else if s.len() <= BATCH_SIZE {
        assert(chunks_spec(s) =~= seq![s]);
        chunks_spec(s).lemma_flatten_one_element();
    } else {
        let rest = s.subrange(BATCH_SIZE as int, s.len() as int);
        lemma_chunks_flatten(rest);
        assert(chunks_spec(s).first() == s.subrange(0, BATCH_SIZE as int));
        assert(chunks_spec(s).drop_first() =~= chunks_spec(rest));
        assert(chunks_spec(s).flatten() =~= s.subrange(0, BATCH_SIZE as int) + rest);
        assert(s.subrange(0, BATCH_SIZE as int) + rest =~= s);
    }
}

/// Every chunk is nonempty and no chunk exceeds the batch bound.
pub proof fn lemma_chunk_sizes(s: Seq<String>)
    ensures
        forall|i: int|
            0 <= i < chunks_spec(s).len() ==> 1 <= (#[trigger] chunks_spec(s)[i]).len()
                <= BATCH_SIZE,
    decreases s.len(),
{
    if s.len() == 0 {
    } else if s.len() <= BATCH_SIZE {
    } else {
        let rest = s.subrange(BATCH_SIZE as int, s.len() as int);
        lemma_chunk_sizes(rest);
        assert forall|i: int| 0 <= i < chunks_spec(s).len() implies 1 <= (
        #[trigger] chunks_spec(s)[i]).len() <= BATCH_SIZE by {
            if i > 0 {
                assert(chunks_spec(s)[i] == chunks_spec(rest)[i - 1]);
            }
        }
    }
}

/// Cuts the scanned paths into batches of at most `BATCH_SIZE`, in scan
/// order.
pub fn chunk_paths(paths: &Vec<String>) -> (r: Vec<Vec<String>>)
    ensures
        r@.map_values(|c: Vec<String>| c@) == chunks_spec(paths@),
{
    let n = paths.len();
    let mut out: Vec<Vec<String>> = Vec::new();
    let mut i: usize = 0;
    proof {
        assert(out@.map_values(|c: Vec<String>| c@) + chunks_spec(paths@.subrange(0, n as int))
            =~= chunks_spec(paths@)) by {
            assert(paths@.subrange(0, n as int) =~= paths@);
        }
    }
    while i < n
        invariant
            i <= n,
            n == paths@.len(),
            out@.map_values(|c: Vec<String>| c@) + chunks_spec(
                paths@.subrange(i as int, n as int),
            ) == chunks_spec(paths@),
        decreases n - i,
    {
        let end = if n - i > BATCH_SIZE {
            i + BATCH_SIZE
        } else {
            n
        };
        let mut chunk: Vec<String> = Vec::new();
        let mut j: usize = i;
        while j < end
            invariant
                i <= j <= end <= n,
                n == paths@.len(),
                chunk@ == paths@.subrange(i as int, j as int),
            decreases end - j,
        {
            chunk.push(paths[j].clone());
            proof {
                assert(chunk@ =~= paths@.subrange(i as int, j + 1));
            }
            j = j + 1;
        }
        let ghost suffix = paths@.subrange(i as int, n as int);
        let ghost later = paths@.subrange(end as int, n as int);
        proof {
            if n - i > BATCH_SIZE {
                assert(suffix.subrange(0, BATCH_SIZE as int) =~= chunk@);
                assert(suffix.subrange(BATCH_SIZE as int, suffix.len() as int) =~= later);
                assert(chunks_spec(suffix) == seq![chunk@] + chunks_spec(later));
            } else {
                assert(suffix =~= chunk@);
                assert(later =~= Seq::<String>::empty());
                assert(chunks_spec(suffix) == seq![chunk@] + chunks_spec(later)) by {
                    assert(chunks_spec(later) =~= Seq::<Seq<String>>::empty());
                    assert(chunks_spec(suffix) =~= seq![chunk@] + chunks_spec(later));
                }
            }
        }
        out.push(chunk);
        proof {
            let f = |c: Vec<String>| c@;
            assert(out@.map_values(f) =~= out@.drop_last().map_values(f).push(out@.last()@));
            assert(out@.map_values(f) + chunks_spec(later) =~= chunks_spec(paths@)) by {
                assert(out@.drop_last().map_values(f) + (seq![out@.last()@] + chunks_spec(later))
                    =~= (out@.drop_last().map_values(f).push(out@.last()@)) + chunks_spec(later));
            }
        }
        i = end;
    }
    proof {
        assert(chunks_spec(paths@.subrange(n as int, n as int)) =~= Seq::<Seq<String>>::empty());
        assert(out@.map_values(|c: Vec<String>| c@) =~= out@.map_values(|c: Vec<String>| c@)
            + chunks_spec(paths@.subrange(n as int, n as int)));
    }
    out
}

} // verus!
