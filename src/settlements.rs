use vstd::prelude::*;
use vstd::multiset::Multiset;
use vstd::seq_lib::{to_multiset_build, to_multiset_insert};
use crate::range::BlockRange;

verus! {

/// A settlement as the store lists it.
#[derive(Debug)]
pub struct SettlementRow {
    /// Hash of the settlement transaction.
    pub tx_hash: Vec<u8>,
    pub block_number: i64,
    /// Position of the settlement's log in its block; orders settlements of
    /// one block.
    pub log_index: i64,
}

/// Length in bytes of a transaction hash.
pub const TX_HASH_LEN: usize = 32;

/// `a` comes no later than `b`: by block, then by log index.
pub open spec fn row_le(a: SettlementRow, b: SettlementRow) -> bool {
    a.block_number < b.block_number || (a.block_number == b.block_number && a.log_index <= b.log_index)
}

/// The rows ascend by block, then by log index.
pub open spec fn is_ordered(rows: Seq<SettlementRow>) -> bool {
    forall|i: int, j: int| 0 <= i < j < rows.len() ==> row_le(#[trigger] rows[i], #[trigger] rows[j])
}

/// The rows whose block lies in `range`.
pub open spec fn in_range(range: BlockRange) -> spec_fn(SettlementRow) -> bool {
    |row: SettlementRow| range.holds(row.block_number as int)
}

fn comes_no_later(a: &SettlementRow, b: &SettlementRow) -> (r: bool)
    ensures
        r == row_le(*a, *b),
{
    a.block_number < b.block_number || (a.block_number == b.block_number && a.log_index <= b.log_index)
}

impl SettlementRow {
    /// Whether the transaction hash has the length of one.
    pub fn has_valid_hash(&self) -> (r: bool)
        ensures
            r == (self.tx_hash@.len() == TX_HASH_LEN),
    {
        self.tx_hash.len() == TX_HASH_LEN
    }
}

/// The settlements of `rows` whose block lies in `range`, each as often as in
/// `rows`, ascending by block and then by log index.
pub fn settlements_in_range(range: &BlockRange, rows: Vec<SettlementRow>) -> (r: Vec<SettlementRow>)
    ensures
        is_ordered(r@),
        r@.to_multiset() == rows@.filter(in_range(*range)).to_multiset(),
{
    let ghost keep = in_range(*range);
    let mut rest = rows;
    let mut out: Vec<SettlementRow> = Vec::new();
    proof {
        broadcast use vstd::seq_lib::group_to_multiset_ensures;
        assert(out@.to_multiset() =~= Multiset::empty());
        assert(out@.to_multiset().add(rest@.filter(keep).to_multiset()) =~= rows@.filter(keep).to_multiset());
    }
    while rest.len() > 0
        invariant
            keep == in_range(*range),
            is_ordered(out@),
            out@.to_multiset().add(rest@.filter(keep).to_multiset()) == rows@.filter(keep).to_multiset(),
        decreases rest@.len(),
    {
        let ghost before = rest@;
        let row = rest.pop().unwrap();
        proof {
            assert(before =~= rest@.push(row));
            rest@.lemma_filter_push(row, keep);
        }
        if range.contains(row.block_number) {
            let mut pos: usize = 0;
            while pos < out.len() && comes_no_later(&out[pos], &row)
                invariant
                    pos <= out@.len(),
                    forall|k: int| 0 <= k < pos ==> row_le(#[trigger] out@[k], row),
                decreases out@.len() - pos,
            {
                pos = pos + 1;
            }
            let ghost prev = out@;
            out.insert(pos, row);
            proof {
                to_multiset_insert(prev, pos as int, row);
                to_multiset_build(rest@.filter(keep), row);
                assert(out@.to_multiset().add(rest@.filter(keep).to_multiset())
                    =~= prev.to_multiset().add(before.filter(keep).to_multiset()));
                assert forall|i: int, j: int| 0 <= i < j < out@.len() implies row_le(#[trigger] out@[i], #[trigger] out@[j]) by {
                    if j < pos {
                        assert(out@[i] == prev[i] && out@[j] == prev[j]);
                    } else if j == pos {
                        assert(out@[i] == prev[i]);
                    } else if i < pos {
                        assert(out@[i] == prev[i] && out@[j] == prev[j - 1]);
                        assert(row_le(prev[i], prev[pos as int]));
                    } else if i == pos {
                        assert(out@[j] == prev[j - 1]);
                        assert(row_le(prev[pos as int], prev[j - 1]) || pos as int == j - 1);
                    } else {
                        assert(out@[i] == prev[i - 1] && out@[j] == prev[j - 1]);
                    }
                }
            }
        } else {
            proof {
                assert(out@.to_multiset().add(rest@.filter(keep).to_multiset())
                    =~= out@.to_multiset().add(before.filter(keep).to_multiset()));
            }
        }
    }
    proof {
        broadcast use vstd::seq_lib::group_to_multiset_ensures;
        rest@.lemma_filter_len(keep);
        assert(rest@.filter(keep) =~= Seq::empty());
        assert(out@.to_multiset().add(Seq::<SettlementRow>::empty().to_multiset()) =~= out@.to_multiset());
    }
    out
}

} // verus!
