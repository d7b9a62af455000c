use vstd::prelude::*;

verus! {

/// An inclusive range of blocks `[from, to]` whose start lies strictly
/// before its end.
#[derive(Clone, Copy, Debug, PartialEq, Eq, Structural)]
pub struct BlockRange {
    pub from: i64,
    pub to: i64,
}

/// Why a block range was rejected.
#[derive(Clone, Copy, Debug, PartialEq, Eq, Structural)]
pub enum RangeError {
    /// The start block is not strictly before the end block.
    StartNotBeforeEnd,
    /// The start block, derived from the end and the lookback, does not fit
    /// a block number.
    StartOutOfBounds,
}

/// The end block of an analysis: the one given, else the current block.
pub open spec fn resolved_end(to: Option<i64>, current_block: i64) -> int {
    match to {
        Some(t) => t as int,
        None => current_block as int,
    }
}

/// The start block of an analysis: the one given, else `blocks` before the end.
pub open spec fn resolved_start(from: Option<i64>, to: Option<i64>, blocks: i64, current_block: i64) -> int {
    match from {
        Some(f) => f as int,
        None => resolved_end(to, current_block) - blocks,
    }
}

impl BlockRange {
    pub open spec fn wf(self) -> bool {
        self.from < self.to
    }

    pub open spec fn start(self) -> int {
        self.from as int
    }

    pub open spec fn end(self) -> int {
        self.to as int
    }

    pub open spec fn holds(self, block: int) -> bool {
        self.from <= block <= self.to
    }

    /// The range `[from, to]`; rejected unless `from < to`.
    pub fn new(from: i64, to: i64) -> (r: Result<BlockRange, RangeError>)
        ensures
            r is Ok <==> from < to,
            r matches Ok(range) ==> range.wf() && range.start() == from && range.end() == to,
            r matches Err(e) ==> e == RangeError::StartNotBeforeEnd,
    {
        if from < to {
            Ok(BlockRange { from, to })
        } else {
            Err(RangeError::StartNotBeforeEnd)
        }
    }

    /// The range an analysis covers, from the optional bounds given, the
    /// lookback `blocks` and the current block height: the end defaults to
    /// the current block, the start to `blocks` before the end.
    pub fn resolve(from: Option<i64>, to: Option<i64>, blocks: i64, current_block: i64) -> (r: Result<BlockRange, RangeError>)
        ensures
            ({
                let start = resolved_start(from, to, blocks, current_block);
                let end = resolved_end(to, current_block);
                &&& r is Ok <==> i64::MIN <= start < end
                &&& r matches Ok(range) ==> range.wf() && range.start() == start && range.end() == end
                &&& r == Err::<BlockRange, RangeError>(RangeError::StartOutOfBounds) <==> start < i64::MIN || start > i64::MAX
                &&& r == Err::<BlockRange, RangeError>(RangeError::StartNotBeforeEnd) <==> i64::MIN <= start <= i64::MAX && start >= end
            }),
    {
        let end: i64 = match to {
            Some(t) => t,
            None => current_block,
        };
        let start: i64 = match from {
            Some(f) => f,
            None => {
                let wide: i128 = end as i128 - blocks as i128;
                if wide < i64::MIN as i128 || wide > i64::MAX as i128 {
                    return Err(RangeError::StartOutOfBounds);
                }
                wide as i64
            },
        };
        BlockRange::new(start, end)
    }

    /// Whether `block` lies in the range, bounds included.
    pub fn contains(&self, block: i64) -> (r: bool)
        ensures
            r == self.holds(block as int),
    {
        self.from <= block && block <= self.to
    }
}

} // verus!
