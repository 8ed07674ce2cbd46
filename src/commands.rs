use vstd::prelude::*;
use crate::error::Error;

verus! {

/// What a user asks to be optimised: one biscuit count, or every count of an
/// inclusive range.
#[derive(Clone, Copy, Debug, PartialEq, Eq, Structural)]
pub enum Commands {
    /// Place a set number of biscuits.
    Single { biscuits: usize },
    /// Place every number of biscuits from `start` to `end`, both included.
    Multi { start: usize, end: usize },
}

/// The counts `start, start + 1, ..., end`.
pub open spec fn count_range(start: usize, end: usize) -> Seq<usize>
    recommends
        start <= end,
{
    Seq::new((end - start + 1) as nat, |i: int| (start + i) as usize)
}

/// What a command resolves to: the error that rejects it, or the biscuit
/// counts of its runs, in increasing order.
pub open spec fn command_counts(c: Commands) -> Result<Seq<usize>, Error> {
    match c {
        Commands::Single { biscuits } => if biscuits == 0 {
            Err(Error::BiscuitsBelowOne)
        } else {
            Ok(seq![biscuits])
        },
        Commands::Multi { start, end } => if start == 0 || end == 0 {
            Err(Error::BiscuitsBelowOne)
        } else if start > end {
            Err(Error::StartGreaterThanEnd)
        } else {
            Ok(count_range(start, end))
        },
    }
}

impl Commands {
    /// The biscuit count of each run that this command asks for. A count of
    /// zero is rejected, as is a range whose start lies above its end; a range
    /// with equal ends is a single run.
    pub fn biscuit_counts(&self) -> (r: Result<Vec<usize>, Error>)
        ensures
            match (r, command_counts(*self)) {
                (Ok(v), Ok(s)) => v@ == s,
                (Err(e), Err(f)) => e == f,
                _ => false,
            },
    {
        match *self {
            Commands::Single { biscuits } => {
                if biscuits == 0 {
                    return Err(Error::BiscuitsBelowOne);
                }
                let v = vec![biscuits];
                assert(v@ =~= seq![biscuits]);
                Ok(v)
            },
            Commands::Multi { start, end } => {
                if start == 0 || end == 0 {
                    return Err(Error::BiscuitsBelowOne);
                }
                if start > end {
                    return Err(Error::StartGreaterThanEnd);
                }
                let mut counts: Vec<usize> = Vec::new();
                let mut n: usize = start;
                loop
                    invariant_except_break
                        start <= n <= end,
                        counts.len() == n - start,
                    invariant
                        forall|i: int|
                            0 <= i < counts.len() ==> #[trigger] counts@[i] == start + i,
                    ensures
                        counts.len() == end - start + 1,
                    decreases end - n,
                {
                    counts.push(n);
                    if n == end {
                        break;
                    }
                    n = n + 1;
                }
                assert(counts@ =~= count_range(start, end));
                Ok(counts)
            },
        }
    }
}

} // verus!
