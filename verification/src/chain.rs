//! Pointer chains: from a root address, through fixed offsets and
//! dereferences, to the address of a structure that the target allocates as it
//! runs.

use vstd::prelude::*;

use crate::address::Address;
use crate::error::{Error, ErrorKind};

verus! {

/// One step of a pointer chain.
#[derive(Debug, Clone, Copy, PartialEq, Eq, Structural)]
pub enum Step {
    /// Go on by this many bytes.
    Offset(isize),
    /// Read the address stored here and go there.
    Dereference,
}

/// Where the walk along a chain stands.
#[derive(Debug)]
pub enum Resolution<T> {
    /// The address stored here is needed next: read it and ask again.
    Read(Address),
    /// The chain is walked.
    Done(T),
    /// The chain cannot be walked.
    Failed(Error),
}

/// What a chain comes to, given the answers to its first dereferences.
pub enum Verdict {
    /// The address stored here is needed next.
    Read(Address),
    /// The chain ends at this address.
    Done(Address),
    /// A null address was to be dereferenced, or was read.
    Null,
    /// An offset leads past an end of the address space: what was taken for
    /// the address of a structure is none.
    OutOfRange,
    /// A read failed, with this error.
    Failed(Error),
}

/// The walk from `current` along `steps`, left to right. `reads` holds the
/// answers to the dereferences, in the order in which they are met. The walk
/// stops at the first dereference that has no answer yet, and for good at a
/// null address, at a failed read and at an offset that leads past an end of
/// the address space.
pub open spec fn walk(current: Address, steps: Seq<Step>, reads: Seq<Result<Address, Error>>) -> Verdict
    decreases steps.len(),
{
    if steps.len() == 0 {
        Verdict::Done(current)
    } else {
        match steps[0] {
            Step::Offset(offset) => {
                if isize::MIN <= current@ + offset <= isize::MAX {
                    walk(current.offset(offset), steps.drop_first(), reads)
                } else {
                    Verdict::OutOfRange
                }
            },
            Step::Dereference => {
                if current.is_null() {
                    Verdict::Null
                } else if reads.len() == 0 {
                    Verdict::Read(current)
                } else {
                    match reads[0] {
                        Err(error) => Verdict::Failed(error),
                        Ok(target) => {
                            if target.is_null() {
                                Verdict::Null
                            } else {
                                walk(target, steps.drop_first(), reads.drop_first())
                            }
                        },
                    }
                }
            },
        }
    }
}

impl<T> Resolution<T> {
    /// The walk asks for the address stored at `address`.
    pub open spec fn asks(&self, address: Address) -> bool {
        self matches Resolution::Read(at) && at == address
    }

    /// The walk failed because the structure is not there: with this text.
    pub open spec fn not_loaded(&self, text: Seq<char>) -> bool {
        self matches Resolution::Failed(error) && error.kind == ErrorKind::NotLoaded
            && error.message@ == text
    }

    /// The walk failed with this error.
    pub open spec fn failed(&self, with: Error) -> bool {
        self matches Resolution::Failed(error) && error == with
    }
}

impl Resolution<Address> {
    /// The resolution says what the verdict says.
    pub open spec fn tells(&self, verdict: Verdict) -> bool {
        match verdict {
            Verdict::Read(address) => self.asks(address),
            Verdict::Done(address) => self matches Resolution::Done(end) && end == address,
            Verdict::Null => self.not_loaded("目标结构尚未加载"@),
            Verdict::OutOfRange => self.not_loaded("地址超出范围"@),
            Verdict::Failed(error) => self.failed(error),
        }
    }
}

/// Walks the chain `steps` from `root`, as far as `reads` allows: `reads` holds
/// the answers to the dereferences made so far, each the address read or the
/// error of the read. The result is the end of the chain, the failure, or the
/// next address to read; then read it, put the answer behind the others and
/// ask again.
pub fn resolve(root: Address, steps: &[Step], reads: &[Result<Address, Error>]) -> (resolution:
    Resolution<Address>)
    ensures
        resolution.tells(walk(root, steps@, reads@)),
{
    let mut current = root;
    let mut position: usize = 0;
    let mut used: usize = 0;
    assert(steps@.skip(0) =~= steps@ && reads@.skip(0) =~= reads@);
    while position < steps.len()
        invariant
            position <= steps.len(),
            used <= reads.len(),
            walk(root, steps@, reads@) == walk(
                current,
                steps@.skip(position as int),
                reads@.skip(used as int),
            ),
        decreases steps.len() - position,
    {
        proof {
            assert(steps@.skip(position as int).drop_first() =~= steps@.skip(position + 1));
            if used < reads.len() {
                assert(reads@.skip(used as int).drop_first() =~= reads@.skip(used + 1));
            }
        }
        match steps[position] {
            Step::Offset(offset) => {
                match current.value().checked_add(offset) {
                    Some(location) => {
                        current = Address::new(location);
                    },
                    None => {
                        return Resolution::Failed(
                            Error::with_text(ErrorKind::NotLoaded, "地址超出范围"),
                        );
                    },
                }
            },
            Step::Dereference => {
                if current.is_null() {
                    return Resolution::Failed(
                        Error::with_text(ErrorKind::NotLoaded, "目标结构尚未加载"),
                    );
                }
                if used >= reads.len() {
                    return Resolution::Read(current);
                }
                match &reads[used] {
                    Err(error) => {
                        return Resolution::Failed(error.duplicate());
                    },
                    Ok(target) => {
                        if target.is_null() {
                            return Resolution::Failed(
                                Error::with_text(ErrorKind::NotLoaded, "目标结构尚未加载"),
                            );
                        }
                        current = *target;
                        used += 1;
                    },
                }
            },
        }
        position += 1;
    }
    Resolution::Done(current)
}

/// A verdict that is not a request for a read stands: answers that come
/// after those it rests on do not change it.
pub proof fn lemma_verdict_stands(
    current: Address,
    steps: Seq<Step>,
    reads: Seq<Result<Address, Error>>,
    more: Seq<Result<Address, Error>>,
)
    requires
        !(walk(current, steps, reads) is Read),
    ensures
        walk(current, steps, reads + more) == walk(current, steps, reads),
    decreases steps.len(),
{
    if steps.len() > 0 {
        match steps[0] {
            Step::Offset(offset) => {
                if isize::MIN <= current@ + offset <= isize::MAX {
                    lemma_verdict_stands(current.offset(offset), steps.drop_first(), reads, more);
                }
            },
            Step::Dereference => {
                if !current.is_null() && reads.len() > 0 {
                    assert((reads + more).drop_first() =~= reads.drop_first() + more);
                    if let Ok(target) = reads[0] {
                        if !target.is_null() {
                            lemma_verdict_stands(
                                target,
                                steps.drop_first(),
                                reads.drop_first(),
                                more,
                            );
                        }
                    }
                }
            },
        }
    }
}

/// A null address stops the walk. Where the answers in `reads` lead to one
/// more read and that read finds the null address, the chain is not loaded,
/// whatever `more` holds: no further step is taken and no further read is
/// asked for.
pub proof fn lemma_null_stops(
    current: Address,
    steps: Seq<Step>,
    reads: Seq<Result<Address, Error>>,
    found: Address,
    more: Seq<Result<Address, Error>>,
)
    requires
        walk(current, steps, reads) is Read,
        found.is_null(),
    ensures
        walk(current, steps, reads.push(Ok(found)) + more) == Verdict::Null,
    decreases steps.len(),
{
    let all = reads.push(Ok(found)) + more;
    if steps.len() > 0 {
        match steps[0] {
            Step::Offset(offset) => {
                if isize::MIN <= current@ + offset <= isize::MAX {
                    lemma_null_stops(
                        current.offset(offset),
                        steps.drop_first(),
                        reads,
                        found,
                        more,
                    );
                }
            },
            Step::Dereference => {
                if !current.is_null() && reads.len() > 0 {
                    assert(all.drop_first() =~= reads.drop_first().push(Ok(found)) + more);
                    if let Ok(target) = reads[0] {
                        if !target.is_null() {
                            lemma_null_stops(
                                target,
                                steps.drop_first(),
                                reads.drop_first(),
                                found,
                                more,
                            );
                        }
                    }
                }
            },
        }
    }
}

} // verus!
