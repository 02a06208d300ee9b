use vstd::prelude::*;

verus! {

/// Sum of a sequence of byte counts.
pub open spec fn size_sum(s: Seq<nat>) -> nat
    decreases s.len(),
{
    if s.len() == 0 {
        0
    } else {
        size_sum(s.drop_last()) + s.last()
    }
}

/// The abstract state of the archiver: whether a container is open, the sizes
/// of the files appended to it so far, and the last counter value handed out.
pub ghost struct ArchiverState {
    pub open: bool,
    pub members: Seq<nat>,
    pub counter: nat,
}

/// An emitted archive, abstractly: a bypassed file of a given size, or a
/// container holding files of the given sizes, named by its counter value.
pub ghost enum Record {
    Plain { size: nat },
    Container { members: Seq<nat>, counter: nat },
}

pub open spec fn initial_state() -> ArchiverState {
    ArchiverState { open: false, members: seq![], counter: 0 }
}

/// The state after making sure a container is open (opening the next one if
/// none is).
pub open spec fn opened(s: ArchiverState) -> ArchiverState {
    if s.open {
        s
    } else {
        ArchiverState { open: true, members: seq![], counter: s.counter + 1 }
    }
}

/// The state after appending a file of `size` bytes to the open container.
pub open spec fn appended(s: ArchiverState, size: nat) -> ArchiverState {
    ArchiverState { members: s.members.push(size), ..s }
}

/// The state after finalizing the open container.
pub open spec fn closed(s: ArchiverState) -> ArchiverState {
    ArchiverState { open: false, members: seq![], counter: s.counter }
}

/// What finalizing the open container emits.
pub open spec fn container_of(s: ArchiverState) -> Record {
    Record::Container { members: s.members, counter: s.counter }
}

/// One file of `size` bytes handled by the archiver: a file above `huge` is
/// bypassed; otherwise it is appended, and the container is finalized once its
/// content exceeds `split`.
pub open spec fn file_step(huge: nat, split: nat, s: ArchiverState, size: nat) -> (
    ArchiverState,
    Seq<Record>,
) {
    if size > huge {
        (s, seq![Record::Plain { size }])
    } else {
        let a = appended(opened(s), size);
        if size_sum(a.members) > split {
            (closed(a), seq![container_of(a)])
        } else {
            (a, seq![])
        }
    }
}

/// Feeding a sequence of file sizes to the archiver, in order.
pub open spec fn run(huge: nat, split: nat, s: ArchiverState, sizes: Seq<nat>) -> (
    ArchiverState,
    Seq<Record>,
)
    decreases sizes.len(),
{
    if sizes.len() == 0 {
        (s, seq![])
    } else {
        let prev = run(huge, split, s, sizes.drop_last());
        let next = file_step(huge, split, prev.0, sizes.last());
        (next.0, prev.1 + next.1)
    }
}

/// What the archiver emits once its input is exhausted.
pub open spec fn flush(s: ArchiverState) -> Seq<Record> {
    if s.open {
        seq![container_of(s)]
    } else {
        seq![]
    }
}

/// Everything emitted for a whole input sequence, from the initial state.
pub open spec fn pipeline(huge: nat, split: nat, sizes: Seq<nat>) -> Seq<Record> {
    let r = run(huge, split, initial_state(), sizes);
    r.1 + flush(r.0)
}

/// The file sizes that a record accounts for.
pub open spec fn record_files(r: Record) -> Seq<nat> {
    match r {
        Record::Plain { size } => seq![size],
        Record::Container { members, .. } => members,
    }
}

/// The file sizes of a sequence of records, in emission order.
pub open spec fn all_files(rs: Seq<Record>) -> Seq<nat>
    decreases rs.len(),
{
    if rs.len() == 0 {
        seq![]
    } else {
        all_files(rs.drop_last()) + record_files(rs.last())
    }
}

/// The files still held by an open container.
pub open spec fn pending_files(s: ArchiverState) -> Seq<nat> {
    if s.open {
        s.members
    } else {
        seq![]
    }
}

} // verus!
