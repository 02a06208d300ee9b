use vstd::prelude::*;

use crate::model::{
    appended, container_of, file_step, flush, initial_state, opened, pending_files,
    pipeline, run, size_sum, ArchiverState, Record,
};

verus! {

/// The sizes of the files that go into containers, in input order.
pub open spec fn small_files(huge: nat, sizes: Seq<nat>) -> Seq<nat>
    decreases sizes.len(),
{
    if sizes.len() == 0 {
        seq![]
    } else if sizes.last() > huge {
        small_files(huge, sizes.drop_last())
    } else {
        small_files(huge, sizes.drop_last()).push(sizes.last())
    }
}

/// The sizes of the files that bypass containers, in input order.
pub open spec fn large_files(huge: nat, sizes: Seq<nat>) -> Seq<nat>
    decreases sizes.len(),
{
    if sizes.len() == 0 {
        seq![]
    } else if sizes.last() > huge {
        large_files(huge, sizes.drop_last()).push(sizes.last())
    } else {
        large_files(huge, sizes.drop_last())
    }
}

/// The file sizes held by the containers among `rs`, in emission order.
pub open spec fn container_files(rs: Seq<Record>) -> Seq<nat>
    decreases rs.len(),
{
    if rs.len() == 0 {
        seq![]
    } else {
        match rs.last() {
            Record::Container { members, .. } => container_files(rs.drop_last()) + members,
            Record::Plain { .. } => container_files(rs.drop_last()),
        }
    }
}

/// The file sizes of the bypassed files among `rs`, in emission order.
pub open spec fn plain_files(rs: Seq<Record>) -> Seq<nat>
    decreases rs.len(),
{
    if rs.len() == 0 {
        seq![]
    } else {
        match rs.last() {
            Record::Plain { size } => plain_files(rs.drop_last()).push(size),
            Record::Container { .. } => plain_files(rs.drop_last()),
        }
    }
}

proof fn lemma_no_records(rs: Seq<Record>)
    requires
        rs.len() == 0,
    ensures
        container_files(rs) == Seq::<nat>::empty(),
        plain_files(rs) == Seq::<nat>::empty(),
{
}

proof fn lemma_single_record(r: Record)
    ensures
        container_files(seq![r]) == (match r {
            Record::Container { members, .. } => members,
            Record::Plain { .. } => Seq::<nat>::empty(),
        }),
        plain_files(seq![r]) == (match r {
            Record::Plain { size } => seq![size],
            Record::Container { .. } => Seq::<nat>::empty(),
        }),
{
    assert(seq![r].drop_last() =~= Seq::<Record>::empty());
    assert(seq![r].last() == r);
    lemma_no_records(Seq::<Record>::empty());
    assert(Seq::<nat>::empty() + Seq::<nat>::empty() =~= Seq::<nat>::empty());
    match r {
        Record::Container { members, .. } => {
            assert(Seq::<nat>::empty() + members =~= members);
        },
        Record::Plain { size } => {
            assert(Seq::<nat>::empty().push(size) =~= seq![size]);
        },
    }
}

proof fn lemma_push_record(rs: Seq<Record>, r: Record)
    ensures
        container_files(rs + seq![r]) == container_files(rs) + container_files(seq![r]),
        plain_files(rs + seq![r]) == plain_files(rs) + plain_files(seq![r]),
{
    let t = rs + seq![r];
    assert(t.drop_last() =~= rs);
    assert(t.last() == r);
    lemma_single_record(r);
    assert(seq![r].drop_last() =~= Seq::<Record>::empty());
    assert(container_files(Seq::<Record>::empty()) == Seq::<nat>::empty());
    assert(plain_files(Seq::<Record>::empty()) == Seq::<nat>::empty());
    match r {
        Record::Container { members, .. } => {
            assert(container_files(seq![r]) =~= members);
            assert(plain_files(seq![r]) =~= Seq::<nat>::empty());
            assert(plain_files(rs) + Seq::<nat>::empty() =~= plain_files(rs));
        },
        Record::Plain { size } => {
            assert(plain_files(seq![r]) =~= seq![size]);
            assert(container_files(seq![r]) =~= Seq::<nat>::empty());
            assert(container_files(rs) + Seq::<nat>::empty() =~= container_files(rs));
            assert(plain_files(rs).push(size) =~= plain_files(rs) + seq![size]);
        },
    }
}

proof fn lemma_run_accounts(huge: nat, split: nat, sizes: Seq<nat>)
    ensures
        ({
            let r = run(huge, split, initial_state(), sizes);
            &&& container_files(r.1) + pending_files(r.0) == small_files(huge, sizes)
            &&& plain_files(r.1) == large_files(huge, sizes)
            &&& !r.0.open ==> r.0.members == Seq::<nat>::empty()
        }),
    decreases sizes.len(),
{
    let r = run(huge, split, initial_state(), sizes);
    if sizes.len() == 0 {
        lemma_no_records(r.1);
        assert(container_files(r.1) + pending_files(r.0) =~= small_files(huge, sizes));
    } else {
        let d = sizes.drop_last();
        let x = sizes.last();
        lemma_run_accounts(huge, split, d);
        let prev = run(huge, split, initial_state(), d);
        let next = file_step(huge, split, prev.0, x);
        assert(r.1 == prev.1 + next.1);
        if x > huge {
            lemma_push_record(prev.1, Record::Plain { size: x });
            lemma_single_record(Record::Plain { size: x });
            assert(container_files(seq![Record::Plain { size: x }]) =~= Seq::<nat>::empty());
            assert(container_files(prev.1) + Seq::<nat>::empty() =~= container_files(prev.1));
        } else {
            let a = appended(opened(prev.0), x);
            assert(pending_files(a) =~= pending_files(prev.0).push(x));
            if size_sum(a.members) > split {
                lemma_push_record(prev.1, container_of(a));
                lemma_single_record(container_of(a));
                assert(container_files(seq![container_of(a)]) =~= a.members);
                assert(plain_files(seq![container_of(a)]) =~= Seq::<nat>::empty());
                assert(plain_files(prev.1) + Seq::<nat>::empty() =~= plain_files(prev.1));
                assert(container_files(r.1) + pending_files(r.0) =~= (container_files(prev.1)
                    + pending_files(prev.0)).push(x));
            } else {
                assert(next.1 =~= Seq::<Record>::empty());
                assert(r.1 =~= prev.1);
                assert(container_files(r.1) + pending_files(r.0) =~= (container_files(prev.1)
                    + pending_files(prev.0)).push(x));
            }
        }
    }
}

/// Every file is accounted for exactly once and whole: the files that fit go,
/// in input order, into the containers emitted over the whole run (the last
/// one flushed when input ends), and the others are bypassed, in input order.
pub proof fn lemma_every_file_whole_once(huge: nat, split: nat, sizes: Seq<nat>)
    ensures
        container_files(pipeline(huge, split, sizes)) == small_files(huge, sizes),
        plain_files(pipeline(huge, split, sizes)) == large_files(huge, sizes),
{
    lemma_run_accounts(huge, split, sizes);
    let r = run(huge, split, initial_state(), sizes);
    if r.0.open {
        lemma_push_record(r.1, container_of(r.0));
        lemma_single_record(container_of(r.0));
        assert(container_files(seq![container_of(r.0)]) =~= r.0.members);
        assert(plain_files(seq![container_of(r.0)]) =~= Seq::<nat>::empty());
        assert(plain_files(r.1) + Seq::<nat>::empty() =~= plain_files(r.1));
    } else {
        assert(flush(r.0) =~= Seq::<Record>::empty());
        assert(pipeline(huge, split, sizes) =~= r.1);
        assert(container_files(r.1) + Seq::<nat>::empty() =~= container_files(r.1));
    }
}

/// A file larger than the huge-file threshold is emitted on its own as a plain
/// record of its own size, and the archiver's state (and so any open
/// container) is left as it was.
pub proof fn lemma_huge_file_bypassed(huge: nat, split: nat, s: ArchiverState, size: nat)
    requires
        size > huge,
    ensures
        file_step(huge, split, s, size).0 == s,
        file_step(huge, split, s, size).1 == seq![Record::Plain { size }],
{
}

proof fn lemma_run_unsplit(huge: nat, split: nat, sizes: Seq<nat>)
    requires
        forall|i: int| 0 <= i < sizes.len() ==> sizes[i] <= huge,
        size_sum(sizes) <= split,
    ensures
        run(huge, split, initial_state(), sizes).1 == Seq::<Record>::empty(),
        run(huge, split, initial_state(), sizes).0 == (if sizes.len() == 0 {
            initial_state()
        } else {
            ArchiverState { open: true, members: sizes, counter: 1 }
        }),
    decreases sizes.len(),
{
    if sizes.len() > 0 {
        let d = sizes.drop_last();
        assert forall|i: int| 0 <= i < d.len() implies d[i] <= huge by {
            assert(d[i] == sizes[i]);
        }
        lemma_run_unsplit(huge, split, d);
        assert(d.push(sizes.last()) =~= sizes);
        if d.len() == 0 {
            assert(sizes =~= seq![sizes.last()]);
        }
        let prev = run(huge, split, initial_state(), d);
        let a = appended(opened(prev.0), sizes.last());
        assert(a.members =~= sizes);
        assert(Seq::<Record>::empty() + Seq::<Record>::empty() =~= Seq::<Record>::empty());
    }
}

/// When every file fits and the running total never exceeds the split
/// threshold, nothing is emitted until input ends, and then exactly one
/// container is emitted: the first one, holding every file in order (so its
/// content size is the sum of all of them).
pub proof fn lemma_exhaustion_flush(huge: nat, split: nat, sizes: Seq<nat>)
    requires
        sizes.len() > 0,
        forall|i: int| 0 <= i < sizes.len() ==> sizes[i] <= huge,
        size_sum(sizes) <= split,
    ensures
        run(huge, split, initial_state(), sizes).1 == Seq::<Record>::empty(),
        pipeline(huge, split, sizes) == seq![Record::Container { members: sizes, counter: 1 }],
{
    lemma_run_unsplit(huge, split, sizes);
    assert(pipeline(huge, split, sizes) =~= seq![Record::Container { members: sizes, counter: 1 }]);
}

/// A container is only finalized after a whole file was appended, and only
/// when that file took its content past the split threshold: without its last
/// file the container was still within the threshold.
pub proof fn lemma_split_after_whole_file(
    huge: nat,
    split: nat,
    s: ArchiverState,
    size: nat,
)
    requires
        size <= huge,
        s.open ==> size_sum(s.members) <= split,
        !s.open ==> s.members == Seq::<nat>::empty(),
    ensures
        ({
            let n = file_step(huge, split, s, size);
            &&& n.1.len() == 1 ==> n.1[0] == container_of(appended(opened(s), size))
            &&& n.1.len() == 1 ==> size_sum(appended(opened(s), size).members) > split
            &&& n.1.len() == 1 ==> size_sum(appended(opened(s), size).members.drop_last()) <= split
            &&& n.1.len() == 0 ==> n.0 == appended(opened(s), size)
            &&& n.1.len() <= 1
        }),
{
    let a = appended(opened(s), size);
    assert(a.members.drop_last() =~= opened(s).members);
}

} // verus!
