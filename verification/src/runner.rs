//! The output relay of the process runner.
//!
//! The runner drains the child process's standard output and forwards each
//! line to the console in the order it is produced; a line that fails to
//! decode is silently dropped rather than aborting the relay. Reading the
//! stream and printing are I/O and stay with the caller; which lines are
//! relayed, and in what order, is decided here. The caller hands in each
//! decoded line as `Some` and each undecodable one as `None`.

use vstd::prelude::*;

verus! {

/// The lines the relay forwards: every decoded line, in order, with the
/// undecodable ones dropped.
pub open spec fn relayed_of(ls: Seq<Option<String>>) -> Seq<Seq<char>>
    decreases ls.len(),
{
    if ls.len() == 0 {
        Seq::empty()
    } else {
        match ls.last() {
            Some(l) => relayed_of(ls.drop_last()).push(l@),
            None => relayed_of(ls.drop_last()),
        }
    }
}

/// Selects the lines to forward, exactly as specified by `relayed_of`.
pub fn relay_lines(lines: Vec<Option<String>>) -> (out: Vec<String>)
    ensures
        out@.map_values(|s: String| s@) == relayed_of(lines@),
{
    let mut out: Vec<String> = Vec::new();
    proof {
        assert(lines@.take(0) =~= Seq::<Option<String>>::empty());
        assert(out@.map_values(|s: String| s@) =~= relayed_of(lines@.take(0)));
    }
    let mut i: usize = 0;
    while i < lines.len()
        invariant
            i <= lines@.len(),
            out@.map_values(|s: String| s@) == relayed_of(lines@.take(i as int)),
        decreases lines@.len() - i,
    {
        proof {
            assert(lines@.take(i as int + 1).drop_last() =~= lines@.take(i as int));
            assert(lines@.take(i as int + 1).last() == lines@[i as int]);
        }
        let ghost prev = out@.map_values(|s: String| s@);
        match &lines[i] {
            Some(l) => {
                out.push(l.clone());
                proof {
                    assert(out@.map_values(|s: String| s@) =~= prev.push(out@.last()@));
                }
            },
            None => {},
        }
        i = i + 1;
    }
    proof {
        assert(lines@.take(lines@.len() as int) =~= lines@);
    }
    out
}

/// When every line decodes, the relay forwards exactly as many lines as the
/// child produced, each one unchanged and in its original position.
pub proof fn lemma_relay_keeps_every_decoded_line(ls: Seq<Option<String>>)
    requires
        forall|i: int| 0 <= i < ls.len() ==> (#[trigger] ls[i]) is Some,
    ensures
        relayed_of(ls).len() == ls.len(),
        forall|i: int| 0 <= i < ls.len() ==> relayed_of(ls)[i] == (#[trigger] ls[i])->0@,
    decreases ls.len(),
{
    if ls.len() > 0 {
        let head = ls.drop_last();
        assert forall|i: int| 0 <= i < head.len() implies (#[trigger] head[i]) is Some by {
            assert(head[i] == ls[i]);
        }
        lemma_relay_keeps_every_decoded_line(head);
        assert(ls.last() is Some);
        assert forall|i: int|
            0 <= i < ls.len() implies relayed_of(ls)[i] == (#[trigger] ls[i])->0@ by {
            if i < ls.len() - 1 {
                assert(relayed_of(ls)[i] == relayed_of(head)[i]);
                assert(head[i] == ls[i]);
            }
        }
    }
}

} // verus!
