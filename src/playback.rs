//! Laws of the playback scheduler over runs of several calls: how
//! splitting elapsed time affects what is written, that writes follow the
//! stream in order, and what happens at the loop point.

use vstd::prelude::*;
use crate::audio::{
    Command, PlayerView, RegisterWrite, advance_view, advance_writes, countdown_after, drain_end,
    drain_writes, lemma_drain_bounds, timer_after,
};

verus! {

/// The player state after one call of `poll` per delta, in order.
pub open spec fn run_view(p: PlayerView, deltas: Seq<u32>) -> PlayerView
    decreases deltas.len(),
{
    if deltas.len() == 0 {
        p
    } else {
        run_view(advance_view(p, deltas[0]), deltas.drop_first())
    }
}

/// The register writes of one call of `poll` per delta, concatenated.
pub open spec fn run_writes(p: PlayerView, deltas: Seq<u32>) -> Seq<RegisterWrite>
    decreases deltas.len(),
{
    if deltas.len() == 0 {
        Seq::empty()
    } else {
        advance_writes(p, deltas[0]) + run_writes(advance_view(p, deltas[0]), deltas.drop_first())
    }
}

/// The sum of a sequence of deltas.
pub open spec fn total_delta(deltas: Seq<u32>) -> nat
    decreases deltas.len(),
{
    if deltas.len() == 0 {
        0
    } else {
        (deltas[0] + total_delta(deltas.drop_first())) as nat
    }
}

proof fn lemma_total_drop_last(deltas: Seq<u32>)
    requires
        deltas.len() >= 2,
    ensures
        total_delta(deltas.drop_last()) == deltas[0] + total_delta(deltas.drop_first().drop_last()),
        total_delta(deltas.drop_last()) >= deltas[0],
{
    assert(deltas.drop_last().drop_first() =~= deltas.drop_first().drop_last());
}

/// Splitting elapsed time over several calls changes nothing, as long as
/// every call but the last stays inside the wait that is pending: the
/// writes come out the same, in the same order, and the player ends in the
/// same state as after one call with the whole time.
pub proof fn lemma_split_delta(p: PlayerView, deltas: Seq<u32>)
    requires
        p.wf(),
        deltas.len() > 0,
        total_delta(deltas) <= u32::MAX,
        p.stream is Some ==> total_delta(deltas.drop_last()) < p.timer,
    ensures
        run_writes(p, deltas) == advance_writes(p, total_delta(deltas) as u32),
        run_view(p, deltas) == advance_view(p, total_delta(deltas) as u32),
    decreases deltas.len(),
{
    let rest = deltas.drop_first();
    if deltas.len() == 1 {
        let q = advance_view(p, deltas[0]);
        assert(rest.len() == 0);
        assert(total_delta(rest) == 0);
        assert(total_delta(deltas) == deltas[0]);
        assert(run_writes(q, rest) == Seq::<RegisterWrite>::empty());
        assert(run_view(q, rest) == q);
        assert(run_writes(p, deltas) =~= advance_writes(p, deltas[0]));
    } else {
        lemma_total_drop_last(deltas);
        let q = advance_view(p, deltas[0]);
        match p.stream {
            Some(s) => {
                assert(q.timer == p.timer - deltas[0]);
                assert(q.index == p.index);
                assert(advance_writes(p, deltas[0]) =~= Seq::<RegisterWrite>::empty());
            },
            None => {
                assert(advance_writes(p, deltas[0]) =~= Seq::<RegisterWrite>::empty());
            },
        }
        lemma_split_delta(q, rest);
        assert(run_writes(p, deltas) =~= run_writes(q, rest));
    }
}

/// The register writes among the `n` commands that follow position `i`
/// (itself included), going round the stream as often as needed.
pub open spec fn cyclic_writes(cmds: Seq<Command>, i: int, n: nat) -> Seq<RegisterWrite>
    decreases n,
{
    if n == 0 || cmds.len() == 0 {
        Seq::empty()
    } else {
        let rest = cyclic_writes(cmds, (i + 1) % (cmds.len() as int), (n - 1) as nat);
        match cmds[i] {
            Command::Write(w) => seq![w] + rest,
            _ => rest,
        }
    }
}

proof fn lemma_drain_is_cyclic(cmds: Seq<Command>, i: int, timer: u32)
    requires
        0 <= i <= cmds.len(),
    ensures
        drain_writes(cmds, i, timer) == cyclic_writes(
            cmds,
            i,
            (drain_end(cmds, i, timer).0 - i) as nat,
        ),
    decreases cmds.len() - i,
{
    lemma_drain_bounds(cmds, i, timer);
    if timer != 0 || i >= cmds.len() {
        assert(drain_end(cmds, i, timer).0 == i);
    } else {
        let len = cmds.len() as int;
        let n = (drain_end(cmds, i, timer).0 - i) as nat;
        if i + 1 < len {
            vstd::arithmetic::div_mod::lemma_small_mod((i + 1) as nat, cmds.len());
        } else {
            vstd::arithmetic::div_mod::lemma_mod_self_0(len);
        }
        if cmds[i] is Write {
            lemma_drain_bounds(cmds, i + 1, 0);
            lemma_drain_is_cyclic(cmds, i + 1, 0);
            assert(n >= 1);
            if i + 1 >= len {
                assert(drain_end(cmds, i + 1, 0).0 == i + 1);
                assert(cyclic_writes(cmds, (i + 1) % len, 0) == Seq::<RegisterWrite>::empty());
            }
        } else {
            assert(n == 1);
            assert(cyclic_writes(cmds, (i + 1) % len, 0) == Seq::<RegisterWrite>::empty());
            assert(cyclic_writes(cmds, i, 1) =~= Seq::<RegisterWrite>::empty());
        }
    }
}

proof fn lemma_cyclic_concat(cmds: Seq<Command>, i: int, a: nat, b: nat)
    requires
        0 <= i < cmds.len(),
    ensures
        cyclic_writes(cmds, i, a) + cyclic_writes(cmds, (i + a) % (cmds.len() as int), b)
            == cyclic_writes(cmds, i, a + b),
    decreases a,
{
    let len = cmds.len() as int;
    if a == 0 {
        vstd::arithmetic::div_mod::lemma_small_mod(i as nat, len as nat);
        assert(cyclic_writes(cmds, i, 0) + cyclic_writes(cmds, i, b) =~= cyclic_writes(cmds, i, b));
    } else {
        let j = (i + 1) % len;
        assert(0 <= j < len);
        lemma_cyclic_concat(cmds, j, (a - 1) as nat, b);
        assert((j + (a - 1)) % len == (i + a) % len) by {
            vstd::arithmetic::div_mod::lemma_add_mod_noop(i + 1, a - 1, len);
            vstd::arithmetic::div_mod::lemma_mod_twice(i + 1, len);
            vstd::arithmetic::div_mod::lemma_add_mod_noop(j, a - 1, len);
        }
        assert(cyclic_writes(cmds, i, (a + b) as nat) == match cmds[i] {
            Command::Write(w) => seq![w] + cyclic_writes(cmds, j, (a - 1 + b) as nat),
            _ => cyclic_writes(cmds, j, (a - 1 + b) as nat),
        });
        match cmds[i] {
            Command::Write(w) => {
                assert(cyclic_writes(cmds, i, a) + cyclic_writes(cmds, (i + a) % len, b) =~= seq![w]
                    + (cyclic_writes(cmds, j, (a - 1) as nat) + cyclic_writes(cmds, (i + a) % len, b)));
            },
            _ => {},
        }
    }
}

/// One call of `poll` emits the writes of the commands it passes over, in
/// stream order, and moves the position past them, round the stream.
pub proof fn lemma_advance_follows_stream(p: PlayerView, delta: u32)
    requires
        p.wf(),
        p.stream is Some,
    ensures
        advance_view(p, delta).wf(),
        advance_view(p, delta).stream == p.stream,
        exists|n: nat|
            advance_writes(p, delta) == cyclic_writes(p.stream->Some_0, p.index as int, n)
                && advance_view(p, delta).index == (p.index + n) as int % (p.stream->Some_0.len() as int),
{
    let s = p.stream->Some_0;
    let t = timer_after(p.timer, delta);
    lemma_drain_bounds(s, p.index as int, t);
    lemma_drain_is_cyclic(s, p.index as int, t);
    let n = (drain_end(s, p.index as int, t).0 - p.index) as nat;
    let end = drain_end(s, p.index as int, t).0;
    if end < s.len() {
        vstd::arithmetic::div_mod::lemma_small_mod(end as nat, s.len());
    } else {
        vstd::arithmetic::div_mod::lemma_mod_self_0(s.len() as int);
    }
    assert(advance_writes(p, delta) == cyclic_writes(s, p.index as int, n));
}

/// However elapsed time is split over calls, the writes that come out are
/// the stream's writes in order from the current position, going round the
/// stream: never reordered, skipped or repeated.
pub proof fn lemma_writes_follow_stream(p: PlayerView, deltas: Seq<u32>)
    requires
        p.wf(),
        p.stream is Some,
    ensures
        run_view(p, deltas).wf(),
        run_view(p, deltas).stream == p.stream,
        exists|n: nat|
            run_writes(p, deltas) == cyclic_writes(p.stream->Some_0, p.index as int, n)
                && run_view(p, deltas).index == (p.index + n) as int % (p.stream->Some_0.len() as int),
    decreases deltas.len(),
{
    let s = p.stream->Some_0;
    let len = s.len() as int;
    if deltas.len() == 0 {
        assert(run_writes(p, deltas) == cyclic_writes(s, p.index as int, 0));
        vstd::arithmetic::div_mod::lemma_small_mod(p.index, len as nat);
    } else {
        let q = advance_view(p, deltas[0]);
        lemma_advance_follows_stream(p, deltas[0]);
        let a = choose|a: nat|
            advance_writes(p, deltas[0]) == cyclic_writes(s, p.index as int, a) && q.index == (p.index + a) as int % len;
        lemma_writes_follow_stream(q, deltas.drop_first());
        let b = choose|b: nat|
            run_writes(q, deltas.drop_first()) == cyclic_writes(s, q.index as int, b)
                && run_view(q, deltas.drop_first()).index == (q.index + b) as int % len;
        lemma_cyclic_concat(s, p.index as int, a, b);
        assert(run_writes(p, deltas) == cyclic_writes(s, p.index as int, a + b));
        assert((q.index + b) as int % len == (p.index + (a + b)) as int % len) by {
            vstd::arithmetic::div_mod::lemma_add_mod_noop((p.index + a) as int, b as int, len);
            vstd::arithmetic::div_mod::lemma_mod_twice((p.index + a) as int, len);
            vstd::arithmetic::div_mod::lemma_add_mod_noop(q.index as int, b as int, len);
        }
    }
}

proof fn lemma_cyclic_prefix(cmds: Seq<Command>, i: int, a: nat, b: nat)
    requires
        0 <= i < cmds.len(),
        a <= b,
    ensures
        cyclic_writes(cmds, i, a).is_prefix_of(cyclic_writes(cmds, i, b)),
{
    lemma_cyclic_concat(cmds, i, a, (b - a) as nat);
    let x = cyclic_writes(cmds, i, a);
    let y = cyclic_writes(cmds, (i + a) % (cmds.len() as int), (b - a) as nat);
    assert((x + y).subrange(0, x.len() as int) =~= x);
}

/// Two runs of calls from the same state agree on their writes, whatever
/// their deltas: the writes of one run are the first writes of the other.
pub proof fn lemma_runs_agree(p: PlayerView, deltas1: Seq<u32>, deltas2: Seq<u32>)
    requires
        p.wf(),
    ensures
        run_writes(p, deltas1).is_prefix_of(run_writes(p, deltas2)) || run_writes(
            p,
            deltas2,
        ).is_prefix_of(run_writes(p, deltas1)),
{
    if p.stream is None {
        lemma_disabled_run_silent(p, deltas1);
        lemma_disabled_run_silent(p, deltas2);
        assert(run_writes(p, deltas1).is_prefix_of(run_writes(p, deltas2)));
    } else {
        let s = p.stream->Some_0;
        lemma_writes_follow_stream(p, deltas1);
        lemma_writes_follow_stream(p, deltas2);
        let n1 = choose|n: nat|
            run_writes(p, deltas1) == cyclic_writes(s, p.index as int, n) && run_view(
                p,
                deltas1,
            ).index == (p.index + n) as int % (s.len() as int);
        let n2 = choose|n: nat|
            run_writes(p, deltas2) == cyclic_writes(s, p.index as int, n) && run_view(
                p,
                deltas2,
            ).index == (p.index + n) as int % (s.len() as int);
        if n1 <= n2 {
            lemma_cyclic_prefix(s, p.index as int, n1, n2);
        } else {
            lemma_cyclic_prefix(s, p.index as int, n2, n1);
        }
    }
}

/// A disabled player stays as it is and writes nothing, whatever the
/// deltas.
pub proof fn lemma_disabled_run_silent(p: PlayerView, deltas: Seq<u32>)
    requires
        p.stream is None,
    ensures
        run_writes(p, deltas) == Seq::<RegisterWrite>::empty(),
        run_view(p, deltas) == p,
    decreases deltas.len(),
{
    if deltas.len() > 0 {
        lemma_disabled_run_silent(p, deltas.drop_first());
        assert(run_writes(p, deltas) =~= Seq::<RegisterWrite>::empty());
    }
}

/// The sum of the deltas goes over a concatenation.
proof fn lemma_total_concat(a: Seq<u32>, b: Seq<u32>)
    ensures
        total_delta(a + b) == total_delta(a) + total_delta(b),
    decreases a.len(),
{
    if a.len() == 0 {
        assert(a + b =~= b);
    } else {
        assert((a + b).drop_first() =~= a.drop_first() + b);
        lemma_total_concat(a.drop_first(), b);
    }
}

/// Running two sequences of calls one after the other is running their
/// concatenation.
proof fn lemma_run_concat(p: PlayerView, a: Seq<u32>, b: Seq<u32>)
    ensures
        run_view(p, a + b) == run_view(run_view(p, a), b),
        run_writes(p, a + b) == run_writes(p, a) + run_writes(run_view(p, a), b),
    decreases a.len(),
{
    if a.len() == 0 {
        assert(a + b =~= b);
        assert(run_writes(p, a) + run_writes(p, b) =~= run_writes(p, b));
    } else {
        assert((a + b).drop_first() =~= a.drop_first() + b);
        assert((a + b)[0] == a[0]);
        let q = advance_view(p, a[0]);
        lemma_run_concat(q, a.drop_first(), b);
        assert(run_writes(p, a + b) =~= run_writes(p, a) + run_writes(run_view(p, a), b));
    }
}

/// No call of the run lets the pending wait expire: the deltas add up to
/// less than the countdown of an active player.
pub open spec fn within_wait(p: PlayerView, deltas: Seq<u32>) -> bool {
    p.stream is Some ==> total_delta(deltas) < p.timer
}

/// While no wait expires, how elapsed time is split cannot be seen: every
/// call writes nothing, and the only change is that the countdown drops by
/// the total time.
pub proof fn lemma_quiet_run(p: PlayerView, deltas: Seq<u32>)
    requires
        p.wf(),
        within_wait(p, deltas),
    ensures
        run_writes(p, deltas) == Seq::<RegisterWrite>::empty(),
        run_view(p, deltas) == (if p.stream is Some {
            PlayerView { timer: (p.timer - total_delta(deltas)) as u32, ..p }
        } else {
            p
        }),
    decreases deltas.len(),
{
    if p.stream is None {
        lemma_disabled_run_silent(p, deltas);
    } else if deltas.len() > 0 {
        let q = advance_view(p, deltas[0]);
        assert(advance_writes(p, deltas[0]) =~= Seq::<RegisterWrite>::empty());
        assert(q == PlayerView { timer: (p.timer - deltas[0]) as u32, ..p });
        lemma_quiet_run(q, deltas.drop_first());
        assert(run_writes(p, deltas) =~= Seq::<RegisterWrite>::empty());
    }
}

/// The writes of one call with the whole elapsed time come first in the
/// writes of any run of calls that adds up to the same time: splitting time
/// never loses, reorders or changes a write that the single call makes.
pub proof fn lemma_single_call_first(p: PlayerView, deltas: Seq<u32>)
    requires
        p.wf(),
        deltas.len() > 0,
        total_delta(deltas) <= u32::MAX,
    ensures
        advance_writes(p, total_delta(deltas) as u32).is_prefix_of(run_writes(p, deltas)),
    decreases deltas.len(),
{
    let t = total_delta(deltas);
    let rest = deltas.drop_first();
    let q = advance_view(p, deltas[0]);
    if p.stream is None {
        assert(advance_writes(p, t as u32) =~= Seq::<RegisterWrite>::empty());
    } else if deltas[0] < p.timer && rest.len() > 0 {
        // the first call only counts down; the rest of the run starts from there
        assert(advance_writes(p, deltas[0]) =~= Seq::<RegisterWrite>::empty());
        assert(q == PlayerView { timer: (p.timer - deltas[0]) as u32, ..p });
        assert(timer_after(p.timer, t as u32) == timer_after(q.timer, total_delta(rest) as u32));
        assert(advance_writes(p, t as u32) == advance_writes(q, total_delta(rest) as u32));
        lemma_single_call_first(q, rest);
        assert(run_writes(p, deltas) =~= run_writes(q, rest));
    } else {
        // the first call already brings the countdown to where the single call does
        if rest.len() == 0 {
            assert(t == deltas[0]);
        }
        assert(timer_after(p.timer, t as u32) == timer_after(p.timer, deltas[0]));
        let x = advance_writes(p, deltas[0]);
        let y = run_writes(q, rest);
        assert(run_writes(p, deltas) == x + y);
        assert((x + y).subrange(0, x.len() as int) =~= x);
    }
}

/// Splitting elapsed time gives the same writes and the same position as
/// one call with the whole time when at most one call of the run lets a
/// wait expire: the calls before it stay within the pending wait, and the
/// calls after it stay within the wait that it sets.
pub proof fn lemma_split_one_expiry(p: PlayerView, before: Seq<u32>, d: u32, after: Seq<u32>)
    requires
        p.wf(),
        total_delta(before.push(d) + after) <= u32::MAX,
        within_wait(p, before),
        within_wait(run_view(p, before.push(d)), after),
    ensures
        run_writes(p, before.push(d) + after) == advance_writes(
            p,
            total_delta(before.push(d) + after) as u32,
        ),
        run_view(p, before.push(d) + after).index == advance_view(
            p,
            total_delta(before.push(d) + after) as u32,
        ).index,
{
    let head = before.push(d);
    let all = head + after;
    let t = total_delta(all);
    lemma_total_concat(head, after);
    assert(head.drop_last() =~= before);
    lemma_split_delta(p, head);
    let mid = run_view(p, head);
    if p.stream is Some {
        lemma_writes_follow_stream(p, head);
    } else {
        lemma_disabled_run_silent(p, head);
    }
    lemma_quiet_run(mid, after);
    lemma_run_concat(p, head, after);
    assert(run_writes(p, all) =~= run_writes(p, head));
    if p.stream is Some {
        let th = total_delta(head);
        if timer_after(p.timer, th as u32) == 0 {
            assert(timer_after(p.timer, t as u32) == 0);
        } else {
            // no call expires at all
            assert(mid.timer == p.timer - th);
            assert(t < p.timer);
            assert(advance_writes(p, t as u32) =~= Seq::<RegisterWrite>::empty());
            assert(advance_writes(p, th as u32) =~= Seq::<RegisterWrite>::empty());
        }
    } else {
        assert(advance_writes(p, t as u32) =~= run_writes(p, head));
    }
}

/// A fresh player on the stream of one register write followed by a wait
/// of 100 samples.
pub open spec fn write_then_wait(w: RegisterWrite) -> PlayerView {
    PlayerView {
        stream: Some(seq![Command::Write(w), Command::Wait { samples: 100 }]),
        index: 0,
        timer: 0,
    }
}

/// The same player once the write is made and the wait has begun.
pub open spec fn stalled(w: RegisterWrite) -> PlayerView {
    PlayerView { timer: 2267, ..write_then_wait(w) }
}

/// The last call of the run, and only it, lets the pending wait expire.
pub open spec fn crosses_wait(p: PlayerView, deltas: Seq<u32>) -> bool {
    &&& deltas.len() > 0
    &&& within_wait(p, deltas.drop_last())
    &&& !within_wait(p, deltas)
}

/// On a write followed by a wait of 100 samples, a first call without
/// elapsed time makes the write once and stalls on the wait, back at the
/// start of the stream. After that, calls make no write until the time they
/// add up to reaches the wait's 2267 microseconds; the call that gets there
/// makes the write exactly once more and the stall begins again.
pub proof fn lemma_write_then_stall(w: RegisterWrite, deltas: Seq<u32>)
    ensures
        advance_writes(write_then_wait(w), 0) == seq![w],
        advance_view(write_then_wait(w), 0) == stalled(w),
        within_wait(stalled(w), deltas) ==> run_writes(stalled(w), deltas).len() == 0,
        within_wait(stalled(w), deltas) ==> run_view(stalled(w), deltas).timer == 2267
            - total_delta(deltas),
        crosses_wait(stalled(w), deltas) ==> run_writes(stalled(w), deltas) == seq![w],
        crosses_wait(stalled(w), deltas) ==> run_view(stalled(w), deltas) == stalled(w),
{
    let p0 = write_then_wait(w);
    let s = p0.stream->Some_0;
    assert(countdown_after(Command::Wait { samples: 100 }) == 2267);
    reveal_with_fuel(drain_writes, 3);
    reveal_with_fuel(drain_end, 3);
    assert(advance_writes(p0, 0) =~= seq![w]);
    let q = advance_view(p0, 0);
    assert(q == stalled(w));
    if within_wait(q, deltas) {
        lemma_quiet_run(q, deltas);
    }
    if deltas.len() > 0 && within_wait(q, deltas.drop_last()) && !within_wait(q, deltas) {
        let init = deltas.drop_last();
        let last = deltas.last();
        assert(init + seq![last] =~= deltas);
        lemma_total_concat(init, seq![last]);
        assert(total_delta(seq![last]) == last) by {
            assert(seq![last].drop_first() =~= Seq::<u32>::empty());
            assert(total_delta(Seq::<u32>::empty()) == 0);
            assert(seq![last][0] == last);
        }
        lemma_quiet_run(q, init);
        lemma_run_concat(q, init, seq![last]);
        let m = run_view(q, init);
        assert(m == PlayerView { timer: (2267 - total_delta(init)) as u32, ..q });
        assert(last >= m.timer);
        assert(timer_after(m.timer, last) == 0);
        assert(advance_writes(m, last) =~= seq![w]);
        assert(advance_view(m, last) == q);
        assert(seq![last].drop_first() =~= Seq::<u32>::empty());
        assert(seq![last][0] == last);
        assert(run_writes(q, Seq::<u32>::empty()) == Seq::<RegisterWrite>::empty());
        assert(run_view(q, Seq::<u32>::empty()) == q);
        assert(run_writes(m, seq![last]) =~= seq![w]);
        assert(run_view(m, seq![last]) == q);
        assert(run_writes(q, deltas) =~= seq![w]);
    }
}

proof fn lemma_drain_reaches_end(cmds: Seq<Command>, i: int, timer: u32)
    requires
        0 <= i < cmds.len(),
        drain_end(cmds, i, timer).0 == cmds.len(),
    ensures
        drain_end(cmds, i, timer).1 == countdown_after(cmds.last()),
    decreases cmds.len() - i,
{
    assert(timer == 0);
    let c = countdown_after(cmds[i]);
    assert(drain_end(cmds, i, timer) == drain_end(cmds, i + 1, c));
    if i + 1 < cmds.len() {
        lemma_drain_reaches_end(cmds, i + 1, c);
    } else {
        assert(drain_end(cmds, i + 1, c) == (i + 1, c));
    }
}

/// When a call dispatches the last command of the stream, the position
/// wraps to the first command and the countdown is the one that the last
/// command set, so the next call resumes that wait at the start of the
/// stream.
pub proof fn lemma_loop_wraparound(p: PlayerView, delta: u32)
    requires
        p.wf(),
        p.stream is Some,
        drain_end(p.stream->Some_0, p.index as int, timer_after(p.timer, delta)).0
            == p.stream->Some_0.len(),
    ensures
        advance_view(p, delta).index == 0,
        advance_view(p, delta).timer == countdown_after(p.stream->Some_0.last()),
        advance_view(p, delta).stream == p.stream,
{
    lemma_drain_reaches_end(p.stream->Some_0, p.index as int, timer_after(p.timer, delta));
}

} // verus!
