//! Laws of the queue's state machine, proved over the model in
//! [`crate::queue2`].
//!
//! Each public proof function here states one guarantee of the consumer:
//! what a whole run of production requests yields, and what the pause,
//! play and stop commands do to it.

use vstd::prelude::*;

use crate::queue2::{
    advance_ok, produce_measure, silence_model, spec_advance, spec_apply_command, spec_produce,
    MusicPlayerCommand, QueueModel,
};
use crate::source::SourceModel;

verus! {

/// Every sample the given sources have yet to produce, concatenated in
/// order.
pub open spec fn queue_samples(q: Seq<SourceModel>) -> Seq<i16>
    decreases q.len(),
{
    if q.len() == 0 {
        Seq::empty()
    } else {
        q[0].remaining + queue_samples(q.drop_first())
    }
}

/// Samples still pending, plus one for each pending source: advancing past
/// an exhausted source does work too.
pub open spec fn pending_measure(q: Seq<SourceModel>) -> nat
    decreases q.len(),
{
    if q.len() == 0 {
        0
    } else {
        q[0].remaining.len() + 1 + pending_measure(q.drop_first())
    }
}

/// Termination measure for a whole run of production requests.
pub open spec fn stream_measure(m: QueueModel) -> nat {
    m.current.remaining.len() + pending_measure(m.queue)
}

/// Without keep-alive, each successful production request strictly shrinks
/// the stream measure: the stream cannot run forever.
pub proof fn lemma_produce_shrinks(m: QueueModel)
    requires
        !m.keep_alive,
        !m.paused,
        spec_produce(m).1 is Some,
    ensures
        stream_measure(spec_produce(m).0) < stream_measure(m),
    decreases produce_measure(m),
{
    if m.current.remaining.len() > 0 {
    } else if advance_ok(m) {
        assert(pending_measure(m.queue) == m.queue[0].remaining.len() + 1 + pending_measure(
            m.queue.drop_first(),
        ));
        lemma_produce_shrinks(spec_advance(m));
    }
}

/// Every sample the consumer will ever produce, in order, when left alone:
/// no keep-alive, no pause, no further messages.
pub open spec fn produce_all(m: QueueModel) -> Seq<i16>
    decreases stream_measure(m),
    when !m.keep_alive && !m.paused
    via produce_all_decreases
{
    if spec_produce(m).1 is Some {
        seq![spec_produce(m).1.unwrap()] + produce_all(spec_produce(m).0)
    } else {
        Seq::empty()
    }
}

#[via_fn]
proof fn produce_all_decreases(m: QueueModel) {
    if !m.keep_alive && !m.paused && spec_produce(m).1 is Some {
        lemma_produce_shrinks(m);
    }
}

/// Law: left alone (no keep-alive, not paused, no further messages), the
/// consumer produces exactly the current source's remaining samples
/// followed by every pending source's samples, in append order, with no
/// gaps or duplicates, and then ends.
pub proof fn lemma_fifo_concatenation(m: QueueModel)
    requires
        !m.keep_alive,
        !m.paused,
    ensures
        produce_all(m) == m.current.remaining + queue_samples(m.queue),
    decreases stream_measure(m),
{
    if m.current.remaining.len() > 0 {
        let post = spec_produce(m).0;
        assert(stream_measure(post) < stream_measure(m));
        lemma_fifo_concatenation(post);
        assert(produce_all(m) =~= m.current.remaining + queue_samples(m.queue));
    } else if m.queue.len() > 0 {
        let m2 = spec_advance(m);
        assert(pending_measure(m.queue) == m.queue[0].remaining.len() + 1 + pending_measure(
            m.queue.drop_first(),
        ));
        lemma_fifo_concatenation(m2);
        assert(produce_all(m) == produce_all(m2));
        assert(queue_samples(m.queue) == m.queue[0].remaining + queue_samples(m.queue.drop_first()));
        assert(produce_all(m) =~= m.current.remaining + queue_samples(m.queue));
    } else {
        assert(produce_all(m) =~= m.current.remaining + queue_samples(m.queue));
    }
}

/// Law: without keep-alive, an exhausted current source and an empty
/// pending queue end the stream at the very next production request, and
/// the state does not change.
pub proof fn lemma_immediate_end(m: QueueModel)
    requires
        !m.keep_alive,
        !m.paused,
        m.queue.len() == 0,
        m.current.remaining.len() == 0,
    ensures
        spec_produce(m) == (m, None::<i16>),
{
}

/// A run of zero-valued samples and nothing else.
pub open spec fn all_zero(s: Seq<i16>) -> bool {
    forall|i: int| 0 <= i < s.len() ==> s[i] == 0i16
}

/// Law: with keep-alive, an empty pending queue and only silence left in
/// the current source, every production request yields a zero-valued
/// sample, and the consumer is afterwards in a state satisfying the same
/// premise: the stream never ends.
pub proof fn lemma_keep_alive_never_ends(m: QueueModel)
    requires
        m.keep_alive,
        !m.paused,
        m.queue.len() == 0,
        all_zero(m.current.remaining),
    ensures
        spec_produce(m).1 == Some(0i16),
        spec_produce(m).0.keep_alive,
        !spec_produce(m).0.paused,
        spec_produce(m).0.queue.len() == 0,
        all_zero(spec_produce(m).0.current.remaining),
{
    if m.current.remaining.len() > 0 {
        assert(m.current.remaining[0] == 0i16);
        assert forall|i: int|
            0 <= i < spec_produce(m).0.current.remaining.len() implies spec_produce(
            m,
        ).0.current.remaining[i] == 0i16 by {
            assert(spec_produce(m).0.current.remaining[i] == m.current.remaining[i + 1]);
        }
    } else {
        let m2 = spec_advance(m);
        assert(m2.current == silence_model());
        assert(all_zero(silence_model().remaining));
        assert(silence_model().remaining.len() > 0);
        assert(spec_produce(m) == spec_produce(m2));
        assert(spec_produce(m2).1 == Some(silence_model().remaining[0]));
        assert forall|i: int|
            0 <= i < spec_produce(m2).0.current.remaining.len() implies spec_produce(
            m2,
        ).0.current.remaining[i] == 0i16 by {
            assert(spec_produce(m2).0.current.remaining[i] == silence_model().remaining[i + 1]);
        }
    }
}

/// The consumer's state after `n` production requests.
pub open spec fn produce_many(m: QueueModel, n: nat) -> QueueModel
    decreases n,
{
    if n == 0 {
        m
    } else {
        produce_many(spec_produce(m).0, (n - 1) as nat)
    }
}

/// Law: the pause command sets the paused flag and touches nothing else.
pub proof fn lemma_pause_command(m: QueueModel)
    ensures
        spec_apply_command(m, MusicPlayerCommand::Pause) == (QueueModel { paused: true, ..m }),
{
}

/// Law: pausing freezes the stream. A paused consumer answers every
/// production request with a zero-valued sample and consumes nothing, for
/// any number of requests; a later play command merely clears the flag, so
/// production resumes exactly where the current source left off.
pub proof fn lemma_pause_freezes_play_resumes(m: QueueModel, n: nat)
    requires
        m.paused,
    ensures
        spec_produce(m) == (m, Some(0i16)),
        produce_many(m, n) == m,
        spec_apply_command(m, MusicPlayerCommand::Play) == (QueueModel { paused: false, ..m }),
    decreases n,
{
    if n > 0 {
        lemma_pause_freezes_play_resumes(m, (n - 1) as nat);
    }
}

/// Law: a stop command empties the pending queue and discards the current
/// source's remainder, whatever was pending. Continued production then
/// yields zero-valued samples forever under keep-alive (the resulting
/// state satisfies the premise of [`lemma_keep_alive_never_ends`]), and
/// ends at the very next production request without it.
pub proof fn lemma_stop(m: QueueModel)
    requires
        !m.paused,
    ensures
        spec_apply_command(m, MusicPlayerCommand::Stop).queue.len() == 0,
        all_zero(spec_apply_command(m, MusicPlayerCommand::Stop).current.remaining),
        !spec_apply_command(m, MusicPlayerCommand::Stop).paused,
        spec_apply_command(m, MusicPlayerCommand::Stop).keep_alive == m.keep_alive,
        m.keep_alive ==> spec_produce(spec_apply_command(m, MusicPlayerCommand::Stop)).1 == Some(
            0i16,
        ),
        !m.keep_alive ==> spec_produce(spec_apply_command(m, MusicPlayerCommand::Stop)) == (
            spec_apply_command(m, MusicPlayerCommand::Stop),
            None::<i16>,
        ),
{
    let m2 = spec_apply_command(m, MusicPlayerCommand::Stop);
    if m.keep_alive {
        assert(all_zero(silence_model().remaining));
        lemma_keep_alive_never_ends(m2);
    } else {
        assert(all_zero(m2.current.remaining));
    }
}

/// Law: the reported channel count and sample rate are those of the source
/// being drained. While the current source still has samples, a production
/// request yields its next sample and leaves it in place; once it is
/// exhausted, the very request that yields the next pending source's first
/// sample makes that source current, so the reported properties switch
/// exactly at the sample following the exhaustion of the previous source.
pub proof fn lemma_properties_follow_current(m: QueueModel)
    requires
        !m.paused,
    ensures
        m.current.remaining.len() > 0 ==> spec_produce(m).1 == Some(m.current.remaining[0])
            && spec_produce(m).0.current.channels == m.current.channels && spec_produce(
            m,
        ).0.current.sample_rate == m.current.sample_rate,
        m.current.remaining.len() == 0 && m.queue.len() > 0 && m.queue[0].remaining.len() > 0
            ==> spec_produce(m).1 == Some(m.queue[0].remaining[0]) && spec_produce(
            m,
        ).0.current.channels == m.queue[0].channels && spec_produce(m).0.current.sample_rate
            == m.queue[0].sample_rate,
{
    if m.current.remaining.len() == 0 && m.queue.len() > 0 {
        assert(spec_produce(m) == spec_produce(spec_advance(m)));
    }
}

} // verus!
