//! What the delivery protocol guarantees, stated over the broker's lists.

use vstd::prelude::*;
use crate::broker::{Broker, Reply};
use crate::names::{lemma_backup_key_differs, lemma_backup_key_injective};
use crate::queue::QueueView;
use crate::task::{round_trips, TaskDecodable, TaskEncodable};

verus! {

/// A fetch takes the job at the tail of the main list, puts it at the tail
/// of the consumer's backup list, and leaves every other list alone.
pub proof fn law_fetch_moves_tail(q: QueueView, b: Broker)
    requires
        !q.stopped,
        b.can_move(q.queue_key()),
    ensures
        ({
            let after = b.apply_if(q.fetch_command());
            &&& after.list(q.queue_key()) == b.list(q.queue_key()).drop_last()
            &&& after.list(q.backup_key()) == b.list(q.backup_key()).push(b.moved(q.queue_key()))
            &&& forall|key: Seq<char>|
                key != q.queue_key() && key != q.backup_key() ==> after.list(key) == b.list(key)
        }),
{
    lemma_backup_key_differs(q.queue_key(), q.pid, q.label);
}

/// At-least-once delivery, the good case: a job is pushed while the main
/// list and the consumer's backup list are empty, then fetched, and its
/// guard is released without having been marked as failed. The fetch hands
/// over that job, and afterwards the job is in neither list.
pub proof fn law_acknowledged_job_is_gone(q: QueueView, b: Broker, payload: Seq<u8>)
    requires
        !q.stopped,
        b.list(q.queue_key()).len() == 0,
        b.list(q.backup_key()).len() == 0,
    ensures
        ({
            let pushed = b.apply(q.push_command(payload));
            let fetched = pushed.apply_if(q.fetch_command());
            let released = fetched.apply_if(q.release_command(false));
            &&& pushed.can_move(q.queue_key())
            &&& pushed.moved(q.queue_key()) == payload
            &&& fetched.list(q.backup_key()) == seq![payload]
            &&& !released.list(q.queue_key()).contains(payload)
            &&& !released.list(q.backup_key()).contains(payload)
        }),
{
    lemma_backup_key_differs(q.queue_key(), q.pid, q.label);
    let pushed = b.apply(q.push_command(payload));
    assert(pushed.list(q.queue_key()) =~= seq![payload]);
    law_fetch_moves_tail(q, pushed);
    let fetched = pushed.apply_if(q.fetch_command());
    assert(pushed.list(q.backup_key()) =~= Seq::<Seq<u8>>::empty());
    assert(fetched.list(q.backup_key()) =~= seq![payload]);
    assert(fetched.list(q.queue_key()) =~= Seq::<Seq<u8>>::empty());
    let released = fetched.apply_if(q.release_command(false));
    assert(released.list(q.backup_key()) =~= Seq::<Seq<u8>>::empty());
    assert(released.list(q.queue_key()) =~= Seq::<Seq<u8>>::empty());
}

/// Releasing a guard that was not marked as failed takes exactly the head of
/// the consumer's backup list away, which is the entry that has been there
/// longest.
pub proof fn law_release_acknowledges_head(q: QueueView, b: Broker)
    requires
        b.list(q.backup_key()).len() > 0,
    ensures
        ({
            let released = b.apply_if(q.release_command(false));
            &&& released.list(q.backup_key()) == b.list(q.backup_key()).drop_first()
            &&& forall|key: Seq<char>| key != q.backup_key() ==> released.list(key) == b.list(key)
        }),
{
}

/// One round of work: a job is fetched while the consumer's backup list is
/// empty, and its guard is released without having been marked as failed.
/// Afterwards the backup list is empty again and the main list has lost its
/// tail, the job that was worked on, and nothing else.
pub proof fn law_round_of_work_clears_backup(q: QueueView, b: Broker)
    requires
        !q.stopped,
        b.can_move(q.queue_key()),
        b.list(q.backup_key()).len() == 0,
    ensures
        ({
            let fetched = b.apply_if(q.fetch_command());
            let released = fetched.apply_if(q.release_command(false));
            &&& fetched.list(q.backup_key()) == seq![b.moved(q.queue_key())]
            &&& released.list(q.backup_key()).len() == 0
            &&& released.list(q.queue_key()) == b.list(q.queue_key()).drop_last()
        }),
{
    law_fetch_moves_tail(q, b);
    lemma_backup_key_differs(q.queue_key(), q.pid, q.label);
    let fetched = b.apply_if(q.fetch_command());
    assert(fetched.list(q.backup_key()) =~= seq![b.moved(q.queue_key())]);
    law_release_acknowledges_head(q, fetched);
}

/// A release acknowledges the oldest entry: where the backup list already
/// holds entries when a job is fetched, releasing the guard of that job
/// without a failure mark takes the oldest of them away, and the fetched job
/// stays at the tail. Only with an empty backup list before the fetch is the
/// entry that leaves the job under the guard.
pub proof fn law_release_takes_oldest(q: QueueView, b: Broker)
    requires
        !q.stopped,
        b.can_move(q.queue_key()),
        b.list(q.backup_key()).len() > 0,
    ensures
        b.apply_if(q.fetch_command()).apply_if(q.release_command(false)).list(q.backup_key())
            == b.list(q.backup_key()).drop_first().push(b.moved(q.queue_key())),
{
    law_fetch_moves_tail(q, b);
    let fetched = b.apply_if(q.fetch_command());
    law_release_acknowledges_head(q, fetched);
    assert(b.list(q.backup_key()).push(b.moved(q.queue_key())).drop_first() =~= b.list(
        q.backup_key(),
    ).drop_first().push(b.moved(q.queue_key())));
}

/// Stranding: a job is fetched and its guard is released after it was marked
/// as failed. The release sends nothing, so the job stays at the tail of the
/// backup list; and it is absent from the main list, provided the main list
/// held no second copy of it.
pub proof fn law_failed_job_is_stranded(q: QueueView, b: Broker)
    requires
        !q.stopped,
        b.can_move(q.queue_key()),
        !b.list(q.queue_key()).drop_last().contains(b.moved(q.queue_key())),
    ensures
        ({
            let job = b.moved(q.queue_key());
            let fetched = b.apply_if(q.fetch_command());
            let released = fetched.apply_if(q.release_command(true));
            &&& released == fetched
            &&& released.list(q.backup_key()).contains(job)
            &&& released.list(q.backup_key()).last() == job
            &&& !released.list(q.queue_key()).contains(job)
        }),
{
    law_fetch_moves_tail(q, b);
    let job = b.moved(q.queue_key());
    let fetched = b.apply_if(q.fetch_command());
    let backup = fetched.list(q.backup_key());
    assert(backup[backup.len() - 1] == job);
}

/// A stopped handle stays stopped and has no more work: it sends no fetch
/// command, whatever the main list holds, so the broker is left as it is.
pub proof fn law_stopped_handle_fetches_nothing(q: QueueView, b: Broker)
    ensures
        q.stop().stopped,
        q.stop().stop() == q.stop(),
        q.stop().fetch_command() is None,
        b.apply_if(q.stop().fetch_command()) == b,
        q.stop().queue_key() == q.queue_key(),
        q.stop().backup_key() == q.backup_key(),
{
}

/// Pushing a number of jobs makes the main list longer by that number, and
/// leaves every other list alone.
pub proof fn law_pushes_are_counted(q: QueueView, b: Broker, payloads: Seq<Seq<u8>>)
    ensures
        b.append_all(q.queue_key(), payloads).length(q.queue_key()) == b.length(q.queue_key())
            + payloads.len(),
        forall|key: Seq<char>|
            key != q.queue_key() ==> b.append_all(q.queue_key(), payloads).list(key) == b.list(
                key,
            ),
        payloads.len() > 0 ==> b.append_all(q.queue_key(), payloads) == b.append_all(
            q.queue_key(),
            payloads.drop_last(),
        ).apply(q.push_command(payloads.last())),
    decreases payloads.len(),
{
    if payloads.len() > 0 {
        law_pushes_are_counted(q, b, payloads.drop_last());
    }
}

/// After a number of pushes the main list holds the pushed jobs, the last
/// one first, in front of what it held before.
pub proof fn law_pushes_stack_at_head(q: QueueView, b: Broker, payloads: Seq<Seq<u8>>)
    ensures
        b.append_all(q.queue_key(), payloads).list(q.queue_key()) == payloads.reverse() + b.list(
            q.queue_key(),
        ),
    decreases payloads.len(),
{
    let key = q.queue_key();
    if payloads.len() > 0 {
        law_pushes_stack_at_head(q, b, payloads.drop_last());
        let rest = payloads.drop_last();
        assert(payloads.reverse() =~= seq![payloads.last()] + rest.reverse());
    }
    assert(b.append_all(key, payloads).list(key) =~= payloads.reverse() + b.list(key));
}

/// First in, first out: of the jobs pushed onto an empty main list, the one
/// that was pushed first is fetched first, and what then waits is what would
/// wait had only the others been pushed.
pub proof fn law_jobs_are_fetched_in_push_order(q: QueueView, b: Broker, payloads: Seq<Seq<u8>>)
    requires
        !q.stopped,
        b.list(q.queue_key()).len() == 0,
        payloads.len() > 0,
    ensures
        ({
            let pushed = b.append_all(q.queue_key(), payloads);
            let fetched = pushed.apply_if(q.fetch_command());
            &&& pushed.can_move(q.queue_key())
            &&& pushed.moved(q.queue_key()) == payloads.first()
            &&& fetched.list(q.queue_key()) == b.append_all(
                q.queue_key(),
                payloads.drop_first(),
            ).list(q.queue_key())
        }),
{
    let key = q.queue_key();
    let pushed = b.append_all(key, payloads);
    law_pushes_stack_at_head(q, b, payloads);
    law_pushes_stack_at_head(q, b, payloads.drop_first());
    assert(pushed.list(key) =~= payloads.reverse());
    assert(b.append_all(key, payloads.drop_first()).list(key) =~= payloads.drop_first().reverse());
    assert(payloads.reverse().drop_last() =~= payloads.drop_first().reverse());
    law_fetch_moves_tail(q, pushed);
}

/// Size accuracy: the count in the broker's answer to a question for the
/// size, which is what the handle reports, is the length of the main list;
/// asking changes nothing; and a fetch makes the main list shorter by exactly
/// one, whether or not the payload decodes afterwards.
pub proof fn law_size_counts_waiting_jobs(q: QueueView, b: Broker)
    ensures
        b.apply(q.size_command()) == b,
        b.length(q.queue_key()) <= i64::MAX ==> Reply::Int(
            b.length(q.queue_key()) as i64,
        ).count() == b.length(q.queue_key()),
        !q.stopped && b.can_move(q.queue_key()) ==> b.apply_if(q.fetch_command()).length(
            q.queue_key(),
        ) == b.length(q.queue_key()) - 1,
{
    if !q.stopped && b.can_move(q.queue_key()) {
        law_fetch_moves_tail(q, b);
    }
}

/// Isolation: two consumers of one queue that differ in their process
/// number or in their label have different backup keys, and neither key is
/// the key of the main list. So what one of them moves into or takes out of
/// its backup list never touches the other's.
pub proof fn law_consumers_keep_apart(q1: QueueView, q2: QueueView, b: Broker)
    requires
        q1.name == q2.name,
        q1.pid != q2.pid || q1.label != q2.label,
    ensures
        q1.queue_key() == q2.queue_key(),
        q1.backup_key() != q2.backup_key(),
        q1.backup_key() != q1.queue_key(),
        q2.backup_key() != q2.queue_key(),
        b.apply_if(q1.fetch_command()).list(q2.backup_key()) == b.list(q2.backup_key()),
        forall|failed: bool|
            b.apply_if(#[trigger] q1.release_command(failed)).list(q2.backup_key()) == b.list(
                q2.backup_key(),
            ),
{
    if q1.backup_key() == q2.backup_key() {
        lemma_backup_key_injective(q1.queue_key(), q1.pid, q1.label, q2.pid, q2.label);
    }
    lemma_backup_key_differs(q1.queue_key(), q1.pid, q1.label);
    lemma_backup_key_differs(q2.queue_key(), q2.pid, q2.label);
}

/// Round trip through the queue: for a job type whose encoding
/// round-trips, a job that is pushed onto an empty main list and fetched
/// again is read back as the job that went in.
pub proof fn law_pushed_job_comes_back<T: TaskEncodable + TaskDecodable>(
    q: QueueView,
    b: Broker,
    job: T,
    fetched: Vec<u8>,
)
    requires
        round_trips::<T>(),
        b.list(q.queue_key()).len() == 0,
        job.encoded() is Some,
        fetched@ == b.apply(q.push_command(job.encoded()->0@)).moved(q.queue_key()),
    ensures
        T::decoded(fetched) == Some(job),
{
    let payload = job.encoded()->0;
    let pushed = b.apply(q.push_command(payload@));
    assert(pushed.list(q.queue_key()) =~= seq![payload@]);
}

} // verus!
