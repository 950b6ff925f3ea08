//! The guard of a fetched job.

use vstd::prelude::*;
use crate::broker::{Command, Response};
use crate::error::Error;
use crate::queue::Queue;

verus! {

/// A fetched job, held while it is worked on.
///
/// The job sits in the consumer's backup list for as long as its guard
/// lives. Releasing the guard acknowledges the job, unless it was marked as
/// failed: then it stays in the backup list. A guard that is dropped without
/// being released acknowledges nothing.
#[must_use]
pub struct TaskGuard<'a, T> {
    /// The decoded job.
    pub task: T,
    /// The queue handle that the job was fetched through.
    pub queue: &'a mut Queue,
    /// Whether the job was marked as failed.
    pub failed: bool,
}

impl<'a, T> TaskGuard<'a, T> {
    /// The queue handle that the job was fetched through, as it is now.
    pub open spec fn handle(&self) -> Queue {
        *self.queue
    }

    /// Stops the queue handle that the job was fetched through.
    pub fn stop(&mut self)
        ensures
            final(self).handle()@ == old(self).handle()@.stop(),
            *final(final(self).queue) == *final(old(self).queue),
            final(self).task == old(self).task,
            final(self).failed == old(self).failed,
    {
        self.queue.stop();
    }

    /// Marks the job as failed: it will stay in the backup list. Marking it
    /// again changes nothing.
    pub fn fail(&mut self)
        ensures
            final(self).failed,
            final(self).task == old(self).task,
            final(self).handle() == old(self).handle(),
            *final(final(self).queue) == *final(old(self).queue),
    {
        self.failed = true;
    }

    /// The job under this guard.
    pub fn inner(&self) -> (task: &T)
        ensures
            *task == self.task,
    {
        &self.task
    }

    /// The queue handle that the job was fetched through.
    pub fn queue(&self) -> (queue: &Queue)
        ensures
            *queue == self.handle(),
    {
        &*self.queue
    }

    /// Whether the job was marked as failed.
    pub fn is_failed(&self) -> (failed: bool)
        ensures
            failed == self.failed,
    {
        self.failed
    }

    /// Ends the guard and says what to tell the broker: to take the job off
    /// the backup list, or nothing if the job was marked as failed.
    pub fn release(self) -> (command: Option<Command>)
        ensures
            (match command {
                Some(c) => Some(c@),
                None => None,
            }) == self.handle()@.release_command(self.failed),
            *final(self.queue) == self.handle(),
    {
        if self.failed {
            None
        } else {
            let list = self.queue.backup_queue().to_owned();
            Some(Command::RemoveHead { list })
        }
    }
}

/// What became of an acknowledgment, given how the exchange of the command
/// from [`TaskGuard::release`] with the broker ended. A failed exchange is
/// reported as [`Error::Acknowledge`]: nobody is left to retry it, so the
/// caller has to fail loudly.
pub fn acknowledged(response: &Response) -> (r: Result<(), Error>)
    ensures
        r == (match *response {
            Response::Failed => Err::<(), Error>(Error::Acknowledge),
            Response::Reply(_) => Ok::<(), Error>(()),
        }),
{
    match response {
        Response::Failed => Err(Error::Acknowledge),
        Response::Reply(_) => Ok(()),
    }
}

/// A guard stands in for its job wherever the job is only read.
impl<'a, T> core::ops::Deref for TaskGuard<'a, T> {
    type Target = T;

    fn deref(&self) -> (task: &T)
        ensures
            *task == self.task,
    {
        &self.task
    }
}

} // verus!
