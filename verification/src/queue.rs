//! The queue handle: which command each operation sends to the broker, and
//! what the broker's answer means.

use vstd::prelude::*;
use vstd::string::StringExecFns;
use crate::broker::{Command, CommandView, Reply, Response};
use crate::error::Error;
use crate::guard::TaskGuard;
use crate::names::{backup_key, backup_queue_name, default_label, queue_key, queue_name};
use crate::task::{TaskDecodable, TaskEncodable};

verus! {

/// What a queue handle is: the consumer it belongs to, the queue it works
/// on, and whether it was stopped.
pub struct QueueView {
    /// The name of the queue, without its namespace.
    pub name: Seq<char>,
    /// The process number of the consumer.
    pub pid: nat,
    /// The worker label of the consumer.
    pub label: Seq<char>,
    /// Whether the handle was stopped.
    pub stopped: bool,
}

impl QueueView {
    /// The key of the main list.
    pub open spec fn queue_key(self) -> Seq<char> {
        queue_key(self.name)
    }

    /// The key of this consumer's backup list.
    pub open spec fn backup_key(self) -> Seq<char> {
        backup_key(self.queue_key(), self.pid, self.label)
    }

    /// This handle after it was stopped.
    pub open spec fn stop(self) -> QueueView {
        QueueView { stopped: true, ..self }
    }

    /// The command that pushes `payload`: it goes to the head of the main
    /// list.
    pub open spec fn push_command(self, payload: Seq<u8>) -> CommandView {
        CommandView::Append { list: self.queue_key(), payload }
    }

    /// The command that asks for the number of waiting jobs.
    pub open spec fn size_command(self) -> CommandView {
        CommandView::Length { list: self.queue_key() }
    }

    /// The command that fetches the next job: none once the handle was
    /// stopped, and else the move of one job from the main list into this
    /// consumer's backup list.
    pub open spec fn fetch_command(self) -> Option<CommandView> {
        if self.stopped {
            None
        } else {
            Some(
                CommandView::AtomicMove {
                    source: self.queue_key(),
                    destination: self.backup_key(),
                },
            )
        }
    }

    /// The command that goes out when the guard of a fetched job is
    /// released: the acknowledgment, which takes the head of the backup list
    /// away, unless the job was marked as failed.
    pub open spec fn release_command(self, failed: bool) -> Option<CommandView> {
        if failed {
            None
        } else {
            Some(CommandView::RemoveHead { list: self.backup_key() })
        }
    }
}

/// A handle on one queue, for one consumer.
///
/// A handle is used by one thread at a time.
pub struct Queue {
    name: String,
    pid: u32,
    label: String,
    queue_name: String,
    backup_queue: String,
    stopped: bool,
}

impl View for Queue {
    type V = QueueView;

    closed spec fn view(&self) -> QueueView {
        QueueView {
            name: self.name@,
            pid: self.pid as nat,
            label: self.label@,
            stopped: self.stopped,
        }
    }
}

impl Queue {
    #[verifier::type_invariant]
    spec fn keys_spelled(&self) -> bool {
        &&& self.queue_name@ == queue_key(self.name@)
        &&& self.backup_queue@ == backup_key(self.queue_name@, self.pid as nat, self.label@)
    }

    /// Makes the handle of the consumer `(pid, label)` on the queue called
    /// `name`. A consumer without a label goes by the default label. The
    /// broker is not involved.
    pub fn new(name: String, pid: u32, label: Option<String>) -> (q: Queue)
        ensures
            q@ == (QueueView {
                name: name@,
                pid: pid as nat,
                label: match label {
                    Some(l) => l@,
                    None => default_label(),
                },
                stopped: false,
            }),
    {
        let label = match label {
            Some(l) => l,
            None => String::from_str("default"),
        };
        let queue_name = queue_name(name.as_str());
        let backup_queue = backup_queue_name(queue_name.as_str(), pid, label.as_str());
        Queue { name, pid, label, queue_name, backup_queue, stopped: false }
    }

    /// Stops the handle: from now on [`Queue::next`] reports that there is
    /// no more work. Other consumers are not told.
    pub fn stop(&mut self)
        ensures
            final(self)@ == old(self)@.stop(),
    {
        proof {
            use_type_invariant(&*self);
        }
        self.stopped = true;
    }

    /// Whether the handle was stopped.
    pub fn is_stopped(&self) -> (stopped: bool)
        ensures
            stopped == self@.stopped,
    {
        self.stopped
    }

    /// The key of the main list.
    pub fn queue(&self) -> (key: &str)
        ensures
            key@ == self@.queue_key(),
    {
        proof {
            use_type_invariant(self);
        }
        self.queue_name.as_str()
    }

    /// The key of this consumer's backup list.
    pub fn backup_queue(&self) -> (key: &str)
        ensures
            key@ == self@.backup_key(),
    {
        proof {
            use_type_invariant(self);
        }
        self.backup_queue.as_str()
    }

    /// The command that asks the broker how many jobs wait in the main list.
    pub fn size_command(&self) -> (command: Command)
        ensures
            command@ == self@.size_command(),
    {
        Command::Length { list: self.queue().to_owned() }
    }

    /// The number of jobs that wait in the main list, given how the exchange
    /// of [`Queue::size_command`] with the broker ended. A failed exchange is
    /// reported as [`Error::Transport`]. An answer gives its count, which is
    /// zero where the broker knows no such list.
    pub fn size(&self, response: &Response) -> (r: Result<u64, Error>)
        ensures
            match *response {
                Response::Failed => r == Err::<u64, Error>(Error::Transport),
                Response::Reply(reply) => r matches Ok(n) && n == reply.count(),
            },
    {
        match response {
            Response::Failed => Err(Error::Transport),
            Response::Reply(Reply::Int(count)) => if *count >= 0 {
                Ok(*count as u64)
            } else {
                Ok(0)
            },
            Response::Reply(_) => Ok(0),
        }
    }

    /// The command that puts `payload` at the head of the main list.
    pub fn push_payload(&self, payload: Vec<u8>) -> (command: Command)
        ensures
            command@ == self@.push_command(payload@),
    {
        Command::Append { list: self.queue().to_owned(), payload }
    }

    /// Encodes `task` and gives the command that pushes it: its payload goes
    /// to the head of the main list. A job that cannot be encoded is
    /// reported as [`Error::Encode`], and nothing is to be sent.
    pub fn push<T: TaskEncodable>(&self, task: T) -> (r: Result<Command, Error>)
        ensures
            match r {
                Ok(command) => task.encoded() matches Some(payload) && command@
                    == self@.push_command(payload@),
                Err(e) => e == Error::Encode && task.encoded() is None,
            },
    {
        match task.encode_task() {
            Ok(payload) => Ok(self.push_payload(payload)),
            Err(e) => Err(e),
        }
    }

    /// What became of a push, given how the exchange with the broker ended:
    /// it succeeded unless the exchange failed.
    pub fn pushed(&self, response: &Response) -> (r: Result<(), Error>)
        ensures
            r == (match *response {
                Response::Failed => Err::<(), Error>(Error::Transport),
                Response::Reply(_) => Ok::<(), Error>(()),
            }),
    {
        match response {
            Response::Failed => Err(Error::Transport),
            Response::Reply(_) => Ok(()),
        }
    }

    /// The command that fetches the next job, or `None` once the handle was
    /// stopped: then the broker is not asked again. The command moves one
    /// job from the tail of the main list to the tail of this consumer's
    /// backup list and waits for as long as the main list is empty.
    pub fn fetch_command(&self) -> (command: Option<Command>)
        ensures
            (match command {
                Some(c) => Some(c@),
                None => None,
            }) == self@.fetch_command(),
    {
        if self.stopped {
            None
        } else {
            Some(
                Command::AtomicMove {
                    source: self.queue().to_owned(),
                    destination: self.backup_queue().to_owned(),
                },
            )
        }
    }

    /// Puts a decoded job under a fresh guard, which is not marked as
    /// failed, and hands a failure to decode on as it is.
    pub fn guard<'a, T>(&'a mut self, decoded: Result<T, Error>) -> (r: Result<
        TaskGuard<'a, T>,
        Error,
    >)
        ensures
            match decoded {
                Ok(task) => r matches Ok(guard) && guard.task == task && !guard.failed
                    && guard.handle() == *old(self) && *final(guard.queue) == *final(self),
                Err(e) => r matches Err(f) && f == e && *final(self) == *old(self),
            },
    {
        match decoded {
            Ok(task) => Ok(TaskGuard { task, queue: self, failed: false }),
            Err(e) => Err(e),
        }
    }

    /// The next job, given how the exchange of [`Queue::fetch_command`] with
    /// the broker ended.
    ///
    /// A stopped handle has no more work: the result is `None`. Otherwise
    /// the result is an error if the exchange failed, if the broker's reply
    /// is no scalar byte string, or if its payload does not decode; in the
    /// last two cases the broker has moved the element already and it stays
    /// in the backup list. A payload that decodes comes back under a fresh
    /// guard.
    pub fn next<'a, T: TaskDecodable>(&'a mut self, response: &Response) -> (r: Option<
        Result<TaskGuard<'a, T>, Error>,
    >)
        ensures
            old(self)@.stopped ==> r is None && *final(self) == *old(self),
            !old(self)@.stopped ==> match *response {
                Response::Failed => r matches Some(Err(f)) && f == Error::Transport && *final(self)
                    == *old(self),
                Response::Reply(Reply::Data(bytes)) => match T::decoded(bytes) {
                    Some(task) => r matches Some(Ok(guard)) && guard.task == task && !guard.failed
                        && guard.handle() == *old(self) && *final(guard.queue) == *final(self),
                    None => r matches Some(Err(f)) && f == Error::Decode && *final(self) == *old(
                        self,
                    ),
                },
                Response::Reply(_) => r matches Some(Err(f)) && f == Error::Protocol && *final(self)
                    == *old(self),
            },
    {
        if self.stopped {
            return None;
        }
        match response {
            Response::Failed => Some(Err(Error::Transport)),
            Response::Reply(reply) => match reply {
                Reply::Data(_) => Some(self.guard(T::decode_task(reply))),
                _ => Some(Err(Error::Protocol)),
            },
        }
    }
}

} // verus!
