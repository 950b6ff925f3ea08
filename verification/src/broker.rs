//! The commands that the queue sends to the broker, the answers it gets, and
//! what the commands do to the broker's lists.
//!
//! The head of a list is its first element, the tail its last. A list that
//! the broker does not know is an empty list.

use vstd::prelude::*;

verus! {

/// One request to the broker.
#[derive(Debug, PartialEq, Eq)]
pub enum Command {
    /// Put `payload` at the head of `list`.
    Append { list: String, payload: Vec<u8> },
    /// Wait, for as long as it takes, until `source` holds an element, then
    /// take the element at its tail and put it at the tail of `destination`,
    /// in one step. The broker answers with the element that it moved.
    AtomicMove { source: String, destination: String },
    /// Ask how many elements `list` holds.
    Length { list: String },
    /// Take away the element at the head of `list`.
    RemoveHead { list: String },
}

/// What a [`Command`] asks for, in mathematical terms.
pub enum CommandView {
    Append { list: Seq<char>, payload: Seq<u8> },
    AtomicMove { source: Seq<char>, destination: Seq<char> },
    Length { list: Seq<char> },
    RemoveHead { list: Seq<char> },
}

impl View for Command {
    type V = CommandView;

    open spec fn view(&self) -> CommandView {
        match *self {
            Command::Append { list, payload } => CommandView::Append {
                list: list@,
                payload: payload@,
            },
            Command::AtomicMove { source, destination } => CommandView::AtomicMove {
                source: source@,
                destination: destination@,
            },
            Command::Length { list } => CommandView::Length { list: list@ },
            Command::RemoveHead { list } => CommandView::RemoveHead { list: list@ },
        }
    }
}

/// A value that the broker sent back.
#[derive(Debug, PartialEq, Eq)]
pub enum Reply {
    /// Nothing.
    Nil,
    /// A number.
    Int(i64),
    /// One scalar byte string: the only shape a job payload has.
    Data(Vec<u8>),
    /// Several values at once.
    Bulk(Vec<Reply>),
    /// A status line.
    Status(String),
    /// The plain confirmation.
    Okay,
}

impl Reply {
    /// The payload that this reply carries, if it is a scalar byte string.
    pub open spec fn payload(self) -> Option<Seq<u8>> {
        match self {
            Reply::Data(bytes) => Some(bytes@),
            _ => None,
        }
    }

    /// The count that this reply carries: its number if it is one that is
    /// not negative, and zero otherwise.
    pub open spec fn count(self) -> nat {
        match self {
            Reply::Int(n) => if n >= 0 {
                n as nat
            } else {
                0
            },
            _ => 0,
        }
    }
}

/// How the exchange of one command with the broker ended.
#[derive(Debug, PartialEq, Eq)]
pub enum Response {
    /// The broker could not be reached, or the exchange broke down.
    Failed,
    /// The broker answered.
    Reply(Reply),
}

/// The lists that a broker holds, each under its key.
pub struct Broker {
    pub lists: Map<Seq<char>, Seq<Seq<u8>>>,
}

impl Broker {
    /// A broker that holds nothing.
    pub open spec fn empty() -> Broker {
        Broker { lists: Map::empty() }
    }

    /// The list under `key`, head first.
    pub open spec fn list(self, key: Seq<char>) -> Seq<Seq<u8>> {
        if self.lists.dom().contains(key) {
            self.lists[key]
        } else {
            Seq::empty()
        }
    }

    /// The answer to a question for the length of the list under `key`.
    pub open spec fn length(self, key: Seq<char>) -> nat {
        self.list(key).len()
    }

    /// This broker with `elements` as the list under `key`.
    pub open spec fn with_list(self, key: Seq<char>, elements: Seq<Seq<u8>>) -> Broker {
        Broker { lists: self.lists.insert(key, elements) }
    }

    /// This broker after `payload` was put at the head of the list under
    /// `key`.
    pub open spec fn append(self, key: Seq<char>, payload: Seq<u8>) -> Broker {
        self.with_list(key, seq![payload] + self.list(key))
    }

    /// Whether a move out of the list under `source` can complete now. While
    /// it cannot, the consumer waits and the broker stays as it is.
    pub open spec fn can_move(self, source: Seq<char>) -> bool {
        self.list(source).len() > 0
    }

    /// The element that a move out of the list under `source` hands over.
    pub open spec fn moved(self, source: Seq<char>) -> Seq<u8>
        recommends
            self.can_move(source),
    {
        self.list(source).last()
    }

    /// This broker after the element at the tail of the list under `source`
    /// was moved to the tail of the list under `destination`.
    pub open spec fn atomic_move(self, source: Seq<char>, destination: Seq<char>) -> Broker {
        if self.can_move(source) {
            let taken = self.with_list(source, self.list(source).drop_last());
            taken.with_list(destination, taken.list(destination).push(self.moved(source)))
        } else {
            self
        }
    }

    /// This broker after the element at the head of the list under `key` was
    /// taken away.
    pub open spec fn remove_head(self, key: Seq<char>) -> Broker {
        if self.list(key).len() > 0 {
            self.with_list(key, self.list(key).drop_first())
        } else {
            self
        }
    }

    /// This broker after it carried out `command`.
    pub open spec fn apply(self, command: CommandView) -> Broker {
        match command {
            CommandView::Append { list, payload } => self.append(list, payload),
            CommandView::AtomicMove { source, destination } => self.atomic_move(
                source,
                destination,
            ),
            CommandView::Length { list } => self,
            CommandView::RemoveHead { list } => self.remove_head(list),
        }
    }

    /// This broker after it carried out `command`, if there was one.
    pub open spec fn apply_if(self, command: Option<CommandView>) -> Broker {
        match command {
            Some(c) => self.apply(c),
            None => self,
        }
    }

    /// This broker after every payload of `payloads` was put, one after the
    /// other, at the head of the list under `key`.
    pub open spec fn append_all(self, key: Seq<char>, payloads: Seq<Seq<u8>>) -> Broker
        decreases payloads.len(),
    {
        if payloads.len() == 0 {
            self
        } else {
            self.append_all(key, payloads.drop_last()).append(key, payloads.last())
        }
    }
}

} // verus!
