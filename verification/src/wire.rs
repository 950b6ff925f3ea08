//! How a command is spelled for a Redis broker.

use vstd::prelude::*;
use vstd::utf8::encode_utf8;
use crate::broker::{Command, CommandView};

verus! {

/// `redis::Cmd`: a command under construction. What it holds is known only
/// through [`cmd_args`].
#[verifier::external_type_specification]
#[verifier::external_body]
pub struct ExCmd(redis::Cmd);

/// The arguments that a Redis command holds, in the order in which
/// `redis::Cmd::args_iter` hands them out, the command's name first.
pub uninterp spec fn cmd_args(cmd: redis::Cmd) -> Seq<Seq<u8>>;

/// `redis::Cmd::new`: a command that holds no argument yet.
#[verifier::external_body]
fn new_cmd() -> (cmd: redis::Cmd)
    ensures
        cmd_args(cmd) == Seq::<Seq<u8>>::empty(),
{
    redis::Cmd::new()
}

/// `redis::Cmd::arg` for a byte slice: the bytes become one more argument,
/// behind those that the command holds.
#[verifier::external_body]
fn add_arg(cmd: &mut redis::Cmd, arg: &[u8])
    ensures
        cmd_args(*final(cmd)) == cmd_args(*old(cmd)).push(arg@),
{
    cmd.arg(arg);
}

/// The arguments of the Redis command that carries out `command`: `LPUSH`
/// appends at the head; `BLMOVE` from the right end of the source to the
/// right end of the destination, with the timeout 0 that stands for none,
/// moves from tail to tail; `LLEN` counts; and `LPOP` removes the head.
pub open spec fn wire_args(command: CommandView) -> Seq<Seq<u8>> {
    match command {
        CommandView::Append { list, payload } => seq![
            encode_utf8("LPUSH"@),
            encode_utf8(list),
            payload,
        ],
        CommandView::AtomicMove { source, destination } => seq![
            encode_utf8("BLMOVE"@),
            encode_utf8(source),
            encode_utf8(destination),
            encode_utf8("RIGHT"@),
            encode_utf8("RIGHT"@),
            encode_utf8("0"@),
        ],
        CommandView::Length { list } => seq![encode_utf8("LLEN"@), encode_utf8(list)],
        CommandView::RemoveHead { list } => seq![encode_utf8("LPOP"@), encode_utf8(list)],
    }
}

impl Command {
    /// Spells this command for a Redis broker.
    pub fn to_redis(&self) -> (cmd: redis::Cmd)
        ensures
            cmd_args(cmd) == wire_args(self@),
    {
        let mut cmd = new_cmd();
        match self {
            Command::Append { list, payload } => {
                add_arg(&mut cmd, "LPUSH".as_bytes());
                add_arg(&mut cmd, list.as_str().as_bytes());
                add_arg(&mut cmd, payload.as_slice());
            },
            Command::AtomicMove { source, destination } => {
                add_arg(&mut cmd, "BLMOVE".as_bytes());
                add_arg(&mut cmd, source.as_str().as_bytes());
                add_arg(&mut cmd, destination.as_str().as_bytes());
                add_arg(&mut cmd, "RIGHT".as_bytes());
                add_arg(&mut cmd, "RIGHT".as_bytes());
                add_arg(&mut cmd, "0".as_bytes());
            },
            Command::Length { list } => {
                add_arg(&mut cmd, "LLEN".as_bytes());
                add_arg(&mut cmd, list.as_str().as_bytes());
            },
            Command::RemoveHead { list } => {
                add_arg(&mut cmd, "LPOP".as_bytes());
                add_arg(&mut cmd, list.as_str().as_bytes());
            },
        }
        assert(cmd_args(cmd) =~= wire_args(self@));
        cmd
    }
}

} // verus!
