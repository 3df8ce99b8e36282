//! The two fixed-size, tag-prefixed records sent to the privileged peer.

use vstd::prelude::*;

verus! {

/// Tag of the record that designates the process to terminate.
pub const SET_TERMINATION_TARGET_TAG: u32 = 3;

/// Tag of the record that authorizes the termination.
pub const ENABLE_TERMINATION_TAG: u32 = 1;

/// Payload count carried by the authorizing record.
pub const ENABLE_TERMINATION_COUNT: u32 = 1;

/// A command for the privileged peer.
#[derive(Clone, Copy, Debug, PartialEq, Eq, Structural)]
pub enum CommandMessage {
    /// Designates the process that the peer will terminate.
    SetTerminationTarget { target_pid: u32 },
    /// Authorizes the termination on behalf of the requesting process.
    EnableTermination { requester_pid: u32 },
}

/// The four bytes of `v`, least significant first.
pub open spec fn le32(v: u32) -> Seq<u8> {
    seq![
        (v & 0xff) as u8,
        ((v >> 8u32) & 0xff) as u8,
        ((v >> 16u32) & 0xff) as u8,
        ((v >> 24u32) & 0xff) as u8,
    ]
}

/// The 32-bit fields of a record, in wire order.
pub open spec fn fields(m: CommandMessage) -> Seq<u32> {
    match m {
        CommandMessage::SetTerminationTarget { target_pid } => seq![
            SET_TERMINATION_TARGET_TAG,
            target_pid,
        ],
        CommandMessage::EnableTermination { requester_pid } => seq![
            ENABLE_TERMINATION_TAG,
            ENABLE_TERMINATION_COUNT,
            requester_pid,
        ],
    }
}

/// The fields laid out one after another, each as four little-endian bytes.
pub open spec fn le32_all(f: Seq<u32>) -> Seq<u8>
    decreases f.len(),
{
    if f.len() == 0 {
        Seq::empty()
    } else {
        le32(f[0]) + le32_all(f.drop_first())
    }
}

/// The bytes of a record on the wire.
pub open spec fn encoding(m: CommandMessage) -> Seq<u8> {
    le32_all(fields(m))
}

/// The size in bytes of a record on the wire.
pub open spec fn wire_size(m: CommandMessage) -> nat {
    match m {
        CommandMessage::SetTerminationTarget { .. } => 8,
        CommandMessage::EnableTermination { .. } => 12,
    }
}

/// Appends the four little-endian bytes of `v`.
fn push_le32(out: &mut Vec<u8>, v: u32)
    ensures
        final(out)@ == old(out)@ + le32(v),
{
    out.push((v & 0xff) as u8);
    out.push(((v >> 8u32) & 0xff) as u8);
    out.push(((v >> 16u32) & 0xff) as u8);
    out.push(((v >> 24u32) & 0xff) as u8);
    assert(final(out)@ =~= old(out)@ + le32(v));
}

impl CommandMessage {
    /// The record that designates `pid` as the process to terminate.
    pub fn set_termination_target(pid: u32) -> (r: CommandMessage)
        ensures
            r == (CommandMessage::SetTerminationTarget { target_pid: pid }),
    {
        CommandMessage::SetTerminationTarget { target_pid: pid }
    }

    /// The record that authorizes termination for the process `requester_pid`.
    pub fn enable_termination(requester_pid: u32) -> (r: CommandMessage)
        ensures
            r == (CommandMessage::EnableTermination { requester_pid }),
    {
        CommandMessage::EnableTermination { requester_pid }
    }

    /// The tag that leads the record.
    pub fn tag(&self) -> (r: u32)
        ensures
            r == fields(*self)[0],
    {
        match self {
            CommandMessage::SetTerminationTarget { .. } => SET_TERMINATION_TARGET_TAG,
            CommandMessage::EnableTermination { .. } => ENABLE_TERMINATION_TAG,
        }
    }

    /// The number of bytes of the record on the wire.
    pub fn size(&self) -> (r: u32)
        ensures
            r == wire_size(*self),
            r == 4 * fields(*self).len(),
    {
        match self {
            CommandMessage::SetTerminationTarget { .. } => 8,
            CommandMessage::EnableTermination { .. } => 12,
        }
    }

    /// Serializes the record: each field as four little-endian bytes, tag first.
    pub fn encode(&self) -> (r: Vec<u8>)
        ensures
            r@ == encoding(*self),
            r@.len() == wire_size(*self),
    {
        let mut out: Vec<u8> = Vec::new();
        match *self {
            CommandMessage::SetTerminationTarget { target_pid } => {
                push_le32(&mut out, SET_TERMINATION_TARGET_TAG);
                push_le32(&mut out, target_pid);
                proof {
                    let f = fields(*self);
                    reveal_with_fuel(le32_all, 3);
                    assert(f.drop_first().drop_first() =~= Seq::<u32>::empty());
                    assert(out@ =~= le32_all(f));
                }
            },
            CommandMessage::EnableTermination { requester_pid } => {
                push_le32(&mut out, ENABLE_TERMINATION_TAG);
                push_le32(&mut out, ENABLE_TERMINATION_COUNT);
                push_le32(&mut out, requester_pid);
                proof {
                    let f = fields(*self);
                    reveal_with_fuel(le32_all, 4);
                    assert(f.drop_first().drop_first().drop_first() =~= Seq::<u32>::empty());
                    assert(out@ =~= le32_all(f));
                }
            },
        }
        out
    }
}

/// For every pid, the designating record is 8 bytes, the tag 3 and then the
/// pid, and the authorizing record is 12 bytes, the tag 1, the count 1 and
/// then the requester's pid, each field as four little-endian bytes.
pub proof fn lemma_record_layout(target_pid: u32, requester_pid: u32)
    ensures
        encoding(CommandMessage::SetTerminationTarget { target_pid }) == le32(3) + le32(
            target_pid,
        ),
        encoding(CommandMessage::SetTerminationTarget { target_pid }).len() == 8,
        encoding(CommandMessage::EnableTermination { requester_pid }) == le32(1) + le32(1)
            + le32(requester_pid),
        encoding(CommandMessage::EnableTermination { requester_pid }).len() == 12,
{
    reveal_with_fuel(le32_all, 4);
    let f = fields(CommandMessage::SetTerminationTarget { target_pid });
    assert(f.drop_first().drop_first() =~= Seq::<u32>::empty());
    assert(le32_all(f) =~= le32(3) + le32(target_pid));
    let g = fields(CommandMessage::EnableTermination { requester_pid });
    assert(g.drop_first().drop_first().drop_first() =~= Seq::<u32>::empty());
    assert(le32_all(g) =~= le32(1) + le32(1) + le32(requester_pid));
}

} // verus!
