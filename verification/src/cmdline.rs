//! Preparation of a command line for the process-creation primitive: a
//! mutable, null-terminated byte buffer.  No validation or escaping is
//! performed — quoting and argument boundaries are the caller's
//! responsibility — and no shell is involved, so the command's length is
//! unbounded.

use vstd::prelude::*;

verus! {

/// The part of a null-terminated buffer that the process-creation primitive
/// actually reads: everything before the first terminator byte.  A command
/// string with an embedded terminator is silently truncated to this prefix.
pub open spec fn effective_command(buf: Seq<u8>) -> Seq<u8>
    decreases buf.len(),
{
    if buf.len() == 0 {
        buf
    } else if buf[0] == 0 {
        Seq::empty()
    } else {
        seq![buf[0]] + effective_command(buf.drop_first())
    }
}

/// Copies the command bytes into a fresh buffer and appends the terminator.
/// The buffer is the command itself followed by a single terminator byte;
/// it is freshly allocated on every call, since the creation primitive may
/// rewrite it in place and it must therefore never be shared or reused.
pub fn prepare_command_buffer(cmd: &[u8]) -> (buf: Vec<u8>)
    requires
        cmd@.len() < usize::MAX,
    ensures
        buf@ == cmd@.push(0u8),
        buf@.len() == cmd@.len() + 1,
{
    let mut buf: Vec<u8> = Vec::new();
    let mut i: usize = 0;
    while i < cmd.len()
        invariant
            i <= cmd@.len(),
            cmd@.len() < usize::MAX,
            buf@ == cmd@.take(i as int),
        decreases cmd@.len() - i,
    {
        buf.push(cmd[i]);
        assert(buf@ =~= cmd@.take(i + 1));
        i = i + 1;
    }
    buf.push(0u8);
    assert(buf@ =~= cmd@.push(0u8));
    buf
}

/// Truncation law: a command with no embedded terminator byte passes through
/// unchanged — the effective command of its prepared buffer is the command
/// itself.  (With an embedded terminator the effective command is the prefix
/// before it; that silent truncation is a known risk of the interface.)
pub proof fn lemma_no_embedded_terminator_keeps_command(cmd: Seq<u8>)
    requires
        !cmd.contains(0u8),
    ensures
        effective_command(cmd.push(0u8)) == cmd,
    decreases cmd.len(),
{
    if cmd.len() == 0 {
        assert(cmd.push(0u8)[0] == 0);
        assert(effective_command(cmd.push(0u8)) =~= cmd);
    } else {
        assert(cmd[0] != 0) by {
            assert(cmd.contains(cmd[0]));
        }
        assert(cmd.push(0u8).drop_first() =~= cmd.drop_first().push(0u8));
        assert(!cmd.drop_first().contains(0u8)) by {
            if cmd.drop_first().contains(0u8) {
                let j = choose|j: int| 0 <= j < cmd.drop_first().len() && cmd.drop_first()[j] == 0u8;
                assert(cmd[j + 1] == 0u8);
                assert(cmd.contains(0u8));
            }
        }
        lemma_no_embedded_terminator_keeps_command(cmd.drop_first());
        assert(effective_command(cmd.push(0u8)) =~= seq![cmd[0]] + cmd.drop_first());
        assert(seq![cmd[0]] + cmd.drop_first() =~= cmd);
    }
}

} // verus!
