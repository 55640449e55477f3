//! The commands that open a replication stream.
//!
//! Two commands are issued over the replication connection, in the text
//! protocol, before any frame flows: one creates a temporary logical slot
//! that is rendered by the `decoderbufs` plugin, and one starts streaming
//! from that slot at the position that the server returned for it.
use vstd::prelude::*;
use vstd::string::StringExecFns;

verus! {

/// The name of the slot that a session creates at the time `stamp`.
pub fn slot_name(stamp: &str) -> (name: String)
    ensures
        name@ == "slot_"@ + stamp@,
{
    let mut name = String::from_str("slot_");
    name.append(stamp);
    name
}

/// The command that creates the temporary logical slot `slot`.
pub fn create_slot_command(slot: &str) -> (command: String)
    ensures
        command@ == "CREATE_REPLICATION_SLOT "@ + slot@ + " TEMPORARY LOGICAL \"decoderbufs\""@,
{
    let mut command = String::from_str("CREATE_REPLICATION_SLOT ");
    command.append(slot);
    command.append(" TEMPORARY LOGICAL \"decoderbufs\"");
    command
}

/// The command that starts streaming from the slot `slot` at the position
/// `lsn`, written as the server wrote it.
pub fn start_replication_command(slot: &str, lsn: &str) -> (command: String)
    ensures
        command@ == "START_REPLICATION SLOT "@ + slot@ + " LOGICAL "@ + lsn@,
{
    let mut command = String::from_str("START_REPLICATION SLOT ");
    command.append(slot);
    command.append(" LOGICAL ");
    command.append(lsn);
    command
}

} // verus!
