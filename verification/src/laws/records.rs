//! What settings, database rows and pages say.
use super::numbers::{decimal_text_spells_its_number, number_in};
use crate::config::{may_start, value_or, STARTUP_RETRIES};
use crate::storage::{flag_of, utc_parsed, worker_of_row};
use crate::web::{row_of, StoredBlock, DEFAULT_MINUTES, DEFAULT_WINDOW_SECS, RECENT_BLOCKS};
use vstd::prelude::*;

verus! {

/// A setting is what the environment says, and its default only where that says nothing.
pub proof fn the_environment_decides(value: Option<String>, default: Seq<char>)
    ensures
        value is Some ==> value_or(value, default) == (value->0)@,
        value is None ==> value_or(value, default) == default,
{
}

/// The pool starts on every network but mainnet, and there exactly with a payout address that is
/// not empty.
pub proof fn only_mainnet_needs_an_address(network: Option<String>, payout_address: Option<String>)
    ensures
        ({
            let mainnet = network is Some && (network->0)@ == "mainnet"@;
            let payable = payout_address is Some && (payout_address->0)@.len() > 0;
            may_start(network, payout_address) <==> !mainnet || payable
        }),
{
    reveal_strlit("mainnet");
    assert("mainnet"@.len() == 7);
}

/// The page of blocks asks for fifty; metrics span five minutes and sixty minutes by default; ten
/// failures to get the first job are forgiven.
pub proof fn the_limits_are_these()
    ensures
        RECENT_BLOCKS == 50,
        DEFAULT_WINDOW_SECS == 5 * 60,
        DEFAULT_MINUTES == 60,
        STARTUP_RETRIES == 10,
{
}

/// A worker has the id and the name of its row, is authorized unless its flag is zero, and was
/// last seen when its text says. A flag is one for true and zero for false.
pub proof fn a_worker_is_its_row(
    id: i64,
    name: Seq<char>,
    authorized: i64,
    last_seen: Option<Seq<char>>,
)
    ensures
        ({
            let worker = worker_of_row(id, name, authorized, last_seen);
            &&& worker.id == id
            &&& worker.name == name
            &&& worker.authorized <==> authorized != 0
            &&& last_seen is None ==> worker.last_seen is None
            &&& last_seen is Some ==> worker.last_seen == utc_parsed(last_seen->0)
        }),
        flag_of(true) == 1,
        flag_of(false) == 0,
{
}

/// A block's row shows its height in decimal and its hash, each as a dash where it is not known,
/// and its status and time as they are.
pub proof fn a_row_shows_its_block(block: StoredBlock)
    ensures
        ({
            let row = row_of(block);
            let height = block.0->0;
            &&& block.0 is None ==> row.height == "-"@
            &&& block.0 is Some && height >= 0 ==> row.height[0] != '-' && number_in(row.height, 10)
                == height
            &&& block.0 is Some && height < 0 ==> row.height[0] == '-' && number_in(
                row.height.skip(1),
                10,
            ) == -height
            &&& block.1 is None ==> row.hash == "-"@
            &&& block.1 is Some ==> row.hash == (block.1->0)@
            &&& row.status == block.2@
            &&& row.timestamp == block.3@
        }),
{
    if block.0 is Some {
        decimal_text_spells_its_number(block.0->0 as int);
    }
}

} // verus!
