//! The `Version` message with which a session introduces itself.

use vstd::prelude::*;
use crate::message::{Currency, Nonce, ScanBlock, Version, VersionMessage, VersionMessageView};

verus! {

/// The version of the bitcoin part of the protocol that is announced.
pub open spec fn btc_protocol_version() -> Version {
    Version { major: 1, minor: 0, patch: 0 }
}

/// The introduction of a node of version `current` at `time` (seconds since
/// the epoch) under `nonce`: one entry, for bitcoin, with the height up to
/// which filters are stored and the height of the chain.
pub open spec fn version_message_spec(
    current: Version,
    time: u64,
    nonce: Nonce,
    scan_height: u32,
    chain_height: u32,
) -> VersionMessageView {
    VersionMessageView {
        version: current,
        time,
        nonce,
        scan_blocks: seq![
            ScanBlock {
                currency: Currency::Btc,
                version: btc_protocol_version(),
                scan_height: scan_height as u64,
                height: chain_height as u64,
            },
        ],
    }
}

/// Draws eight bytes from `rand::thread_rng` with `Rng::gen`. Nothing is
/// claimed of them: they differ from call to call.
#[verifier::external_body]
fn fresh_nonce() -> (nonce: Nonce) {
    rand::Rng::gen(&mut rand::thread_rng())
}

/// The introduction under a nonce that the caller chose.
pub fn version_message_with(
    current: Version,
    time: u64,
    nonce: Nonce,
    scan_height: u32,
    chain_height: u32,
) -> (msg: VersionMessage)
    ensures
        msg@ == version_message_spec(current, time, nonce, scan_height, chain_height),
{
    let mut scan_blocks: Vec<ScanBlock> = Vec::new();
    scan_blocks.push(
        ScanBlock {
            currency: Currency::Btc,
            version: Version { major: 1, minor: 0, patch: 0 },
            scan_height: scan_height as u64,
            height: chain_height as u64,
        },
    );
    proof {
        assert(scan_blocks@ =~= version_message_spec(
            current,
            time,
            nonce,
            scan_height,
            chain_height,
        ).scan_blocks);
    }
    VersionMessage { version: current, time, nonce, scan_blocks }
}

/// The introduction under a nonce drawn afresh. Whatever nonce was drawn,
/// the message is the one `version_message_with` builds for it.
pub fn build_version_message(current: Version, time: u64, scan_height: u32, chain_height: u32) -> (msg:
    VersionMessage)
    ensures
        msg@ == version_message_spec(current, time, msg.nonce, scan_height, chain_height),
{
    version_message_with(current, time, fresh_nonce(), scan_height, chain_height)
}

} // verus!
