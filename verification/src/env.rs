//! The environment configuration abstraction.
//!
//! An [`EnvironmentConfig`] fixes, per deployment, the concrete types used
//! for account identifiers, balances, content hashes, timestamps and block
//! numbers, an optional chain-extension capability, and the maximum number
//! of indexed topics an emitted event may declare. Components built on top
//! of a configuration depend on it only through this trait, so swapping a
//! binding changes binary layout and validation limits, never control flow.

use vstd::prelude::*;
use crate::identifier::{MyAccountId, MyHash};

verus! {

/// A compile-time binding of the environment's concrete types and limits.
pub trait EnvironmentConfig {
    /// The account identifier type used for callers and mapping keys.
    type AccountId;

    /// The numeric type used for balances and transferred values.
    type Balance;

    /// The content hash type.
    type Hash;

    /// The numeric type used for block timestamps.
    type Timestamp;

    /// The numeric type used for block numbers.
    type BlockNumber;

    /// The chain-extension capability; a no-op capability is an acceptable
    /// binding.
    type ChainExtension;

    /// The configured maximum number of indexed event topics.
    spec fn spec_max_event_topics() -> nat;

    /// The byte width of the bound account identifier type.
    spec fn spec_account_id_bytes() -> nat;

    /// The byte width of the bound content hash type.
    spec fn spec_hash_bytes() -> nat;

    /// Returns the configured maximum number of indexed event topics.
    fn max_event_topics() -> (n: usize)
        ensures
            n as nat == Self::spec_max_event_topics(),
    ;

    /// Returns the byte width of the bound account identifier type.
    fn account_id_bytes() -> (n: usize)
        ensures
            n as nat == Self::spec_account_id_bytes(),
    ;

    /// Returns the byte width of the bound content hash type.
    fn hash_bytes() -> (n: usize)
        ensures
            n as nat == Self::spec_hash_bytes(),
    ;
}

/// The absent chain-extension capability: a deployment that makes no
/// environment-specific host calls.
pub struct NoChainExtension;

/// The environment binding this contract is deployed with: 16-byte account
/// identifiers, 128-bit balances, 32-byte content hashes, 64-bit timestamps
/// and block numbers, at most four indexed event topics, and no chain
/// extension.
pub struct CustomEnv;

impl EnvironmentConfig for CustomEnv {
    type AccountId = MyAccountId;

    type Balance = u128;

    type Hash = MyHash;

    type Timestamp = u64;

    type BlockNumber = u64;

    type ChainExtension = NoChainExtension;

    open spec fn spec_max_event_topics() -> nat {
        4
    }

    open spec fn spec_account_id_bytes() -> nat {
        crate::identifier::ACCOUNT_ID_BYTES as nat
    }

    open spec fn spec_hash_bytes() -> nat {
        crate::identifier::HASH_BYTES as nat
    }

    fn max_event_topics() -> (n: usize) {
        4
    }

    fn account_id_bytes() -> (n: usize) {
        crate::identifier::ACCOUNT_ID_BYTES
    }

    fn hash_bytes() -> (n: usize) {
        crate::identifier::HASH_BYTES
    }
}

/// Law: the deployed binding is internally consistent — the byte widths it
/// declares are exactly the widths of the identifier types it binds, so a
/// value of the bound hash type fills a topic slot of the declared width.
pub proof fn lemma_custom_env_widths_match_bound_types(id: MyAccountId, h: MyHash)
    ensures
        id@.len() == CustomEnv::spec_account_id_bytes(),
        h@.len() == CustomEnv::spec_hash_bytes(),
{
}

/// Whether an event declaring `declared` indexed topics is allowed under a
/// configured maximum of `max`.
pub open spec fn topics_within_limit(declared: nat, max: nat) -> bool {
    declared <= max
}

/// Checks an event's declared topic count against the environment's
/// configured maximum.
pub fn topic_count_ok<E: EnvironmentConfig>(declared: usize) -> (r: bool)
    ensures
        r == topics_within_limit(declared as nat, E::spec_max_event_topics()),
{
    declared <= E::max_event_topics()
}

/// Law: declaring more indexed topics than the environment's configured
/// maximum is rejected for every environment binding, whatever concrete
/// types the binding chooses.
pub proof fn lemma_topic_overflow_rejected<E: EnvironmentConfig>(declared: nat)
    requires
        declared > E::spec_max_event_topics(),
    ensures
        !topics_within_limit(declared, E::spec_max_event_topics()),
{
}

} // verus!
