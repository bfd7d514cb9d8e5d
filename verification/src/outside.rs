//! Types and functions of other crates that the machines use, with the contracts
//! that the proofs rest on.

use futures::channel::oneshot;
use instant::Instant;
use libp2p_core::multihash::Multihash;
use libp2p_core::UpgradeInfo;
use libp2p_identity::{Keypair, PeerId};
use libp2p_noise::Error as NoiseError;
use std::collections::{HashSet, VecDeque};
use std::time::Duration;
use vstd::prelude::*;
use vstd::std_specs::cmp::PartialEqSpec;

verus! {

/// The sending half of a one-shot channel, opaque to the proofs.
#[verifier::external_type_specification]
#[verifier::external_body]
#[verifier::reject_recursive_types(T)]
pub struct ExOneshotSender<T>(oneshot::Sender<T>);

/// The receiving half of a one-shot channel, opaque to the proofs.
#[verifier::external_type_specification]
#[verifier::external_body]
#[verifier::reject_recursive_types(T)]
pub struct ExOneshotReceiver<T>(oneshot::Receiver<T>);

/// What a one-shot receiver yields when its sender is gone.
#[verifier::external_type_specification]
#[verifier::external_body]
pub struct ExOneshotCanceled(oneshot::Canceled);

/// A point on the monotonic clock, opaque to the proofs.
#[verifier::external_type_specification]
#[verifier::external_body]
pub struct ExInstant(Instant);

/// The error of an I/O operation, opaque to the proofs.
#[verifier::external_type_specification]
#[verifier::external_body]
pub struct ExIoError(std::io::Error);

/// A multihash, opaque to the proofs.
#[verifier::external_type_specification]
#[verifier::external_body]
pub struct ExMultihash<const S: usize>(Multihash<S>);

/// The identity of a peer, opaque to the proofs.
#[verifier::external_type_specification]
#[verifier::external_body]
pub struct ExPeerId(PeerId);

/// The identity keys of the local peer, opaque to the proofs.
#[verifier::external_type_specification]
#[verifier::external_body]
pub struct ExKeypair(Keypair);

/// The configuration of a noise handshake, opaque to the proofs.
#[verifier::external_type_specification]
#[verifier::external_body]
pub struct ExNoiseConfig(libp2p_noise::Config);

/// The error of a noise handshake, opaque to the proofs.
#[verifier::external_type_specification]
#[verifier::external_body]
pub struct ExNoiseError(NoiseError);

/// `futures::channel::oneshot::channel` makes a new channel on every call and
/// returns its two halves.  Nothing is claimed of them: that they belong together
/// shows only when one half is used.
pub assume_specification<T>[ oneshot::channel::<T> ]() -> (halves: (
    oneshot::Sender<T>,
    oneshot::Receiver<T>,
));

/// The nanoseconds in the longest duration: `u64::MAX` seconds and 999,999,999
/// nanoseconds.
pub const MAX_NANOS: u128 = 18_446_744_073_709_551_615_999_999_999;

/// `instant::Instant::now` reads the clock.  The result depends on when it is called, so
/// nothing is claimed of it.
pub assume_specification[ Instant::now ]() -> (now: Instant);

/// `instant::Instant::saturating_duration_since` returns the time from `earlier` to
/// `instant`, and zero if `earlier` is the later one.  Neither instants nor durations can be
/// looked into, so nothing is claimed of the result.
pub assume_specification[ Instant::saturating_duration_since ](
    instant: &Instant,
    earlier: Instant,
) -> (elapsed: Duration);

/// `Duration::as_nanos` returns the nanoseconds in a duration, which are at most those
/// in the longest one.  A duration cannot be looked into, so no more is claimed.
pub assume_specification[ Duration::as_nanos ](duration: &Duration) -> (nanos: u128)
    ensures
        nanos <= MAX_NANOS,
;

/// `libp2p_noise::Config::new` signs a freshly drawn static key with the identity
/// keys, or fails to.  The key is random, so nothing is claimed of the result.
pub assume_specification[ libp2p_noise::Config::new ](identity: &Keypair) -> (config: Result<
    libp2p_noise::Config,
    NoiseError,
>);

/// `libp2p_noise::Config::with_webtransport_certhashes` returns the configuration
/// with the given certificate hashes in place of the ones it had.  A configuration
/// cannot be looked into, so nothing is claimed of the result.
pub assume_specification[ libp2p_noise::Config::with_webtransport_certhashes ](
    config: libp2p_noise::Config,
    certhashes: HashSet<Multihash<64>>,
) -> (pinned: libp2p_noise::Config);

/// `==` of two peer ids, which compares their multihashes by code and digest.  The
/// answer depends on the two ids alone, and an id equals itself.  Which other ids
/// are equal is left to `eq_spec`.
#[verifier::external_body]
pub(crate) fn same_peer(peer: &PeerId, other: &PeerId) -> (same: bool)
    ensures
        same == peer.eq_spec(other),
        *peer == *other ==> same,
{
    peer == other
}

/// The first name that `libp2p_noise::Config::protocol_info` offers.  The iterator
/// that it returns holds one name, which is `/noise` whatever the configuration.
#[verifier::external_body]
pub(crate) fn first_noise_protocol(config: &libp2p_noise::Config) -> (name: Option<&'static str>)
    ensures
        name is Some,
        name->0@ == "/noise"@,
{
    config.protocol_info().next()
}

/// `VecDeque::capacity`: how many items the queue can hold without allocating,
/// which is never less than what it holds.
#[verifier::external_body]
pub(crate) fn queue_capacity<T>(queue: &VecDeque<T>) -> (capacity: usize)
    ensures
        capacity >= queue@.len(),
{
    queue.capacity()
}

/// `VecDeque::shrink_to_fit`: gives spare memory back and keeps the items and
/// their order.
#[verifier::external_body]
pub(crate) fn shrink_queue<T>(queue: &mut VecDeque<T>)
    ensures
        final(queue)@ == old(queue)@,
{
    queue.shrink_to_fit()
}

} // verus!
