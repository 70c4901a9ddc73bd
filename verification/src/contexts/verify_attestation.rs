use crate::common::config::Config;
use crate::common::error::{LendingError, LoanOfferError, ParseVaaError, WormholeError};
use crate::common::pubkey::Pubkey;
use crate::states::collateral_payload::{parse_spec, ParsedCollateralPayload};
use crate::states::emitter::{
    is_fresh_sequence, last_consumed_spec, ForeignEmitterRegistry, SequenceLedger,
};
use vstd::prelude::*;

verus! {

/// Whether a message created at `timestamp` is older at `now` than the
/// validity window allows.
pub open spec fn is_expired(now: i64, timestamp: i64, window: u64) -> bool {
    now - timestamp > window
}

/// Why an attested message is turned down, if it is: the first of the checks,
/// in this order, that fails. The emitter is held against the registry, the
/// sequence number against the ledger, the age against the validity window,
/// and only then is the payload read.
pub open spec fn attestation_rejection(
    registry: Map<u16, Pubkey>,
    ledger: Map<(u16, Pubkey), u64>,
    window: u64,
    chain_id: u16,
    emitter: Pubkey,
    sequence: u64,
    timestamp: i64,
    now: i64,
    payload: Seq<u8>,
) -> Option<LendingError> {
    if !registry.contains_key(chain_id) {
        Some(LendingError::Wormhole(WormholeError::NotSupportThisChainId))
    } else if registry[chain_id] != emitter {
        Some(LendingError::Wormhole(WormholeError::InvalidForeignEmitter))
    } else if !is_fresh_sequence(last_consumed_spec(ledger, chain_id, emitter), sequence) {
        Some(LendingError::Wormhole(WormholeError::InvalidSequence))
    } else if is_expired(now, timestamp, window) {
        Some(LendingError::LoanOffer(LoanOfferError::PostedVaaExpired))
    } else {
        match parse_spec(payload) {
            Ok(_) => None,
            Err(e) => Some(LendingError::ParseVaa(e)),
        }
    }
}

/// The verifier of attested messages: the emitters it accepts, and what it
/// has consumed from each.
pub struct AttestationVerifier {
    pub registry: ForeignEmitterRegistry,
    pub ledger: SequenceLedger,
}

impl AttestationVerifier {
    /// A verifier that knows no emitter and has consumed nothing.
    pub fn new() -> (verifier: AttestationVerifier)
        ensures
            verifier.registry@ == Map::<u16, Pubkey>::empty(),
            verifier.ledger@ == Map::<(u16, Pubkey), u64>::empty(),
    {
        AttestationVerifier {
            registry: ForeignEmitterRegistry::new(),
            ledger: SequenceLedger::new(),
        }
    }

    /// Makes `emitter` the emitter of `chain_id`; what has been consumed
    /// stays consumed.
    pub fn register_emitter(&mut self, chain_id: u16, emitter: Pubkey)
        ensures
            final(self).registry@ == old(self).registry@.insert(chain_id, emitter),
            final(self).ledger@ == old(self).ledger@,
    {
        self.registry.register_emitter(chain_id, emitter);
    }

    /// Verifies an attested message and reads its payload.
    ///
    /// The message is accepted exactly when [`attestation_rejection`] finds
    /// nothing against it. Then its fields are returned and its sequence
    /// number becomes the last one consumed from its emitter. A message that
    /// is turned down, for whatever reason, leaves registry and ledger as they
    /// were: the sequence number advances with an accepted message and never
    /// without one.
    pub fn verify_and_parse(
        &mut self,
        config: &Config,
        chain_id: u16,
        emitter: &Pubkey,
        sequence: u64,
        timestamp: i64,
        now: i64,
        payload: &[u8],
    ) -> (result: Result<ParsedCollateralPayload, LendingError>)
        ensures
            final(self).registry@ == old(self).registry@,
            match result {
                Ok(parsed) => {
                    &&& attestation_rejection(
                        old(self).registry@,
                        old(self).ledger@,
                        config.vaa_validity_window,
                        chain_id,
                        *emitter,
                        sequence,
                        timestamp,
                        now,
                        payload@,
                    ) is None
                    &&& parse_spec(payload@) == Ok::<ParsedCollateralPayload, ParseVaaError>(
                        parsed,
                    )
                    &&& final(self).ledger@ == old(self).ledger@.insert(
                        (chain_id, *emitter),
                        sequence,
                    )
                },
                Err(e) => {
                    &&& attestation_rejection(
                        old(self).registry@,
                        old(self).ledger@,
                        config.vaa_validity_window,
                        chain_id,
                        *emitter,
                        sequence,
                        timestamp,
                        now,
                        payload@,
                    ) == Some(e)
                    &&& final(self).ledger@ == old(self).ledger@
                },
            },
    {
        match self.registry.emitter_of(chain_id) {
            None => {
                return Err(LendingError::Wormhole(WormholeError::NotSupportThisChainId));
            },
            Some(registered) => {
                if registered != *emitter {
                    return Err(LendingError::Wormhole(WormholeError::InvalidForeignEmitter));
                }
            },
        }
        let fresh: bool = match self.ledger.last_consumed(chain_id, emitter) {
            Some(consumed) => sequence > consumed,
            None => true,
        };
        if !fresh {
            return Err(LendingError::Wormhole(WormholeError::InvalidSequence));
        }
        if (now as i128) - (timestamp as i128) > config.vaa_validity_window as i128 {
            return Err(LendingError::LoanOffer(LoanOfferError::PostedVaaExpired));
        }
        let parsed: ParsedCollateralPayload = match ParsedCollateralPayload::parse(payload) {
            Ok(parsed) => parsed,
            Err(e) => {
                return Err(LendingError::ParseVaa(e));
            },
        };
        match self.ledger.consume(chain_id, *emitter, sequence) {
            Ok(()) => Ok(parsed),
            Err(e) => Err(LendingError::Wormhole(e)),
        }
    }
}

/// Replay defence: once a message has been accepted, a second one with the
/// same chain, emitter and sequence number is turned down with
/// `InvalidSequence`, whatever its payload, its timestamp, the time or the
/// validity window, and so is one with any lower sequence number.
pub proof fn lemma_replay_rejected(
    registry: Map<u16, Pubkey>,
    ledger: Map<(u16, Pubkey), u64>,
    chain_id: u16,
    emitter: Pubkey,
    sequence: u64,
    window: u64,
    timestamp: i64,
    now: i64,
    payload: Seq<u8>,
    replayed_sequence: u64,
    later_window: u64,
    later_timestamp: i64,
    later_now: i64,
    later_payload: Seq<u8>,
)
    requires
        attestation_rejection(
            registry,
            ledger,
            window,
            chain_id,
            emitter,
            sequence,
            timestamp,
            now,
            payload,
        ) is None,
        replayed_sequence <= sequence,
    ensures
        attestation_rejection(
            registry,
            ledger.insert((chain_id, emitter), sequence),
            later_window,
            chain_id,
            emitter,
            replayed_sequence,
            later_timestamp,
            later_now,
            later_payload,
        ) == Some(LendingError::Wormhole(WormholeError::InvalidSequence)),
{
}

/// Sequence numbers only grow: an accepted message leaves its emitter with a
/// last consumed number strictly above the one before, and leaves every other
/// emitter's number alone.
pub proof fn lemma_sequence_advances(
    registry: Map<u16, Pubkey>,
    ledger: Map<(u16, Pubkey), u64>,
    chain_id: u16,
    emitter: Pubkey,
    sequence: u64,
    window: u64,
    timestamp: i64,
    now: i64,
    payload: Seq<u8>,
    other_chain: u16,
    other_emitter: Pubkey,
)
    requires
        attestation_rejection(
            registry,
            ledger,
            window,
            chain_id,
            emitter,
            sequence,
            timestamp,
            now,
            payload,
        ) is None,
    ensures
        last_consumed_spec(ledger, chain_id, emitter) matches Some(before) ==> before < sequence,
        last_consumed_spec(ledger.insert((chain_id, emitter), sequence), chain_id, emitter)
            == Some(sequence),
        (other_chain, other_emitter) != (chain_id, emitter) ==> last_consumed_spec(
            ledger.insert((chain_id, emitter), sequence),
            other_chain,
            other_emitter,
        ) == last_consumed_spec(ledger, other_chain, other_emitter),
{
}

} // verus!
