use zaino_oram::continuation::ContinuationInspection;
use zaino_oram::continuation::ContinuationUse;
use zaino_oram::failure::UniformExternalFailure;
use zaino_oram::instances::InstanceSource;
use zaino_oram::profile::CompiledQueryShape;
use zaino_oram::profile::CompiledReplayPolicy;
use zaino_oram::profile::PrivacyProfile;
use zaino_oram::profile::ProfileMismatch;
use zaino_oram::protection::ProtectionUnavailable;
use zaino_oram::providers::ContinuationTokenProtector;
use zaino_oram::round::ContinuationExpectation;
use zaino_oram::round::ContinuationProtectionContext;
use zaino_oram::round::ContinuationState;
use zaino_oram::round::ContinuationToken;
use zaino_oram::runtime_security::ContinuationReplayPlan;
use zaino_oram::runtime_security::ENVELOPE_NONCE_BYTES;
use zaino_oram::runtime_security::ReplayCommitAuthority;
use zaino_oram::runtime_security::RequestReplayKey;
use zaino_oram::runtime_security::RoundReservationAuthority;
use zaino_oram::runtime_security::SecurityEpochTag;
use zaino_oram::runtime_security::SecurityRoundCapture;
use zaino_oram::security_owner::ActiveSecurityLease;
use zaino_oram::security_owner::OsEntropy;
use zaino_oram::security_owner::OwnedRoundMaterialSource;
use zaino_oram::security_owner::ReplayNamespace;
use zaino_oram::security_owner::ReplayNamespaceSeed;
use zaino_oram::security_owner::RoundClock;
use zaino_oram::security_owner::RoundEntropy;
use zaino_oram::security_owner::RoundMaterialSource;
use zaino_oram::security_owner::RoundMaterialUnavailable;
use zaino_oram::security_owner::RoundReleaseClaim;
use zaino_oram::security_owner::SecurityLeaseIdentity;
use zaino_oram::security_owner::SystemRoundClock;
use zaino_oram::security_owner::clock_reply;
use zaino_oram::security_owner::entropy_reply;
use zaino_oram::security_owner::reserve_round;

/// Entropy stub returning scripted bytes, then failing.
struct ScriptedEntropy {
    draws: Vec<u8>,
    next: usize,
    fail_after: Option<usize>,
}

impl ScriptedEntropy {
    fn new(draws: Vec<u8>) -> Self {
        Self {
            draws,
            next: 0,
            fail_after: None,
        }
    }

    fn failing_after(draws: Vec<u8>, fail_after: usize) -> Self {
        Self {
            draws,
            next: 0,
            fail_after: Some(fail_after),
        }
    }
}

impl RoundEntropy for ScriptedEntropy {
    fn fill(&mut self, bytes: &mut [u8]) -> Result<(), RoundMaterialUnavailable> {
        if self.fail_after.is_some_and(|limit| self.next >= limit) {
            return Err(RoundMaterialUnavailable);
        }
        let fill = *self.draws.get(self.next).ok_or(RoundMaterialUnavailable)?;
        self.next += 1;
        bytes.fill(fill);
        Ok(())
    }
}

/// Clock stub replaying a scripted sequence of observations.
struct ScriptedClock {
    observations: Vec<Option<u64>>,
    next: usize,
}

impl ScriptedClock {
    fn new(observations: Vec<Option<u64>>) -> Self {
        Self {
            observations,
            next: 0,
        }
    }
}

impl RoundClock for ScriptedClock {
    fn now_unix_seconds(&mut self) -> Result<u64, RoundMaterialUnavailable> {
        let observation = *self
            .observations
            .get(self.next)
            .ok_or(RoundMaterialUnavailable)?;
        self.next += 1;
        observation.ok_or(RoundMaterialUnavailable)
    }
}

type EmptyLease = ActiveSecurityLease<(), NamingTokens, (), ()>;

fn test_profile() -> PrivacyProfile {
    PrivacyProfile {
        profile_id: [0x42; 16],
        store_reads: 4,
        recent_snapshot_slots: 4,
        response_slots: 1,
        envelope_bytes: 512,
        continuation_ttl_seconds: 60,
        timeout_bucket_millis: 3,
        replay_policy: CompiledReplayPolicy {
            transaction_capacity: 32,
            expiry_bucket_width_seconds: 60,
            garbage_collection_interval_seconds: 60,
        },
    }
}

/// Names a namespace by folding its seed, and protects nothing.
struct NamingTokens;

impl ContinuationTokenProtector for NamingTokens {
    fn derive_replay_namespace(seed: &ReplayNamespaceSeed) -> ReplayNamespace {
        let mut name = seed.session_binding;
        for (index, byte) in name.iter_mut().enumerate() {
            *byte ^= if index < 16 {
                seed.service_namespace_id[index]
            } else {
                seed.profile_id[index - 16]
            };
        }
        name[0] ^= seed.protocol_version as u8;
        name[1] ^= seed.owner_generation as u8;
        name[2] ^= seed.key_epoch as u8;
        ReplayNamespace(name)
    }

    fn inspect_optional(
        &mut self,
        _token: &Option<ContinuationToken>,
        _context: &ContinuationProtectionContext,
        _expectation: &ContinuationExpectation,
        _namespace: &ReplayNamespace,
        _request_nonce: [u8; ENVELOPE_NONCE_BYTES],
    ) -> ContinuationInspection {
        ContinuationInspection {
            continuation_use: ContinuationUse::ProtectionUnavailable,
            request_key: RequestReplayKey([1; 32]),
            plan: ContinuationReplayPlan::Cover,
        }
    }

    fn issue(
        &mut self,
        _state: &ContinuationState,
        _context: &ContinuationProtectionContext,
    ) -> Result<ContinuationToken, ProtectionUnavailable> {
        Err(ProtectionUnavailable)
    }
}

fn lease() -> EmptyLease {
    let shape = CompiledQueryShape::<1, 512>::new(test_profile()).unwrap();
    let identity = SecurityLeaseIdentity::new(1, [1; 32], [2; 16], 1, [3; 32])
        .ok()
        .unwrap();
    let instance = InstanceSource::new().next_instance().unwrap();
    ActiveSecurityLease::mint(&shape, identity, instance, (), NamingTokens, (), ())
}

fn epoch_tag() -> SecurityEpochTag {
    lease().security_epoch_tag
}

/// Checks that the operating system generator is wired to real entropy rather
/// than a zeroed or constant buffer.
#[test]
fn os_entropy_produces_varying_nonzero_draws() {
    let mut entropy = OsEntropy;
    let mut first = [0_u8; ENVELOPE_NONCE_BYTES];
    let mut second = [0_u8; ENVELOPE_NONCE_BYTES];

    assert!(entropy.fill(&mut first).is_ok());
    assert!(entropy.fill(&mut second).is_ok());

    assert_ne!(first, [0_u8; ENVELOPE_NONCE_BYTES]);
    assert_ne!(second, [0_u8; ENVELOPE_NONCE_BYTES]);
    assert_ne!(first, second);
}

/// The production pairing must produce a usable round end to end.
#[test]
fn os_backed_source_produces_a_distinct_nonce_round() {
    let tag = epoch_tag();
    let mut source = OwnedRoundMaterialSource::new(OsEntropy, SystemRoundClock);

    let material = source.next_round_material(&tag).ok().unwrap();

    assert_ne!(material.response_nonce(), material.token_nonce());
    assert!(material.now_unix_seconds() > 1_700_000_000);
}

#[test]
fn owned_source_draws_two_distinct_nonces_from_entropy() {
    let tag = epoch_tag();
    let mut source = OwnedRoundMaterialSource::new(
        ScriptedEntropy::new(vec![0xa1, 0xb2]),
        ScriptedClock::new(vec![Some(1_700_000_000)]),
    );

    let material = source.next_round_material(&tag).ok().unwrap();

    assert_eq!(material.now_unix_seconds(), 1_700_000_000);
    assert_eq!(material.response_nonce(), [0xa1; ENVELOPE_NONCE_BYTES]);
    assert_eq!(material.token_nonce(), [0xb2; ENVELOPE_NONCE_BYTES]);
}

#[test]
fn owned_source_refuses_when_entropy_is_unavailable() {
    let tag = epoch_tag();
    // The response nonce is drawn; the draw of the token nonce fails.
    let mut source = OwnedRoundMaterialSource::new(
        ScriptedEntropy::failing_after(vec![0xa1, 0xb2], 1),
        ScriptedClock::new(vec![Some(1_700_000_000)]),
    );

    assert!(matches!(
        source.next_round_material(&tag),
        Err(RoundMaterialUnavailable)
    ));
    assert!(source.last_observed_seconds.is_none());
}

#[test]
fn owned_source_refuses_when_the_clock_is_unavailable() {
    let tag = epoch_tag();
    let mut source = OwnedRoundMaterialSource::new(
        ScriptedEntropy::new(vec![0xa1, 0xb2]),
        ScriptedClock::new(vec![None]),
    );

    assert!(matches!(
        source.next_round_material(&tag),
        Err(RoundMaterialUnavailable)
    ));
}

/// A clock that jumps backwards would let a retired reservation window be
/// reused, so the source fails closed rather than trusting the host.
#[test]
fn owned_source_refuses_a_clock_that_moves_backwards() {
    let tag = epoch_tag();
    let mut source = OwnedRoundMaterialSource::new(
        ScriptedEntropy::new(vec![0xa1, 0xb2, 0xc3, 0xd4]),
        ScriptedClock::new(vec![Some(1_700_000_010), Some(1_700_000_009)]),
    );

    assert!(source.next_round_material(&tag).is_ok());
    assert!(matches!(
        source.next_round_material(&tag),
        Err(RoundMaterialUnavailable)
    ));
}

/// Two rounds inside the same second are ordinary, not a rollback.
#[test]
fn owned_source_accepts_a_repeated_second() {
    let tag = epoch_tag();
    let mut source = OwnedRoundMaterialSource::new(
        ScriptedEntropy::new(vec![0xa1, 0xb2, 0xc3, 0xd4]),
        ScriptedClock::new(vec![Some(1_700_000_010), Some(1_700_000_010)]),
    );

    let first = source.next_round_material(&tag).ok().unwrap();
    let second = source.next_round_material(&tag).ok().unwrap();

    assert_eq!(second.now_unix_seconds(), 1_700_000_010);
    assert!(!first
        .security_round()
        .same_capture(second.security_round()));
}

/// Identical draws mean the entropy source is broken. Reusing one nonce for
/// both the response and the continuation token would cross-contaminate two
/// keystreams, so the round fails closed.
#[test]
fn owned_source_refuses_identical_nonce_draws() {
    let tag = epoch_tag();
    let mut source = OwnedRoundMaterialSource::new(
        ScriptedEntropy::new(vec![0x7f, 0x7f]),
        ScriptedClock::new(vec![Some(1_700_000_000)]),
    );

    assert!(matches!(
        source.next_round_material(&tag),
        Err(RoundMaterialUnavailable)
    ));
}

fn claim_of(security_round: SecurityRoundCapture) -> RoundReleaseClaim {
    let response_nonce = [4; ENVELOPE_NONCE_BYTES];
    let token_nonce = [5; ENVELOPE_NONCE_BYTES];
    RoundReleaseClaim {
        security_round,
        reservation_authority: RoundReservationAuthority::new(
            &security_round,
            6,
            response_nonce,
            token_nonce,
        ),
        replay_commit_authority: ReplayCommitAuthority::new(&security_round),
        now_unix_seconds: 6,
        response_nonce,
        token_nonce,
    }
}

#[test]
fn dropping_lease_retires_an_already_minted_release_witness() {
    let mut lease = lease();
    let claim = claim_of(SecurityRoundCapture::new(&lease.security_epoch_tag, 0));
    let witness = lease.release_witness();

    assert!(witness
        .observe_and_match(&mut lease.currentness, &claim)
        .is_ok());
    lease.retire();

    assert!(witness
        .observe_and_match(&mut lease.currentness, &claim)
        .is_err());
    assert_eq!(lease.currentness.observations, 1);
}

#[test]
fn release_claims_match_every_value_of_their_round() {
    let mut lease = lease();
    let witness = lease.release_witness();
    let round = SecurityRoundCapture::new(&lease.security_epoch_tag, 0);
    let other_round = SecurityRoundCapture::new(&lease.security_epoch_tag, 1);
    let other_epoch = SecurityEpochTag::new([3; 32], 8);
    let claim = claim_of(round);

    let mut later = claim;
    later.now_unix_seconds += 1;
    let mut other_response_nonce = claim;
    other_response_nonce.response_nonce[0] ^= 1;
    let mut other_token_nonce = claim;
    other_token_nonce.token_nonce[0] ^= 1;
    let mut other_reservation = claim;
    other_reservation.reservation_authority = claim_of(other_round).reservation_authority;
    let mut other_commit = claim;
    other_commit.replay_commit_authority = ReplayCommitAuthority::new(&other_round);
    let foreign = claim_of(SecurityRoundCapture::new(&other_epoch, 0));
    for refused in [
        later,
        other_response_nonce,
        other_token_nonce,
        other_reservation,
        other_commit,
        foreign,
    ] {
        assert!(witness
            .observe_and_match(&mut lease.currentness, &refused)
            .is_err());
    }
    assert!(witness
        .observe_and_match(&mut lease.currentness, &claim)
        .is_ok());
    assert_eq!(lease.currentness.observations, 7);

    lease.currentness.observations = usize::MAX;
    assert!(witness
        .observe_and_match(&mut lease.currentness, &claim)
        .is_ok());
    assert_eq!(lease.currentness.observations, usize::MAX);
}

#[test]
fn lease_identity_refuses_each_missing_field() {
    let identity = |key_epoch, session: u8, service: u8, generation, epoch: u8| {
        SecurityLeaseIdentity::new(
            key_epoch,
            [session; 32],
            [service; 16],
            generation,
            [epoch; 32],
        )
    };
    assert!(identity(1, 1, 1, 1, 1).is_ok());
    for refused in [
        identity(0, 1, 1, 1, 1),
        identity(1, 0, 1, 1, 1),
        identity(1, 1, 0, 1, 1),
        identity(1, 1, 1, 0, 1),
        identity(1, 1, 1, 1, 0),
    ] {
        assert!(matches!(refused, Err(UniformExternalFailure)));
    }
}

#[test]
fn minted_identity_draws_both_bindings() {
    let identity = SecurityLeaseIdentity::mint(
        9,
        [2; 16],
        3,
        &mut ScriptedEntropy::new(vec![0xa1, 0xb2]),
    )
    .ok()
    .unwrap();
    assert_eq!(identity.session_binding, [0xa1; 32]);
    assert_eq!(identity.security_epoch_binding, [0xb2; 32]);
    assert_eq!(identity.key_epoch, 9);
    assert_eq!(identity.owner_generation, 3);

    for mut entropy in [
        ScriptedEntropy::failing_after(vec![0xa1, 0xb2], 0),
        ScriptedEntropy::failing_after(vec![0xa1, 0xb2], 1),
        ScriptedEntropy::new(vec![0, 0xb2]),
        ScriptedEntropy::new(vec![0xa1, 0]),
    ] {
        assert!(SecurityLeaseIdentity::mint(9, [2; 16], 3, &mut entropy).is_err());
    }

    let first = SecurityLeaseIdentity::mint(9, [2; 16], 3, &mut OsEntropy)
        .ok()
        .unwrap();
    let second = SecurityLeaseIdentity::mint(9, [2; 16], 3, &mut OsEntropy)
        .ok()
        .unwrap();
    assert_ne!(first.session_binding, second.session_binding);
    assert_ne!(first.security_epoch_binding, second.security_epoch_binding);
}

#[test]
fn lease_binds_its_profile_and_identity() {
    let lease = lease();
    assert_eq!(lease.key_epoch(), 1);
    assert_eq!(lease.session_binding(), [1; 32]);
    assert_eq!(lease.profile_id(), &[0x42; 16]);
    let mut name = [0x42; 32];
    name[..16].copy_from_slice(&[2 ^ 1; 16]);
    name[16..].copy_from_slice(&[0x42 ^ 1; 16]);
    name[0] ^= 1;
    name[1] ^= 1;
    name[2] ^= 1;
    assert_eq!(lease.replay_namespace().0, name);
    assert_eq!(
        lease.debug_text(),
        "ActiveSecurityLease { ..REDACTED.. }"
    );
    assert!(lease.release_witness().confirm(&lease.currentness).is_ok());
}

#[test]
fn shapes_refuse_a_profile_of_other_widths() {
    assert_eq!(
        CompiledQueryShape::<2, 512>::new(test_profile()),
        Err(ProfileMismatch)
    );
    assert_eq!(
        CompiledQueryShape::<1, 511>::new(test_profile()),
        Err(ProfileMismatch)
    );
    assert_eq!(
        test_profile().validate_recent_snapshot_slots(5),
        Err(ProfileMismatch)
    );
    assert_eq!(test_profile().combined_scan_slots(), Ok(8));
}

#[test]
fn reserved_round_keeps_its_draws() {
    let round = SecurityRoundCapture::new(&epoch_tag(), 3);
    let material = reserve_round(Some(5), 5, [1; 24], [2; 24], round)
        .ok()
        .unwrap();
    let (now, response_nonce, token_nonce, security_round, authority) = material.into_parts();
    assert_eq!(now, 5);
    assert_eq!(response_nonce, [1; 24]);
    assert_eq!(token_nonce, [2; 24]);
    assert!(security_round.same_capture(&round));
    assert!(authority.matches(&epoch_tag(), &round, 5, &[1; 24], &[2; 24]));
    assert!(reserve_round(Some(6), 5, [1; 24], [2; 24], round).is_err());
    assert!(reserve_round(None, 5, [1; 24], [1; 24], round).is_err());
}

/// Any reading at or before this constant of 2023 would mean that the clock is not
/// wired to a real one.
#[test]
fn system_clock_reports_a_plausible_present() {
    let observed = SystemRoundClock
        .now_unix_seconds()
        .expect("host clock must be readable");

    assert!(observed > 1_700_000_000);
}

#[test]
fn host_replies_come_through_as_they_are() {
    assert_eq!(entropy_reply(true), Ok(()));
    assert_eq!(entropy_reply(false), Err(RoundMaterialUnavailable));
    assert_eq!(clock_reply(Some(1_700_000_000)), Ok(1_700_000_000));
    assert_eq!(clock_reply(None), Err(RoundMaterialUnavailable));
}
