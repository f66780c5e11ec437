//! Fixed-size protected records of the replay journal.
//!
//! A record is a clear magic and format version, then a protected body that
//! exposes no lane tag, replay identity or counter.

use crate::bytes::append;
use crate::bytes::append_u16;
use crate::bytes::bytes_equal;
use crate::bytes::into_array;
use crate::bytes::read_array;
use crate::bytes::read_u16;
use crate::protection::AuthenticationDecision;
use crate::protection::ProtectionUnavailable;
use crate::replay_journal::ReplayJournalEntry;
use crate::replay_journal::ReplayJournalHead;
use crate::replay_journal::ReplayJournalState;
use crate::replay_journal::ReplayJournalValueError;
use crate::replay_journal::CURRENT_BODY_BYTES;
use crate::replay_journal::CURRENT_FORMAT_VERSION;
use crate::replay_journal::ENTRY_BODY_BYTES;
use crate::replay_journal::ENTRY_FORMAT_VERSION;
use vstd::prelude::*;

verus! {

pub const RECORD_MAGIC_BYTES: usize = 8;

pub const PROTECTION_OVERHEAD_BYTES: usize = 40;

pub const PROTECTED_START: usize = 10;

pub const CURRENT_PROTECTED_BYTES: usize = 168;

pub const CURRENT_RECORD_BYTES: usize = 178;

pub const ENTRY_PROTECTED_BYTES: usize = 136;

pub const ENTRY_RECORD_BYTES: usize = 146;

/// `ZORJCUR3`.
pub const CURRENT_MAGIC: [u8; 8] = [
    0x5a, 0x4f, 0x52, 0x4a, 0x43, 0x55, 0x52, 0x33,
];

/// `ZORJENT2`.
pub const ENTRY_MAGIC: [u8; 8] = [
    0x5a, 0x4f, 0x52, 0x4a, 0x45, 0x4e, 0x54, 0x32,
];

/// Binding that a record's protection authenticates.
#[derive(Clone, Copy, PartialEq, Eq)]
pub struct ReplayJournalProtectionContext(pub [u8; 32]);

impl ReplayJournalProtectionContext {
    pub fn new(binding: [u8; 32]) -> (context: Self)
        ensures
            context.0 == binding,
    {
        ReplayJournalProtectionContext(binding)
    }

    pub fn as_bytes(&self) -> (bytes: &[u8; 32])
        ensures
            *bytes == self.0,
    {
        &self.0
    }

    /// Redacted rendering for logs.
    pub fn debug_text(&self) -> (text: &'static str)
        ensures
            text@ == "ReplayJournalProtectionContext([REDACTED])"@,
    {
        "ReplayJournalProtectionContext([REDACTED])"
    }
}

/// Public format of a record.
#[derive(Debug, Clone, Copy, PartialEq, Eq, Structural)]
pub enum ReplayJournalRecordKind {
    CurrentStateV3,
    ImmutableEntryV2,
}

impl ReplayJournalRecordKind {
    pub open spec fn spec_tag(self) -> u8 {
        match self {
            Self::CurrentStateV3 => 0,
            Self::ImmutableEntryV2 => 1,
        }
    }

    pub open spec fn spec_format_version(self) -> u16 {
        match self {
            Self::CurrentStateV3 => CURRENT_FORMAT_VERSION,
            Self::ImmutableEntryV2 => ENTRY_FORMAT_VERSION,
        }
    }

    pub fn tag(self) -> (tag: u8)
        ensures
            tag == self.spec_tag(),
    {
        match self {
            Self::CurrentStateV3 => 0,
            Self::ImmutableEntryV2 => 1,
        }
    }

    pub fn format_version(self) -> (version: u16)
        ensures
            version == self.spec_format_version(),
    {
        match self {
            Self::CurrentStateV3 => CURRENT_FORMAT_VERSION,
            Self::ImmutableEntryV2 => ENTRY_FORMAT_VERSION,
        }
    }
}

/// Protects one fixed-size replay-journal record body.
///
/// The protected output is forty bytes longer than the body, so that an
/// implementation can carry its own nonce and authentication material. An
/// implementation authenticates the context, the kind and the format version,
/// and reserves a nonce that is unique across both record kinds under one key.
///
/// Nothing is known of what it seals and opens but what an implementation says
/// in `may_seal`, `may_decline` and `may_open`; one that says nothing promises nothing.
pub trait ReplayJournalRecordProtector {
    /// The protected bytes that sealing a body may give.
    open spec fn may_seal(
        &self,
        context: ReplayJournalProtectionContext,
        kind: ReplayJournalRecordKind,
        plaintext: Seq<u8>,
        protected: Seq<u8>,
    ) -> bool {
        true
    }

    /// A body that sealing may fail on, for an output of that width.
    open spec fn may_decline(
        &self,
        context: ReplayJournalProtectionContext,
        kind: ReplayJournalRecordKind,
        plaintext: Seq<u8>,
        width: nat,
    ) -> bool {
        true
    }

    /// The body that opening protected bytes may give.
    open spec fn may_open(
        &self,
        context: ReplayJournalProtectionContext,
        kind: ReplayJournalRecordKind,
        protected: Seq<u8>,
        plaintext: Seq<u8>,
        reply: Result<AuthenticationDecision, ProtectionUnavailable>,
    ) -> bool {
        true
    }

    fn seal(
        &self,
        context: &ReplayJournalProtectionContext,
        kind: ReplayJournalRecordKind,
        plaintext: &[u8],
        protected: &mut [u8],
    ) -> (result: Result<(), ProtectionUnavailable>)
        ensures
            final(protected)@.len() == old(protected)@.len(),
            result is Ok ==> self.may_seal(*context, kind, plaintext@, final(protected)@),
            result is Err ==> self.may_decline(
                *context,
                kind,
                plaintext@,
                old(protected)@.len(),
            ),
    ;

    fn open(
        &self,
        context: &ReplayJournalProtectionContext,
        kind: ReplayJournalRecordKind,
        protected: &[u8],
        plaintext: &mut [u8],
    ) -> (result: Result<AuthenticationDecision, ProtectionUnavailable>)
        ensures
            final(plaintext)@.len() == old(plaintext)@.len(),
            self.may_open(*context, kind, protected@, final(plaintext)@, result),
    ;
}

/// What the protector seals for a context and a kind it opens to the same body for
/// them, unless it is unavailable.
pub open spec fn opens_what_it_seals<P: ReplayJournalRecordProtector>(protector: P) -> bool {
    forall|
        context: ReplayJournalProtectionContext,
        kind: ReplayJournalRecordKind,
        plaintext: Seq<u8>,
        protected: Seq<u8>,
        opened: Seq<u8>,
        reply: Result<AuthenticationDecision, ProtectionUnavailable>,
    |
        #![trigger protector.may_seal(context, kind, plaintext, protected), protector.may_open(context, kind, protected, opened, reply)]
        protector.may_seal(context, kind, plaintext, protected) && protector.may_open(
            context,
            kind,
            protected,
            opened,
            reply,
        ) && opened.len() == plaintext.len() ==> reply is Err || (reply == Ok::<
            AuthenticationDecision,
            ProtectionUnavailable,
        >(AuthenticationDecision::Accepted) && opened == plaintext)
}

#[derive(Debug, Clone, Copy, PartialEq, Eq, Structural)]
pub enum ReplayJournalRecordError {
    InvalidMagic,
    UnsupportedVersion,
    AuthenticationFailed,
    ProtectionUnavailable,
    InvalidValue(ReplayJournalValueError),
}

impl ReplayJournalRecordError {
    /// Text shown to an operator: the same for every fault.
    pub fn message(&self) -> (text: &'static str)
        ensures
            text@ == "replay journal record is invalid"@,
    {
        "replay journal record is invalid"
    }

    /// The underlying value error, if there is one.
    pub fn source(&self) -> (source: Option<ReplayJournalValueError>)
        ensures
            source == match *self {
                Self::InvalidValue(error) => Some(error),
                _ => None,
            },
    {
        match self {
            Self::InvalidValue(error) => Some(*error),
            _ => None,
        }
    }
}

/// Why a record's clear header is refused.
pub open spec fn header_error(record: Seq<u8>, magic: Seq<u8>, version: u16) -> Option<
    ReplayJournalRecordError,
> {
    if record.subrange(0, 8) != magic {
        Some(ReplayJournalRecordError::InvalidMagic)
    } else if crate::bytes::be_u16(record.subrange(8, 10)) != version {
        Some(ReplayJournalRecordError::UnsupportedVersion)
    } else {
        None
    }
}

/// Checks a record's magic and format version.
pub fn validate_header(
    bytes: &[u8],
    expected_magic: &[u8; RECORD_MAGIC_BYTES],
    expected_version: u16,
) -> (result: Result<(), ReplayJournalRecordError>)
    requires
        bytes@.len() >= PROTECTED_START,
    ensures
        result == match header_error(bytes@, expected_magic@, expected_version) {
            Some(error) => Err(error),
            None => Ok(()),
        },
{
    let magic: [u8; RECORD_MAGIC_BYTES] = read_array(bytes, 0);
    if !bytes_equal(magic.as_slice(), expected_magic.as_slice()) {
        return Err(ReplayJournalRecordError::InvalidMagic);
    }
    if read_u16(bytes, RECORD_MAGIC_BYTES) != expected_version {
        return Err(ReplayJournalRecordError::UnsupportedVersion);
    }
    Ok(())
}

/// A record: magic, version, protected body.
pub open spec fn framed(magic: Seq<u8>, version: u16, protected: Seq<u8>) -> Seq<u8> {
    magic + crate::bytes::u16_be(version) + protected
}

/// A framed record has an accepted header and holds its protected body.
pub proof fn lemma_framed(magic: Seq<u8>, version: u16, protected: Seq<u8>)
    requires
        magic.len() == RECORD_MAGIC_BYTES,
    ensures
        header_error(framed(magic, version, protected), magic, version) is None,
        framed(magic, version, protected).len() == PROTECTED_START + protected.len(),
        framed(magic, version, protected).subrange(
            PROTECTED_START as int,
            PROTECTED_START + protected.len(),
        ) == protected,
{
    let record = framed(magic, version, protected);
    crate::bytes::lemma_u16_round_trip(version);
    assert(record.subrange(0, 8) =~= magic);
    assert(record.subrange(8, 10) =~= crate::bytes::u16_be(version));
    assert(record.subrange(10, (10 + protected.len()) as int) =~= protected);
}

/// Why a head cannot be written.
pub open spec fn current_value_error(state: ReplayJournalState) -> Option<
    ReplayJournalValueError,
> {
    if crate::replay_journal::head_error(state@) is Some {
        crate::replay_journal::head_error(state@)
    } else if !crate::replay_journal::head_is_persisted(state@) {
        Some(ReplayJournalValueError::InvalidState)
    } else {
        None
    }
}

/// Protected record of the journal's head.
#[derive(Clone, Copy, PartialEq, Eq)]
pub struct PersistentReplayJournalCurrentStateV3(pub [u8; CURRENT_RECORD_BYTES]);

/// The record is this head, sealed for the context.
pub open spec fn head_record_holds<P: ReplayJournalRecordProtector>(
    record: Seq<u8>,
    context: ReplayJournalProtectionContext,
    protector: P,
    head: ReplayJournalHead,
) -> bool {
    &&& record.len() == CURRENT_RECORD_BYTES
    &&& header_error(record, CURRENT_MAGIC@, CURRENT_FORMAT_VERSION) is None
    &&& protector.may_seal(
        context,
        ReplayJournalRecordKind::CurrentStateV3,
        crate::replay_journal::head_body(head),
        record.subrange(10, 178),
    )
}

/// The protector may fail to seal this head for the context.
pub open spec fn head_may_be_declined<P: ReplayJournalRecordProtector>(
    context: ReplayJournalProtectionContext,
    protector: P,
    head: ReplayJournalHead,
) -> bool {
    protector.may_decline(
        context,
        ReplayJournalRecordKind::CurrentStateV3,
        crate::replay_journal::head_body(head),
        CURRENT_PROTECTED_BYTES as nat,
    )
}

/// What a head record amounts to, once it was opened.
pub open spec fn opened_head_reads(
    opened: Seq<u8>,
    reply: Result<AuthenticationDecision, ProtectionUnavailable>,
    result: Result<ReplayJournalState, ReplayJournalRecordError>,
) -> bool {
    match reply {
        Err(_) => result == Err::<ReplayJournalState, _>(
            ReplayJournalRecordError::ProtectionUnavailable,
        ),
        Ok(AuthenticationDecision::Rejected) => result == Err::<ReplayJournalState, _>(
            ReplayJournalRecordError::AuthenticationFailed,
        ),
        Ok(AuthenticationDecision::Accepted) => match result {
            Ok(state) => crate::replay_journal::head_body_decodes_to(opened, Ok(state)),
            Err(ReplayJournalRecordError::InvalidValue(error)) =>
                crate::replay_journal::head_body_error(opened) == Some(error),
            Err(_) => false,
        },
    }
}

/// What reading a head record may give.
pub open spec fn current_record_reads<P: ReplayJournalRecordProtector>(
    record: Seq<u8>,
    context: ReplayJournalProtectionContext,
    protector: P,
    result: Result<ReplayJournalState, ReplayJournalRecordError>,
) -> bool {
    match header_error(record, CURRENT_MAGIC@, CURRENT_FORMAT_VERSION) {
        Some(error) => result == Err::<ReplayJournalState, _>(error),
        None => exists|
            opened: Seq<u8>,
            reply: Result<AuthenticationDecision, ProtectionUnavailable>,
        |
            #![trigger protector.may_open(context, ReplayJournalRecordKind::CurrentStateV3, record.subrange(10, 178), opened, reply)]
            protector.may_open(
                context,
                ReplayJournalRecordKind::CurrentStateV3,
                record.subrange(10, 178),
                opened,
                reply,
            ) && opened.len() == CURRENT_BODY_BYTES && opened_head_reads(opened, reply, result),
    }
}

impl PersistentReplayJournalCurrentStateV3 {
    /// Seals one valid head that has something to persist.
    pub fn from_business<P: ReplayJournalRecordProtector>(
        state: &ReplayJournalState,
        context: &ReplayJournalProtectionContext,
        protector: &P,
    ) -> (result: Result<Self, ReplayJournalRecordError>)
        ensures
            match result {
                Ok(record) => current_value_error(*state) is None && head_record_holds(
                    record.0@,
                    *context,
                    *protector,
                    state@,
                ),
                Err(error) => match current_value_error(*state) {
                    Some(fault) => error == ReplayJournalRecordError::InvalidValue(fault),
                    None => error == ReplayJournalRecordError::ProtectionUnavailable
                        && head_may_be_declined(*context, *protector, state@),
                },
            },
    {
        match state.validate() {
            Ok(()) => {},
            Err(error) => {
                return Err(ReplayJournalRecordError::InvalidValue(error));
            },
        }
        if !state.has_persisted_transition() {
            return Err(ReplayJournalRecordError::InvalidValue(ReplayJournalValueError::InvalidState));
        }
        let body = state.canonical_current_body();
        let mut protected: [u8; CURRENT_PROTECTED_BYTES] = [0u8; CURRENT_PROTECTED_BYTES];
        match protector.seal(
            context,
            ReplayJournalRecordKind::CurrentStateV3,
            body.as_slice(),
            &mut protected,
        ) {
            Ok(()) => {},
            Err(_) => {
                return Err(ReplayJournalRecordError::ProtectionUnavailable);
            },
        }
        let mut bytes: Vec<u8> = Vec::new();
        append(&mut bytes, CURRENT_MAGIC.as_slice());
        append_u16(&mut bytes, CURRENT_FORMAT_VERSION);
        append(&mut bytes, protected.as_slice());
        proof {
            assert(bytes@ =~= framed(CURRENT_MAGIC@, CURRENT_FORMAT_VERSION, protected@));
            lemma_framed(CURRENT_MAGIC@, CURRENT_FORMAT_VERSION, protected@);
        }
        Ok(PersistentReplayJournalCurrentStateV3(into_array(&bytes)))
    }

    /// Authenticates and reads one head record.
    ///
    /// No unauthenticated byte reaches the result.
    pub fn into_business<P: ReplayJournalRecordProtector>(
        self,
        context: &ReplayJournalProtectionContext,
        protector: &P,
    ) -> (result: Result<ReplayJournalState, ReplayJournalRecordError>)
        ensures
            current_record_reads(self.0@, *context, *protector, result),
    {
        match validate_header(self.0.as_slice(), &CURRENT_MAGIC, CURRENT_FORMAT_VERSION) {
            Ok(()) => {},
            Err(error) => {
                return Err(error);
            },
        }
        let protected: [u8; CURRENT_PROTECTED_BYTES] = read_array(
            self.0.as_slice(),
            PROTECTED_START,
        );
        let mut body: [u8; CURRENT_BODY_BYTES] = [0u8; CURRENT_BODY_BYTES];
        let reply = protector.open(
            context,
            ReplayJournalRecordKind::CurrentStateV3,
            protected.as_slice(),
            &mut body,
        );
        assert(protector.may_open(
            *context,
            ReplayJournalRecordKind::CurrentStateV3,
            self.0@.subrange(10, 178),
            body@,
            reply,
        ));
        match reply {
            Ok(AuthenticationDecision::Accepted) => {},
            Ok(AuthenticationDecision::Rejected) => {
                return Err(ReplayJournalRecordError::AuthenticationFailed);
            },
            Err(_) => {
                return Err(ReplayJournalRecordError::ProtectionUnavailable);
            },
        }
        match ReplayJournalState::from_body(&body) {
            Ok(state) => Ok(state),
            Err(error) => Err(ReplayJournalRecordError::InvalidValue(error)),
        }
    }

    pub fn as_bytes(&self) -> (bytes: &[u8; CURRENT_RECORD_BYTES])
        ensures
            *bytes == self.0,
    {
        &self.0
    }

    /// Redacted rendering for logs.
    pub fn debug_text(&self) -> (text: &'static str)
        ensures
            text@ == "PersistentReplayJournalCurrentStateV3([REDACTED])"@,
    {
        "PersistentReplayJournalCurrentStateV3([REDACTED])"
    }
}

/// Protected record of one entry.
#[derive(Clone, Copy, PartialEq, Eq)]
pub struct PersistentReplayJournalEntry(pub [u8; ENTRY_RECORD_BYTES]);

/// The record is this entry, sealed for the context.
pub open spec fn entry_record_holds<P: ReplayJournalRecordProtector>(
    record: Seq<u8>,
    context: ReplayJournalProtectionContext,
    protector: P,
    entry: ReplayJournalEntry,
) -> bool {
    &&& record.len() == ENTRY_RECORD_BYTES
    &&& header_error(record, ENTRY_MAGIC@, ENTRY_FORMAT_VERSION) is None
    &&& protector.may_seal(
        context,
        ReplayJournalRecordKind::ImmutableEntryV2,
        entry.body(),
        record.subrange(10, 146),
    )
}

/// The protector may fail to seal this entry for the context.
pub open spec fn entry_may_be_declined<P: ReplayJournalRecordProtector>(
    context: ReplayJournalProtectionContext,
    protector: P,
    entry: ReplayJournalEntry,
) -> bool {
    protector.may_decline(
        context,
        ReplayJournalRecordKind::ImmutableEntryV2,
        entry.body(),
        ENTRY_PROTECTED_BYTES as nat,
    )
}

/// What an entry record amounts to, once it was opened.
pub open spec fn opened_entry_reads(
    opened: Seq<u8>,
    reply: Result<AuthenticationDecision, ProtectionUnavailable>,
    result: Result<ReplayJournalEntry, ReplayJournalRecordError>,
) -> bool {
    match reply {
        Err(_) => result == Err::<ReplayJournalEntry, _>(
            ReplayJournalRecordError::ProtectionUnavailable,
        ),
        Ok(AuthenticationDecision::Rejected) => result == Err::<ReplayJournalEntry, _>(
            ReplayJournalRecordError::AuthenticationFailed,
        ),
        Ok(AuthenticationDecision::Accepted) => match result {
            Ok(entry) => crate::replay_journal::entry_body_decodes_to(opened, Ok(entry)),
            Err(ReplayJournalRecordError::InvalidValue(error)) =>
                crate::replay_journal::entry_body_error(opened) == Some(error),
            Err(_) => false,
        },
    }
}

/// What reading an entry record may give.
pub open spec fn entry_record_reads<P: ReplayJournalRecordProtector>(
    record: Seq<u8>,
    context: ReplayJournalProtectionContext,
    protector: P,
    result: Result<ReplayJournalEntry, ReplayJournalRecordError>,
) -> bool {
    match header_error(record, ENTRY_MAGIC@, ENTRY_FORMAT_VERSION) {
        Some(error) => result == Err::<ReplayJournalEntry, _>(error),
        None => exists|
            opened: Seq<u8>,
            reply: Result<AuthenticationDecision, ProtectionUnavailable>,
        |
            #![trigger protector.may_open(context, ReplayJournalRecordKind::ImmutableEntryV2, record.subrange(10, 146), opened, reply)]
            protector.may_open(
                context,
                ReplayJournalRecordKind::ImmutableEntryV2,
                record.subrange(10, 146),
                opened,
                reply,
            ) && opened.len() == ENTRY_BODY_BYTES && opened_entry_reads(opened, reply, result),
    }
}

impl PersistentReplayJournalEntry {
    /// Seals one entry with a nonzero sequence.
    pub fn from_business<P: ReplayJournalRecordProtector>(
        entry: &ReplayJournalEntry,
        context: &ReplayJournalProtectionContext,
        protector: &P,
    ) -> (result: Result<Self, ReplayJournalRecordError>)
        ensures
            match result {
                Ok(record) => entry.sequence != 0 && entry_record_holds(
                    record.0@,
                    *context,
                    *protector,
                    *entry,
                ),
                Err(error) => if entry.sequence == 0 {
                    error == ReplayJournalRecordError::InvalidValue(
                        ReplayJournalValueError::InvalidState,
                    )
                } else {
                    error == ReplayJournalRecordError::ProtectionUnavailable
                        && entry_may_be_declined(*context, *protector, *entry)
                },
            },
    {
        if entry.sequence == 0 {
            return Err(ReplayJournalRecordError::InvalidValue(ReplayJournalValueError::InvalidState));
        }
        let body = entry.canonical_body();
        let mut protected: [u8; ENTRY_PROTECTED_BYTES] = [0u8; ENTRY_PROTECTED_BYTES];
        match protector.seal(
            context,
            ReplayJournalRecordKind::ImmutableEntryV2,
            body.as_slice(),
            &mut protected,
        ) {
            Ok(()) => {},
            Err(_) => {
                return Err(ReplayJournalRecordError::ProtectionUnavailable);
            },
        }
        let mut bytes: Vec<u8> = Vec::new();
        append(&mut bytes, ENTRY_MAGIC.as_slice());
        append_u16(&mut bytes, ENTRY_FORMAT_VERSION);
        append(&mut bytes, protected.as_slice());
        proof {
            assert(bytes@ =~= framed(ENTRY_MAGIC@, ENTRY_FORMAT_VERSION, protected@));
            lemma_framed(ENTRY_MAGIC@, ENTRY_FORMAT_VERSION, protected@);
        }
        Ok(PersistentReplayJournalEntry(into_array(&bytes)))
    }

    /// Authenticates and reads one entry record.
    ///
    /// No unauthenticated byte reaches the result.
    pub fn into_business<P: ReplayJournalRecordProtector>(
        self,
        context: &ReplayJournalProtectionContext,
        protector: &P,
    ) -> (result: Result<ReplayJournalEntry, ReplayJournalRecordError>)
        ensures
            entry_record_reads(self.0@, *context, *protector, result),
    {
        match validate_header(self.0.as_slice(), &ENTRY_MAGIC, ENTRY_FORMAT_VERSION) {
            Ok(()) => {},
            Err(error) => {
                return Err(error);
            },
        }
        let protected: [u8; ENTRY_PROTECTED_BYTES] = read_array(self.0.as_slice(), PROTECTED_START);
        let mut body: [u8; ENTRY_BODY_BYTES] = [0u8; ENTRY_BODY_BYTES];
        let reply = protector.open(
            context,
            ReplayJournalRecordKind::ImmutableEntryV2,
            protected.as_slice(),
            &mut body,
        );
        assert(protector.may_open(
            *context,
            ReplayJournalRecordKind::ImmutableEntryV2,
            self.0@.subrange(10, 146),
            body@,
            reply,
        ));
        match reply {
            Ok(AuthenticationDecision::Accepted) => {},
            Ok(AuthenticationDecision::Rejected) => {
                return Err(ReplayJournalRecordError::AuthenticationFailed);
            },
            Err(_) => {
                return Err(ReplayJournalRecordError::ProtectionUnavailable);
            },
        }
        match ReplayJournalEntry::from_body(&body) {
            Ok(entry) => Ok(entry),
            Err(error) => Err(ReplayJournalRecordError::InvalidValue(error)),
        }
    }

    pub fn as_bytes(&self) -> (bytes: &[u8; ENTRY_RECORD_BYTES])
        ensures
            *bytes == self.0,
    {
        &self.0
    }

    /// Redacted rendering for logs.
    pub fn debug_text(&self) -> (text: &'static str)
        ensures
            text@ == "PersistentReplayJournalEntry([REDACTED])"@,
    {
        "PersistentReplayJournalEntry([REDACTED])"
    }
}

/// Reading back a sealed head gives that head, if the protector opens what it seals and
/// is available.
pub proof fn sealed_head_reads_back<P: ReplayJournalRecordProtector>(
    record: Seq<u8>,
    context: ReplayJournalProtectionContext,
    protector: P,
    state: ReplayJournalState,
    result: Result<ReplayJournalState, ReplayJournalRecordError>,
)
    requires
        state.limits.max_transactions != 0,
        current_value_error(state) is None,
        opens_what_it_seals(protector),
        head_record_holds(record, context, protector, state@),
        current_record_reads(record, context, protector, result),
    ensures
        result == Ok::<ReplayJournalState, ReplayJournalRecordError>(state) || result == Err::<
            ReplayJournalState,
            _,
        >(ReplayJournalRecordError::ProtectionUnavailable),
{
    let body = crate::replay_journal::head_body(state@);
    assert(body.len() == CURRENT_BODY_BYTES) by {
        reveal(crate::replay_journal::head_body);
    }
    let (opened, reply) = choose|
        opened: Seq<u8>,
        reply: Result<AuthenticationDecision, ProtectionUnavailable>,
    |
        #![trigger protector.may_open(context, ReplayJournalRecordKind::CurrentStateV3, record.subrange(10, 178), opened, reply)]
        protector.may_open(
            context,
            ReplayJournalRecordKind::CurrentStateV3,
            record.subrange(10, 178),
            opened,
            reply,
        ) && opened.len() == CURRENT_BODY_BYTES && opened_head_reads(opened, reply, result);
    assert(reply is Ok ==> opened == body);
    match result {
        Ok(read) => {
            crate::replay_journal::head_body_reads_back(state, Ok(read));
        },
        Err(ReplayJournalRecordError::InvalidValue(error)) => {
            crate::replay_journal::head_body_reads_back(state, Err(error));
        },
        _ => {},
    }
}

/// Reading back a sealed entry gives that entry, if the protector opens what it seals
/// and is available.
pub proof fn sealed_entry_reads_back<P: ReplayJournalRecordProtector>(
    record: Seq<u8>,
    context: ReplayJournalProtectionContext,
    protector: P,
    entry: ReplayJournalEntry,
    result: Result<ReplayJournalEntry, ReplayJournalRecordError>,
)
    requires
        entry.wf(),
        opens_what_it_seals(protector),
        entry_record_holds(record, context, protector, entry),
        entry_record_reads(record, context, protector, result),
    ensures
        result == Ok::<ReplayJournalEntry, ReplayJournalRecordError>(entry) || result == Err::<
            ReplayJournalEntry,
            _,
        >(ReplayJournalRecordError::ProtectionUnavailable),
{
    assert(entry.body().len() == ENTRY_BODY_BYTES) by {
        reveal(ReplayJournalEntry::body);
    }
    let (opened, reply) = choose|
        opened: Seq<u8>,
        reply: Result<AuthenticationDecision, ProtectionUnavailable>,
    |
        #![trigger protector.may_open(context, ReplayJournalRecordKind::ImmutableEntryV2, record.subrange(10, 146), opened, reply)]
        protector.may_open(
            context,
            ReplayJournalRecordKind::ImmutableEntryV2,
            record.subrange(10, 146),
            opened,
            reply,
        ) && opened.len() == ENTRY_BODY_BYTES && opened_entry_reads(opened, reply, result);
    assert(reply is Ok ==> opened == entry.body());
    match result {
        Ok(read) => {
            crate::replay_journal::entry_body_reads_back(entry, Ok(read));
        },
        Err(ReplayJournalRecordError::InvalidValue(error)) => {
            crate::replay_journal::entry_body_reads_back(entry, Err(error));
        },
        _ => {},
    }
}

/// One protected body, with the context and the kind that it was sealed for.
pub struct SealedRecord {
    pub context: ReplayJournalProtectionContext,
    pub kind: ReplayJournalRecordKind,
    pub protected: Seq<u8>,
}

/// The protector accepts only these bodies, each for its own context and kind.
pub open spec fn accepts_only<P: ReplayJournalRecordProtector>(
    protector: P,
    sealed: Set<SealedRecord>,
) -> bool {
    forall|
        context: ReplayJournalProtectionContext,
        kind: ReplayJournalRecordKind,
        protected: Seq<u8>,
        opened: Seq<u8>,
    | #[trigger]
        protector.may_open(
            context,
            kind,
            protected,
            opened,
            Ok(AuthenticationDecision::Accepted),
        ) ==> sealed.contains((SealedRecord { context, kind, protected }))
}

/// A head record that no one sealed is refused: read under another context, in another
/// kind's place, or with any of its protected bytes changed, it does not authenticate
/// under a protector that accepts only what was sealed.
pub proof fn altered_head_is_refused<P: ReplayJournalRecordProtector>(
    record: Seq<u8>,
    context: ReplayJournalProtectionContext,
    protector: P,
    sealed: Set<SealedRecord>,
    result: Result<ReplayJournalState, ReplayJournalRecordError>,
)
    requires
        record.len() == CURRENT_RECORD_BYTES,
        accepts_only(protector, sealed),
        !sealed.contains(
            (SealedRecord {
                context,
                kind: ReplayJournalRecordKind::CurrentStateV3,
                protected: record.subrange(10, CURRENT_RECORD_BYTES as int),
            }),
        ),
        current_record_reads(record, context, protector, result),
    ensures
        match header_error(record, CURRENT_MAGIC@, CURRENT_FORMAT_VERSION) {
            Some(error) => result == Err::<ReplayJournalState, _>(error),
            None => result == Err::<ReplayJournalState, _>(
                ReplayJournalRecordError::AuthenticationFailed,
            ) || result == Err::<ReplayJournalState, _>(
                ReplayJournalRecordError::ProtectionUnavailable,
            ),
        },
{
}

/// An entry record that no one sealed is refused: read under another context, in another
/// kind's place, or with any of its protected bytes changed, it does not authenticate
/// under a protector that accepts only what was sealed.
pub proof fn altered_entry_is_refused<P: ReplayJournalRecordProtector>(
    record: Seq<u8>,
    context: ReplayJournalProtectionContext,
    protector: P,
    sealed: Set<SealedRecord>,
    result: Result<ReplayJournalEntry, ReplayJournalRecordError>,
)
    requires
        record.len() == ENTRY_RECORD_BYTES,
        accepts_only(protector, sealed),
        !sealed.contains(
            (SealedRecord {
                context,
                kind: ReplayJournalRecordKind::ImmutableEntryV2,
                protected: record.subrange(10, ENTRY_RECORD_BYTES as int),
            }),
        ),
        entry_record_reads(record, context, protector, result),
    ensures
        match header_error(record, ENTRY_MAGIC@, ENTRY_FORMAT_VERSION) {
            Some(error) => result == Err::<ReplayJournalEntry, _>(error),
            None => result == Err::<ReplayJournalEntry, _>(
                ReplayJournalRecordError::AuthenticationFailed,
            ) || result == Err::<ReplayJournalEntry, _>(
                ReplayJournalRecordError::ProtectionUnavailable,
            ),
        },
{
}

/// A head that is accepted is valid, has something to persist, and is exactly what was
/// sealed: its canonical body is the body that was opened.
pub proof fn accepted_head_is_canonical<P: ReplayJournalRecordProtector>(
    record: Seq<u8>,
    context: ReplayJournalProtectionContext,
    protector: P,
    state: ReplayJournalState,
)
    requires
        current_record_reads(record, context, protector, Ok(state)),
    ensures
        current_value_error(state) is None,
        state.limits.max_transactions != 0,
        protector.may_open(
            context,
            ReplayJournalRecordKind::CurrentStateV3,
            record.subrange(10, 178),
            crate::replay_journal::head_body(state@),
            Ok(AuthenticationDecision::Accepted),
        ),
{
}

/// The two kinds of record are told apart by tag and by version.
pub proof fn record_kinds_are_told_apart()
    ensures
        ReplayJournalRecordKind::CurrentStateV3.spec_tag() == 0,
        ReplayJournalRecordKind::ImmutableEntryV2.spec_tag() == 1,
        ReplayJournalRecordKind::CurrentStateV3.spec_format_version() == 3,
        ReplayJournalRecordKind::ImmutableEntryV2.spec_format_version() == 2,
{
}

/// A record begins with its magic and the two bytes of its version, and what is protected
/// follows them; a record is refused for its magic before its version, and for nothing else
/// of its header. A framed record is never refused for its header.
pub proof fn header_is_magic_and_version(
    record: Seq<u8>,
    magic: Seq<u8>,
    version: u16,
    protected: Seq<u8>,
)
    requires
        magic.len() == 8,
        record.len() >= 10,
    ensures
        header_error(record, magic, version) is None <==> record.take(8) == magic && record[8]
            * 256 + record[9] == version,
        header_error(record, magic, version) == Some(ReplayJournalRecordError::InvalidMagic)
            <==> record.take(8) != magic,
        header_error(record, magic, version) == Some(ReplayJournalRecordError::UnsupportedVersion)
            <==> record.take(8) == magic && record[8] * 256 + record[9] != version,
        framed(magic, version, protected).len() == 10 + protected.len(),
        framed(magic, version, protected).take(8) == magic,
        framed(magic, version, protected)[8] * 256 + framed(magic, version, protected)[9]
            == version,
        framed(magic, version, protected).skip(10) == protected,
        header_error(framed(magic, version, protected), magic, version) is None,
{
    let whole = framed(magic, version, protected);
    assert(record.subrange(0, 8) =~= record.take(8));
    assert(whole.subrange(0, 8) =~= magic);
    assert(whole.take(8) =~= magic);
    assert(whole.skip(10) =~= protected);
    crate::bytes::lemma_u16_canonical(record.subrange(8, 10));
    crate::bytes::lemma_u16_round_trip(version);
    assert(whole.subrange(8, 10) =~= crate::bytes::u16_be(version));
}

/// A head's record is as wide as heads are, begins with their magic and version, and what
/// follows was sealed over the head's own bytes as a head; an entry's likewise as an entry.
pub proof fn record_is_sealed_over_its_own_body<P: ReplayJournalRecordProtector>(
    record: Seq<u8>,
    context: ReplayJournalProtectionContext,
    protector: P,
    head: ReplayJournalHead,
    entry: ReplayJournalEntry,
)
    ensures
        head_record_holds(record, context, protector, head) ==> {
            &&& record.len() == 178
            &&& record.subrange(0, 8) == CURRENT_MAGIC@
            &&& record[8] == 0 && record[9] == 3
            &&& protector.may_seal(
                context,
                ReplayJournalRecordKind::CurrentStateV3,
                crate::replay_journal::head_body(head),
                record.subrange(10, 178),
            )
        },
        entry_record_holds(record, context, protector, entry) ==> {
            &&& record.len() == 146
            &&& record.subrange(0, 8) == ENTRY_MAGIC@
            &&& record[8] == 0 && record[9] == 2
            &&& protector.may_seal(
                context,
                ReplayJournalRecordKind::ImmutableEntryV2,
                entry.body(),
                record.subrange(10, 146),
            )
        },
        head_may_be_declined(context, protector, head) <==> protector.may_decline(
            context,
            ReplayJournalRecordKind::CurrentStateV3,
            crate::replay_journal::head_body(head),
            168,
        ),
        entry_may_be_declined(context, protector, entry) <==> protector.may_decline(
            context,
            ReplayJournalRecordKind::ImmutableEntryV2,
            entry.body(),
            136,
        ),
{
}

/// What is opened is read exactly where it authenticates and is in its one form; a
/// protector that is not there and a record that does not authenticate are told apart.
pub proof fn opened_record_is_read_where_it_authenticates(
    opened: Seq<u8>,
    reply: Result<AuthenticationDecision, ProtectionUnavailable>,
    head: Result<ReplayJournalState, ReplayJournalRecordError>,
    entry: Result<ReplayJournalEntry, ReplayJournalRecordError>,
)
    requires
        opened_head_reads(opened, reply, head),
        opened_entry_reads(opened, reply, entry),
    ensures
        head == Err::<ReplayJournalState, _>(ReplayJournalRecordError::ProtectionUnavailable)
            <==> reply is Err,
        entry == Err::<ReplayJournalEntry, _>(ReplayJournalRecordError::ProtectionUnavailable)
            <==> reply is Err,
        head == Err::<ReplayJournalState, _>(ReplayJournalRecordError::AuthenticationFailed) <==> (
        reply is Ok && reply->Ok_0 is Rejected),
        entry == Err::<ReplayJournalEntry, _>(ReplayJournalRecordError::AuthenticationFailed)
            <==> (reply is Ok && reply->Ok_0 is Rejected),
        head matches Ok(state) ==> reply is Ok && reply->Ok_0 is Accepted
            && crate::replay_journal::head_body(state@) == opened,
        entry matches Ok(entry) ==> reply is Ok && reply->Ok_0 is Accepted && entry.body()
            == opened,
        reply is Ok && reply->Ok_0 is Accepted ==> {
            &&& head is Ok <==> crate::replay_journal::head_body_error(opened) is None
            &&& entry is Ok <==> crate::replay_journal::entry_body_error(opened) is None
        },
{
}

/// A head can be written exactly where it is in order and would be kept on disk.
pub proof fn written_head_is_in_order(state: ReplayJournalState)
    ensures
        current_value_error(state) is None <==> {
            &&& exists|i: int| 0 <= i < 16 && #[trigger] state.profile_id@[i] > 0
            &&& state.claimed_continuation_count <= state.claimed_request_count
            &&& state.claimed_request_count <= state.committed_sequence
            &&& state.committed_sequence <= state.limits.max_transactions
            &&& state.committed_sequence > 0 || state.maintenance_expiry_bucket_watermark.0 > 0
            &&& state.committed_sequence > 0 || forall|i: int|
                0 <= i < 32 ==> #[trigger] state.entry_chain_digest@[i] == 0
        },
{
    crate::replay_journal::accepted_head_is_in_order(state@);
}

/// The names that the two kinds of record begin with, in plain letters.
pub proof fn record_names_are_in_plain_letters()
    ensures
        CURRENT_MAGIC@.map_values(|byte: u8| byte as char)
            == "ZORJCUR3"@,
        ENTRY_MAGIC@.map_values(|byte: u8| byte as char)
            == "ZORJENT2"@,
{
    reveal_strlit("ZORJCUR3");
    assert(CURRENT_MAGIC@.map_values(|byte: u8| byte as char)
        =~= "ZORJCUR3"@);
    reveal_strlit("ZORJENT2");
    assert(ENTRY_MAGIC@.map_values(|byte: u8| byte as char)
        =~= "ZORJENT2"@);
}

} // verus!
