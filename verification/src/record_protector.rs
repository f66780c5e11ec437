//! Authenticated encryption of replay-journal records at rest.
//!
//! A protected record is a nonce, an authentication tag, and the ciphertext.
//! The associated data binds the record's domain, format version, kind and
//! protection context.

use crate::bytes::append;
use crate::bytes::append_u16;
use crate::bytes::read_array;
use crate::os_entropy::fill_from_os;
use crate::protection::AuthenticationDecision;
use crate::protection::ProtectionUnavailable;
use crate::replay_record::ReplayJournalProtectionContext;
use crate::replay_record::ReplayJournalRecordKind;
use crate::replay_record::ReplayJournalRecordProtector;
use crate::replay_record::SealedRecord;
use crate::replay_record::PROTECTION_OVERHEAD_BYTES;
use vstd::prelude::*;

verus! {

pub const KEY_BYTES: usize = 32;

pub const NONCE_BYTES: usize = 24;

pub const AUTHENTICATION_BYTES: usize = 16;

/// Offset of the sealed body within one protected record.
pub const CIPHERTEXT_START: usize = 40;

/// One XChaCha20-Poly1305 key.
///
/// Nothing is known of what it seals and opens but what an implementation says
/// in `may_seal`, `may_decline` and `may_open`; one that says nothing promises nothing.
pub trait XChaCha20ProtectionKey {
    /// The ciphertext and the tag that sealing a body may give.
    open spec fn may_seal(
        &self,
        associated_data: Seq<u8>,
        nonce: Seq<u8>,
        plaintext: Seq<u8>,
        ciphertext: Seq<u8>,
        authentication: Seq<u8>,
    ) -> bool {
        true
    }

    /// A body that sealing may fail on.
    open spec fn may_decline(
        &self,
        associated_data: Seq<u8>,
        nonce: Seq<u8>,
        plaintext: Seq<u8>,
    ) -> bool {
        true
    }

    /// The body that opening a ciphertext may give.
    open spec fn may_open(
        &self,
        associated_data: Seq<u8>,
        nonce: Seq<u8>,
        ciphertext: Seq<u8>,
        authentication: Seq<u8>,
        plaintext: Seq<u8>,
        reply: Result<AuthenticationDecision, ProtectionUnavailable>,
    ) -> bool {
        true
    }

    /// Encrypts the body in place and returns its tag.
    fn seal(
        &self,
        associated_data: &[u8],
        nonce: &[u8; NONCE_BYTES],
        body: &mut [u8],
    ) -> (result: Result<[u8; AUTHENTICATION_BYTES], ProtectionUnavailable>)
        ensures
            final(body)@.len() == old(body)@.len(),
            result matches Ok(authentication) ==> self.may_seal(
                associated_data@,
                nonce@,
                old(body)@,
                final(body)@,
                authentication@,
            ),
            result is Err ==> self.may_decline(associated_data@, nonce@, old(body)@),
    ;

    /// Decrypts the body in place if its tag is right.
    fn open(
        &self,
        associated_data: &[u8],
        nonce: &[u8; NONCE_BYTES],
        body: &mut [u8],
        authentication: &[u8; AUTHENTICATION_BYTES],
    ) -> (result: Result<AuthenticationDecision, ProtectionUnavailable>)
        ensures
            final(body)@.len() == old(body)@.len(),
            self.may_open(
                associated_data@,
                nonce@,
                old(body)@,
                authentication@,
                final(body)@,
                result,
            ),
    ;
}

/// What the key seals under a nonce and associated data it opens to the same body under
/// them, unless it is unavailable.
pub open spec fn key_opens_what_it_seals<K: XChaCha20ProtectionKey>(key: K) -> bool {
    forall|
        associated_data: Seq<u8>,
        nonce: Seq<u8>,
        plaintext: Seq<u8>,
        ciphertext: Seq<u8>,
        authentication: Seq<u8>,
        opened: Seq<u8>,
        reply: Result<AuthenticationDecision, ProtectionUnavailable>,
    |
        #![trigger key.may_seal(associated_data, nonce, plaintext, ciphertext, authentication), key.may_open(associated_data, nonce, ciphertext, authentication, opened, reply)]
        key.may_seal(associated_data, nonce, plaintext, ciphertext, authentication)
            && key.may_open(associated_data, nonce, ciphertext, authentication, opened, reply)
            ==> reply is Err || (reply == Ok::<AuthenticationDecision, ProtectionUnavailable>(
            AuthenticationDecision::Accepted,
        ) && opened == plaintext)
}

/// Supplies one unpredictable nonce per sealed journal record.
///
/// Injected rather than drawn inline so the exhaustion and repetition paths
/// stay testable.
pub trait JournalRecordNonces {
    /// The replies that a draw may give.
    open spec fn may_supply(
        &self,
        reply: Result<[u8; NONCE_BYTES], ProtectionUnavailable>,
    ) -> bool {
        true
    }

    fn next_nonce(&self) -> (reply: Result<[u8; NONCE_BYTES], ProtectionUnavailable>)
        ensures
            self.may_supply(reply),
    ;
}

/// The nonce that a draw gave, if the generator filled it.
pub fn supplied_nonce(filled: bool, nonce: [u8; NONCE_BYTES]) -> (reply: Result<
    [u8; NONCE_BYTES],
    ProtectionUnavailable,
>)
    ensures
        reply == if filled {
            Ok(nonce)
        } else {
            Err(ProtectionUnavailable)
        },
{
    if filled {
        Ok(nonce)
    } else {
        Err(ProtectionUnavailable)
    }
}

/// Draws record nonces from the operating system generator.
pub struct OsJournalRecordNonces;

impl JournalRecordNonces for OsJournalRecordNonces {
    fn next_nonce(&self) -> Result<[u8; NONCE_BYTES], ProtectionUnavailable> {
        let mut nonce: [u8; NONCE_BYTES] = [0u8; NONCE_BYTES];
        let filled = fill_from_os(&mut nonce);
        supplied_nonce(filled, nonce)
    }
}

/// Overwrites every byte with zero.
fn clear(bytes: &mut [u8])
    ensures
        final(bytes)@ == crate::bytes::zeros(old(bytes)@.len()),
{
    let length: usize = bytes.len();
    let mut index: usize = 0;
    while index < length
        invariant
            index <= length,
            length == bytes@.len(),
            bytes@.len() == old(bytes)@.len(),
            forall|j: int| 0 <= j < index ==> bytes@[j] == 0,
        decreases length - index,
    {
        bytes[index] = 0;
        index = index + 1;
    }
    assert(bytes@ =~= crate::bytes::zeros(old(bytes)@.len()));
}

/// One journal record key paired with the nonce source that keeps it safe.
pub struct XChaCha20ReplayJournalRecordProtector<K, N> {
    /// Domain that separates journal records from every other use of the cipher.
    pub domain: Vec<u8>,
    pub key: K,
    pub nonces: N,
}

/// Composes the record protector over one journal record key.
pub fn record_protector<K: XChaCha20ProtectionKey, N: JournalRecordNonces>(
    domain: Vec<u8>,
    key: K,
    nonces: N,
) -> (protector: XChaCha20ReplayJournalRecordProtector<K, N>)
    ensures
        protector.domain == domain,
        protector.key == key,
        protector.nonces == nonces,
{
    XChaCha20ReplayJournalRecordProtector { domain, key, nonces }
}

impl<K, N> XChaCha20ReplayJournalRecordProtector<K, N> {
    /// Redacted rendering for logs.
    pub fn debug_text(&self) -> (text: &'static str)
        ensures
            text@ == "XChaCha20ReplayJournalRecordProtector { ..REDACTED.. }"@,
    {
        "XChaCha20ReplayJournalRecordProtector { ..REDACTED.. }"
    }
}

/// Associated data of one record.
pub open spec fn record_associated_data(
    domain: Seq<u8>,
    context: ReplayJournalProtectionContext,
    kind: ReplayJournalRecordKind,
) -> Seq<u8> {
    domain + crate::bytes::u16_be(kind.spec_format_version()) + seq![kind.spec_tag()] + context.0@
}

pub fn associated_data(
    domain: &[u8],
    context: &ReplayJournalProtectionContext,
    kind: ReplayJournalRecordKind,
) -> (bytes: Vec<u8>)
    ensures
        bytes@ == record_associated_data(domain@, *context, kind),
{
    let mut bytes: Vec<u8> = Vec::new();
    append(&mut bytes, domain);
    append_u16(&mut bytes, kind.format_version());
    bytes.push(kind.tag());
    append(&mut bytes, context.as_bytes().as_slice());
    assert(bytes@ =~= record_associated_data(domain@, *context, kind));
    bytes
}

/// Under one domain, the associated data names the kind and the context.
pub proof fn associated_data_binds_kind_and_context(
    domain: Seq<u8>,
    left_context: ReplayJournalProtectionContext,
    left_kind: ReplayJournalRecordKind,
    right_context: ReplayJournalProtectionContext,
    right_kind: ReplayJournalRecordKind,
)
    requires
        record_associated_data(domain, left_context, left_kind) == record_associated_data(
            domain,
            right_context,
            right_kind,
        ),
    ensures
        left_kind == right_kind,
        left_context == right_context,
{
    let left = record_associated_data(domain, left_context, left_kind);
    let right = record_associated_data(domain, right_context, right_kind);
    let start = domain.len() as int;
    assert(left[start + 2] == left_kind.spec_tag());
    assert(right[start + 2] == right_kind.spec_tag());
    assert(left.subrange(start + 3, start + 35) =~= left_context.0@);
    assert(right.subrange(start + 3, start + 35) =~= right_context.0@);
    crate::bytes::lemma_array_extensional(left_context.0, right_context.0);
}

/// A protector whose key opens what it seals opens what it seals.
pub proof fn sound_key_makes_a_sound_protector<K: XChaCha20ProtectionKey, N: JournalRecordNonces>(
    protector: XChaCha20ReplayJournalRecordProtector<K, N>,
)
    requires
        key_opens_what_it_seals(protector.key),
    ensures
        crate::replay_record::opens_what_it_seals(protector),
{
}

/// The key accepts only these records, each under the nonce, the tag and the associated
/// data that it was sealed with.
pub open spec fn key_accepts_only<K: XChaCha20ProtectionKey>(
    key: K,
    domain: Seq<u8>,
    sealed: Set<SealedRecord>,
) -> bool {
    forall|
        associated_data: Seq<u8>,
        nonce: Seq<u8>,
        ciphertext: Seq<u8>,
        authentication: Seq<u8>,
        opened: Seq<u8>,
    | #[trigger]
        key.may_open(
            associated_data,
            nonce,
            ciphertext,
            authentication,
            opened,
            Ok(AuthenticationDecision::Accepted),
        ) ==> exists|record: SealedRecord| #[trigger]
            sealed.contains(record) && record.protected.len() >= CIPHERTEXT_START
                && associated_data == record_associated_data(domain, record.context, record.kind)
                && nonce == record.protected.subrange(0, 24) && authentication
                == record.protected.subrange(24, 40) && ciphertext == record.protected.subrange(
                40,
                record.protected.len() as int,
            )
}

/// A protector whose key accepts only what was sealed refuses every other record: one of
/// another context, of another kind, or with any byte changed.
pub proof fn strict_key_makes_a_strict_protector<
    K: XChaCha20ProtectionKey,
    N: JournalRecordNonces,
>(protector: XChaCha20ReplayJournalRecordProtector<K, N>, sealed: Set<SealedRecord>)
    requires
        key_accepts_only(protector.key, protector.domain@, sealed),
    ensures
        crate::replay_record::accepts_only(protector, sealed),
{
    assert forall|
        context: ReplayJournalProtectionContext,
        kind: ReplayJournalRecordKind,
        protected: Seq<u8>,
        opened: Seq<u8>,
    | #[trigger]
        protector.may_open(
            context,
            kind,
            protected,
            opened,
            Ok(AuthenticationDecision::Accepted),
        ) implies sealed.contains((SealedRecord { context, kind, protected })) by {
        let data = record_associated_data(protector.domain@, context, kind);
        let body = choose|body: Seq<u8>| #[trigger]
            protector.key.may_open(
                data,
                protected.subrange(0, 24),
                protected.subrange(40, protected.len() as int),
                protected.subrange(24, 40),
                body,
                Ok(AuthenticationDecision::Accepted),
            ) && opened == body;
        let record = choose|record: SealedRecord| #[trigger]
            sealed.contains(record) && record.protected.len() >= CIPHERTEXT_START && data
                == record_associated_data(protector.domain@, record.context, record.kind)
                && protected.subrange(0, 24) == record.protected.subrange(0, 24)
                && protected.subrange(24, 40) == record.protected.subrange(24, 40)
                && protected.subrange(40, protected.len() as int) == record.protected.subrange(
                40,
                record.protected.len() as int,
            );
        associated_data_binds_kind_and_context(
            protector.domain@,
            context,
            kind,
            record.context,
            record.kind,
        );
        assert(protected =~= protected.subrange(0, 24) + protected.subrange(24, 40)
            + protected.subrange(40, protected.len() as int));
        assert(record.protected =~= record.protected.subrange(0, 24)
            + record.protected.subrange(24, 40) + record.protected.subrange(
            40,
            record.protected.len() as int,
        ));
        assert(record == (SealedRecord { context, kind, protected }));
    }
}

/// A protector opens exactly what was sealed. A record that it sealed opens, for the context
/// and kind that it was sealed for, to the body that was sealed; any other record is
/// refused and leaves only zeros. An unavailable key and a buffer of the wrong width accept
/// nothing.
pub proof fn protector_opens_exactly_what_was_sealed<
    K: XChaCha20ProtectionKey,
    N: JournalRecordNonces,
>(
    protector: XChaCha20ReplayJournalRecordProtector<K, N>,
    sealed: Set<SealedRecord>,
    context: ReplayJournalProtectionContext,
    kind: ReplayJournalRecordKind,
    body: Seq<u8>,
    protected: Seq<u8>,
    opened: Seq<u8>,
    reply: Result<AuthenticationDecision, ProtectionUnavailable>,
)
    requires
        key_opens_what_it_seals(protector.key),
        key_accepts_only(protector.key, protector.domain@, sealed),
        protector.may_open(context, kind, protected, opened, reply),
    ensures
        protected.len() != opened.len() + PROTECTION_OVERHEAD_BYTES ==> reply is Err,
        protector.may_seal(context, kind, body, protected) && reply is Ok ==> reply == Ok::<
            AuthenticationDecision,
            ProtectionUnavailable,
        >(AuthenticationDecision::Accepted) && opened == body,
        !sealed.contains((SealedRecord { context, kind, protected })) && reply is Ok ==> reply
            == Ok::<AuthenticationDecision, ProtectionUnavailable>(
            AuthenticationDecision::Rejected,
        ) && opened == crate::bytes::zeros(opened.len()),
{
    sound_key_makes_a_sound_protector(protector);
    strict_key_makes_a_strict_protector(protector, sealed);
}

/// Copies the contents of one slice over another of the same length.
fn copy_into(target: &mut [u8], start: usize, source: &[u8])
    requires
        start + source@.len() <= old(target)@.len(),
    ensures
        final(target)@ == old(target)@.take(start as int) + source@ + old(target)@.skip(
            start + source@.len(),
        ),
{
    let length: usize = source.len();
    let limit: usize = target.len();
    let mut index: usize = 0;
    while index < length
        invariant
            index <= length,
            length == source@.len(),
            limit == target@.len(),
            start + length <= limit,
            target@.len() == old(target)@.len(),
            forall|j: int|
                0 <= j < target@.len() ==> target@[j] == if start <= j < start + index {
                    source@[j - start]
                } else {
                    old(target)@[j]
                },
        decreases length - index,
    {
        target[start + index] = source[index];
        index = index + 1;
    }
    assert(target@ =~= old(target)@.take(start as int) + source@ + old(target)@.skip(
        start + source@.len(),
    ));
}

impl<K: XChaCha20ProtectionKey, N: JournalRecordNonces> ReplayJournalRecordProtector
    for XChaCha20ReplayJournalRecordProtector<K, N> {
    /// A sealed record is a supplied nonce, a tag, and what the key made of the body under
    /// that nonce and the record's associated data.
    open spec fn may_seal(
        &self,
        context: ReplayJournalProtectionContext,
        kind: ReplayJournalRecordKind,
        plaintext: Seq<u8>,
        protected: Seq<u8>,
    ) -> bool {
        protected.len() == plaintext.len() + PROTECTION_OVERHEAD_BYTES && self.key.may_seal(
            record_associated_data(self.domain@, context, kind),
            protected.subrange(0, 24),
            plaintext,
            protected.subrange(40, protected.len() as int),
            protected.subrange(24, 40),
        ) && exists|nonce: [u8; NONCE_BYTES]|
            protected.subrange(0, 24) == nonce@ && #[trigger] self.nonces.may_supply(Ok(nonce))
    }

    /// Sealing fails on an output of the wrong width, without a nonce, and where the key
    /// fails on the body under the nonce and the record's associated data.
    open spec fn may_decline(
        &self,
        context: ReplayJournalProtectionContext,
        kind: ReplayJournalRecordKind,
        plaintext: Seq<u8>,
        width: nat,
    ) -> bool {
        width != plaintext.len() + PROTECTION_OVERHEAD_BYTES || exists|
            reply: Result<[u8; NONCE_BYTES], ProtectionUnavailable>,
        | #[trigger]
            self.nonces.may_supply(reply) && match reply {
                Ok(nonce) => self.key.may_decline(
                    record_associated_data(self.domain@, context, kind),
                    nonce@,
                    plaintext,
                ),
                Err(_) => true,
            }
    }

    /// An opened record is what the key made of it; a rejected one leaves only zeros.
    open spec fn may_open(
        &self,
        context: ReplayJournalProtectionContext,
        kind: ReplayJournalRecordKind,
        protected: Seq<u8>,
        plaintext: Seq<u8>,
        reply: Result<AuthenticationDecision, ProtectionUnavailable>,
    ) -> bool {
        if protected.len() != plaintext.len() + PROTECTION_OVERHEAD_BYTES {
            reply is Err
        } else {
            exists|opened: Seq<u8>| #[trigger]
                self.key.may_open(
                    record_associated_data(self.domain@, context, kind),
                    protected.subrange(0, 24),
                    protected.subrange(40, protected.len() as int),
                    protected.subrange(24, 40),
                    opened,
                    reply,
                ) && match reply {
                    Ok(AuthenticationDecision::Accepted) => plaintext == opened,
                    Ok(AuthenticationDecision::Rejected) => plaintext == crate::bytes::zeros(
                        plaintext.len(),
                    ),
                    Err(_) => true,
                }
        }
    }

    /// Seals the plaintext behind a fresh nonce.
    ///
    /// Buffers of the wrong length are refused before a nonce is drawn. A failure leaves
    /// the output as it was.
    fn seal(
        &self,
        context: &ReplayJournalProtectionContext,
        kind: ReplayJournalRecordKind,
        plaintext: &[u8],
        protected: &mut [u8],
    ) -> (result: Result<(), ProtectionUnavailable>)
        ensures
            old(protected)@.len() != plaintext@.len() + PROTECTION_OVERHEAD_BYTES ==> result is Err,
            result is Err ==> final(protected)@ == old(protected)@,
    {
        if protected.len() < PROTECTION_OVERHEAD_BYTES || protected.len()
            - PROTECTION_OVERHEAD_BYTES != plaintext.len() {
            return Err(ProtectionUnavailable);
        }
        let reply = self.nonces.next_nonce();
        assert(self.nonces.may_supply(reply));
        let nonce = match reply {
            Ok(nonce) => nonce,
            Err(error) => {
                return Err(error);
            },
        };
        let mut body: Vec<u8> = Vec::new();
        append(&mut body, plaintext);
        assert(body@ =~= plaintext@);
        let data = associated_data(self.domain.as_slice(), context, kind);
        let authentication = match self.key.seal(
            data.as_slice(),
            &nonce,
            body.as_mut_slice(),
        ) {
            Ok(authentication) => authentication,
            Err(error) => {
                return Err(error);
            },
        };
        copy_into(protected, 0, nonce.as_slice());
        copy_into(protected, NONCE_BYTES, authentication.as_slice());
        copy_into(protected, CIPHERTEXT_START, body.as_slice());
        assert(protected@.subrange(0, 24) =~= nonce@);
        assert(protected@.subrange(24, 40) =~= authentication@);
        assert(protected@.subrange(40, protected@.len() as int) =~= body@);
        Ok(())
    }

    /// Opens a protected record, and leaves only zeros behind if it is rejected.
    ///
    /// Nothing unauthenticated is written: a failure leaves the output as it was.
    fn open(
        &self,
        context: &ReplayJournalProtectionContext,
        kind: ReplayJournalRecordKind,
        protected: &[u8],
        plaintext: &mut [u8],
    ) -> (result: Result<AuthenticationDecision, ProtectionUnavailable>)
        ensures
            protected@.len() != old(plaintext)@.len() + PROTECTION_OVERHEAD_BYTES ==> result is Err,
            result is Err ==> final(plaintext)@ == old(plaintext)@,
            result matches Ok(AuthenticationDecision::Rejected) ==> final(plaintext)@
                == crate::bytes::zeros(old(plaintext)@.len()),
    {
        if protected.len() < PROTECTION_OVERHEAD_BYTES || protected.len()
            - PROTECTION_OVERHEAD_BYTES != plaintext.len() {
            return Err(ProtectionUnavailable);
        }
        let nonce: [u8; NONCE_BYTES] = read_array(protected, 0);
        let authentication: [u8; AUTHENTICATION_BYTES] = read_array(protected, NONCE_BYTES);
        let mut body: Vec<u8> = Vec::new();
        let (_, sealed) = protected.split_at(CIPHERTEXT_START);
        append(&mut body, sealed);
        assert(body@ =~= protected@.subrange(40, protected@.len() as int));
        let data = associated_data(self.domain.as_slice(), context, kind);
        let reply = self.key.open(data.as_slice(), &nonce, body.as_mut_slice(), &authentication);
        assert(self.key.may_open(
            record_associated_data(self.domain@, *context, kind),
            protected@.subrange(0, 24),
            protected@.subrange(40, protected@.len() as int),
            protected@.subrange(24, 40),
            body@,
            reply,
        ));
        match reply {
            Ok(AuthenticationDecision::Accepted) => {
                copy_into(plaintext, 0, body.as_slice());
                assert(plaintext@ =~= body@);
                Ok(AuthenticationDecision::Accepted)
            },
            Ok(AuthenticationDecision::Rejected) => {
                clear(plaintext);
                Ok(AuthenticationDecision::Rejected)
            },
            Err(error) => Err(error),
        }
    }
}

/// What a record's protection authenticates is the domain, the two bytes of the kind's
/// version, the kind's tag and the context, in this order.
pub proof fn associated_data_is_in_order(
    domain: Seq<u8>,
    context: ReplayJournalProtectionContext,
    kind: ReplayJournalRecordKind,
)
    ensures
        ({
            let data = record_associated_data(domain, context, kind);
            let start = domain.len() as int;
            &&& data.len() == start + 35
            &&& data.take(start) == domain
            &&& kind is CurrentStateV3 ==> data[start] == 0 && data[start + 1] == 3 && data[start
                + 2] == 0
            &&& kind is ImmutableEntryV2 ==> data[start] == 0 && data[start + 1] == 2 && data[start
                + 2] == 1
            &&& data.skip(start + 3) == context.0@
        }),
{
    let data = record_associated_data(domain, context, kind);
    let start = domain.len() as int;
    assert(data.take(start) =~= domain);
    assert(data.skip(start + 3) =~= context.0@);
}

/// A protected record is a nonce that was supplied, the authentication and the ciphertext,
/// in this order, sealed under the record's own kind and context.
pub proof fn protected_record_is_in_order<K: XChaCha20ProtectionKey, N: JournalRecordNonces>(
    protector: XChaCha20ReplayJournalRecordProtector<K, N>,
    context: ReplayJournalProtectionContext,
    kind: ReplayJournalRecordKind,
    plaintext: Seq<u8>,
    protected: Seq<u8>,
)
    requires
        protector.may_seal(context, kind, plaintext, protected),
    ensures
        protected.len() == plaintext.len() + 40,
        exists|nonce: [u8; NONCE_BYTES]|
            #![trigger protector.nonces.may_supply(Ok(nonce))]
            protector.nonces.may_supply(Ok(nonce)) && nonce@ == protected.take(24)
                && protector.key.may_seal(
                record_associated_data(protector.domain@, context, kind),
                nonce@,
                plaintext,
                protected.skip(40),
                protected.subrange(24, 40),
            ),
{
    assert(protected.take(24) =~= protected.subrange(0, 24));
    assert(protected.skip(40) =~= protected.subrange(40, protected.len() as int));
}

} // verus!
