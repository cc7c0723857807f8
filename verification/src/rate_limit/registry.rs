//! [`ControllerRegistry`]: one controller per token, shared by every sync that
//! uses that token.

use crate::rate_limit::controller::{RateLimitController, LIMIT_DEFAULT, SOFT_CAP_DEFAULT};
use crate::text;
use vstd::prelude::*;
use vstd::string::*;

verus! {

/// The SHA-256 digest of some bytes.
pub uninterp spec fn sha256(bytes: Seq<u8>) -> Seq<u8>;

/// `aws_lc_rs::digest::digest` with `SHA256`: the digest, 32 bytes, of the
/// bytes.
#[verifier::external_body]
fn sha256_digest(bytes: &[u8]) -> (out: Vec<u8>)
    ensures
        out@ == sha256(bytes@),
        out@.len() == 32,
{
    aws_lc_rs::digest::digest(&aws_lc_rs::digest::SHA256, bytes).as_ref().to_vec()
}

/// The lower-case hexadecimal digit of a value below 16.
pub open spec fn hex_digit(value: int) -> char {
    if value < 10 {
        (('0' as int) + value) as char
    } else {
        (('a' as int) + value - 10) as char
    }
}

/// Two lower-case hexadecimal digits per byte, the high half first.
pub open spec fn hex_text(bytes: Seq<u8>) -> Seq<char> {
    Seq::new(
        2 * bytes.len(),
        |i: int|
            if i % 2 == 0 {
                hex_digit(bytes[i / 2] as int / 16)
            } else {
                hex_digit(bytes[i / 2] as int % 16)
            },
    )
}

/// `hex::encode`: the bytes as lower-case hexadecimal digits.
#[verifier::external_body]
fn hex_encode(bytes: &Vec<u8>) -> (out: String)
    ensures
        out@ == hex_text(bytes@),
{
    hex::encode(bytes)
}

/// A token's identity for the registry: the hexadecimal SHA-256 of the token,
/// so that the registry never holds the token itself.
#[derive(Debug, Clone)]
pub struct TokenFingerprint(String);

impl View for TokenFingerprint {
    type V = Seq<char>;

    closed spec fn view(&self) -> Seq<char> {
        self.0@
    }
}

/// The fingerprint of a token.
pub open spec fn fingerprint_of(token: Seq<char>) -> Seq<char> {
    hex_text(sha256(vstd::utf8::encode_utf8(token)))
}

impl TokenFingerprint {
    /// The fingerprint of a token: 64 hexadecimal digits.
    pub fn of(token: &str) -> (out: Self)
        ensures
            out@ == fingerprint_of(token@),
            out@.len() == 64,
    {
        TokenFingerprint(hex_encode(&sha256_digest(token.as_bytes())))
    }

    /// The digits of the fingerprint.
    pub fn digits(&self) -> (out: &str)
        ensures
            out@ == self@,
    {
        self.0.as_str()
    }

    /// Whether two fingerprints are of the same token.
    pub fn same_as(&self, other: &Self) -> (out: bool)
        ensures
            out == (self@ == other@),
    {
        self.0 == other.0
    }
}

/// Controllers by token fingerprint.
///
/// A fingerprint seen for the first time gets a fresh controller in a slot of
/// its own; later lookups share the slot, so that a token's budget is tracked
/// once however many syncs use it.
#[derive(Debug)]
pub struct ControllerRegistry {
    fingerprints: Vec<TokenFingerprint>,
    controllers: Vec<RateLimitController>,
}

impl View for ControllerRegistry {
    type V = Seq<(Seq<char>, RateLimitController)>;

    closed spec fn view(&self) -> Seq<(Seq<char>, RateLimitController)> {
        Seq::new(
            self.controllers@.len(),
            |slot: int| (self.fingerprints@[slot]@, self.controllers@[slot]),
        )
    }
}

/// The fingerprint has a controller in the slot.
pub open spec fn slot_of(
    entries: Seq<(Seq<char>, RateLimitController)>,
    fingerprint: Seq<char>,
    slot: int,
) -> bool {
    0 <= slot < entries.len() && entries[slot].0 == fingerprint
}

/// The fingerprint has a controller.
pub open spec fn has_slot(
    entries: Seq<(Seq<char>, RateLimitController)>,
    fingerprint: Seq<char>,
) -> bool {
    exists|slot: int| slot_of(entries, fingerprint, slot)
}

impl ControllerRegistry {
    /// No fingerprint has two controllers.
    pub closed spec fn wf(&self) -> bool {
        &&& self.fingerprints@.len() == self.controllers@.len()
        &&& forall|i: int, j: int|
            0 <= i < j < self.fingerprints@.len() ==> (#[trigger] self.fingerprints@[i])@ != (
            #[trigger] self.fingerprints@[j])@
    }

    /// A registry without controllers.
    pub fn new() -> (out: Self)
        ensures
            out.wf(),
            out@.len() == 0,
    {
        ControllerRegistry { fingerprints: Vec::new(), controllers: Vec::new() }
    }

    /// The slot of the fingerprint's controller, if it has one.
    pub fn get(&self, fingerprint: &TokenFingerprint) -> (out: Option<usize>)
        requires
            self.wf(),
        ensures
            match out {
                Some(slot) => slot_of(self@, fingerprint@, slot as int),
                None => !has_slot(self@, fingerprint@),
            },
    {
        let mut slot: usize = 0;
        while slot < self.fingerprints.len()
            invariant
                self.wf(),
                slot <= self.fingerprints@.len(),
                forall|i: int| 0 <= i < slot ==> (#[trigger] self.fingerprints@[i])@ != fingerprint@,
            decreases self.fingerprints@.len() - slot,
        {
            if self.fingerprints[slot].same_as(fingerprint) {
                assert(self@[slot as int].0 == fingerprint@);
                return Some(slot);
            }
            slot = slot + 1;
        }
        assert forall|i: int| !slot_of(self@, fingerprint@, i) by {
            if slot_of(self@, fingerprint@, i) {
                assert(self@[i].0 == self.fingerprints@[i]@);
            }
        }
        None
    }

    /// The slot of the fingerprint's controller, which is created on first
    /// sight.
    pub fn get_or_insert(&mut self, fingerprint: TokenFingerprint) -> (out: usize)
        requires
            old(self).wf(),
        ensures
            final(self).wf(),
            slot_of(final(self)@, fingerprint@, out as int),
            has_slot(old(self)@, fingerprint@) ==> final(self)@ == old(self)@,
            !has_slot(old(self)@, fingerprint@) ==> final(self)@ == old(self)@.push(
                (fingerprint@, RateLimitController::fresh(SOFT_CAP_DEFAULT, LIMIT_DEFAULT)),
            ),
    {
        match self.get(&fingerprint) {
            Some(slot) => {
                slot
            },
            None => {
                let slot: usize = self.controllers.len();
                assert forall|i: int| 0 <= i < slot implies (#[trigger] self.fingerprints@[i])@
                    != fingerprint@ by {
                    assert(self@[i].0 == self.fingerprints@[i]@);
                    assert(!slot_of(self@, fingerprint@, i));
                }
                let ghost before = self@;
                let ghost digits = fingerprint@;
                self.fingerprints.push(fingerprint);
                self.controllers.push(RateLimitController::new());
                assert(self@ =~= before.push(
                    (digits, RateLimitController::fresh(SOFT_CAP_DEFAULT, LIMIT_DEFAULT)),
                ));
                slot
            },
        }
    }

    /// The controller in a slot.
    pub fn controller(&self, slot: usize) -> (out: &RateLimitController)
        requires
            self.wf(),
            slot < self@.len(),
        ensures
            *out == self@[slot as int].1,
    {
        &self.controllers[slot]
    }

    /// The controller in a slot, to be changed in place.
    pub fn controller_mut(&mut self, slot: usize) -> (out: &mut RateLimitController)
        requires
            old(self).wf(),
            slot < old(self)@.len(),
        ensures
            *out == old(self)@[slot as int].1,
            final(self).wf(),
            final(self)@ == old(self)@.update(
                slot as int,
                (old(self)@[slot as int].0, *final(out)),
            ),
    {
        &mut self.controllers[slot]
    }

    /// Number of distinct tokens.
    pub fn len(&self) -> (out: usize)
        requires
            self.wf(),
        ensures
            out == self@.len(),
    {
        self.controllers.len()
    }

    /// Whether no token is tracked.
    pub fn is_empty(&self) -> (out: bool)
        requires
            self.wf(),
        ensures
            out == (self@.len() == 0),
    {
        self.controllers.len() == 0
    }
}

/// A fingerprint has at most one slot, so that every sync of a token shares
/// one controller; distinct fingerprints have distinct slots.
pub proof fn slots_are_shared_by_fingerprint_alone(
    registry: ControllerRegistry,
    one: Seq<char>,
    other: Seq<char>,
    i: int,
    j: int,
)
    requires
        registry.wf(),
        slot_of(registry@, one, i),
        slot_of(registry@, other, j),
    ensures
        one == other <==> i == j,
{
    assert(registry@[i].0 == registry.fingerprints@[i]@);
    assert(registry@[j].0 == registry.fingerprints@[j]@);
}

/// A fingerprint holds hexadecimal digits alone, so that a token with any other
/// character cannot be read in it.
pub proof fn fingerprint_hides_the_token(token: Seq<char>, at: int)
    requires
        0 <= at < token.len(),
        !is_hex_digit(token[at]),
    ensures
        !text::contains_text(fingerprint_of(token), token),
{
    let digits = fingerprint_of(token);
    assert forall|start: int| !#[trigger] text::occurs_at(digits, token, start) by {
        if text::occurs_at(digits, token, start) {
            assert(digits.subrange(start, start + token.len())[at] == digits[start + at]);
            assert(is_hex_digit(digits[start + at]));
        }
    }
}

pub open spec fn is_hex_digit(c: char) -> bool {
    ('0' <= c && c <= '9') || ('a' <= c && c <= 'f')
}

} // verus!
