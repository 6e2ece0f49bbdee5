//! The envelope cipher: a fresh content key seals the text of an entry, and the
//! master key wraps that content key. Both seals use AES-256-GCM under the one
//! nonce of the record.

use crate::entry::{
    ActiveEntry, ActiveEntryView, DecryptedEntry, DecryptedEntryView, EncryptedEntry,
    EncryptedEntryView,
};
use crate::error::JrnlError;
use aes_gcm::aead::{Aead, AeadCore, KeyInit, OsRng};
use aes_gcm::{Aes256Gcm, Key, Nonce};
use vstd::prelude::*;
use vstd::utf8::*;

verus! {

/// Length of a key, in bytes.
pub const KEY_LEN: usize = 32;

/// Length of a nonce, in bytes.
pub const NONCE_LEN: usize = 12;

/// Longest plaintext that AES-GCM seals, in bytes.
pub const MAX_PLAINTEXT_LEN: u64 = 0x10_0000_0000;

/// What `Aes256Gcm::encrypt` returns for a 32-byte key, a 12-byte nonce and a
/// plaintext without associated data: the ciphertext followed by its tag, or
/// `None` where the cipher refuses.
pub uninterp spec fn aes256_gcm_seal(key: Seq<u8>, nonce: Seq<u8>, plaintext: Seq<u8>) -> Option<
    Seq<u8>,
>;

/// What `Aes256Gcm::decrypt` returns for a 32-byte key, a 12-byte nonce and a
/// sealed message without associated data: the plaintext, or `None` where the
/// message does not authenticate.
pub uninterp spec fn aes256_gcm_open(key: Seq<u8>, nonce: Seq<u8>, sealed: Seq<u8>) -> Option<
    Seq<u8>,
>;

/// The bytes of an optional byte vector.
pub open spec fn bytes_view(bytes: Option<Vec<u8>>) -> Option<Seq<u8>> {
    match bytes {
        Some(b) => Some(b@),
        None => None,
    }
}

/// Calls `Aes256Gcm::new` on the key and `Aead::encrypt` on the nonce and the
/// plaintext. The contract claims three things of the cipher: the result is a
/// function of key, nonce and plaintext; it refuses exactly the plaintexts
/// longer than 2^36 bytes; and what it seals, `Aead::decrypt` opens again
/// under the same key and nonce.
#[verifier::external_body]
fn aead_seal(key: &[u8], nonce: &[u8], plaintext: &[u8]) -> (r: Option<Vec<u8>>)
    requires
        key@.len() == KEY_LEN,
        nonce@.len() == NONCE_LEN,
    ensures
        bytes_view(r) == aes256_gcm_seal(key@, nonce@, plaintext@),
        r is Some <==> plaintext@.len() <= MAX_PLAINTEXT_LEN,
        r matches Some(sealed) ==> aes256_gcm_open(key@, nonce@, sealed@) == Some(plaintext@),
{
    let cipher = Aes256Gcm::new(Key::<Aes256Gcm>::from_slice(key));
    cipher.encrypt(Nonce::from_slice(nonce), plaintext).ok()
}

/// Calls `Aes256Gcm::new` on the key and `Aead::decrypt` on the nonce and the
/// sealed message. The contract claims that the result is a function of key,
/// nonce and message.
#[verifier::external_body]
fn aead_open(key: &[u8], nonce: &[u8], sealed: &[u8]) -> (r: Option<Vec<u8>>)
    requires
        key@.len() == KEY_LEN,
        nonce@.len() == NONCE_LEN,
    ensures
        bytes_view(r) == aes256_gcm_open(key@, nonce@, sealed@),
{
    let cipher = Aes256Gcm::new(Key::<Aes256Gcm>::from_slice(key));
    cipher.decrypt(Nonce::from_slice(nonce), sealed).ok()
}

/// Calls `Aes256Gcm::generate_key` on the operating system's random source.
/// The contract claims the length of the key and nothing of its bytes.
#[verifier::external_body]
fn fresh_content_key() -> (key: Vec<u8>)
    ensures
        key@.len() == KEY_LEN,
{
    Aes256Gcm::generate_key(OsRng).to_vec()
}

/// Calls `Aes256Gcm::generate_nonce` on the operating system's random source.
/// The contract claims the length of the nonce and nothing of its bytes.
#[verifier::external_body]
fn fresh_nonce() -> (nonce: Vec<u8>)
    ensures
        nonce@.len() == NONCE_LEN,
{
    Aes256Gcm::generate_nonce(&mut OsRng).to_vec()
}

/// Calls `String::from_utf8`. The contract claims that it accepts exactly the
/// well-formed UTF-8 sequences and decodes them.
#[verifier::external_body]
pub(crate) fn string_from_utf8(bytes: Vec<u8>) -> (r: Option<String>)
    ensures
        r is Some <==> valid_utf8(bytes@),
        r matches Some(s) ==> s@ == decode_utf8(bytes@),
{
    String::from_utf8(bytes).ok()
}

/// The master key: 256 bits, fixed for the life of the process, handed to every
/// operation that needs it.
pub struct MasterKey {
    bytes: Vec<u8>,
}

impl View for MasterKey {
    type V = Seq<u8>;

    closed spec fn view(&self) -> Seq<u8> {
        self.bytes@
    }
}

impl MasterKey {
    #[verifier::type_invariant]
    spec fn well_formed(self) -> bool {
        self.bytes@.len() == KEY_LEN
    }

    /// The key that `bytes` spell, if there are exactly 32 of them.
    pub fn from_slice(bytes: &[u8]) -> (r: Option<MasterKey>)
        ensures
            r is Some <==> bytes@.len() == KEY_LEN,
            r matches Some(key) ==> key@ == bytes@,
    {
        if bytes.len() != KEY_LEN {
            return None;
        }
        let mut copy: Vec<u8> = Vec::new();
        copy.extend_from_slice(bytes);
        Some(MasterKey { bytes: copy })
    }

    /// The 32 bytes of the key.
    pub fn as_bytes(&self) -> (bytes: &[u8])
        ensures
            bytes@ == self@,
            bytes@.len() == KEY_LEN,
    {
        proof {
            use_type_invariant(self);
        }
        self.bytes.as_slice()
    }
}

/// The bytes that are sealed for a text: its UTF-8 encoding, and nothing for an
/// absent text.
pub open spec fn plaintext_of(text: Option<Seq<char>>) -> Seq<u8> {
    match text {
        Some(chars) => encode_utf8(chars),
        None => Seq::empty(),
    }
}

/// The text that opened bytes stand for: none where they decode to nothing.
pub open spec fn text_of(plaintext: Seq<u8>) -> Option<Seq<char>> {
    if decode_utf8(plaintext).len() == 0 {
        None
    } else {
        Some(decode_utf8(plaintext))
    }
}

/// A text as a read gives it back: the empty text reads as absent.
pub open spec fn stored_text(text: Option<Seq<char>>) -> Option<Seq<char>> {
    match text {
        Some(chars) => if chars.len() == 0 {
            None
        } else {
            Some(chars)
        },
        None => None,
    }
}

/// The plain projection that a read of the sealed `entry` must produce.
pub open spec fn projection(entry: ActiveEntryView) -> DecryptedEntryView {
    DecryptedEntryView {
        id: entry.id,
        author: entry.author,
        date: entry.date,
        emotion_scale: entry.emotion_scale,
        text: stored_text(entry.text),
    }
}

/// Whether `entry` can be sealed at all: it is no local draft, and the cipher
/// takes a text of its length.
pub open spec fn sealable(entry: ActiveEntryView) -> bool {
    !entry.ephemeral && plaintext_of(entry.text).len() <= MAX_PLAINTEXT_LEN
}

/// The sealed record of `entry` under the given content key and nonce.
pub open spec fn seal_entry(
    entry: ActiveEntryView,
    master_key: Seq<u8>,
    content_key: Seq<u8>,
    nonce: Seq<u8>,
) -> Result<EncryptedEntryView, JrnlError> {
    if entry.ephemeral {
        Err(JrnlError::EntryEncryptionFailed)
    } else {
        match (
            aes256_gcm_seal(master_key, nonce, content_key),
            aes256_gcm_seal(content_key, nonce, plaintext_of(entry.text)),
        ) {
            (Some(wrapped), Some(sealed)) => Ok(
                EncryptedEntryView {
                    id: entry.id,
                    author: entry.author,
                    date: entry.date,
                    emotion_scale: entry.emotion_scale,
                    encrypted_content: sealed,
                    content_key: wrapped,
                    nonce,
                },
            ),
            _ => Err(JrnlError::EntryEncryptionFailed),
        }
    }
}

/// The plain projection of the sealed `entry`, or the failure to open it: a
/// nonce or an unwrapped key of the wrong length, a seal that does not
/// authenticate, bytes that are not UTF-8.
pub open spec fn open_entry(entry: EncryptedEntryView, master_key: Seq<u8>) -> Result<
    DecryptedEntryView,
    JrnlError,
> {
    if entry.nonce.len() != NONCE_LEN {
        Err(JrnlError::EntryDecryptionFailed)
    } else {
        match aes256_gcm_open(master_key, entry.nonce, entry.content_key) {
            None => Err(JrnlError::EntryDecryptionFailed),
            Some(content_key) => if content_key.len() != KEY_LEN {
                Err(JrnlError::EntryDecryptionFailed)
            } else {
                match aes256_gcm_open(content_key, entry.nonce, entry.encrypted_content) {
                    None => Err(JrnlError::EntryDecryptionFailed),
                    Some(plaintext) => if !valid_utf8(plaintext) {
                        Err(JrnlError::EntryDecryptionFailed)
                    } else {
                        Ok(
                            DecryptedEntryView {
                                id: entry.id,
                                author: entry.author,
                                date: entry.date,
                                emotion_scale: entry.emotion_scale,
                                text: text_of(plaintext),
                            },
                        )
                    },
                }
            },
        }
    }
}

/// `sealed` is a sealed record of `entry` under `master_key`: it is what
/// [`seal_entry`] gives for some content key and nonce, and it opens to the
/// projection of `entry`.
pub open spec fn is_sealing_of(
    sealed: EncryptedEntryView,
    entry: ActiveEntryView,
    master_key: Seq<u8>,
) -> bool {
    &&& exists|content_key: Seq<u8>, nonce: Seq<u8>|
        content_key.len() == KEY_LEN && nonce.len() == NONCE_LEN && #[trigger] seal_entry(
            entry,
            master_key,
            content_key,
            nonce,
        ) == Ok::<EncryptedEntryView, JrnlError>(sealed)
    &&& open_entry(sealed, master_key) == Ok::<DecryptedEntryView, JrnlError>(projection(entry))
}

/// A sealed record carries the identity, the day and the mood of its entry,
/// and its entry is no local draft.
pub proof fn lemma_sealing_keeps_identity(
    sealed: EncryptedEntryView,
    entry: ActiveEntryView,
    master_key: Seq<u8>,
)
    requires
        is_sealing_of(sealed, entry, master_key),
    ensures
        sealed.id == entry.id,
        sealed.author == entry.author,
        sealed.date == entry.date,
        sealed.emotion_scale == entry.emotion_scale,
        !entry.ephemeral,
{
}

/// Round trip: what was sealed opens, under the same master key, to the entry
/// it was sealed from. The identity, the day and the mood come back as they
/// were; the text comes back as it was, but that an empty text reads as absent.
pub proof fn lemma_round_trip(
    sealed: EncryptedEntryView,
    entry: ActiveEntryView,
    master_key: Seq<u8>,
)
    requires
        is_sealing_of(sealed, entry, master_key),
    ensures
        open_entry(sealed, master_key) is Ok,
        open_entry(sealed, master_key)->Ok_0.id == entry.id,
        open_entry(sealed, master_key)->Ok_0.author == entry.author,
        open_entry(sealed, master_key)->Ok_0.date == entry.date,
        open_entry(sealed, master_key)->Ok_0.emotion_scale == entry.emotion_scale,
        open_entry(sealed, master_key)->Ok_0.text == (match entry.text {
            Some(text) if text.len() > 0 => Some(text),
            _ => None,
        }),
{
}

/// A record whose nonce has not 12 bytes never opens.
pub proof fn lemma_nonce_length_is_checked(sealed: EncryptedEntryView, master_key: Seq<u8>)
    requires
        sealed.nonce.len() != NONCE_LEN,
    ensures
        open_entry(sealed, master_key) == Err::<DecryptedEntryView, JrnlError>(
            JrnlError::EntryDecryptionFailed,
        ),
{
}

/// The view of a sealing result.
pub open spec fn sealed_view(r: Result<EncryptedEntry, JrnlError>) -> Result<
    EncryptedEntryView,
    JrnlError,
> {
    match r {
        Ok(entry) => Ok(entry@),
        Err(e) => Err(e),
    }
}

/// The view of an opening result.
pub open spec fn opened_view(r: Result<DecryptedEntry, JrnlError>) -> Result<
    DecryptedEntryView,
    JrnlError,
> {
    match r {
        Ok(entry) => Ok(entry@),
        Err(e) => Err(e),
    }
}

/// Encoding a text and reading the bytes back gives the stored text.
proof fn lemma_text_round_trip(text: Option<Seq<char>>)
    ensures
        valid_utf8(plaintext_of(text)),
        text_of(plaintext_of(text)) == stored_text(text),
{
    match text {
        Some(chars) => {
            encode_utf8_valid_utf8(chars);
            encode_utf8_decode_utf8(chars);
        },
        None => {
            assert(valid_utf8(Seq::<u8>::empty()));
            assert(decode_utf8(Seq::<u8>::empty()).len() == 0);
        },
    }
}

/// Seals `entry` under a content key and a nonce of the right lengths.
fn seal(entry: &ActiveEntry, master_key: &MasterKey, content_key: &[u8], nonce: &[u8]) -> (r:
    Result<EncryptedEntry, JrnlError>)
    requires
        content_key@.len() == KEY_LEN,
        nonce@.len() == NONCE_LEN,
    ensures
        sealed_view(r) == seal_entry(entry@, master_key@, content_key@, nonce@),
        r is Ok <==> sealable(entry@),
        r matches Ok(sealed) ==> open_entry(sealed@, master_key@) == Ok::<
            DecryptedEntryView,
            JrnlError,
        >(projection(entry@)),
{
    if entry.ephemeral {
        return Err(JrnlError::EntryEncryptionFailed);
    }
    let master = master_key.as_bytes();
    let empty = String::new();
    let text: &String = match &entry.text {
        Some(text) => text,
        None => &empty,
    };
    let plaintext = text.as_str().as_bytes();
    let wrapped = match aead_seal(master, nonce, content_key) {
        Some(wrapped) => wrapped,
        None => {
            return Err(JrnlError::EntryEncryptionFailed);
        },
    };
    let sealed = match aead_seal(content_key, nonce, plaintext) {
        Some(sealed) => sealed,
        None => {
            return Err(JrnlError::EntryEncryptionFailed);
        },
    };
    let mut record_nonce: Vec<u8> = Vec::new();
    record_nonce.extend_from_slice(nonce);
    proof {
        lemma_text_round_trip(entry@.text);
        assert(record_nonce@ =~= nonce@);
    }
    Ok(
        EncryptedEntry {
            id: entry.id,
            author: entry.author,
            date: entry.date,
            emotion_scale: entry.emotion_scale,
            encrypted_content: sealed,
            content_key: wrapped,
            nonce: record_nonce,
        },
    )
}

impl ActiveEntry {
    /// Seals the entry under the given content key and nonce, and wraps the
    /// content key under the master key with the same nonce.
    ///
    /// A local draft is refused, and so is a text that the cipher does not take.
    /// A sealed record opens under the same master key to the projection of this
    /// entry.
    pub fn encrypt_with(
        &self,
        master_key: &MasterKey,
        content_key: &[u8; 32],
        nonce: &[u8; 12],
    ) -> (r: Result<EncryptedEntry, JrnlError>)
        ensures
            sealed_view(r) == seal_entry(self@, master_key@, content_key@, nonce@),
            r is Ok <==> sealable(self@),
            r matches Ok(sealed) ==> open_entry(sealed@, master_key@) == Ok::<
                DecryptedEntryView,
                JrnlError,
            >(projection(self@)),
    {
        seal(self, master_key, content_key.as_slice(), nonce.as_slice())
    }

    /// Seals the entry under a content key and a nonce drawn afresh for this
    /// call.
    ///
    /// Whatever was drawn, the record is the one that [`seal_entry`] gives for
    /// some key of 32 bytes and some nonce of 12, and it opens under the same
    /// master key to the projection of this entry: the text comes back as it
    /// was, the empty text as absent. Two calls on one entry need not agree.
    pub fn encrypt(&self, master_key: &MasterKey) -> (r: Result<EncryptedEntry, JrnlError>)
        ensures
            r is Ok <==> sealable(self@),
            r matches Err(e) ==> e == JrnlError::EntryEncryptionFailed,
            r matches Ok(sealed) ==> is_sealing_of(sealed@, self@, master_key@),
    {
        let content_key = fresh_content_key();
        let nonce = fresh_nonce();
        seal(self, master_key, content_key.as_slice(), nonce.as_slice())
    }
}

impl EncryptedEntry {
    /// Unwraps the content key under the master key and opens the text.
    ///
    /// Fails, and never returns other text, where the nonce has not 12 bytes,
    /// either seal does not authenticate, the unwrapped key has not 32 bytes or
    /// the opened bytes are not UTF-8. An opened text of no characters reads as
    /// absent.
    pub fn decrypt(&self, master_key: &MasterKey) -> (r: Result<DecryptedEntry, JrnlError>)
        ensures
            opened_view(r) == open_entry(self@, master_key@),
    {
        if self.nonce.len() != NONCE_LEN {
            return Err(JrnlError::EntryDecryptionFailed);
        }
        let nonce = self.nonce.as_slice();
        let wrapped = self.content_key.as_slice();
        let content_key = match aead_open(master_key.as_bytes(), nonce, wrapped) {
            Some(content_key) => content_key,
            None => {
                return Err(JrnlError::EntryDecryptionFailed);
            },
        };
        if content_key.len() != KEY_LEN {
            return Err(JrnlError::EntryDecryptionFailed);
        }
        let plaintext = match aead_open(
            content_key.as_slice(),
            nonce,
            self.encrypted_content.as_slice(),
        ) {
            Some(plaintext) => plaintext,
            None => {
                return Err(JrnlError::EntryDecryptionFailed);
            },
        };
        let content = match string_from_utf8(plaintext) {
            Some(content) => content,
            None => {
                return Err(JrnlError::EntryDecryptionFailed);
            },
        };
        let text = if content.as_str().is_empty() {
            None
        } else {
            Some(content)
        };
        Ok(
            DecryptedEntry {
                id: self.id,
                author: self.author,
                date: self.date,
                emotion_scale: self.emotion_scale,
                text,
            },
        )
    }
}

} // verus!
