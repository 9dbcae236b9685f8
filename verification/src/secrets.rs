//! Secrets: sealed with AES-256-GCM under a key that the daemon keeps.

use vstd::prelude::*;
use vstd::string::*;
use vstd::utf8::*;

use crate::error::CoreError;
#[allow(unused_imports)]
use crate::error::{unit_view, ErrorView};
use crate::names::validate_resource_name;
#[allow(unused_imports)]
use crate::names::name_verdict;
use crate::path::join;
#[allow(unused_imports)]
use crate::path::joined;
use crate::records::SecretRecord;
use crate::requests::{CreateSecretRequest, RevealedSecret, RotateSecretRequest, SecretMetadata};
use crate::text::decimal_string;
#[allow(unused_imports)]
use crate::text::{decimal, has_suffix, occurs, stands_at_the_end, stands_between};
use crate::time::Timestamp;

verus! {

/// The length of a sealing key, in bytes.
pub const SECRET_KEY_LEN: usize = 32;

/// The length of a nonce, in bytes.
pub const SECRET_NONCE_LEN: usize = 12;

/// The length of the authentication tag behind a ciphertext, in bytes.
pub const SECRET_TAG_LEN: usize = 16;

/// The most that can be sealed at once, in bytes.
pub const MAX_SEALED_LEN: u64 = 68_719_476_704;

/// What AES-256-GCM makes of a plaintext, with the authentication tag behind it.
pub uninterp spec fn sealed(key: Seq<u8>, nonce: Seq<u8>, plaintext: Seq<u8>) -> Option<Seq<u8>>;

/// What AES-256-GCM makes of a ciphertext with its tag, where the tag is right.
pub uninterp spec fn opened(key: Seq<u8>, nonce: Seq<u8>, ciphertext: Seq<u8>) -> Option<Seq<u8>>;

/// Under its key a ciphertext belongs to one nonce, its encrypted text to one tag, and
/// its plaintext to no other ciphertext of the same nonce.
pub open spec fn stands_alone(
    key: Seq<u8>,
    nonce: Seq<u8>,
    plaintext: Seq<u8>,
    ciphertext: Seq<u8>,
) -> bool {
    let text_len = plaintext.len() as int;
    &&& forall|other: Seq<u8>|
        other.len() == SECRET_NONCE_LEN && other != nonce ==> (#[trigger] opened(
            key,
            other,
            ciphertext,
        )) is None
    &&& forall|other: Seq<u8>|
        other.len() == ciphertext.len() && other.take(text_len) == ciphertext.take(text_len)
            && other != ciphertext ==> (#[trigger] opened(key, nonce, other)) is None
    &&& forall|other: Seq<u8>|
        other != ciphertext ==> #[trigger] opened(key, nonce, other) != Some(plaintext)
}

/// `ring::aead::LessSafeKey::seal_in_place_append_tag` with AES-256-GCM, without
/// associated data. It fails on a plaintext of more than 2^36 - 32 bytes, and on no
/// other: a key of 32 bytes is always accepted. The tag adds 16 bytes. With the same
/// key and nonce, opening what was sealed gives the plaintext back.
///
/// The plaintext is encrypted byte by byte against a stream that depends on the key and
/// the nonce. The tag is a hash of the encrypted text under the key, combined by
/// exclusive or with the encryption of a block that holds the nonce. So another tag
/// behind the same encrypted text is wrong. The same ciphertext is wrong under another
/// nonce, since AES encrypts different blocks to different blocks. And another
/// ciphertext, if it opens at all, does not open to the same plaintext.
#[verifier::external_body]
fn seal(key: &[u8; SECRET_KEY_LEN], nonce: &[u8; SECRET_NONCE_LEN], plaintext: &[u8]) -> (r: Option<
    Vec<u8>,
>)
    ensures
        r is Some <==> plaintext@.len() <= MAX_SEALED_LEN,
        sealed(key@, nonce@, plaintext@) == (match r {
            Some(v) => Some(v@),
            None => None,
        }),
        r matches Some(v) ==> v@.len() == plaintext@.len() + SECRET_TAG_LEN,
        r matches Some(v) ==> opened(key@, nonce@, v@) == Some(plaintext@),
        r matches Some(v) ==> stands_alone(key@, nonce@, plaintext@, v@),
{
    let unbound = ring::aead::UnboundKey::new(&ring::aead::AES_256_GCM, key).ok()?;
    let key = ring::aead::LessSafeKey::new(unbound);
    let nonce = ring::aead::Nonce::assume_unique_for_key(*nonce);
    let mut in_out = plaintext.to_vec();
    key.seal_in_place_append_tag(nonce, ring::aead::Aad::empty(), &mut in_out).ok()?;
    Some(in_out)
}

/// `ring::aead::LessSafeKey::open_in_place` with AES-256-GCM, without associated
/// data. What it gives is 16 bytes shorter than what was opened. It computes the tag
/// from the encrypted text as sealing does and compares it with the one behind it, so
/// what opens is what sealing the plaintext gives, and stands as alone as that.
///
/// That another key does not open a ciphertext, or that one whose encrypted text was
/// altered does not open to something else, is not claimed: it rests on the key, and
/// holds but for a negligible chance.
#[verifier::external_body]
fn open(key: &[u8; SECRET_KEY_LEN], nonce: &[u8; SECRET_NONCE_LEN], ciphertext: &[u8]) -> (r: Option<
    Vec<u8>,
>)
    ensures
        opened(key@, nonce@, ciphertext@) == (match r {
            Some(v) => Some(v@),
            None => None,
        }),
        r matches Some(v) ==> v@.len() + SECRET_TAG_LEN == ciphertext@.len(),
        r matches Some(v) ==> sealed(key@, nonce@, v@) == Some(ciphertext@),
        r matches Some(v) ==> stands_alone(key@, nonce@, v@, ciphertext@),
{
    let unbound = ring::aead::UnboundKey::new(&ring::aead::AES_256_GCM, key).ok()?;
    let key = ring::aead::LessSafeKey::new(unbound);
    let nonce = ring::aead::Nonce::assume_unique_for_key(*nonce);
    let mut in_out = ciphertext.to_vec();
    let plaintext = key.open_in_place(nonce, ring::aead::Aad::empty(), &mut in_out).ok()?;
    Some(plaintext.to_vec())
}

/// `ring::rand::SystemRandom::fill` on this many bytes. Nothing is said of the bytes,
/// nor of whether the system can provide them.
#[verifier::external_body]
fn random_bytes(len: usize) -> (r: Option<Vec<u8>>)
    ensures
        r matches Some(v) ==> v@.len() == len,
{
    let mut bytes = vec![0u8; len];
    ring::rand::SecureRandom::fill(&ring::rand::SystemRandom::new(), &mut bytes).ok()?;
    Some(bytes)
}

/// `String::from_utf8`: the text with this UTF-8 encoding, if there is one. What the
/// error says is left open.
#[verifier::external_body]
fn text_of(bytes: Vec<u8>) -> (r: Result<String, String>)
    ensures
        r is Ok <==> valid_utf8(bytes@),
        r matches Ok(s) ==> s@ == decode_utf8(bytes@),
{
    String::from_utf8(bytes).map_err(|e| e.to_string())
}

// ---------------------------------------------------------------------------
// The key
// ---------------------------------------------------------------------------

/// Where the daemon keeps its sealing key.
pub open spec fn key_path_of(data_dir: Seq<char>) -> Seq<char> {
    joined(data_dir, "keys/secrets.key"@)
}

/// Where the daemon keeps its sealing key.
pub fn secret_key_path(data_dir: &str) -> (r: String)
    ensures
        r@ == key_path_of(data_dir@),
{
    join(data_dir, "keys/secrets.key")
}

fn to_key(bytes: &Vec<u8>) -> (r: [u8; SECRET_KEY_LEN])
    requires
        bytes@.len() == SECRET_KEY_LEN,
    ensures
        r@ == bytes@,
{
    let mut key = [0u8; SECRET_KEY_LEN];
    let mut i: usize = 0;
    while i < SECRET_KEY_LEN
        invariant
            i <= SECRET_KEY_LEN,
            bytes@.len() == SECRET_KEY_LEN,
            forall|k: int| 0 <= k < i ==> key@[k] == bytes@[k],
        decreases SECRET_KEY_LEN - i,
    {
        key[i] = bytes[i];
        i += 1;
    }
    proof {
        assert(key@ =~= bytes@);
    }
    key
}

fn to_nonce(bytes: &[u8]) -> (r: [u8; SECRET_NONCE_LEN])
    requires
        bytes@.len() == SECRET_NONCE_LEN,
    ensures
        r@ == bytes@,
{
    let mut nonce = [0u8; SECRET_NONCE_LEN];
    let mut i: usize = 0;
    while i < SECRET_NONCE_LEN
        invariant
            i <= SECRET_NONCE_LEN,
            bytes@.len() == SECRET_NONCE_LEN,
            forall|k: int| 0 <= k < i ==> nonce@[k] == bytes@[k],
        decreases SECRET_NONCE_LEN - i,
    {
        nonce[i] = bytes[i];
        i += 1;
    }
    proof {
        assert(nonce@ =~= bytes@);
    }
    nonce
}

fn from_nonce(nonce: &[u8; SECRET_NONCE_LEN]) -> (r: Vec<u8>)
    ensures
        r@ == nonce@,
{
    let mut bytes: Vec<u8> = Vec::new();
    let mut i: usize = 0;
    while i < SECRET_NONCE_LEN
        invariant
            i <= SECRET_NONCE_LEN,
            bytes@ == nonce@.take(i as int),
        decreases SECRET_NONCE_LEN - i,
    {
        bytes.push(nonce[i]);
        proof {
            assert(bytes@ =~= nonce@.take(i + 1));
        }
        i += 1;
    }
    proof {
        assert(bytes@ =~= nonce@);
    }
    bytes
}

/// The key that a key file with these bytes holds, or what is wrong with it.
pub open spec fn key_in(path: Seq<char>, bytes: Seq<u8>) -> Result<Seq<u8>, ErrorView> {
    if bytes.len() == SECRET_KEY_LEN {
        Ok(bytes)
    } else {
        Err(
            ErrorView::InvalidArgument(
                "invalid secret key length in "@ + path + ": expected 32, got "@ + decimal(
                    bytes.len(),
                ),
            ),
        )
    }
}

/// A key or an error, with the key as a sequence of bytes.
pub open spec fn key_view(r: Result<[u8; SECRET_KEY_LEN], CoreError>) -> Result<
    Seq<u8>,
    ErrorView,
> {
    match r {
        Ok(key) => Ok(key@),
        Err(e) => Err(e@),
    }
}

/// A key, nothing or an error, with the key as a sequence of bytes.
pub open spec fn found_key_view(r: Result<Option<[u8; SECRET_KEY_LEN]>, CoreError>) -> Result<
    Option<Seq<u8>>,
    ErrorView,
> {
    match r {
        Ok(Some(key)) => Ok(Some(key@)),
        Ok(None) => Ok(None),
        Err(e) => Err(e@),
    }
}

/// The key, from what reading its file gave; nothing where one has to be made.
pub open spec fn loaded_key(path: Seq<char>, file: KeyFile) -> Result<
    Option<Seq<u8>>,
    ErrorView,
> {
    match file {
        KeyFile::Read(bytes) => match key_in(path, bytes@) {
            Ok(key) => Ok(Some(key)),
            Err(e) => Err(e),
        },
        KeyFile::Missing => Ok(None),
        KeyFile::Unreadable(text) => Err(ErrorView::Storage(text@)),
    }
}

/// The key, from what writing it gave; nothing where the file has to be read instead.
pub open spec fn settled_key(key: Seq<u8>, stored: KeyStored) -> Result<
    Option<Seq<u8>>,
    ErrorView,
> {
    match stored {
        KeyStored::Written => Ok(Some(key)),
        KeyStored::Exists => Ok(None),
        KeyStored::Failed(text) => Err(ErrorView::Storage(text@)),
    }
}

/// The key that was drawn, or that none could be.
pub open spec fn key_drawn(drawn: Option<Seq<u8>>) -> Result<Seq<u8>, ErrorView> {
    match drawn {
        Some(key) => Ok(key),
        None => Err(ErrorView::SecretCrypto("failed to generate secret key"@)),
    }
}

/// A key has 32 bytes, and is what its file holds, byte for byte. A file of another length
/// is refused with its path and its length, and no key is made in its place: one is made
/// only where there is no file.
pub proof fn keys_are_what_their_file_holds(path: Seq<char>, bytes: Seq<u8>, file: KeyFile)
    ensures
        key_in(path, bytes) is Ok <==> bytes.len() == 32,
        key_in(path, bytes) matches Ok(key) ==> key == bytes,
        key_in(path, bytes) matches Err(e) ==> e is InvalidArgument && occurs(
            e->InvalidArgument_0,
            path,
        ) && has_suffix(e->InvalidArgument_0, decimal(bytes.len())),
        loaded_key(path, file) == Ok::<Option<Seq<u8>>, ErrorView>(None) <==> file is Missing,
        loaded_key(path, file) matches Ok(Some(key)) ==> file is Read && file->Read_0@ == key
            && key.len() == 32,
        file matches KeyFile::Read(b) ==> (b@.len() == 32 ==> loaded_key(path, file) == Ok::<
            Option<Seq<u8>>,
            ErrorView,
        >(Some(b@))) && (b@.len() != 32 ==> loaded_key(path, file) is Err),
        file matches KeyFile::Unreadable(why) ==> loaded_key(path, file) == Err::<
            Option<Seq<u8>>,
            ErrorView,
        >(ErrorView::Storage(why@)),
{
    let m = ": expected 32, got "@;
    let d = decimal(bytes.len());
    stands_between("invalid secret key length in "@, path, m + d);
    assert("invalid secret key length in "@ + path + m + d =~= "invalid secret key length in "@
        + path + (m + d));
    stands_at_the_end("invalid secret key length in "@ + path + m, d);
}

/// A key that was drawn counts only once it is written: where another daemon was faster, the
/// one in the file counts, and where it could not be written, none does.
pub proof fn only_written_keys_count(key: Seq<u8>, stored: KeyStored)
    ensures
        settled_key(key, stored) == Ok::<Option<Seq<u8>>, ErrorView>(Some(key)) <==> stored
            is Written,
        settled_key(key, stored) == Ok::<Option<Seq<u8>>, ErrorView>(None) <==> stored is Exists,
        stored matches KeyStored::Failed(why) ==> settled_key(key, stored) == Err::<
            Option<Seq<u8>>,
            ErrorView,
        >(ErrorView::Storage(why@)),
        key_drawn(Some(key)) == Ok::<Seq<u8>, ErrorView>(key),
        key_drawn(None) is Err && key_drawn(None)->Err_0 is SecretCrypto,
{
}

/// The key that a key file holds, unless its length is wrong.
pub fn parse_secret_key(path: &str, bytes: &Vec<u8>) -> (r: Result<[u8; SECRET_KEY_LEN], CoreError>)
    ensures
        key_view(r) == key_in(path@, bytes@),
{
    if bytes.len() != SECRET_KEY_LEN {
        return Err(
            CoreError::InvalidArgument(
                "invalid secret key length in ".to_owned().concat(path).concat(
                    ": expected 32, got ",
                ).concat(decimal_string(bytes.len() as u64).as_str()),
            ),
        );
    }
    Ok(to_key(bytes))
}

/// The key that was drawn, if one could be.
pub fn drawn_key(drawn: Option<Vec<u8>>) -> (r: Result<[u8; SECRET_KEY_LEN], CoreError>)
    requires
        drawn matches Some(v) ==> v@.len() == SECRET_KEY_LEN,
    ensures
        key_view(r) == key_drawn(
            match drawn {
                Some(v) => Some(v@),
                None => None,
            },
        ),
{
    match drawn {
        Some(bytes) => Ok(to_key(&bytes)),
        None => Err(CoreError::SecretCrypto("failed to generate secret key".to_owned())),
    }
}

/// A new random key.
pub fn generate_secret_key() -> (r: Result<[u8; SECRET_KEY_LEN], CoreError>)
    ensures
        r matches Err(e) ==> e@ == ErrorView::SecretCrypto("failed to generate secret key"@),
{
    drawn_key(random_bytes(SECRET_KEY_LEN))
}

/// What reading the key file gave.
#[derive(Debug)]
pub enum KeyFile {
    Read(Vec<u8>),
    Missing,
    Unreadable(String),
}

/// The key, from what reading its file gave; nothing where one has to be made.
pub fn load_secret_key(path: &str, file: KeyFile) -> (r: Result<
    Option<[u8; SECRET_KEY_LEN]>,
    CoreError,
>)
    ensures
        found_key_view(r) == loaded_key(path@, file),
{
    match file {
        KeyFile::Read(bytes) => match parse_secret_key(path, &bytes) {
            Ok(key) => Ok(Some(key)),
            Err(e) => Err(e),
        },
        KeyFile::Missing => Ok(None),
        KeyFile::Unreadable(text) => Err(CoreError::Storage(text)),
    }
}

/// What writing a new key to its file gave.
#[derive(Debug)]
pub enum KeyStored {
    Written,
    /// Another daemon was faster: its key counts.
    Exists,
    Failed(String),
}

/// The key, from what writing it gave; nothing where the file that is there now has
/// to be read instead.
pub fn settle_secret_key(key: [u8; SECRET_KEY_LEN], stored: KeyStored) -> (r: Result<
    Option<[u8; SECRET_KEY_LEN]>,
    CoreError,
>)
    ensures
        found_key_view(r) == settled_key(key@, stored),
        r matches Ok(Some(k)) ==> k == key,
{
    match stored {
        KeyStored::Written => Ok(Some(key)),
        KeyStored::Exists => Ok(None),
        KeyStored::Failed(text) => Err(CoreError::Storage(text)),
    }
}

// ---------------------------------------------------------------------------
// Sealing and opening
// ---------------------------------------------------------------------------

/// A ciphertext and its nonce, as they are stored.
pub open spec fn seals(key: Seq<u8>, plaintext: Seq<u8>, ciphertext: Seq<u8>, nonce: Seq<u8>) -> bool {
    &&& nonce.len() == SECRET_NONCE_LEN
    &&& ciphertext.len() == plaintext.len() + SECRET_TAG_LEN
    &&& sealed(key, nonce, plaintext) == Some(ciphertext)
    &&& opened(key, nonce, ciphertext) == Some(plaintext)
    &&& stands_alone(key, nonce, plaintext, ciphertext)
}

/// Why a plaintext of this many bytes cannot be sealed, if it cannot: there is no
/// nonce, or it is too long.
pub open spec fn seal_fault(nonce: Option<[u8; SECRET_NONCE_LEN]>, len: nat) -> Option<ErrorView> {
    if nonce is None {
        Some(ErrorView::SecretCrypto("failed to generate secret nonce"@))
    } else if len > MAX_SEALED_LEN {
        Some(ErrorView::SecretCrypto("failed to encrypt secret"@))
    } else {
        None
    }
}

/// What sealing a plaintext under the nonce that was drawn for it comes to, if one
/// could be drawn: a ciphertext and the nonce.
pub open spec fn encryption(
    key: Seq<u8>,
    plaintext: Seq<u8>,
    nonce: Option<[u8; SECRET_NONCE_LEN]>,
    r: Result<(Vec<u8>, Vec<u8>), CoreError>,
) -> bool {
    match seal_fault(nonce, plaintext.len()) {
        Some(e) => r is Err && r->Err_0@ == e,
        None => r is Ok && r->Ok_0.1@ == nonce->0@ && seals(
            key,
            plaintext,
            r->Ok_0.0@,
            r->Ok_0.1@,
        ),
    }
}

/// A plaintext is sealed exactly where there is a nonce and it is not too long. The nonce is
/// handed out beside the ciphertext, and with the two of them the plaintext comes back.
pub proof fn sealed_texts_come_with_their_nonce(
    key: Seq<u8>,
    plaintext: Seq<u8>,
    nonce: Option<[u8; SECRET_NONCE_LEN]>,
    r: Result<(Vec<u8>, Vec<u8>), CoreError>,
)
    requires
        encryption(key, plaintext, nonce, r),
    ensures
        r is Ok <==> nonce is Some && plaintext.len() <= 68_719_476_704,
        r matches Ok(v) ==> v.1@ == nonce->0@ && v.1@.len() == 12 && v.0@.len() == plaintext.len()
            + 16 && decrypted(key, v.1@, v.0@) == Ok::<Seq<u8>, ErrorView>(plaintext),
        r is Err ==> r->Err_0@ is SecretCrypto,
{
}

/// Seal a plaintext under the nonce that was drawn for it, if one could be. Returns
/// the ciphertext and the nonce.
pub fn encrypt_with_nonce(
    key: &[u8; SECRET_KEY_LEN],
    plaintext: &[u8],
    nonce: Option<[u8; SECRET_NONCE_LEN]>,
) -> (r: Result<(Vec<u8>, Vec<u8>), CoreError>)
    ensures
        encryption(key@, plaintext@, nonce, r),
{
    match nonce {
        Some(n) => match seal(key, &n, plaintext) {
            Some(ciphertext) => Ok((ciphertext, from_nonce(&n))),
            None => Err(CoreError::SecretCrypto("failed to encrypt secret".to_owned())),
        },
        None => Err(CoreError::SecretCrypto("failed to generate secret nonce".to_owned())),
    }
}

/// The nonce that was drawn, if one could be.
pub fn drawn_nonce(drawn: Option<Vec<u8>>) -> (r: Option<[u8; SECRET_NONCE_LEN]>)
    requires
        drawn matches Some(v) ==> v@.len() == SECRET_NONCE_LEN,
    ensures
        match drawn {
            Some(v) => r is Some && r->0@ == v@,
            None => r is None,
        },
{
    match drawn {
        Some(bytes) => Some(to_nonce(bytes.as_slice())),
        None => None,
    }
}

/// Draw a nonce. Whether one can be drawn, and which, is left to chance.
fn draw_nonce() -> (r: Option<[u8; SECRET_NONCE_LEN]>) {
    drawn_nonce(random_bytes(SECRET_NONCE_LEN))
}

/// Seal a plaintext under a nonce that is drawn for it. Returns the ciphertext and
/// the nonce.
pub fn encrypt_secret(key: &[u8; SECRET_KEY_LEN], plaintext: &[u8]) -> (r: Result<
    (Vec<u8>, Vec<u8>),
    CoreError,
>)
    ensures
        exists|nonce: Option<[u8; SECRET_NONCE_LEN]>| #[trigger]
            encryption(key@, plaintext@, nonce, r),
{
    encrypt_with_nonce(key, plaintext, draw_nonce())
}

/// What opening a ciphertext gives.
pub open spec fn decrypted(key: Seq<u8>, nonce: Seq<u8>, ciphertext: Seq<u8>) -> Result<
    Seq<u8>,
    ErrorView,
> {
    if nonce.len() != SECRET_NONCE_LEN {
        Err(
            ErrorView::SecretCrypto(
                "invalid nonce length: expected 12, got "@ + decimal(nonce.len()),
            ),
        )
    } else {
        match opened(key, nonce, ciphertext) {
            Some(plaintext) => Ok(plaintext),
            None => Err(ErrorView::SecretCrypto("failed to decrypt secret"@)),
        }
    }
}

/// Open a ciphertext. What opens is what sealing the plaintext gives.
pub fn decrypt_secret(key: &[u8; SECRET_KEY_LEN], nonce: &[u8], ciphertext: &[u8]) -> (r: Result<
    Vec<u8>,
    CoreError,
>)
    ensures
        decrypted(key@, nonce@, ciphertext@) == (match r {
            Ok(v) => Ok(v@),
            Err(e) => Err(e@),
        }),
        r matches Ok(v) ==> seals(key@, v@, ciphertext@, nonce@),
{
    if nonce.len() != SECRET_NONCE_LEN {
        return Err(
            CoreError::SecretCrypto(
                "invalid nonce length: expected 12, got ".to_owned().concat(
                    decimal_string(nonce.len() as u64).as_str(),
                ),
            ),
        );
    }
    match open(key, &to_nonce(nonce), ciphertext) {
        Some(v) => Ok(v),
        None => Err(CoreError::SecretCrypto("failed to decrypt secret".to_owned())),
    }
}

/// Opening what was sealed, with the key and the nonce that it was sealed under, gives
/// the plaintext back. What is sealed is longer than the plaintext by the tag, so it
/// never is the plaintext itself.
pub proof fn sealed_texts_open_again(
    key: Seq<u8>,
    plaintext: Seq<u8>,
    ciphertext: Seq<u8>,
    nonce: Seq<u8>,
)
    requires
        seals(key, plaintext, ciphertext, nonce),
    ensures
        decrypted(key, nonce, ciphertext) == Ok::<Seq<u8>, ErrorView>(plaintext),
        nonce.len() == SECRET_NONCE_LEN,
        ciphertext.len() == plaintext.len() + SECRET_TAG_LEN,
        ciphertext != plaintext,
{
}

/// Whatever does not open is refused as a fault of the sealing, and a nonce of another
/// length opens nothing.
pub proof fn what_does_not_open_is_refused(key: Seq<u8>, nonce: Seq<u8>, ciphertext: Seq<u8>)
    ensures
        decrypted(key, nonce, ciphertext) matches Err(e) ==> e is SecretCrypto,
        nonce.len() != SECRET_NONCE_LEN ==> decrypted(key, nonce, ciphertext) is Err,
        opened(key, nonce, ciphertext) is None ==> decrypted(key, nonce, ciphertext) is Err,
{
}

/// What was sealed does not open under any other nonce, whatever its length.
pub proof fn other_nonces_are_refused(
    key: Seq<u8>,
    plaintext: Seq<u8>,
    ciphertext: Seq<u8>,
    nonce: Seq<u8>,
    other: Seq<u8>,
)
    requires
        seals(key, plaintext, ciphertext, nonce),
        other != nonce,
    ensures
        decrypted(key, other, ciphertext) is Err,
        decrypted(key, other, ciphertext)->Err_0 is SecretCrypto,
{
}

/// A ciphertext in whose tag any byte was altered, or several, is refused.
pub proof fn altered_tags_are_refused(
    key: Seq<u8>,
    plaintext: Seq<u8>,
    ciphertext: Seq<u8>,
    nonce: Seq<u8>,
    altered: Seq<u8>,
)
    requires
        seals(key, plaintext, ciphertext, nonce),
        altered.len() == ciphertext.len(),
        forall|i: int| 0 <= i < plaintext.len() ==> #[trigger] altered[i] == ciphertext[i],
        altered != ciphertext,
    ensures
        decrypted(key, nonce, altered) == Err::<Seq<u8>, ErrorView>(
            ErrorView::SecretCrypto("failed to decrypt secret"@),
        ),
{
    let n = plaintext.len() as int;
    assert(altered.take(n) =~= ciphertext.take(n));
    assert(opened(key, nonce, altered) is None);
}

/// No ciphertext but the one that was sealed opens to the plaintext: one that was altered
/// in any way never passes for it.
pub proof fn altered_ciphertexts_never_pass(
    key: Seq<u8>,
    plaintext: Seq<u8>,
    ciphertext: Seq<u8>,
    nonce: Seq<u8>,
    altered: Seq<u8>,
)
    requires
        seals(key, plaintext, ciphertext, nonce),
        altered != ciphertext,
    ensures
        decrypted(key, nonce, altered) != Ok::<Seq<u8>, ErrorView>(plaintext),
{
}

// ---------------------------------------------------------------------------
// Records
// ---------------------------------------------------------------------------

/// The value that revealing a secret answers, if it answers one: what opening the
/// ciphertext gives, where that is text.
pub open spec fn value_in(key: Seq<u8>, nonce: Seq<u8>, ciphertext: Seq<u8>) -> Option<Seq<char>> {
    match decrypted(key, nonce, ciphertext) {
        Ok(plaintext) if valid_utf8(plaintext) => Some(decode_utf8(plaintext)),
        _ => None,
    }
}

/// The record holds the sealed value.
pub open spec fn holds(key: Seq<u8>, secret: SecretRecord, value: Seq<char>) -> bool {
    seals(key, encode_utf8(value), secret.ciphertext@, secret.nonce@)
}

/// Whether the name of a new secret can be used.
pub fn check_secret_name(req: &CreateSecretRequest) -> (r: Result<(), CoreError>)
    ensures
        unit_view(r) == name_verdict("secret"@, req.name@),
{
    validate_resource_name("secret", req.name.as_str())
}

/// What creating a secret comes to, with the nonce that was drawn for it, if one
/// could be.
pub open spec fn creation(
    key: Seq<u8>,
    req: CreateSecretRequest,
    nonce: Option<[u8; SECRET_NONCE_LEN]>,
    id: u128,
    now: Timestamp,
    r: Result<SecretRecord, CoreError>,
) -> bool {
    match name_verdict("secret"@, req.name@) {
        Err(e) => r is Err && r->Err_0@ == e,
        Ok(_) => match seal_fault(nonce, encode_utf8(req.value@).len()) {
            Some(e) => r is Err && r->Err_0@ == e,
            None => r is Ok && holds(key, r->Ok_0, req.value@) && r->Ok_0.nonce@ == nonce->0@
                && r->Ok_0.id == id && r->Ok_0.name == req.name && r->Ok_0.created_at == now
                && r->Ok_0.updated_at == now,
        },
    }
}

/// Create a secret with the nonce that was drawn for it, if one could be.
pub fn create_secret_with_nonce(
    key: &[u8; SECRET_KEY_LEN],
    req: CreateSecretRequest,
    nonce: Option<[u8; SECRET_NONCE_LEN]>,
    id: u128,
    now: Timestamp,
) -> (r: Result<SecretRecord, CoreError>)
    ensures
        creation(key@, req, nonce, id, now, r),
{
    match check_secret_name(&req) {
        Err(e) => { return Err(e); },
        Ok(_) => {},
    }
    match encrypt_with_nonce(key, req.value.as_str().as_bytes(), nonce) {
        Err(e) => Err(e),
        Ok((ciphertext, nonce)) => Ok(
            SecretRecord {
                id,
                name: req.name,
                ciphertext,
                nonce,
                created_at: now,
                updated_at: now,
            },
        ),
    }
}

/// Create a secret.
pub fn create_secret(
    key: &[u8; SECRET_KEY_LEN],
    req: CreateSecretRequest,
    id: u128,
    now: Timestamp,
) -> (r: Result<SecretRecord, CoreError>)
    ensures
        exists|nonce: Option<[u8; SECRET_NONCE_LEN]>| #[trigger]
            creation(key@, req, nonce, id, now, r),
{
    create_secret_with_nonce(key, req, draw_nonce(), id, now)
}

/// What rotating a secret comes to, with the nonce that was drawn for it, if one could
/// be: the record holds the new value, and is otherwise the same secret.
pub open spec fn rotation(
    key: Seq<u8>,
    secret: SecretRecord,
    value: Seq<char>,
    nonce: Option<[u8; SECRET_NONCE_LEN]>,
    now: Timestamp,
    r: Result<SecretRecord, CoreError>,
) -> bool {
    match seal_fault(nonce, encode_utf8(value).len()) {
        Some(e) => r is Err && r->Err_0@ == e,
        None => r is Ok && holds(key, r->Ok_0, value) && r->Ok_0.nonce@ == nonce->0@ && r->Ok_0
            == (SecretRecord {
            ciphertext: r->Ok_0.ciphertext,
            nonce: r->Ok_0.nonce,
            updated_at: now,
            ..secret
        }),
    }
}

/// Replace the value of a secret, with the nonce that was drawn for it, if one could
/// be.
pub fn rotate_secret_with_nonce(
    key: &[u8; SECRET_KEY_LEN],
    secret: SecretRecord,
    req: &RotateSecretRequest,
    nonce: Option<[u8; SECRET_NONCE_LEN]>,
    now: Timestamp,
) -> (r: Result<SecretRecord, CoreError>)
    ensures
        rotation(key@, secret, req.value@, nonce, now, r),
{
    match encrypt_with_nonce(key, req.value.as_str().as_bytes(), nonce) {
        Err(e) => Err(e),
        Ok((ciphertext, nonce)) => Ok(
            SecretRecord {
                id: secret.id,
                name: secret.name,
                ciphertext,
                nonce,
                created_at: secret.created_at,
                updated_at: now,
            },
        ),
    }
}

/// Replace the value of a secret.
pub fn rotate_secret(
    key: &[u8; SECRET_KEY_LEN],
    secret: SecretRecord,
    req: &RotateSecretRequest,
    now: Timestamp,
) -> (r: Result<SecretRecord, CoreError>)
    ensures
        exists|nonce: Option<[u8; SECRET_NONCE_LEN]>| #[trigger]
            rotation(key@, secret, req.value@, nonce, now, r),
{
    rotate_secret_with_nonce(key, secret, req, draw_nonce(), now)
}

/// What is told of a secret.
pub open spec fn metadata_of(secret: SecretRecord) -> SecretMetadata {
    SecretMetadata {
        id: secret.id,
        name: secret.name,
        created_at: secret.created_at,
        updated_at: secret.updated_at,
    }
}

/// What is told of a secret is when it was made and when it last changed, under its own name
/// and id, and does not depend on its value: two records of one secret that differ in the
/// value alone are told of in the same way.
pub proof fn metadata_do_not_tell_the_value(a: SecretRecord, b: SecretRecord)
    ensures
        metadata_of(a).id == a.id && metadata_of(a).name == a.name,
        metadata_of(a).created_at == a.created_at && metadata_of(a).updated_at == a.updated_at,
        a == (SecretRecord { ciphertext: a.ciphertext, nonce: a.nonce, ..b }) ==> metadata_of(a)
            == metadata_of(b),
{
}

/// A secret that was created has the name that it was asked for, both times are those of its
/// creation, and its value comes back. It is created exactly where the name can be used,
/// there is a nonce, and the value is not too long.
pub proof fn created_secrets_keep_what_they_were_given(
    key: Seq<u8>,
    req: CreateSecretRequest,
    nonce: Option<[u8; SECRET_NONCE_LEN]>,
    id: u128,
    now: Timestamp,
    r: Result<SecretRecord, CoreError>,
)
    requires
        creation(key, req, nonce, id, now, r),
    ensures
        r is Ok <==> name_verdict("secret"@, req.name@) is Ok && nonce is Some && encode_utf8(
            req.value@,
        ).len() <= 68_719_476_704,
        r matches Ok(s) ==> s.id == id && s.name == req.name && s.created_at == now && s.updated_at
            == now && value_in(key, s.nonce@, s.ciphertext@) == Some(req.value@) && s.nonce@
            == nonce->0@,
        name_verdict("secret"@, req.name@) matches Err(e) ==> r is Err && r->Err_0@ == e,
        name_verdict("secret"@, req.name@) is Ok && r is Err ==> r->Err_0@ is SecretCrypto,
{
    if let Ok(s) = r {
        secrets_come_back(key, s, req.value@);
    }
}

/// A secret that was rotated stays the secret that it is, with its id, its name and the time
/// of its creation, tells when it was rotated, and answers the new value; the old one does
/// not come back unless it is the same.
pub proof fn rotated_secrets_stay_themselves(
    key: Seq<u8>,
    secret: SecretRecord,
    value: Seq<char>,
    nonce: Option<[u8; SECRET_NONCE_LEN]>,
    now: Timestamp,
    r: Result<SecretRecord, CoreError>,
    earlier: Seq<char>,
)
    requires
        rotation(key, secret, value, nonce, now, r),
    ensures
        r is Ok <==> nonce is Some && encode_utf8(value).len() <= 68_719_476_704,
        r is Err ==> r->Err_0@ is SecretCrypto,
        r matches Ok(s) ==> {
            &&& s.id == secret.id && s.name == secret.name && s.created_at == secret.created_at
            &&& s.updated_at == now
            &&& s.nonce@ == nonce->0@
            &&& value_in(key, s.nonce@, s.ciphertext@) == Some(value)
            &&& earlier != value ==> value_in(key, s.nonce@, s.ciphertext@) != Some(earlier)
        },
{
    if let Ok(s) = r {
        secrets_come_back(key, s, value);
    }
}

/// What is told of a secret: everything but its value.
pub fn secret_to_metadata(secret: SecretRecord) -> (r: SecretMetadata)
    ensures
        r == metadata_of(secret),
{
    SecretMetadata {
        id: secret.id,
        name: secret.name,
        created_at: secret.created_at,
        updated_at: secret.updated_at,
    }
}

/// What revealing a secret comes to.
pub open spec fn revealing(
    key: Seq<u8>,
    secret: SecretRecord,
    r: Result<RevealedSecret, CoreError>,
) -> bool {
    &&& r matches Ok(v) ==> value_in(key, secret.nonce@, secret.ciphertext@) == Some(v.value@)
        && v.name == secret.name && v.updated_at == secret.updated_at
    &&& match decrypted(key, secret.nonce@, secret.ciphertext@) {
        Err(e) => r is Err && r->Err_0@ == e,
        Ok(plaintext) => if valid_utf8(plaintext) {
            r is Ok
        } else {
            r is Err && r->Err_0 is SecretCrypto && (exists|why: Seq<char>|
                r->Err_0@ == ErrorView::SecretCrypto(
                    #[trigger] ("secret is not valid UTF-8: "@ + why),
                ))
        },
    }
}

/// A secret that holds a value is revealed: the answer has the value, under the secret's name
/// and with the time of its last change. What cannot be revealed is a fault of the sealing,
/// and is never answered with some other value.
pub proof fn revealed_secrets_are_what_was_kept(
    key: Seq<u8>,
    secret: SecretRecord,
    value: Seq<char>,
    r: Result<RevealedSecret, CoreError>,
)
    requires
        revealing(key, secret, r),
    ensures
        holds(key, secret, value) ==> r is Ok && r->Ok_0.value@ == value,
        r matches Ok(v) ==> v.name == secret.name && v.updated_at == secret.updated_at,
        r is Err ==> r->Err_0@ is SecretCrypto,
        opened(key, secret.nonce@, secret.ciphertext@) is None ==> r is Err,
{
    if holds(key, secret, value) {
        secrets_come_back(key, secret, value);
    }
    what_does_not_open_is_refused(key, secret.nonce@, secret.ciphertext@);
}

/// Reveal the value of a secret.
pub fn reveal_secret(key: &[u8; SECRET_KEY_LEN], secret: SecretRecord) -> (r: Result<
    RevealedSecret,
    CoreError,
>)
    ensures
        revealing(key@, secret, r),
{
    let plaintext = match decrypt_secret(
        key,
        secret.nonce.as_slice(),
        secret.ciphertext.as_slice(),
    ) {
        Ok(p) => p,
        Err(e) => { return Err(e); },
    };
    match text_of(plaintext) {
        Ok(value) => Ok(
            RevealedSecret { name: secret.name, value, updated_at: secret.updated_at },
        ),
        Err(why) => Err(
            CoreError::SecretCrypto(
                "secret is not valid UTF-8: ".to_owned().concat(why.as_str()),
            ),
        ),
    }
}

/// Revealing a secret answers the value that was sealed into it, at its creation or at
/// its last rotation.
pub proof fn secrets_come_back(key: Seq<u8>, secret: SecretRecord, value: Seq<char>)
    requires
        holds(key, secret, value),
    ensures
        value_in(key, secret.nonce@, secret.ciphertext@) == Some(value),
{
    encode_utf8_valid_utf8(value);
    encode_utf8_decode_utf8(value);
}

/// The daemon's key lies in its data directory, in a directory for keys.
pub proof fn keys_lie_in_the_data_directory(data_dir: Seq<char>)
    requires
        data_dir.len() > 0,
        data_dir.last() != '/',
    ensures
        key_path_of(data_dir) == data_dir + "/keys/secrets.key"@,
{
    reveal_strlit("keys/secrets.key");
    reveal_strlit("/keys/secrets.key");
    reveal_strlit("/");
    assert(key_path_of(data_dir) =~= data_dir + "/keys/secrets.key"@);
}

} // verus!
