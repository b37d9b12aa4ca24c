//! Public keys, by their OpenSSH text.

use crate::text::same_text;
use vstd::prelude::*;

verus! {

/// What becomes of a text that is read as an OpenSSH public key: the text in which the key is
/// written, or how the error reads.
pub uninterp spec fn openssh_key(text: Seq<char>) -> Result<Seq<char>, Seq<char>>;

/// The SHA-256 fingerprint of the key with this text, as OpenSSH writes it.
pub uninterp spec fn sha256_fingerprint(openssh: Seq<char>) -> Seq<char>;

/// A text in which a key is written: reading it gives the same text back, and it does not end in
/// a carriage return.
pub open spec fn is_openssh(text: Seq<char>) -> bool {
    &&& openssh_key(text) == Ok::<Seq<char>, Seq<char>>(text)
    &&& text.len() > 0
    &&& text.last() != '\r'
}

/// Reads a public key and writes it again.
///
/// Trusted: `ssh_key::PublicKey::from_openssh`, with `to_openssh` on the key that it gives, is a
/// function of the text alone; `openssh_key` names its result. The text that `to_openssh` writes
/// (algorithm, key data, and the comment where there is one, with a space between) is read as
/// the same key, hence written as the same text. `from_openssh` drops the white space at the end
/// of a comment, so the text ends in none.
#[verifier::external_body]
fn read_openssh(text: &str) -> (key: Result<String, String>)
    ensures
        match key {
            Ok(t) => openssh_key(text@) == Ok::<Seq<char>, Seq<char>>(t@) && is_openssh(t@),
            Err(e) => openssh_key(text@) == Err::<Seq<char>, Seq<char>>(e@),
        },
{
    match ssh_key::PublicKey::from_openssh(text) {
        Ok(key) => match key.to_openssh() {
            Ok(t) => Ok(t),
            Err(e) => Err(e.to_string()),
        },
        Err(e) => Err(e.to_string()),
    }
}

/// The fingerprint of a key.
///
/// Trusted: `ssh_key::PublicKey::fingerprint` with SHA-256, of the key that `from_openssh` reads
/// from the text, is a function of the text alone; `sha256_fingerprint` names how it reads.
#[verifier::external_body]
fn fingerprint_text(openssh: &str) -> (text: String)
    requires
        openssh_key(openssh@) is Ok,
    ensures
        text@ == sha256_fingerprint(openssh@),
{
    let key = ssh_key::PublicKey::from_openssh(openssh).expect("a key that was read before");
    key.fingerprint(ssh_key::HashAlg::Sha256).to_string()
}

/// A public key with its comment.
#[derive(Debug)]
pub struct PublicKey {
    openssh: String,
}

impl View for PublicKey {
    type V = Seq<char>;

    /// The text in which the key is written.
    closed spec fn view(&self) -> Seq<char> {
        self.openssh@
    }
}

impl PublicKey {
    /// The text is one in which a key is written.
    #[verifier::type_invariant]
    spec fn inv(self) -> bool {
        is_openssh(self.openssh@)
    }

    /// Reads a public key in OpenSSH format.
    pub fn from_openssh(text: &str) -> (key: Result<PublicKey, String>)
        ensures
            match key {
                Ok(k) => openssh_key(text@) == Ok::<Seq<char>, Seq<char>>(k@) && is_openssh(k@),
                Err(e) => openssh_key(text@) == Err::<Seq<char>, Seq<char>>(e@),
            },
    {
        match read_openssh(text) {
            Ok(openssh) => Ok(PublicKey { openssh }),
            Err(e) => Err(e),
        }
    }

    /// The key in OpenSSH format.
    pub fn to_openssh(&self) -> (text: String)
        ensures
            text@ == self@,
            is_openssh(text@),
    {
        proof {
            use_type_invariant(self);
        }
        self.openssh.clone()
    }

    /// The SHA-256 fingerprint of the key.
    pub fn fingerprint(&self) -> (text: String)
        ensures
            text@ == sha256_fingerprint(self@),
    {
        proof {
            use_type_invariant(self);
        }
        fingerprint_text(&self.openssh)
    }

    /// Whether two keys are the same, with their comments.
    pub fn same(&self, other: &PublicKey) -> (same: bool)
        ensures
            same == (self@ == other@),
    {
        same_text(&self.openssh, &other.openssh)
    }

    /// The same key once more.
    pub fn copy(&self) -> (key: PublicKey)
        ensures
            key@ == self@,
    {
        proof {
            use_type_invariant(self);
        }
        PublicKey { openssh: self.openssh.clone() }
    }
}

} // verus!
