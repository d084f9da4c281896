//! Certificate fingerprints and trust-on-first-use pinning.
use crate::clipboard::blake3_digest;
use crate::error::Error;
use crate::text::{path_join, joined_path};
use vstd::prelude::*;

verus! {

/// The lowercase hexadecimal digit for `d` (0 to 15).
pub open spec fn hex_digit(d: nat) -> char {
    if d < 10 {
        (('0' as nat) + d) as char
    } else {
        (('a' as nat) + (d - 10)) as char
    }
}

/// Lowercase hex: two digits per byte, high nibble first.
pub open spec fn hex_lower(bytes: Seq<u8>) -> Seq<char>
    decreases bytes.len(),
{
    if bytes.len() == 0 {
        seq![]
    } else {
        seq![hex_digit(bytes[0] as nat / 16), hex_digit(bytes[0] as nat % 16)] + hex_lower(bytes.drop_first())
    }
}

/// `hex::encode`: the input as lowercase hex, two digits per byte.
#[verifier::external_body]
pub(crate) fn hex_encode(bytes: &[u8]) -> (s: String)
    ensures
        s@ == hex_lower(bytes@),
{
    hex::encode(bytes)
}

/// The fingerprint of a DER certificate shown to users and pinned by peers:
/// its BLAKE3 digest in lowercase hex.
pub fn cert_fingerprint(der: &[u8]) -> (s: String)
    ensures
        s@ == hex_lower(blake3_digest(der@)),
{
    let digest = crate::clipboard::hash_content(der);
    hex_encode(&digest)
}

/// `c` with ASCII uppercase letters made lowercase.
pub open spec fn ascii_lower(c: char) -> char {
    if 'A' <= c && c <= 'Z' {
        ((c as nat) + 32) as char
    } else {
        c
    }
}

/// The two texts are equal when ASCII letters are compared without case.
pub open spec fn eq_ignore_ascii_case(a: Seq<char>, b: Seq<char>) -> bool {
    a.len() == b.len() && forall|i: int| 0 <= i < a.len() ==> #[trigger] ascii_lower(a[i]) == ascii_lower(b[i])
}

/// `c` with ASCII uppercase letters made lowercase.
fn to_ascii_lower(c: char) -> (r: char)
    ensures
        r == ascii_lower(c),
{
    if 'A' <= c && c <= 'Z' {
        ((c as u8) + 32) as char
    } else {
        c
    }
}

/// Whether the texts are equal when ASCII letters are compared without case.
pub fn equal_ignoring_ascii_case(a: &str, b: &str) -> (r: bool)
    ensures
        r == eq_ignore_ascii_case(a@, b@),
{
    let n = a.unicode_len();
    if n != b.unicode_len() {
        return false;
    }
    let mut i: usize = 0;
    while i < n
        invariant
            n == a@.len(),
            n == b@.len(),
            i <= n,
            forall|j: int| 0 <= j < i ==> #[trigger] ascii_lower(a@[j]) == ascii_lower(b@[j]),
        decreases n - i,
    {
        if to_ascii_lower(a.get_char(i)) != to_ascii_lower(b.get_char(i)) {
            return false;
        }
        i = i + 1;
    }
    true
}

/// A peer's certificate with fingerprint `fp` is trusted when one of the
/// pinned fingerprints equals it without regard to case. With no pin, no
/// certificate is trusted.
pub open spec fn spec_fingerprint_trusted(pinned: Seq<Seq<char>>, fp: Seq<char>) -> bool {
    exists|i: int| 0 <= i < pinned.len() && #[trigger] eq_ignore_ascii_case(pinned[i], fp)
}

/// Whether a server certificate with fingerprint `fp` is trusted under the
/// pin list.
pub fn fingerprint_trusted(pinned: &Vec<String>, fp: &str) -> (b: bool)
    ensures
        b == spec_fingerprint_trusted(pinned@.map_values(|p: String| p@), fp@),
{
    let ghost pins = pinned@.map_values(|p: String| p@);
    let mut i: usize = 0;
    while i < pinned.len()
        invariant
            i <= pinned@.len(),
            pins == pinned@.map_values(|p: String| p@),
            forall|j: int| 0 <= j < i ==> !#[trigger] eq_ignore_ascii_case(pins[j], fp@),
        decreases pinned@.len() - i,
    {
        if equal_ignoring_ascii_case(pinned[i].as_str(), fp) {
            assert(eq_ignore_ascii_case(pins[i as int], fp@));
            return true;
        }
        i = i + 1;
    }
    false
}

/// The text "server cert fingerprint FP not in pin list".
pub open spec fn msg_not_pinned(fp: Seq<char>) -> Seq<char> {
    seq!['s', 'e', 'r', 'v', 'e', 'r', ' ', 'c', 'e', 'r', 't', ' ', 'f', 'i', 'n', 'g', 'e', 'r', 'p', 'r', 'i', 'n', 't', ' ']
        + fp + seq![' ', 'n', 'o', 't', ' ', 'i', 'n', ' ', 'p', 'i', 'n', ' ', 'l', 'i', 's', 't']
}

/// The client's check of the server's end-entity certificate `der`: it
/// passes when its fingerprint is trusted under the pin list, and otherwise
/// fails naming the fingerprint.
pub fn check_server_cert(pinned: &Vec<String>, der: &[u8]) -> (r: Result<(), String>)
    ensures
        ({
            let fp = hex_lower(blake3_digest(der@));
            &&& spec_fingerprint_trusted(pinned@.map_values(|p: String| p@), fp) ==> r is Ok
            &&& !spec_fingerprint_trusted(pinned@.map_values(|p: String| p@), fp) ==> (r matches Err(m) && m@
                == msg_not_pinned(fp))
        }),
{
    let fp = cert_fingerprint(der);
    if fingerprint_trusted(pinned, fp.as_str()) {
        return Ok(());
    }
    proof {
        reveal_strlit("server cert fingerprint ");
        reveal_strlit(" not in pin list");
    }
    let mut m = String::from_str("server cert fingerprint ");
    m.append(fp.as_str());
    m.append(" not in pin list");
    assert(m@ =~= msg_not_pinned(fp@));
    Err(m)
}

/// The name both sides use for the TLS server.
pub open spec fn server_name() -> Seq<char> {
    seq!['i', 'n', 'p', 'u', 't', 's', 'y', 'n', 'c', '.', 'l', 'o', 'c', 'a', 'l']
}

/// The ALPN protocol both sides offer, "inputsync/1", as bytes.
pub open spec fn alpn_protocol() -> Seq<u8> {
    seq![105u8, 110, 112, 117, 116, 115, 121, 110, 99, 47, 49]
}

/// The ALPN protocol both sides offer.
pub fn alpn_protocol_bytes() -> (v: Vec<u8>)
    ensures
        v@ == alpn_protocol(),
{
    let v: Vec<u8> = vec![105u8, 110, 112, 117, 116, 115, 121, 110, 99, 47, 49];
    assert(v@ =~= alpn_protocol());
    v
}

/// A certificate and its private key, both DER, or the generator's error
/// message.
pub type GeneratedCert = Result<(Vec<u8>, Vec<u8>), String>;

/// `rcgen::generate_simple_self_signed` for the one subject name `name`,
/// returning the certificate's DER and the key pair's serialized DER. The
/// key is random, so nothing is stated of what comes back.
#[verifier::external_body]
fn generate_self_signed(name: &str) -> (r: GeneratedCert) {
    match rcgen::generate_simple_self_signed(vec![name.to_string()]) {
        Ok(c) => Ok((c.cert.der().to_vec(), c.key_pair.serialize_der())),
        Err(e) => Err(e.to_string()),
    }
}

/// This machine's certificate: its DER, the DER of its PKCS#8 private key,
/// and the fingerprint peers pin.
#[derive(Debug)]
pub struct CertBundle {
    pub cert_der: Vec<u8>,
    pub key_der: Vec<u8>,
    pub fingerprint_hex: String,
}

impl Clone for CertBundle {
    /// A copy with the same certificate, key and fingerprint.
    fn clone(&self) -> (c: Self)
        ensures
            c.cert_der@ == self.cert_der@,
            c.key_der@ == self.key_der@,
            c.fingerprint_hex == self.fingerprint_hex,
    {
        let cert_der = self.cert_der.clone();
        let key_der = self.key_der.clone();
        assert(cert_der@ =~= self.cert_der@);
        assert(key_der@ =~= self.key_der@);
        CertBundle { cert_der, key_der, fingerprint_hex: self.fingerprint_hex.clone() }
    }
}

impl CertBundle {
    /// The bundle for a certificate and key read back from disk.
    pub fn from_der(cert_der: Vec<u8>, key_der: Vec<u8>) -> (b: Self)
        ensures
            b.cert_der@ == cert_der@,
            b.key_der@ == key_der@,
            b.fingerprint_hex@ == hex_lower(blake3_digest(cert_der@)),
    {
        let fingerprint_hex = cert_fingerprint(cert_der.as_slice());
        CertBundle { cert_der, key_der, fingerprint_hex }
    }

    /// A fresh self-signed certificate for `inputsync.local`, with its
    /// fingerprint. A generator failure is a network error naming it.
    pub fn generate() -> (r: Result<Self, Error>)
        ensures
            r matches Ok(b) ==> b.fingerprint_hex@ == hex_lower(blake3_digest(b.cert_der@)),
            r matches Err(e) ==> (e matches Error::Network(m) && m@.len() >= 17 && m@.subrange(0, 17) == seq![
                'c', 'e', 'r', 't', ' ', 'g', 'e', 'n', 'e', 'r', 'a', 't', 'i', 'o', 'n', ':', ' ',
            ]),
    {
        proof {
            reveal_strlit("inputsync.local");
            reveal_strlit("cert generation: ");
        }
        match generate_self_signed("inputsync.local") {
            Ok((cert_der, key_der)) => Ok(Self::from_der(cert_der, key_der)),
            Err(msg) => {
                let mut m = String::from_str("cert generation: ");
                m.append(msg.as_str());
                assert(m@.subrange(0, 17) =~= seq![
                    'c', 'e', 'r', 't', ' ', 'g', 'e', 'n', 'e', 'r', 'a', 't', 'i', 'o', 'n', ':', ' ',
                ]);
                Err(Error::Network(m))
            },
        }
    }
}

/// Where the certificate and its key are kept.
#[derive(Debug, Clone)]
pub struct CertPaths {
    pub dir: String,
}

impl CertPaths {
    /// The certificate file, `cert.der` in the directory.
    pub fn cert_file(&self) -> (p: String)
        ensures
            p@ == joined_path(self.dir@, seq!['c', 'e', 'r', 't', '.', 'd', 'e', 'r']),
    {
        proof {
            reveal_strlit("cert.der");
        }
        assert("cert.der"@ =~= seq!['c', 'e', 'r', 't', '.', 'd', 'e', 'r']);
        path_join(self.dir.as_str(), "cert.der")
    }

    /// The key file, `key.der` in the directory.
    pub fn key_file(&self) -> (p: String)
        ensures
            p@ == joined_path(self.dir@, seq!['k', 'e', 'y', '.', 'd', 'e', 'r']),
    {
        proof {
            reveal_strlit("key.der");
        }
        assert("key.der"@ =~= seq!['k', 'e', 'y', '.', 'd', 'e', 'r']);
        path_join(self.dir.as_str(), "key.der")
    }
}

/// Law: a client with no pin trusts no server certificate, and a pinned
/// fingerprint trusts the certificate it names in any letter case.
pub proof fn lemma_pinning(pinned: Seq<Seq<char>>, fp: Seq<char>, i: int)
    requires
        0 <= i < pinned.len() ==> pinned[i] == fp,
    ensures
        pinned.len() == 0 ==> !spec_fingerprint_trusted(pinned, fp),
        0 <= i < pinned.len() ==> spec_fingerprint_trusted(pinned, fp),
{
    if 0 <= i < pinned.len() {
        assert(eq_ignore_ascii_case(pinned[i], fp));
    }
}

} // verus!
