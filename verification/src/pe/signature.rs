//! Authenticode signatures.
//!
//! A signature owns its signers and its certificates. A signer does not own
//! a certificate: it names one, by issuer and serial number, and the
//! certificate is looked up among those of the signature. That none is found
//! is an ordinary outcome. Each signer owns two lists of attributes, and an
//! attribute may in turn hold a whole signature or a signer, so signatures
//! nest.

use vstd::prelude::*;

verus! {

/// The public key of a certificate, as far as it is read here: its size.
#[derive(Debug, Clone, Copy, PartialEq, Eq, Structural)]
pub struct RsaInfo {
    /// The length of the key, in bits.
    pub key_size: u32,
}

/// An X.509 certificate of a signature.
#[derive(Debug)]
pub struct X509 {
    pub version: u32,
    pub serial_number: Vec<u8>,
    pub signature_algorithm: String,
    pub issuer: String,
    pub subject: String,
    pub rsa_info: Option<RsaInfo>,
    /// The signature of the certificate.
    pub signature: Vec<u8>,
    /// The certificate as it stands in the binary.
    pub raw: Vec<u8>,
}

/// What a signature signs.
#[derive(Debug)]
pub struct ContentInfo {
    pub content_type: String,
    pub digest_algorithm: u32,
    pub digest: Vec<u8>,
}

/// The attribute that names the type of the signed content.
#[derive(Debug)]
pub struct ContentType {
    pub oid: String,
}

/// An attribute that has no structure of its own here.
#[derive(Debug)]
pub struct GenericType {
    pub oid: String,
    pub raw_content: Vec<u8>,
}

/// The attribute that holds a further signature of the same binary.
#[derive(Debug)]
pub struct MsSpcNestedSignature {
    pub signature: Box<Signature>,
}

/// The attribute that says what kind of statement the signature makes.
#[derive(Debug)]
pub struct MsSpcStatementType {
    pub oid: String,
}

/// The attribute that numbers a signature among several.
#[derive(Debug, Clone, Copy, PartialEq, Eq, Structural)]
pub struct PKCS9AtSequenceNumber {
    pub number: u32,
}

/// The attribute that holds a signer who signed the signature itself.
#[derive(Debug)]
pub struct PKCS9CounterSignature {
    pub signer: Box<SignerInfo>,
}

/// The attribute that holds the digest of the signed content.
#[derive(Debug)]
pub struct PKCS9MessageDigest {
    pub digest: Vec<u8>,
}

/// The attribute that says when the signature was made.
#[derive(Debug, Clone, Copy, PartialEq, Eq, Structural)]
pub struct PKCS9SigningTime {
    pub year: u16,
    pub month: u8,
    pub day: u8,
    pub hour: u8,
    pub minute: u8,
    pub second: u8,
}

/// The attribute that describes the signed program.
#[derive(Debug)]
pub struct SpcSpOpusInfo {
    pub program_name: String,
    pub more_info: String,
}

/// An attribute of a signer. Every attribute is exactly one of these.
#[derive(Debug)]
pub enum Attribute {
    ContentType(ContentType),
    GenericType(GenericType),
    MsSpcNestedSignature(MsSpcNestedSignature),
    MsSpcStatementType(MsSpcStatementType),
    PKCS9AtSequenceNumber(PKCS9AtSequenceNumber),
    PKCS9CounterSignature(PKCS9CounterSignature),
    PKCS9MessageDigest(PKCS9MessageDigest),
    PKCS9SigningTime(PKCS9SigningTime),
    SpcSpOpusInfo(SpcSpOpusInfo),
}

/// A signer of a signature.
#[derive(Debug)]
pub struct SignerInfo {
    pub version: u32,
    /// The issuer of the certificate that the signer names.
    pub issuer: String,
    /// The serial number of the certificate that the signer names.
    pub serial_number: Vec<u8>,
    pub digest_algorithm: u32,
    pub encryption_algorithm: u32,
    pub encrypted_digest: Vec<u8>,
    pub authenticated_attributes: Vec<Attribute>,
    pub unauthenticated_attributes: Vec<Attribute>,
}

/// A signature with all that it owns.
#[derive(Debug)]
pub struct Signature {
    pub version: u32,
    pub digest_algorithm: u32,
    pub content_info: ContentInfo,
    pub certificates: Vec<X509>,
    pub signers: Vec<SignerInfo>,
    /// The signature as it stands in the binary.
    pub raw_der: Vec<u8>,
}

/// Whether two runs of bytes are the same.
fn same_bytes(left: &[u8], right: &[u8]) -> (same: bool)
    ensures
        same == (left@ == right@),
{
    if left.len() != right.len() {
        return false;
    }
    let mut i: usize = 0;
    while i < left.len()
        invariant
            i <= left@.len(),
            left@.len() == right@.len(),
            forall|j: int| 0 <= j < i ==> left@[j] == right@[j],
        decreases left.len() - i,
    {
        if left[i] != right[i] {
            return false;
        }
        i += 1;
    }
    assert(left@ =~= right@);
    true
}

impl X509 {
    /// Whether this is the certificate that `issuer` issued under
    /// `serial_number`.
    pub open spec fn is_named(&self, issuer: Seq<char>, serial_number: Seq<u8>) -> bool {
        self.issuer@ == issuer && self.serial_number@ == serial_number
    }
}

/// The certificate of `certificates` that `issuer` issued under
/// `serial_number`: the first such, in the order of the binary, and none
/// where there is no such certificate.
pub open spec fn lookup(certificates: Seq<X509>, issuer: Seq<char>, serial_number: Seq<u8>)
    -> Option<X509>
    decreases certificates.len(),
{
    if certificates.len() == 0 {
        None
    } else if certificates.first().is_named(issuer, serial_number) {
        Some(certificates.first())
    } else {
        lookup(certificates.drop_first(), issuer, serial_number)
    }
}

/// What a lookup finds is a certificate of the list with the name asked
/// for, and the first such; it finds none only where the list holds no
/// certificate with that name.
pub proof fn lemma_lookup_finds_first(
    certificates: Seq<X509>,
    issuer: Seq<char>,
    serial_number: Seq<u8>,
)
    ensures
        match lookup(certificates, issuer, serial_number) {
            Some(found) => exists|at: int|
                {
                    &&& 0 <= at < certificates.len()
                    &&& #[trigger] certificates[at] == found
                    &&& found.is_named(issuer, serial_number)
                    &&& forall|before: int|
                        0 <= before < at ==> !(#[trigger] certificates[before]).is_named(
                            issuer,
                            serial_number,
                        )
                },
            None => forall|at: int|
                0 <= at < certificates.len() ==> !(#[trigger] certificates[at]).is_named(
                    issuer,
                    serial_number,
                ),
        },
    decreases certificates.len(),
{
    if certificates.len() > 0 && !certificates.first().is_named(issuer, serial_number) {
        let rest = certificates.drop_first();
        lemma_lookup_finds_first(rest, issuer, serial_number);
        assert(forall|at: int| 0 <= at < rest.len() ==> rest[at] == certificates[at + 1]);
        match lookup(rest, issuer, serial_number) {
            Some(found) => {
                let at = choose|at: int|
                    {
                        &&& 0 <= at < rest.len()
                        &&& #[trigger] rest[at] == found
                        &&& found.is_named(issuer, serial_number)
                        &&& forall|before: int|
                            0 <= before < at ==> !(#[trigger] rest[before]).is_named(
                                issuer,
                                serial_number,
                            )
                    };
                assert(certificates[at + 1] == found);
                assert forall|before: int| 0 <= before < at + 1 implies !(
                #[trigger] certificates[before]).is_named(issuer, serial_number) by {
                    if before > 0 {
                        assert(rest[before - 1] == certificates[before]);
                    }
                }
            },
            None => {
                assert forall|at: int| 0 <= at < certificates.len() implies !(
                #[trigger] certificates[at]).is_named(issuer, serial_number) by {
                    if at > 0 {
                        assert(rest[at - 1] == certificates[at]);
                    }
                }
            },
        }
    } else if certificates.len() > 0 {
        assert(certificates[0] == certificates.first());
    }
}

/// A serial number that no certificate of the list carries names none of
/// them: the lookup then finds nothing, whatever the issuer.
pub proof fn lemma_lookup_unknown_serial_number(
    certificates: Seq<X509>,
    issuer: Seq<char>,
    serial_number: Seq<u8>,
)
    requires
        forall|at: int|
            0 <= at < certificates.len() ==> (#[trigger] certificates[at]).serial_number@
                != serial_number,
    ensures
        lookup(certificates, issuer, serial_number) is None,
{
    lemma_lookup_finds_first(certificates, issuer, serial_number);
}

impl Signature {
    /// Looks up the certificate that `issuer` issued under `serial_number`
    /// among the certificates of this signature.
    pub fn find_certificate(&self, issuer: &String, serial_number: &[u8]) -> (found: Option<&X509>)
        ensures
            match found {
                Some(certificate) => lookup(self.certificates@, issuer@, serial_number@) == Some(
                    *certificate,
                ),
                None => lookup(self.certificates@, issuer@, serial_number@) is None,
            },
    {
        let mut i: usize = 0;
        assert(self.certificates@.skip(0) =~= self.certificates@);
        while i < self.certificates.len()
            invariant
                i <= self.certificates@.len(),
                lookup(self.certificates@, issuer@, serial_number@) == lookup(
                    self.certificates@.skip(i as int),
                    issuer@,
                    serial_number@,
                ),
            decreases self.certificates.len() - i,
        {
            let certificate = &self.certificates[i];
            let ghost rest = self.certificates@.skip(i as int);
            assert(rest.first() == *certificate);
            assert(rest.drop_first() =~= self.certificates@.skip(i + 1));
            if certificate.issuer == *issuer && same_bytes(
                certificate.serial_number.as_slice(),
                serial_number,
            ) {
                return Some(certificate);
            }
            i += 1;
        }
        None
    }
}

impl SignerInfo {
    /// The certificate that this signer names, looked up in `signature`.
    /// A signer may name a certificate that the signature does not hold:
    /// the lookup then gives `None`.
    pub fn cert<'a>(&self, signature: &'a Signature) -> (found: Option<&'a X509>)
        ensures
            match found {
                Some(certificate) => lookup(
                    signature.certificates@,
                    self.issuer@,
                    self.serial_number@,
                ) == Some(*certificate),
                None => lookup(signature.certificates@, self.issuer@, self.serial_number@)
                    is None,
            },
    {
        signature.find_certificate(&self.issuer, self.serial_number.as_slice())
    }

    /// The attributes that the signature covers, in the order in which the
    /// signer lists them. The list is borrowed: asking again gives the same.
    pub fn authenticated_attributes(&self) -> (attributes: &[Attribute])
        ensures
            attributes@ == self.authenticated_attributes@,
    {
        self.authenticated_attributes.as_slice()
    }

    /// The attributes that the signature does not cover, in the order in
    /// which the signer lists them.
    pub fn unauthenticated_attributes(&self) -> (attributes: &[Attribute])
        ensures
            attributes@ == self.unauthenticated_attributes@,
    {
        self.unauthenticated_attributes.as_slice()
    }
}

} // verus!
