//! Certificate identities: an X.509 certificate together with its private
//! key, either a self-signed authority or a leaf that an authority signed.
//!
//! The cryptography is OpenSSL's. This module decides what is asked of it:
//! key size, serial width, validity, names, extensions, and who signs. That
//! request is a plain value with an exact contract. Every certificate and
//! key travels with a model of what it holds, kept by the functions that
//! call OpenSSL; what this module states of an identity is stated of that
//! model.

use vstd::prelude::*;
use vstd::arithmetic::power2::{lemma2_to64, pow2};
use openssl::error::ErrorStack;
use openssl::pkey::{PKey, Private};
use openssl::x509::X509;
use crate::proxy::trusted::{
    append_extension, basic_constraints, build_constraints, days_from_now, dns_alt_name, finish,
    generate_rsa_key, mark_authority, mark_critical, name_with_common_name, new_certificate,
    random_serial, set_issuer_name, set_not_after, set_not_before, set_pubkey, set_serial_number,
    set_subject_name, set_version, sha256, sign, subject_name, CertModel, Content, Described,
    ExtensionModel,
};

verus! {


/// Size of every RSA key generated here, in bits.
pub const KEY_BITS: u32 = 2048;

/// Width of the random serial number, in bits.
pub const SERIAL_BITS: i32 = 32;

/// Days between `notBefore` (the moment of minting) and `notAfter`.
pub const VALIDITY_DAYS: u32 = 2048;

/// The value OpenSSL takes for X.509 version 3 (versions count from zero).
pub const X509_V3: i32 = 2;

/// Longest name, in bytes, that OpenSSL's length type can carry.
pub const MAX_NAME_BYTES: usize = 0x7fff_ffff;

/// Who signs a new identity.
pub enum IdentityType<'a> {
    /// The identity signs itself and may sign others.
    Ca,
    /// The identity is a leaf, signed by the given one.
    Entity(&'a Identity),
}

/// The digest under a certificate's signature.
#[derive(Clone, Copy, Debug, PartialEq, Eq, Structural)]
pub enum Digest {
    /// SHA-256.
    Sha256,
}

/// What is asked of OpenSSL for one identity.
#[derive(Debug, PartialEq, Eq)]
pub struct CertRequest {
    /// The subject's common name.
    pub common_name: String,
    /// Whether the certificate is an authority's: marked so in its basic
    /// constraints, issued by itself and signed with its own key.
    pub authority: bool,
    /// The one DNS name of the subject alternative name extension, where
    /// the certificate has that extension.
    pub alt_name: Option<String>,
    /// Size of the RSA key, in bits.
    pub key_bits: u32,
    /// Width of the random serial number, in bits.
    pub serial_bits: i32,
    /// The X.509 version, counted from zero.
    pub version: i32,
    /// Days from the moment of minting to the end of validity.
    pub validity_days: u32,
    /// Whether the basic constraints extension is critical.
    pub constraints_critical: bool,
    /// The digest under the signature.
    pub digest: Digest,
}

/// A request as mathematical values.
pub struct CertRequestView {
    /// The subject's common name.
    pub common_name: Seq<char>,
    /// Whether the certificate is an authority's.
    pub authority: bool,
    /// The one DNS name of the subject alternative name extension.
    pub alt_name: Option<Seq<char>>,
    /// Size of the RSA key, in bits.
    pub key_bits: u32,
    /// Width of the random serial number, in bits.
    pub serial_bits: i32,
    /// The X.509 version, counted from zero.
    pub version: i32,
    /// Days from the moment of minting to the end of validity.
    pub validity_days: u32,
    /// Whether the basic constraints extension is critical.
    pub constraints_critical: bool,
    /// The digest under the signature.
    pub digest: Digest,
}

impl View for CertRequest {
    type V = CertRequestView;

    open spec fn view(&self) -> CertRequestView {
        CertRequestView {
            common_name: self.common_name@,
            authority: self.authority,
            alt_name: match self.alt_name {
                Some(name) => Some(name@),
                None => None,
            },
            key_bits: self.key_bits,
            serial_bits: self.serial_bits,
            version: self.version,
            validity_days: self.validity_days,
            constraints_critical: self.constraints_critical,
            digest: self.digest,
        }
    }
}

/// The request for an identity named `name`.
///
/// Every identity has a 2048-bit RSA key, a random serial of 32 bits, X.509
/// version 3, 2048 days of validity, critical basic constraints and a
/// SHA-256 signature. An authority has no alternative name; a leaf has its
/// own name as the one DNS alternative name.
pub open spec fn request_for(name: Seq<char>, authority: bool) -> CertRequestView {
    CertRequestView {
        common_name: name,
        authority,
        alt_name: if authority {
            None
        } else {
            Some(name)
        },
        key_bits: KEY_BITS,
        serial_bits: SERIAL_BITS,
        version: X509_V3,
        validity_days: VALIDITY_DAYS,
        constraints_critical: true,
        digest: Digest::Sha256,
    }
}

impl CertRequest {
    /// The request for an identity named `name`.
    pub fn new(name: &str, authority: bool) -> (request: Self)
        ensures
            request@ == request_for(name@, authority),
    {
        CertRequest {
            common_name: name.to_owned(),
            authority,
            alt_name: if authority {
                None
            } else {
                Some(name.to_owned())
            },
            key_bits: KEY_BITS,
            serial_bits: SERIAL_BITS,
            version: X509_V3,
            validity_days: VALIDITY_DAYS,
            constraints_critical: true,
            digest: Digest::Sha256,
        }
    }
}

impl Clone for CertRequest {
    fn clone(&self) -> (copy: Self)
        ensures
            copy == *self,
    {
        CertRequest {
            common_name: self.common_name.clone(),
            authority: self.authority,
            alt_name: match &self.alt_name {
                Some(name) => Some(name.clone()),
                None => None,
            },
            key_bits: self.key_bits,
            serial_bits: self.serial_bits,
            version: self.version,
            validity_days: self.validity_days,
            constraints_critical: self.constraints_critical,
            digest: self.digest,
        }
    }
}

/// A certificate and the private key that belongs to it, with the request
/// they were minted from.
pub struct Identity {
    certificate: Described<X509, CertModel>,
    private_key: Described<PKey<Private>, u32>,
    request: CertRequest,
}

/// An identity as mathematical values.
pub struct IdentityView {
    /// The request the identity was minted from.
    pub request: CertRequestView,
    /// The certificate.
    pub x509: X509,
    /// What the certificate holds.
    pub certificate: CertModel,
    /// The private key.
    pub private_key: PKey<Private>,
    /// The size of the private key, in bits.
    pub key_bits: u32,
}

impl View for Identity {
    type V = IdentityView;

    closed spec fn view(&self) -> IdentityView {
        IdentityView {
            request: self.request@,
            x509: self.certificate.spec_inner(),
            certificate: self.certificate.model(),
            private_key: self.private_key.spec_inner(),
            key_bits: self.private_key.model(),
        }
    }
}

/// The common name of the authority.
pub open spec fn ca_common_name() -> Seq<char> {
    "bridgeburner"@
}

/// The extensions of a certificate for `name`: critical basic constraints
/// that mark an authority as one, and for a leaf the subject alternative
/// name with the one entry `DNS:name`.
pub open spec fn extensions_for(name: Seq<char>, authority: bool) -> Seq<ExtensionModel> {
    if authority {
        seq![ExtensionModel::BasicConstraints { critical: true, ca: true }]
    } else {
        seq![
            ExtensionModel::BasicConstraints { critical: true, ca: false },
            ExtensionModel::SubjectAltName { dns: seq![name] },
        ]
    }
}

/// What an identity named `name` is, once minted: by itself where `signer`
/// is `None`, else as a leaf of that signer.
///
/// The key has 2048 bits and its public half is the certificate's. The
/// certificate is version 3, has a serial number below `2^32`, the one
/// common name `name` as subject, validity from the moment of minting for
/// 2048 days, and the extensions of [`extensions_for`]. An authority names
/// itself as issuer and is signed with its own key; a leaf names the
/// signer's subject and is signed with the signer's key. The signature is
/// SHA-256 and covers all of this.
pub open spec fn minted(identity: IdentityView, name: Seq<char>, signer: Option<IdentityView>) -> bool {
    let authority = signer is None;
    let content = identity.certificate.content;
    &&& identity.request == request_for(name, authority)
    &&& identity.key_bits == KEY_BITS
    &&& content.serial matches Some(serial) && serial < 0x1_0000_0000
    &&& content == (Content {
        version: Some(X509_V3),
        serial: content.serial,
        subject: seq![name],
        issuer: match signer {
            None => seq![name],
            Some(s) => s.certificate.content.subject,
        },
        not_before: Some(0u32),
        not_after: Some(VALIDITY_DAYS),
        public_key: Some(identity.private_key),
        extensions: extensions_for(name, authority),
    })
    &&& identity.certificate.is_signed_by(
        match signer {
            None => identity.private_key,
            Some(s) => s.private_key,
        },
        Digest::Sha256,
    )
}

impl Clone for Identity {
    fn clone(&self) -> (copy: Self)
        ensures
            copy == *self,
    {
        Identity {
            certificate: self.certificate.clone(),
            private_key: self.private_key.clone(),
            request: self.request.clone(),
        }
    }
}

impl Identity {
    /// The certificate that belongs to the identity: what
    /// [`Identity::cert_ref`] hands out.
    pub closed spec fn spec_certificate(&self) -> X509 {
        self.certificate.spec_inner()
    }

    /// The private key that belongs to the certificate.
    pub closed spec fn spec_private_key(&self) -> PKey<Private> {
        self.private_key.spec_inner()
    }

    /// The view holds the certificate and the key themselves.
    pub proof fn lemma_view_holds_both(&self)
        ensures
            self@.x509 == self.spec_certificate(),
            self@.private_key == self.spec_private_key(),
    {
    }

    /// Puts an identity together from what OpenSSL returned for a request:
    /// that certificate, that key, and the request they were minted from.
    fn assemble(
        certificate: Described<X509, CertModel>,
        private_key: Described<PKey<Private>, u32>,
        request: CertRequest,
    ) -> (identity: Self)
        ensures
            identity@ == (IdentityView {
                request: request@,
                x509: certificate.spec_inner(),
                certificate: certificate.model(),
                private_key: private_key.spec_inner(),
                key_bits: private_key.model(),
            }),
    {
        Identity { certificate, private_key, request }
    }

    /// Mints a self-signed authority named `bridgeburner`.
    ///
    /// Whether minting succeeds is OpenSSL's to decide; an identity that
    /// comes back is as [`minted`] says.
    pub fn certificate_authority() -> (r: Result<Self, ()>)
        ensures
            r matches Ok(identity) ==> minted(identity@, ca_common_name(), None),
    {
        let name = "bridgeburner";
        proof {
            reveal_strlit("bridgeburner");
            vstd::utf8::is_ascii_chars_encode_utf8(name@);
        }
        match Self::build(name, IdentityType::Ca) {
            Ok(identity) => Ok(identity),
            Err(_) => Err(()),
        }
    }

    /// Mints a leaf for `dns`, signed by `ca`. The name becomes both the
    /// common name and the one DNS entry of the subject alternative name.
    ///
    /// A name longer than [`MAX_NAME_BYTES`] is refused. For any other,
    /// whether minting succeeds is OpenSSL's to decide; an identity that
    /// comes back is as [`minted`] says.
    pub fn entity_certificate(ca: &Self, dns: &str) -> (r: Result<Self, ()>)
        ensures
            dns.len() > MAX_NAME_BYTES ==> r is Err,
            r matches Ok(identity) ==> minted(identity@, dns@, Some(ca@)),
    {
        if dns.len() > MAX_NAME_BYTES {
            return Err(());
        }
        match Self::build(dns, IdentityType::Entity(ca)) {
            Ok(identity) => Ok(identity),
            Err(_) => Err(()),
        }
    }

    /// Mints an identity named `name`, as [`minted`] says.
    ///
    /// Everything is set before the signature is made, so that the
    /// signature covers it.
    fn build(name: &str, identity_type: IdentityType) -> (r: Result<Self, ErrorStack>)
        requires
            name.len() <= MAX_NAME_BYTES,
        ensures
            r matches Ok(identity) ==> minted(
                identity@,
                name@,
                match identity_type {
                    IdentityType::Ca => None,
                    IdentityType::Entity(signer) => Some(signer@),
                },
            ),
    {
        let authority = match identity_type {
            IdentityType::Ca => true,
            IdentityType::Entity(_) => false,
        };
        let request = CertRequest::new(name, authority);

        let private_key = generate_rsa_key(request.key_bits)?;
        let serial = random_serial(request.serial_bits)?;
        proof {
            lemma2_to64();
        }
        let subject = name_with_common_name(request.common_name.as_str())?;

        let mut certificate = new_certificate()?;
        set_version(&mut certificate, request.version)?;
        set_serial_number(&mut certificate, &serial)?;
        set_subject_name(&mut certificate, &subject)?;
        let not_before = days_from_now(0)?;
        set_not_before(&mut certificate, &not_before)?;
        let not_after = days_from_now(request.validity_days)?;
        set_not_after(&mut certificate, &not_after)?;
        set_pubkey(&mut certificate, &private_key)?;

        let mut constraints = basic_constraints();
        if request.constraints_critical {
            mark_critical(&mut constraints);
        }
        if request.authority {
            mark_authority(&mut constraints);
        }
        let extension = build_constraints(&constraints)?;
        append_extension(&mut certificate, extension)?;

        let digest = match request.digest {
            Digest::Sha256 => sha256(),
        };
        match identity_type {
            IdentityType::Ca => {
                set_issuer_name(&mut certificate, &subject)?;
                assert(certificate.model().content.extensions =~= extensions_for(name@, true));
                sign(&mut certificate, &private_key, digest)?;
            },
            IdentityType::Entity(signer) => {
                let issuer = subject_name(&signer.certificate)?;
                set_issuer_name(&mut certificate, &issuer)?;
                match &request.alt_name {
                    Some(dns) => {
                        let alt_name = dns_alt_name(&certificate, &signer.certificate, dns.as_str())?;
                        append_extension(&mut certificate, alt_name)?;
                    },
                    None => {},
                }
                assert(certificate.model().content.extensions =~= extensions_for(name@, false));
                sign(&mut certificate, &signer.private_key, digest)?;
            },
        }

        Ok(Self::assemble(finish(certificate), private_key, request))
    }

    /// The identity's certificate.
    pub fn cert_ref(&self) -> (certificate: &X509)
        ensures
            *certificate == self.spec_certificate(),
    {
        self.certificate.inner()
    }

    /// The identity's private key.
    pub fn key_ref(&self) -> (key: &PKey<Private>)
        ensures
            *key == self.spec_private_key(),
    {
        self.private_key.inner()
    }

    /// The request the identity was minted from.
    pub fn request(&self) -> (request: &CertRequest)
        ensures
            request@ == self@.request,
    {
        &self.request
    }

    /// The subject's common name, as asked for at minting.
    pub fn common_name(&self) -> (name: &str)
        ensures
            name@ == self@.request.common_name,
    {
        self.request.common_name.as_str()
    }

    /// Whether the identity was minted as an authority.
    pub fn is_authority(&self) -> (authority: bool)
        ensures
            authority == self@.request.authority,
    {
        self.request.authority
    }
}

} // verus!
