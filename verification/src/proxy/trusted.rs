//! What the engine takes from OpenSSL and tokio, and what it believes of it.
//!
//! The values of those crates are opaque. Each travels together with a
//! model: a mathematical description of what the value holds, as far as the
//! engine has asked for it. The pair has private fields, so that only the
//! functions of this module can put a model beside a value. Those functions
//! call into the outside crate; their bodies are not verified, and their
//! contracts say of the model what the crate's source and documentation say
//! of the call. Whether a call succeeds is never promised.

use vstd::prelude::*;
use vstd::arithmetic::power2::pow2;
use openssl::asn1::{Asn1Integer, Asn1Time};
use openssl::bn::{BigNum, MsbOption};
use openssl::error::ErrorStack;
use openssl::hash::MessageDigest;
use openssl::nid::Nid;
use openssl::pkey::{PKey, Private};
use openssl::rsa::Rsa;
use openssl::ssl::{Ssl, SslAcceptor, SslAcceptorBuilder, SslMethod};
use openssl::x509::extension::{BasicConstraints, SubjectAlternativeName};
use openssl::x509::{X509, X509Builder, X509Extension, X509Name};
use tokio::sync::oneshot::error::RecvError;
use tokio::sync::oneshot::{channel, Receiver, Sender};
use crate::proxy::certs::Digest;

verus! {

/// `openssl::error::ErrorStack`: what OpenSSL reports of a failure. Opaque.
#[verifier::external_type_specification]
#[verifier::external_body]
pub struct ExErrorStack(ErrorStack);

/// `openssl::pkey::Private`: the tag of a key that has its private half.
#[verifier::external_type_specification]
#[verifier::external_body]
pub struct ExPrivate(Private);

/// `openssl::pkey::PKey`: a key, owned. Opaque.
#[verifier::external_type_specification]
#[verifier::external_body]
#[verifier::reject_recursive_types(T)]
pub struct ExPKey<T>(PKey<T>);

/// `openssl::x509::X509`: a certificate, owned. Opaque.
#[verifier::external_type_specification]
#[verifier::external_body]
pub struct ExX509(X509);

/// `openssl::x509::X509Builder`: a certificate under construction. Opaque.
#[verifier::external_type_specification]
#[verifier::external_body]
pub struct ExX509Builder(X509Builder);

/// `openssl::x509::X509Name`: a distinguished name. Opaque.
#[verifier::external_type_specification]
#[verifier::external_body]
pub struct ExX509Name(X509Name);

/// `openssl::x509::X509Extension`: one certificate extension. Opaque.
#[verifier::external_type_specification]
#[verifier::external_body]
pub struct ExX509Extension(X509Extension);

/// `openssl::asn1::Asn1Integer`: an ASN.1 integer. Opaque.
#[verifier::external_type_specification]
#[verifier::external_body]
pub struct ExAsn1Integer(Asn1Integer);

/// `openssl::asn1::Asn1Time`: an ASN.1 time. Opaque.
#[verifier::external_type_specification]
#[verifier::external_body]
pub struct ExAsn1Time(Asn1Time);

/// `openssl::hash::MessageDigest`: the choice of a digest. Opaque.
#[verifier::external_type_specification]
#[verifier::external_body]
pub struct ExMessageDigest(MessageDigest);

/// `openssl::x509::extension::BasicConstraints`: a basic constraints
/// extension under construction. Opaque.
#[verifier::external_type_specification]
#[verifier::external_body]
pub struct ExBasicConstraints(BasicConstraints);

/// `openssl::ssl::SslAcceptorBuilder`: an acceptor under construction.
/// Opaque.
#[verifier::external_type_specification]
#[verifier::external_body]
pub struct ExSslAcceptorBuilder(SslAcceptorBuilder);

/// `openssl::ssl::SslAcceptor`: the server side's TLS settings. Opaque.
#[verifier::external_type_specification]
#[verifier::external_body]
pub struct ExSslAcceptor(SslAcceptor);

/// `openssl::ssl::Ssl`: the state of one TLS connection. Opaque.
#[verifier::external_type_specification]
#[verifier::external_body]
pub struct ExSsl(Ssl);

/// `tokio::sync::oneshot::Sender`: the sending end of a channel for one
/// value. Opaque.
#[verifier::external_type_specification]
#[verifier::external_body]
#[verifier::reject_recursive_types(T)]
pub struct ExSender<T>(Sender<T>);

/// `tokio::sync::oneshot::Receiver`: the receiving end of a channel for
/// one value. Opaque.
#[verifier::external_type_specification]
#[verifier::external_body]
#[verifier::reject_recursive_types(T)]
pub struct ExReceiver<T>(Receiver<T>);

/// `tokio::sync::oneshot::error::RecvError`: what a receiver yields when
/// its sender is gone. Opaque.
#[verifier::external_type_specification]
#[verifier::external_body]
pub struct ExRecvError(RecvError);

/// `X509::clone` takes one more reference to the same certificate object, so
/// the clone is the value it was made from.
pub assume_specification[ <X509 as Clone>::clone ](cert: &X509) -> (copy: X509)
    ensures
        copy == *cert,
;

/// `PKey::clone` takes one more reference to the same key object, so the
/// clone is the value it was made from.
pub assume_specification<T>[ <PKey<T> as Clone>::clone ](key: &PKey<T>) -> (copy: PKey<T>)
    ensures
        copy == *key,
;

/// One extension of a certificate.
#[verifier::ext_equal]
pub enum ExtensionModel {
    /// Basic constraints.
    BasicConstraints {
        /// Whether the extension is critical.
        critical: bool,
        /// Whether the subject is an authority.
        ca: bool,
    },
    /// Subject alternative name, not critical.
    SubjectAltName {
        /// The DNS names, in order; there is no entry of another kind.
        dns: Seq<Seq<char>>,
    },
}

/// What a certificate says, apart from its signature. A field that was
/// never set is `None` or empty.
#[verifier::ext_equal]
pub struct Content {
    /// The X.509 version, counted from zero.
    pub version: Option<i32>,
    /// The serial number.
    pub serial: Option<nat>,
    /// The common names of the subject, in order; the subject has no entry
    /// of another kind.
    pub subject: Seq<Seq<char>>,
    /// The common names of the issuer, in order.
    pub issuer: Seq<Seq<char>>,
    /// Start of validity, in days after the moment of minting.
    pub not_before: Option<u32>,
    /// End of validity, in days after the moment of minting.
    pub not_after: Option<u32>,
    /// The key whose public half the certificate carries.
    pub public_key: Option<PKey<Private>>,
    /// The extensions, in the order in which they were added.
    pub extensions: Seq<ExtensionModel>,
}

/// A signature on a certificate.
#[verifier::ext_equal]
pub struct Signature {
    /// The key that signed.
    pub signer: PKey<Private>,
    /// The digest under the signature.
    pub digest: Digest,
    /// What the certificate said when it was signed.
    pub content: Content,
}

/// What a certificate holds.
#[verifier::ext_equal]
pub struct CertModel {
    /// What the certificate says.
    pub content: Content,
    /// The signature, once there is one. It stays as it is when the
    /// content changes after signing, and is then no longer valid.
    pub signature: Option<Signature>,
}

impl CertModel {
    /// A certificate on which nothing was set.
    pub open spec fn blank() -> CertModel {
        CertModel {
            content: Content {
                version: None,
                serial: None,
                subject: Seq::empty(),
                issuer: Seq::empty(),
                not_before: None,
                not_after: None,
                public_key: None,
                extensions: Seq::empty(),
            },
            signature: None,
        }
    }

    /// The same with other content and the signature it had.
    pub open spec fn with_content(self, content: Content) -> CertModel {
        CertModel { content, signature: self.signature }
    }

    /// The same, signed now by `signer` over what it says now.
    pub open spec fn signed(self, signer: PKey<Private>, digest: Digest) -> CertModel {
        CertModel {
            content: self.content,
            signature: Some(Signature { signer, digest, content: self.content }),
        }
    }

    /// Whether the certificate carries a signature by `signer` with
    /// `digest` over all that it says.
    pub open spec fn is_signed_by(self, signer: PKey<Private>, digest: Digest) -> bool {
        self.signature == Some(Signature { signer, digest, content: self.content })
    }
}

/// The cipher and protocol profile of a TLS acceptor.
pub enum Profile {
    /// Mozilla's intermediate profile for servers.
    MozillaIntermediate,
}

/// What a TLS acceptor, or a session made from it, presents.
pub struct AcceptorModel {
    /// The profile.
    pub profile: Profile,
    /// The certificate that is presented, once installed.
    pub certificate: Option<X509>,
    /// The private key that is used, once installed.
    pub private_key: Option<PKey<Private>>,
}

/// A value of an outside crate with the model of what it holds.
pub struct Described<T, M> {
    inner: T,
    model: Ghost<M>,
}

impl<T, M> Described<T, M> {
    /// What the value holds.
    pub closed spec fn model(&self) -> M {
        self.model@
    }

    /// The value itself.
    pub closed spec fn spec_inner(&self) -> T {
        self.inner
    }

    /// The value itself, borrowed.
    pub fn inner(&self) -> (value: &T)
        ensures
            *value == self.spec_inner(),
    {
        &self.inner
    }

    /// The value itself, without its model.
    pub fn into_inner(self) -> (value: T)
        ensures
            value == self.spec_inner(),
    {
        self.inner
    }
}

impl Clone for Described<X509, CertModel> {
    fn clone(&self) -> (copy: Self)
        ensures
            copy == *self,
    {
        Described { inner: self.inner.clone(), model: self.model }
    }
}

impl Clone for Described<PKey<Private>, u32> {
    fn clone(&self) -> (copy: Self)
        ensures
            copy == *self,
    {
        Described { inner: self.inner.clone(), model: self.model }
    }
}

/// `Rsa::generate`, its result wrapped by `PKey::from_rsa`: a fresh RSA key
/// pair of the size asked for, with public exponent 65537. The model of a
/// key is its size in bits. Sizes beyond 16384 bits are left out:
/// generating them does not end in reasonable time.
#[verifier::external_body]
pub(crate) fn generate_rsa_key(bits: u32) -> (key: Result<
    Described<PKey<Private>, u32>,
    ErrorStack,
>)
    requires
        bits <= 16384,
    ensures
        key matches Ok(k) ==> k.model() == bits,
{
    Ok(Described { inner: PKey::from_rsa(Rsa::generate(bits)?)?, model: Ghost(bits) })
}

/// `BigNumRef::rand` on a new `BigNum`, with the top bit free to be zero and
/// no demand for an odd number, turned into an ASN.1 integer by
/// `Asn1Integer::from_bn`: a random nonnegative number below `2^bits`. The
/// model is the number.
#[verifier::external_body]
pub(crate) fn random_serial(bits: i32) -> (serial: Result<Described<Asn1Integer, nat>, ErrorStack>)
    ensures
        serial matches Ok(s) ==> bits >= 0 ==> s.model() < pow2(bits as nat),
{
    let mut number = BigNum::new()?;
    number.rand(bits, MsbOption::MAYBE_ZERO, false)?;
    Ok(Described { inner: Asn1Integer::from_bn(&number)?, model: Ghost(arbitrary()) })
}

/// `X509NameBuilder::append_entry_by_nid` with `Nid::COMMONNAME` on a new
/// builder, then `X509NameBuilder::build`: a name whose only entry is the
/// common name `value`. The model of a name is its common names. OpenSSL
/// rejects values it finds too long for a common name; the call itself
/// panics on a value longer than its length type, which the precondition
/// leaves out.
#[verifier::external_body]
pub(crate) fn name_with_common_name(value: &str) -> (name: Result<
    Described<X509Name, Seq<Seq<char>>>,
    ErrorStack,
>)
    requires
        value.len() <= 0x7fff_ffff,
    ensures
        name matches Ok(n) ==> n.model() == seq![value@],
{
    let mut name = X509Name::builder()?;
    name.append_entry_by_nid(Nid::COMMONNAME, value)?;
    Ok(Described { inner: name.build(), model: Ghost(seq![value@]) })
}

/// `X509::builder`: a certificate under construction, on which nothing was
/// set.
#[verifier::external_body]
pub(crate) fn new_certificate() -> (draft: Result<Described<X509Builder, CertModel>, ErrorStack>)
    ensures
        draft matches Ok(d) ==> d.model() == CertModel::blank(),
{
    Ok(Described { inner: X509::builder()?, model: Ghost(CertModel::blank()) })
}

/// `X509Builder::set_version`: on success the certificate has that
/// version, and nothing else changed.
#[verifier::external_body]
pub(crate) fn set_version(draft: &mut Described<X509Builder, CertModel>, version: i32) -> (done:
    Result<(), ErrorStack>)
    ensures
        done is Ok ==> final(draft).model() == old(draft).model().with_content(
            Content { version: Some(version), ..old(draft).model().content },
        ),
{
    draft.inner.set_version(version)
}

/// `X509Builder::set_serial_number`: on success the certificate has that
/// serial number, and nothing else changed.
#[verifier::external_body]
pub(crate) fn set_serial_number(
    draft: &mut Described<X509Builder, CertModel>,
    serial: &Described<Asn1Integer, nat>,
) -> (done: Result<(), ErrorStack>)
    ensures
        done is Ok ==> final(draft).model() == old(draft).model().with_content(
            Content { serial: Some(serial.model()), ..old(draft).model().content },
        ),
{
    draft.inner.set_serial_number(&serial.inner)
}

/// `X509Builder::set_subject_name`: on success the certificate has that
/// subject, and nothing else changed.
#[verifier::external_body]
pub(crate) fn set_subject_name(
    draft: &mut Described<X509Builder, CertModel>,
    name: &Described<X509Name, Seq<Seq<char>>>,
) -> (done: Result<(), ErrorStack>)
    ensures
        done is Ok ==> final(draft).model() == old(draft).model().with_content(
            Content { subject: name.model(), ..old(draft).model().content },
        ),
{
    draft.inner.set_subject_name(&name.inner)
}

/// `X509Builder::set_issuer_name`: on success the certificate has that
/// issuer, and nothing else changed.
#[verifier::external_body]
pub(crate) fn set_issuer_name(
    draft: &mut Described<X509Builder, CertModel>,
    name: &Described<X509Name, Seq<Seq<char>>>,
) -> (done: Result<(), ErrorStack>)
    ensures
        done is Ok ==> final(draft).model() == old(draft).model().with_content(
            Content { issuer: name.model(), ..old(draft).model().content },
        ),
{
    draft.inner.set_issuer_name(&name.inner)
}

/// `X509Ref::subject_name`, copied by `X509NameRef::to_owned`: the subject
/// of a finished certificate.
#[verifier::external_body]
pub(crate) fn subject_name(certificate: &Described<X509, CertModel>) -> (name: Result<
    Described<X509Name, Seq<Seq<char>>>,
    ErrorStack,
>)
    ensures
        name matches Ok(n) ==> n.model() == certificate.model().content.subject,
{
    Ok(Described { inner: certificate.inner.subject_name().to_owned()?, model: Ghost(certificate.model().content.subject) })
}

/// `Asn1Time::days_from_now`: the current time moved forward by `days`.
/// It reads the clock, so the model is not the time but the number of days
/// it lies after the moment of the call. The bound keeps the number of
/// seconds within a 32-bit `long`.
#[verifier::external_body]
pub(crate) fn days_from_now(days: u32) -> (time: Result<Described<Asn1Time, u32>, ErrorStack>)
    requires
        days <= 24855,
    ensures
        time matches Ok(t) ==> t.model() == days,
{
    Ok(Described { inner: Asn1Time::days_from_now(days)?, model: Ghost(days) })
}

/// `X509Builder::set_not_before`: on success validity starts at that time,
/// and nothing else changed.
#[verifier::external_body]
pub(crate) fn set_not_before(
    draft: &mut Described<X509Builder, CertModel>,
    time: &Described<Asn1Time, u32>,
) -> (done: Result<(), ErrorStack>)
    ensures
        done is Ok ==> final(draft).model() == old(draft).model().with_content(
            Content { not_before: Some(time.model()), ..old(draft).model().content },
        ),
{
    draft.inner.set_not_before(&time.inner)
}

/// `X509Builder::set_not_after`: on success validity ends at that time, and
/// nothing else changed.
#[verifier::external_body]
pub(crate) fn set_not_after(
    draft: &mut Described<X509Builder, CertModel>,
    time: &Described<Asn1Time, u32>,
) -> (done: Result<(), ErrorStack>)
    ensures
        done is Ok ==> final(draft).model() == old(draft).model().with_content(
            Content { not_after: Some(time.model()), ..old(draft).model().content },
        ),
{
    draft.inner.set_not_after(&time.inner)
}

/// `X509Builder::set_pubkey`: on success the certificate carries the public
/// half of `key`, and nothing else changed.
#[verifier::external_body]
pub(crate) fn set_pubkey(
    draft: &mut Described<X509Builder, CertModel>,
    key: &Described<PKey<Private>, u32>,
) -> (done: Result<(), ErrorStack>)
    ensures
        done is Ok ==> final(draft).model() == old(draft).model().with_content(
            Content { public_key: Some(key.spec_inner()), ..old(draft).model().content },
        ),
{
    draft.inner.set_pubkey(&key.inner)
}

/// `BasicConstraints::new`: the extension under construction, neither
/// critical nor for an authority. The model is the pair of those two flags.
#[verifier::external_body]
pub(crate) fn basic_constraints() -> (constraints: Described<BasicConstraints, (bool, bool)>)
    ensures
        constraints.model() == (false, false),
{
    Described { inner: BasicConstraints::new(), model: Ghost((false, false)) }
}

/// `BasicConstraints::critical`: marks the extension critical.
#[verifier::external_body]
pub(crate) fn mark_critical(constraints: &mut Described<BasicConstraints, (bool, bool)>)
    ensures
        final(constraints).model() == (true, old(constraints).model().1),
{
    constraints.inner.critical();
}

/// `BasicConstraints::ca`: marks the subject as an authority.
#[verifier::external_body]
pub(crate) fn mark_authority(constraints: &mut Described<BasicConstraints, (bool, bool)>)
    ensures
        final(constraints).model() == (old(constraints).model().0, true),
{
    constraints.inner.ca();
}

/// `BasicConstraints::build`: the extension with the flags as they stand.
#[verifier::external_body]
pub(crate) fn build_constraints(constraints: &Described<BasicConstraints, (bool, bool)>) -> (extension:
    Result<Described<X509Extension, ExtensionModel>, ErrorStack>)
    ensures
        extension matches Ok(e) ==> e.model() == (ExtensionModel::BasicConstraints {
            critical: constraints.model().0,
            ca: constraints.model().1,
        }),
{
    Ok(Described { inner: constraints.inner.build()?, model: Ghost(ExtensionModel::BasicConstraints { critical: constraints.model().0, ca: constraints.model().1 }) })
}

/// `SubjectAlternativeName::dns` on a new `SubjectAlternativeName`, built
/// within the context that `X509Builder::x509v3_context` gives for this
/// certificate and its issuer: an extension, not critical, with the one
/// entry `DNS:dns`. The call panics on a name longer than OpenSSL's length
/// type, which the precondition leaves out.
#[verifier::external_body]
pub(crate) fn dns_alt_name(
    draft: &Described<X509Builder, CertModel>,
    issuer: &Described<X509, CertModel>,
    dns: &str,
) -> (extension: Result<Described<X509Extension, ExtensionModel>, ErrorStack>)
    requires
        dns.len() <= 0x7fff_ffff,
    ensures
        extension matches Ok(e) ==> e.model() == (ExtensionModel::SubjectAltName {
            dns: seq![dns@],
        }),
{
    let context = draft.inner.x509v3_context(Some(&issuer.inner), None);
    let extension = SubjectAlternativeName::new().dns(dns).build(&context)?;
    Ok(Described { inner: extension, model: Ghost(ExtensionModel::SubjectAltName { dns: seq![dns@] }) })
}

/// `X509Builder::append_extension`: on success the extension comes after
/// those the certificate had, and nothing else changed.
#[verifier::external_body]
pub(crate) fn append_extension(
    draft: &mut Described<X509Builder, CertModel>,
    extension: Described<X509Extension, ExtensionModel>,
) -> (done: Result<(), ErrorStack>)
    ensures
        done is Ok ==> final(draft).model() == old(draft).model().with_content(
            Content {
                extensions: old(draft).model().content.extensions.push(extension.model()),
                ..old(draft).model().content
            },
        ),
{
    draft.inner.append_extension(extension.inner)
}

/// `MessageDigest::sha256`.
#[verifier::external_body]
pub(crate) fn sha256() -> (digest: Described<MessageDigest, Digest>)
    ensures
        digest.model() == Digest::Sha256,
{
    Described { inner: MessageDigest::sha256(), model: Ghost(Digest::Sha256) }
}

/// `X509Builder::sign`: on success the certificate carries a signature by
/// `key`, with that digest, over what it says at this moment.
#[verifier::external_body]
pub(crate) fn sign(
    draft: &mut Described<X509Builder, CertModel>,
    key: &Described<PKey<Private>, u32>,
    digest: Described<MessageDigest, Digest>,
) -> (done: Result<(), ErrorStack>)
    ensures
        done is Ok ==> final(draft).model() == old(draft).model().signed(
            key.spec_inner(),
            digest.model(),
        ),
{
    draft.inner.sign(&key.inner, digest.inner)
}

/// `X509Builder::build`: the finished certificate, holding what the builder
/// held.
#[verifier::external_body]
pub(crate) fn finish(draft: Described<X509Builder, CertModel>) -> (certificate: Described<
    X509,
    CertModel,
>)
    ensures
        certificate.model() == draft.model(),
{
    Described { inner: draft.inner.build(), model: Ghost(draft.model()) }
}

/// `SslAcceptor::mozilla_intermediate` for `SslMethod::tls`: an acceptor
/// under construction with Mozilla's intermediate profile, and neither
/// certificate nor key.
#[verifier::external_body]
pub(crate) fn intermediate_acceptor() -> (acceptor: Result<
    Described<SslAcceptorBuilder, AcceptorModel>,
    ErrorStack,
>)
    ensures
        acceptor matches Ok(a) ==> a.model() == (AcceptorModel {
            profile: Profile::MozillaIntermediate,
            certificate: None,
            private_key: None,
        }),
{
    let acceptor = SslAcceptor::mozilla_intermediate(SslMethod::tls())?;
    Ok(Described { inner: acceptor, model: Ghost(AcceptorModel { profile: Profile::MozillaIntermediate, certificate: None, private_key: None }) })
}

/// `SslContextBuilder::set_certificate`, on the acceptor's context: on
/// success the acceptor presents that certificate, and nothing else
/// changed. OpenSSL drops a key that was installed before and does not
/// match the certificate, and still reports success; so the certificate is
/// installed first, on an acceptor that has no key yet.
#[verifier::external_body]
pub(crate) fn set_certificate(
    acceptor: &mut Described<SslAcceptorBuilder, AcceptorModel>,
    certificate: &X509,
) -> (done: Result<(), ErrorStack>)
    requires
        old(acceptor).model().private_key is None,
    ensures
        done is Ok ==> final(acceptor).model() == (AcceptorModel {
            certificate: Some(*certificate),
            ..old(acceptor).model()
        }),
{
    acceptor.inner.set_certificate(certificate)
}

/// `SslContextBuilder::set_private_key`, on the acceptor's context: on
/// success the acceptor uses that key, and nothing else changed.
#[verifier::external_body]
pub(crate) fn set_private_key(
    acceptor: &mut Described<SslAcceptorBuilder, AcceptorModel>,
    key: &PKey<Private>,
) -> (done: Result<(), ErrorStack>)
    ensures
        done is Ok ==> final(acceptor).model() == (AcceptorModel {
            private_key: Some(*key),
            ..old(acceptor).model()
        }),
{
    acceptor.inner.set_private_key(key)
}

/// `SslAcceptorBuilder::build`: the acceptor, presenting what the builder
/// held.
#[verifier::external_body]
pub(crate) fn build_acceptor(acceptor: Described<SslAcceptorBuilder, AcceptorModel>) -> (built:
    Described<SslAcceptor, AcceptorModel>)
    ensures
        built.model() == acceptor.model(),
{
    Described { inner: acceptor.inner.build(), model: Ghost(acceptor.model()) }
}

/// `Ssl::new` on the acceptor's context: the state of one TLS connection,
/// which takes over the settings of the context it is made from.
#[verifier::external_body]
pub(crate) fn new_session(acceptor: &Described<SslAcceptor, AcceptorModel>) -> (session: Result<
    Described<Ssl, AcceptorModel>,
    ErrorStack,
>)
    ensures
        session matches Ok(s) ==> s.model() == acceptor.model(),
{
    Ok(Described { inner: Ssl::new(acceptor.inner.context())?, model: Ghost(acceptor.model()) })
}

/// `tokio::sync::oneshot::channel`: the two ends of a new channel that
/// carries one unit value. The model of the receiver is the sender it
/// belongs to.
#[verifier::external_body]
pub(crate) fn shutdown_channel() -> (ends: (Sender<()>, Described<Receiver<()>, Sender<()>>))
    ensures
        ends.1.model() == ends.0,
{
    let (sender, receiver) = channel();
    (sender, Described { inner: receiver, model: Ghost(arbitrary()) })
}

/// `Sender::send`, of the unit value: the record of that send. Its value
/// tells whether the receiving end was still there to take the signal; that
/// depends on what became of the receiver, so nothing is claimed of it. Its
/// model is the sender on which the signal went out.
#[verifier::external_body]
pub(crate) fn fire(sender: Sender<()>) -> (sent: Described<bool, Sender<()>>)
    ensures
        sent.model() == sender,
{
    Described { inner: sender.send(()).is_ok(), model: Ghost(arbitrary()) }
}

} // verus!
