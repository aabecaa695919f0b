//! Picking a TLS endpoint's credentials out of PEM files: the first
//! certificate of a certificate file, and the private key a key file starts
//! with. PEM decoding itself is done by `rustls_pemfile`.

use vstd::prelude::*;
use rustls_pemfile::Item;

verus! {

/// A decoding failure reported by the PEM reader, with its description.
#[derive(Debug, PartialEq, Eq)]
pub struct PemError {
    pub message: String,
}

/// One decoded section of a PEM file (its DER contents).
#[derive(Debug, PartialEq, Eq)]
pub enum PemItem {
    Certificate(Vec<u8>),
    RsaKey(Vec<u8>),
    Pkcs8Key(Vec<u8>),
    EcKey(Vec<u8>),
    Crl(Vec<u8>),
    /// A kind of section this library does not know.
    Unknown,
}

/// The abstract value of a [`PemItem`].
pub enum PemItemView {
    Certificate(Seq<u8>),
    RsaKey(Seq<u8>),
    Pkcs8Key(Seq<u8>),
    EcKey(Seq<u8>),
    Crl(Seq<u8>),
    Unknown,
}

impl View for PemItem {
    type V = PemItemView;

    open spec fn view(&self) -> PemItemView {
        match self {
            PemItem::Certificate(d) => PemItemView::Certificate(d@),
            PemItem::RsaKey(d) => PemItemView::RsaKey(d@),
            PemItem::Pkcs8Key(d) => PemItemView::Pkcs8Key(d@),
            PemItem::EcKey(d) => PemItemView::EcKey(d@),
            PemItem::Crl(d) => PemItemView::Crl(d@),
            PemItem::Unknown => PemItemView::Unknown,
        }
    }
}

/// The abstract value of an optional [`PemItem`].
pub open spec fn item_view(item: Option<PemItem>) -> Option<PemItemView> {
    match item {
        Some(i) => Some(i@),
        None => None,
    }
}

/// What `rustls_pemfile` extracts from the PEM text `pem` as certificates:
/// their DER contents, in file order, or the description of the error it
/// reports.
pub uninterp spec fn pem_certificates(pem: Seq<u8>) -> Result<Seq<Seq<u8>>, Seq<char>>;

/// The first section that `rustls_pemfile` decodes from the PEM text `pem`
/// (`None` when there is none), or the description of the error it reports.
pub uninterp spec fn pem_first_item(pem: Seq<u8>) -> Result<Option<PemItemView>, Seq<char>>;

/// Calls `rustls_pemfile::certs` on the bytes of a PEM file.
///
/// Claimed of it: the outcome is a function of the bytes alone, named
/// `pem_certificates` (the certificates' contents, or the error's
/// description); an empty input holds no certificates and is no error (a PEM
/// reader at end of input returns nothing).
#[verifier::external_body]
fn read_certificates(pem: &[u8]) -> (r: Result<Vec<Vec<u8>>, PemError>)
    ensures
        r is Ok <==> pem_certificates(pem@) is Ok,
        r is Ok ==> r->Ok_0.deep_view() == pem_certificates(pem@)->Ok_0,
        r is Err ==> r->Err_0.message@ == pem_certificates(pem@)->Err_0,
        pem@.len() == 0 ==> r is Ok && r->Ok_0.len() == 0,
{
    match rustls_pemfile::certs(&mut &pem[..]) {
        Ok(certs) => Ok(certs),
        Err(e) => Err(PemError { message: e.to_string() }),
    }
}

/// Calls `rustls_pemfile::read_one` on the bytes of a PEM file, converting
/// the section it returns variant by variant.
///
/// Claimed of it: the outcome is a function of the bytes alone, named
/// `pem_first_item` (the section, or the error's description); an empty
/// input holds no section and is no error.
#[verifier::external_body]
fn read_first_item(pem: &[u8]) -> (r: Result<Option<PemItem>, PemError>)
    ensures
        r is Ok <==> pem_first_item(pem@) is Ok,
        r is Ok ==> pem_first_item(pem@)->Ok_0 == item_view(r->Ok_0),
        r is Err ==> r->Err_0.message@ == pem_first_item(pem@)->Err_0,
        pem@.len() == 0 ==> r is Ok && r->Ok_0 is None,
{
    match rustls_pemfile::read_one(&mut &pem[..]) {
        Ok(None) => Ok(None),
        Ok(Some(Item::X509Certificate(d))) => Ok(Some(PemItem::Certificate(d))),
        Ok(Some(Item::RSAKey(d))) => Ok(Some(PemItem::RsaKey(d))),
        Ok(Some(Item::PKCS8Key(d))) => Ok(Some(PemItem::Pkcs8Key(d))),
        Ok(Some(Item::ECKey(d))) => Ok(Some(PemItem::EcKey(d))),
        Ok(Some(Item::Crl(d))) => Ok(Some(PemItem::Crl(d))),
        Ok(Some(_)) => Ok(Some(PemItem::Unknown)),
        Err(e) => Err(PemError { message: e.to_string() }),
    }
}

/// Why a credential could not be taken from its file.
#[derive(Debug, PartialEq, Eq)]
pub enum SetupError {
    /// The PEM reader reported an error; the program stops with it.
    Malformed(PemError),
    /// The certificate file holds no certificate.
    CertificateNotFound,
    /// The key file holds no PEM section that the reader recognises.
    KeyNotFound,
    /// The key file starts with a section that is not a private key.
    KeyNotRecognised,
}

/// The certificate an endpoint uses from a certificate file's contents:
/// the first one, if there is any.
pub fn first_certificate(certs: Vec<Vec<u8>>) -> (r: Option<Vec<u8>>)
    ensures
        r is Some <==> certs.len() > 0,
        r matches Some(c) ==> c@ == certs[0]@,
{
    let mut certs = certs;
    if certs.len() == 0 {
        None
    } else {
        Some(certs.swap_remove(0))
    }
}

/// The outcome of taking the first certificate out of the PEM text `pem`.
pub open spec fn certificate_outcome(pem: Seq<u8>, r: Result<Vec<u8>, SetupError>) -> bool {
    match pem_certificates(pem) {
        Err(text) => r matches Err(SetupError::Malformed(e)) && e.message@ == text,
        Ok(certs) => if certs.len() == 0 {
            r == Err::<Vec<u8>, SetupError>(SetupError::CertificateNotFound)
        } else {
            r matches Ok(c) && c@ == certs[0]
        },
    }
}

/// Takes the first certificate out of the bytes of a PEM file: a reader
/// error stops the program, a file without certificates is reported as such.
pub fn load_first_certificate(pem: &[u8]) -> (r: Result<Vec<u8>, SetupError>)
    ensures
        certificate_outcome(pem@, r),
        pem@.len() == 0 ==> r == Err::<Vec<u8>, SetupError>(SetupError::CertificateNotFound),
{
    match read_certificates(pem) {
        Err(e) => Err(SetupError::Malformed(e)),
        Ok(certs) => {
            let ghost all = certs.deep_view();
            match first_certificate(certs) {
                Some(c) => {
                    assert(all[0] == c@);
                    Ok(c)
                },
                None => Err(SetupError::CertificateNotFound),
            }
        },
    }
}

/// The private key an endpoint uses given the first section of its key
/// file: an RSA (PKCS#1), PKCS#8 or EC (SEC1) key is taken as it is; any
/// other section is not recognised; no section means no key.
pub fn private_key_from_item(item: Option<PemItem>) -> (r: Result<Vec<u8>, SetupError>)
    ensures
        key_outcome(item_view(item), r),
{
    match item {
        Some(PemItem::RsaKey(k)) => Ok(k),
        Some(PemItem::Pkcs8Key(k)) => Ok(k),
        Some(PemItem::EcKey(k)) => Ok(k),
        Some(_) => Err(SetupError::KeyNotRecognised),
        None => Err(SetupError::KeyNotFound),
    }
}

/// The outcome of choosing a private key given the first section of a key file.
pub open spec fn key_outcome(item: Option<PemItemView>, r: Result<Vec<u8>, SetupError>) -> bool {
    match item {
        Some(PemItemView::RsaKey(k)) => r matches Ok(v) && v@ == k,
        Some(PemItemView::Pkcs8Key(k)) => r matches Ok(v) && v@ == k,
        Some(PemItemView::EcKey(k)) => r matches Ok(v) && v@ == k,
        Some(_) => r == Err::<Vec<u8>, SetupError>(SetupError::KeyNotRecognised),
        None => r == Err::<Vec<u8>, SetupError>(SetupError::KeyNotFound),
    }
}

/// Takes the private key out of the bytes of a PEM key file: a reader error
/// stops the program; otherwise the first section decides.
pub fn load_private_key(pem: &[u8]) -> (r: Result<Vec<u8>, SetupError>)
    ensures
        match pem_first_item(pem@) {
            Err(text) => r matches Err(SetupError::Malformed(e)) && e.message@ == text,
            Ok(item) => key_outcome(item, r),
        },
        pem@.len() == 0 ==> r == Err::<Vec<u8>, SetupError>(SetupError::KeyNotFound),
{
    match read_first_item(pem) {
        Err(e) => Err(SetupError::Malformed(e)),
        Ok(item) => private_key_from_item(item),
    }
}

/// Which end of a TLS connection a program is.
#[derive(Clone, Copy, Debug, PartialEq, Eq, Structural)]
pub enum Role {
    Client,
    Server,
}

/// What a program could not take from its credential files.
#[derive(Clone, Copy, Debug, PartialEq, Eq, Structural)]
pub enum Missing {
    /// The certificate authority file holds no certificate.
    CaCertificate,
    /// The endpoint's certificate file holds no certificate.
    Certificate,
    /// The key file holds no PEM section that the reader recognises.
    PrivateKey,
    /// The key file starts with a section that is not a private key.
    UnrecognisedPrivateKey,
}

/// The line a program prints before giving up on a credential (the program
/// then ends normally). A key file without any recognised section is
/// reported as the server's key by both programs.
pub open spec fn setup_message_text(role: Role, missing: Missing) -> Seq<char> {
    match (role, missing) {
        (Role::Client, Missing::CaCertificate) => "Root server certificate not found"@,
        (Role::Server, Missing::CaCertificate) => "Root client certificate not found"@,
        (Role::Client, Missing::Certificate) => "Client certificate not found"@,
        (Role::Server, Missing::Certificate) => "Server certificate not found"@,
        (_, Missing::PrivateKey) => "Server private key not found"@,
        (Role::Client, Missing::UnrecognisedPrivateKey) => "Client private key not recognised"@,
        (Role::Server, Missing::UnrecognisedPrivateKey) => "Server private key not recognised"@,
    }
}

/// The line to print when a credential is missing.
pub fn setup_message(role: Role, missing: Missing) -> (r: &'static str)
    ensures
        r@ == setup_message_text(role, missing),
{
    match (role, missing) {
        (Role::Client, Missing::CaCertificate) => "Root server certificate not found",
        (Role::Server, Missing::CaCertificate) => "Root client certificate not found",
        (Role::Client, Missing::Certificate) => "Client certificate not found",
        (Role::Server, Missing::Certificate) => "Server certificate not found",
        (_, Missing::PrivateKey) => "Server private key not found",
        (Role::Client, Missing::UnrecognisedPrivateKey) => "Client private key not recognised",
        (Role::Server, Missing::UnrecognisedPrivateKey) => "Server private key not recognised",
    }
}

/// The three credential files of a TLS endpoint, in the order they are read.
#[derive(Clone, Copy, Debug, PartialEq, Eq, Structural)]
pub enum CredentialFile {
    CaCertificate,
    Certificate,
    PrivateKey,
}

/// The credentials of a TLS endpoint: the certificate authority's
/// certificate, its own certificate and its private key (DER contents).
#[derive(Debug, PartialEq, Eq)]
pub struct Credentials {
    pub ca_certificate: Vec<u8>,
    pub certificate: Vec<u8>,
    pub private_key: Vec<u8>,
}

/// What loading credentials asks for next, or how it ended.
#[derive(Debug, PartialEq, Eq)]
pub enum LoadAction {
    /// Read this file and hand its bytes back.
    ReadFile(CredentialFile),
    /// All three credentials were found.
    Loaded(Credentials),
    /// A credential is missing: print its line (see [`setup_message`]) and
    /// end normally.
    Report(Missing),
    /// The PEM reader failed: stop with its error.
    Fail(PemError),
}

/// The abstract value of a [`LoadAction`].
pub enum LoadActionView {
    ReadFile(CredentialFile),
    Loaded(Seq<u8>, Seq<u8>, Seq<u8>),
    Report(Missing),
    /// The reader error's description.
    Fail(Seq<char>),
}

impl View for LoadAction {
    type V = LoadActionView;

    open spec fn view(&self) -> LoadActionView {
        match self {
            LoadAction::ReadFile(f) => LoadActionView::ReadFile(*f),
            LoadAction::Loaded(c) => LoadActionView::Loaded(
                c.ca_certificate@,
                c.certificate@,
                c.private_key@,
            ),
            LoadAction::Report(m) => LoadActionView::Report(*m),
            LoadAction::Fail(e) => LoadActionView::Fail(e.message@),
        }
    }
}

/// The abstract state of a credential load: the certificates taken so far,
/// and whether it has ended.
pub struct LoaderState {
    pub ca_certificate: Option<Seq<u8>>,
    pub certificate: Option<Seq<u8>>,
    pub done: bool,
}

/// The abstract value of an optional byte vector.
pub open spec fn bytes_view(o: Option<Vec<u8>>) -> Option<Seq<u8>> {
    match o {
        Some(v) => Some(v@),
        None => None,
    }
}

/// Loading an endpoint's credentials, file by file. It is driven by
/// alternating calls: the loader names a file, the caller reads it and hands
/// over its bytes.
pub struct CredentialLoader {
    ca_certificate: Option<Vec<u8>>,
    certificate: Option<Vec<u8>>,
    done: bool,
}

impl View for CredentialLoader {
    type V = LoaderState;

    closed spec fn view(&self) -> LoaderState {
        LoaderState {
            ca_certificate: bytes_view(self.ca_certificate),
            certificate: bytes_view(self.certificate),
            done: self.done,
        }
    }
}

/// A state a load can be in: the endpoint's own certificate is taken only
/// after the authority's.
pub open spec fn loader_wf(s: LoaderState) -> bool {
    s.certificate is Some ==> s.ca_certificate is Some
}

/// The file a load in state `s` waits for.
pub open spec fn loader_awaits(s: LoaderState) -> CredentialFile {
    if s.ca_certificate is None {
        CredentialFile::CaCertificate
    } else if s.certificate is None {
        CredentialFile::Certificate
    } else {
        CredentialFile::PrivateKey
    }
}

/// A fresh load, which asks for the certificate authority's file first.
pub open spec fn loader_open() -> (LoaderState, LoadActionView) {
    (
        LoaderState { ca_certificate: None, certificate: None, done: false },
        LoadActionView::ReadFile(CredentialFile::CaCertificate),
    )
}

/// The end of a load with `action`.
pub open spec fn loader_ends(s: LoaderState, action: LoadActionView) -> (LoaderState, LoadActionView) {
    (LoaderState { done: true, ..s }, action)
}

/// The private key chosen from the first section of a key file, if it is one.
pub open spec fn chosen_key(item: Option<PemItemView>) -> Option<Seq<u8>> {
    match item {
        Some(PemItemView::RsaKey(k)) => Some(k),
        Some(PemItemView::Pkcs8Key(k)) => Some(k),
        Some(PemItemView::EcKey(k)) => Some(k),
        _ => None,
    }
}

/// One step of a load, given the bytes `pem` of the file it waits for:
/// from each certificate file the first certificate is taken, and the next
/// file asked for; from the key file the key; a file without the credential
/// ends the load with the matching report, a reader error ends it with the
/// error. When the key is found, the three credentials are handed out.
pub open spec fn loader_step(s: LoaderState, pem: Seq<u8>) -> (LoaderState, LoadActionView) {
    match loader_awaits(s) {
        CredentialFile::CaCertificate => match pem_certificates(pem) {
            Err(text) => loader_ends(s, LoadActionView::Fail(text)),
            Ok(certs) => if certs.len() == 0 {
                loader_ends(s, LoadActionView::Report(Missing::CaCertificate))
            } else {
                (
                    LoaderState { ca_certificate: Some(certs[0]), ..s },
                    LoadActionView::ReadFile(CredentialFile::Certificate),
                )
            },
        },
        CredentialFile::Certificate => match pem_certificates(pem) {
            Err(text) => loader_ends(s, LoadActionView::Fail(text)),
            Ok(certs) => if certs.len() == 0 {
                loader_ends(s, LoadActionView::Report(Missing::Certificate))
            } else {
                (
                    LoaderState { certificate: Some(certs[0]), ..s },
                    LoadActionView::ReadFile(CredentialFile::PrivateKey),
                )
            },
        },
        CredentialFile::PrivateKey => match pem_first_item(pem) {
            Err(text) => loader_ends(s, LoadActionView::Fail(text)),
            Ok(None) => loader_ends(s, LoadActionView::Report(Missing::PrivateKey)),
            Ok(Some(item)) => match chosen_key(Some(item)) {
                Some(k) => (
                    LoaderState { ca_certificate: None, certificate: None, done: true },
                    LoadActionView::Loaded(s.ca_certificate.unwrap(), s.certificate.unwrap(), k),
                ),
                None => loader_ends(s, LoadActionView::Report(Missing::UnrecognisedPrivateKey)),
            },
        },
    }
}

impl CredentialLoader {
    /// Starts a load: its first request is the certificate authority's file.
    pub fn open() -> (r: (CredentialLoader, LoadAction))
        ensures
            (r.0@, r.1@) == loader_open(),
            loader_wf(r.0@),
    {
        (
            CredentialLoader { ca_certificate: None, certificate: None, done: false },
            LoadAction::ReadFile(CredentialFile::CaCertificate),
        )
    }

    /// The certificate authority's certificate, once the load has taken it
    /// (and until it hands it out): a program can start trusting it before
    /// the remaining files are read.
    pub fn ca_certificate(&self) -> (r: Option<&Vec<u8>>)
        ensures
            match r {
                Some(v) => self@.ca_certificate == Some(v@),
                None => self@.ca_certificate is None,
            },
    {
        match &self.ca_certificate {
            Some(v) => Some(v),
            None => None,
        }
    }

    /// Hands the load the bytes of the file it asked for.
    pub fn feed(&mut self, pem: &[u8]) -> (action: LoadAction)
        requires
            loader_wf(old(self)@),
            !old(self)@.done,
        ensures
            (final(self)@, action@) == loader_step(old(self)@, pem@),
            loader_wf(final(self)@),
    {
        if self.ca_certificate.is_none() {
            match load_first_certificate(pem) {
                Ok(c) => {
                    self.ca_certificate = Some(c);
                    LoadAction::ReadFile(CredentialFile::Certificate)
                },
                Err(SetupError::Malformed(e)) => {
                    self.done = true;
                    LoadAction::Fail(e)
                },
                Err(_) => {
                    self.done = true;
                    LoadAction::Report(Missing::CaCertificate)
                },
            }
        } else if self.certificate.is_none() {
            match load_first_certificate(pem) {
                Ok(c) => {
                    self.certificate = Some(c);
                    LoadAction::ReadFile(CredentialFile::PrivateKey)
                },
                Err(SetupError::Malformed(e)) => {
                    self.done = true;
                    LoadAction::Fail(e)
                },
                Err(_) => {
                    self.done = true;
                    LoadAction::Report(Missing::Certificate)
                },
            }
        } else {
            match load_private_key(pem) {
                Ok(k) => {
                    let ca = self.ca_certificate.take();
                    let cert = self.certificate.take();
                    self.done = true;
                    match (ca, cert) {
                        (Some(ca_certificate), Some(certificate)) => LoadAction::Loaded(
                            Credentials { ca_certificate, certificate, private_key: k },
                        ),
                        _ => {
                            assert(false);
                            LoadAction::Report(Missing::PrivateKey)
                        },
                    }
                },
                Err(SetupError::Malformed(e)) => {
                    self.done = true;
                    LoadAction::Fail(e)
                },
                Err(SetupError::KeyNotFound) => {
                    self.done = true;
                    LoadAction::Report(Missing::PrivateKey)
                },
                Err(_) => {
                    self.done = true;
                    LoadAction::Report(Missing::UnrecognisedPrivateKey)
                },
            }
        }
    }
}

/// How loading ends when the three files hold `ca_pem`, `cert_pem` and
/// `key_pem`, stated directly: a reader error (with its description) or a
/// missing credential in an earlier file decides before a later file matters.
pub open spec fn expected_load(ca_pem: Seq<u8>, cert_pem: Seq<u8>, key_pem: Seq<u8>) -> LoadActionView {
    match pem_certificates(ca_pem) {
        Err(text) => LoadActionView::Fail(text),
        Ok(cas) => if cas.len() == 0 {
            LoadActionView::Report(Missing::CaCertificate)
        } else {
            match pem_certificates(cert_pem) {
                Err(text) => LoadActionView::Fail(text),
                Ok(certs) => if certs.len() == 0 {
                    LoadActionView::Report(Missing::Certificate)
                } else {
                    match pem_first_item(key_pem) {
                        Err(text) => LoadActionView::Fail(text),
                        Ok(None) => LoadActionView::Report(Missing::PrivateKey),
                        Ok(item) => match chosen_key(item) {
                            Some(k) => LoadActionView::Loaded(cas[0], certs[0], k),
                            None => LoadActionView::Report(Missing::UnrecognisedPrivateKey),
                        },
                    }
                },
            }
        },
    }
}

/// Credentials are read in order (authority, own certificate, key), each
/// file only after the previous one yielded its credential; the load ends
/// at the first file that fails, and otherwise hands out the first
/// certificate of each certificate file and the key.
pub proof fn law_credentials_load_in_order(ca_pem: Seq<u8>, cert_pem: Seq<u8>, key_pem: Seq<u8>)
    ensures
        ({
            let (s0, a0) = loader_open();
            let (s1, a1) = loader_step(s0, ca_pem);
            let (s2, a2) = loader_step(s1, cert_pem);
            let (s3, a3) = loader_step(s2, key_pem);
            &&& a0 == LoadActionView::ReadFile(CredentialFile::CaCertificate)
            &&& if a1 != LoadActionView::ReadFile(CredentialFile::Certificate) {
                s1.done && a1 == expected_load(ca_pem, cert_pem, key_pem)
            } else if a2 != LoadActionView::ReadFile(CredentialFile::PrivateKey) {
                s2.done && a2 == expected_load(ca_pem, cert_pem, key_pem)
            } else {
                s3.done && a3 == expected_load(ca_pem, cert_pem, key_pem)
            }
        }),
{
}

} // verus!
