//! The TLS objects of a fetch, as far as they are had without the network.
//!
//! OpenSSL makes the objects. This module keeps them in their order, the
//! configuration before the session and the session before the handshake,
//! and turns what OpenSSL reports into the replies that a fetch takes. The
//! handshake itself, and all that goes over a socket, is the caller's.

use crate::fetch::Reply;
use crate::fetch::ReplyView;
use openssl::error::ErrorStack;
use openssl::ssl::Ssl;
use openssl::ssl::SslContext;
use openssl::ssl::SslContextBuilder;
use openssl::ssl::SslMethod;
use openssl::ssl::SslVerifyMode;
use openssl::x509::X509;
use vstd::prelude::*;

verus! {

/// `SslContextBuilder` of the `openssl` crate: a TLS configuration that is
/// being set up. Nothing is known of what it holds.
#[verifier::external_type_specification]
#[verifier::external_body]
pub struct ExSslContextBuilder(SslContextBuilder);

/// `SslContext` of the `openssl` crate: a finished TLS configuration.
/// Nothing is known of what it holds.
#[verifier::external_type_specification]
#[verifier::external_body]
pub struct ExSslContext(SslContext);

/// `Ssl` of the `openssl` crate: the state of one TLS session before its
/// handshake. Nothing is known of what it holds.
#[verifier::external_type_specification]
#[verifier::external_body]
pub struct ExSsl(Ssl);

/// `SslVerifyMode` of the `openssl` crate: what a configuration verifies of
/// its peer. Nothing is known of what it holds.
#[verifier::external_type_specification]
#[verifier::external_body]
pub struct ExSslVerifyMode(SslVerifyMode);

/// `X509` of the `openssl` crate: a certificate as OpenSSL keeps it. Nothing
/// is known of what it holds.
#[verifier::external_type_specification]
#[verifier::external_body]
pub struct ExX509(X509);

/// `ErrorStack` of the `openssl` crate: the errors that OpenSSL queued.
/// Nothing is known of what it holds.
#[verifier::external_type_specification]
#[verifier::external_body]
pub struct ExErrorStack(ErrorStack);

/// Calls `SslContext::builder` of the `openssl` crate with the method
/// `SslMethod::tls()`, which negotiates the highest TLS version that both
/// sides support. Nothing is claimed of the outcome.
#[verifier::external_body]
fn new_builder() -> Result<SslContextBuilder, ErrorStack> {
    SslContext::builder(SslMethod::tls())
}

/// Calls `SslVerifyMode::empty`, which gives the mode without any flag
/// (`SSL_VERIFY_NONE`): a client then goes on with the handshake whatever
/// the certificate of the server is like.
#[verifier::external_body]
fn verify_nothing() -> SslVerifyMode {
    SslVerifyMode::empty()
}

/// Hands out `SslVerifyMode::PEER` (`SSL_VERIFY_PEER`): a client then ends
/// the handshake if the certificate of the server is not trusted.
#[verifier::external_body]
fn verify_peer_certificate() -> SslVerifyMode {
    SslVerifyMode::PEER
}

/// Calls `SslContextBuilder::set_verify` with the mode. Nothing is claimed
/// of the builder afterwards.
#[verifier::external_body]
fn set_verify(builder: &mut SslContextBuilder, mode: SslVerifyMode) {
    builder.set_verify(mode)
}

/// Calls `SslContextBuilder::build`, which hands out the configuration that
/// the builder holds.
#[verifier::external_body]
fn build(builder: SslContextBuilder) -> SslContext {
    builder.build()
}

/// Calls `Ssl::new`. Nothing is claimed of the outcome.
#[verifier::external_body]
fn new_session(context: &SslContext) -> Result<Ssl, ErrorStack> {
    Ssl::new(context)
}

/// Calls `SslRef::set_hostname`, which sets the name for the server-name
/// indication. The crate turns the name into a C string and panics on a NUL
/// character, so none may be in it. Nothing is claimed of the outcome.
#[verifier::external_body]
fn set_hostname(session: &mut Ssl, name: &str) -> Result<(), ErrorStack>
    requires
        !name@.contains('\0'),
{
    session.set_hostname(name)
}

/// Calls `X509Ref::to_der`, which encodes the certificate. Nothing is claimed
/// of the outcome.
#[verifier::external_body]
fn to_der(certificate: &X509) -> Result<Vec<u8>, ErrorStack> {
    certificate.to_der()
}

/// Writes an OpenSSL error stack out as the crate displays it. Nothing is
/// claimed of the text.
#[verifier::external_body]
fn describe(error: &ErrorStack) -> String {
    error.to_string()
}

/// The diagnostic when a session is asked for and there is no configuration.
pub open spec fn no_context() -> Seq<char> {
    "no TLS configuration to create a session from"@
}

/// The diagnostic when a handshake is due and there is no session.
pub open spec fn no_session() -> Seq<char> {
    "no TLS session to negotiate with"@
}

/// The diagnostic when the server name holds a NUL character.
pub open spec fn nul_in_name() -> Seq<char> {
    "server name holds a NUL character"@
}

/// The TLS configuration and the TLS session of the fetch under way.
pub struct Tls {
    context: Option<SslContext>,
    session: Option<Ssl>,
}

impl Tls {
    /// Whether a configuration is at hand.
    pub closed spec fn has_context(&self) -> bool {
        self.context is Some
    }

    /// Whether a session is at hand.
    pub closed spec fn has_session(&self) -> bool {
        self.session is Some
    }

    /// Neither a configuration nor a session.
    pub fn new() -> (tls: Tls)
        ensures
            !tls.has_context(),
            !tls.has_session(),
    {
        Tls { context: None, session: None }
    }

    /// Takes what an attempt to build a configuration gave. A configuration
    /// is kept and success reported; a failure is reported with its text.
    /// Whatever was held before is let go.
    pub fn keep_context(&mut self, built: Result<SslContext, String>) -> (reply: Reply)
        ensures
            final(self).has_context() == (built is Ok),
            !final(self).has_session(),
            reply@ == match built {
                Ok(_) => ReplyView::completed(),
                Err(message) => ReplyView::failed(message@),
            },
    {
        self.session = None;
        match built {
            Ok(context) => {
                self.context = Some(context);
                Reply::completed()
            },
            Err(message) => {
                self.context = None;
                Reply::failed(message)
            },
        }
    }

    /// Builds the TLS client configuration for a new fetch and lets go of
    /// what the fetch before it held. With `verify_peer` false the
    /// configuration is given the verification mode without any flag, so
    /// that a handshake goes on whatever certificate the server presents.
    ///
    /// OpenSSL decides whether there is a configuration. The reply reports
    /// success exactly if there is one.
    pub fn build_context(&mut self, verify_peer: bool) -> (reply: Reply)
        ensures
            final(self).has_context() == (reply@.failure is None),
            !final(self).has_session(),
            reply@.addresses == 0,
            reply@.certificate is None,
    {
        let built = match new_builder() {
            Ok(builder) => {
                let mut builder = builder;
                let mode = if verify_peer {
                    verify_peer_certificate()
                } else {
                    verify_nothing()
                };
                set_verify(&mut builder, mode);
                Ok(build(builder))
            },
            Err(e) => Err(describe(&e)),
        };
        self.keep_context(built)
    }

    /// Takes what an attempt to create a session gave. A session is kept and
    /// success reported; a failure is reported with its text.
    pub fn keep_session(&mut self, created: Result<Ssl, String>) -> (reply: Reply)
        ensures
            final(self).has_context() == old(self).has_context(),
            final(self).has_session() == (created is Ok),
            reply@ == match created {
                Ok(_) => ReplyView::completed(),
                Err(message) => ReplyView::failed(message@),
            },
    {
        match created {
            Ok(session) => {
                self.session = Some(session);
                Reply::completed()
            },
            Err(message) => {
                self.session = None;
                Reply::failed(message)
            },
        }
    }

    /// Creates the TLS session from the configuration.
    ///
    /// Without a configuration the reply is a failure that says so.
    /// Otherwise OpenSSL decides whether there is a session, and the reply
    /// reports success exactly if there is one.
    pub fn create_session(&mut self) -> (reply: Reply)
        ensures
            final(self).has_context() == old(self).has_context(),
            final(self).has_session() == (reply@.failure is None),
            !old(self).has_context() ==> reply@ == ReplyView::failed(no_context()),
            reply@.addresses == 0,
            reply@.certificate is None,
    {
        let created = match &self.context {
            None => Err(String::from_str("no TLS configuration to create a session from")),
            Some(context) => match new_session(context) {
                Ok(session) => Ok(session),
                Err(e) => Err(describe(&e)),
            },
        };
        self.keep_session(created)
    }

    /// Hands out the session for the handshake, with `server_name` set for
    /// the server-name indication. The session is then no longer held.
    ///
    /// Without a session the result is the diagnostic that says so, and with
    /// a NUL character in the name the diagnostic that says that. Otherwise
    /// OpenSSL decides whether the name can be set, and an error is its
    /// diagnostic.
    pub fn session_for(&mut self, server_name: &str) -> (r: Result<Ssl, String>)
        ensures
            final(self).has_context() == old(self).has_context(),
            !final(self).has_session(),
            !old(self).has_session() ==> (r matches Err(message) && message@ == no_session()),
            old(self).has_session() && server_name@.contains('\0') ==> (r matches Err(message)
                && message@ == nul_in_name()),
    {
        match self.session.take() {
            None => Err(String::from_str("no TLS session to negotiate with")),
            Some(session) => {
                if has_nul(server_name) {
                    Err(String::from_str("server name holds a NUL character"))
                } else {
                    let mut session = session;
                    match set_hostname(&mut session, server_name) {
                        Ok(()) => Ok(session),
                        Err(e) => Err(describe(&e)),
                    }
                }
            },
        }
    }
}

/// The reply for an attempt to encode the peer certificate: the bytes, or
/// the failure with its text.
pub fn encoded_reply(encoded: Result<Vec<u8>, String>) -> (reply: Reply)
    ensures
        reply@ == match encoded {
            Ok(der) => ReplyView::certificate(der@),
            Err(message) => ReplyView::failed(message@),
        },
{
    match encoded {
        Ok(der) => Reply::certificate(der),
        Err(message) => Reply::failed(message),
    }
}

/// The reply to a request for the peer certificate, from what the session
/// holds.
///
/// A session without a peer certificate gives the reply that holds none and
/// reports no failure. A certificate is encoded by OpenSSL: the reply holds
/// its DER bytes, or reports the failure to encode it.
pub fn certificate_reply(peer: Option<X509>) -> (reply: Reply)
    ensures
        peer is None ==> reply@ == ReplyView::completed(),
        peer is Some ==> (reply@.failure is Some) != (reply@.certificate is Some),
        reply@.addresses == 0,
{
    match peer {
        None => Reply::completed(),
        Some(certificate) => {
            let encoded = match to_der(&certificate) {
                Ok(der) => Ok(der),
                Err(e) => Err(describe(&e)),
            };
            encoded_reply(encoded)
        },
    }
}

/// Whether the text holds a NUL character.
pub fn has_nul(text: &str) -> (found: bool)
    ensures
        found == text@.contains('\0'),
{
    let mut found = false;
    for c in it: text.chars()
        invariant
            it.seq() == text@,
            found == exists|j: int| 0 <= j < it.index() && text@[j] == '\0',
    {
        if c == '\0' {
            found = true;
        }
    }
    found
}

} // verus!
