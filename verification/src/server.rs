//! The listener's configuration and the one decision taken at start-up:
//! whether to serve over TLS, and whether the listener may start at all.

use vstd::prelude::*;
use crate::error::MetricsError;

verus! {

/// Where the TLS material lies: the private key and the certificate chain.
#[derive(Clone, Debug, PartialEq, Eq)]
pub struct Certificate {
    pub private_path: String,
    pub public_path: String,
}

/// The listener's configuration. It is made once, before the listener
/// starts, and only read afterwards.
#[derive(Clone, Debug, PartialEq, Eq)]
pub struct Config {
    pub host: String,
    pub port: u16,
    pub certificate: Option<Certificate>,
}

/// How the listener serves.
#[derive(Clone, Copy, Debug, PartialEq, Eq, Structural, Hash)]
pub enum Transport {
    /// Plain text.
    Plain,
    /// TLS, terminated by the listener.
    Tls,
}

/// The transport that a configuration asks for: TLS exactly where it names
/// a certificate.
pub open spec fn transport_of(config: Config) -> Transport {
    if config.certificate is Some {
        Transport::Tls
    } else {
        Transport::Plain
    }
}

/// Whether the listener starts, and how. A listener without a certificate
/// serves plain text. One with a certificate serves over TLS, and does not
/// start unless both of its files can be read.
pub open spec fn startup(config: Config, key_readable: bool, chain_readable: bool) -> Result<
    Transport,
    MetricsError,
> {
    if config.certificate is None {
        Ok(Transport::Plain)
    } else if key_readable && chain_readable {
        Ok(Transport::Tls)
    } else {
        Err(MetricsError::ListenerStartupFailure)
    }
}

impl Config {
    /// A configuration for plain text on the given address.
    pub fn plain(host: String, port: u16) -> (r: Config)
        ensures
            r == (Config { host, port, certificate: None }),
    {
        Config { host, port, certificate: None }
    }

    /// Computes `transport_of`.
    pub fn transport(&self) -> (r: Transport)
        ensures
            r == transport_of(*self),
    {
        match &self.certificate {
            Some(_) => Transport::Tls,
            None => Transport::Plain,
        }
    }

    /// Decides at start-up whether the listener starts, and how.
    ///
    /// `key_readable` and `chain_readable` say whether the caller could read
    /// the private key and the certificate chain; without a certificate
    /// they are not looked at. The decision is taken once: a listener that
    /// started keeps its transport.
    pub fn start(&self, key_readable: bool, chain_readable: bool) -> (r: Result<
        Transport,
        MetricsError,
    >)
        ensures
            r == startup(*self, key_readable, chain_readable),
    {
        match &self.certificate {
            None => Ok(Transport::Plain),
            Some(_) => {
                if key_readable && chain_readable {
                    Ok(Transport::Tls)
                } else {
                    Err(MetricsError::ListenerStartupFailure)
                }
            },
        }
    }
}

/// A configured certificate with a file that cannot be read keeps the
/// listener from starting, and that is the only failure of a start: no
/// request is ever the cause of it.
pub proof fn lemma_unreadable_certificate_is_fatal(
    config: Config,
    key_readable: bool,
    chain_readable: bool,
)
    ensures
        startup(config, key_readable, chain_readable) is Err <==> (config.certificate is Some && !(
        key_readable && chain_readable)),
        startup(config, key_readable, chain_readable) matches Err(e) ==> e
            == MetricsError::ListenerStartupFailure && !e.per_request(),
        startup(config, key_readable, chain_readable) matches Ok(transport) ==> transport
            == transport_of(config),
{
}

} // verus!
