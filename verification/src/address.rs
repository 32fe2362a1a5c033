use vstd::prelude::*;

use crate::components::Components;
use crate::error::{outcome, ErrorView, TransportServerError, TransportServerResult};
use crate::files::may_answer;
use crate::options::HyperServerOptions;
use crate::text::{decimal, decimal_text, strip_prefix, without_prefix};

verus! {

/// What is to be done next to find the address that a server binds to.
pub enum AddressStep<A> {
    /// Log the warning, if there is one, look up the addresses of the host, and
    /// hand them to `after_lookup`.
    Lookup { host: String, port: u16, warning: Option<&'static str> },
    /// Read the text as an address, and hand the outcome to `after_parse`.
    Parse(String),
    /// This is the address.
    Resolved(A),
    /// There is no address, for this reason.
    Failed(TransportServerError),
}

/// An `AddressStep` with its texts as sequences of characters.
pub ghost enum AddressStepView<A> {
    Lookup { host: Seq<char>, port: u16, warning: Option<Seq<char>> },
    Parse(Seq<char>),
    Resolved(A),
    Failed(ErrorView),
}

impl<A> View for AddressStep<A> {
    type V = AddressStepView<A>;

    open spec fn view(&self) -> AddressStepView<A> {
        match self {
            AddressStep::Lookup { host, port, warning } => AddressStepView::Lookup {
                host: host@,
                port: *port,
                warning: match warning {
                    Some(text) => Some(text@),
                    None => None,
                },
            },
            AddressStep::Parse(text) => AddressStepView::Parse(text@),
            AddressStep::Resolved(address) => AddressStepView::Resolved(*address),
            AddressStep::Failed(error) => AddressStepView::Failed(error@),
        }
    }
}

/// A host without the `http://` or `https://` that may stand before it.
pub open spec fn bare_host(host: Seq<char>) -> Seq<char> {
    match without_prefix(host, "http://"@) {
        Some(rest) => rest,
        None => match without_prefix(host, "https://"@) {
            Some(rest) => rest,
            None => host,
        },
    }
}

/// Where an answer to a lookup leads: to its first address, to a last attempt at
/// reading `fallback` as an address where the answer holds none, or to an error.
pub open spec fn step_after_lookup<A>(
    fallback: Seq<char>,
    found: Result<Seq<A>, Seq<char>>,
) -> AddressStepView<A> {
    match found {
        Err(message) => AddressStepView::Failed(ErrorView::ServerStartError(message)),
        Ok(addresses) => if addresses.len() > 0 {
            AddressStepView::Resolved(addresses[0])
        } else {
            AddressStepView::Parse(fallback)
        },
    }
}

/// Where an attempt at reading a text as an address leads.
pub open spec fn step_after_parse<A>(parsed: Result<A, Seq<char>>) -> AddressStepView<A> {
    match parsed {
        Ok(address) => AddressStepView::Resolved(address),
        Err(message) => AddressStepView::Failed(ErrorView::ServerStartError(message)),
    }
}

/// The addresses, or the message, that came back from a lookup.
pub open spec fn lookup_answer<A>(found: Result<Vec<A>, String>) -> Result<Seq<A>, Seq<char>> {
    match found {
        Ok(addresses) => Ok(addresses@),
        Err(message) => Err(message@),
    }
}

/// The address, or the message, that came back from reading a text.
pub open spec fn parse_answer<A>(parsed: Result<A, String>) -> Result<A, Seq<char>> {
    match parsed {
        Ok(address) => Ok(address),
        Err(message) => Err(message@),
    }
}

/// Goes on once a text has been read as an address, or has turned out not to be
/// one.
pub fn after_parse<A>(parsed: Result<A, String>) -> (step: AddressStep<A>)
    ensures
        step@ == step_after_parse(parse_answer(parsed)),
        step == match parsed {
            Ok(address) => AddressStep::Resolved(address),
            Err(message) => AddressStep::Failed(TransportServerError::ServerStartError(message)),
        },
{
    match parsed {
        Ok(address) => AddressStep::Resolved(address),
        Err(message) => AddressStep::Failed(TransportServerError::ServerStartError(message)),
    }
}

impl<C: Components> HyperServerOptions<C> {
    /// Host and port as they were configured, with a colon between them.
    pub open spec fn host_and_port(&self) -> Seq<char> {
        self.host@ + ":"@ + decimal(self.port as nat)
    }

    /// How the search for the address begins, given what validation says of the
    /// options.
    pub open spec fn first_step<A>(&self, valid: Result<(), ErrorView>) -> AddressStepView<A> {
        match valid {
            Ok(_) => AddressStepView::Lookup {
                host: bare_host(self.host@),
                port: self.port,
                warning: self.warning(),
            },
            Err(error) => AddressStepView::Failed(error),
        }
    }

    /// The address that the search ends with, or the error: of the validation,
    /// of the lookup, or of reading host and port as an address where the lookup
    /// finds nothing.
    pub open spec fn resolution<A>(
        &self,
        valid: Result<(), ErrorView>,
        found: Result<Seq<A>, Seq<char>>,
        parsed: Result<A, Seq<char>>,
    ) -> Result<A, ErrorView> {
        match (valid, found, parsed) {
            (Err(error), _, _) => Err(error),
            (Ok(_), Err(message), _) => Err(ErrorView::ServerStartError(message)),
            (Ok(_), Ok(addresses), parsed) => if addresses.len() > 0 {
                Ok(addresses[0])
            } else {
                match parsed {
                    Ok(address) => Ok(address),
                    Err(message) => Err(ErrorView::ServerStartError(message)),
                }
            },
        }
    }

    /// Whether the host names the scheme that is not served: `http://` although
    /// connections are encrypted, or `https://` although they are not.
    pub open spec fn mismatched(&self) -> bool {
        self.enable_ssl && "http://"@.is_prefix_of(self.host@) || !self.enable_ssl
            && "https://"@.is_prefix_of(self.host@)
    }

    /// What the log is told about a scheme that is not served.
    pub open spec fn warning(&self) -> Option<Seq<char>> {
        if !self.mismatched() {
            None
        } else if self.enable_ssl {
            Some("Warning: Ignoring http:// scheme for SSL; using hostname only"@)
        } else {
            Some("Warning: Ignoring https:// scheme without SSL; using hostname only"@)
        }
    }

    /// Whether the host names the scheme that is not served. That scheme is
    /// ignored, which deserves a warning.
    pub fn scheme_mismatch(&self) -> (r: bool)
        ensures
            r == self.mismatched(),
            self.enable_ssl ==> r == "http://"@.is_prefix_of(self.host@),
            !self.enable_ssl ==> r == "https://"@.is_prefix_of(self.host@),
    {
        if self.enable_ssl {
            strip_prefix(self.host.as_str(), "http://").is_some()
        } else {
            strip_prefix(self.host.as_str(), "https://").is_some()
        }
    }

    /// The warning that is due if the host names the scheme that is not served.
    pub fn scheme_warning(&self) -> (r: Option<&'static str>)
        ensures
            match r {
                Some(text) => self.warning() == Some(text@),
                None => self.warning() is None,
            },
            r is Some <==> (if self.enable_ssl {
                "http://"@.is_prefix_of(self.host@)
            } else {
                "https://"@.is_prefix_of(self.host@)
            }),
            r matches Some(text) ==> text@ == (if self.enable_ssl {
                "Warning: Ignoring http:// scheme for SSL; using hostname only"@
            } else {
                "Warning: Ignoring https:// scheme without SSL; using hostname only"@
            }),
    {
        if !self.scheme_mismatch() {
            None
        } else if self.enable_ssl {
            Some("Warning: Ignoring http:// scheme for SSL; using hostname only")
        } else {
            Some("Warning: Ignoring https:// scheme without SSL; using hostname only")
        }
    }

    /// The host without the scheme that may stand before it.
    pub fn lookup_host(&self) -> (r: String)
        ensures
            r@ == bare_host(self.host@),
            self.host@ == (if "http://"@.is_prefix_of(self.host@) {
                "http://"@
            } else if "https://"@.is_prefix_of(self.host@) {
                "https://"@
            } else {
                Seq::<char>::empty()
            }) + r@,
    {
        match strip_prefix(self.host.as_str(), "http://") {
            Some(rest) => rest.to_string(),
            None => match strip_prefix(self.host.as_str(), "https://") {
                Some(rest) => rest.to_string(),
                None => self.host.clone(),
            },
        }
    }

    /// Begins the search for the address, given what validation says of the
    /// options.
    pub fn resolve_validated<A>(&self, valid: TransportServerResult<()>) -> (step: AddressStep<A>)
        ensures
            step@ == self.first_step::<A>(outcome(valid)),
            match valid {
                Ok(_) => step matches AddressStep::Lookup { host, port, warning } && {
                    &&& port == self.port
                    &&& self.host@ == (if "http://"@.is_prefix_of(self.host@) {
                        "http://"@
                    } else if "https://"@.is_prefix_of(self.host@) {
                        "https://"@
                    } else {
                        Seq::<char>::empty()
                    }) + host@
                    &&& warning is Some <==> (if self.enable_ssl {
                        "http://"@.is_prefix_of(self.host@)
                    } else {
                        "https://"@.is_prefix_of(self.host@)
                    })
                    &&& warning matches Some(text) ==> text@ == (if self.enable_ssl {
                        "Warning: Ignoring http:// scheme for SSL; using hostname only"@
                    } else {
                        "Warning: Ignoring https:// scheme without SSL; using hostname only"@
                    })
                },
                Err(error) => step == AddressStep::<A>::Failed(error),
            },
    {
        match valid {
            Ok(_) => AddressStep::Lookup {
                host: self.lookup_host(),
                port: self.port,
                warning: self.scheme_warning(),
            },
            Err(error) => AddressStep::Failed(error),
        }
    }

    /// Validates the options and begins the search for the address that the
    /// server binds to.
    pub fn resolve_server_address<A>(&self) -> (step: AddressStep<A>)
        ensures
            exists|verdict: Result<(), ErrorView>| #[trigger]
                self.may_validate_as(verdict) && step@ == self.first_step::<A>(verdict),
            !self.enable_ssl ==> step is Lookup,
            step is Lookup && self.enable_ssl ==> self.ssl_cert_path is Some && self.ssl_key_path is Some
                && may_answer(self.ssl_cert_path->0@, true) && may_answer(
                self.ssl_key_path->0@,
                true,
            ),
            match step {
                AddressStep::Lookup { host, port, warning } => {
                    &&& port == self.port
                    &&& self.host@ == (if "http://"@.is_prefix_of(self.host@) {
                        "http://"@
                    } else if "https://"@.is_prefix_of(self.host@) {
                        "https://"@
                    } else {
                        Seq::<char>::empty()
                    }) + host@
                    &&& warning is Some <==> (if self.enable_ssl {
                        "http://"@.is_prefix_of(self.host@)
                    } else {
                        "https://"@.is_prefix_of(self.host@)
                    })
                },
                AddressStep::Failed(error) => error is InvalidServerOptions,
                _ => false,
            },
    {
        let valid = self.validate();
        let step = self.resolve_validated(valid);
        assert(self.may_validate_as(outcome(valid)));
        step
    }

    /// Goes on once the host has been looked up.
    pub fn after_lookup<A>(&self, found: Result<Vec<A>, String>) -> (step: AddressStep<A>)
        ensures
            step@ == step_after_lookup(self.host_and_port(), lookup_answer(found)),
            match found {
                Err(message) => step == AddressStep::<A>::Failed(
                    TransportServerError::ServerStartError(message),
                ),
                Ok(addresses) => if addresses@.len() > 0 {
                    step == AddressStep::Resolved(addresses@[0])
                } else {
                    step matches AddressStep::Parse(text) && text@ == self.host@ + ":"@ + decimal(
                        self.port as nat,
                    )
                },
            },
    {
        match found {
            Err(message) => AddressStep::Failed(TransportServerError::ServerStartError(message)),
            Ok(addresses) => {
                let mut addresses = addresses;
                if addresses.len() > 0 {
                    AddressStep::Resolved(addresses.remove(0))
                } else {
                    let mut text = self.host.clone();
                    text.append(":");
                    let port = decimal_text(self.port);
                    text.append(port.as_str());
                    AddressStep::Parse(text)
                }
            },
        }
    }
}

} // verus!
