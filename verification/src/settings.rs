//! The configuration of the server, read from the values of environment variables.
use crate::text;
use vstd::prelude::*;
use vstd::string::*;

verus! {

/// The configuration of the server.
#[derive(Debug, PartialEq, Eq)]
pub struct Settings {
    pub port: u16,
    pub required_role: String,
    pub rancher_tls_verify: bool,
}

/// The port to listen on: the one asked for, or 3000 where none is asked for or what is asked
/// for is not a port number.
pub open spec fn port_of(port: Option<Seq<char>>) -> u16 {
    match port {
        Some(value) => match text::u16_written(value) {
            Some(number) => number,
            None => 3000,
        },
        None => 3000,
    }
}

/// The role that it takes to order.
pub open spec fn required_role_of(required_role: Option<Seq<char>>) -> Seq<char> {
    match required_role {
        Some(role) => role,
        None => "susecon-beer"@,
    }
}

/// TLS certificates are verified unless that is switched off by `false` or `0`.
pub open spec fn tls_verify_of(rancher_tls_verify: Option<Seq<char>>) -> bool {
    match rancher_tls_verify {
        Some(value) => value != "false"@ && value != "0"@,
        None => true,
    }
}

/// The address to listen on, on all interfaces.
pub open spec fn bind_address_of(port: u16) -> Seq<char> {
    "0.0.0.0:"@ + text::decimal(port as nat)
}

impl Settings {
    /// The configuration from the values of `PORT`, `REQUIRED_ROLE` and `RANCHER_TLS_VERIFY`,
    /// where they are set.
    pub fn from_values(
        port: Option<String>,
        required_role: Option<String>,
        rancher_tls_verify: Option<String>,
    ) -> (r: Settings)
        ensures
            r.port == port_of(port.deep_view()),
            r.required_role@ == required_role_of(required_role.deep_view()),
            r.rancher_tls_verify == tls_verify_of(rancher_tls_verify.deep_view()),
            port is None ==> r.port == 3000,
            required_role matches Some(role) ==> r.required_role@ == role@,
            required_role is None ==> r.required_role@ == "susecon-beer"@,
            rancher_tls_verify matches Some(value) ==> (r.rancher_tls_verify <==> !(value@
                == "false"@ || value@ == "0"@)),
            rancher_tls_verify is None ==> r.rancher_tls_verify,
    {
        let port: u16 = match port {
            Some(value) => match text::parse_u16(value.as_str()) {
                Some(number) => number,
                None => 3000,
            },
            None => 3000,
        };
        let required_role: String = match required_role {
            Some(role) => role,
            None => "susecon-beer".to_owned(),
        };
        let rancher_tls_verify: bool = match rancher_tls_verify {
            Some(value) => !text::same_text(value.as_str(), "false") && !text::same_text(
                value.as_str(),
                "0",
            ),
            None => true,
        };
        Settings { port, required_role, rancher_tls_verify }
    }

    /// The address to listen on.
    pub fn bind_address(&self) -> (r: String)
        ensures
            r@ == bind_address_of(self.port),
    {
        "0.0.0.0:".to_owned().concat(text::decimal_text(self.port).as_str())
    }
}

/// A port that is asked for in plain decimal is the port that the server listens on.
pub proof fn law_port_is_honoured(port: u16)
    ensures
        port_of(Some(text::decimal(port as nat))) == port,
{
    text::lemma_decimal_reads_back(port);
}

} // verus!
