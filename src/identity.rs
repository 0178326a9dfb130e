//! The client's identity: a hostname, given or generated once.
use vstd::prelude::*;
use crate::text::{digit_spec, digit_text};

verus! {

/// What the client shows the server about itself.
#[derive(Clone, Debug)]
pub struct PublicIdentity {
    pub hostname: String,
    pub certificate_pem: Option<String>,
}

/// The client's identity with its key material (empty where no certificate
/// is made).
#[derive(Clone, Debug)]
pub struct PrivateIdentity {
    pub hostname: String,
    pub certificate_pem: String,
    pub key_pem: String,
}

/// Relies on rand::thread_rng and rand::Rng::gen_range, which draws from the
/// half-open range it is given (here 0 to 10) and panics only on an empty one.
#[verifier::external_body]
fn random_digit() -> (r: u8)
    ensures
        r < 10,
{
    rand::Rng::gen_range(&mut rand::thread_rng(), 0u8..10u8)
}

/// The hostname made from four decimal digits.
pub open spec fn generated_hostname(d0: u8, d1: u8, d2: u8, d3: u8) -> Seq<char> {
    digit_spec(d0 as nat) + digit_spec(d1 as nat) + digit_spec(d2 as nat) + digit_spec(d3 as nat) + ".client.alvr"@
}

/// The hostname made from four decimal digits, in order.
pub fn hostname_from_digits(d0: u8, d1: u8, d2: u8, d3: u8) -> (r: String)
    requires
        d0 < 10 && d1 < 10 && d2 < 10 && d3 < 10,
    ensures
        r@ == generated_hostname(d0, d1, d2, d3),
{
    let mut s = String::new();
    s.append(digit_text(d0 as u64));
    s.append(digit_text(d1 as u64));
    s.append(digit_text(d2 as u64));
    s.append(digit_text(d3 as u64));
    s.append(".client.alvr");
    assert(s@ =~= generated_hostname(d0, d1, d2, d3));
    s
}

/// The identity for `hostname`, or for a hostname of four random digits when
/// none is given. No certificate is made.
pub fn create_identity(hostname: Option<String>) -> (r: PrivateIdentity)
    ensures
        hostname matches Some(h) ==> r.hostname@ == h@,
        hostname is None ==> exists|d0: u8, d1: u8, d2: u8, d3: u8|
            d0 < 10 && d1 < 10 && d2 < 10 && d3 < 10 && r.hostname@ == #[trigger] generated_hostname(d0, d1, d2, d3),
        r.certificate_pem@.len() == 0,
        r.key_pem@.len() == 0,
{
    let hostname = match hostname {
        Some(h) => h,
        None => {
            let d0 = random_digit();
            let d1 = random_digit();
            let d2 = random_digit();
            let d3 = random_digit();
            hostname_from_digits(d0, d1, d2, d3)
        },
    };
    PrivateIdentity { hostname, certificate_pem: String::new(), key_pem: String::new() }
}

impl PrivateIdentity {
    /// The part of the identity that is shown to the server.
    pub fn public(&self) -> (r: PublicIdentity)
        ensures
            r.hostname@ == self.hostname@,
            r.certificate_pem matches Some(c) && c@ == self.certificate_pem@,
    {
        PublicIdentity {
            hostname: String::from_str(self.hostname.as_str()),
            certificate_pem: Some(String::from_str(self.certificate_pem.as_str())),
        }
    }
}

} // verus!
