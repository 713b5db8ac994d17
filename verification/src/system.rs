use vstd::prelude::*;

verus! {

/// What the operating system reported as this machine's host name.
pub enum HostnameReading {
    /// The host name could not be read.
    Unavailable,
    /// The host name, which is valid Unicode.
    Unicode(String),
    /// The host name is not valid Unicode; this is its lossy rendering, with
    /// each invalid sequence replaced by U+FFFD.
    NotUnicode(String),
}

/// Reads the host name of this machine.
///
/// Trusted: `hostname::get`, then `OsString::into_string` to tell a Unicode
/// name from another, and `OsStr::to_string_lossy` for the latter. The result
/// depends on the machine, so nothing is stated of it.
#[verifier::external_body]
pub fn read_hostname() -> (r: HostnameReading) {
    match hostname::get() {
        Err(_) => HostnameReading::Unavailable,
        Ok(name) => match name.into_string() {
            Ok(text) => HostnameReading::Unicode(text),
            Err(raw) => HostnameReading::NotUnicode(raw.to_string_lossy().into_owned()),
        },
    }
}

/// Whether `c` may appear in the text of an IP address: a decimal digit, a
/// lower-case hexadecimal letter, `.` or `:`.
pub open spec fn is_ip_char(c: char) -> bool {
    ('0' <= c && c <= '9') || ('a' <= c && c <= 'f') || c == '.' || c == ':'
}

/// Whether `s` has the shape of an IP address's text: not empty, and made of
/// digits, lower-case hexadecimal letters, `.` and `:` only.
pub open spec fn is_ip_text(s: Seq<char>) -> bool {
    s.len() > 0 && forall|i: int| 0 <= i < s.len() ==> is_ip_char(#[trigger] s[i])
}

/// A local IP address of this machine, as its text. Only a reading of the
/// machine makes one, so a value of this type is an address that the machine
/// reported.
pub struct LocalAddress {
    text: String,
}

impl LocalAddress {
    /// The text of the address.
    pub closed spec fn text_view(&self) -> Seq<char> {
        self.text@
    }

    /// The text of the address.
    pub fn text(&self) -> (r: &str)
        ensures
            r@ == self.text_view(),
    {
        self.text.as_str()
    }

    /// Hands over the text of the address.
    pub fn into_text(self) -> (r: String)
        ensures
            r@ == self.text_view(),
    {
        self.text
    }
}

/// Reads the local IP address of this machine, rendered as text, or `None`
/// when it cannot be determined.
///
/// Trusted: `local_ip_address::local_ip`, which returns a `std::net::IpAddr`,
/// rendered by its `Display`: dotted decimal for IPv4, the RFC 5952 text
/// (lower-case hexadecimal groups, `:`, and dotted decimal for an embedded
/// IPv4 address) for IPv6. The contract claims only that shape; which address,
/// and whether one is found, depends on the machine's network interfaces and
/// is not stated.
#[verifier::external_body]
pub fn read_local_ip() -> (r: Option<LocalAddress>)
    ensures
        r matches Some(ip) ==> is_ip_text(ip.text_view()),
{
    match local_ip_address::local_ip() {
        Ok(ip) => Some(LocalAddress { text: ip.to_string() }),
        Err(_) => None,
    }
}

} // verus!
