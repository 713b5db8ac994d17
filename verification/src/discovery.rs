use vstd::prelude::*;
use vstd::utf8::{encode_utf8, is_ascii_chars};

use mdns_sd::{ServiceDaemon, ServiceInfo};

use crate::system::{is_ip_text, read_hostname, read_local_ip, HostnameReading, LocalAddress};

verus! {

/// The mDNS service type under which every Remit device announces itself.
pub const SERVICE_TYPE: &'static str = "_remit_transfer._tcp.local.";

/// The characters of [`SERVICE_TYPE`].
pub open spec fn service_type_chars() -> Seq<char> {
    seq!['_', 'r', 'e', 'm', 'i', 't', '_', 't', 'r', 'a', 'n', 's', 'f', 'e', 'r',
         '.', '_', 't', 'c', 'p', '.', 'l', 'o', 'c', 'a', 'l', '.']
}

/// The marker that separates a service subtype from its type in a domain.
pub open spec fn subtype_marker() -> Seq<char> {
    seq!['.', '_', 's', 'u', 'b', '.']
}

/// Whether `domain` names a service subtype, that is holds `._sub.` somewhere.
pub open spec fn names_subtype(domain: Seq<char>) -> bool {
    exists|i: int| 0 <= i && i + 6 <= domain.len() && #[trigger] domain.subrange(i, i + 6) == subtype_marker()
}

proof fn lemma_service_type_chars()
    ensures
        SERVICE_TYPE@ == service_type_chars(),
        !names_subtype(SERVICE_TYPE@),
{
    reveal_strlit("_remit_transfer._tcp.local.");
    let d = service_type_chars();
    assert(SERVICE_TYPE@ =~= d);
    assert forall|i: int| 0 <= i && i + 6 <= d.len() implies #[trigger] d.subrange(i, i + 6) != subtype_marker() by {
        if d.subrange(i, i + 6) == subtype_marker() {
            assert(d.subrange(i, i + 6)[2] == 's');
            assert(d[i + 2] == 's');
            assert(d.subrange(i, i + 6)[0] == '.');
            assert(d[i] == '.');
        }
    }
}

#[verifier::external_type_specification]
#[verifier::external_body]
pub struct ExServiceInfo(mdns_sd::ServiceInfo);

#[verifier::external_type_specification]
#[verifier::external_body]
pub struct ExServiceDaemon(mdns_sd::ServiceDaemon);

#[verifier::external_type_specification]
#[verifier::external_body]
pub struct ExMdnsError(mdns_sd::Error);

/// The port announced for the service.
pub const SERVICE_PORT: u16 = 8989;

/// The TXT property under which a device publishes its name.
pub const DEVICE_NAME_KEY: &'static str = "nombre_dispositivo";

/// The name used for this device when the stored user name cannot be read.
pub const GUEST_NAME: &'static str = "Invitado";

/// The host name used when the machine's own cannot be read.
pub const FALLBACK_HOST: &'static str = "remit-device";

/// The suffix that turns a host name into an mDNS host name.
pub const MDNS_HOST_SUFFIX: &'static str = ".local.";

/// An instance name as it appears inside a full service name: each `.` and
/// each `\` is preceded by a `\`.
pub open spec fn escape_instance_name(name: Seq<char>) -> Seq<char>
    decreases name.len(),
{
    if name.len() == 0 {
        seq![]
    } else {
        let c = name.last();
        escape_instance_name(name.drop_last()) + if c == '.' || c == '\\' {
            seq!['\\', c]
        } else {
            seq![c]
        }
    }
}

/// Whether one TXT property `key=value` is accepted in an mDNS record: the
/// key is ASCII without `=`, and key, `=` and value fit in 255 bytes.
pub open spec fn txt_property_fits(key: Seq<char>, value: Seq<char>) -> bool {
    &&& is_ascii_chars(key)
    &&& !key.contains('=')
    &&& encode_utf8(key).len() + encode_utf8(value).len() + 1 <= 255
}

/// The addresses, as text, that `mdns_sd` reads from `ip` (empty, or
/// addresses separated by `,`), each rendered by `IpAddr`'s `Display`; `None`
/// when `ip` does not parse.
pub uninterp spec fn mdns_parsed_addresses(ip: Seq<char>) -> Option<Set<Seq<char>>>;

/// Whether `mdns_sd` parses `ip` as a list of IP addresses.
pub open spec fn mdns_accepts_addresses(ip: Seq<char>) -> bool {
    mdns_parsed_addresses(ip) is Some
}

/// The host name as `mdns_sd` keeps it: a doubled `.local.local.` ending is
/// cut back to `.local.`.
pub open spec fn normalized_host_name(host: Seq<char>) -> Seq<char> {
    let doubled = seq!['.', 'l', 'o', 'c', 'a', 'l', '.', 'l', 'o', 'c', 'a', 'l', '.'];
    if host.len() >= 13 && host.subrange(host.len() - 13, host.len() as int) == doubled {
        host.take(host.len() - 6)
    } else {
        host
    }
}

/// The texts of a list of addresses, as a set.
pub open spec fn address_set(addresses: Seq<String>) -> Set<Seq<char>> {
    addresses.map_values(|a: String| a@).to_set()
}

/// Whether the TXT properties are exactly the one property `key=value`.
pub open spec fn single_property(properties: Seq<(String, String)>, key: Seq<char>, value: Seq<char>) -> bool {
    properties.len() == 1 && properties[0].0@ == key && properties[0].1@ == value
}

/// Describes a service instance for mDNS and reports what the description holds.
///
/// Trusted: `mdns_sd::ServiceInfo::new` with the single TXT property
/// `(key, value)`, then the getters `get_fullname`, `get_hostname`,
/// `get_addresses` (each address rendered by its `Display`), `get_port` and
/// `get_properties` (each property as its key and `val_str`). As the source
/// shows, the call fails exactly when the address list does not parse or the
/// property is refused (non-ASCII key, key with `=`, or more than 255 bytes).
/// On success the full name is the escaped instance name, a `.`, and the
/// service type (for a type without subtype); the host is `host_name` with a
/// doubled `.local.local.` cut back; the addresses are those parsed from
/// `ip`; the port is `port`; and the only property is `key` with `value`
/// (a value given as text reads back unchanged). What the description holds
/// beyond its getters (time-to-live, priority, weight) is not stated.
#[verifier::external_body]
fn new_service_info(
    ty_domain: &str,
    my_name: &str,
    host_name: &str,
    ip: &str,
    port: u16,
    key: &str,
    value: &str,
) -> (r: Result<Announcement, mdns_sd::Error>)
    ensures
        r.is_ok() == (txt_property_fits(key@, value@) && mdns_accepts_addresses(ip@)),
        r matches Ok(a) ==> (!names_subtype(ty_domain@) ==> a.full_name_text() == escape_instance_name(
            my_name@,
        ) + seq!['.'] + ty_domain@),
        r matches Ok(a) ==> a.host_name_text() == normalized_host_name(host_name@),
        r matches Ok(a) ==> mdns_parsed_addresses(ip@) == Some(a.address_texts()),
        r matches Ok(a) ==> a.announced_port() == port,
        r matches Ok(a) ==> single_property(a.property_list(), key@, value@),
{
    let properties = [(key, value)];
    match ServiceInfo::new(ty_domain, my_name, host_name, ip, port, &properties[..]) {
        Ok(service) => Ok(Announcement {
            full_name: service.get_fullname().to_string(),
            host_name: service.get_hostname().to_string(),
            addresses: service.get_addresses().iter().map(|a| a.to_string()).collect(),
            port: service.get_port(),
            properties: service.get_properties().iter().map(|p| (p.key().to_string(), p.val_str().to_string())).collect(),
            local_address: None,
            service,
        }),
        Err(e) => Err(e),
    }
}

/// The full mDNS name under which a device called `device_name` is announced.
pub open spec fn own_full_name(device_name: Seq<char>) -> Seq<char> {
    escape_instance_name(device_name) + seq!['.'] + SERVICE_TYPE@
}

/// Whether a device name fits in the TXT record that announces it.
pub open spec fn name_fits_record(device_name: Seq<char>) -> bool {
    encode_utf8(device_name).len() + 19 <= 255
}

proof fn lemma_device_name_key()
    ensures
        is_ascii_chars(DEVICE_NAME_KEY@),
        !DEVICE_NAME_KEY@.contains('='),
        encode_utf8(DEVICE_NAME_KEY@).len() == 18,
{
    reveal_strlit("nombre_dispositivo");
    assert(is_ascii_chars(DEVICE_NAME_KEY@));
    vstd::utf8::is_ascii_chars_encode_utf8(DEVICE_NAME_KEY@);
    if DEVICE_NAME_KEY@.contains('=') {
        let i = choose|i: int| 0 <= i < DEVICE_NAME_KEY@.len() && DEVICE_NAME_KEY@[i] == '=';
        assert(DEVICE_NAME_KEY@[i] != '=');
    }
}

/// What a device announces of itself over mDNS: the service description to
/// register, with what it holds read back from it. The fields are only set
/// from the description itself, so the two cannot differ.
pub struct Announcement {
    service: ServiceInfo,
    full_name: String,
    host_name: String,
    addresses: Vec<String>,
    port: u16,
    properties: Vec<(String, String)>,
    local_address: Option<LocalAddress>,
}

impl Announcement {
    /// The reading of the machine's local address that the announcement was
    /// prepared from, when it was prepared from one.
    pub closed spec fn address_reading(self) -> Option<LocalAddress> {
        self.local_address
    }

    /// The reading of the machine's local address that the announcement was
    /// prepared from, when it was prepared from one.
    pub fn local_address(&self) -> (r: &Option<LocalAddress>)
        ensures
            *r == self.address_reading(),
    {
        &self.local_address
    }

    /// The same announcement, recorded as prepared from the reading `address`.
    fn prepared_from(self, address: LocalAddress) -> (r: Announcement)
        ensures
            r.address_reading() == Some(address),
            r.full_name_text() == self.full_name_text(),
            r.host_name_text() == self.host_name_text(),
            r.address_texts() == self.address_texts(),
            r.announced_port() == self.announced_port(),
            r.property_list() == self.property_list(),
    {
        Announcement { local_address: Some(address), ..self }
    }

    /// The full name of the announced service instance.
    pub closed spec fn full_name_text(self) -> Seq<char> {
        self.full_name@
    }

    /// The host name the description carries.
    pub closed spec fn host_name_text(self) -> Seq<char> {
        self.host_name@
    }

    /// The addresses the description carries, as text.
    pub closed spec fn address_texts(self) -> Set<Seq<char>> {
        address_set(self.addresses@)
    }

    /// The port the description carries.
    pub closed spec fn announced_port(self) -> u16 {
        self.port
    }

    /// The TXT properties the description carries.
    pub closed spec fn property_list(self) -> Seq<(String, String)> {
        self.properties@
    }

    /// The full name of the announced service instance.
    pub fn full_name(&self) -> (r: &String)
        ensures
            r@ == self.full_name_text(),
    {
        &self.full_name
    }

    /// The host name the description carries.
    pub fn host_name(&self) -> (r: &String)
        ensures
            r@ == self.host_name_text(),
    {
        &self.host_name
    }

    /// The addresses the description carries, as text.
    pub fn addresses(&self) -> (r: &Vec<String>)
        ensures
            address_set(r@) == self.address_texts(),
    {
        &self.addresses
    }

    /// The port the description carries.
    pub fn port(&self) -> (r: u16)
        ensures
            r == self.announced_port(),
    {
        self.port
    }

    /// The TXT properties the description carries.
    pub fn properties(&self) -> (r: &Vec<(String, String)>)
        ensures
            r@ == self.property_list(),
    {
        &self.properties
    }

    /// The service description to register with the mDNS daemon.
    pub fn service(&self) -> &ServiceInfo {
        &self.service
    }

    /// Hands over the service description, to register it.
    pub fn into_service(self) -> ServiceInfo {
        self.service
    }
}

/// Whether `a` announces the device `device_name` on host `host_name` at the
/// addresses of `ip`: its full name, host, addresses, the port
/// [`SERVICE_PORT`], and the single property [`DEVICE_NAME_KEY`] with the name.
pub open spec fn describes(a: Announcement, device_name: Seq<char>, host_name: Seq<char>, ip: Seq<char>) -> bool {
    &&& a.full_name_text() == own_full_name(device_name)
    &&& a.host_name_text() == normalized_host_name(host_name)
    &&& mdns_parsed_addresses(ip) == Some(a.address_texts())
    &&& a.announced_port() == SERVICE_PORT
    &&& single_property(a.property_list(), DEVICE_NAME_KEY@, device_name)
}

/// Why a device could not announce itself.
pub enum AnnounceError {
    /// The local IP address of the machine could not be read.
    NoLocalAddress,
    /// The mDNS library refused the service description.
    ServiceRejected,
}

/// The device name to announce: the stored user name, or [`GUEST_NAME`] when
/// it could not be read.
pub fn device_name_or_guest(stored: Result<String, String>) -> (r: String)
    ensures
        stored matches Ok(name) ==> r == name,
        stored is Err ==> r@ == GUEST_NAME@,
{
    match stored {
        Ok(name) => name,
        Err(_) => GUEST_NAME.to_string(),
    }
}

/// The mDNS host name for a host-name reading: the host name (rendered
/// lossily when not Unicode), or [`FALLBACK_HOST`] when unavailable, followed
/// by `.local.`.
pub open spec fn mdns_host_text(reading: HostnameReading) -> Seq<char> {
    let name = match reading {
        HostnameReading::Unavailable => FALLBACK_HOST@,
        HostnameReading::Unicode(name) => name@,
        HostnameReading::NotUnicode(lossy) => lossy@,
    };
    name + MDNS_HOST_SUFFIX@
}

/// The mDNS host name of this machine, from its host-name reading.
pub fn service_host_name(reading: HostnameReading) -> (r: String)
    ensures
        r@ == mdns_host_text(reading),
{
    let mut host = match reading {
        HostnameReading::Unavailable => FALLBACK_HOST.to_string(),
        HostnameReading::Unicode(name) => name,
        HostnameReading::NotUnicode(lossy) => lossy,
    };
    host.append(MDNS_HOST_SUFFIX);
    host
}

/// Describes this device's service: the instance `device_name` of
/// [`SERVICE_TYPE`] on host `host_name` at address `ip` and port
/// [`SERVICE_PORT`], publishing its name under [`DEVICE_NAME_KEY`].
pub fn build_service(device_name: &str, host_name: &str, ip: &str) -> (r: Result<
    Announcement,
    AnnounceError,
>)
    ensures
        r is Ok <==> name_fits_record(device_name@) && mdns_accepts_addresses(ip@),
        r matches Ok(a) ==> describes(a, device_name@, host_name@, ip@),
        r matches Err(e) ==> e is ServiceRejected,
{
    proof {
        lemma_device_name_key();
        lemma_service_type_chars();
    }
    match new_service_info(SERVICE_TYPE, device_name, host_name, ip, SERVICE_PORT, DEVICE_NAME_KEY, device_name) {
        Ok(announcement) => Ok(announcement),
        Err(_) => Err(AnnounceError::ServiceRejected),
    }
}

/// This device's announcement under `device_name`, given what the machine
/// reported of its host name and local IP address: none without an address;
/// otherwise the service on the reported host at that address.
pub fn announce_from(device_name: &str, reading: HostnameReading, local_ip: Option<String>) -> (r: Result<
    Announcement,
    AnnounceError,
>)
    ensures
        match local_ip {
            None => r matches Err(e) && e is NoLocalAddress,
            Some(ip) => {
                &&& r is Ok <==> name_fits_record(device_name@) && mdns_accepts_addresses(ip@)
                &&& r matches Ok(a) ==> describes(a, device_name@, mdns_host_text(reading), ip@)
                &&& r matches Err(e) ==> e is ServiceRejected
            },
        },
{
    match local_ip {
        None => Err(AnnounceError::NoLocalAddress),
        Some(ip) => {
            let host_name = service_host_name(reading);
            build_service(device_name, host_name.as_str(), ip.as_str())
        },
    }
}

/// Prepares this device's announcement under `device_name`, reading the
/// machine's host name and local IP address.
///
/// The machine decides whether an address is found, so success is not
/// promised; whatever it reports, a successful announcement is prepared from
/// the address that the machine reported, which it carries, and describes the
/// device on its mDNS host name at exactly that address; a name too long for
/// the TXT record is always refused.
pub fn prepare_announcement(device_name: &str) -> (r: Result<Announcement, AnnounceError>)
    ensures
        r matches Ok(a) ==> (a.address_reading() matches Some(address) && is_ip_text(
            address.text_view(),
        ) && exists|reading: HostnameReading| #[trigger]
            describes(a, device_name@, mdns_host_text(reading), address.text_view())),
        !name_fits_record(device_name@) ==> r is Err,
{
    let reading = read_hostname();
    let ghost reading_view = reading;
    match read_local_ip() {
        None => announce_from(device_name, reading, None),
        Some(address) => {
            let text = address.text().to_string();
            match announce_from(device_name, reading, Some(text)) {
                Ok(a) => {
                    let prepared = a.prepared_from(address);
                    assert(describes(prepared, device_name@, mdns_host_text(reading_view), address.text_view()));
                    Ok(prepared)
                },
                Err(e) => Err(e),
            }
        },
    }
}

/// A device found on the network, as reported to the user interface.
pub struct Dispositivo {
    /// The full mDNS name of the device's service instance.
    pub full_name: String,
    /// The device's mDNS host name.
    pub disp_name: String,
    /// The device's first IPv4 address, or empty when it has none.
    pub ip: String,
    /// The port of the device's service.
    pub port: u16,
    /// The TXT properties of the device's service.
    pub properties: Vec<(String, String)>,
}

/// One address of a resolved service, as text.
pub struct PeerAddress {
    /// Whether the address is an IPv4 address.
    pub is_ipv4: bool,
    /// The address rendered as text.
    pub text: String,
}

/// A service instance resolved on the network.
pub struct ResolvedPeer {
    pub full_name: String,
    pub host_name: String,
    /// The addresses of the service, in the order in which they were listed.
    pub addresses: Vec<PeerAddress>,
    pub port: u16,
    pub properties: Vec<(String, String)>,
}

/// What the mDNS browser reports.
pub enum DiscoveryEvent {
    /// A service instance was resolved.
    Resolved(ResolvedPeer),
    /// A service instance went away.
    Removed { service_type: String, full_name: String },
    /// Any other report (search started or stopped, instance found but not resolved).
    Other,
}

/// What the application does with a discovery event.
pub enum DiscoveryAction {
    /// Tell the user interface that a device was found.
    ReportFound(Dispositivo),
    /// Tell the user interface that the device with this full name went away.
    ReportRemoved(String),
    /// Nothing.
    Nothing,
}

/// The text of the first IPv4 address in `addresses`, or empty when there is none.
pub open spec fn first_ipv4(addresses: Seq<PeerAddress>) -> Seq<char>
    decreases addresses.len(),
{
    if addresses.len() == 0 {
        seq![]
    } else if addresses[0].is_ipv4 {
        addresses[0].text@
    } else {
        first_ipv4(addresses.drop_first())
    }
}

/// The reported address is the first IPv4 one: when the address at `k` is
/// IPv4 and none before it is, it is the text of the address at `k` (so a list
/// that starts with an IPv4 address gives that address).
pub proof fn lemma_first_ipv4_is_the_first_ipv4_address(addresses: Seq<PeerAddress>, k: int)
    requires
        0 <= k < addresses.len(),
        addresses[k].is_ipv4,
        forall|j: int| 0 <= j < k ==> !(#[trigger] addresses[j]).is_ipv4,
    ensures
        first_ipv4(addresses) == addresses[k].text@,
    decreases k,
{
    if k > 0 {
        let rest = addresses.drop_first();
        assert forall|j: int| 0 <= j < k - 1 implies !(#[trigger] rest[j]).is_ipv4 by {
            assert(rest[j] == addresses[j + 1]);
        }
        lemma_first_ipv4_is_the_first_ipv4_address(rest, k - 1);
    }
}

/// The reported address is empty when no address is IPv4.
pub proof fn lemma_no_ipv4_address_gives_empty(addresses: Seq<PeerAddress>)
    requires
        forall|j: int| 0 <= j < addresses.len() ==> !(#[trigger] addresses[j]).is_ipv4,
    ensures
        first_ipv4(addresses) == Seq::<char>::empty(),
    decreases addresses.len(),
{
    if addresses.len() > 0 {
        let rest = addresses.drop_first();
        assert forall|j: int| 0 <= j < rest.len() implies !(#[trigger] rest[j]).is_ipv4 by {
            assert(rest[j] == addresses[j + 1]);
        }
        lemma_no_ipv4_address_gives_empty(rest);
    }
}

/// The text of the first IPv4 address in `addresses`, or an empty string.
pub fn first_ipv4_address(addresses: &Vec<PeerAddress>) -> (r: String)
    ensures
        r@ == first_ipv4(addresses@),
        forall|k: int|
            0 <= k < addresses.len() && (#[trigger] addresses@[k]).is_ipv4 && (forall|j: int|
                0 <= j < k ==> !addresses@[j].is_ipv4) ==> r@ == addresses@[k].text@,
        (forall|j: int| 0 <= j < addresses.len() ==> !(#[trigger] addresses@[j]).is_ipv4) ==> r@.len() == 0,
{
    proof {
        assert forall|k: int|
            0 <= k < addresses.len() && (#[trigger] addresses@[k]).is_ipv4 && (forall|j: int|
                0 <= j < k ==> !addresses@[j].is_ipv4) implies first_ipv4(addresses@) == addresses@[k].text@ by {
            lemma_first_ipv4_is_the_first_ipv4_address(addresses@, k);
        }
        if forall|j: int| 0 <= j < addresses.len() ==> !(#[trigger] addresses@[j]).is_ipv4 {
            lemma_no_ipv4_address_gives_empty(addresses@);
        }
    }
    first_ipv4_text(addresses)
}

fn first_ipv4_text(addresses: &Vec<PeerAddress>) -> (r: String)
    ensures
        r@ == first_ipv4(addresses@),
{
    let mut i: usize = 0;
    assert(addresses@.skip(0) =~= addresses@);
    while i < addresses.len()
        invariant
            i <= addresses.len(),
            first_ipv4(addresses@) == first_ipv4(addresses@.skip(i as int)),
        decreases addresses.len() - i,
    {
        assert(addresses@.skip(i as int).drop_first() =~= addresses@.skip(i + 1));
        if addresses[i].is_ipv4 {
            return addresses[i].text.clone();
        }
        i = i + 1;
    }
    assert(addresses@.skip(i as int) =~= Seq::<PeerAddress>::empty());
    String::new()
}

/// Decides what to do with a discovery event, for the device whose own
/// service is `own_full_name`.
///
/// A resolved instance other than the device's own is reported as found, with
/// its full name, host name, first IPv4 address (or an empty one), port and
/// properties; the device's own instance is never reported. A removed instance
/// is reported by its full name. Other events are ignored.
pub fn handle_event(own_full_name: &String, event: DiscoveryEvent) -> (r: DiscoveryAction)
    ensures
        match event {
            DiscoveryEvent::Resolved(peer) => if peer.full_name@ == own_full_name@ {
                r is Nothing
            } else {
                &&& r matches DiscoveryAction::ReportFound(d)
                &&& d.full_name == peer.full_name
                &&& d.disp_name == peer.host_name
                &&& d.ip@ == first_ipv4(peer.addresses@)
                &&& d.port == peer.port
                &&& d.properties == peer.properties
            },
            DiscoveryEvent::Removed { full_name, .. } => r == DiscoveryAction::ReportRemoved(full_name),
            DiscoveryEvent::Other => r is Nothing,
        },
{
    match event {
        DiscoveryEvent::Resolved(peer) => {
            if peer.full_name == *own_full_name {
                DiscoveryAction::Nothing
            } else {
                let ip = first_ipv4_address(&peer.addresses);
                DiscoveryAction::ReportFound(
                    Dispositivo {
                        full_name: peer.full_name,
                        disp_name: peer.host_name,
                        ip,
                        port: peer.port,
                        properties: peer.properties,
                    },
                )
            }
        },
        DiscoveryEvent::Removed { full_name, .. } => DiscoveryAction::ReportRemoved(full_name),
        DiscoveryEvent::Other => DiscoveryAction::Nothing,
    }
}

/// The mDNS state shared by the application: the running daemon, the full
/// name of the service it announces, and whether a start is under way.
pub struct MdnsState {
    daemon: Option<ServiceDaemon>,
    service_full_name: Option<String>,
    starting: bool,
}

impl MdnsState {
    /// The running daemon, if any.
    pub closed spec fn daemon_view(self) -> Option<ServiceDaemon> {
        self.daemon
    }

    /// The full name of the announced service, if any.
    pub closed spec fn announced_name(self) -> Option<String> {
        self.service_full_name
    }

    /// Whether a start was granted and has neither recorded its service nor
    /// given up.
    pub closed spec fn start_under_way(self) -> bool {
        self.starting
    }

    /// Whether discovery may start: no daemon runs and no start is under way.
    pub open spec fn may_start(self) -> bool {
        self.daemon_view() is None && !self.start_under_way()
    }

    /// The state after asking to start: a start is under way when one was
    /// granted; otherwise nothing changes.
    pub closed spec fn after_start_request(self) -> MdnsState {
        if self.may_start() {
            MdnsState { starting: true, ..self }
        } else {
            self
        }
    }

    /// The state after a granted start gave up without a daemon.
    pub closed spec fn after_abandon(self) -> MdnsState {
        MdnsState { starting: false, ..self }
    }

    /// The state once a daemon runs and announces `full_name`.
    pub closed spec fn with_service(self, daemon: ServiceDaemon, full_name: String) -> MdnsState {
        MdnsState { daemon: Some(daemon), service_full_name: Some(full_name), starting: false }
    }

    /// What shutting down hands over: the daemon and the name to unregister,
    /// when a name was announced and the daemon still runs.
    pub open spec fn shutdown_target(self) -> Option<(ServiceDaemon, String)> {
        match (self.daemon_view(), self.announced_name()) {
            (Some(daemon), Some(name)) => Some((daemon, name)),
            _ => None,
        }
    }

    /// The state after shutting down: when a name was announced, the daemon is
    /// taken out; otherwise nothing changes.
    pub closed spec fn after_shutdown(self) -> MdnsState {
        if self.service_full_name is Some {
            MdnsState { daemon: None, ..self }
        } else {
            self
        }
    }

    /// A state with no daemon, no announced service and no start under way.
    pub fn new() -> (s: MdnsState)
        ensures
            s.daemon_view() is None,
            s.announced_name() is None,
            !s.start_under_way(),
    {
        MdnsState { daemon: None, service_full_name: None, starting: false }
    }

    /// Whether a daemon already runs.
    pub fn is_running(&self) -> (r: bool)
        ensures
            r == self.daemon_view() is Some,
    {
        self.daemon.is_some()
    }

    /// Whether a start was granted and is still under way.
    pub fn is_starting(&self) -> (r: bool)
        ensures
            r == self.start_under_way(),
    {
        self.starting
    }

    /// The full name of the announced service, if any.
    pub fn service_full_name(&self) -> (r: Option<&String>)
        ensures
            match r {
                Some(name) => self.announced_name() == Some(*name),
                None => self.announced_name() is None,
            },
    {
        self.service_full_name.as_ref()
    }

    /// Asks to start discovery, checking and reserving in one step: granted
    /// exactly when no daemon runs and no other start is under way, in which
    /// case a start is then under way.
    pub fn try_start(&mut self) -> (granted: bool)
        ensures
            granted == old(self).may_start(),
            *final(self) == old(self).after_start_request(),
            final(self).daemon_view() == old(self).daemon_view(),
            final(self).announced_name() == old(self).announced_name(),
            final(self).start_under_way() == (old(self).start_under_way() || granted),
    {
        if self.daemon.is_none() && !self.starting {
            self.starting = true;
            true
        } else {
            false
        }
    }

    /// Gives up a granted start that could not bring up a daemon.
    pub fn abandon_start(&mut self)
        ensures
            *final(self) == old(self).after_abandon(),
            final(self).daemon_view() == old(self).daemon_view(),
            final(self).announced_name() == old(self).announced_name(),
            !final(self).start_under_way(),
    {
        self.starting = false;
    }

    /// Records the daemon that runs and the full name of the service it
    /// announces; the start is then complete.
    pub fn record_service(&mut self, daemon: ServiceDaemon, full_name: String)
        ensures
            *final(self) == old(self).with_service(daemon, full_name),
            final(self).daemon_view() == Some(daemon),
            final(self).announced_name() == Some(full_name),
            !final(self).start_under_way(),
    {
        self.daemon = Some(daemon);
        self.service_full_name = Some(full_name);
        self.starting = false;
    }

    /// On exit: hands over the daemon with the name to unregister, when a name
    /// was announced and the daemon still runs.
    pub fn take_for_shutdown(&mut self) -> (r: Option<(ServiceDaemon, String)>)
        ensures
            r == old(self).shutdown_target(),
            *final(self) == old(self).after_shutdown(),
            final(self).daemon_view() == if old(self).announced_name() is Some {
                None
            } else {
                old(self).daemon_view()
            },
            final(self).announced_name() == old(self).announced_name(),
            final(self).start_under_way() == old(self).start_under_way(),
    {
        let name = match &self.service_full_name {
            Some(name) => name.clone(),
            None => {
                return None;
            },
        };
        match self.daemon.take() {
            Some(daemon) => Some((daemon, name)),
            None => None,
        }
    }
}

/// A freshly made state may start once and has nothing to shut down.
pub proof fn lemma_fresh_state_has_nothing_to_shut_down(s: MdnsState)
    requires
        s.daemon_view() is None,
        s.announced_name() is None,
        !s.start_under_way(),
    ensures
        s.may_start(),
        s.shutdown_target() is None,
        s.after_shutdown() == s,
{
}

/// At most one start at a time: whatever the state, once a start has been
/// asked for, a second request is refused, so two overlapping starts never
/// both proceed.
pub proof fn lemma_at_most_one_start(s: MdnsState)
    ensures
        !s.after_start_request().may_start(),
        !(s.may_start() && s.after_start_request().may_start()),
{
}

/// While a daemon runs, no start is granted; a start that gave up without a
/// daemon lets a later one proceed.
pub proof fn lemma_running_daemon_blocks_start(s: MdnsState, daemon: ServiceDaemon, full_name: String)
    ensures
        !s.with_service(daemon, full_name).may_start(),
        s.daemon_view() is None ==> s.after_start_request().after_abandon().may_start(),
{
}

/// Shutting down after a service was recorded unregisters exactly that
/// service, on exactly that daemon, and leaves no daemon running.
pub proof fn lemma_shutdown_unregisters_recorded(s: MdnsState, daemon: ServiceDaemon, full_name: String)
    ensures
        s.with_service(daemon, full_name).shutdown_target() == Some((daemon, full_name)),
        s.with_service(daemon, full_name).after_shutdown().daemon_view() is None,
{
}

/// Shutting down twice does nothing the second time: nothing more is handed
/// over and the state stays as the first shutdown left it.
pub proof fn lemma_shutdown_is_idempotent(s: MdnsState)
    ensures
        s.after_shutdown().after_shutdown() == s.after_shutdown(),
        s.announced_name() is Some ==> s.after_shutdown().shutdown_target() is None,
{
}

} // verus!
