//! What to say to the service-discovery daemon so that the listening port
//! is advertised on the local network.
//!
//! The calls are described here as plain values. Putting them on the message
//! bus, and reading the daemon's answers, is left to the caller.

use vstd::prelude::*;

verus! {

/// How long the daemon may take to answer one call, in milliseconds.
pub const DBUS_TIMEOUT: i32 = 2000;

/// Bus name of the daemon.
pub const BUS_AVAHI: &'static str = "org.freedesktop.Avahi";

/// Interface of an entry group.
pub const IF_ENTRY_GROUP: &'static str = "org.freedesktop.Avahi.EntryGroup";

/// Interface of the daemon itself.
pub const IF_SERVER: &'static str = "org.freedesktop.Avahi.Server";

/// Object path of the daemon itself.
pub const SERVER_PATH: &'static str = "/";

/// Name under which the service is advertised.
pub const SERVICE_NAME: &'static str = "TV-WoL";

/// Type under which the service is advertised.
pub const SERVICE_TYPE: &'static str = "_tv-wol._tcp";

/// Address family of an advertisement.
#[derive(Debug, Clone, Copy, PartialEq, Eq, Structural)]
pub enum AvahiProto {
    INET,
    INET6,
    UNSPEC,
}

impl AvahiProto {
    /// The number the daemon knows this family by.
    pub open spec fn spec_code(self) -> int {
        match self {
            AvahiProto::INET => 0,
            AvahiProto::INET6 => 1,
            AvahiProto::UNSPEC => -1,
        }
    }

    /// The number the daemon knows this family by.
    pub fn code(self) -> (n: i32)
        ensures
            n == self.spec_code(),
    {
        match self {
            AvahiProto::INET => 0,
            AvahiProto::INET6 => 1,
            AvahiProto::UNSPEC => -1,
        }
    }
}

/// Network interface of an advertisement.
#[derive(Debug, Clone, Copy, PartialEq, Eq, Structural)]
pub enum AvahiIf {
    UNSPEC,
}

impl AvahiIf {
    /// The number the daemon knows this interface by.
    pub open spec fn spec_code(self) -> int {
        -1
    }

    /// The number the daemon knows this interface by.
    pub fn code(self) -> (n: i32)
        ensures
            n == self.spec_code(),
    {
        -1
    }
}

/// The methods of the daemon that this crate calls.
#[derive(Debug, Clone, Copy, PartialEq, Eq, Structural)]
pub enum Method {
    /// Ask the daemon for a new entry group.
    EntryGroupNew,
    /// Add a service to an entry group.
    AddService,
    /// Publish an entry group.
    Commit,
    /// Withdraw an entry group.
    Free,
}

impl Method {
    /// The member name of the method.
    pub open spec fn spec_member(self) -> Seq<char> {
        match self {
            Method::EntryGroupNew => "EntryGroupNew"@,
            Method::AddService => "AddService"@,
            Method::Commit => "Commit"@,
            Method::Free => "Free"@,
        }
    }

    /// The interface that the method belongs to: the daemon's own for a new
    /// group, the group's for the others.
    pub open spec fn spec_interface(self) -> Seq<char> {
        match self {
            Method::EntryGroupNew => IF_SERVER@,
            _ => IF_ENTRY_GROUP@,
        }
    }

    /// The member name of the method.
    pub fn member(self) -> (name: &'static str)
        ensures
            name@ == self.spec_member(),
    {
        match self {
            Method::EntryGroupNew => "EntryGroupNew",
            Method::AddService => "AddService",
            Method::Commit => "Commit",
            Method::Free => "Free",
        }
    }

    /// The interface that the method belongs to.
    pub fn interface(self) -> (name: &'static str)
        ensures
            name@ == self.spec_interface(),
    {
        match self {
            Method::EntryGroupNew => IF_SERVER,
            _ => IF_ENTRY_GROUP,
        }
    }
}

/// The arguments of an `AddService` call, in the order the daemon takes
/// them; the list of text records that ends the call is always empty.
#[derive(Debug)]
pub struct ServiceRecord {
    pub interface: i32,
    pub protocol: i32,
    pub flags: u32,
    pub name: String,
    pub service_type: String,
    pub domain: String,
    pub host: String,
    pub port: u16,
}

/// One call to the daemon.
#[derive(Debug)]
pub struct MethodCall {
    /// The method to call.
    pub method: Method,
    /// The object to call it on.
    pub path: String,
    /// The service to add, for `AddService`.
    pub service: Option<ServiceRecord>,
}

/// `text`, or the empty string where there is none.
pub open spec fn text_or_empty(text: Option<Seq<char>>) -> Seq<char> {
    match text {
        Some(t) => t,
        None => Seq::empty(),
    }
}

/// The call that asks the daemon for a new entry group. The daemon answers
/// with the object path of the group.
pub fn entry_group_new() -> (call: MethodCall)
    ensures
        call.method == Method::EntryGroupNew,
        call.path@ == SERVER_PATH@,
        call.service is None,
{
    MethodCall { method: Method::EntryGroupNew, path: SERVER_PATH.to_owned(), service: None }
}

/// An entry group of the daemon: its object path, and whether it was asked
/// to publish.
#[derive(Debug)]
pub struct EntryGroup {
    path: String,
    committed: bool,
}

impl EntryGroup {
    /// The object path of the group.
    pub closed spec fn spec_path(&self) -> Seq<char> {
        self.path@
    }

    /// Whether the group was asked to publish.
    pub closed spec fn spec_committed(&self) -> bool {
        self.committed
    }

    /// The group that the daemon created at `path`.
    pub fn new(path: String) -> (group: EntryGroup)
        ensures
            group.spec_path() == path@,
            !group.spec_committed(),
    {
        EntryGroup { path, committed: false }
    }

    /// The object path of the group.
    pub fn path(&self) -> (p: &str)
        ensures
            p@ == self.spec_path(),
    {
        self.path.as_str()
    }

    /// Whether the group was asked to publish.
    pub fn committed(&self) -> (c: bool)
        ensures
            c == self.spec_committed(),
    {
        self.committed
    }

    /// The call that adds a service to the group, on any interface and any
    /// address family. Without a domain or a host the daemon is handed an
    /// empty string and picks its own.
    pub fn add_service(
        &mut self,
        name: &str,
        service_type: &str,
        domain: Option<&str>,
        host: Option<String>,
        port: u16,
    ) -> (call: MethodCall)
        ensures
            final(self).spec_path() == old(self).spec_path(),
            final(self).spec_committed() == old(self).spec_committed(),
            call.method == Method::AddService,
            call.path@ == old(self).spec_path(),
            call.service is Some,
            call.service->Some_0.interface == AvahiIf::UNSPEC.spec_code(),
            call.service->Some_0.protocol == AvahiProto::UNSPEC.spec_code(),
            call.service->Some_0.flags == 0,
            call.service->Some_0.name@ == name@,
            call.service->Some_0.service_type@ == service_type@,
            call.service->Some_0.domain@ == text_or_empty(
                match domain {
                    Some(d) => Some(d@),
                    None => None,
                },
            ),
            call.service->Some_0.host@ == text_or_empty(
                match host {
                    Some(h) => Some(h@),
                    None => None,
                },
            ),
            call.service->Some_0.port == port,
    {
        let domain_text: String = match domain {
            Some(d) => d.to_owned(),
            None => String::new(),
        };
        let host_text: String = match host {
            Some(h) => h,
            None => String::new(),
        };
        let record = ServiceRecord {
            interface: AvahiIf::UNSPEC.code(),
            protocol: AvahiProto::UNSPEC.code(),
            flags: 0,
            name: name.to_owned(),
            service_type: service_type.to_owned(),
            domain: domain_text,
            host: host_text,
            port,
        };
        MethodCall { method: Method::AddService, path: self.path.clone(), service: Some(record) }
    }

    /// The call that publishes the group.
    pub fn commit(&mut self) -> (call: MethodCall)
        ensures
            final(self).spec_path() == old(self).spec_path(),
            final(self).spec_committed(),
            call.method == Method::Commit,
            call.path@ == old(self).spec_path(),
            call.service is None,
    {
        self.committed = true;
        MethodCall { method: Method::Commit, path: self.path.clone(), service: None }
    }

    /// The call that withdraws the group, owed when the group goes away.
    pub fn free(&self) -> (call: MethodCall)
        ensures
            call.method == Method::Free,
            call.path@ == self.spec_path(),
            call.service is None,
    {
        MethodCall { method: Method::Free, path: self.path.clone(), service: None }
    }
}

/// Advertise the service on `port`: the group that the daemon created at
/// `path`, and the two calls that remain to be made, in order. The first
/// adds the service under its fixed name and type, with neither domain nor
/// host; the second publishes.
pub fn register(path: String, port: u16) -> (r: (EntryGroup, Vec<MethodCall>))
    ensures
        r.0.spec_path() == path@,
        r.0.spec_committed(),
        r.1@.len() == 2,
        r.1@[0].method == Method::AddService,
        r.1@[0].path@ == path@,
        r.1@[0].service is Some,
        r.1@[0].service->Some_0.interface == -1,
        r.1@[0].service->Some_0.protocol == -1,
        r.1@[0].service->Some_0.flags == 0,
        r.1@[0].service->Some_0.name@ == SERVICE_NAME@,
        r.1@[0].service->Some_0.service_type@ == SERVICE_TYPE@,
        r.1@[0].service->Some_0.domain@ == Seq::<char>::empty(),
        r.1@[0].service->Some_0.host@ == Seq::<char>::empty(),
        r.1@[0].service->Some_0.port == port,
        r.1@[1].method == Method::Commit,
        r.1@[1].path@ == path@,
        r.1@[1].service is None,
{
    let mut entry_group = EntryGroup::new(path);
    let mut calls: Vec<MethodCall> = Vec::new();
    let add = entry_group.add_service(SERVICE_NAME, SERVICE_TYPE, None, None, port);
    calls.push(add);
    let commit = entry_group.commit();
    calls.push(commit);
    (entry_group, calls)
}

} // verus!
