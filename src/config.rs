use vstd::prelude::*;

verus! {

/// A target host and port.
#[derive(Debug, Clone, PartialEq, Eq)]
pub struct IpPort {
    pub ip_host: String,
    pub port: u16,
}

impl IpPort {
    pub fn new(ip_host: String, port: u16) -> (r: IpPort)
        ensures
            r.ip_host@ == ip_host@,
            r.port == port,
    {
        IpPort { ip_host, port }
    }
}

/// Connection options for a set of hosts; credentials start out absent.
#[derive(Debug, Clone, PartialEq, Eq)]
pub struct Opts {
    pub ip_ports: Vec<IpPort>,
    pub user: Option<String>,
    pub pass: Option<String>,
}

impl Opts {
    pub fn new(hosts: Vec<IpPort>) -> (r: Opts)
        ensures
            r.ip_ports@ == hosts@,
            r.user.is_none(),
            r.pass.is_none(),
    {
        Opts { ip_ports: hosts, user: None, pass: None }
    }
}

/// What one session is opened with: the target and optional credentials.
pub struct NodeOpt {
    pub ip_port: IpPort,
    pub user: Option<String>,
    pub pass: Option<String>,
}

/// Marker for a connection object that can be shared across threads.
pub trait Connection: Sync + Send + 'static {}

} // verus!
