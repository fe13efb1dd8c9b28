use vstd::prelude::*;

use crate::text::owned;

verus! {

/// Process-wide settings: the log level.
pub struct ConfigServer {
    pub log_level: String,
}

/// Where reports go and the credential they carry.
pub struct ConfigReport {
    pub endpoint: String,
    pub token: String,
}

/// Polling cadence and retry budget shared by every node.
pub struct ConfigMetrics {
    /// Seconds between polls of a healthy node.
    pub interval: u64,
    /// Attempts per cycle before a non-healthy verdict is accepted.
    pub poll_retry: u8,
    /// Seconds before the next poll of a dead node.
    pub poll_delay_dead: u64,
    /// Seconds before the next poll of a sick node.
    pub poll_delay_sick: u64,
}

pub struct ConfigProbe {
    pub service: Vec<ConfigProbeService>,
}

pub struct ConfigProbeService {
    pub id: String,
    pub node: Vec<ConfigProbeServiceNode>,
}

/// The whole configuration, built once at startup and then only read.
pub struct Config {
    pub server: ConfigServer,
    pub report: ConfigReport,
    pub metrics: ConfigMetrics,
    pub probe: ConfigProbe,
}

#[derive(Clone, Copy, Debug, PartialEq, Eq, Structural)]
pub enum HttpMethod {
    Get,
    Head,
    Post,
    Put,
    Patch,
}

impl HttpMethod {
    /// The method a node uses when its configuration names none.
    pub fn default_method() -> (r: HttpMethod)
        ensures
            r == HttpMethod::Get,
    {
        HttpMethod::Get
    }
}

/// Which kind of check a node runs.
#[derive(Clone, Copy, Debug, PartialEq, Eq, Structural)]
pub enum Mode {
    Poll,
    Script,
}

/// A network endpoint to probe, kept as its canonical text.
pub struct ReplicaURL {
    raw: String,
}

impl ReplicaURL {
    pub closed spec fn spec_raw(&self) -> Seq<char> {
        self.raw@
    }

    pub fn new(raw: &str) -> (r: ReplicaURL)
        ensures
            r.spec_raw() == raw@,
    {
        ReplicaURL { raw: owned(raw) }
    }

    pub fn get_raw(&self) -> (r: &str)
        ensures
            r@ == self.spec_raw(),
    {
        self.raw.as_str()
    }
}

pub struct ConfigProbeServiceNode {
    pub id: String,
    pub mode: Mode,
    pub replicas: Option<Vec<ConfigProbeServiceReplicaNode>>,
    pub scripts: Option<Vec<ConfigProbeServiceScriptNode>>,
    pub http_method: Option<HttpMethod>,
}

/// A replica given either as a bare URL or with a label and an optional id.
pub enum ConfigProbeServiceReplicaNode {
    Extended { url: ReplicaURL, label: String, id: Option<String> },
    Simple(ReplicaURL),
}

/// A script given either as a bare command or with a label and an optional id.
pub enum ConfigProbeServiceScriptNode {
    Extended { script: String, label: String, id: Option<String> },
    Simple(String),
}

pub open spec fn opt_view(o: Option<String>) -> Option<Seq<char>> {
    match o {
        Some(s) => Some(s@),
        None => None,
    }
}

impl ConfigProbeServiceReplicaNode {
    pub open spec fn spec_url(&self) -> Seq<char> {
        match self {
            ConfigProbeServiceReplicaNode::Extended { url, .. } => url.spec_raw(),
            ConfigProbeServiceReplicaNode::Simple(url) => url.spec_raw(),
        }
    }

    /// The explicit id, else the endpoint's canonical text.
    pub open spec fn spec_id(&self) -> Seq<char> {
        match self {
            ConfigProbeServiceReplicaNode::Extended { id: Some(id), .. } => id@,
            _ => self.spec_url(),
        }
    }

    pub open spec fn spec_label(&self) -> Option<Seq<char>> {
        match self {
            ConfigProbeServiceReplicaNode::Extended { label, .. } => Some(label@),
            _ => None,
        }
    }

    pub fn id(&self) -> (r: &str)
        ensures
            r@ == self.spec_id(),
    {
        if let ConfigProbeServiceReplicaNode::Extended { id: Some(id), .. } = self {
            return id.as_str();
        }
        self.url().get_raw()
    }

    pub fn url(&self) -> (r: &ReplicaURL)
        ensures
            r.spec_raw() == self.spec_url(),
    {
        match self {
            ConfigProbeServiceReplicaNode::Extended { url, .. } => url,
            ConfigProbeServiceReplicaNode::Simple(replica_url) => replica_url,
        }
    }

    pub fn label(&self) -> (r: Option<&str>)
        ensures
            r matches Some(l) ==> self.spec_label() == Some(l@),
            r is None ==> self.spec_label() is None,
    {
        match self {
            ConfigProbeServiceReplicaNode::Extended { label, .. } => Some(label.as_str()),
            _ => None,
        }
    }
}

impl ConfigProbeServiceScriptNode {
    /// The explicit id; absent for a bare command.
    pub open spec fn spec_id(&self) -> Option<Seq<char>> {
        match self {
            ConfigProbeServiceScriptNode::Extended { id, .. } => opt_view(*id),
            _ => None,
        }
    }

    pub open spec fn spec_script(&self) -> Seq<char> {
        match self {
            ConfigProbeServiceScriptNode::Extended { script, .. } => script@,
            ConfigProbeServiceScriptNode::Simple(script) => script@,
        }
    }

    pub open spec fn spec_label(&self) -> Option<Seq<char>> {
        match self {
            ConfigProbeServiceScriptNode::Extended { label, .. } => Some(label@),
            _ => None,
        }
    }

    pub fn id(&self) -> (r: Option<&str>)
        ensures
            r matches Some(i) ==> self.spec_id() == Some(i@),
            r is None ==> self.spec_id() is None,
    {
        if let ConfigProbeServiceScriptNode::Extended { id: Some(id), .. } = self {
            return Some(id.as_str());
        }
        None
    }

    pub fn script_content(&self) -> (r: &str)
        ensures
            r@ == self.spec_script(),
    {
        match self {
            ConfigProbeServiceScriptNode::Extended { script, .. } => script.as_str(),
            ConfigProbeServiceScriptNode::Simple(script) => script.as_str(),
        }
    }

    pub fn label(&self) -> (r: Option<&str>)
        ensures
            r matches Some(l) ==> self.spec_label() == Some(l@),
            r is None ==> self.spec_label() is None,
    {
        match self {
            ConfigProbeServiceScriptNode::Extended { label, .. } => Some(label.as_str()),
            _ => None,
        }
    }
}

/// A replica given as a bare URL is identified by that URL's canonical text
/// and has no label; a script given as a bare command has neither an id of
/// its own nor a label.
pub proof fn lemma_identifier_defaulting(url: ReplicaURL, command: String)
    ensures
        ConfigProbeServiceReplicaNode::Simple(url).spec_id() == url.spec_raw(),
        ConfigProbeServiceReplicaNode::Simple(url).spec_label() is None,
        ConfigProbeServiceScriptNode::Simple(command).spec_id() is None,
        ConfigProbeServiceScriptNode::Simple(command).spec_label() is None,
{
}

} // verus!
