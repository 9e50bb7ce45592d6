//! Pure helpers for driving a container runtime from a compose service
//! definition: port-mapping strings, compose labels, and the container
//! configuration assembled from them.

use vstd::prelude::*;

use crate::strings::lemma_split_len;
use crate::strings::spec_split;
use crate::strings::split_str;

verus! {

/// A failure to read a service definition.
#[derive(Debug, Clone)]
pub enum DockerComposeError {
    /// A port string that is not `port`, `host:container`, or either
    /// followed by `/protocol`.
    InvalidPort(String),
}

impl PartialEq for DockerComposeError {
    fn eq(&self, other: &DockerComposeError) -> (r: bool) {
        match (self, other) {
            (DockerComposeError::InvalidPort(a), DockerComposeError::InvalidPort(b)) => {
                crate::strings::str_eq(a.as_str(), b.as_str())
            },
        }
    }
}

impl vstd::std_specs::cmp::PartialEqSpecImpl for DockerComposeError {
    open spec fn obeys_eq_spec() -> bool {
        true
    }

    open spec fn eq_spec(&self, other: &DockerComposeError) -> bool {
        match (self, other) {
            (DockerComposeError::InvalidPort(a), DockerComposeError::InvalidPort(b)) => a@ == b@,
        }
    }
}

/// One published port: host port, container port, and protocol.
#[derive(Debug, Clone)]
pub struct PortMapping {
    pub container_port: String,
    pub host_port: String,
    pub protocol: String,
}

impl PartialEq for PortMapping {
    fn eq(&self, other: &PortMapping) -> (r: bool) {
        self.container_port == other.container_port && self.host_port == other.host_port
            && self.protocol == other.protocol
    }
}

impl vstd::std_specs::cmp::PartialEqSpecImpl for PortMapping {
    open spec fn obeys_eq_spec() -> bool {
        true
    }

    open spec fn eq_spec(&self, other: &PortMapping) -> bool {
        self.container_port@ == other.container_port@ && self.host_port@ == other.host_port@
            && self.protocol@ == other.protocol@
    }
}

/// One service of a compose file, as far as the runtime needs it.
#[derive(Debug, Clone)]
pub struct Service {
    pub image: Option<String>,
    pub command: Option<Vec<String>>,
    pub environment: Option<Vec<String>>,
    pub ports: Option<Vec<String>>,
}

/// What one container is created from.
#[derive(Debug, Clone)]
pub struct CreateContainerConfig {
    pub command: Option<Vec<String>>,
    pub environment: Option<Vec<String>>,
    pub image: String,
    pub labels: Option<Vec<(String, String)>>,
    pub name: String,
    pub ports: Option<Vec<PortMapping>>,
}

/// What one port string denotes: `(host, container, protocol)`. The
/// protocol defaults to `tcp`, a single port serves as both host and
/// container port, and more than one `:` is malformed.
pub open spec fn spec_port_mapping(p: Seq<char>) -> Option<(Seq<char>, Seq<char>, Seq<char>)> {
    let parts = spec_split(p, '/');
    let protocol = if parts.len() > 1 {
        parts[1]
    } else {
        "tcp"@
    };
    let pp = spec_split(parts[0], ':');
    if pp.len() == 1 {
        Some((pp[0], pp[0], protocol))
    } else if pp.len() == 2 {
        Some((pp[0], pp[1], protocol))
    } else {
        None
    }
}

fn extract_one_port_mapping(port: &str) -> (r: Option<PortMapping>)
    ensures
        match r {
            Some(m) => spec_port_mapping(port@) == Some(
                (m.host_port@, m.container_port@, m.protocol@),
            ),
            None => spec_port_mapping(port@) is None,
        },
{
    let parts = split_str(port, '/');
    proof {
        lemma_split_len(port@, '/');
        assert(parts@[0]@ == spec_split(port@, '/')[0]);
    }
    let protocol: String = if parts.len() > 1 {
        parts[1].clone()
    } else {
        "tcp".to_owned()
    };
    let pp = split_str(parts[0].as_str(), ':');
    proof {
        lemma_split_len(parts@[0]@, ':');
    }
    if pp.len() == 1 {
        Some(
            PortMapping { container_port: pp[0].clone(), host_port: pp[0].clone(), protocol },
        )
    } else if pp.len() == 2 {
        Some(
            PortMapping { container_port: pp[1].clone(), host_port: pp[0].clone(), protocol },
        )
    } else {
        None
    }
}

/// Parses every port string of a service; the first malformed one fails
/// the whole call and is named in the error.
pub fn extract_port_mappings(ports: &Vec<String>) -> (r: Result<Vec<PortMapping>, DockerComposeError>)
    ensures
        match r {
            Ok(ms) => ms@.len() == ports@.len() && forall|i: int|
                0 <= i < ports@.len() ==> #[trigger] spec_port_mapping(ports@[i]@) == Some(
                    (ms@[i].host_port@, ms@[i].container_port@, ms@[i].protocol@),
                ),
            Err(e) => e matches DockerComposeError::InvalidPort(s) && exists|i: int|
                0 <= i < ports@.len() && #[trigger] spec_port_mapping(ports@[i]@) is None && s@
                    == ports@[i]@,
        },
{
    let mut out: Vec<PortMapping> = Vec::new();
    let mut i: usize = 0;
    while i < ports.len()
        invariant
            i <= ports@.len(),
            out@.len() == i,
            forall|j: int|
                0 <= j < i ==> #[trigger] spec_port_mapping(ports@[j]@) == Some(
                    (out@[j].host_port@, out@[j].container_port@, out@[j].protocol@),
                ),
        decreases ports@.len() - i,
    {
        match extract_one_port_mapping(ports[i].as_str()) {
            Some(m) => out.push(m),
            None => {
                return Err(DockerComposeError::InvalidPort(ports[i].clone()));
            },
        }
        i += 1;
    }
    Ok(out)
}

/// The port mappings of a service, when it publishes any.
pub fn prepare_ports(service: &Service) -> (r: Result<Option<Vec<PortMapping>>, DockerComposeError>)
    ensures
        match service.ports {
            None => r matches Ok(o) && o is None,
            Some(ports) => match r {
                Ok(o) => o matches Some(ms) && ms@.len() == ports@.len() && forall|i: int|
                    0 <= i < ports@.len() ==> #[trigger] spec_port_mapping(ports@[i]@) == Some(
                        (ms@[i].host_port@, ms@[i].container_port@, ms@[i].protocol@),
                    ),
                Err(e) => e matches DockerComposeError::InvalidPort(s) && exists|i: int|
                    0 <= i < ports@.len() && #[trigger] spec_port_mapping(ports@[i]@) is None && s@
                        == ports@[i]@,
            },
        },
{
    match &service.ports {
        None => Ok(None),
        Some(ports) => {
            match extract_port_mappings(ports) {
                Ok(ms) => Ok(Some(ms)),
                Err(e) => Err(e),
            }
        },
    }
}

/// The path without its trailing separators.
pub open spec fn drop_trailing_separators(s: Seq<char>) -> Seq<char>
    decreases s.len(),
{
    if s.len() > 0 && s.last() == '/' {
        drop_trailing_separators(s.drop_last())
    } else {
        s
    }
}

/// The path without its final component: the non-separator characters at
/// its end are dropped.
pub open spec fn drop_final_component(s: Seq<char>) -> Seq<char>
    decreases s.len(),
{
    if s.len() > 0 && s.last() != '/' {
        drop_final_component(s.drop_last())
    } else {
        s
    }
}

/// A path names a file when some character of it is not a separator; the
/// empty path and all-separator paths name no file.
pub open spec fn names_a_file(s: Seq<char>) -> bool {
    exists|i: int| 0 <= i < s.len() && s[i] != '/'
}

/// The directory a file path lies in, as the final-component split gives
/// it: trailing separators are ignored, the final component and the
/// separators before it are dropped; the root when nothing else remains,
/// and empty for a bare file name.
pub open spec fn spec_parent_dir(s: Seq<char>) -> Seq<char> {
    let stem = drop_final_component(drop_trailing_separators(s));
    let dir = drop_trailing_separators(stem);
    if stem.len() == 0 {
        Seq::<char>::empty()
    } else if dir.len() == 0 {
        "/"@
    } else {
        dir
    }
}

/// The directory the compose file lies in. The path must name a file: at
/// least one of its characters is not a separator.
pub fn get_working_dir(path: &str) -> (r: &str)
    requires
        names_a_file(path@),
    ensures
        r@ == spec_parent_dir(path@),
{
    let len = path.unicode_len();
    let mut b1: usize = len;
    proof {
        assert(path@.take(len as int) =~= path@);
    }
    while b1 > 0 && path.get_char(b1 - 1) == '/'
        invariant
            b1 <= len,
            len == path@.len(),
            drop_trailing_separators(path@) == drop_trailing_separators(path@.take(b1 as int)),
            forall|j: int| b1 <= j < len ==> path@[j] == '/',
        decreases b1,
    {
        proof {
            assert(path@.take(b1 as int).drop_last() =~= path@.take(b1 - 1));
            assert(path@.take(b1 as int).last() == path@[b1 - 1]);
        }
        b1 -= 1;
    }
    proof {
        if b1 == 0 {
            let i = choose|i: int| 0 <= i < path@.len() && path@[i] != '/';
            assert(path@[i] == '/');
        }
        if b1 > 0 {
            assert(path@.take(b1 as int).last() == path@[b1 - 1]);
        }
        assert(drop_trailing_separators(path@) == path@.take(b1 as int));
    }
    let mut b2: usize = b1;
    while b2 > 0 && path.get_char(b2 - 1) != '/'
        invariant
            b2 <= b1 <= len,
            len == path@.len(),
            drop_final_component(path@.take(b1 as int)) == drop_final_component(
                path@.take(b2 as int),
            ),
        decreases b2,
    {
        proof {
            assert(path@.take(b2 as int).drop_last() =~= path@.take(b2 - 1));
            assert(path@.take(b2 as int).last() == path@[b2 - 1]);
        }
        b2 -= 1;
    }
    proof {
        if b2 > 0 {
            assert(path@.take(b2 as int).last() == path@[b2 - 1]);
        }
        assert(drop_final_component(path@.take(b1 as int)) == path@.take(b2 as int));
    }
    let mut b3: usize = b2;
    while b3 > 0 && path.get_char(b3 - 1) == '/'
        invariant
            b3 <= b2 <= len,
            len == path@.len(),
            drop_trailing_separators(path@.take(b2 as int)) == drop_trailing_separators(
                path@.take(b3 as int),
            ),
        decreases b3,
    {
        proof {
            assert(path@.take(b3 as int).drop_last() =~= path@.take(b3 - 1));
            assert(path@.take(b3 as int).last() == path@[b3 - 1]);
        }
        b3 -= 1;
    }
    proof {
        if b3 > 0 {
            assert(path@.take(b3 as int).last() == path@[b3 - 1]);
        }
        assert(drop_trailing_separators(path@.take(b2 as int)) == path@.take(b3 as int));
    }
    if b2 == 0 {
        proof {
            assert(path@.take(0) =~= Seq::<char>::empty());
        }
        return path.substring_char(0, 0);
    }
    if b3 == 0 {
        return "/";
    }
    path.substring_char(0, b3)
}

/// Clones a list of strings.
fn clone_strings(v: &Vec<String>) -> (r: Vec<String>)
    ensures
        r@.len() == v@.len(),
        forall|i: int| 0 <= i < v@.len() ==> r@[i]@ == v@[i]@,
{
    let mut out: Vec<String> = Vec::new();
    let mut i: usize = 0;
    while i < v.len()
        invariant
            i <= v@.len(),
            out@.len() == i,
            forall|j: int| 0 <= j < i ==> out@[j]@ == v@[j]@,
        decreases v@.len() - i,
    {
        out.push(v[i].clone());
        i += 1;
    }
    out
}

/// The labels every created container carries, tying it to its compose
/// project, service, and file.
pub fn prepare_labels(path: &str, project_name: &str, service_name: &str) -> (r: Vec<
    (String, String),
>)
    requires
        names_a_file(path@),
    ensures
        r@.len() == 4,
        r@[0].0@ == "com.docker.compose.project"@ && r@[0].1@ == project_name@,
        r@[1].0@ == "com.docker.compose.service"@ && r@[1].1@ == service_name@,
        r@[2].0@ == "com.docker.compose.project.config_files"@ && r@[2].1@ == path@,
        r@[3].0@ == "com.docker.compose.project.working_dir"@ && r@[3].1@ == spec_parent_dir(
            path@,
        ),
{
    let mut out: Vec<(String, String)> = Vec::new();
    out.push(("com.docker.compose.project".to_owned(), project_name.to_owned()));
    out.push(("com.docker.compose.service".to_owned(), service_name.to_owned()));
    out.push(("com.docker.compose.project.config_files".to_owned(), path.to_owned()));
    out.push(("com.docker.compose.project.working_dir".to_owned(), get_working_dir(path).to_owned()));
    out
}

/// Assembles the configuration one container is created from: the
/// service's image, command, environment and ports, under the compose
/// labels.
pub fn create_container_config_from(
    path: &str,
    project_name: &str,
    service_name: &str,
    service: &Service,
) -> (r: Result<CreateContainerConfig, DockerComposeError>)
    requires
        names_a_file(path@),
    ensures
        match r {
            Ok(c) => {
                &&& c.name@ == service_name@
                &&& match service.image {
                    Some(im) => c.image@ == im@,
                    None => c.image@.len() == 0,
                }
                &&& match service.command {
                    Some(cmd) => c.command matches Some(w) && w@.len() == cmd@.len() && forall|
                        i: int,
                    | 0 <= i < cmd@.len() ==> w@[i]@ == cmd@[i]@,
                    None => c.command is None,
                }
                &&& match service.environment {
                    Some(env) => c.environment matches Some(w) && w@.len() == env@.len() && forall|
                        i: int,
                    | 0 <= i < env@.len() ==> w@[i]@ == env@[i]@,
                    None => c.environment is None,
                }
                &&& c.labels matches Some(ls) && ls@.len() == 4 && ls@[0].1@ == project_name@
                    && ls@[1].1@ == service_name@ && ls@[2].1@ == path@ && ls@[3].1@
                    == spec_parent_dir(path@)
                &&& match service.ports {
                    None => c.ports is None,
                    Some(ports) => c.ports matches Some(ms) && ms@.len() == ports@.len() && forall|
                        i: int,
                    |
                        0 <= i < ports@.len() ==> #[trigger] spec_port_mapping(ports@[i]@) == Some(
                            (ms@[i].host_port@, ms@[i].container_port@, ms@[i].protocol@),
                        ),
                }
            },
            Err(e) => service.ports matches Some(ports) && e matches DockerComposeError::InvalidPort(
                s,
            ) && exists|i: int|
                0 <= i < ports@.len() && #[trigger] spec_port_mapping(ports@[i]@) is None && s@
                    == ports@[i]@,
        },
{
    let labels = prepare_labels(path, project_name, service_name);
    let ports = match prepare_ports(service) {
        Ok(p) => p,
        Err(e) => {
            return Err(e);
        },
    };
    let command = match &service.command {
        Some(cmd) => Some(clone_strings(cmd)),
        None => None,
    };
    let environment = match &service.environment {
        Some(env) => Some(clone_strings(env)),
        None => None,
    };
    let image = match &service.image {
        Some(im) => im.clone(),
        None => String::new(),
    };
    Ok(
        CreateContainerConfig {
            command,
            environment,
            image,
            labels: Some(labels),
            name: service_name.to_owned(),
            ports,
        },
    )
}

} // verus!
