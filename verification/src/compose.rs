//! The compose collaborator: `up`, `down` and `ps` against a specific
//! compose file, with the tool's line-delimited JSON output parsed into a
//! typed container list.

use vstd::prelude::*;

use crate::errors::ComposeError;
use crate::runner::RunOutcome;
use crate::runner::Runner;
use crate::status::Container;
use crate::status::ContainerState;
use crate::strings::is_blank;
use crate::strings::spec_blank;
use crate::strings::spec_split;
use crate::strings::split_str;
use crate::strings::str_eq;

verus! {

/// The compose operations, against a specific compose-file path. An
/// implementation ties every failure to the file it was asked about.
pub trait ComposeClient {
    fn up(&self, compose_file_path: &str) -> (r: Result<(), ComposeError>)
        ensures
            r matches Err(e) ==> match e {
                ComposeError::ComposeFileNotFound { path } => path@ == compose_file_path@,
                ComposeError::UpFailed { path, .. } => path@ == compose_file_path@,
                _ => false,
            },
    ;

    fn down(&self, compose_file_path: &str) -> (r: Result<(), ComposeError>)
        ensures
            r matches Err(e) ==> match e {
                ComposeError::ComposeFileNotFound { path } => path@ == compose_file_path@,
                ComposeError::DownFailed { path, .. } => path@ == compose_file_path@,
                _ => false,
            },
    ;

    fn list_containers(&self, compose_file_path: &str) -> (r: Result<Vec<Container>, ComposeError>)
        ensures
            r matches Err(e) ==> match e {
                ComposeError::ComposeFileNotFound { path } => path@ == compose_file_path@,
                ComposeError::ListContainersFailed { path, .. } => path@ == compose_file_path@,
                _ => false,
            },
    ;
}

/// What looking up a string field in one line of tool output yields: the
/// outer option is whether the line parses as JSON at all, the inner
/// whether the document holds a string under the key. A function of the
/// two arguments alone.
pub uninterp spec fn json_string_field_of(line: Seq<char>, field: Seq<char>) -> Option<
    Option<Seq<char>>,
>;

/// Relies on `serde_json::from_str::<Value>` and `Value::get` /
/// `Value::as_str`: parses the line as a JSON document and looks up the
/// string under the named key; both results depend on the arguments alone.
#[verifier::external_body]
fn json_line_string_field(line: &str, field: &str) -> (r: Option<Option<String>>)
    ensures
        match r {
            None => json_string_field_of(line@, field@) is None,
            Some(v) => match v {
                None => json_string_field_of(line@, field@) == Some(Option::<Seq<char>>::None),
                Some(s) => json_string_field_of(line@, field@) == Some(Some(s@)),
            },
        },
{
    match serde_json::from_str::<serde_json::Value>(line) {
        Err(_) => None,
        Ok(value) => Some(value.get(field).and_then(serde_json::Value::as_str).map(String::from)),
    }
}

/// The container state a compose-tool token denotes, when it is one of the
/// seven known lowercase tokens.
pub open spec fn spec_state_of(s: Seq<char>) -> Option<ContainerState> {
    if s == "paused"@ {
        Some(ContainerState::Paused)
    } else if s == "restarting"@ {
        Some(ContainerState::Restarting)
    } else if s == "removing"@ {
        Some(ContainerState::Removing)
    } else if s == "running"@ {
        Some(ContainerState::Running)
    } else if s == "dead"@ {
        Some(ContainerState::Dead)
    } else if s == "created"@ {
        Some(ContainerState::Created)
    } else if s == "exited"@ {
        Some(ContainerState::Exited)
    } else {
        None
    }
}

/// Parses a compose-tool state token; the tokens are case-sensitive, and an
/// unknown one is rejected rather than defaulted.
pub fn parse_container_state(state_str: &str) -> (r: Option<ContainerState>)
    ensures
        r == spec_state_of(state_str@),
{
    if str_eq(state_str, "paused") {
        Some(ContainerState::Paused)
    } else if str_eq(state_str, "restarting") {
        Some(ContainerState::Restarting)
    } else if str_eq(state_str, "removing") {
        Some(ContainerState::Removing)
    } else if str_eq(state_str, "running") {
        Some(ContainerState::Running)
    } else if str_eq(state_str, "dead") {
        Some(ContainerState::Dead)
    } else if str_eq(state_str, "created") {
        Some(ContainerState::Created)
    } else if str_eq(state_str, "exited") {
        Some(ContainerState::Exited)
    } else {
        None
    }
}

/// Builds one container from the `Name` and `State` fields of a parsed
/// output line; a missing field or an unknown state fails, naming the
/// offence, rather than being skipped.
pub fn container_from_fields(name: Option<String>, state: Option<String>, path: &str) -> (r:
    Result<Container, ComposeError>)
    ensures
        name is None ==> (r matches Err(ComposeError::ListContainersFailed { path: p, reason })
            && p@ == path@ && reason@ == "Missing 'Name' field in Docker compose output"@),
        name is Some && state is None ==> (r matches Err(
            ComposeError::ListContainersFailed { path: p, reason },
        ) && p@ == path@ && reason@ == "Missing 'State' field in Docker compose output"@),
        name is Some && state is Some && spec_state_of(state->0@) is None ==> (r matches Err(
            ComposeError::ListContainersFailed { path: p, reason },
        ) && p@ == path@ && reason@ == "Unknown container state: "@ + state->0@),
        name is Some && state is Some && spec_state_of(state->0@) is Some ==> (r matches Ok(c)
            && c.name@ == name->0@ && Some(c.state) == spec_state_of(state->0@)),
{
    let name = match name {
        Some(n) => n,
        None => {
            return Err(
                ComposeError::ListContainersFailed {
                    path: path.to_owned(),
                    reason: "Missing 'Name' field in Docker compose output".to_owned(),
                },
            );
        },
    };
    let state_str = match state {
        Some(s) => s,
        None => {
            return Err(
                ComposeError::ListContainersFailed {
                    path: path.to_owned(),
                    reason: "Missing 'State' field in Docker compose output".to_owned(),
                },
            );
        },
    };
    match parse_container_state(state_str.as_str()) {
        Some(state) => Ok(Container { name, state }),
        None => {
            let mut reason = "Unknown container state: ".to_owned();
            reason.append(state_str.as_str());
            Err(ComposeError::ListContainersFailed { path: path.to_owned(), reason })
        },
    }
}

/// The container one output line denotes: the line must parse as a JSON
/// object holding string fields `Name` and `State`, with a known state
/// token.
pub open spec fn spec_line_container(line: Seq<char>) -> Option<(Seq<char>, ContainerState)> {
    match json_string_field_of(line, "Name"@) {
        Some(Some(n)) => match json_string_field_of(line, "State"@) {
            Some(Some(st)) => match spec_state_of(st) {
                Some(state) => Some((n, state)),
                None => None,
            },
            _ => None,
        },
        _ => None,
    }
}

/// The reason a line that denotes no container is rejected for: unparsable
/// text, a missing field (named), or an unknown state token (named).
pub open spec fn spec_line_error_reason(line: Seq<char>) -> Seq<char> {
    match json_string_field_of(line, "Name"@) {
        None => "Failed to parse Docker compose output"@,
        Some(nopt) => match json_string_field_of(line, "State"@) {
            None => "Failed to parse Docker compose output"@,
            Some(sopt) => match nopt {
                None => "Missing 'Name' field in Docker compose output"@,
                Some(_) => match sopt {
                    None => "Missing 'State' field in Docker compose output"@,
                    Some(sv) => "Unknown container state: "@ + sv,
                },
            },
        },
    }
}

/// Parses one line of the tool's `ps` output into a container.
pub fn parse_container_line(line: &str, path: &str) -> (r: Result<Container, ComposeError>)
    ensures
        match spec_line_container(line@) {
            Some(p) => r matches Ok(c) && c.name@ == p.0 && c.state == p.1,
            None => r matches Err(e) && (e matches ComposeError::ListContainersFailed {
                path: p,
                reason,
            } && p@ == path@ && reason@ == spec_line_error_reason(line@)),
        },
        ({
            let nm = json_string_field_of(line@, "Name"@);
            let st = json_string_field_of(line@, "State"@);
            match nm {
                None => r matches Err(ComposeError::ListContainersFailed { path: p, reason })
                    && p@ == path@ && reason@ == "Failed to parse Docker compose output"@,
                Some(nopt) => match st {
                    None => r matches Err(ComposeError::ListContainersFailed { path: p, reason })
                        && p@ == path@ && reason@ == "Failed to parse Docker compose output"@,
                    Some(sopt) => match nopt {
                        None => r matches Err(
                            ComposeError::ListContainersFailed { path: p, reason },
                        ) && p@ == path@ && reason@
                            == "Missing 'Name' field in Docker compose output"@,
                        Some(_) => match sopt {
                            None => r matches Err(
                                ComposeError::ListContainersFailed { path: p, reason },
                            ) && p@ == path@ && reason@
                                == "Missing 'State' field in Docker compose output"@,
                            Some(sv) => match spec_state_of(sv) {
                                None => r matches Err(
                                    ComposeError::ListContainersFailed { path: p, reason },
                                ) && p@ == path@ && reason@ == "Unknown container state: "@ + sv,
                                Some(_) => r is Ok,
                            },
                        },
                    },
                },
            }
        }),
{
    let name = match json_line_string_field(line, "Name") {
        None => {
            return Err(
                ComposeError::ListContainersFailed {
                    path: path.to_owned(),
                    reason: "Failed to parse Docker compose output".to_owned(),
                },
            );
        },
        Some(v) => v,
    };
    let state = match json_line_string_field(line, "State") {
        None => {
            return Err(
                ComposeError::ListContainersFailed {
                    path: path.to_owned(),
                    reason: "Failed to parse Docker compose output".to_owned(),
                },
            );
        },
        Some(v) => v,
    };
    container_from_fields(name, state, path)
}

/// How `up` reads the tool's exit: success means the services came up, a
/// launch failure or non-zero exit carries the tool's own words.
pub fn interpret_up_outcome(path: &str, outcome: &RunOutcome) -> (r: Result<(), ComposeError>)
    ensures
        match outcome {
            RunOutcome::SpawnFailed { message } => r matches Err(
                ComposeError::UpFailed { path: p, reason },
            ) && p@ == path@ && reason@ == "Failed to execute docker compose up command: "@
                + message@,
            RunOutcome::Completed { success, stderr, .. } => if *success {
                r is Ok
            } else {
                r matches Err(ComposeError::UpFailed { path: p, reason }) && p@ == path@ && reason@
                    == "Docker compose up failed: "@ + stderr@
            },
        },
{
    match outcome {
        RunOutcome::SpawnFailed { message } => {
            let mut reason = "Failed to execute docker compose up command: ".to_owned();
            reason.append(message.as_str());
            Err(ComposeError::UpFailed { path: path.to_owned(), reason })
        },
        RunOutcome::Completed { success, stderr, .. } => {
            if *success {
                Ok(())
            } else {
                let mut reason = "Docker compose up failed: ".to_owned();
                reason.append(stderr.as_str());
                Err(ComposeError::UpFailed { path: path.to_owned(), reason })
            }
        },
    }
}

/// How `down` reads the tool's exit.
pub fn interpret_down_outcome(path: &str, outcome: &RunOutcome) -> (r: Result<(), ComposeError>)
    ensures
        match outcome {
            RunOutcome::SpawnFailed { message } => r matches Err(
                ComposeError::DownFailed { path: p, reason },
            ) && p@ == path@ && reason@ == "Failed to execute docker compose down command: "@
                + message@,
            RunOutcome::Completed { success, stderr, .. } => if *success {
                r is Ok
            } else {
                r matches Err(ComposeError::DownFailed { path: p, reason }) && p@ == path@
                    && reason@ == "Docker compose down failed: "@ + stderr@
            },
        },
{
    match outcome {
        RunOutcome::SpawnFailed { message } => {
            let mut reason = "Failed to execute docker compose down command: ".to_owned();
            reason.append(message.as_str());
            Err(ComposeError::DownFailed { path: path.to_owned(), reason })
        },
        RunOutcome::Completed { success, stderr, .. } => {
            if *success {
                Ok(())
            } else {
                let mut reason = "Docker compose down failed: ".to_owned();
                reason.append(stderr.as_str());
                Err(ComposeError::DownFailed { path: path.to_owned(), reason })
            }
        },
    }
}

/// The containers a whole `ps` output denotes: one per non-blank line, in
/// order; `None` when any non-blank line does not denote a container.
pub open spec fn spec_containers_of_lines(ls: Seq<Seq<char>>) -> Option<
    Seq<(Seq<char>, ContainerState)>,
>
    decreases ls.len(),
{
    if ls.len() == 0 {
        Some(Seq::<(Seq<char>, ContainerState)>::empty())
    } else {
        match spec_containers_of_lines(ls.drop_last()) {
            None => None,
            Some(rest) => if spec_blank(ls.last()) {
                Some(rest)
            } else {
                match spec_line_container(ls.last()) {
                    Some(c) => Some(rest.push(c)),
                    None => None,
                }
            },
        }
    }
}

/// The first non-blank line that denotes no container, when there is one.
pub open spec fn spec_first_bad_line(ls: Seq<Seq<char>>) -> Option<Seq<char>>
    decreases ls.len(),
{
    if ls.len() == 0 {
        None
    } else if !spec_blank(ls[0]) && spec_line_container(ls[0]) is None {
        Some(ls[0])
    } else {
        spec_first_bad_line(ls.drop_first())
    }
}

/// Lines that all carry containers (or are blank) hold no first bad line,
/// so the search continues past them.
proof fn lemma_first_bad_skip(ls: Seq<Seq<char>>, i: int)
    requires
        0 <= i <= ls.len(),
        forall|j: int|
            0 <= j < i ==> spec_blank(#[trigger] ls[j]) || spec_line_container(ls[j]) is Some,
    ensures
        spec_first_bad_line(ls) == spec_first_bad_line(ls.skip(i)),
    decreases i,
{
    if i > 0 {
        assert(spec_blank(ls[0]) || spec_line_container(ls[0]) is Some);
        assert(ls.drop_first() =~= ls.skip(1));
        lemma_first_bad_skip(ls.skip(1), i - 1);
        assert(ls.skip(1).skip(i - 1) =~= ls.skip(i));
    } else {
        assert(ls.skip(0) =~= ls);
    }
}

/// Once a prefix of the lines fails, the whole output fails.
proof fn lemma_containers_none_sticky(ls: Seq<Seq<char>>, i: int)
    requires
        0 <= i <= ls.len(),
        spec_containers_of_lines(ls.take(i)) is None,
    ensures
        spec_containers_of_lines(ls) is None,
    decreases ls.len() - i,
{
    if i < ls.len() {
        assert(ls.take(i + 1).drop_last() =~= ls.take(i));
        lemma_containers_none_sticky(ls, i + 1);
    } else {
        assert(ls.take(i) =~= ls);
    }
}

/// How `list_containers` reads the tool's exit: on success every non-blank
/// output line must parse to a container, and one bad line fails the whole
/// call.
pub fn interpret_ps_outcome(path: &str, outcome: &RunOutcome) -> (r: Result<
    Vec<Container>,
    ComposeError,
>)
    ensures
        match outcome {
            RunOutcome::SpawnFailed { message } => r matches Err(
                ComposeError::ListContainersFailed { path: p, reason },
            ) && p@ == path@ && reason@ == "Failed to execute docker compose ps command: "@
                + message@,
            RunOutcome::Completed { success, stdout, stderr } => if !*success {
                r matches Err(ComposeError::ListContainersFailed { path: p, reason }) && p@
                    == path@ && reason@
                    == "Docker compose ps command returned non-zero exit status: "@ + stderr@
            } else {
                match spec_containers_of_lines(spec_split(stdout@, '\n')) {
                    Some(cs) => r matches Ok(v) && v@.len() == cs.len() && forall|k: int|
                        0 <= k < cs.len() ==> (#[trigger] v@[k]).name@ == cs[k].0 && v@[k].state
                            == cs[k].1,
                    None => (spec_first_bad_line(spec_split(stdout@, '\n')) matches Some(bad) && (
                    r matches Err(e) && (e matches ComposeError::ListContainersFailed {
                        path: p,
                        reason,
                    } && p@ == path@ && reason@ == spec_line_error_reason(bad)))),
                }
            },
        },
{
    match outcome {
        RunOutcome::SpawnFailed { message } => {
            let mut reason = "Failed to execute docker compose ps command: ".to_owned();
            reason.append(message.as_str());
            Err(ComposeError::ListContainersFailed { path: path.to_owned(), reason })
        },
        RunOutcome::Completed { success, stdout, stderr } => {
            if !*success {
                let mut reason =
                    "Docker compose ps command returned non-zero exit status: ".to_owned();
                reason.append(stderr.as_str());
                return Err(ComposeError::ListContainersFailed { path: path.to_owned(), reason });
            }
            parse_ps_stdout(stdout.as_str(), path)
        },
    }
}

/// Parses the whole `ps` output: one container per non-blank line, in
/// order and carrying that line's name and state, with one unparsable line
/// failing the whole call.
pub fn parse_ps_stdout(stdout: &str, path: &str) -> (r: Result<Vec<Container>, ComposeError>)
    ensures
        match spec_containers_of_lines(spec_split(stdout@, '\n')) {
            Some(cs) => r matches Ok(v) && v@.len() == cs.len() && forall|k: int|
                0 <= k < cs.len() ==> (#[trigger] v@[k]).name@ == cs[k].0 && v@[k].state == cs[k].1,
            None => (spec_first_bad_line(spec_split(stdout@, '\n')) matches Some(bad) && (
            r matches Err(e) && (e matches ComposeError::ListContainersFailed {
                path: p,
                reason,
            } && p@ == path@ && reason@ == spec_line_error_reason(bad)))),
        },
{
    let lines = split_str(stdout, '\n');
    let ghost all = spec_split(stdout@, '\n');
    let mut containers: Vec<Container> = Vec::new();
    let mut i: usize = 0;
    proof {
        assert(all.take(0) =~= Seq::<Seq<char>>::empty());
    }
    while i < lines.len()
        invariant
            i <= lines.len(),
            all == spec_split(stdout@, '\n'),
            lines@.map_values(|p: String| p@) == all,
            spec_containers_of_lines(all.take(i as int)) matches Some(cs) && cs.len()
                == containers@.len() && forall|k: int|
                0 <= k < cs.len() ==> (#[trigger] containers@[k]).name@ == cs[k].0
                    && containers@[k].state == cs[k].1,
            forall|j: int|
                0 <= j < i ==> spec_blank(#[trigger] all[j]) || spec_line_container(all[j])
                    is Some,
        decreases lines.len() - i,
    {
        let ghost prefix = spec_containers_of_lines(all.take(i as int))->0;
        proof {
            assert(all.take(i + 1).drop_last() =~= all.take(i as int));
            assert(all.take(i + 1).last() == lines@[i as int]@);
        }
        if !is_blank(lines[i].as_str()) {
            match parse_container_line(lines[i].as_str(), path) {
                Ok(c) => {
                    let ghost entry = (c.name@, c.state);
                    let ghost pre = containers@;
                    proof {
                        assert(spec_line_container(lines@[i as int]@) == Some(entry));
                        assert(spec_containers_of_lines(all.take(i + 1)) == Some(
                            prefix.push(entry),
                        ));
                    }
                    containers.push(c);
                    proof {
                        assert forall|k: int| 0 <= k < prefix.push(entry).len() implies (
                        #[trigger] containers@[k]).name@ == prefix.push(entry)[k].0
                            && containers@[k].state == prefix.push(entry)[k].1 by {
                            if k < prefix.len() {
                                assert(containers@[k] == pre[k]);
                            } else {
                                assert(containers@[k] == c);
                            }
                        }
                    }
                },
                Err(e) => {
                    proof {
                        assert(spec_line_container(lines@[i as int]@) is None);
                        assert(spec_containers_of_lines(all.take(i + 1)) is None);
                        lemma_containers_none_sticky(all, i + 1);
                        lemma_first_bad_skip(all, i as int);
                        assert(all.skip(i as int)[0] == all[i as int]);
                        assert(all.skip(i as int).len() == all.len() - i);
                        assert(spec_first_bad_line(all.skip(i as int)) == Some(all[i as int]));
                    }
                    return Err(e);
                },
            }
        } else {
            proof {
                assert(spec_blank(all.take(i + 1).last()));
                assert(spec_containers_of_lines(all.take(i + 1)) == Some(prefix));
            }
        }
        i += 1;
    }
    proof {
        assert(all.take(lines@.len() as int) =~= all);
    }
    Ok(containers)
}

/// The compose collaborator backed by the external compose tool, through a
/// runner capability.
#[derive(Debug, Clone)]
pub struct DockerComposeClient<R: Runner> {
    pub runner: R,
}

impl<R: Runner> DockerComposeClient<R> {
    pub fn new(runner: R) -> (r: Result<DockerComposeClient<R>, ComposeError>)
        ensures
            r matches Ok(c) && c.runner == runner,
    {
        Ok(DockerComposeClient { runner })
    }
}

/// The arguments of one compose invocation: `compose -f <file> <op>`,
/// then the extra flag when there is one.
fn compose_args(path: &str, op: &str, extra: Option<&str>) -> (r: Vec<String>)
    ensures
        r@.len() == (if extra is Some { 5int } else { 4int }),
        r@[0]@ == "compose"@,
        r@[1]@ == "-f"@,
        r@[2]@ == path@,
        r@[3]@ == op@,
        extra matches Some(e) ==> r@[4]@ == e@,
{
    let mut args: Vec<String> = Vec::new();
    args.push("compose".to_owned());
    args.push("-f".to_owned());
    args.push(path.to_owned());
    args.push(op.to_owned());
    match extra {
        Some(e) => args.push(e.to_owned()),
        None => (),
    }
    args
}

/// The arguments of the listing invocation:
/// `compose -f <file> ps --all --format json`.
fn compose_ps_args(path: &str) -> (r: Vec<String>)
    ensures
        r@.len() == 7,
        r@[0]@ == "compose"@,
        r@[1]@ == "-f"@,
        r@[2]@ == path@,
        r@[3]@ == "ps"@,
        r@[4]@ == "--all"@,
        r@[5]@ == "--format"@,
        r@[6]@ == "json"@,
{
    let mut args = compose_args(path, "ps", Some("--all"));
    args.push("--format".to_owned());
    args.push("json".to_owned());
    args
}

impl<R: Runner> ComposeClient for DockerComposeClient<R> {
    /// Brings the services of the compose file up, detached. The file is
    /// checked first; when it is absent the tool is never invoked.
    fn up(&self, compose_file_path: &str) -> (r: Result<(), ComposeError>) {
        if !self.runner.is_file(compose_file_path) {
            return Err(ComposeError::ComposeFileNotFound { path: compose_file_path.to_owned() });
        }
        let args = compose_args(compose_file_path, "up", Some("-d"));
        let outcome = self.runner.run("docker", &args, None);
        interpret_up_outcome(compose_file_path, &outcome)
    }

    /// Takes the services of the compose file down.
    fn down(&self, compose_file_path: &str) -> (r: Result<(), ComposeError>) {
        if !self.runner.is_file(compose_file_path) {
            return Err(ComposeError::ComposeFileNotFound { path: compose_file_path.to_owned() });
        }
        let args = compose_args(compose_file_path, "down", None);
        let outcome = self.runner.run("docker", &args, None);
        interpret_down_outcome(compose_file_path, &outcome)
    }

    /// Lists every container of the compose file, in any state.
    fn list_containers(&self, compose_file_path: &str) -> (r: Result<Vec<Container>, ComposeError>) {
        if !self.runner.is_file(compose_file_path) {
            return Err(ComposeError::ComposeFileNotFound { path: compose_file_path.to_owned() });
        }
        let args = compose_ps_args(compose_file_path);
        let outcome = self.runner.run("docker", &args, None);
        interpret_ps_outcome(compose_file_path, &outcome)
    }
}

} // verus!
