//! Whether a container runs, as its runtime tells it.

use vstd::prelude::*;
use crate::support::failure::Failure;
use crate::support::text::starts_with;

verus! {

/// How long a single question to the container runtime may take. Attestation
/// waits for the answer, so a wrong socket must show within seconds.
pub const VERIFIER_TIMEOUT_SECS: u64 = 5;

/// How the container runtime is reached.
#[derive(Debug)]
pub struct BollardContainerVerifier {
    pub socket_path: String,
    pub timeout_secs: u64,
}

/// The local default: the host, where it is a socket, else Docker's own socket.
pub open spec fn default_socket(docker_host: Option<&str>) -> Seq<char> {
    match docker_host {
        Some(host) => if "unix://"@.is_prefix_of(host@) {
            host@
        } else {
            "/var/run/docker.sock"@
        },
        None => "/var/run/docker.sock"@,
    }
}

impl BollardContainerVerifier {
    /// The runtime behind the given socket. Without one it is the local
    /// default: the socket that `docker_host` names, which is what the variable
    /// `DOCKER_HOST` holds, or Docker's own.
    pub fn new(
        socket_path: Option<&str>,
        docker_host: Option<&str>,
    ) -> (r: BollardContainerVerifier)
        ensures
            r.socket_path@ == (match socket_path {
                Some(path) => path@,
                None => default_socket(docker_host),
            }),
            r.timeout_secs == VERIFIER_TIMEOUT_SECS,
    {
        let path = match (socket_path, docker_host) {
            (Some(path), _) => path,
            (None, Some(host)) => if starts_with(host, "unix://") {
                host
            } else {
                "/var/run/docker.sock"
            },
            (None, None) => "/var/run/docker.sock",
        };
        BollardContainerVerifier {
            socket_path: path.to_owned(),
            timeout_secs: VERIFIER_TIMEOUT_SECS,
        }
    }
}

/// Whether an inspection shows a running container. A container without a
/// state, or whose state leaves it open, does not run.
pub open spec fn shows_running(state: Option<Option<bool>>) -> bool {
    state == Some(Some(true))
}

/// What the inspection of a container says: success if and only if it shows
/// that the container runs. `inspected` is what the inspection gave of the
/// container's state, or why it failed.
pub fn verify_container_running(
    container_id: &str,
    inspected: Result<Option<Option<bool>>, String>,
) -> (r: Result<(), Failure>)
    ensures
        match inspected {
            Ok(state) => if shows_running(state) {
                r is Ok
            } else {
                r is Err && r->Err_0@ == seq![
                    "Container '"@ + container_id@ + "' is not in a running state"@,
                ]
            },
            Err(e) => r is Err && r->Err_0@ == seq![
                "Docker inspect failed for container '"@ + container_id@ + "': "@ + e@,
            ],
        },
{
    match inspected {
        Ok(state) => {
            let running = match state {
                Some(Some(running)) => running,
                _ => false,
            };
            if running {
                Ok(())
            } else {
                Err(
                    Failure::new(
                        "Container '".to_owned().concat(container_id).concat(
                            "' is not in a running state",
                        ),
                    ),
                )
            }
        },
        Err(e) => Err(
            Failure::new(
                "Docker inspect failed for container '".to_owned().concat(container_id).concat(
                    "': ",
                ).concat(e.as_str()),
            ),
        ),
    }
}

/// Without a socket of its own the runtime is reached where the host says, if
/// that is a socket, and by Docker's own socket otherwise: a host that is
/// reached over the network does not count.
pub proof fn only_sockets_count_as_hosts(host: &str)
    ensures
        "unix://"@.is_prefix_of(host@) ==> default_socket(Some(host)) == host@,
        !"unix://"@.is_prefix_of(host@) ==> default_socket(Some(host)) == "/var/run/docker.sock"@,
        default_socket(None) == "/var/run/docker.sock"@,
{
}

/// Only an inspection that says so shows a running container.
pub proof fn silence_is_no_running_container(state: Option<Option<bool>>)
    ensures
        state is None ==> !shows_running(state),
        state is Some && state->0 is None ==> !shows_running(state),
        state is Some && state->0 is Some ==> (shows_running(state) <==> state->0->0),
{
}

/// A container is taken to run exactly where its inspection says so; otherwise
/// the answer names the container, and the fault where the inspection failed.
pub proof fn only_running_containers_pass(
    container_id: &str,
    inspected: Result<Option<Option<bool>>, String>,
    r: Result<(), Failure>,
)
    requires
        call_ensures(verify_container_running, (container_id, inspected), r),
    ensures
        r is Ok <==> inspected == Ok::<Option<Option<bool>>, String>(Some(Some(true))),
        inspected is Err ==> r->Err_0@ == seq![
            "Docker inspect failed for container '"@ + container_id@ + "': "@
                + inspected->Err_0@,
        ],
        inspected is Ok && r is Err ==> r->Err_0@ == seq![
            "Container '"@ + container_id@ + "' is not in a running state"@,
        ],
{
}

/// A socket that is named is used, whatever the host says, and no question takes
/// longer than the attestation that waits for it can bear.
pub proof fn named_sockets_are_used(
    socket_path: Option<&str>,
    docker_host: Option<&str>,
    r: BollardContainerVerifier,
)
    requires
        call_ensures(BollardContainerVerifier::new, (socket_path, docker_host), r),
    ensures
        socket_path is Some ==> r.socket_path@ == socket_path->0@,
        socket_path is None && docker_host is None ==> r.socket_path@ == "/var/run/docker.sock"@,
        socket_path is None && docker_host is Some && "unix://"@.is_prefix_of(docker_host->0@)
            ==> r.socket_path@ == docker_host->0@,
        socket_path is None && docker_host is Some && !"unix://"@.is_prefix_of(docker_host->0@)
            ==> r.socket_path@ == "/var/run/docker.sock"@,
        r.timeout_secs == 5,
{
}

} // verus!
