//! What the command line decides from its argument, and what it reports.

use vstd::prelude::*;
use crate::lookup::{find_pid, lookup_result, ProcessEntry};
use crate::session::{initial_state, state_wf, Failure, Session};

verus! {

/// Resolves the target named by `query` and, where a process answers it,
/// opens a session that will have it terminated on behalf of
/// `requester_pid`. Where none does, nothing is started.
pub fn start(table: &Vec<ProcessEntry>, query: &str, requester_pid: u32) -> (r: Option<Session>)
    ensures
        r.is_none() <==> lookup_result(table@, query@).is_none(),
        r matches Some(s) ==> lookup_result(table@, query@) == Some(s@.target_pid)
            && s@ == initial_state(s@.target_pid, requester_pid) && state_wf(s@),
{
    match find_pid(table, query) {
        Some(pid) => Some(Session::new(pid, requester_pid)),
        None => None,
    }
}

/// The line printed when the request went through.
pub fn success_message(target: &str) -> (r: String)
    ensures
        r@ == "[+] Process '"@ + target@ + "' will be killed"@,
{
    let mut m = String::from_str("[+] Process '");
    m.append(target);
    m.append("' will be killed");
    m
}

/// The line printed when no process answers the target.
pub fn not_found_message(target: &str) -> (r: String)
    ensures
        r@ == "[!] Unable to find the specified <PID> or <Program>: "@ + target@,
{
    let mut m = String::from_str("[!] Unable to find the specified <PID> or <Program>: ");
    m.append(target);
    m
}

/// The line printed when the target is not given.
pub fn missing_argument_message() -> (r: String)
    ensures
        r@ == "Missing <PID> or <Program> input parameter"@,
{
    String::from_str("Missing <PID> or <Program> input parameter")
}

/// How to call the program named `program`.
pub fn usage_message(program: &str) -> (r: String)
    ensures
        r@ == "Usage: "@ + program@ + " <PID | PROGRAM NAME>"@,
{
    let mut m = String::from_str("Usage: ");
    m.append(program);
    m.append(" <PID | PROGRAM NAME>");
    m
}

/// The diagnostic for a pipeline that stopped on `f`.
pub fn failure_message(f: Failure) -> (r: String)
    ensures
        r@ == match f {
            Failure::Provisioning => "Unable to write the driver to disk"@,
            Failure::Privilege => "Unable to enable the load driver privilege"@,
            Failure::Registration => "Unable to install the service, ensure that you have the right permission"@,
            Failure::Activation => "Unable to start the minifilter driver"@,
            Failure::Channel => "Unable to send the termination request"@,
        },
{
    match f {
        Failure::Provisioning => String::from_str("Unable to write the driver to disk"),
        Failure::Privilege => String::from_str("Unable to enable the load driver privilege"),
        Failure::Registration => String::from_str(
            "Unable to install the service, ensure that you have the right permission",
        ),
        Failure::Activation => String::from_str("Unable to start the minifilter driver"),
        Failure::Channel => String::from_str("Unable to send the termination request"),
    }
}

} // verus!
