//! The checks on what the command line gives.

use crate::internal::config::Config;
use crate::internal::config::DataStore;
use crate::internal::config::NodeType;
use crate::utils::text::decimal_digits;
use crate::utils::text::decimal;
use crate::utils::text::parse_decimal;
use crate::utils::text::parse_usize;
use vstd::prelude::*;
use vstd::string::StringExecFns;

verus! {

/// The text of the error for an argument that is no number.
pub open spec fn not_a_port(s: Seq<char>) -> Seq<char> {
    "`"@ + s + "` isn't a port number"@
}

/// The text of the error for a number that is no port.
pub open spec fn port_out_of_range() -> Seq<char> {
    "port not in range 1-65535"@
}

/// The text of the error for an argument that is no number of workers.
pub open spec fn not_a_worker_number(s: Seq<char>) -> Seq<char> {
    "`"@ + s + "` isn't a valid worker number"@
}

/// The text of the error for more workers than processors.
pub open spec fn too_many_workers(workers: nat, cpus: nat) -> Seq<char> {
    "num of workers "@ + decimal_digits(workers) + " is greater then the available CPU's "@
        + decimal_digits(cpus)
}

/// Reads `s` as the number of a port: a decimal number from 1 to 65535.
pub fn port_in_range(s: &str) -> (r: Result<u16, String>)
    ensures
        match parse_decimal(s@, usize::MAX as nat) {
            None => r matches Err(e) && e@ == not_a_port(s@),
            Some(port) => if 1 <= port <= 65535 {
                r == Ok::<u16, String>(port as u16)
            } else {
                r matches Err(e) && e@ == port_out_of_range()
            },
        },
{
    let port: usize = match parse_usize(s) {
        Some(port) => port,
        None => {
            return Err(String::from_str("`").concat(s).concat("` isn't a port number"));
        },
    };
    if 1 <= port && port <= 65535 {
        Ok(port as u16)
    } else {
        Err(String::from_str("port not in range 1-65535"))
    }
}

/// Reads `s` as a number of workers for a machine with `cpus` processors:
/// a decimal number that is not greater than `cpus`. The result keeps the
/// low sixteen bits of the number.
pub fn workers_in_range(s: &str, cpus: usize) -> (r: Result<u16, String>)
    ensures
        match parse_decimal(s@, usize::MAX as nat) {
            None => r matches Err(e) && e@ == not_a_worker_number(s@),
            Some(workers) => if cpus >= workers {
                r == Ok::<u16, String>((workers as usize) as u16)
            } else {
                r matches Err(e) && e@ == too_many_workers(workers, cpus as nat)
            },
        },
{
    let num_workers: usize = match parse_usize(s) {
        Some(n) => n,
        None => {
            return Err(String::from_str("`").concat(s).concat("` isn't a valid worker number"));
        },
    };
    if cpus >= num_workers {
        Ok(#[verifier::truncate] (num_workers as u16))
    } else {
        Err(
            String::from_str("num of workers ").concat(decimal(num_workers as u64).as_str()).concat(
                " is greater then the available CPU's ",
            ).concat(decimal(cpus as u64).as_str()),
        )
    }
}

/// Reads `s` as a number of workers for this machine: a decimal number
/// that is not greater than the number of processors that this process
/// may run on.
pub fn num_workers_in_range(s: &str) -> (r: Result<u16, String>)
    ensures
        parse_decimal(s@, usize::MAX as nat) is None ==> (r matches Err(e) && e@
            == not_a_worker_number(s@)),
        r matches Ok(workers) ==> (parse_decimal(s@, usize::MAX as nat) matches Some(n) && workers
            == (n as usize) as u16),
{
    workers_in_range(s, num_cpus::get())
}

/// The settings of a scheduler that is initialised from the command line:
/// those of `cfgs` with the number of workers and the port that the command
/// line gives, for a scheduler of remote workers. Where the command line
/// names the host of a data store, the store is a Redis at that host; else
/// the data store of `cfgs` stays.
pub fn init_overrides(cfgs: Config, data_host: Option<String>, num_workers: u16, grpc_port: u16) -> (r:
    Config)
    ensures
        r == (Config {
            node_type: NodeType::Scheduler,
            num_workers: num_workers as i32,
            grpc_port: grpc_port as i32,
            data_store: match data_host {
                Some(host) => Some(DataStore { store_type: 0, host }),
                None => cfgs.data_store,
            },
            ..cfgs
        }),
{
    let mut cfgs = cfgs;
    match data_host {
        Some(cli_data_host) => {
            cfgs.data_store = Some(DataStore { store_type: 0, host: cli_data_host });
        },
        None => {},
    }
    cfgs.num_workers = num_workers as i32;
    cfgs.grpc_port = grpc_port as i32;
    cfgs.node_type = NodeType::Scheduler;
    cfgs
}

} // verus!
