//! Names and contents of the files that the launcher writes for itself: its
//! diagnostic log files and the XUN attach DLL configuration.
use vstd::prelude::*;
use vstd::string::*;

use crate::text::{decimal, u128_to_string, u32_to_string, u8_to_string};

verus! {

pub const XUN_ATTACH_HELPER_NAME: &'static str = "p5136-xun-attach.exe";

pub const XUN_ATTACH_DLL_NAME: &'static str = "p5136-xun.dll";

/// The configuration file written beside the XUN attach DLL.
pub const XUN_ATTACH_CONFIGURATION_NAME: &'static str = "p5136-xun.ini";

/// The name of a log file: `p5136-<timestamp>-<process>.log`, and for the
/// n-th retry `p5136-<timestamp>-<process>-<n>.log`.
pub open spec fn log_file_name_text(timestamp: int, process: int, sequence: int) -> Seq<char> {
    "p5136-"@ + decimal(timestamp) + "-"@ + decimal(process) + (if sequence == 0 {
        Seq::<char>::empty()
    } else {
        "-"@ + decimal(sequence)
    }) + ".log"@
}

/// The XUN attach configuration: hooks stay enabled (they remain
/// fail-closed until the server selects a kart profile); only DLL logging
/// follows the setting.
pub open spec fn xun_configuration_text(logging: bool) -> Seq<char> {
    "[xun]\r\n; Hooks stay fail-closed until the server selects a kart profile.\r\nenabled=1\r\nlogging="@
        + (if logging {
        "1"@
    } else {
        "0"@
    }) + "\r\n"@
}

pub fn log_file_name(timestamp: u128, process: u32, sequence: u8) -> (res: String)
    ensures
        res@ == log_file_name_text(timestamp as int, process as int, sequence as int),
{
    let timestamp_text = u128_to_string(timestamp);
    let process_text = u32_to_string(process);
    let name = "p5136-".to_owned().concat(timestamp_text.as_str()).concat("-").concat(
        process_text.as_str(),
    );
    let name = if sequence == 0 {
        name
    } else {
        let sequence_text = u8_to_string(sequence);
        name.concat("-").concat(sequence_text.as_str())
    };
    let res = name.concat(".log");
    assert(res@ =~= log_file_name_text(timestamp as int, process as int, sequence as int));
    res
}

pub fn xun_attach_configuration(logging: bool) -> (res: String)
    ensures
        res@ == xun_configuration_text(logging),
{
    "[xun]\r\n; Hooks stay fail-closed until the server selects a kart profile.\r\nenabled=1\r\nlogging=".to_owned().concat(
        if logging {
            "1"
        } else {
            "0"
        },
    ).concat("\r\n")
}

} // verus!
