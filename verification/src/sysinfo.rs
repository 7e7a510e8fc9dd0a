//! Host system information: assembles the report from the host's answers,
//! substituting a fixed placeholder wherever a host query failed.
use vstd::prelude::*;
use vstd::string::StringExecFns;

use crate::text::dec_str;
use crate::text::u64_to_string;

verus! {

/// Host system information, with placeholders where a host query failed.
pub struct SystemInfo {
    pub os: String,
    pub arch: String,
    pub hostname: String,
    pub username: String,
    pub app_path: String,
    pub timestamp: String,
    pub memory_info: String,
}

/// The placeholder recorded when a host query fails.
pub open spec fn unknown() -> Seq<char> {
    "Unknown"@
}

/// Value of an optional host answer: the answer, or the placeholder.
pub open spec fn or_unknown(v: Option<Seq<char>>) -> Seq<char> {
    match v {
        Some(s) => s,
        None => unknown(),
    }
}

/// Memory note: a fixed note on macOS, otherwise the unavailable note.
pub open spec fn memory_note_spec(os: Seq<char>) -> Seq<char> {
    if os == "macOS"@ {
        "macOS Memory Info Available"@
    } else {
        "Memory info not available"@
    }
}

/// Assembles the report from the host's answers: a missing hostname,
/// username, executable path or clock reading becomes the placeholder,
/// the clock reading is rendered in decimal seconds, and the memory note
/// follows the operating system name.
pub fn build_system_info(
    os: String,
    arch: String,
    hostname: Option<String>,
    username: Option<String>,
    app_path: Option<String>,
    unix_secs: Option<u64>,
) -> (info: SystemInfo)
    ensures
        info.os@ == os@,
        info.arch@ == arch@,
        info.hostname@ == or_unknown(hostname.deep_view()),
        info.username@ == or_unknown(username.deep_view()),
        info.app_path@ == or_unknown(app_path.deep_view()),
        info.timestamp@ == match unix_secs {
            Some(s) => dec_str(s as nat),
            None => unknown(),
        },
        info.memory_info@ == memory_note_spec(os@),
{
    let memory_info = if os == String::from_str("macOS") {
        String::from_str("macOS Memory Info Available")
    } else {
        String::from_str("Memory info not available")
    };
    SystemInfo {
        os,
        arch,
        hostname: match hostname {
            Some(h) => h,
            None => String::from_str("Unknown"),
        },
        username: match username {
            Some(u) => u,
            None => String::from_str("Unknown"),
        },
        app_path: match app_path {
            Some(p) => p,
            None => String::from_str("Unknown"),
        },
        timestamp: match unix_secs {
            Some(s) => u64_to_string(s),
            None => String::from_str("Unknown"),
        },
        memory_info,
    }
}

} // verus!
