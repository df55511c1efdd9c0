//! Decisions taken when a program starts: the defaults of its logging
//! environment, and the reading of a certificate or key file, which is
//! retried until it succeeds.
use vstd::prelude::*;

verus! {

/// Seconds to wait before reading a certificate or key file again.
pub const CERT_RETRY_SECS: u64 = 30;

/// What to do after an attempt to read a certificate or key file.
#[derive(PartialEq, Eq, Structural, Debug, Clone, Copy)]
pub enum CertRead {
    /// The file was read: use its bytes.
    Deliver,
    /// The read failed: report it, wait `secs` seconds and read again.
    RetryAfter { secs: u64 },
}

/// Decide what to do after an attempt to read a file; `read_ok` tells
/// whether it succeeded.  A failed read is retried, never given up.
pub fn on_cert_read(read_ok: bool) -> (next: CertRead)
    ensures
        read_ok ==> next == CertRead::Deliver,
        !read_ok ==> next == (CertRead::RetryAfter { secs: CERT_RETRY_SECS }),
{
    if read_ok {
        CertRead::Deliver
    } else {
        CertRead::RetryAfter { secs: CERT_RETRY_SECS }
    }
}

/// An environment variable to set, with its value.
#[derive(PartialEq, Eq, Debug, Clone)]
pub struct EnvDefault {
    pub name: String,
    pub value: String,
}

/// The environment defaults of a program: `RUST_LOG=info` when `RUST_LOG`
/// is not set, and, when `with_backtrace`, `RUST_BACKTRACE=1` when
/// `RUST_BACKTRACE` is not set.  Variables already set are left alone.
pub fn env_defaults(rust_log_set: bool, with_backtrace: bool, rust_backtrace_set: bool) -> (defaults: Vec<EnvDefault>)
    ensures
        defaults@.len() == (if rust_log_set { 0int } else { 1int }) + (if with_backtrace && !rust_backtrace_set { 1int } else { 0int }),
        !rust_log_set ==> defaults@[0].name@ == "RUST_LOG"@ && defaults@[0].value@ == "info"@,
        with_backtrace && !rust_backtrace_set ==> defaults@.last().name@ == "RUST_BACKTRACE"@
            && defaults@.last().value@ == "1"@,
{
    broadcast use vstd::string::to_string_from_display_ensures_for_str;
    let mut defaults: Vec<EnvDefault> = Vec::new();
    if !rust_log_set {
        defaults.push(EnvDefault { name: "RUST_LOG".to_string(), value: "info".to_string() });
    }
    if with_backtrace && !rust_backtrace_set {
        defaults.push(EnvDefault { name: "RUST_BACKTRACE".to_string(), value: "1".to_string() });
    }
    defaults
}

} // verus!
