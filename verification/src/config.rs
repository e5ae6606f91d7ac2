//! The configuration of the miner and the values of the keys that a
//! configuration file leaves out.

use crate::ocl::GpuConfig;
use vstd::prelude::*;

verus! {

/// The configuration of the miner.
pub struct Cfg {
    pub numeric_id: u64,
    pub start_nonce: u64,
    pub secret_phrase: String,
    pub blocktime: u64,
    /// The address of the pool, proxy or wallet.
    pub url: String,
    pub gpus: Vec<GpuConfig>,
    pub cpu_threads: usize,
    pub cpu_worker_task_size: u64,
    pub cpu_thread_pinning: bool,
    pub target_deadline: u64,
    pub get_mining_info_interval: u64,
    pub timeout: u64,
    pub send_proxy_details: bool,
    /// Headers to send with every request, in the order in which they are
    /// set.
    pub additional_headers: Vec<(String, String)>,
    pub console_log_level: String,
    pub logfile_log_level: String,
    pub logfile_max_count: u32,
    pub logfile_max_size: u64,
    pub console_log_pattern: String,
    pub logfile_log_pattern: String,
}

/// `rand::random`: a 32-bit number from the generator of the thread.
/// Nothing is claimed of the number.
#[verifier::external_body]
fn random_u32() -> (n: u32) {
    rand::random::<u32>()
}

/// The account that is mined for where none is configured.
pub fn default_numeric_id() -> (id: u64)
    ensures
        id == 7900104405094198526,
{
    7900104405094198526
}

/// A start nonce picked at random among the 32-bit numbers.
pub fn default_start_nonce() -> (nonce: u64)
    ensures
        nonce <= u32::MAX,
{
    start_nonce_from(random_u32())
}

/// The start nonce that the random number `random` stands for: the number
/// itself.
pub fn start_nonce_from(random: u32) -> (nonce: u64)
    ensures
        nonce == random,
{
    random as u64
}

/// No secret phrase: the miner talks to a pool or proxy.
pub fn default_secret_phrase() -> (phrase: String)
    ensures
        phrase@ == Seq::<char>::empty(),
{
    String::new()
}

/// The time between two blocks of the chain, in seconds.
pub fn default_blocktime() -> (seconds: u64)
    ensures
        seconds == 240,
{
    240
}

/// No number of threads: as many as the machine has processors.
pub fn default_cpu_threads() -> (threads: usize)
    ensures
        threads == 0,
{
    0
}

/// The number of nonces of a task for a CPU thread.
pub fn default_cpu_task_size() -> (nonces: u64)
    ensures
        nonces == 64,
{
    64
}

/// Threads are not pinned to processors.
pub fn default_cpu_thread_pinning() -> (pinning: bool)
    ensures
        !pinning,
{
    false
}

/// No GPUs.
pub fn default_gpus() -> (gpus: Vec<GpuConfig>)
    ensures
        gpus@.len() == 0,
{
    Vec::new()
}

/// The deadline below which nonces are submitted, in seconds.
pub fn default_target_deadline() -> (deadline: u64)
    ensures
        deadline == u32::MAX,
{
    u32::MAX as u64
}

/// The time between two requests for mining info, in milliseconds.
pub fn default_get_mining_info_interval() -> (milliseconds: u64)
    ensures
        milliseconds == 3000,
{
    3000
}

/// The time after which a request is given up, in milliseconds.
pub fn default_timeout() -> (milliseconds: u64)
    ensures
        milliseconds == 5000,
{
    5000
}

/// No details for proxies are sent.
pub fn default_send_proxy_details() -> (send: bool)
    ensures
        !send,
{
    false
}

/// No headers besides those of the client.
pub fn default_additional_headers() -> (headers: Vec<(String, String)>)
    ensures
        headers@.len() == 0,
{
    Vec::new()
}

/// The level from which on messages go to the console.
pub fn default_console_log_level() -> (level: String)
    ensures
        level@ == "Info"@,
{
    String::from_str("Info")
}

/// The level from which on messages go to the log file.
pub fn default_logfile_log_level() -> (level: String)
    ensures
        level@ == "Warn"@,
{
    String::from_str("Warn")
}

/// The number of log files that are kept.
pub fn default_logfile_max_count() -> (count: u32)
    ensures
        count == 10,
{
    10
}

/// The size at which a log file is closed, in MiB.
pub fn default_logfile_max_size() -> (size: u64)
    ensures
        size == 20,
{
    20
}

/// The layout of a message on the console.
pub fn default_console_log_pattern() -> (pattern: String)
    ensures
        pattern@ == "\r{d(%H:%M:%S.%3f%z)} [{h({l}):<5}] [{T}] [{t}] - {M}:{m}{n}"@,
{
    String::from_str("\r{d(%H:%M:%S.%3f%z)} [{h({l}):<5}] [{T}] [{t}] - {M}:{m}{n}")
}

/// The layout of a message in the log file.
pub fn default_logfile_log_pattern() -> (pattern: String)
    ensures
        pattern@ == "\r{d(%Y-%m-%dT%H:%M:%S.%3f%z)} [{h({l}):<5}] [{T}] [{f}:{L}] [{t}] - {M}:{m}{n}"@,
{
    String::from_str(
        "\r{d(%Y-%m-%dT%H:%M:%S.%3f%z)} [{h({l}):<5}] [{T}] [{f}:{L}] [{t}] - {M}:{m}{n}",
    )
}

impl Cfg {
    /// The configuration of a miner for the pool at `url` that names
    /// nothing else: every other key has its default, and the start nonce
    /// is picked at random.
    pub fn with_url(url: String) -> (cfg: Cfg)
        ensures
            cfg.url == url,
            cfg.numeric_id == 7900104405094198526,
            cfg.start_nonce <= u32::MAX,
            cfg.secret_phrase@.len() == 0,
            cfg.blocktime == 240,
            cfg.gpus@.len() == 0,
            cfg.cpu_threads == 0,
            cfg.cpu_worker_task_size == 64,
            !cfg.cpu_thread_pinning,
            cfg.target_deadline == u32::MAX,
            cfg.get_mining_info_interval == 3000,
            cfg.timeout == 5000,
            !cfg.send_proxy_details,
            cfg.additional_headers@.len() == 0,
            cfg.console_log_level@ == "Info"@,
            cfg.logfile_log_level@ == "Warn"@,
            cfg.logfile_max_count == 10,
            cfg.logfile_max_size == 20,
            cfg.console_log_pattern@
                == "\r{d(%H:%M:%S.%3f%z)} [{h({l}):<5}] [{T}] [{t}] - {M}:{m}{n}"@,
            cfg.logfile_log_pattern@
                == "\r{d(%Y-%m-%dT%H:%M:%S.%3f%z)} [{h({l}):<5}] [{T}] [{f}:{L}] [{t}] - {M}:{m}{n}"@,
    {
        Cfg {
            numeric_id: default_numeric_id(),
            start_nonce: default_start_nonce(),
            secret_phrase: default_secret_phrase(),
            blocktime: default_blocktime(),
            url,
            gpus: default_gpus(),
            cpu_threads: default_cpu_threads(),
            cpu_worker_task_size: default_cpu_task_size(),
            cpu_thread_pinning: default_cpu_thread_pinning(),
            target_deadline: default_target_deadline(),
            get_mining_info_interval: default_get_mining_info_interval(),
            timeout: default_timeout(),
            send_proxy_details: default_send_proxy_details(),
            additional_headers: default_additional_headers(),
            console_log_level: default_console_log_level(),
            logfile_log_level: default_logfile_log_level(),
            logfile_max_count: default_logfile_max_count(),
            logfile_max_size: default_logfile_max_size(),
            console_log_pattern: default_console_log_pattern(),
            logfile_log_pattern: default_logfile_log_pattern(),
        }
    }
}

} // verus!
