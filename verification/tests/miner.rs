use bencher::com::api::{parse_number, MiningInfoResponse, NumberField, SubmitNonceResponse};
use bencher::config::{
    default_additional_headers, default_blocktime, default_console_log_level,
    default_console_log_pattern, default_cpu_task_size, default_cpu_thread_pinning,
    default_cpu_threads, default_get_mining_info_interval, default_gpus,
    default_logfile_log_level, default_logfile_log_pattern, default_logfile_max_count,
    default_logfile_max_size, default_numeric_id, default_secret_phrase,
    default_send_proxy_details, default_start_nonce, default_target_deadline, default_timeout,
    start_nonce_from, Cfg,
};
use bencher::cpu_hasher::SimdExtension;
use bencher::miner::{
    cpu_thread_count, mining_info_interval, netdiff, pool_threads, Miner, NonceData,
    OutageNotice, State,
};
use bencher::ocl::{worksize, GpuConfig, GpuError};
use bencher::scheduler::{HasherMessage, Scheduler, SchedulerAction};

const GENSIG_A: &str = "0000000000000000000000000000000000000000000000000000000000000000";
const GENSIG_B: &str = "35844ab83e21851b38340cd7e8fc96b8bc139c132759ce3de1fcb616d888f2c9";

fn info(gensig: &str, height: u64) -> MiningInfoResponse {
    MiningInfoResponse {
        generation_signature: gensig.to_owned(),
        base_target: 70312,
        height,
        target_deadline: 31536000,
    }
}

fn nonce_data(block: u64, deadline: u64, base_target: u64) -> NonceData {
    NonceData {
        numeric_id: 7,
        nonce: 99,
        height: 500000,
        block,
        deadline,
        deadline_adjusted: deadline / base_target,
        capacity: 123,
        base_target,
    }
}

#[test]
fn state_starts_without_a_round() {
    let s = State::new();
    assert_eq!(s.generation_signature, "");
    assert_eq!(s.generation_signature_bytes, [0; 32]);
    assert_eq!(s.base_target, 1);
    assert_eq!(s.height, 0);
    assert_eq!(s.block, 0);
    assert_eq!(s.server_target_deadline, u64::MAX);
    assert!(s.first);
    assert!(!s.outage);
    assert_eq!(s.best_deadline, u64::MAX);
    assert_eq!(s.scoop, 0);
    assert_eq!(s.capacity, 0);
}

#[test]
fn new_signature_begins_a_round() {
    let mut s = State::new();
    s.best_deadline = 5;
    let (resolved, round) = s.on_mining_info(&info(GENSIG_A, 500000));
    assert!(!resolved);
    let round = round.expect("a round");
    assert_eq!(round.gensig, [0; 32]);
    assert_eq!(round.base_target, 70312);
    assert_eq!(round.scoop, 474);
    assert_eq!(round.height, 500000);
    assert_eq!(round.block, 1);
    assert_eq!(s.block, 1);
    assert_eq!(s.scoop, 474);
    assert_eq!(s.height, 500000);
    assert_eq!(s.base_target, 70312);
    assert_eq!(s.server_target_deadline, 31536000);
    assert_eq!(s.best_deadline, u64::MAX);
    assert_eq!(s.generation_signature, GENSIG_A);
    assert!(!s.first);
}

#[test]
fn same_signature_twice_begins_one_round() {
    let mut s = State::new();
    assert!(s.on_mining_info(&info(GENSIG_B, 10)).1.is_some());
    s.best_deadline = 42;
    let (_, again) = s.on_mining_info(&info(GENSIG_B, 11));
    assert!(again.is_none());
    assert_eq!(s.block, 1);
    assert_eq!(s.height, 10);
    assert_eq!(s.best_deadline, 42);
}

#[test]
fn round_counter_grows_with_every_new_signature() {
    let mut s = State::new();
    let first = s.on_mining_info(&info(GENSIG_A, 10)).1.expect("a round");
    let second = s.on_mining_info(&info(GENSIG_B, 10)).1.expect("a round");
    let third = s.on_mining_info(&info(GENSIG_A, 9)).1.expect("a round");
    assert_eq!((first.block, second.block, third.block), (1, 2, 3));
    assert_eq!(third.height, 9);
    assert!(second.scoop < 4096);
}

#[test]
fn results_of_the_round_before_are_discarded() {
    let mut state = State::new();
    let mut scheduler = Scheduler::new(7, 0, 1, 64, Vec::new(), 240);
    let first = state.on_mining_info(&info(GENSIG_A, 10)).1.expect("a round");
    scheduler.start_round(first);
    let second = state.on_mining_info(&info(GENSIG_B, 11)).1.expect("a round");
    scheduler.start_round(second);
    assert!(matches!(
        scheduler.on_message(HasherMessage::SubmitDeadline((10, first.block, 5, 1000)), 10),
        SchedulerAction::Idle
    ));
    assert!(state.on_nonce_data(&nonce_data(first.block, 1000, 10), u64::MAX).is_none());
    assert_eq!(state.best_deadline, u64::MAX);
    assert!(state.on_nonce_data(&nonce_data(second.block, 1000, 10), u64::MAX).is_some());
}

#[test]
fn outage_is_said_once_and_resolved() {
    let mut s = State::new();
    assert_eq!(s.on_mining_info_error(), OutageNotice::CheckServerConfig);
    assert!(s.outage);
    assert!(!s.first);
    assert_eq!(s.on_mining_info_error(), OutageNotice::Silent);
    let (resolved, round) = s.on_mining_info(&info(GENSIG_A, 1));
    assert!(resolved);
    assert!(round.is_some());
    assert!(!s.outage);
    assert_eq!(s.on_mining_info_error(), OutageNotice::ConnectionOutage);
    assert_eq!(s.on_mining_info_error(), OutageNotice::Silent);
    assert!(s.on_mining_info(&info(GENSIG_A, 1)).0);
    assert!(!s.on_mining_info(&info(GENSIG_A, 1)).0);
}

#[test]
fn best_deadline_of_a_round_only_falls() {
    let mut s = State::new();
    s.on_mining_info(&info(GENSIG_A, 10));
    let first = s.on_nonce_data(&nonce_data(1, 50000, 10), 100000).expect("qualifies");
    assert_eq!(first.account_id, 7);
    assert_eq!(first.nonce, 99);
    assert_eq!(first.height, 500000);
    assert_eq!(first.block, 1);
    assert_eq!(first.deadline_unadjusted, 50000);
    assert_eq!(first.deadline, 5000);
    assert_eq!(first.gen_sig, [0; 32]);
    assert_eq!(s.best_deadline, 5000);
    assert_eq!(s.capacity, 123);
    assert!(s.on_nonce_data(&nonce_data(1, 50000, 10), 100000).is_none());
    assert!(s.on_nonce_data(&nonce_data(1, 60000, 10), 100000).is_none());
    assert_eq!(s.best_deadline, 5000);
    assert!(s.on_nonce_data(&nonce_data(1, 49990, 10), 100000).is_some());
    assert_eq!(s.best_deadline, 4999);
}

#[test]
fn deadline_at_or_above_the_target_is_not_submitted() {
    let mut s = State::new();
    s.on_mining_info(&info(GENSIG_A, 10));
    assert!(s.on_nonce_data(&nonce_data(1, 1000, 1), 1000).is_none());
    assert!(s.on_nonce_data(&nonce_data(1, 1001, 1), 1000).is_none());
    assert_eq!(s.best_deadline, u64::MAX);
    assert_eq!(s.capacity, 123);
    assert!(s.on_nonce_data(&nonce_data(1, 999, 1), 1000).is_some());
}

#[test]
fn network_difficulty() {
    assert_eq!(netdiff(1), 18325193796);
    assert_eq!(netdiff(70312), 260626);
    assert_eq!(netdiff(u64::MAX), 0);
}

#[test]
fn mining_info_is_asked_for_once_a_second_at_most() {
    assert_eq!(mining_info_interval(0), 1000);
    assert_eq!(mining_info_interval(999), 1000);
    assert_eq!(mining_info_interval(1000), 1000);
    assert_eq!(mining_info_interval(3000), 3000);
}

#[test]
fn cpu_threads_follow_the_machine() {
    assert_eq!(cpu_thread_count(0, 8), 8);
    assert_eq!(cpu_thread_count(4, 8), 4);
    assert_eq!(cpu_thread_count(16, 8), 16);
    assert_eq!(cpu_thread_count(17, 8), 16);
    assert_eq!(cpu_thread_count(1, 0), 0);
}

#[test]
fn miner_queues_what_qualifies() {
    let mut cfg = Cfg::with_url("http://localhost:8124".to_owned());
    cfg.target_deadline = 10000;
    cfg.get_mining_info_interval = 10;
    cfg.cpu_worker_task_size = 32;
    cfg.start_nonce = 5;
    let mut miner = Miner::new(cfg, SimdExtension::Scalar, 300);
    assert_eq!(miner.request_handler.client.base_uri, "http://localhost:8124");
    assert_eq!(miner.get_mining_info_interval, 1000);
    assert_eq!(miner.numeric_id, 7900104405094198526);
    assert_eq!(miner.blocktime, 240);
    assert_eq!(miner.target_deadline, 10000);
    let scheduler = miner.scheduler(vec![16]);
    assert_eq!(scheduler.cpu_threads, 255);
    assert_eq!(scheduler.cpu_task_size, 32);
    assert_eq!(scheduler.start_nonce, 5);
    assert_eq!(scheduler.gpu_worksizes, vec![16]);

    miner.state.on_mining_info(&info(GENSIG_A, 10));
    assert!(!miner.on_nonce_data(&nonce_data(1, 100000, 10)));
    assert!(miner.request_handler.queue.pending.is_none());
    assert!(miner.on_nonce_data(&nonce_data(1, 99990, 10)));
    assert!(miner.on_nonce_data(&nonce_data(1, 5000, 10)));
    assert!(!miner.on_nonce_data(&nonce_data(2, 50, 10)));
    let waiting = miner.request_handler.queue.pending.expect("a candidate waits");
    assert_eq!(waiting.deadline, 500);
    assert_eq!(waiting.deadline_unadjusted, 5000);
    assert_eq!(miner.state.best_deadline, 500);
}

#[test]
fn defaults_of_the_configuration() {
    assert_eq!(default_numeric_id(), 7900104405094198526);
    assert!(default_start_nonce() <= u64::from(u32::MAX));
    assert_eq!(default_secret_phrase(), "");
    assert_eq!(default_blocktime(), 240);
    assert_eq!(default_cpu_threads(), 0);
    assert_eq!(default_cpu_task_size(), 64);
    assert!(!default_cpu_thread_pinning());
    assert!(default_gpus().is_empty());
    assert_eq!(default_target_deadline(), 4294967295);
    assert_eq!(default_get_mining_info_interval(), 3000);
    assert_eq!(default_timeout(), 5000);
    assert!(!default_send_proxy_details());
    assert!(default_additional_headers().is_empty());
    assert_eq!(default_console_log_level(), "Info");
    assert_eq!(default_logfile_log_level(), "Warn");
    assert_eq!(default_logfile_max_count(), 10);
    assert_eq!(default_logfile_max_size(), 20);
    assert_eq!(
        default_console_log_pattern(),
        "\r{d(%H:%M:%S.%3f%z)} [{h({l}):<5}] [{T}] [{t}] - {M}:{m}{n}"
    );
    assert_eq!(
        default_logfile_log_pattern(),
        "\r{d(%Y-%m-%dT%H:%M:%S.%3f%z)} [{h({l}):<5}] [{T}] [{f}:{L}] [{t}] - {M}:{m}{n}"
    );
}

#[test]
fn configuration_with_nothing_but_the_url() {
    let cfg = Cfg::with_url("http://pool.example:8080".to_owned());
    assert_eq!(cfg.url, "http://pool.example:8080");
    assert_eq!(cfg.timeout, 5000);
    assert_eq!(cfg.blocktime, 240);
    assert_eq!(cfg.cpu_worker_task_size, 64);
    assert!(cfg.start_nonce <= u64::from(u32::MAX));
    assert_eq!(cfg.console_log_level, "Info");
}

#[test]
fn gpu_must_exist() {
    let gpu = GpuConfig { platform_id: 1, device_id: 2, cores: 0 };
    assert_eq!(gpu.check_platform(2), Ok(()));
    assert_eq!(gpu.check_platform(1), Err(GpuError::NoSuchPlatform));
    assert_eq!(gpu.check_platform(0), Err(GpuError::NoSuchPlatform));
    assert_eq!(gpu.check_device(3), Ok(()));
    assert_eq!(gpu.check_device(2), Err(GpuError::NoSuchDevice));
}

#[test]
fn gpu_memory_must_hold_a_plot_for_each_work_item() {
    let all = GpuConfig { platform_id: 0, device_id: 0, cores: 0 };
    assert_eq!(all.check_memory(20, 64, 20 * 64 * 262144), Ok(20));
    assert_eq!(all.check_memory(20, 64, 20 * 64 * 262144 - 1), Err(GpuError::OutOfMemory));
    let some = GpuConfig { cores: 4, ..all };
    assert_eq!(some.check_memory(20, 64, 4 * 64 * 262144), Ok(4));
    assert_eq!(some.check_memory(20, 64, 4 * 64 * 262144 - 1), Err(GpuError::OutOfMemory));
    let many = GpuConfig { cores: 100, ..all };
    assert_eq!(many.check_memory(20, 64, u64::MAX), Ok(20));
    assert_eq!(all.check_memory(u32::MAX, usize::MAX, u64::MAX), Err(GpuError::OutOfMemory));
    assert_eq!(all.check_memory(0, 64, 0), Ok(0));
}

#[test]
fn gpu_worker_uses_up_to_twice_the_reported_cores() {
    let all = GpuConfig { platform_id: 0, device_id: 0, cores: 0 };
    assert_eq!(all.worker_cores(20), 20);
    assert_eq!(GpuConfig { cores: 30, ..all }.worker_cores(20), 30);
    assert_eq!(GpuConfig { cores: 40, ..all }.worker_cores(20), 40);
    assert_eq!(GpuConfig { cores: 41, ..all }.worker_cores(20), 40);
    assert_eq!(worksize(64, 20), Some(1280));
    assert_eq!(worksize(usize::MAX, 2), None);
}

#[test]
fn gpu_errors_have_their_messages() {
    assert_eq!(GpuError::NoSuchPlatform.message(), "Error: Selected OpenCL platform doesn't exist.");
    assert_eq!(GpuError::NoSuchDevice.message(), "Error: Selected OpenCL device doesn't exist");
    assert_eq!(
        GpuError::OutOfMemory.message(),
        "Error: Not enough GPU-memory. Please reduce number of cores."
    );
}

#[test]
fn numbers_are_read_from_decimal_digits() {
    assert_eq!(parse_number("0"), Some(0));
    assert_eq!(parse_number("007"), Some(7));
    assert_eq!(parse_number("70312"), Some(70312));
    assert_eq!(parse_number("18446744073709551615"), Some(u64::MAX));
    assert_eq!(parse_number("18446744073709551616"), None);
    assert_eq!(parse_number("99999999999999999999"), None);
    assert_eq!(parse_number("000000000000000000000000000001"), Some(1));
    assert_eq!(parse_number(""), None);
    assert_eq!(parse_number("12a"), None);
    assert_eq!(parse_number("-1"), None);
    assert_eq!(parse_number(" 1"), None);
    assert_eq!(parse_number("1.5"), None);
    assert_eq!(parse_number("\u{663}"), None);
}

#[test]
fn mining_info_takes_numbers_and_strings() {
    let info = MiningInfoResponse::from_fields(
        GENSIG_B.to_owned(),
        &NumberField::Quoted("70312".to_owned()),
        &NumberField::Plain(500000),
        &None,
    )
    .expect("mining info");
    assert_eq!(info.generation_signature, GENSIG_B);
    assert_eq!(info.base_target, 70312);
    assert_eq!(info.height, 500000);
    assert_eq!(info.target_deadline, u64::MAX);

    let info = MiningInfoResponse::from_fields(
        GENSIG_B.to_owned(),
        &NumberField::Plain(1),
        &NumberField::Quoted("2".to_owned()),
        &Some(NumberField::Quoted("31536000".to_owned())),
    )
    .expect("mining info");
    assert_eq!((info.base_target, info.height, info.target_deadline), (1, 2, 31536000));

    assert!(MiningInfoResponse::from_fields(
        GENSIG_B.to_owned(),
        &NumberField::Quoted("x".to_owned()),
        &NumberField::Plain(2),
        &None,
    )
    .is_none());
    assert!(MiningInfoResponse::from_fields(
        GENSIG_B.to_owned(),
        &NumberField::Plain(2),
        &NumberField::Plain(2),
        &Some(NumberField::Quoted(String::new())),
    )
    .is_none());
}

#[test]
fn submit_answer_takes_numbers_and_strings() {
    let plain = SubmitNonceResponse::from_field(&NumberField::Plain(1193)).expect("an answer");
    assert_eq!(plain.deadline, 1193);
    let quoted = SubmitNonceResponse::from_field(&NumberField::Quoted("1193".to_owned()))
        .expect("an answer");
    assert_eq!(quoted.deadline, 1193);
    assert!(SubmitNonceResponse::from_field(&NumberField::Quoted("soon".to_owned())).is_none());
}

#[test]
fn start_nonce_is_the_random_number() {
    assert_eq!(start_nonce_from(0), 0);
    assert_eq!(start_nonce_from(12345), 12345);
    assert_eq!(start_nonce_from(u32::MAX), 4294967295);
}

#[test]
fn pool_has_as_many_threads_as_the_miner_up_to_255() {
    assert_eq!(pool_threads(0), 0);
    assert_eq!(pool_threads(8), 8);
    assert_eq!(pool_threads(255), 255);
    assert_eq!(pool_threads(256), 255);
    assert_eq!(pool_threads(usize::MAX), 255);
}

#[test]
fn answer_with_the_current_signature_is_taken_as_it_is() {
    let mut s = State::new();
    s.on_mining_info(&info(GENSIG_B, 10));
    s.on_mining_info_error();
    // nothing of an answer that names the current signature is looked at
    let again = MiningInfoResponse {
        generation_signature: GENSIG_B.to_owned(),
        base_target: 0,
        height: 77,
        target_deadline: 1,
    };
    let (resolved, round) = s.on_mining_info(&again);
    assert!(resolved);
    assert!(round.is_none());
    assert_eq!(s.block, 1);
    assert_eq!(s.height, 10);
    assert_eq!(s.base_target, 70312);
    assert!(!s.outage);

    // before the first round the current signature is the empty one
    let mut fresh = State::new();
    let empty = MiningInfoResponse {
        generation_signature: String::new(),
        base_target: 0,
        height: 0,
        target_deadline: 0,
    };
    assert!(fresh.on_mining_info(&empty).1.is_none());
    assert!(!fresh.first);
    assert_eq!(fresh.block, 0);
}

#[test]
fn nonce_data_leaves_the_setup_of_the_miner() {
    let mut cfg = Cfg::with_url("http://localhost:8124".to_owned());
    cfg.target_deadline = 10000;
    cfg.start_nonce = 5;
    let mut miner = Miner::new(cfg, SimdExtension::AVX2, 4);
    assert_eq!(miner.state.base_target, 1);
    assert_eq!(miner.state.height, 0);
    assert_eq!(miner.state.scoop, 0);
    assert_eq!(miner.state.capacity, 0);
    assert_eq!(miner.state.server_target_deadline, u64::MAX);
    assert_eq!(miner.state.generation_signature_bytes, [0; 32]);
    miner.state.on_mining_info(&info(GENSIG_A, 10));
    assert!(miner.on_nonce_data(&nonce_data(1, 5000, 10)));
    assert_eq!(miner.target_deadline, 10000);
    assert_eq!(miner.cpu_threads, 4);
    assert_eq!(miner.cpu_worker_task_size, 64);
    assert_eq!(miner.numeric_id, 7900104405094198526);
    assert_eq!(miner.start_nonce, 5);
    assert_eq!(miner.blocktime, 240);
    assert_eq!(miner.get_mining_info_interval, 3000);
    assert!(miner.gpus.is_empty());
    assert_eq!(miner.state.height, 10);
    assert_eq!(miner.state.block, 1);
    assert_eq!(miner.state.capacity, 123);
    assert!(matches!(miner.simd_extensions, SimdExtension::AVX2));
}
