use bencher::com::client::{Client, Method, ProxyDetails, SubmissionParameters};
use std::cmp::Ordering;

fn params() -> SubmissionParameters {
    SubmissionParameters {
        account_id: 1337,
        nonce: 12,
        height: 112,
        block: 0,
        deadline_unadjusted: 7123,
        deadline: 1193,
        gen_sig: [0; 32],
    }
}

const BASE_URL: &str = "https://wallet.burstcoin.ro/";

fn pair(name: &str, value: &str) -> (String, String) {
    (name.to_owned(), value.to_owned())
}

#[test]
fn test_submit_params_cmp() {
    let submit_params_1 = SubmissionParameters {
        account_id: 1337,
        nonce: 12,
        height: 112,
        block: 0,
        deadline_unadjusted: 7123,
        deadline: 1193,
        gen_sig: [0; 32],
    };

    let mut submit_params_2 = submit_params_1.clone();
    submit_params_2.block += 1;
    assert!(submit_params_1 < submit_params_2);

    let mut submit_params_2 = submit_params_1.clone();
    submit_params_2.deadline -= 1;
    assert!(submit_params_1 < submit_params_2);

    let mut submit_params_2 = submit_params_1.clone();
    submit_params_2.gen_sig[0] = 1;
    submit_params_2.deadline += 1;
    assert!(submit_params_1 < submit_params_2);

    let mut submit_params_2 = submit_params_1.clone();
    submit_params_2.deadline += 1;
    assert!(submit_params_1 > submit_params_2);
}

#[test]
fn test_requests() {
    let client = Client::new(BASE_URL, "secret", ProxyDetails::Enabled, &Vec::new());

    assert_eq!(client.base_uri, BASE_URL);
    assert_eq!(client.uri_for("burst"), Some("https://wallet.burstcoin.ro/burst".to_owned()));

    let info = client.get_mining_info(5000, &Vec::new(), "cpu: test");
    assert_eq!(info.method, Method::Get);
    assert_eq!(info.path, "burst");
    assert_eq!(info.query, "requestType=getMiningInfo");

    let height = 500000;
    let request = client.submit_nonce(&SubmissionParameters {
        account_id: 1337,
        nonce: 12,
        height,
        block: 1,
        deadline_unadjusted: 7123,
        deadline: 1193,
        gen_sig: [0; 32],
    });
    assert_eq!(request.method, Method::Post);
    assert_eq!(request.path, "burst");
    assert_eq!(
        request.query,
        "requestType=submitNonce&accountId=1337&nonce=12&secretPhrase=secret&blockheight=500000"
    );
    assert_eq!(request.headers.last(), Some(&pair("X-Deadline", "1193")));
}

#[test]
fn equal_candidates_compare_as_equal() {
    let a = params();
    let b = a.clone();
    assert!(a == b);
    assert_eq!(a.cmp(&b), Ordering::Equal);
    assert_eq!(a.partial_cmp(&b), Some(Ordering::Equal));
    assert!(!(a < b));
    assert!(!(a > b));
    assert!(a <= b);
    assert!(a >= b);
}

#[test]
fn candidates_compare_by_round_chain_and_deadline() {
    let a = params();
    let mut later = params();
    later.block = 1;
    later.deadline = 99999;
    assert_eq!(a.cmp(&later), Ordering::Less);
    assert_eq!(later.cmp(&a), Ordering::Greater);
    let mut shorter = params();
    shorter.deadline = 1192;
    assert_eq!(a.cmp(&shorter), Ordering::Less);
    assert_eq!(shorter.cmp(&a), Ordering::Greater);
    let mut other_chain = params();
    other_chain.gen_sig[5] = 1;
    assert_eq!(a.cmp(&other_chain), Ordering::Less);
    assert_eq!(other_chain.cmp(&a), Ordering::Less);
    // nonce and account do not rank
    let mut other_nonce = params();
    other_nonce.nonce = 13;
    other_nonce.account_id = 1;
    assert_eq!(a.cmp(&other_nonce), Ordering::Equal);
    assert!(a != other_nonce);
}

#[test]
fn same_round_other_chain_ranks_below_both_ways() {
    let a = params();
    let mut b = params();
    b.gen_sig[31] = 9;
    assert!(a < b);
    assert!(b < a);
    assert!(a != b);
}

#[test]
fn later_round_wins_whatever_the_deadline() {
    let a = params();
    let mut b = params();
    b.block = 1;
    b.deadline = u64::MAX;
    assert!(a < b);
    assert!(b > a);
}

#[test]
fn pool_query_carries_unadjusted_deadline() {
    let client = Client::with_headers(BASE_URL, "", Vec::new());
    let request = client.submit_nonce(&params());
    assert_eq!(
        request.query,
        "requestType=submitNonce&accountId=1337&nonce=12&secretPhrase=&blockheight=112&deadline=7123"
    );
    assert_eq!(request.headers, vec![pair("X-Deadline", "1193")]);
}

#[test]
fn query_writes_largest_numbers_in_full() {
    let client = Client::with_headers(BASE_URL, "", Vec::new());
    let mut p = params();
    p.account_id = u64::MAX;
    p.nonce = 0;
    p.height = 10;
    p.deadline_unadjusted = 18446744073709551615;
    let request = client.submit_nonce(&p);
    assert_eq!(
        request.query,
        "requestType=submitNonce&accountId=18446744073709551615&nonce=0&secretPhrase=&blockheight=10&deadline=18446744073709551615"
    );
}

#[test]
fn secret_phrase_is_form_urlencoded() {
    let client = Client::with_headers(BASE_URL, "my secret*phrase-1._~/\u{e9}", Vec::new());
    assert_eq!(client.secret_phrase, "my+secret*phrase-1._%7E%2F%C3%A9");
    let request = client.submit_nonce(&params());
    assert_eq!(
        request.query,
        "requestType=submitNonce&accountId=1337&nonce=12&secretPhrase=my+secret*phrase-1._%7E%2F%C3%A9&blockheight=112"
    );
}

#[test]
fn user_agent_names_the_program() {
    assert_eq!(Client::ua(), "Bencher/0.1.0");
}

#[test]
fn headers_without_proxy_details() {
    let extra = vec![pair("X-Account", "7"), pair("User-Agent", "other")];
    let headers = Client::submit_nonce_headers(ProxyDetails::Disabled, &extra);
    assert_eq!(
        headers,
        vec![
            pair("User-Agent", "Bencher/0.1.0"),
            pair("X-Account", "7"),
            pair("User-Agent", "other"),
        ]
    );
}

#[test]
fn headers_with_proxy_details_on_named_host() {
    let extra = vec![pair("X-Account", "7")];
    let headers = Client::headers_on_host(ProxyDetails::Enabled, &extra, "rig");
    assert_eq!(
        headers,
        vec![
            pair("User-Agent", "Bencher/0.1.0"),
            pair("X-Miner", "Bencher/0.1.0"),
            pair("X-Minername", "rig"),
            pair("X-Plotfile", "ScavengerProxy/rig"),
            pair("X-Account", "7"),
        ]
    );
}

#[test]
fn headers_with_proxy_details_on_this_host() {
    let headers = Client::submit_nonce_headers(ProxyDetails::Enabled, &Vec::new());
    assert_eq!(headers.len(), 4);
    assert_eq!(headers[0], pair("User-Agent", "Bencher/0.1.0"));
    assert_eq!(headers[1], pair("X-Miner", "Bencher/0.1.0"));
    assert_eq!(headers[2].0, "X-Minername");
    assert_eq!(headers[3].0, "X-Plotfile");
    assert_eq!(headers[3].1, format!("ScavengerProxy/{}", headers[2].1));
}

#[test]
fn mining_info_request_tells_capacity_and_processors() {
    let client = Client::with_headers(BASE_URL, "", vec![pair("User-Agent", "Bencher/0.1.0")]);
    let request = client.get_mining_info(42, &vec![pair("X-Extra", "1")], "cpu: x, ");
    assert_eq!(
        request.headers,
        vec![
            pair("User-Agent", "Bencher/0.1.0"),
            pair("X-Capacity", "42"),
            pair("X-Xpu", "cpu: x, "),
            pair("X-Extra", "1"),
        ]
    );
}

#[test]
fn address_of_a_request_is_a_segment_under_the_base() {
    let at = |base: &str, path: &str| Client::with_headers(base, "", Vec::new()).uri_for(path);
    assert_eq!(at("http://94.130.178.37:31000", "burst"), Some("http://94.130.178.37:31000/burst".to_owned()));
    assert_eq!(at("http://pool.example/", "burst"), Some("http://pool.example/burst".to_owned()));
    assert_eq!(at("http://pool.example/a/b", "burst"), Some("http://pool.example/a/b/burst".to_owned()));
    assert_eq!(at("http://pool.example/a/b/", "burst"), Some("http://pool.example/a/b/burst".to_owned()));
    assert_eq!(at("http://pool.example/a?x=1", "burst"), Some("http://pool.example/a/burst?x=1".to_owned()));
    assert_eq!(at("http://pool.example", "a/b c"), Some("http://pool.example/a%2Fb%20c".to_owned()));
}

#[test]
fn no_address_under_a_base_that_cannot_have_segments() {
    let at = |base: &str, path: &str| Client::with_headers(base, "", Vec::new()).uri_for(path);
    assert_eq!(at("mailto:miner@pool.example", "burst"), None);
    assert_eq!(at("pool.example", "burst"), None);
    assert_eq!(at("", "burst"), None);
}
