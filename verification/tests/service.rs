use zcash_proof_service::health_body;
use zcash_proof_service::params::{
    candidate_dirs, locate, select_first_complete, DirProbe, FileStatus,
};
use zcash_proof_service::prover::{acquire_outcome, init_error_message, ProverSource};
use zcash_proof_service::router::{
    dispatch_proof, get_param, output_reply, parse_amount, screen_kind, spend_reply, HttpStatus,
    ParamValue, ProofKind,
};
use zcash_proof_service::text::{address_preview, parse_u64_decimal, str_eq, u64_to_dec};
use zcash_proof_service::txbuild::{
    advance, build_reply, BuildOutcome, BuildRequest, BuildStage,
};

fn probe(spend: FileStatus, output: FileStatus) -> DirProbe {
    DirProbe { spend, output }
}

fn complete() -> DirProbe {
    probe(FileStatus::Present(10), FileStatus::Present(20))
}

fn absent() -> DirProbe {
    probe(FileStatus::Absent, FileStatus::Absent)
}

#[test]
fn health_is_ok() {
    assert_eq!(health_body(), "OK");
}

#[test]
fn parse_accepts_plain_decimal() {
    assert_eq!(parse_u64_decimal("1000"), Some(1000));
    assert_eq!(parse_u64_decimal("0"), Some(0));
    assert_eq!(parse_u64_decimal("00123"), Some(123));
}

#[test]
fn parse_accepts_u64_max_and_rejects_overflow() {
    assert_eq!(parse_u64_decimal("18446744073709551615"), Some(u64::MAX));
    assert_eq!(parse_u64_decimal("18446744073709551616"), None);
    assert_eq!(parse_u64_decimal("99999999999999999999999"), None);
}

#[test]
fn parse_rejects_sign_letters_and_empty() {
    assert_eq!(parse_u64_decimal("-1"), None);
    assert_eq!(parse_u64_decimal("abc"), None);
    assert_eq!(parse_u64_decimal(""), None);
    assert_eq!(parse_u64_decimal("12 3"), None);
    assert_eq!(parse_u64_decimal("+5"), None);
}

#[test]
fn render_and_round_trip() {
    assert_eq!(u64_to_dec(0), "0");
    assert_eq!(u64_to_dec(12345), "12345");
    assert_eq!(u64_to_dec(u64::MAX), "18446744073709551615");
    for n in [0u64, 1, 9, 10, 99, 100000, u64::MAX] {
        assert_eq!(parse_u64_decimal(&u64_to_dec(n)), Some(n));
    }
}

#[test]
fn amount_string_and_number_agree() {
    let as_text = parse_amount(&ParamValue::Text("1000".to_string()));
    let as_number = parse_amount(&ParamValue::Unsigned(1000));
    assert_eq!(as_text, Some(1000));
    assert_eq!(as_text, as_number);
    assert_eq!(parse_amount(&ParamValue::Text("-1".to_string())), None);
    assert_eq!(parse_amount(&ParamValue::Text("abc".to_string())), None);
    assert_eq!(parse_amount(&ParamValue::Other), None);
}

#[test]
fn str_eq_compares_contents() {
    assert!(str_eq("spend", "spend"));
    assert!(!str_eq("spend", "spent"));
    assert!(!str_eq("spend", "spend "));
    assert!(str_eq("", ""));
}

#[test]
fn preview_clamps_to_length() {
    assert_eq!(address_preview(""), "");
    assert_eq!(address_preview("abc"), "abc");
    assert_eq!(
        address_preview("zs1abcdefghijklmnopqrstuvwxyz"),
        "zs1abcdefghijklmnopq"
    );
    assert_eq!(address_preview("exactly20characters!"), "exactly20characters!");
}

#[test]
fn candidates_follow_fixed_order() {
    let cwd = vec![
        "/a/b/c".to_string(),
        "/a/b".to_string(),
        "/a".to_string(),
        "/".to_string(),
    ];
    let exe = vec!["/t/release".to_string(), "/t".to_string()];
    let home = Some("/home/u".to_string());
    let dirs = candidate_dirs(&cwd, &exe, &home);
    let expected = vec![
        "/a/b/c/params",
        "/a/b/c/params",
        "/a/b/params",
        "/a/params",
        "//params",
        "/t/release/params",
        "/t/params",
        "/home/u/.zcash-params",
    ];
    assert_eq!(dirs, expected);
}

#[test]
fn candidate_walk_is_bounded() {
    let cwd: Vec<String> = (0..8).map(|i| format!("/d{}", i)).collect();
    let dirs = candidate_dirs(&cwd, &Vec::new(), &None);
    // the direct check plus a walk of at most five levels
    assert_eq!(dirs.len(), 6);
    assert_eq!(dirs[0], "/d0/params");
    assert_eq!(dirs[5], "/d4/params");
}

#[test]
fn candidates_without_any_source_are_empty() {
    let dirs = candidate_dirs(&Vec::new(), &Vec::new(), &None);
    assert!(dirs.is_empty());
}

#[test]
fn first_complete_candidate_wins() {
    let probes = vec![absent(), absent(), complete(), complete()];
    assert_eq!(select_first_complete(&probes), Some(2));
}

#[test]
fn partial_candidate_is_skipped() {
    let probes = vec![
        probe(FileStatus::Present(7), FileStatus::Absent),
        probe(FileStatus::Absent, FileStatus::Present(8)),
        complete(),
    ];
    assert_eq!(select_first_complete(&probes), Some(2));
}

#[test]
fn unreadable_probe_counts_as_absent() {
    let probes = vec![
        probe(FileStatus::Present(7), FileStatus::Unreadable),
        probe(FileStatus::Unreadable, FileStatus::Unreadable),
        complete(),
    ];
    assert_eq!(select_first_complete(&probes), Some(2));
}

#[test]
fn no_complete_candidate_finds_nothing() {
    let probes = vec![
        probe(FileStatus::Present(7), FileStatus::Absent),
        absent(),
        probe(FileStatus::Unreadable, FileStatus::Present(8)),
    ];
    assert_eq!(select_first_complete(&probes), None);
    assert_eq!(select_first_complete(&Vec::new()), None);
}

#[test]
fn locate_builds_the_file_paths() {
    let candidates = vec!["/x/params".to_string(), "/y/params".to_string()];
    let probes = vec![absent(), complete()];
    let ps = locate(&candidates, &probes).expect("a complete candidate exists");
    assert_eq!(ps.dir, "/y/params");
    assert_eq!(ps.spend_path, "/y/params/sapling-spend.params");
    assert_eq!(ps.output_path, "/y/params/sapling-output.params");
    assert_eq!(ps.spend_bytes, 10);
    assert_eq!(ps.output_bytes, 20);
}

#[test]
fn home_default_wins_only_when_nothing_earlier_is_complete() {
    let cwd = vec!["/a/b".to_string(), "/a".to_string(), "/".to_string()];
    let exe = vec!["/t/release".to_string(), "/t".to_string()];
    let home = Some("/home/u".to_string());
    let candidates = candidate_dirs(&cwd, &exe, &home);
    let mut probes = vec![absent(); candidates.len()];
    let last: usize = candidates.len() - 1;
    probes[last] = complete();
    let ps = locate(&candidates, &probes).expect("the home default is complete");
    assert_eq!(ps.dir, "/home/u/.zcash-params");
    // an earlier-ordered complete candidate takes priority over it
    probes[4] = complete();
    let ps = locate(&candidates, &probes).expect("an earlier candidate is complete");
    assert_eq!(ps.dir, "/t/release/params");
}

#[test]
fn locate_returns_nothing_without_complete_candidate() {
    let candidates = vec!["/x/params".to_string()];
    let probes = vec![probe(FileStatus::Present(7), FileStatus::Absent)];
    assert!(locate(&candidates, &probes).is_none());
}

#[test]
fn unknown_kind_is_rejected_before_any_prover_work() {
    let r = screen_kind("bogus");
    let (resp, status) = r.err().expect("an unsupported kind is rejected");
    assert_eq!(status, HttpStatus::BadRequest);
    assert!(resp.proof.is_empty());
    assert_eq!(resp.error.as_deref(), Some("Invalid proof type: bogus"));
}

#[test]
fn known_kinds_pass_screening() {
    assert_eq!(screen_kind("spend").ok(), Some(ProofKind::Spend));
    assert_eq!(screen_kind("output").ok(), Some(ProofKind::Output));
    assert!(screen_kind("Spend").is_err());
}

fn spend_bag(amount: ParamValue) -> Vec<(String, ParamValue)> {
    vec![
        (
            "spendingKey".to_string(),
            ParamValue::Text("secret-extended-key-main1qqqqqqqq".to_string()),
        ),
        ("amount".to_string(), amount),
    ]
}

#[test]
fn spend_with_parameters_reports_the_structural_limitation() {
    let bag = spend_bag(ParamValue::Text("100000".to_string()));
    let (resp, status) = spend_reply(&bag);
    assert_eq!(status, HttpStatus::ServerError);
    assert!(resp.proof.is_empty());
    let msg = resp.error.expect("the limitation is reported");
    assert!(msg.contains("note commitment tree witness"));
    assert!(msg.contains("spendingKey (33 chars)"));
    assert!(msg.contains("amount=100000"));
}

#[test]
fn spend_amount_encodings_are_handled_identically() {
    let (text_resp, text_status) = spend_reply(&spend_bag(ParamValue::Text("100000".to_string())));
    let (num_resp, num_status) = spend_reply(&spend_bag(ParamValue::Unsigned(100000)));
    assert_eq!(text_status, num_status);
    assert_eq!(text_resp.error, num_resp.error);
}

#[test]
fn spend_without_key_is_a_client_fault() {
    let bag = vec![("amount".to_string(), ParamValue::Unsigned(5))];
    let (resp, status) = spend_reply(&bag);
    assert_eq!(status, HttpStatus::BadRequest);
    assert_eq!(resp.error.as_deref(), Some("Missing spendingKey parameter"));
}

#[test]
fn spend_with_bad_amount_is_a_client_fault() {
    for bad in [
        ParamValue::Text("-1".to_string()),
        ParamValue::Text("abc".to_string()),
        ParamValue::Other,
    ] {
        let (resp, status) = spend_reply(&spend_bag(bad));
        assert_eq!(status, HttpStatus::BadRequest);
        assert_eq!(resp.error.as_deref(), Some("Missing or invalid amount parameter"));
    }
    let no_amount = vec![(
        "spendingKey".to_string(),
        ParamValue::Text("k".to_string()),
    )];
    let (resp, status) = spend_reply(&no_amount);
    assert_eq!(status, HttpStatus::BadRequest);
    assert_eq!(resp.error.as_deref(), Some("Missing or invalid amount parameter"));
}

#[test]
fn output_with_parameters_reports_the_structural_limitation() {
    let bag = vec![
        ("toAddress".to_string(), ParamValue::Text("zs1dest".to_string())),
        ("amount".to_string(), ParamValue::Text("42".to_string())),
    ];
    let (resp, status) = output_reply(&bag);
    assert_eq!(status, HttpStatus::ServerError);
    assert!(resp.proof.is_empty());
    let msg = resp.error.expect("the limitation is reported");
    assert!(msg.contains("payment address decoding"));
    assert!(msg.contains("toAddress=zs1dest"));
    assert!(msg.contains("amount=42"));
}

#[test]
fn output_without_address_is_a_client_fault() {
    let bag = vec![("amount".to_string(), ParamValue::Unsigned(1))];
    let (resp, status) = output_reply(&bag);
    assert_eq!(status, HttpStatus::BadRequest);
    assert_eq!(resp.error.as_deref(), Some("Missing toAddress parameter"));
}

#[test]
fn get_param_finds_the_first_entry() {
    let bag = vec![
        ("k".to_string(), ParamValue::Unsigned(1)),
        ("k".to_string(), ParamValue::Unsigned(2)),
    ];
    match get_param(&bag, "k") {
        Some(ParamValue::Unsigned(n)) => assert_eq!(*n, 1),
        _ => panic!("the first entry is found"),
    }
    assert!(get_param(&bag, "other").is_none());
}

#[test]
fn failed_acquisition_is_passed_through_dispatch() {
    let bag = spend_bag(ParamValue::Unsigned(1));
    let acquire: Result<(), String> = Err("no parameters anywhere".to_string());
    let (resp, status) = dispatch_proof(ProofKind::Spend, &bag, &acquire);
    assert_eq!(status, HttpStatus::ServerError);
    assert!(resp.proof.is_empty());
    assert_eq!(resp.error.as_deref(), Some("no parameters anywhere"));
}

#[test]
fn explicit_paths_take_priority_over_the_default_lookup() {
    let candidates = vec!["/x/params".to_string()];
    let probes = vec![complete()];
    let located = locate(&candidates, &probes);
    for default_found in [false, true] {
        let r = acquire_outcome(
            locate(&candidates, &probes),
            default_found,
            &candidates,
            &None,
            absent(),
        );
        match r {
            Ok(ProverSource::ExplicitPaths(ps)) => assert_eq!(ps.dir, "/x/params"),
            _ => panic!("the explicit search takes priority"),
        }
    }
    assert!(located.is_some());
}

#[test]
fn default_lookup_is_used_only_as_fallback() {
    let r = acquire_outcome(None, true, &Vec::new(), &None, absent());
    assert!(matches!(r, Ok(ProverSource::DefaultLocation)));
}

#[test]
fn failed_acquisition_reports_locations_and_remediation() {
    let checked = vec!["/a/params".to_string(), "/home/u/.zcash-params".to_string()];
    let best = Some("/a/params".to_string());
    let p = probe(FileStatus::Present(7), FileStatus::Absent);
    let r = acquire_outcome(None, false, &checked, &best, p);
    let msg = r.err().expect("both tiers failed");
    assert!(msg.contains("Checked: /a/params\n"));
    assert!(msg.contains("Checked: /home/u/.zcash-params\n"));
    assert!(msg.contains("At /a/params:"));
    assert!(msg.contains("sapling-spend.params: present"));
    assert!(msg.contains("sapling-output.params: missing"));
    assert!(msg.contains("download the Zcash Sapling parameter files"));
    assert_eq!(msg, init_error_message(&checked, &best, p));
}

#[test]
fn diagnostic_without_best_candidate_skips_the_detail() {
    let checked = vec!["/a/params".to_string()];
    let msg = init_error_message(&checked, &None, absent());
    assert!(msg.contains("Checked: /a/params\n"));
    assert!(!msg.contains("At "));
}

fn build_request(from: &str, to: &str) -> BuildRequest {
    BuildRequest {
        spending_key: "secret-extended-key-main1qq".to_string(),
        from_address: from.to_string(),
        to_address: to.to_string(),
        amount: "100000".to_string(),
        memo: vec![1, 2, 3],
        lightwalletd_endpoint: None,
    }
}

#[test]
fn build_with_empty_addresses_truncates_safely() {
    let req = build_request("", "");
    let (resp, status) = build_reply(&req, &Ok(()));
    assert_eq!(status, HttpStatus::NotImplemented);
    assert!(resp.raw_transaction.is_empty());
    assert!(resp.txid.is_none());
    let msg = resp.error.expect("the terminal stage is reported");
    assert!(msg.contains("from=..., to=..."));
    assert!(msg.contains("amount=100000 zatoshi"));
    assert!(msg.contains("memo (3 bytes)"));
}

#[test]
fn build_previews_are_clamped_to_twenty_characters() {
    let req = build_request(
        "zs1sourceaddressthatislong",
        "zs1destinationaddressthatislong",
    );
    let (resp, status) = build_reply(&req, &Ok(()));
    assert_eq!(status, HttpStatus::NotImplemented);
    let msg = resp.error.expect("the terminal stage is reported");
    assert!(msg.contains("from=zs1sourceaddressthat..."));
    assert!(msg.contains("to=zs1destinationaddres..."));
}

#[test]
fn build_reports_a_failed_acquisition() {
    let req = build_request("a", "b");
    let acquire: Result<(), String> = Err("no parameters".to_string());
    let (resp, status) = build_reply(&req, &acquire);
    assert_eq!(status, HttpStatus::ServerError);
    assert_eq!(
        resp.error.as_deref(),
        Some("Prover initialization failed: no parameters")
    );
}

#[test]
fn build_stages_stop_at_prover_acquisition() {
    let (s1, o1) = advance(BuildStage::ReceivedRequest, false);
    assert_eq!(s1, BuildStage::ReceivedRequest);
    assert_eq!(o1, BuildOutcome::ServerFault);
    let (s2, o2) = advance(BuildStage::ReceivedRequest, true);
    assert_eq!(s2, BuildStage::ProverAcquired);
    assert_eq!(o2, BuildOutcome::Continue);
    let mut stage = BuildStage::ReceivedRequest;
    for ok in [true, true, false, true, true, true] {
        let (next, _) = advance(stage, ok);
        stage = next;
        assert!(stage == BuildStage::ReceivedRequest || stage == BuildStage::ProverAcquired);
    }
}
