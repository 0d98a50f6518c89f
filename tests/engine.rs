use rwf::abi::{decode_request, decode_response, echo_guest, encode_request, encode_response, AbiError};
use rwf::config::{Config, ConfigError, NetworkConfig};
use rwf::finding::{sort_by_severity, ProbeSource, Severity, Vulnerability};
use rwf::modules::{fuzz_url, text_contains, ModuleManager, NativeModule};
use rwf::orchestrator::{aggregate, ProbeError, ProbeOutcome, ScanPhase};
use rwf::report::ReportGenerator;
use rwf::scanner::{default_paths, is_hit, join_url};
use rwf::session::{
    is_plugin_file, request_in_bounds, response_findings, response_region, Budget, GuestExit,
    SandboxError,
};

fn finding(name: &str, severity: Severity) -> Vulnerability {
    Vulnerability {
        name: name.to_string(),
        severity,
        description: format!("{} description", name),
        evidence: format!("{} evidence", name),
        source: ProbeSource::Native("test".to_string()),
    }
}

fn severities(v: &[Vulnerability]) -> Vec<Severity> {
    v.iter().map(|f| f.severity).collect()
}

#[test]
fn severity_sort_orders_most_severe_first() {
    let input = vec![
        finding("a", Severity::Low),
        finding("b", Severity::Critical),
        finding("c", Severity::Info),
        finding("d", Severity::High),
    ];
    let sorted = sort_by_severity(&input);
    assert_eq!(
        severities(&sorted),
        vec![Severity::Critical, Severity::High, Severity::Low, Severity::Info]
    );
}

#[test]
fn severity_sort_keeps_order_of_equal_severities() {
    let input = vec![
        finding("first", Severity::Medium),
        finding("x", Severity::High),
        finding("second", Severity::Medium),
    ];
    let sorted = ReportGenerator::save_vulns(&input);
    let names: Vec<&str> = sorted.iter().map(|f| f.name.as_str()).collect();
    assert_eq!(names, vec!["x", "first", "second"]);
}

#[test]
fn severity_sort_of_empty_list_is_empty() {
    assert!(sort_by_severity(&Vec::new()).is_empty());
}

#[test]
fn severity_ranks_and_names() {
    assert_eq!(Severity::Info.rank(), 0);
    assert_eq!(Severity::Critical.rank(), 4);
    assert_eq!(Severity::Medium.as_str(), "Medium");
    assert!(Severity::Info < Severity::Low && Severity::High < Severity::Critical);
}

#[test]
fn request_encoding_is_length_prefixed_utf8() {
    assert_eq!(encode_request("ab").unwrap(), vec![2, 0, 0, 0, b'a', b'b']);
    assert_eq!(encode_request("é").unwrap(), vec![2, 0, 0, 0, 0xc3, 0xa9]);
    assert_eq!(encode_request("").unwrap(), vec![0, 0, 0, 0]);
}

#[test]
fn request_round_trips() {
    let bytes = encode_request("http://x/ünïcode").unwrap();
    assert_eq!(decode_request(&bytes).unwrap(), "http://x/ünïcode");
}

#[test]
fn request_with_trailing_bytes_is_malformed() {
    let mut bytes = encode_request("http://x").unwrap();
    bytes.push(0);
    assert_eq!(decode_request(&bytes), Err(AbiError::Malformed));
}

#[test]
fn echo_guest_returns_target_as_evidence() {
    let request = encode_request("http://x").unwrap();
    let reply = echo_guest(&request).unwrap();
    let found = response_findings(&reply, "echo.wasm").unwrap();
    assert_eq!(found.len(), 1);
    assert_eq!(found[0].evidence, "http://x");
    assert_eq!(found[0].severity, Severity::Info);
    assert!(matches!(&found[0].source, ProbeSource::Plugin(n) if n == "echo.wasm"));
}

#[test]
fn echo_guest_rejects_garbage() {
    assert_eq!(echo_guest(&[1, 2]), Err(AbiError::Malformed));
}

#[test]
fn response_round_trips_and_tags_plugin() {
    let input = vec![finding("one", Severity::High), finding("two", Severity::Low)];
    let bytes = encode_response(&input).unwrap();
    let back = decode_response(&bytes, "p.wasm").unwrap();
    assert_eq!(back.len(), 2);
    for (a, b) in input.iter().zip(back.iter()) {
        assert_eq!(a.name, b.name);
        assert_eq!(a.severity, b.severity);
        assert_eq!(a.description, b.description);
        assert_eq!(a.evidence, b.evidence);
        assert!(matches!(&b.source, ProbeSource::Plugin(n) if n == "p.wasm"));
    }
}

#[test]
fn empty_response_encodes_as_zero_count() {
    assert_eq!(encode_response(&[]).unwrap(), vec![0, 0, 0, 0]);
    assert!(decode_response(&[0, 0, 0, 0], "p").unwrap().is_empty());
}

#[test]
fn truncated_response_is_rejected() {
    let bytes = encode_response(&[finding("one", Severity::High)]).unwrap();
    assert_eq!(decode_response(&bytes[..bytes.len() - 1], "p").err(), Some(AbiError::Malformed));
    assert_eq!(decode_response(&[], "p").err(), Some(AbiError::Malformed));
}

#[test]
fn unknown_severity_byte_is_rejected() {
    // one finding, name "n", severity byte 9
    let bytes = vec![1, 0, 0, 0, 1, 0, 0, 0, b'n', 9, 0, 0, 0, 0, 0, 0, 0, 0];
    assert_eq!(decode_response(&bytes, "p").err(), Some(AbiError::Malformed));
    let mut ok = bytes.clone();
    ok[9] = 3;
    let v = decode_response(&ok, "p").unwrap();
    assert_eq!(v[0].severity, Severity::High);
    assert_eq!(v[0].name, "n");
}

#[test]
fn invalid_utf8_in_response_is_an_abi_violation() {
    let bytes = vec![1, 0, 0, 0, 1, 0, 0, 0, 0xff, 0, 0, 0, 0, 0, 0, 0, 0, 0];
    assert_eq!(response_findings(&bytes, "p").unwrap_err(), SandboxError::AbiViolation);
}

#[test]
fn exhausted_budget_is_a_timeout_with_no_findings() {
    assert_eq!(response_region(GuestExit::StepsExhausted, 65536), Err(SandboxError::Timeout));
    assert_eq!(response_region(GuestExit::DeadlineExceeded, 65536), Err(SandboxError::Timeout));
}

#[test]
fn guest_fault_is_a_trap() {
    assert_eq!(response_region(GuestExit::Trapped, 65536), Err(SandboxError::Trap));
}

#[test]
fn response_region_must_lie_in_guest_memory() {
    assert_eq!(response_region(GuestExit::Returned { ptr: 100, len: 28 }, 128), Ok((100, 28)));
    assert_eq!(
        response_region(GuestExit::Returned { ptr: 100, len: 29 }, 128),
        Err(SandboxError::AbiViolation)
    );
    assert_eq!(
        response_region(GuestExit::Returned { ptr: u32::MAX, len: u32::MAX }, 128),
        Err(SandboxError::AbiViolation)
    );
    assert!(request_in_bounds(0, 128, 128));
    assert!(!request_in_bounds(1, 128, 128));
}

#[test]
fn budget_needs_every_limit() {
    assert!(Budget::new(0, 1, 1).is_none());
    assert!(Budget::new(1, 0, 1).is_none());
    assert!(Budget::new(1, 1, 0).is_none());
    let b = Budget::new(1000, 50, 16).unwrap();
    assert_eq!((b.max_steps, b.max_millis, b.max_pages), (1000, 50, 16));
}

#[test]
fn plugin_files_are_wasm_artifacts() {
    assert!(is_plugin_file("probe.wasm"));
    assert!(!is_plugin_file(".wasm"));
    assert!(!is_plugin_file("probe.wat"));
    assert!(!is_plugin_file("wasm"));
}

#[test]
fn native_only_phase_reports_sql_injection_only() {
    let body = "<html>500 Internal Server Error: You have an error in your SQL syntax near ''</html>";
    let modules = [NativeModule::Xss, NativeModule::Sqli];
    let mut outcomes = Vec::new();
    for m in modules {
        outcomes.push(ProbeOutcome {
            source: ProbeSource::Native(m.name().to_string()),
            result: Ok(m.analyze(body)),
        });
    }
    assert!(NativeModule::Xss.analyze(body).is_empty());
    let run = aggregate("http://t".to_string(), &outcomes, 1, 2);
    assert_eq!(run.findings.len(), 1);
    assert_eq!(run.findings[0].name, "SQL Injection");
    assert_eq!(run.findings[0].severity, Severity::Critical);
    assert_eq!(run.findings[0].evidence, "Payload: ', Match: SQL syntax");
    assert!(run.failures.is_empty());
}

#[test]
fn sqli_reports_first_matching_error_only() {
    let v = NativeModule::Sqli.analyze("PostgreSQL ... ORA-01756");
    assert_eq!(v.len(), 1);
    assert_eq!(v[0].evidence, "Payload: ', Match: ORA-");
    assert!(NativeModule::Sqli.analyze("all fine").is_empty());
}

#[test]
fn xss_detects_reflected_payload() {
    let v = NativeModule::Xss.analyze("hello <script>rwf_xss</script> world");
    assert_eq!(v.len(), 1);
    assert_eq!(v[0].name, "Reflected XSS");
    assert_eq!(v[0].severity, Severity::High);
    assert!(matches!(&v[0].source, ProbeSource::Native(n) if n == "Reflected XSS"));
}

#[test]
fn rce_probe_detects_passwd_leak() {
    let v = NativeModule::RceProbe.analyze("root:x:0:0:root:/root:/bin/bash");
    assert_eq!(v.len(), 1);
    assert_eq!(v[0].name, "RCE Detected");
    assert!(NativeModule::RceProbe.analyze("root:x:1").is_empty());
}

#[test]
fn registry_lists_every_native_module() {
    let names: Vec<&str> = ModuleManager::load_native().iter().map(|m| m.name()).collect();
    assert_eq!(names, vec!["Reflected XSS", "SQL Injection (Error-based)", "RCE Probe (Safe)"]);
}

#[test]
fn fuzz_url_appends_or_adds_query() {
    assert_eq!(fuzz_url("http://a/b", "'"), "http://a/b?q='");
    assert_eq!(fuzz_url("http://a/b?x=1", "'"), "http://a/b?x=1'");
    assert_eq!(NativeModule::RceProbe.request_url("http://a"), "http://a?q=; cat /etc/passwd");
}

#[test]
fn text_contains_matches_substrings() {
    assert!(text_contains("abc", ""));
    assert!(text_contains("abc", "bc"));
    assert!(!text_contains("abc", "abcd"));
    assert!(!text_contains("", "a"));
    assert!(text_contains("ünï", "nï"));
}

#[test]
fn plugin_phase_survives_a_malformed_artifact() {
    let reply = echo_guest(&encode_request("http://t").unwrap()).unwrap();
    let outcomes = vec![
        ProbeOutcome {
            source: ProbeSource::Plugin("broken.wasm".to_string()),
            result: Err(ProbeError::Sandbox(SandboxError::LoadFailure)),
        },
        ProbeOutcome {
            source: ProbeSource::Plugin("echo.wasm".to_string()),
            result: response_findings(&reply, "echo.wasm")
                .map_err(ProbeError::Sandbox),
        },
    ];
    let run = aggregate("http://t".to_string(), &outcomes, 10, 20);
    assert_eq!(run.findings.len(), 1);
    assert_eq!(run.findings[0].evidence, "http://t");
    assert_eq!(run.failures.len(), 1);
    assert_eq!(run.failures[0].error, ProbeError::Sandbox(SandboxError::LoadFailure));
    assert!(matches!(&run.failures[0].source, ProbeSource::Plugin(n) if n == "broken.wasm"));
    assert_eq!((run.started_at, run.finished_at), (10, 20));
}

#[test]
fn scan_run_counts_findings_of_completed_probes() {
    let outcomes = vec![
        ProbeOutcome {
            source: ProbeSource::Native("a".to_string()),
            result: Ok(vec![finding("1", Severity::Low), finding("2", Severity::High)]),
        },
        ProbeOutcome {
            source: ProbeSource::Native("b".to_string()),
            result: Err(ProbeError::Transport),
        },
        ProbeOutcome {
            source: ProbeSource::Plugin("c".to_string()),
            result: Ok(vec![finding("3", Severity::Critical)]),
        },
    ];
    let run = aggregate("t".to_string(), &outcomes, 0, 0);
    assert_eq!(run.findings.len(), 3);
    assert_eq!(severities(&run.findings), vec![Severity::Critical, Severity::High, Severity::Low]);
    assert_eq!(run.failures.len(), 1);
    assert_eq!(run.failures[0].error, ProbeError::Transport);
}

#[test]
fn scan_phases_run_in_fixed_order() {
    let mut p = ScanPhase::Idle;
    let mut seen = vec![p];
    for _ in 0..5 {
        p = p.next();
        seen.push(p);
    }
    assert_eq!(
        seen,
        vec![
            ScanPhase::Idle,
            ScanPhase::NativePhase,
            ScanPhase::PluginPhase,
            ScanPhase::Aggregated,
            ScanPhase::Done,
            ScanPhase::Done
        ]
    );
}

#[test]
fn enumeration_helpers() {
    assert_eq!(join_url("http://a//", "admin"), "http://a/admin");
    assert_eq!(join_url("http://a", "login"), "http://a/login");
    assert!(is_hit(200) && is_hit(301) && is_hit(399));
    assert!(!is_hit(199) && !is_hit(404) && !is_hit(500));
    assert_eq!(default_paths(), vec!["admin", "login", "config"]);
}

#[test]
fn config_requires_positive_limits() {
    let mut c = Config {
        network: NetworkConfig {
            timeout_seconds: 5,
            user_agent: "rwf".to_string(),
            follow_redirects: true,
        },
        concurrency: 4,
        plugin_path: "plugins".to_string(),
        payload_path: "payloads".to_string(),
        reports_path: "reports".to_string(),
        budget: Budget::new(1, 1, 1).unwrap(),
    };
    assert_eq!(c.validate(), Ok(()));
    c.budget.max_pages = 0;
    assert_eq!(c.validate(), Err(ConfigError::MissingBudget));
    c.concurrency = 0;
    assert_eq!(c.validate(), Err(ConfigError::ZeroConcurrency));
}
