//! The compiled-in probes. Each one sends a single crafted request to the
//! target and looks for a tell-tale fragment in the response body; fetching
//! the body is left to the caller, so a probe here is pure analysis.
use vstd::prelude::*;
use vstd::string::*;
use crate::finding::{from_native, ProbeSource, Severity, Vulnerability};
use crate::abi::{record_of, Record};

verus! {

/// Whether `needle` occurs as a contiguous run inside `hay`.
pub open spec fn occurs_in<T>(hay: Seq<T>, needle: Seq<T>) -> bool {
    exists|i: int|
        0 <= i && i + needle.len() <= hay.len() && #[trigger] hay.subrange(i, i + needle.len())
            == needle
}

/// Whether the UTF-8 bytes of `needle` occur inside those of `hay`, which is
/// what `str::contains` answers for a string pattern.
pub fn text_contains(hay: &str, needle: &str) -> (r: bool)
    ensures
        r == occurs_in(hay.spec_bytes(), needle.spec_bytes()),
{
    let h = hay.as_bytes();
    let n = needle.as_bytes();
    if n.len() == 0 {
        proof {
            assert(h@.subrange(0, 0int + n@.len()) =~= n@);
        }
        return true;
    }
    if n.len() > h.len() {
        return false;
    }
    let mut i: usize = 0;
    while i <= h.len() - n.len()
        invariant
            n@.len() <= h@.len(),
            h@ == hay.spec_bytes(),
            n@ == needle.spec_bytes(),
            n@.len() >= 1,
            i <= h@.len(),
            forall|k: int| 0 <= k < i ==> #[trigger] h@.subrange(k, k + n@.len()) != n@,
        decreases h@.len() - i,
    {
        let mut j: usize = 0;
        while j < n.len() && h[i + j] == n[j]
            invariant
                n@.len() <= h@.len(),
                i + n@.len() <= h@.len(),
                h@.len() <= usize::MAX,
                j <= n@.len(),
                forall|m: int| 0 <= m < j ==> h@[i + m] == n@[m],
            decreases n@.len() - j,
        {
            j += 1;
        }
        if j == n.len() {
            proof {
                assert(h@.subrange(i as int, i + n@.len()) =~= n@);
            }
            return true;
        }
        proof {
            assert(h@.subrange(i as int, i + n@.len())[j as int] != n@[j as int]);
        }
        i += 1;
    }
    proof {
        assert forall|k: int|
            0 <= k && k + n@.len() <= h@.len() implies #[trigger] h@.subrange(
            k,
            k + n@.len(),
        ) != n@ by {
            assert(k < i);
        }
    }
    false
}

/// Whether `s` holds the character `c`.
fn has_char(s: &str, c: char) -> (r: bool)
    ensures
        r == s@.contains(c),
{
    let len = s.unicode_len();
    let mut i: usize = 0;
    while i < len
        invariant
            len == s@.len(),
            i <= len,
            forall|k: int| 0 <= k < i ==> s@[k] != c,
        decreases len - i,
    {
        if s.get_char(i) == c {
            return true;
        }
        i += 1;
    }
    false
}

/// The address a probe requests: `payload` is appended to an existing query,
/// or becomes the value of a new `q` parameter.
pub open spec fn spec_fuzz_url(url: Seq<char>, payload: Seq<char>) -> Seq<char> {
    if url.contains('?') {
        url + payload
    } else {
        url + "?q="@ + payload
    }
}

pub fn fuzz_url(url: &str, payload: &str) -> (r: String)
    ensures
        r@ == spec_fuzz_url(url@, payload@),
{
    let mut out = String::from_str(url);
    if !has_char(url, '?') {
        out.append("?q=");
    }
    out.append(payload);
    out
}

/// A compiled-in probe.
#[derive(PartialEq, Eq, Structural, Clone, Copy, Debug)]
pub enum NativeModule {
    Xss,
    Sqli,
    RceProbe,
}

pub open spec fn sql_errors() -> Seq<Seq<char>> {
    seq!["SQL syntax"@, "mysql_fetch"@, "ORA-"@, "PostgreSQL"@]
}

/// The first database error fragment, in the probe's fixed order, that the
/// body holds.
pub open spec fn first_sql_error(body: Seq<char>) -> Option<Seq<char>> {
    if occurs_in(encode(body), encode(sql_errors()[0])) {
        Some(sql_errors()[0])
    } else if occurs_in(encode(body), encode(sql_errors()[1])) {
        Some(sql_errors()[1])
    } else if occurs_in(encode(body), encode(sql_errors()[2])) {
        Some(sql_errors()[2])
    } else if occurs_in(encode(body), encode(sql_errors()[3])) {
        Some(sql_errors()[3])
    } else {
        None
    }
}

pub open spec fn encode(s: Seq<char>) -> Seq<u8> {
    vstd::utf8::encode_utf8(s)
}

/// The findings a probe reports for a response body, before provenance.
pub open spec fn expected_records(m: NativeModule, body: Seq<char>) -> Seq<Record> {
    match m {
        NativeModule::Xss => if occurs_in(encode(body), encode("<script>rwf_xss</script>"@)) {
            seq![
                (
                    "Reflected XSS"@,
                    Severity::High,
                    "Input reflected in response without sanitization"@,
                    "<script>rwf_xss</script>"@,
                ),
            ]
        } else {
            Seq::empty()
        },
        NativeModule::Sqli => match first_sql_error(body) {
            Some(err) => seq![
                (
                    "SQL Injection"@,
                    Severity::Critical,
                    "Database error message leaked in response"@,
                    "Payload: ', Match: "@ + err,
                ),
            ],
            None => Seq::empty(),
        },
        NativeModule::RceProbe => if occurs_in(encode(body), encode("root:x:0:0"@)) {
            seq![
                (
                    "RCE Detected"@,
                    Severity::Critical,
                    "/etc/passwd leaked"@,
                    "root:x:0:0 found in body"@,
                ),
            ]
        } else {
            Seq::empty()
        },
    }
}

pub open spec fn spec_module_name(m: NativeModule) -> Seq<char> {
    match m {
        NativeModule::Xss => "Reflected XSS"@,
        NativeModule::Sqli => "SQL Injection (Error-based)"@,
        NativeModule::RceProbe => "RCE Probe (Safe)"@,
    }
}

pub open spec fn spec_payload(m: NativeModule) -> Seq<char> {
    match m {
        NativeModule::Xss => "<script>rwf_xss</script>"@,
        NativeModule::Sqli => "'"@,
        NativeModule::RceProbe => "; cat /etc/passwd"@,
    }
}

fn native_finding(
    module: NativeModule,
    name: &str,
    severity: Severity,
    description: &str,
    evidence: String,
) -> (r: Vulnerability)
    ensures
        record_of(r) == (name@, severity, description@, evidence@),
        from_native(r, spec_module_name(module)),
{
    Vulnerability {
        name: String::from_str(name),
        severity,
        description: String::from_str(description),
        evidence,
        source: ProbeSource::Native(String::from_str(module.name())),
    }
}

impl NativeModule {
    pub fn name(&self) -> (r: &'static str)
        ensures
            r@ == spec_module_name(*self),
    {
        match self {
            NativeModule::Xss => "Reflected XSS",
            NativeModule::Sqli => "SQL Injection (Error-based)",
            NativeModule::RceProbe => "RCE Probe (Safe)",
        }
    }

    /// What the probe appends to the target's query.
    pub fn payload(&self) -> (r: &'static str)
        ensures
            r@ == spec_payload(*self),
    {
        match self {
            NativeModule::Xss => "<script>rwf_xss</script>",
            NativeModule::Sqli => "'",
            NativeModule::RceProbe => "; cat /etc/passwd",
        }
    }

    /// The address this probe requests for `target`.
    pub fn request_url(&self, target: &str) -> (r: String)
        ensures
            r@ == spec_fuzz_url(target@, spec_payload(*self)),
    {
        fuzz_url(target, self.payload())
    }

    /// The findings this probe reports for the body of its response, each
    /// tagged with the probe's name.
    pub fn analyze(&self, body: &str) -> (r: Vec<Vulnerability>)
        ensures
            r@.map_values(|v: Vulnerability| record_of(v)) == expected_records(*self, body@),
            forall|i: int| 0 <= i < r@.len() ==> from_native(#[trigger] r@[i], spec_module_name(*self)),
    {
        let mut out: Vec<Vulnerability> = Vec::new();
        match self {
            NativeModule::Xss => {
                let payload = "<script>rwf_xss</script>";
                if text_contains(body, payload) {
                    out.push(
                        native_finding(
                            *self,
                            "Reflected XSS",
                            Severity::High,
                            "Input reflected in response without sanitization",
                            String::from_str(payload),
                        ),
                    );
                }
            },
            NativeModule::Sqli => {
                let errors = ["SQL syntax", "mysql_fetch", "ORA-", "PostgreSQL"];
                let mut k: usize = 0;
                let mut hit = false;
                while k < 4 && !hit
                    invariant
                        k <= 4,
                        forall|m: int| 0 <= m < 4 ==> (#[trigger] errors@[m])@ == sql_errors()[m],
                        hit ==> k < 4 && occurs_in(encode(body@), encode(sql_errors()[k as int])),
                        forall|m: int|
                            0 <= m < k ==> !occurs_in(encode(body@), encode(sql_errors()[m])),
                    decreases 4 - k + (if hit { 0int } else { 1int }),
                {
                    if text_contains(body, errors[k]) {
                        hit = true;
                    } else {
                        k += 1;
                    }
                }
                if hit {
                    let mut evidence = String::from_str("Payload: ', Match: ");
                    evidence.append(errors[k]);
                    out.push(
                        native_finding(
                            *self,
                            "SQL Injection",
                            Severity::Critical,
                            "Database error message leaked in response",
                            evidence,
                        ),
                    );
                    proof {
                        assert(first_sql_error(body@) == Some(sql_errors()[k as int]));
                    }
                } else {
                    proof {
                        assert(first_sql_error(body@) is None);
                    }
                }
            },
            NativeModule::RceProbe => {
                if text_contains(body, "root:x:0:0") {
                    out.push(
                        native_finding(
                            *self,
                            "RCE Detected",
                            Severity::Critical,
                            "/etc/passwd leaked",
                            String::from_str("root:x:0:0 found in body"),
                        ),
                    );
                }
            },
        }
        proof {
            assert(out@.map_values(|v: Vulnerability| record_of(v)) =~= expected_records(
                *self,
                body@,
            ));
        }
        out
    }
}

/// The registry of compiled-in probes.
pub struct ModuleManager;

impl ModuleManager {
    /// Every compiled-in probe, in the order a scan runs them.
    pub fn load_native() -> (r: Vec<NativeModule>)
        ensures
            r@ == seq![NativeModule::Xss, NativeModule::Sqli, NativeModule::RceProbe],
    {
        vec![NativeModule::Xss, NativeModule::Sqli, NativeModule::RceProbe]
    }
}

} // verus!
