//! The byte encoding exchanged between the host and a sandboxed guest.
//!
//! A string travels as its UTF-8 length (a little-endian `u32`) followed by
//! its UTF-8 bytes. A request is one string, the target. A response is a
//! little-endian `u32` count followed by that many findings, each being its
//! name, one severity byte (`0` for `Info` up to `4` for `Critical`), its
//! description and its evidence.
use vstd::prelude::*;
use vstd::utf8::*;
use crate::finding::{from_plugin, ProbeSource, Severity, Vulnerability};

verus! {

/// Why an exchange could not be encoded or decoded.
#[derive(PartialEq, Eq, Structural, Clone, Copy, Debug)]
pub enum AbiError {
    /// A string or a list is too long for its `u32` length prefix.
    Oversize,
    /// The bytes are not a well-formed frame.
    Malformed,
}

/// What a finding carries across the boundary: name, severity, description,
/// evidence.
pub type Record = (Seq<char>, Severity, Seq<char>, Seq<char>);

pub open spec fn record_of(v: Vulnerability) -> Record {
    (v.name@, v.severity, v.description@, v.evidence@)
}

pub open spec fn records_of(s: Seq<Vulnerability>) -> Seq<Record> {
    s.map_values(|v: Vulnerability| record_of(v))
}

pub open spec fn u32_le(n: nat) -> Seq<u8> {
    seq![
        (n % 256) as u8,
        ((n / 256) % 256) as u8,
        ((n / 65536) % 256) as u8,
        ((n / 16777216) % 256) as u8,
    ]
}

pub open spec fn read_u32_le(b: Seq<u8>, at: int) -> nat {
    (b[at] + 256 * b[at + 1] + 65536 * b[at + 2] + 16777216 * b[at + 3]) as nat
}

#[verifier::opaque]
pub open spec fn str_frame(s: Seq<char>) -> Seq<u8> {
    u32_le(encode_utf8(s).len()) + encode_utf8(s)
}

pub open spec fn str_fits(s: Seq<char>) -> bool {
    encode_utf8(s).len() <= u32::MAX
}

pub open spec fn severity_of_byte(x: u8) -> Option<Severity> {
    if x == 0 {
        Some(Severity::Info)
    } else if x == 1 {
        Some(Severity::Low)
    } else if x == 2 {
        Some(Severity::Medium)
    } else if x == 3 {
        Some(Severity::High)
    } else if x == 4 {
        Some(Severity::Critical)
    } else {
        None
    }
}

pub open spec fn record_frame(f: Record) -> Seq<u8> {
    str_frame(f.0) + seq![f.1.spec_rank() as u8] + str_frame(f.2) + str_frame(f.3)
}

pub open spec fn record_fits(f: Record) -> bool {
    str_fits(f.0) && str_fits(f.2) && str_fits(f.3)
}

pub open spec fn records_frame(fs: Seq<Record>) -> Seq<u8>
    decreases fs.len(),
{
    if fs.len() == 0 {
        Seq::empty()
    } else {
        record_frame(fs[0]) + records_frame(fs.drop_first())
    }
}

/// The bytes of a request naming `target`.
pub open spec fn request_frame(target: Seq<char>) -> Seq<u8> {
    str_frame(target)
}

/// The bytes of a response holding `fs`.
pub open spec fn response_frame(fs: Seq<Record>) -> Seq<u8> {
    u32_le(fs.len()) + records_frame(fs)
}

pub open spec fn response_fits(fs: Seq<Record>) -> bool {
    fs.len() <= u32::MAX && forall|i: int| 0 <= i < fs.len() ==> record_fits(#[trigger] fs[i])
}

/// The string framed at `at`, and the position just past it.
#[verifier::opaque]
pub open spec fn parse_str(b: Seq<u8>, at: int) -> Option<(Seq<char>, int)> {
    if 0 <= at && at + 4 <= b.len() {
        let end = at + 4 + read_u32_le(b, at);
        if end <= b.len() && valid_utf8(b.subrange(at + 4, end)) {
            Some((decode_utf8(b.subrange(at + 4, end)), end))
        } else {
            None
        }
    } else {
        None
    }
}

pub open spec fn parse_record(b: Seq<u8>, at: int) -> Option<(Record, int)> {
    match parse_str(b, at) {
        Some((name, p)) => if p < b.len() && severity_of_byte(b[p]) is Some {
            match parse_str(b, p + 1) {
                Some((desc, q)) => match parse_str(b, q) {
                    Some((ev, e)) => Some(((name, severity_of_byte(b[p])->0, desc, ev), e)),
                    None => None,
                },
                None => None,
            }
        } else {
            None
        },
        None => None,
    }
}

pub open spec fn parse_records(b: Seq<u8>, at: int, n: nat) -> Option<(Seq<Record>, int)>
    decreases n,
{
    if n == 0 {
        Some((Seq::empty(), at))
    } else {
        match parse_record(b, at) {
            Some((f, p)) => match parse_records(b, p, (n - 1) as nat) {
                Some((rest, e)) => Some((seq![f] + rest, e)),
                None => None,
            },
            None => None,
        }
    }
}

/// The target named by request bytes `b`, if they are one well-formed frame.
pub open spec fn parse_request(b: Seq<u8>) -> Option<Seq<char>> {
    match parse_str(b, 0) {
        Some((t, end)) => if end == b.len() {
            Some(t)
        } else {
            None
        },
        None => None,
    }
}

/// The findings held by response bytes `b`, if they are one well-formed frame.
pub open spec fn parse_response(b: Seq<u8>) -> Option<Seq<Record>> {
    if b.len() >= 4 {
        match parse_records(b, 4, read_u32_le(b, 0)) {
            Some((fs, end)) => if end == b.len() {
                Some(fs)
            } else {
                None
            },
            None => None,
        }
    } else {
        None
    }
}

pub proof fn lemma_u32_le(p: Seq<u8>, n: nat, rest: Seq<u8>)
    requires
        n <= u32::MAX,
    ensures
        read_u32_le(p + u32_le(n) + rest, p.len() as int) == n,
{
    let b = p + u32_le(n) + rest;
    let k = p.len() as int;
    assert(b[k] == (n % 256) as u8);
    assert(b[k + 1] == ((n / 256) % 256) as u8);
    assert(b[k + 2] == ((n / 65536) % 256) as u8);
    assert(b[k + 3] == ((n / 16777216) % 256) as u8);
    assert((n % 256) + 256 * ((n / 256) % 256) + 65536 * ((n / 65536) % 256) + 16777216 * ((n
        / 16777216) % 256) == n) by (nonlinear_arith)
        requires
            n <= u32::MAX,
    ;
}

pub proof fn lemma_parse_str(p: Seq<u8>, s: Seq<char>, rest: Seq<u8>)
    requires
        str_fits(s),
    ensures
        parse_str(p + str_frame(s) + rest, p.len() as int) == Some(
            (s, p.len() + str_frame(s).len() as int),
        ),
{
    broadcast use vstd::utf8::encode_utf8_decode_utf8, vstd::utf8::encode_utf8_valid_utf8;

    reveal(str_frame);
    reveal(parse_str);
    let e = encode_utf8(s);
    lemma_u32_le(p, e.len(), e + rest);
    assert(p + str_frame(s) + rest =~= p + u32_le(e.len()) + (e + rest));
    let b = p + str_frame(s) + rest;
    let k = p.len() as int;
    assert(b.subrange(k + 4, k + 4 + e.len()) =~= e);
}

pub proof fn lemma_severity_byte(sev: Severity)
    ensures
        severity_of_byte(sev.spec_rank() as u8) == Some(sev),
{
}

pub proof fn lemma_parse_record(p: Seq<u8>, f: Record, rest: Seq<u8>)
    requires
        record_fits(f),
    ensures
        parse_record(p + record_frame(f) + rest, p.len() as int) == Some(
            (f, p.len() + record_frame(f).len() as int),
        ),
{
    let b = p + record_frame(f) + rest;
    let sev = seq![f.1.spec_rank() as u8];
    let s0 = str_frame(f.0);
    let s2 = str_frame(f.2);
    let s3 = str_frame(f.3);
    let p1 = p + s0;
    let p2 = p1 + sev;
    let p3 = p2 + s2;
    let k1 = p1.len() as int;
    let k2 = p2.len() as int;
    let k3 = p3.len() as int;
    assert(b =~= p + s0 + (sev + s2 + s3 + rest));
    lemma_parse_str(p, f.0, sev + s2 + s3 + rest);
    assert(parse_str(b, p.len() as int) == Some((f.0, k1)));
    assert(b[k1] == f.1.spec_rank() as u8);
    lemma_severity_byte(f.1);
    assert(b =~= p2 + s2 + (s3 + rest));
    lemma_parse_str(p2, f.2, s3 + rest);
    assert(parse_str(b, k2) == Some((f.2, k3)));
    assert(b =~= p3 + s3 + rest);
    lemma_parse_str(p3, f.3, rest);
    assert(parse_str(b, k3) == Some((f.3, k3 + s3.len())));
    assert(k3 + s3.len() == p.len() + record_frame(f).len());
}

pub proof fn lemma_parse_records(p: Seq<u8>, fs: Seq<Record>, rest: Seq<u8>)
    requires
        forall|i: int| 0 <= i < fs.len() ==> record_fits(#[trigger] fs[i]),
    ensures
        parse_records(p + records_frame(fs) + rest, p.len() as int, fs.len()) == Some(
            (fs, p.len() + records_frame(fs).len() as int),
        ),
    decreases fs.len(),
{
    if fs.len() > 0 {
        let b = p + records_frame(fs) + rest;
        let tail = fs.drop_first();
        assert(record_fits(fs[0]));
        assert(b =~= p + record_frame(fs[0]) + (records_frame(tail) + rest));
        lemma_parse_record(p, fs[0], records_frame(tail) + rest);
        assert(b =~= (p + record_frame(fs[0])) + records_frame(tail) + rest);
        assert forall|i: int| 0 <= i < tail.len() implies record_fits(#[trigger] tail[i]) by {
            assert(tail[i] == fs[i + 1]);
        }
        lemma_parse_records(p + record_frame(fs[0]), tail, rest);
        assert(seq![fs[0]] + tail =~= fs);
    }
}

/// A request frame decodes back to the target it was built from.
pub proof fn lemma_request_round_trip(target: Seq<char>)
    requires
        str_fits(target),
    ensures
        parse_request(request_frame(target)) == Some(target),
{
    lemma_parse_str(Seq::empty(), target, Seq::empty());
    assert(Seq::<u8>::empty() + str_frame(target) + Seq::<u8>::empty() =~= request_frame(target));
}

/// A response frame decodes back to the findings it was built from.
pub proof fn lemma_response_round_trip(fs: Seq<Record>)
    requires
        response_fits(fs),
    ensures
        parse_response(response_frame(fs)) == Some(fs),
{
    let b = response_frame(fs);
    lemma_u32_le(Seq::empty(), fs.len(), records_frame(fs));
    assert(Seq::<u8>::empty() + u32_le(fs.len()) + records_frame(fs) =~= b);
    lemma_parse_records(u32_le(fs.len()), fs, Seq::empty());
    assert(u32_le(fs.len()) + records_frame(fs) + Seq::<u8>::empty() =~= b);
}


pub proof fn lemma_utf8_len_bound(s: Seq<char>)
    ensures
        encode_utf8(s).len() <= 4 * s.len(),
    decreases s.len(),
{
    if s.len() > 0 {
        lemma_utf8_len_bound(s.drop_first());
    }
}

pub proof fn lemma_records_frame_push(fs: Seq<Record>, f: Record)
    ensures
        records_frame(fs.push(f)) == records_frame(fs) + record_frame(f),
    decreases fs.len(),
{
    if fs.len() == 0 {
        assert(fs.push(f).drop_first() =~= Seq::<Record>::empty());
        assert(fs.push(f)[0] == f);
        assert(records_frame(Seq::<Record>::empty()) == Seq::<u8>::empty());
        assert(records_frame(fs) == Seq::<u8>::empty());
        assert(records_frame(fs.push(f)) =~= records_frame(fs) + record_frame(f));
    } else {
        lemma_records_frame_push(fs.drop_first(), f);
        assert(fs.push(f).drop_first() =~= fs.drop_first().push(f));
        assert(fs.push(f)[0] == fs[0]);
        assert(records_frame(fs.push(f)) =~= records_frame(fs) + record_frame(f));
    }
}

/// Relies on `String::from_utf8`: it accepts exactly the well-formed UTF-8
/// byte sequences, and the string it returns holds the characters they encode.
#[verifier::external_body]
fn string_from_utf8(bytes: Vec<u8>) -> (r: Option<String>)
    ensures
        r is Some <==> valid_utf8(bytes@),
        r matches Some(s) ==> s@ == decode_utf8(bytes@),
{
    String::from_utf8(bytes).ok()
}

fn put_u32(out: &mut Vec<u8>, n: u32)
    ensures
        final(out)@ == old(out)@ + u32_le(n as nat),
{
    out.push((n % 256) as u8);
    out.push(((n / 256) % 256) as u8);
    out.push(((n / 65536) % 256) as u8);
    out.push(((n / 16777216) % 256) as u8);
    proof {
        assert(final(out)@ =~= old(out)@ + u32_le(n as nat));
    }
}

fn put_str(out: &mut Vec<u8>, s: &str) -> (r: Result<(), AbiError>)
    ensures
        r is Ok <==> str_fits(s@),
        r is Ok ==> final(out)@ == old(out)@ + str_frame(s@),
        r is Err ==> r == Err::<(), AbiError>(AbiError::Oversize),
{
    let bytes = s.as_bytes();
    if bytes.len() > 4294967295usize {
        return Err(AbiError::Oversize);
    }
    put_u32(out, bytes.len() as u32);
    let ghost start = out@;
    let mut i: usize = 0;
    while i < bytes.len()
        invariant
            i <= bytes@.len(),
            bytes@ == encode_utf8(s@),
            out@ == start + bytes@.subrange(0, i as int),
        decreases bytes@.len() - i,
    {
        out.push(bytes[i]);
        i += 1;
        proof {
            assert(out@ =~= start + bytes@.subrange(0, i as int));
        }
    }
    proof {
        reveal(str_frame);
        assert(bytes@.subrange(0, i as int) =~= bytes@);
        assert(final(out)@ =~= old(out)@ + str_frame(s@));
    }
    Ok(())
}

fn put_record(out: &mut Vec<u8>, v: &Vulnerability) -> (r: Result<(), AbiError>)
    ensures
        r is Ok <==> record_fits(record_of(*v)),
        r is Ok ==> final(out)@ == old(out)@ + record_frame(record_of(*v)),
{
    let ghost start = out@;
    put_str(out, v.name.as_str())?;
    out.push(v.severity.rank());
    put_str(out, v.description.as_str())?;
    put_str(out, v.evidence.as_str())?;
    proof {
        assert(out@ =~= start + record_frame(record_of(*v)));
    }
    Ok(())
}

/// Encodes the request that asks a guest to analyze `target`.
pub fn encode_request(target: &str) -> (r: Result<Vec<u8>, AbiError>)
    ensures
        r is Ok <==> str_fits(target@),
        r matches Ok(b) ==> b@ == request_frame(target@),
        r is Err ==> r == Err::<Vec<u8>, AbiError>(AbiError::Oversize),
{
    let mut out: Vec<u8> = Vec::new();
    put_str(&mut out, target)?;
    proof {
        assert(out@ =~= request_frame(target@));
    }
    Ok(out)
}

/// Encodes the response that carries `findings` back to the host. Provenance
/// is not sent: the host tags what it decodes.
pub fn encode_response(findings: &[Vulnerability]) -> (r: Result<Vec<u8>, AbiError>)
    ensures
        r is Ok <==> response_fits(records_of(findings@)),
        r matches Ok(b) ==> b@ == response_frame(records_of(findings@)),
        r is Err ==> r == Err::<Vec<u8>, AbiError>(AbiError::Oversize),
{
    let ghost fs = records_of(findings@);
    if findings.len() > 4294967295usize {
        return Err(AbiError::Oversize);
    }
    let mut out: Vec<u8> = Vec::new();
    put_u32(&mut out, findings.len() as u32);
    let mut i: usize = 0;
    while i < findings.len()
        invariant
            i <= findings@.len(),
            fs == records_of(findings@),
            findings@.len() <= u32::MAX,
            out@ == u32_le(findings@.len()) + records_frame(fs.subrange(0, i as int)),
            forall|j: int| 0 <= j < i ==> record_fits(#[trigger] fs[j]),
        decreases findings@.len() - i,
    {
        let ghost before = out@;
        match put_record(&mut out, &findings[i]) {
            Ok(()) => {},
            Err(_) => {
                assert(!record_fits(fs[i as int]));
                return Err(AbiError::Oversize);
            },
        }
        proof {
            lemma_records_frame_push(fs.subrange(0, i as int), fs[i as int]);
            assert(fs.subrange(0, i + 1) =~= fs.subrange(0, i as int).push(fs[i as int]));
            assert(out@ =~= u32_le(findings@.len()) + records_frame(fs.subrange(0, i + 1)));
        }
        i += 1;
    }
    proof {
        assert(fs.subrange(0, i as int) =~= fs);
    }
    Ok(out)
}

fn read_u32_at(b: &[u8], at: usize) -> (r: u64)
    requires
        at + 4 <= b@.len(),
    ensures
        r == read_u32_le(b@, at as int),
{
    b[at] as u64 + 256 * (b[at + 1] as u64) + 65536 * (b[at + 2] as u64) + 16777216 * (b[at
        + 3] as u64)
}

fn take_str(b: &[u8], at: usize) -> (r: Option<(String, usize)>)
    requires
        at <= b@.len(),
    ensures
        match parse_str(b@, at as int) {
            Some((s, e)) => r matches Some((t, e2)) && t@ == s && e2 == e,
            None => r is None,
        },
        r matches Some((_, e2)) ==> e2 <= b@.len(),
{
    reveal(parse_str);
    if b.len() - at < 4 {
        return None;
    }
    let n = read_u32_at(b, at);
    let start = at + 4;
    if n > (b.len() - start) as u64 {
        return None;
    }
    let end = start + n as usize;
    let mut bytes: Vec<u8> = Vec::new();
    let mut i: usize = start;
    while i < end
        invariant
            start <= i <= end <= b@.len(),
            bytes@ == b@.subrange(start as int, i as int),
        decreases end - i,
    {
        bytes.push(b[i]);
        i += 1;
        proof {
            assert(bytes@ =~= b@.subrange(start as int, i as int));
        }
    }
    match string_from_utf8(bytes) {
        Some(t) => Some((t, end)),
        None => None,
    }
}

fn take_record(b: &[u8], at: usize, plugin: &str) -> (r: Option<(Vulnerability, usize)>)
    requires
        at <= b@.len(),
    ensures
        match parse_record(b@, at as int) {
            Some((f, e)) => r matches Some((v, e2)) && record_of(v) == f && e2 == e
                && from_plugin(v, plugin@),
            None => r is None,
        },
        r matches Some((_, e2)) ==> e2 <= b@.len(),
{
    let (name, p) = match take_str(b, at) {
        Some(x) => x,
        None => return None,
    };
    if p >= b.len() {
        return None;
    }
    let severity = match b[p] {
        0 => Severity::Info,
        1 => Severity::Low,
        2 => Severity::Medium,
        3 => Severity::High,
        4 => Severity::Critical,
        _ => return None,
    };
    let (description, q) = match take_str(b, p + 1) {
        Some(x) => x,
        None => return None,
    };
    let (evidence, e) = match take_str(b, q) {
        Some(x) => x,
        None => return None,
    };
    let v = Vulnerability {
        name,
        severity,
        description,
        evidence,
        source: ProbeSource::Plugin(plugin.to_string()),
    };
    Some((v, e))
}

/// Decodes the request a guest receives into its target.
pub fn decode_request(b: &[u8]) -> (r: Result<String, AbiError>)
    ensures
        match parse_request(b@) {
            Some(t) => r matches Ok(s) && s@ == t,
            None => r == Err::<String, AbiError>(AbiError::Malformed),
        },
{
    match take_str(b, 0) {
        Some((t, end)) => if end == b.len() {
            Ok(t)
        } else {
            Err(AbiError::Malformed)
        },
        None => Err(AbiError::Malformed),
    }
}

/// Decodes a guest's response into findings tagged as coming from `plugin`.
/// Any malformation rejects the whole response: no partial result is kept.
pub fn decode_response(b: &[u8], plugin: &str) -> (r: Result<Vec<Vulnerability>, AbiError>)
    ensures
        match parse_response(b@) {
            Some(fs) => r matches Ok(v) && records_of(v@) == fs && forall|i: int|
                0 <= i < v@.len() ==> from_plugin(#[trigger] v@[i], plugin@),
            None => r == Err::<Vec<Vulnerability>, AbiError>(AbiError::Malformed),
        },
{
    if b.len() < 4 {
        return Err(AbiError::Malformed);
    }
    let n = read_u32_at(b, 0);
    let mut acc: Vec<Vulnerability> = Vec::new();
    let mut pos: usize = 4;
    let mut i: u64 = 0;
    while i < n
        invariant
            i <= n,
            n == read_u32_le(b@, 0),
            pos <= b@.len(),
            parse_records(b@, 4, n as nat) == match parse_records(b@, pos as int, (n - i) as nat) {
                Some((rest, e)) => Some((records_of(acc@) + rest, e)),
                None => None,
            },
            forall|j: int|
                0 <= j < acc@.len() ==> from_plugin(#[trigger] acc@[j], plugin@),
        decreases n - i,
    {
        let ghost old_acc = acc@;
        let ghost old_pos = pos;
        match take_record(b, pos, plugin) {
            Some((v, p)) => {
                acc.push(v);
                pos = p;
            },
            None => {
                return Err(AbiError::Malformed);
            },
        }
        proof {
            let f = record_of(acc@.last());
            assert(records_of(acc@) =~= records_of(old_acc).push(f));
            match parse_records(b@, pos as int, (n - i - 1) as nat) {
                Some((rest, e)) => {
                    assert(records_of(old_acc) + (seq![f] + rest) =~= records_of(acc@) + rest);
                },
                None => {},
            }
        }
        i += 1;
    }
    if pos == b.len() {
        proof {
            assert(records_of(acc@) + Seq::<Record>::empty() =~= records_of(acc@));
        }
        Ok(acc)
    } else {
        Err(AbiError::Malformed)
    }
}


/// The single finding the echo guest answers with.
pub open spec fn echo_record(target: Seq<char>) -> Record {
    ("Echo"@, Severity::Info, "Request target echoed back"@, target)
}

proof fn lemma_echo_fits(target: Seq<char>)
    requires
        str_fits(target),
    ensures
        response_fits(seq![echo_record(target)]),
{
    reveal_strlit("Echo");
    reveal_strlit("Request target echoed back");
    lemma_utf8_len_bound("Echo"@);
    lemma_utf8_len_bound("Request target echoed back"@);
    assert(record_fits(seq![echo_record(target)][0]));
}

/// A reference guest that answers a request with one `Info` finding whose
/// evidence is the requested target.
pub fn echo_guest(request: &[u8]) -> (r: Result<Vec<u8>, AbiError>)
    ensures
        match parse_request(request@) {
            Some(t) => r matches Ok(b) && b@ == response_frame(seq![echo_record(t)]),
            None => r == Err::<Vec<u8>, AbiError>(AbiError::Malformed),
        },
{
    let target = match decode_request(request) {
        Ok(t) => t,
        Err(e) => return Err(e),
    };
    proof {
        reveal(parse_str);
        let sub = request@.subrange(4, 4 + read_u32_le(request@, 0) as int);
        vstd::utf8::decode_utf8_encode_utf8(sub);
        lemma_echo_fits(target@);
    }
    let finding = Vulnerability {
        name: "Echo".to_string(),
        severity: Severity::Info,
        description: "Request target echoed back".to_string(),
        evidence: target,
        source: ProbeSource::Plugin(String::new()),
    };
    let findings = vec![finding];
    proof {
        assert(records_of(findings@) =~= seq![echo_record(target@)]);
    }
    encode_response(findings.as_slice())
}

/// A target sent through the exchange to the echo guest comes back as the
/// evidence of a single `Info` finding: the request frame decodes to the
/// target, and the reply frame decodes to that one finding.
pub proof fn lemma_echo_exchange(target: Seq<char>)
    requires
        str_fits(target),
    ensures
        parse_request(request_frame(target)) == Some(target),
        parse_response(response_frame(seq![echo_record(target)])) == Some(
            seq![echo_record(target)],
        ),
        echo_record(target).1 == Severity::Info,
        echo_record(target).3 == target,
{
    lemma_request_round_trip(target);
    lemma_echo_fits(target);
    lemma_response_round_trip(seq![echo_record(target)]);
}

} // verus!
