//! Directory enumeration: which addresses to try, and which answers count.
use vstd::prelude::*;
use vstd::string::*;

verus! {

/// What probing one address gave.
pub struct ScanResult {
    pub url: String,
    pub status: u16,
    pub content_length: Option<u64>,
}

/// Whether a status is a success (`2xx`) or a redirection (`3xx`), the two
/// answers that reveal an existing path.
pub fn is_hit(status: u16) -> (r: bool)
    ensures
        r == (200 <= status <= 399),
{
    200 <= status && status <= 399
}

/// `s` without the `/` characters at its end.
pub open spec fn trim_slashes(s: Seq<char>) -> Seq<char>
    decreases s.len(),
{
    if s.len() > 0 && s.last() == '/' {
        trim_slashes(s.drop_last())
    } else {
        s
    }
}

/// The address of `path` under `target`, joined by exactly one `/`.
pub fn join_url(target: &str, path: &str) -> (r: String)
    ensures
        r@ == trim_slashes(target@) + "/"@ + path@,
{
    let len = target.unicode_len();
    let mut end: usize = len;
    proof {
        assert(target@.subrange(0, end as int) =~= target@);
    }
    while end > 0 && target.get_char(end - 1) == '/'
        invariant
            len == target@.len(),
            end <= len,
            trim_slashes(target@) == trim_slashes(target@.subrange(0, end as int)),
        decreases end,
    {
        proof {
            let t = target@.subrange(0, end as int);
            assert(t.drop_last() =~= target@.subrange(0, end - 1));
        }
        end -= 1;
    }
    proof {
        let t = target@.subrange(0, end as int);
        assert(trim_slashes(t) == t);
    }
    let mut out = String::from_str(target.substring_char(0, end));
    out.append("/");
    out.append(path);
    out
}

/// The paths tried when no word list is given.
pub fn default_paths() -> (r: Vec<String>)
    ensures
        r@.len() == 3,
        r@[0]@ == "admin"@,
        r@[1]@ == "login"@,
        r@[2]@ == "config"@,
{
    let mut paths: Vec<String> = Vec::new();
    paths.push(String::from_str("admin"));
    paths.push(String::from_str("login"));
    paths.push(String::from_str("config"));
    paths
}

} // verus!
