//! The decisions of one sandbox session. The runtime that executes guest code
//! reports what happened; these functions say what the host does with it.
use vstd::prelude::*;
use crate::abi::{decode_response, parse_response, records_of};
use crate::finding::{from_plugin, Vulnerability};

verus! {

/// Why a plugin contributed no findings.
#[derive(PartialEq, Eq, Structural, Clone, Copy, Debug)]
pub enum SandboxError {
    /// The artifact could not be read, compiled or verified.
    LoadFailure,
    /// A fresh instance could not be created.
    InstantiationFailure,
    /// The guest faulted.
    Trap,
    /// The step quota or the deadline ran out; the instance was stopped.
    Timeout,
    /// The guest broke the exchange protocol.
    AbiViolation,
}

/// The resources one session may use. Every limit is positive: a session
/// without a budget is a configuration error, never "unlimited".
#[derive(PartialEq, Eq, Structural, Clone, Copy, Debug)]
pub struct Budget {
    pub max_steps: u64,
    pub max_millis: u64,
    pub max_pages: u32,
}

impl Budget {
    pub open spec fn wf(self) -> bool {
        self.max_steps > 0 && self.max_millis > 0 && self.max_pages > 0
    }

    pub fn new(max_steps: u64, max_millis: u64, max_pages: u32) -> (r: Option<Budget>)
        ensures
            r is Some <==> (max_steps > 0 && max_millis > 0 && max_pages > 0),
            r matches Some(b) ==> b.wf() && b.max_steps == max_steps && b.max_millis == max_millis
                && b.max_pages == max_pages,
    {
        if max_steps == 0 || max_millis == 0 || max_pages == 0 {
            None
        } else {
            Some(Budget { max_steps, max_millis, max_pages })
        }
    }
}

/// How the guest's `analyze` call ended.
#[derive(PartialEq, Eq, Structural, Clone, Copy, Debug)]
pub enum GuestExit {
    /// It returned the address and length of its response.
    Returned { ptr: u32, len: u32 },
    /// It faulted.
    Trapped,
    /// It used up its step quota.
    StepsExhausted,
    /// It ran past its deadline.
    DeadlineExceeded,
}

/// Whether `len` bytes at `ptr` lie inside a linear memory of `memory_len`
/// bytes.
pub open spec fn in_bounds(ptr: nat, len: nat, memory_len: nat) -> bool {
    ptr + len <= memory_len
}

/// Whether the buffer the guest reserved for the request can hold it.
pub fn request_in_bounds(ptr: u32, len: usize, memory_len: u64) -> (r: bool)
    ensures
        r == in_bounds(ptr as nat, len as nat, memory_len as nat),
{
    (len as u64) <= memory_len && (ptr as u64) <= memory_len - (len as u64)
}

/// What the host does once `analyze` has ended: read the response at the
/// region it returns, or record the error. A guest that ran out of budget
/// always yields `Timeout` and no findings.
pub fn response_region(exit: GuestExit, memory_len: u64) -> (r: Result<(u32, u32), SandboxError>)
    ensures
        match exit {
            GuestExit::Returned { ptr, len } => if in_bounds(ptr as nat, len as nat, memory_len as nat) {
                r == Ok::<(u32, u32), SandboxError>((ptr, len))
            } else {
                r == Err::<(u32, u32), SandboxError>(SandboxError::AbiViolation)
            },
            GuestExit::Trapped => r == Err::<(u32, u32), SandboxError>(SandboxError::Trap),
            GuestExit::StepsExhausted | GuestExit::DeadlineExceeded => r == Err::<
                (u32, u32),
                SandboxError,
            >(SandboxError::Timeout),
        },
{
    match exit {
        GuestExit::Returned { ptr, len } => {
            if request_in_bounds(ptr, len as usize, memory_len) {
                Ok((ptr, len))
            } else {
                Err(SandboxError::AbiViolation)
            }
        },
        GuestExit::Trapped => Err(SandboxError::Trap),
        GuestExit::StepsExhausted => Err(SandboxError::Timeout),
        GuestExit::DeadlineExceeded => Err(SandboxError::Timeout),
    }
}

/// The findings of the response bytes read out of the guest, tagged with the
/// plugin's name. A malformed response is an ABI violation and yields
/// nothing.
pub fn response_findings(bytes: &[u8], plugin: &str) -> (r: Result<
    Vec<Vulnerability>,
    SandboxError,
>)
    ensures
        match parse_response(bytes@) {
            Some(fs) => r matches Ok(v) && records_of(v@) == fs && forall|i: int|
                0 <= i < v@.len() ==> from_plugin(#[trigger] v@[i], plugin@),
            None => r == Err::<Vec<Vulnerability>, SandboxError>(SandboxError::AbiViolation),
        },
{
    match decode_response(bytes, plugin) {
        Ok(v) => Ok(v),
        Err(_) => Err(SandboxError::AbiViolation),
    }
}

/// Whether a file in the plugin directory is a guest artifact: a non-empty
/// stem followed by the `.wasm` extension.
pub open spec fn spec_is_plugin_file(name: Seq<char>) -> bool {
    name.len() > 5 && name.subrange(name.len() - 5, name.len() as int) == ".wasm"@
}

pub fn is_plugin_file(name: &str) -> (r: bool)
    ensures
        r == spec_is_plugin_file(name@),
{
    proof {
        reveal_strlit(".wasm");
    }
    let ext = ".wasm";
    let len = name.unicode_len();
    if len <= 5 {
        return false;
    }
    let mut k: usize = 0;
    while k < 5
        invariant
            len == name@.len(),
            len > 5,
            ext@ == ".wasm"@,
            ext@.len() == 5,
            k <= 5,
            forall|m: int| 0 <= m < k ==> name@[len - 5 + m] == ext@[m],
        decreases 5 - k,
    {
        if name.get_char(len - 5 + k) != ext.get_char(k) {
            proof {
                assert(name@.subrange(len - 5, len as int)[k as int] != ext@[k as int]);
            }
            return false;
        }
        k += 1;
    }
    proof {
        assert(name@.subrange(len - 5, len as int) =~= ext@);
    }
    true
}

} // verus!
