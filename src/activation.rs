//! Detection of a listening socket handed over by a supervising process,
//! following the `LISTEN_PID` / `LISTEN_FDS` environment convention.

use vstd::prelude::*;
use vstd::string::StringSliceAdditionalSpecFns;

verus! {

/// The first descriptor that a supervisor hands over.
pub const LISTEN_FDS_START: i32 = 3;

/// The largest value that `parse_decimal` accepts.
pub const DECIMAL_MAX: u32 = 0xffff_ffff;

/// Why no usable socket was handed over; each of these leads to binding one.
#[derive(Debug, Clone, Copy, PartialEq, Eq, Structural)]
pub enum ActivationError {
    /// `LISTEN_PID` or `LISTEN_FDS` is not set.
    NotPresent,
    /// `LISTEN_PID` is not a decimal process id.
    MalformedPid,
    /// The handoff was meant for another process.
    OtherProcess,
    /// `LISTEN_FDS` is not a decimal count.
    MalformedCount,
    /// Zero descriptors, or more than the one listener this daemon serves.
    UnsupportedCount { count: u32 },
}

pub open spec fn is_digit(b: u8) -> bool {
    48 <= b && b <= 57
}

pub open spec fn all_digits(s: Seq<u8>) -> bool {
    forall|i: int| 0 <= i < s.len() ==> is_digit(#[trigger] s[i])
}

/// The number that a string of decimal digits denotes.
pub open spec fn decimal_value(s: Seq<u8>) -> nat
    decreases s.len(),
{
    if s.len() == 0 {
        0
    } else {
        decimal_value(s.drop_last()) * 10 + (s.last() - 48) as nat
    }
}

/// A decimal number: at least one digit, nothing else, and small enough for `u32`.
pub open spec fn decimal_of(s: Seq<u8>) -> Option<u32> {
    if s.len() > 0 && all_digits(s) && decimal_value(s) <= DECIMAL_MAX {
        Some(decimal_value(s) as u32)
    } else {
        None
    }
}

proof fn lemma_decimal_grows(s: Seq<u8>, k: int)
    requires
        0 <= k <= s.len(),
        all_digits(s),
    ensures
        decimal_value(s.subrange(0, k)) <= decimal_value(s),
    decreases s.len() - k,
{
    if k < s.len() {
        lemma_decimal_grows(s, k + 1);
        let p = s.subrange(0, k + 1);
        assert(p.drop_last() =~= s.subrange(0, k));
        assert(is_digit(s[k]));
    } else {
        assert(s.subrange(0, k) =~= s);
    }
}

/// Reads an unsigned decimal number, as `str::parse::<u32>` does for digit-only text.
pub fn parse_decimal(s: &str) -> (r: Option<u32>)
    ensures
        r == decimal_of(s.spec_bytes()),
{
    let b = s.as_bytes();
    let n = b.len();
    if n == 0 {
        return None;
    }
    let mut v: u64 = 0;
    let mut i: usize = 0;
    while i < n
        invariant
            n == b@.len(),
            b@ == s.spec_bytes(),
            0 <= i <= n,
            all_digits(b@.subrange(0, i as int)),
            v == decimal_value(b@.subrange(0, i as int)),
            v <= DECIMAL_MAX,
        decreases n - i,
    {
        let c = b[i];
        let ghost p = b@.subrange(0, i as int + 1);
        assert(p.drop_last() =~= b@.subrange(0, i as int));
        if c < 48 || c > 57 {
            proof {
                assert(!is_digit(b@[i as int]));
            }
            return None;
        }
        let next: u64 = v * 10 + (c - 48) as u64;
        if next > DECIMAL_MAX as u64 {
            proof {
                assert forall|j: int| 0 <= j < p.len() implies is_digit(#[trigger] p[j]) by {
                    if j < i {
                        assert(p[j] == b@.subrange(0, i as int)[j]);
                    }
                }
                if all_digits(b@) {
                    lemma_decimal_grows(b@, i as int + 1);
                }
            }
            return None;
        }
        proof {
            assert forall|j: int| 0 <= j < p.len() implies is_digit(#[trigger] p[j]) by {
                if j < i {
                    assert(p[j] == b@.subrange(0, i as int)[j]);
                }
            }
        }
        v = next;
        i = i + 1;
    }
    assert(b@.subrange(0, n as int) =~= b@);
    Some(v as u32)
}

/// What the environment convention yields: the handed-over descriptor, or why
/// there is none. `pid` and `count` are the raw `LISTEN_PID` and `LISTEN_FDS`.
pub open spec fn handoff_of(pid: Option<Seq<u8>>, count: Option<Seq<u8>>, own_pid: u32) -> Result<
    i32,
    ActivationError,
> {
    if pid.is_none() || count.is_none() {
        Err(ActivationError::NotPresent)
    } else if decimal_of(pid.unwrap()).is_none() {
        Err(ActivationError::MalformedPid)
    } else if decimal_of(pid.unwrap()).unwrap() != own_pid {
        Err(ActivationError::OtherProcess)
    } else if decimal_of(count.unwrap()).is_none() {
        Err(ActivationError::MalformedCount)
    } else if decimal_of(count.unwrap()).unwrap() != 1 {
        Err(ActivationError::UnsupportedCount { count: decimal_of(count.unwrap()).unwrap() })
    } else {
        Ok(LISTEN_FDS_START)
    }
}

pub open spec fn bytes_of(s: Option<&str>) -> Option<Seq<u8>> {
    match s {
        Some(t) => Some(t.spec_bytes()),
        None => None,
    }
}

/// Decides whether this process was handed a listening socket, from the values
/// of `LISTEN_PID` and `LISTEN_FDS` and the process's own id.
pub fn handoff_descriptor(listen_pid: Option<&str>, listen_fds: Option<&str>, own_pid: u32) -> (r:
    Result<i32, ActivationError>)
    ensures
        r == handoff_of(bytes_of(listen_pid), bytes_of(listen_fds), own_pid),
{
    let (pid_text, count_text) = match (listen_pid, listen_fds) {
        (Some(p), Some(c)) => (p, c),
        _ => {
            return Err(ActivationError::NotPresent);
        },
    };
    let pid = match parse_decimal(pid_text) {
        Some(p) => p,
        None => {
            return Err(ActivationError::MalformedPid);
        },
    };
    if pid != own_pid {
        return Err(ActivationError::OtherProcess);
    }
    let count = match parse_decimal(count_text) {
        Some(c) => c,
        None => {
            return Err(ActivationError::MalformedCount);
        },
    };
    if count != 1 {
        return Err(ActivationError::UnsupportedCount { count });
    }
    Ok(LISTEN_FDS_START)
}

} // verus!
