//! Subprocess-under-injection detector.
//!
//! After a benchmark process run under the preload injection mechanism exits,
//! the profile directory is scanned for entries named `<pid>.out`.  An entry
//! whose pid is strictly greater than the benchmarked process's own pid is
//! evidence that the process spawned a child that escaped instrumentation,
//! which the injection mechanism does not support.  This is a heuristic by
//! naming convention only (pids can wrap and be reused), accepted as a
//! reliable practical signal within one invocation's short window.

use vstd::prelude::*;

verus! {

/// True of the decimal digit characters `'0'` through `'9'`.
pub open spec fn is_digit(c: char) -> bool {
    48 <= c as int && c as int <= 57
}

/// Numeric value of a single decimal digit character.
pub open spec fn digit_val(c: char) -> nat {
    (c as int - 48) as nat
}

/// True when every character of `s` is a decimal digit.
pub open spec fn all_digits(s: Seq<char>) -> bool {
    forall|i: int| 0 <= i < s.len() ==> is_digit(s[i])
}

/// Value of a sequence of decimal digit characters, most significant first.
pub open spec fn digits_val(s: Seq<char>) -> nat
    decreases s.len(),
{
    if s.len() == 0 {
        0
    } else {
        digits_val(s.drop_last()) * 10 + digit_val(s.last())
    }
}

/// True when `s` ends in `.out`.
pub open spec fn has_out_suffix(s: Seq<char>) -> bool {
    s.len() >= 4 && s[s.len() - 4] == '.' && s[s.len() - 3] == 'o' && s[s.len() - 2] == 'u'
        && s[s.len() - 1] == 't'
}

/// The part of `s` before the `.out` suffix.
pub open spec fn out_stem(s: Seq<char>) -> Seq<char> {
    s.take(s.len() - 4)
}

/// The pid encoded by a profile directory entry name, if the name matches
/// `<digits>.out` with a value that fits in a `u32`; `None` otherwise.
pub open spec fn entry_pid(s: Seq<char>) -> Option<u32> {
    if has_out_suffix(s) && out_stem(s).len() > 0 && all_digits(out_stem(s)) && digits_val(
        out_stem(s),
    ) <= u32::MAX {
        Some(digits_val(out_stem(s)) as u32)
    } else {
        None
    }
}

/// Prepending digits only grows the encoded value: once a prefix of `s`
/// already exceeds `bound`, the whole sequence does too.
proof fn lemma_digits_val_prefix_exceeds(s: Seq<char>, i: int, bound: nat)
    requires
        0 <= i <= s.len(),
        digits_val(s.take(i)) > bound,
    ensures
        digits_val(s) > bound,
    decreases s.len() - i,
{
    if i == s.len() {
        assert(s.take(i) =~= s);
    } else {
        assert(s.take(i + 1).drop_last() =~= s.take(i));
        assert(s.take(i + 1).last() == s[i]);
        assert(digits_val(s.take(i + 1)) == digits_val(s.take(i)) * 10 + digit_val(s[i]));
        assert(digits_val(s.take(i)) * 10 >= digits_val(s.take(i)));
        lemma_digits_val_prefix_exceeds(s, i + 1, bound);
    }
}

/// Parses a profile directory entry name of the shape `<digits>.out` into the
/// pid it encodes, exactly as `entry_pid` describes.
pub fn parse_entry_pid(name: &str) -> (r: Option<u32>)
    ensures
        r == entry_pid(name@),
{
    let n = name.unicode_len();
    if n < 5 {
        return None;
    }
    if name.get_char(n - 4) != '.' || name.get_char(n - 3) != 'o' || name.get_char(n - 2) != 'u'
        || name.get_char(n - 1) != 't' {
        return None;
    }
    let ghost stem = out_stem(name@);
    let m = n - 4;
    assert(stem.len() == m);
    let mut value: u64 = 0;
    let mut i: usize = 0;
    while i < m
        invariant
            0 <= i <= m,
            m == n - 4 < n == name@.len(),
            stem == out_stem(name@),
            stem.len() == m,
            has_out_suffix(name@),
            forall|j: int| 0 <= j < i ==> is_digit(stem[j]),
            value == digits_val(stem.take(i as int)),
            value <= u32::MAX,
        decreases m - i,
    {
        let c = name.get_char(i);
        assert(stem[i as int] == name@[i as int]);
        if c < '0' || c > '9' {
            assert(!is_digit(stem[i as int]));
            return None;
        }
        let d: u64 = (c as u64) - 48;
        let next: u64 = value * 10 + d;
        proof {
            assert(stem.take(i + 1).drop_last() =~= stem.take(i as int));
            assert(stem.take(i + 1).last() == stem[i as int]);
            assert(digits_val(stem.take(i + 1)) == digits_val(stem.take(i as int)) * 10
                + digit_val(stem[i as int]));
        }
        if next > u32::MAX as u64 {
            proof {
                lemma_digits_val_prefix_exceeds(stem, i + 1, u32::MAX as nat);
            }
            return None;
        }
        value = next;
        i = i + 1;
    }
    assert(stem.take(m as int) =~= stem);
    Some(value as u32)
}

/// Evidence that the benchmarked process spawned a subprocess under the
/// injection mechanism: a profile entry named by a pid greater than its own.
#[derive(Debug, Clone, Copy, PartialEq, Eq)]
pub struct SubprocessEvidence {
    /// Pid of the benchmarked process itself.
    pub benchmark_pid: u32,
    /// The greater pid found in the profile directory.
    pub subprocess_pid: u32,
}

/// True when entry `i` of `names` is evidence against `pid`: it encodes a pid
/// strictly greater than `pid`.
pub open spec fn offending(names: Seq<Seq<char>>, i: int, pid: u32) -> bool {
    entry_pid(names[i]) matches Some(p) && p > pid
}

/// True when some entry of `names` is evidence against `pid`.
pub open spec fn evidence(names: Seq<Seq<char>>, pid: u32) -> bool {
    exists|i: int| 0 <= i < names.len() && offending(names, i, pid)
}

/// True when `sub` is the pid of the first entry of `names`, in listing
/// order, that is evidence against `pid`.
pub open spec fn first_offender(names: Seq<Seq<char>>, pid: u32, sub: u32) -> bool {
    exists|i: int|
        0 <= i < names.len() && offending(names, i, pid) && entry_pid(names[i]) == Some(sub) && (
        forall|j: int| 0 <= j < i ==> !offending(names, j, pid))
}

/// Audits the profile directory listing after a benchmark process exited.
///
/// `listing` is `None` when the profile-folder environment variable is unset:
/// the audit is then inapplicable and passes unconditionally.  Otherwise the
/// audit fails exactly when some entry named `<digits>.out` encodes a pid
/// strictly greater than `pid`, and reports the first such entry.  The
/// listing is only read, never modified.
pub fn audit(listing: Option<&Vec<String>>, pid: u32) -> (r: Result<(), SubprocessEvidence>)
    ensures
        listing is None ==> r is Ok,
        listing matches Some(l) ==> ((r is Ok) <==> !evidence(l.deep_view(), pid)),
        r matches Err(e) ==> e.benchmark_pid == pid,
        r matches Err(e) ==> (listing matches Some(l) && first_offender(
            l.deep_view(),
            pid,
            e.subprocess_pid,
        )),
{
    let names = match listing {
        None => {
            return Ok(());
        },
        Some(names) => names,
    };
    let ghost views = names.deep_view();
    assert(views.len() == names@.len());
    let mut i: usize = 0;
    while i < names.len()
        invariant
            0 <= i <= names.len(),
            listing == Some(names),
            views == names.deep_view(),
            views.len() == names@.len(),
            forall|j: int| 0 <= j < i ==> !offending(views, j, pid),
        decreases names.len() - i,
    {
        assert(views[i as int] == names@[i as int]@);
        if let Some(p) = parse_entry_pid(names[i].as_str()) {
            if p > pid {
                proof {
                    assert(entry_pid(views[i as int]) == Some(p));
                    assert(offending(views, i as int, pid));
                    assert(first_offender(views, pid, p));
                }
                return Err(SubprocessEvidence { benchmark_pid: pid, subprocess_pid: p });
            }
        }
        assert(!offending(views, i as int, pid));
        i = i + 1;
    }
    assert(forall|j: int| 0 <= j < views.len() ==> !offending(views, j, pid));
    Ok(())
}

} // verus!
