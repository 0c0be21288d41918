//! Injection compatibility checker.
//!
//! Before a benchmark command is spawned under the preload injection
//! mechanism, its executable is inspected statically to predict whether the
//! dynamic linker will honor the preload environment variable at process
//! start.  A statically linked target, or one whose program interpreter is
//! not a standard Unix dynamic loader, would start without the injected
//! instrumentation and silently report a meaningless zero-cost measurement,
//! so such a target is rejected before any process is created.  The
//! prediction is best effort: the inspection reads the executable's bytes
//! only and spawns nothing.
//!
//! The inspection understands little-endian 64-bit ELF images: the image
//! must carry a `PT_INTERP` program header whose interpreter path names a
//! loader of the standard `ld-` family.

use vstd::prelude::*;

verus! {

/// Why a target executable was predicted not to honor preload injection.
#[derive(Debug, Clone, Copy, PartialEq, Eq)]
pub enum IncompatibleReason {
    /// The file does not start with the ELF magic.
    NotElf,
    /// The image is not little-endian 64-bit ELF, the only layout the
    /// injection mechanism is used with.
    UnsupportedLayout,
    /// The program header table or the interpreter segment lies outside the
    /// file, or the header entries are too small to read.
    MalformedHeaders,
    /// No `PT_INTERP` program header: the target is statically linked and
    /// the dynamic linker never runs for it.
    StaticallyLinked,
    /// The program interpreter is not a standard `ld-` family loader.
    NonStandardLoader,
}

/// The 16-bit little-endian value at offset `off` of `b`.
pub open spec fn le16(b: Seq<u8>, off: int) -> nat {
    b[off] as nat + 256 * (b[off + 1] as nat)
}

/// The 32-bit little-endian value at offset `off` of `b`.
pub open spec fn le32(b: Seq<u8>, off: int) -> nat {
    b[off] as nat + 0x100 * (b[off + 1] as nat) + 0x10000 * (b[off + 2] as nat) + 0x1000000 * (b[off
        + 3] as nat)
}

/// The 64-bit little-endian value at offset `off` of `b`.
pub open spec fn le64(b: Seq<u8>, off: int) -> nat {
    le32(b, off) + 0x100000000 * le32(b, off + 4)
}

/// Reads the 16-bit little-endian value at `off`.
fn read_le16(b: &Vec<u8>, off: usize) -> (r: u16)
    requires
        off + 2 <= b.len(),
    ensures
        r as nat == le16(b@, off as int),
{
    b[off] as u16 + 256 * (b[off + 1] as u16)
}

/// Reads the 32-bit little-endian value at `off`.
fn read_le32(b: &Vec<u8>, off: usize) -> (r: u32)
    requires
        off + 4 <= b.len(),
    ensures
        r as nat == le32(b@, off as int),
{
    b[off] as u32 + 0x100 * (b[off + 1] as u32) + 0x10000 * (b[off + 2] as u32) + 0x1000000 * (b[off
        + 3] as u32)
}

/// Reads the 64-bit little-endian value at `off`.
fn read_le64(b: &Vec<u8>, off: usize) -> (r: u64)
    requires
        off + 8 <= b.len(),
    ensures
        r as nat == le64(b@, off as int),
{
    let lo = read_le32(b, off);
    let hi = read_le32(b, off + 4);
    lo as u64 + 0x100000000 * (hi as u64)
}

/// True when `b` starts with the four ELF magic bytes.
pub open spec fn has_elf_magic(b: Seq<u8>) -> bool {
    b.len() >= 4 && b[0] == 0x7f && b[1] == 0x45 && b[2] == 0x4c && b[3] == 0x46
}

/// True when the image declares the one layout the checker understands:
/// 64-bit class, little-endian data, with a complete 64-byte ELF header.
pub open spec fn is_elf64_le(b: Seq<u8>) -> bool {
    b.len() >= 64 && b[4] == 2 && b[5] == 1
}

/// Offset of the program header table.
pub open spec fn phoff(b: Seq<u8>) -> nat {
    le64(b, 32)
}

/// Size of one program header table entry.
pub open spec fn phentsize(b: Seq<u8>) -> nat {
    le16(b, 54)
}

/// Number of program header table entries.
pub open spec fn phnum(b: Seq<u8>) -> nat {
    le16(b, 56)
}

/// True when the whole program header table lies inside the file and each
/// entry is large enough to carry the fields the checker reads.
pub open spec fn ph_table_wf(b: Seq<u8>) -> bool {
    phentsize(b) >= 56 && phoff(b) + phnum(b) * phentsize(b) <= b.len()
}

/// Offset of program header entry `i`.
pub open spec fn ph_off(b: Seq<u8>, i: int) -> int {
    phoff(b) + i * phentsize(b)
}

/// True when program header entry `i` has type `PT_INTERP`.
pub open spec fn is_interp(b: Seq<u8>, i: int) -> bool {
    le32(b, ph_off(b, i)) == 3
}

/// Index of the first `PT_INTERP` entry at or after `i`, if any.
pub open spec fn first_interp_from(b: Seq<u8>, i: int) -> Option<int>
    decreases phnum(b) - i,
{
    if i < 0 || i >= phnum(b) {
        None
    } else if is_interp(b, i) {
        Some(i)
    } else {
        first_interp_from(b, i + 1)
    }
}

/// File offset of the segment described by program header entry `i`.
pub open spec fn seg_offset(b: Seq<u8>, i: int) -> nat {
    le64(b, ph_off(b, i) + 8)
}

/// File size of the segment described by program header entry `i`.
pub open spec fn seg_filesz(b: Seq<u8>, i: int) -> nat {
    le64(b, ph_off(b, i) + 32)
}

/// True when the segment of entry `i` lies inside the file.
pub open spec fn seg_wf(b: Seq<u8>, i: int) -> bool {
    seg_offset(b, i) + seg_filesz(b, i) <= b.len()
}

/// The bytes of the segment described by entry `i`.
pub open spec fn seg_bytes(b: Seq<u8>, i: int) -> Seq<u8> {
    b.subrange(seg_offset(b, i) as int, (seg_offset(b, i) + seg_filesz(b, i)) as int)
}

/// True when `pat` occurs in `s` starting at `i`.
pub open spec fn match_at(s: Seq<u8>, pat: Seq<u8>, i: int) -> bool {
    0 <= i && i + pat.len() <= s.len() && s.subrange(i, i + pat.len()) == pat
}

/// True when `pat` occurs somewhere in `s`.
pub open spec fn contains_seq(s: Seq<u8>, pat: Seq<u8>) -> bool {
    exists|i: int| match_at(s, pat, i)
}

/// The byte pattern `ld-`, common to the standard Unix dynamic loaders'
/// file names.
pub open spec fn loader_pattern() -> Seq<u8> {
    seq![0x6cu8, 0x64u8, 0x2du8]
}

/// True when the interpreter path in `s` names a standard loader.
pub open spec fn loader_ok(s: Seq<u8>) -> bool {
    contains_seq(s, loader_pattern())
}

/// The checker's verdict on an executable image, in full: each rejection
/// reason is tied to exactly the images it is reported for.
pub open spec fn compat_verdict(b: Seq<u8>) -> Result<(), IncompatibleReason> {
    if !has_elf_magic(b) {
        Err(IncompatibleReason::NotElf)
    } else if !is_elf64_le(b) {
        Err(IncompatibleReason::UnsupportedLayout)
    } else if !ph_table_wf(b) {
        Err(IncompatibleReason::MalformedHeaders)
    } else {
        match first_interp_from(b, 0) {
            None => Err(IncompatibleReason::StaticallyLinked),
            Some(i) => if !seg_wf(b, i) {
                Err(IncompatibleReason::MalformedHeaders)
            } else if !loader_ok(seg_bytes(b, i)) {
                Err(IncompatibleReason::NonStandardLoader)
            } else {
                Ok(())
            },
        }
    }
}

/// Scans `s` for an occurrence of the non-empty pattern `pat`.
fn find_pattern(s: &Vec<u8>, pat: &Vec<u8>) -> (r: bool)
    requires
        pat@.len() >= 1,
    ensures
        r == contains_seq(s@, pat@),
{
    let slen = s.len();
    let plen = pat.len();
    if plen > slen {
        proof {
            assert(forall|i: int| !match_at(s@, pat@, i));
        }
        return false;
    }
    let mut i: usize = 0;
    let last = slen - plen;
    while i <= last
        invariant
            0 <= i <= last + 1,
            slen == s@.len(),
            plen == pat@.len(),
            1 <= plen <= slen,
            last == slen - plen,
            forall|k: int| 0 <= k < i ==> !match_at(s@, pat@, k),
        decreases last - i + 1,
    {
        let mut j: usize = 0;
        while j < plen && s[i + j] == pat[j]
            invariant
                0 <= j <= plen,
                0 <= i <= last,
                slen == s@.len(),
                plen == pat@.len(),
                last == slen - plen,
                forall|k: int| 0 <= k < j ==> s@[i + k] == pat@[k],
            decreases plen - j,
        {
            j = j + 1;
        }
        if j == plen {
            proof {
                assert(s@.subrange(i as int, i + pat@.len()) =~= pat@);
                assert(match_at(s@, pat@, i as int));
            }
            return true;
        }
        proof {
            assert(s@[i + j] != pat@[j as int]);
            assert(s@.subrange(i as int, i + pat@.len())[j as int] != pat@[j as int]);
            assert(!match_at(s@, pat@, i as int));
        }
        i = i + 1;
    }
    proof {
        assert(forall|k: int| !match_at(s@, pat@, k));
    }
    false
}

/// When no `PT_INTERP` entry lies below `i`, the first one overall is the
/// first one at or after `i`.
proof fn lemma_first_interp_skip(b: Seq<u8>, i: int)
    requires
        0 <= i <= phnum(b),
        forall|j: int| 0 <= j < i ==> !is_interp(b, j),
    ensures
        first_interp_from(b, 0) == first_interp_from(b, i),
    decreases i,
{
    if i > 0 {
        lemma_first_interp_skip(b, i - 1);
        assert(!is_interp(b, i - 1));
    }
}

/// Predicts whether the executable image `bytes` will honor preload
/// injection, exactly as `compat_verdict` describes: the image must be a
/// little-endian 64-bit ELF whose first `PT_INTERP` segment names a standard
/// `ld-` family loader.
pub fn check_ld_preload_compatible(bytes: &Vec<u8>) -> (r: Result<(), IncompatibleReason>)
    ensures
        r == compat_verdict(bytes@),
{
    let n = bytes.len();
    if n < 4 || bytes[0] != 0x7f || bytes[1] != 0x45 || bytes[2] != 0x4c || bytes[3] != 0x46 {
        return Err(IncompatibleReason::NotElf);
    }
    if n < 64 || bytes[4] != 2 || bytes[5] != 1 {
        return Err(IncompatibleReason::UnsupportedLayout);
    }
    let table_off = read_le64(bytes, 32);
    let entsize = read_le16(bytes, 54);
    let num = read_le16(bytes, 56);
    proof {
        assert((num as nat) * (entsize as nat) <= 65535 * 65535) by (nonlinear_arith)
            requires
                num <= 65535,
                entsize <= 65535,
        ;
    }
    let table_len: u64 = (num as u64) * (entsize as u64);
    if entsize < 56 || table_off > n as u64 || table_len > n as u64 - table_off {
        assert(!ph_table_wf(bytes@));
        return Err(IncompatibleReason::MalformedHeaders);
    }
    assert(ph_table_wf(bytes@));
    let base = table_off as usize;
    let mut i: u16 = 0;
    while i < num
        invariant
            0 <= i <= num,
            n == bytes@.len(),
            has_elf_magic(bytes@),
            is_elf64_le(bytes@),
            num as nat == phnum(bytes@),
            entsize as nat == phentsize(bytes@),
            base as nat == phoff(bytes@),
            ph_table_wf(bytes@),
            base + (num as nat) * (entsize as nat) <= bytes@.len(),
            forall|j: int| 0 <= j < i ==> !is_interp(bytes@, j),
        decreases num - i,
    {
        proof {
            assert((i as nat) * (entsize as nat) + entsize as nat <= (num as nat) * (
            entsize as nat)) by (nonlinear_arith)
                requires
                    i < num,
                    entsize >= 0,
            ;
        }
        let e_off: usize = base + (i as usize) * (entsize as usize);
        proof {
            assert(e_off + entsize <= bytes@.len());
            assert(e_off == ph_off(bytes@, i as int));
        }
        let ptype = read_le32(bytes, e_off);
        if ptype == 3 {
            proof {
                lemma_first_interp_skip(bytes@, i as int);
                assert(first_interp_from(bytes@, i as int) == Some(i as int));
            }
            let seg_off = read_le64(bytes, e_off + 8);
            let seg_sz = read_le64(bytes, e_off + 32);
            if seg_off > n as u64 || seg_sz > n as u64 - seg_off {
                assert(!seg_wf(bytes@, i as int));
                return Err(IncompatibleReason::MalformedHeaders);
            }
            assert(seg_wf(bytes@, i as int));
            let lo = seg_off as usize;
            let hi = lo + seg_sz as usize;
            let mut seg: Vec<u8> = Vec::new();
            let mut k: usize = lo;
            while k < hi
                invariant
                    lo <= k <= hi <= bytes@.len(),
                    seg@ =~= bytes@.subrange(lo as int, k as int),
                decreases hi - k,
            {
                seg.push(bytes[k]);
                assert(seg@ =~= bytes@.subrange(lo as int, k + 1));
                k = k + 1;
            }
            assert(seg@ =~= seg_bytes(bytes@, i as int));
            let mut pat: Vec<u8> = Vec::new();
            pat.push(0x6c);
            pat.push(0x64);
            pat.push(0x2d);
            assert(pat@ =~= loader_pattern());
            if find_pattern(&seg, &pat) {
                return Ok(());
            } else {
                return Err(IncompatibleReason::NonStandardLoader);
            }
        }
        assert(!is_interp(bytes@, i as int));
        i = i + 1;
    }
    proof {
        lemma_first_interp_skip(bytes@, num as int);
        assert(first_interp_from(bytes@, 0) is None);
    }
    Err(IncompatibleReason::StaticallyLinked)
}

} // verus!
