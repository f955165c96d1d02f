//! The two values that validation takes from the replay's trailing metadata
//! document, a UBJSON object: the last frame's index and the start time.
use vstd::prelude::*;

use crate::reader::{fits, get_i32, get_u16, get_u8, i32_at, u16_at, u32_at};

verus! {

/// The key of the last frame's index.
pub open spec fn last_frame_key() -> Seq<u8> {
    seq![108u8, 97u8, 115u8, 116u8, 70u8, 114u8, 97u8, 109u8, 101u8]
}

/// The key of the start time.
pub open spec fn start_at_key() -> Seq<u8> {
    seq![115u8, 116u8, 97u8, 114u8, 116u8, 65u8, 116u8]
}

/// The big-endian 64-bit value at `i` of `s`, as a signed integer.
pub open spec fn i64_at(s: Seq<u8>, i: int) -> i64 {
    (((u32_at(s, i) as u64) << 32u64) | (u32_at(s, i + 4) as u64)) as i64
}

/// The UBJSON integer whose type marker is at `i`: its value and the
/// position after it.
pub open spec fn ubj_int(s: Seq<u8>, i: int) -> Option<(int, int)> {
    if !fits(s, i, 1) {
        None
    } else if s[i] == 0x69 && fits(s, i + 1, 1) {
        Some(((s[i + 1] as i8) as int, i + 2))
    } else if s[i] == 0x55 && fits(s, i + 1, 1) {
        Some((s[i + 1] as int, i + 2))
    } else if s[i] == 0x49 && fits(s, i + 1, 2) {
        Some(((u16_at(s, i + 1) as i16) as int, i + 3))
    } else if s[i] == 0x6C && fits(s, i + 1, 4) {
        Some((i32_at(s, i + 1) as int, i + 5))
    } else if s[i] == 0x4C && fits(s, i + 1, 8) {
        Some((i64_at(s, i + 1) as int, i + 9))
    } else {
        None
    }
}

/// The position after the length-prefixed bytes at `i`, and where they start.
pub open spec fn ubj_bytes(s: Seq<u8>, i: int) -> Option<(int, int)> {
    match ubj_int(s, i) {
        Some((n, e)) => if n >= 0 && e + n <= s.len() {
            Some((e, e + n))
        } else {
            None
        },
        None => None,
    }
}

/// The position after the scalar value (null, no-op, boolean, number,
/// character or string) whose marker is at `i`; containers are not scalars.
pub open spec fn scalar_end(s: Seq<u8>, i: int) -> Option<int> {
    if !fits(s, i, 1) {
        None
    } else {
        let m = s[i];
        let width: int = if m == 0x5A || m == 0x4E || m == 0x54 || m == 0x46 {
            0
        } else if m == 0x69 || m == 0x55 || m == 0x43 {
            1
        } else if m == 0x49 {
            2
        } else if m == 0x6C || m == 0x64 {
            4
        } else if m == 0x4C || m == 0x44 {
            8
        } else {
            -1
        };
        if width >= 0 {
            if fits(s, i + 1, width) {
                Some(i + 1 + width)
            } else {
                None
            }
        } else if m == 0x53 || m == 0x48 {
            match ubj_bytes(s, i + 1) {
                Some((a, b)) => Some(b),
                None => None,
            }
        } else {
            None
        }
    }
}

/// What the metadata gives: the last frame's index and the start time's bytes.
#[derive(Debug, Clone, PartialEq, Eq)]
pub struct Metadata {
    pub last_frame: Option<i64>,
    pub start_at: Option<Vec<u8>>,
}

/// The two values found while walking the object's entries from `i`, over
/// scalar values only: the walk ends at the object's end, at a container
/// value, or at anything malformed. A later entry for a key replaces an
/// earlier one.
pub open spec fn scan(s: Seq<u8>, i: int, last: Option<int>, start: Option<Seq<u8>>) -> (Option<int>, Option<Seq<u8>>)
    decreases s.len() - i,
{
    if i < 0 || i >= s.len() || s[i] == 0x7D {
        (last, start)
    } else {
        match ubj_bytes(s, i) {
            None => (last, start),
            Some((ks, j)) => {
                let key = s.subrange(ks, j);
                match scalar_end(s, j) {
                    None => (last, start),
                    Some(e) => if key == last_frame_key() && ubj_int(s, j) is Some {
                        scan(s, e, Some(ubj_int(s, j)->Some_0.0), start)
                    } else if key == start_at_key() && s[j] == 0x53 {
                        let (a, b) = ubj_bytes(s, j + 1)->Some_0;
                        scan(s, e, last, Some(s.subrange(a, b)))
                    } else {
                        scan(s, e, last, start)
                    },
                }
            },
        }
    }
}

proof fn lemma_int_advances(s: Seq<u8>, i: int)
    ensures
        ubj_int(s, i) matches Some((n, e)) ==> i + 2 <= e <= s.len(),
        ubj_bytes(s, i) matches Some((a, b)) ==> i + 2 <= a <= b <= s.len(),
        scalar_end(s, i) matches Some(e) ==> i < e <= s.len(),
{
    lemma_int_advances_int(s, i + 1);
}

proof fn lemma_int_advances_int(s: Seq<u8>, i: int)
    ensures
        ubj_int(s, i) matches Some((n, e)) ==> i + 2 <= e <= s.len(),
{
}

fn read_int(s: &[u8], i: usize) -> (r: Option<(i64, usize)>)
    ensures
        match ubj_int(s@, i as int) {
            Some((n, e)) => r matches Some((v, f)) && v == n && f == e,
            None => r is None,
        },
{
    let len = s.len();
    if i >= len {
        return None;
    }
    let m = get_u8(s, i);
    let rest = len - i - 1;
    if m == 0x69 && rest >= 1 {
        Some((get_u8(s, i + 1) as i8 as i64, i + 2))
    } else if m == 0x55 && rest >= 1 {
        Some((get_u8(s, i + 1) as i64, i + 2))
    } else if m == 0x49 && rest >= 2 {
        Some((get_u16(s, i + 1) as i16 as i64, i + 3))
    } else if m == 0x6C && rest >= 4 {
        Some((get_i32(s, i + 1) as i64, i + 5))
    } else if m == 0x4C && rest >= 8 {
        let hi = crate::reader::get_u32(s, i + 1) as u64;
        let lo = crate::reader::get_u32(s, i + 5) as u64;
        Some((((hi << 32u64) | lo) as i64, i + 9))
    } else {
        None
    }
}

fn read_bytes(s: &[u8], i: usize) -> (r: Option<(usize, usize)>)
    ensures
        match ubj_bytes(s@, i as int) {
            Some((a, b)) => r == Some((a as usize, b as usize)),
            None => r is None,
        },
{
    match read_int(s, i) {
        Some((n, e)) => {
            if n >= 0 && (n as u64) <= (s.len() - e) as u64 {
                Some((e, e + n as usize))
            } else {
                None
            }
        },
        None => None,
    }
}

fn read_scalar_end(s: &[u8], i: usize) -> (r: Option<usize>)
    ensures
        match scalar_end(s@, i as int) {
            Some(e) => r == Some(e as usize),
            None => r is None,
        },
{
    let len = s.len();
    if i >= len {
        return None;
    }
    let m = get_u8(s, i);
    let width: usize = if m == 0x5A || m == 0x4E || m == 0x54 || m == 0x46 {
        0
    } else if m == 0x69 || m == 0x55 || m == 0x43 {
        1
    } else if m == 0x49 {
        2
    } else if m == 0x6C || m == 0x64 {
        4
    } else if m == 0x4C || m == 0x44 {
        8
    } else if m == 0x53 || m == 0x48 {
        return match read_bytes(s, i + 1) {
            Some((a, b)) => Some(b),
            None => None,
        };
    } else {
        return None;
    };
    if len - i - 1 >= width {
        Some(i + 1 + width)
    } else {
        None
    }
}

fn key_is(s: &[u8], a: usize, b: usize, key: &[u8]) -> (r: bool)
    requires
        a <= b <= s@.len(),
    ensures
        r == (s@.subrange(a as int, b as int) == key@),
{
    if b - a != key.len() {
        proof {
            assert(s@.subrange(a as int, b as int).len() != key@.len());
        }
        return false;
    }
    let mut k: usize = 0;
    while k < key.len()
        invariant
            b - a == key@.len(),
            a <= b <= s@.len(),
            k <= key@.len(),
            forall|j: int| 0 <= j < k ==> s@[a + j] == key@[j],
        decreases key@.len() - k,
    {
        if s[a + k] != key[k] {
            proof {
                assert(s@.subrange(a as int, b as int)[k as int] != key@[k as int]);
            }
            return false;
        }
        k = k + 1;
    }
    proof {
        assert(s@.subrange(a as int, b as int) =~= key@);
    }
    true
}

fn copy_range(s: &[u8], a: usize, b: usize) -> (r: Vec<u8>)
    requires
        a <= b <= s@.len(),
    ensures
        r@ == s@.subrange(a as int, b as int),
{
    let mut out: Vec<u8> = Vec::new();
    let mut k: usize = a;
    while k < b
        invariant
            a <= k <= b,
            b <= s@.len(),
            out@ == s@.subrange(a as int, k as int),
        decreases b - k,
    {
        out.push(s[k]);
        proof {
            assert(out@ =~= s@.subrange(a as int, k + 1));
        }
        k = k + 1;
    }
    out
}

/// Walks the metadata object's entries from `at` and takes the last frame's
/// index and the start time from them.
pub fn read_metadata(s: &[u8], at: usize) -> (r: Metadata)
    ensures
        ({
            let (last, start) = scan(s@, at as int, None, None);
            &&& match last {
                Some(n) => r.last_frame == Some(n as i64),
                None => r.last_frame is None,
            }
            &&& match start {
                Some(b) => r.start_at matches Some(v) && v@ == b,
                None => r.start_at is None,
            }
        }),
{
    let last_key: [u8; 9] = [108, 97, 115, 116, 70, 114, 97, 109, 101];
    let start_key: [u8; 7] = [115, 116, 97, 114, 116, 65, 116];
    proof {
        assert(last_key@ =~= last_frame_key());
        assert(start_key@ =~= start_at_key());
    }
    let mut i: usize = at;
    let mut last: Option<i64> = None;
    let mut start: Option<Vec<u8>> = None;
    let ghost mut glast: Option<int> = None;
    let ghost mut gstart: Option<Seq<u8>> = None;
    loop
        invariant
            last_key@ == last_frame_key(),
            start_key@ == start_at_key(),
            scan(s@, i as int, glast, gstart) == scan(s@, at as int, None, None),
            match glast {
                Some(n) => last == Some(n as i64) && i64::MIN <= n <= i64::MAX,
                None => last is None,
            },
            match gstart {
                Some(b) => start matches Some(v) && v@ == b,
                None => start is None,
            },
        ensures
            scan(s@, at as int, None, None) == (glast, gstart),
            match glast {
                Some(n) => last == Some(n as i64) && i64::MIN <= n <= i64::MAX,
                None => last is None,
            },
            match gstart {
                Some(b) => start matches Some(v) && v@ == b,
                None => start is None,
            },
        decreases s@.len() - i,
    {
        if i >= s.len() || s[i] == 0x7D {
            break;
        }
        proof {
            lemma_int_advances(s@, i as int);
        }
        let (ks, j) = match read_bytes(s, i) {
            Some(x) => x,
            None => break,
        };
        proof {
            lemma_int_advances(s@, j as int);
        }
        let e = match read_scalar_end(s, j) {
            Some(x) => x,
            None => break,
        };
        if key_is(s, ks, j, last_key.as_slice()) && read_int(s, j).is_some() {
            let (n, f) = read_int(s, j).unwrap();
            last = Some(n);
            proof {
                glast = Some(n as int);
            }
        } else if key_is(s, ks, j, start_key.as_slice()) && s[j] == 0x53 {
            proof {
                lemma_int_advances(s@, j + 1);
            }
            let (a, b) = read_bytes(s, j + 1).unwrap();
            start = Some(copy_range(s, a, b));
            proof {
                gstart = Some(s@.subrange(a as int, b as int));
            }
        }
        i = e;
    }
    Metadata { last_frame: last, start_at: start }
}

} // verus!
