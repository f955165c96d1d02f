//! The event payload table that opens the stream: the payload size of
//! every event code of the file.
use vstd::prelude::*;

use crate::reader::{fits, get_u16, get_u8, u16_at};
use crate::utils::ParseError;

verus! {

/// Code of the event that lists every event's payload size.
pub const EVENT_PAYLOADS: u8 = 0x35;

/// The payload size that the file declares for each event code.
#[derive(Debug, Clone)]
pub struct EventSizes {
    sizes: Vec<Option<u16>>,
}

/// A table that declares no size.
pub open spec fn empty_table() -> Seq<Option<u16>> {
    Seq::new(256, |i: int| None)
}

/// The table after the first `k` entries of the list at `start` of `s`,
/// each entry a code byte and a big-endian 16-bit size; a later entry for a
/// code replaces an earlier one.
pub open spec fn table_after(s: Seq<u8>, start: int, k: nat) -> Seq<Option<u16>>
    decreases k,
{
    if k == 0 {
        empty_table()
    } else {
        let at = start + 3 * (k - 1);
        table_after(s, start, (k - 1) as nat).update(s[at] as int, Some(u16_at(s, at + 1)))
    }
}

/// True where the payload table's declared length `l` counts its own length
/// byte and whole three-byte entries.
pub open spec fn table_length_valid(l: u8) -> bool {
    l >= 1 && (l - 1) % 3 == 0
}

/// The outcome of reading the payload table at `at` of `s`: the table and the
/// position after it, or the error.
pub open spec fn spec_event_sizes(s: Seq<u8>, at: int) -> Result<(Seq<Option<u16>>, int), ParseError> {
    if !fits(s, at, 1) {
        Err(ParseError::UnexpectedEnd)
    } else if s[at] != EVENT_PAYLOADS {
        Err(ParseError::NotPayloadTable)
    } else if !fits(s, at, 2) {
        Err(ParseError::UnexpectedEnd)
    } else if !table_length_valid(s[at + 1]) {
        Err(ParseError::PayloadTableLength)
    } else if !fits(s, at + 1, s[at + 1] as int) {
        Err(ParseError::UnexpectedEnd)
    } else {
        Ok((table_after(s, at + 2, ((s[at + 1] - 1) / 3) as nat), at + 1 + s[at + 1]))
    }
}

impl EventSizes {
    pub closed spec fn view(&self) -> Seq<Option<u16>> {
        self.sizes@
    }

    pub closed spec fn wf(&self) -> bool {
        self.sizes@.len() == 256
    }

    /// The declared payload size of `code`, if the file declares one.
    pub fn size_of(&self, code: u8) -> (r: Option<u16>)
        requires
            self.wf(),
        ensures
            r == self@[code as int],
    {
        self.sizes[code as usize]
    }

    /// Reads the event payload table at `at` of `file`: its code, its length
    /// `L`, then `(L - 1) / 3` entries of a code and a size.
    pub fn parse(file: &[u8], at: usize) -> (r: Result<(EventSizes, usize), ParseError>)
        ensures
            match spec_event_sizes(file@, at as int) {
                Ok((t, next)) => r matches Ok((e, n)) && e.wf() && e@ == t && n == next,
                Err(err) => r == Err::<(EventSizes, usize), ParseError>(err),
            },
    {
        let len = file.len();
        if at >= len {
            return Err(ParseError::UnexpectedEnd);
        }
        if get_u8(file, at) != EVENT_PAYLOADS {
            return Err(ParseError::NotPayloadTable);
        }
        if len - at < 2 {
            return Err(ParseError::UnexpectedEnd);
        }
        let l = get_u8(file, at + 1);
        if !(l >= 1 && (l - 1) % 3 == 0) {
            return Err(ParseError::PayloadTableLength);
        }
        if len - (at + 1) < l as usize {
            return Err(ParseError::UnexpectedEnd);
        }
        let n: usize = ((l - 1) / 3) as usize;
        let start = at + 2;
        let mut sizes: Vec<Option<u16>> = Vec::new();
        let mut i: usize = 0;
        while i < 256
            invariant
                i <= 256,
                sizes@ == Seq::new(i as nat, |j: int| None::<u16>),
            decreases 256 - i,
        {
            sizes.push(None);
            proof {
                assert(sizes@ =~= Seq::new((i + 1) as nat, |j: int| None::<u16>));
            }
            i = i + 1;
        }
        let mut k: usize = 0;
        while k < n
            invariant
                k <= n,
                n == (l - 1) / 3,
                l == file@[at + 1],
                start == at + 2,
                at + 1 + l <= file@.len(),
                len == file@.len(),
                sizes@ == table_after(file@, start as int, k as nat),
                sizes@.len() == 256,
            decreases n - k,
        {
            let p = start + 3 * k;
            let code = get_u8(file, p);
            let size = get_u16(file, p + 1);
            sizes.set(code as usize, Some(size));
            proof {
                assert(table_after(file@, start as int, (k + 1) as nat) == table_after(
                    file@,
                    start as int,
                    k as nat,
                ).update(file@[p as int] as int, Some(u16_at(file@, p + 1))));
            }
            k = k + 1;
        }
        Ok((EventSizes { sizes }, at + 1 + l as usize))
    }
}

} // verus!
