//! Reading the name out of stored character data: a base64 payload carrying
//! a fixed-layout binary record whose name field is ten little-endian UTF-16
//! code units, terminated early by a zero unit.

use vstd::prelude::*;
use vstd::bytes::{spec_u16_from_le_bytes, u16_from_le_bytes};
use vstd::slice::slice_subrange;
use crate::encoding::{base64_of, base64_decode, string_from_utf16, utf16_chars_of};

verus! {

/// The byte length of the stored character record; shorter payloads are
/// rejected before any field is read.
pub const MII_RECORD_LEN: usize = 46;

/// Where the name field starts in the record.
pub const MII_NAME_OFFSET: usize = 26;

/// The ten UTF-16 code units of the record's name field.
pub open spec fn mii_name_units(b: Seq<u8>) -> Seq<u16> {
    Seq::new(10, |i: int| spec_u16_from_le_bytes(b.subrange(26 + 2 * i, 28 + 2 * i)))
}

/// The index of the first zero unit, or the full length.
pub open spec fn first_zero(u: Seq<u16>) -> int
    decreases u.len(),
{
    if u.len() == 0 {
        0
    } else if u.first() == 0 {
        0
    } else {
        1 + first_zero(u.drop_first())
    }
}

/// The name a stored character record denotes: the units before the first
/// zero, read as UTF-16 — where the record is long enough and the units are
/// well-formed.
pub open spec fn spec_mii_name(b: Seq<u8>) -> Option<Seq<char>> {
    if b.len() < 46 {
        None
    } else {
        let units = mii_name_units(b);
        utf16_chars_of(units.take(first_zero(units)))
    }
}

/// A parsed character: only the name is read out of the record.
#[derive(Debug)]
pub struct MiiData {
    pub name: String,
}

proof fn lemma_first_zero_at(u: Seq<u16>, i: int)
    requires
        0 <= i <= u.len(),
        forall|j: int| 0 <= j < i ==> u[j] != 0,
        i < u.len() ==> u[i] == 0,
    ensures
        first_zero(u) == i,
    decreases u.len(),
{
    if u.len() > 0 && u.first() != 0 {
        lemma_first_zero_at(u.drop_first(), i - 1);
    }
}

impl MiiData {
    /// Read the name out of base64-carried character data. Anything that is
    /// not canonical base64 of a long-enough record with a well-formed name
    /// is None.
    pub fn read(data: &str) -> (r: Option<MiiData>)
        ensures
            forall|v: Seq<u8>| data@ == base64_of(v) ==> (match spec_mii_name(v) {
                Some(nm) => r matches Some(m) && m.name@ == nm,
                None => r is None,
            }),
            (forall|v: Seq<u8>| data@ != base64_of(v)) ==> r is None,
    {
        let bytes = match base64_decode(data) {
            Some(v) => v,
            None => {
                return None;
            },
        };
        if bytes.len() < MII_RECORD_LEN {
            return None;
        }
        let mut units: Vec<u16> = Vec::new();
        let mut i: usize = 0;
        while i < 10
            invariant
                i <= 10,
                bytes@.len() >= 46,
                units@.len() == i,
                forall|j: int| 0 <= j < i ==> units@[j] == mii_name_units(bytes@)[j],
            decreases 10 - i,
        {
            let lo = MII_NAME_OFFSET + 2 * i;
            let unit = u16_from_le_bytes(slice_subrange(bytes.as_slice(), lo, lo + 2));
            units.push(unit);
            i = i + 1;
        }
        proof {
            assert(units@ =~= mii_name_units(bytes@));
        }
        let mut idx: usize = 0;
        while idx < 10 && units[idx] != 0
            invariant
                idx <= 10,
                units@.len() == 10,
                forall|j: int| 0 <= j < idx ==> units@[j] != 0,
            decreases 10 - idx,
        {
            idx = idx + 1;
        }
        proof {
            lemma_first_zero_at(units@, idx as int);
        }
        let name_units = slice_subrange(units.as_slice(), 0, idx);
        proof {
            assert(name_units@ =~= units@.take(first_zero(units@)));
        }
        match string_from_utf16(name_units) {
            Some(name) => Some(MiiData { name }),
            None => None,
        }
    }
}

} // verus!
