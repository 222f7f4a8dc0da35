//! Timezone catalogue entries as the content endpoints serve them. Loading
//! the catalogue from disk is the callers' concern; the offset lookup the
//! profile builder needs is stated here.

use vstd::prelude::*;
use crate::text::str_eq;

verus! {

/// One catalogue entry.
pub struct Timezone {
    pub area: String,
    pub language: String,
    pub name: String,
    pub utc_offset: String,
    pub order: String,
}

impl Clone for Timezone {
    fn clone(&self) -> (r: Self)
        ensures
            r == *self,
    {
        Timezone {
            area: self.area.clone(),
            language: self.language.clone(),
            name: self.name.clone(),
            utc_offset: self.utc_offset.clone(),
            order: self.order.clone(),
        }
    }
}

/// The list a content response carries.
pub struct Timezones {
    pub timezone: Vec<Timezone>,
}

/// The offset of the first entry for an area, if any.
pub open spec fn spec_offset_for(s: Seq<Timezone>, area: Seq<char>) -> Option<Seq<char>>
    decreases s.len(),
{
    if s.len() == 0 {
        None
    } else if s.first().area@ == area {
        Some(s.first().utc_offset@)
    } else {
        spec_offset_for(s.drop_first(), area)
    }
}

/// Look the UTC offset of an area up in the catalogue.
pub fn offset_for(zones: &Vec<Timezone>, area: &str) -> (r: Option<String>)
    ensures
        r matches Some(o) ==> spec_offset_for(zones@, area@) == Some(o@),
        r is None ==> spec_offset_for(zones@, area@) is None,
{
    let n = zones.len();
    let mut i: usize = 0;
    proof {
        assert(zones@.skip(0) =~= zones@);
    }
    while i < n
        invariant
            i <= n,
            n == zones@.len(),
            spec_offset_for(zones@, area@) == spec_offset_for(zones@.skip(i as int), area@),
        decreases n - i,
    {
        proof {
            assert(zones@.skip(i as int).drop_first() =~= zones@.skip(i + 1));
            assert(zones@.skip(i as int).first() == zones@[i as int]);
        }
        if str_eq(zones[i].area.as_str(), area) {
            return Some(zones[i].utc_offset.clone());
        }
        i = i + 1;
    }
    proof {
        assert(zones@.skip(n as int) =~= Seq::<Timezone>::empty());
    }
    None
}

} // verus!
