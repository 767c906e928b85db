//! Equality and order of the values of each format: those of their stored
//! integers.

use crate::q15p8::Q15p8;
use crate::q7p8::Q7p8;
use core::cmp::Ordering;
use vstd::prelude::*;
use vstd::std_specs::cmp::{PartialEqSpecImpl, PartialOrdSpecImpl};

verus! {

impl PartialEq for Q7p8 {
    fn eq(&self, other: &Self) -> (r: bool) {
        let a: i16 = self.to_q();
        let b: i16 = other.to_q();
        a == b
    }
}

impl PartialEqSpecImpl for Q7p8 {
    open spec fn obeys_eq_spec() -> bool {
        true
    }

    open spec fn eq_spec(&self, other: &Self) -> bool {
        self@ == other@
    }
}

impl PartialOrd for Q7p8 {
    fn partial_cmp(&self, other: &Self) -> (r: Option<Ordering>) {
        let a: i16 = self.to_q();
        let b: i16 = other.to_q();
        if a < b {
            Some(Ordering::Less)
        } else if a == b {
            Some(Ordering::Equal)
        } else {
            Some(Ordering::Greater)
        }
    }
}

impl PartialOrdSpecImpl for Q7p8 {
    open spec fn obeys_partial_cmp_spec() -> bool {
        true
    }

    open spec fn partial_cmp_spec(&self, other: &Self) -> Option<Ordering> {
        if self@ < other@ {
            Some(Ordering::Less)
        } else if self@ == other@ {
            Some(Ordering::Equal)
        } else {
            Some(Ordering::Greater)
        }
    }
}

impl PartialEq for Q15p8 {
    fn eq(&self, other: &Self) -> (r: bool) {
        let a: i32 = self.to_q();
        let b: i32 = other.to_q();
        a == b
    }
}

impl PartialEqSpecImpl for Q15p8 {
    open spec fn obeys_eq_spec() -> bool {
        true
    }

    open spec fn eq_spec(&self, other: &Self) -> bool {
        self@ == other@
    }
}

impl PartialOrd for Q15p8 {
    fn partial_cmp(&self, other: &Self) -> (r: Option<Ordering>) {
        let a: i32 = self.to_q();
        let b: i32 = other.to_q();
        if a < b {
            Some(Ordering::Less)
        } else if a == b {
            Some(Ordering::Equal)
        } else {
            Some(Ordering::Greater)
        }
    }
}

impl PartialOrdSpecImpl for Q15p8 {
    open spec fn obeys_partial_cmp_spec() -> bool {
        true
    }

    open spec fn partial_cmp_spec(&self, other: &Self) -> Option<Ordering> {
        if self@ < other@ {
            Some(Ordering::Less)
        } else if self@ == other@ {
            Some(Ordering::Equal)
        } else {
            Some(Ordering::Greater)
        }
    }
}

} // verus!
