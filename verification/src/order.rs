//! Equality and order of digests.
//!
//! Two digests are equal when all their bytes are equal. They are ordered as
//! their byte sequences are, from the first byte on: the first position at
//! which two digests differ decides. The order serves to keep digests in
//! sorted collections and says nothing about the data that was hashed.

use crate::digest::{lemma_digest_length, Message, MESSAGE_SIZE};
use crate::lex::{
    bytes_precede, first_mismatch, lemma_first_difference_decides, lemma_order_is_total,
    lemma_order_is_transitive,
};
use core::cmp::Ordering;
use vstd::prelude::*;
use vstd::std_specs::cmp::{PartialEqSpecImpl, PartialOrdSpecImpl};

verus! {

impl Message {
    /// Whether this digest comes before `other` in the order of digests.
    pub open spec fn precedes(self, other: Message) -> bool {
        bytes_precede(self@, other@)
    }
}

impl PartialEq for Message {
    fn eq(&self, other: &Message) -> (r: bool) {
        let a = self.to_byte_array();
        let b = other.to_byte_array();
        proof {
            lemma_first_difference_decides(a@, b@);
        }
        first_mismatch(&a, &b) == MESSAGE_SIZE
    }
}

impl PartialEqSpecImpl for Message {
    open spec fn obeys_eq_spec() -> bool {
        true
    }

    open spec fn eq_spec(&self, other: &Message) -> bool {
        self@ == other@
    }
}

impl PartialOrd for Message {
    fn partial_cmp(&self, other: &Message) -> (r: Option<Ordering>) {
        let a = self.to_byte_array();
        let b = other.to_byte_array();
        proof {
            lemma_first_difference_decides(a@, b@);
        }
        let k = first_mismatch(&a, &b);
        if k == MESSAGE_SIZE {
            Some(Ordering::Equal)
        } else if a[k] < b[k] {
            Some(Ordering::Less)
        } else {
            Some(Ordering::Greater)
        }
    }
}

impl PartialOrdSpecImpl for Message {
    open spec fn obeys_partial_cmp_spec() -> bool {
        true
    }

    open spec fn partial_cmp_spec(&self, other: &Message) -> Option<Ordering> {
        if self@ == other@ {
            Some(Ordering::Equal)
        } else if self.precedes(*other) {
            Some(Ordering::Less)
        } else {
            Some(Ordering::Greater)
        }
    }
}

/// Of two digests, exactly one of these holds: the first comes before the
/// second, the two are equal, the second comes before the first.
pub proof fn lemma_digests_totally_ordered(a: Message, b: Message)
    ensures
        a.precedes(b) || a == b || b.precedes(a),
        !(a.precedes(b) && a == b),
        !(b.precedes(a) && a == b),
        !(a.precedes(b) && b.precedes(a)),
{
    lemma_digest_length(a);
    lemma_digest_length(b);
    lemma_order_is_total(a@, b@);
    crate::digest::lemma_same_bytes_same_digest(a, b);
}

/// The order of digests is transitive.
pub proof fn lemma_digest_order_transitive(a: Message, b: Message, c: Message)
    requires
        a.precedes(b),
        b.precedes(c),
    ensures
        a.precedes(c),
{
    lemma_digest_length(a);
    lemma_digest_length(b);
    lemma_digest_length(c);
    lemma_order_is_transitive(a@, b@, c@);
}

} // verus!
