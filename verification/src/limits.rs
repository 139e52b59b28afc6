//! A tracker that watches a value against a fixed quota and notifies a
//! messenger as thresholds are crossed.

use vstd::prelude::*;

verus! {

/// A sink for notification messages. Implementors decide what sending
/// means; the tracker only decides when to send.
pub trait Messenger {
    fn send(&self, msg: &str);
}

/// Tracks a value against a fixed maximum and warns its messenger when
/// the value crosses three quarters, nine tenths, or the whole quota.
pub struct LimitTracker<'a, T: Messenger> {
    messanger: &'a T,
    value: usize,
    max: usize,
}

impl<'a, T: Messenger> LimitTracker<'a, T> {
    /// The tracked value, for contracts.
    pub closed spec fn spec_value(&self) -> usize {
        self.value
    }

    /// The fixed quota, for contracts.
    pub closed spec fn spec_max(&self) -> usize {
        self.max
    }

    /// A fresh tracker starts at zero against the given quota.
    pub fn new(messanger: &'a T, max: usize) -> (r: LimitTracker<'a, T>)
        ensures
            r.spec_value() == 0,
            r.spec_max() == max,
    {
        LimitTracker { messanger, value: 0, max }
    }

    /// Stores the new value and sends at most one message: an error at or
    /// over the quota, an urgent warning from nine tenths up, a plain
    /// warning strictly over three quarters. The quota itself never
    /// changes.
    pub fn set_value(&mut self, value: usize)
        ensures
            final(self).spec_value() == value,
            final(self).spec_max() == old(self).spec_max(),
    {
        self.value = value;
        // The ratio value / max is compared against 1, 9/10 and 3/4;
        // widened products decide those comparisons exactly. A zero
        // quota with a zero value counts as no threshold crossed.
        let v = value as u128;
        let m = self.max as u128;
        if v >= m && v > 0 {
            self.messanger.send("Error: You are over your quota!");
        } else if 10 * v >= 9 * m && v > 0 {
            self.messanger.send("urgent warning: You've used up over 90% of your quota!");
        } else if 4 * v > 3 * m && v > 0 {
            self.messanger.send("Warning: You've used up over 75% of your quota!");
        }
    }
}

} // verus!
