use vstd::prelude::*;

use crate::error::Error;

verus! {

/// A transient, in-memory tally with a configurable increment step,
/// optionally bound to one hunt by that hunt's primary key.
///
/// While a hunt is bound, every mutating operation reports the effect that
/// is owed to that hunt as a [`HuntEffect`], so that a separate
/// reconciliation step can apply it to the authoritative hunt record.
#[derive(Debug, Clone, Copy, PartialEq, Eq)]
pub struct Counter {
    /// Primary key of the bound hunt, if any.
    pub hunt: Option<i32>,
    /// Step added to the tally by `increment`.
    pub inc: i32,
    /// The tally itself.
    pub count: i32,
}

impl Default for Counter {
    /// A fresh counter: unbound, step one, tally zero.
    fn default() -> (r: Self)
        ensures
            r.hunt is None,
            r.inc == 1,
            r.count == 0,
    {
        Counter { hunt: None, inc: 1, count: 0 }
    }
}

/// One discrete edit of a counter.
#[derive(Debug, Clone, Copy, PartialEq, Eq)]
pub enum CounterEditAction {
    /// Bind the counter to the hunt with this primary key.
    SetHunt(i32),
    /// Clear the bound-hunt reference.
    UnsetHunt,
    /// Set the increment step.
    SetIncrement(i32),
    /// Set the tally directly.
    SetCount(i32),
}

/// The effect a counter operation owes to its bound hunt, to be applied to
/// the authoritative hunt record by a reconciliation step.
#[derive(Debug, Clone, Copy, PartialEq, Eq)]
pub enum HuntEffect {
    /// No hunt is affected.
    Untouched,
    /// Add `delta` to the phase-encounter count of hunt `hunt_id`.
    Add { hunt_id: i32, delta: i32 },
    /// Subtract one from the phase-encounter count of hunt `hunt_id`,
    /// unless that count is already zero.
    SubOneFloored { hunt_id: i32 },
    /// Make the phase-encounter count of hunt `hunt_id` exactly `value`.
    SetTo { hunt_id: i32, value: i32 },
}

impl Counter {
    /// Add the increment step to the tally. Fails with `Overflow`, changing
    /// nothing, if the new tally would not fit in the representable range.
    pub fn increment(&mut self) -> (r: Result<HuntEffect, Error>)
        ensures
            ({
                let sum = old(self).count + old(self).inc;
                if i32::MIN <= sum <= i32::MAX {
                    &&& r == Ok::<HuntEffect, Error>(match old(self).hunt {
                        Some(id) => HuntEffect::Add { hunt_id: id, delta: old(self).inc },
                        None => HuntEffect::Untouched,
                    })
                    &&& final(self).count == sum
                    &&& final(self).inc == old(self).inc
                    &&& final(self).hunt == old(self).hunt
                } else {
                    &&& r == Err::<HuntEffect, Error>(Error::Overflow)
                    &&& *final(self) == *old(self)
                }
            }),
    {
        match self.count.checked_add(self.inc) {
            Some(c) => {
                self.count = c;
                match self.hunt {
                    Some(id) => Ok(HuntEffect::Add { hunt_id: id, delta: self.inc }),
                    None => Ok(HuntEffect::Untouched),
                }
            }
            None => Err(Error::Overflow),
        }
    }

    /// Subtract one from the tally, unless it is already at or below zero.
    /// A tally that starts non-negative never becomes negative.
    pub fn decrement(&mut self) -> (eff: HuntEffect)
        ensures
            final(self).count == (if old(self).count > 0 {
                old(self).count - 1
            } else {
                old(self).count as int
            }),
            old(self).count >= 0 ==> final(self).count >= 0,
            final(self).inc == old(self).inc,
            final(self).hunt == old(self).hunt,
            eff == (match old(self).hunt {
                Some(id) => HuntEffect::SubOneFloored { hunt_id: id },
                None => HuntEffect::Untouched,
            }),
    {
        if self.count > 0 {
            self.count = self.count - 1;
        }
        match self.hunt {
            Some(id) => HuntEffect::SubOneFloored { hunt_id: id },
            None => HuntEffect::Untouched,
        }
    }

    /// Apply one discrete edit to the counter itself and report the effect
    /// owed to the bound hunt. Binding and unbinding never touch the hunt.
    pub fn perform(&mut self, action: CounterEditAction) -> (eff: HuntEffect)
        ensures
            match action {
                CounterEditAction::SetHunt(id) => {
                    &&& *final(self) == (Counter { hunt: Some(id), ..*old(self) })
                    &&& eff == HuntEffect::Untouched
                },
                CounterEditAction::UnsetHunt => {
                    &&& *final(self) == (Counter { hunt: None, ..*old(self) })
                    &&& eff == HuntEffect::Untouched
                },
                CounterEditAction::SetIncrement(v) => {
                    &&& *final(self) == (Counter { inc: v, ..*old(self) })
                    &&& eff == HuntEffect::Untouched
                },
                CounterEditAction::SetCount(v) => {
                    &&& *final(self) == (Counter { count: v, ..*old(self) })
                    &&& eff == (match old(self).hunt {
                        Some(id) => HuntEffect::SetTo { hunt_id: id, value: v },
                        None => HuntEffect::Untouched,
                    })
                },
            },
    {
        match action {
            CounterEditAction::SetHunt(id) => {
                self.hunt = Some(id);
                HuntEffect::Untouched
            }
            CounterEditAction::UnsetHunt => {
                self.hunt = None;
                HuntEffect::Untouched
            }
            CounterEditAction::SetIncrement(v) => {
                self.inc = v;
                HuntEffect::Untouched
            }
            CounterEditAction::SetCount(v) => {
                self.count = v;
                match self.hunt {
                    Some(id) => HuntEffect::SetTo { hunt_id: id, value: v },
                    None => HuntEffect::Untouched,
                }
            }
        }
    }
}

} // verus!
