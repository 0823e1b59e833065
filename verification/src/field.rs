//! A raw input value paired with a validity flag and two change bits.
//!
//! The change bits let an observer re-render only what was touched: the owner
//! resets them at the start of each update cycle, mutations set them, and the
//! observer polls them afterwards.

use vstd::prelude::*;

verus! {

/// Which status icon an observer should show beside a field.
#[derive(Clone, Copy, Debug, PartialEq, Eq, Structural)]
pub enum IconRef {
    Checkmark,
    Warning,
}

/// A value of type `T`, the result of its last validation pass, and one
/// "changed since the last reset" bit each for the value and the validity.
#[derive(Debug)]
pub struct ValidatedField<T> {
    pub value: T,
    pub is_valid: bool,
    pub value_changed: bool,
    pub validity_changed: bool,
}

impl<T> ValidatedField<T> {
    /// The field a constructor builds: both change bits start true, so the
    /// first observation always reflects the initial state.
    pub open spec fn spec_constructed(value: T, is_valid: bool) -> ValidatedField<T> {
        ValidatedField { value, is_valid, value_changed: true, validity_changed: true }
    }

    /// The field after a reset of both change bits.
    pub open spec fn spec_reset(self) -> ValidatedField<T> {
        ValidatedField {
            value: self.value,
            is_valid: self.is_valid,
            value_changed: false,
            validity_changed: false,
        }
    }

    /// The field after its value is replaced: the value bit is set
    /// unconditionally, whether or not the new value differs.
    pub open spec fn spec_replace_value(self, new: T) -> ValidatedField<T> {
        ValidatedField {
            value: new,
            is_valid: self.is_valid,
            value_changed: true,
            validity_changed: self.validity_changed,
        }
    }

    /// The field after its validity is set: the validity bit is set
    /// unconditionally, so an observer never misses a write.
    pub open spec fn spec_set_validity(self, new: bool) -> ValidatedField<T> {
        ValidatedField {
            value: self.value,
            is_valid: new,
            value_changed: self.value_changed,
            validity_changed: true,
        }
    }

    pub fn construct_valid(value: T) -> (r: ValidatedField<T>)
        ensures
            r == Self::spec_constructed(value, true),
    {
        ValidatedField { value, is_valid: true, value_changed: true, validity_changed: true }
    }

    pub fn construct_invalid(value: T) -> (r: ValidatedField<T>)
        ensures
            r == Self::spec_constructed(value, false),
    {
        ValidatedField { value, is_valid: false, value_changed: true, validity_changed: true }
    }

    pub fn replace_value(&mut self, new: T)
        ensures
            *final(self) == old(self).spec_replace_value(new),
    {
        self.value = new;
        self.value_changed = true;
    }

    pub fn set_validity(&mut self, new: bool)
        ensures
            *final(self) == old(self).spec_set_validity(new),
    {
        self.is_valid = new;
        self.validity_changed = true;
    }

    /// Called by the owner at the start of each update cycle, before any
    /// mutation of that cycle, so the bits reflect only the current cycle.
    pub fn reset_change_flags(&mut self)
        ensures
            *final(self) == old(self).spec_reset(),
    {
        self.value_changed = false;
        self.validity_changed = false;
    }

    /// Pure function of the validity flag, for observer use.
    pub fn status_icon(&self) -> (r: IconRef)
        ensures
            r == (if self.is_valid {
                IconRef::Checkmark
            } else {
                IconRef::Warning
            }),
    {
        if self.is_valid {
            IconRef::Checkmark
        } else {
            IconRef::Warning
        }
    }
}

/// Law: immediately after either constructor, both change bits are true.
pub proof fn lemma_construction_sets_change_flags<T>(value: T, is_valid: bool)
    ensures
        ValidatedField::spec_constructed(value, is_valid).value_changed,
        ValidatedField::spec_constructed(value, is_valid).validity_changed,
{
}

/// Law: a reset followed by no mutation leaves both change bits false, and a
/// subsequent value replacement or validity write sets the corresponding bit
/// back to true regardless of whether the new value differs from the old.
pub proof fn lemma_reset_then_mutate<T>(f: ValidatedField<T>, v: T, b: bool)
    ensures
        !f.spec_reset().value_changed,
        !f.spec_reset().validity_changed,
        f.spec_reset().spec_replace_value(v).value_changed,
        f.spec_reset().spec_set_validity(b).validity_changed,
{
}

} // verus!
