//! The behaviour of a generated builder: a slot per field, each starting
//! unset; setters that overwrite a slot and hand the same builder back for
//! chaining; and `build`, which reports the first required field left unset,
//! in declaration order, or produces the record's values and clears the
//! slots it moved out.

use vstd::prelude::*;
use vstd::string::StringExecFns;

use crate::generate::BuilderDesc;

verus! {

/// A builder instance: the description it was generated from, and one value
/// slot per described field. The slot for field `i` of the description is
/// `slots[i]`; a slot holds `None` while the field is unset.
pub struct Builder<V> {
    pub desc: BuilderDesc,
    pub slots: Vec<Option<V>>,
}

/// The use-time failure of `build`: a required field was never set. It
/// carries that field's name.
pub struct BuildError {
    pub field: String,
}

/// Required field `i` is still unset.
pub open spec fn missing_at<V>(desc: BuilderDesc, slots: Seq<Option<V>>, i: int) -> bool {
    desc.fields@[i].required && slots[i] is None
}

/// Every required field has been set, so `build` is owed success.
pub open spec fn complete<V>(desc: BuilderDesc, slots: Seq<Option<V>>) -> bool {
    forall|i: int| 0 <= i < desc.fields@.len() ==> !missing_at(desc, slots, i)
}

/// Field `k` is the first required-but-unset field in declaration order.
pub open spec fn first_missing_is<V>(desc: BuilderDesc, slots: Seq<Option<V>>, k: int) -> bool {
    &&& 0 <= k < desc.fields@.len()
    &&& missing_at(desc, slots, k)
    &&& forall|j: int| 0 <= j < k ==> !missing_at(desc, slots, j)
}

/// No slot holds a value.
pub open spec fn all_unset<V>(slots: Seq<Option<V>>) -> bool {
    forall|i: int| 0 <= i < slots.len() ==> slots[i] is None
}

impl BuilderDesc {
    /// The zero-argument construction operation of the generated code: a
    /// fresh builder with every slot unset.
    pub fn builder<V>(self) -> (b: Builder<V>)
        ensures
            b.desc == self,
            b.wf(),
            all_unset(b.slots@),
    {
        let n = self.fields.len();
        let mut slots: Vec<Option<V>> = Vec::new();
        let mut i: usize = 0;
        while i < n
            invariant
                i <= n,
                slots@.len() == i,
                all_unset(slots@),
            decreases n - i,
        {
            slots.push(None);
            i = i + 1;
        }
        Builder { desc: self, slots }
    }
}

impl<V> Builder<V> {
    /// The builder has one slot per described field.
    pub open spec fn wf(self) -> bool {
        self.slots@.len() == self.desc.fields@.len()
    }

    /// A setter of the generated code: stores the value into the field's
    /// slot, overwriting whatever was there, and returns the builder itself
    /// so that further setter calls can be chained on the returned reference.
    pub fn set_field(&mut self, i: usize, value: V) -> (r: &mut Self)
        requires
            i < old(self).slots@.len(),
        ensures
            r.desc == old(self).desc,
            r.slots@ == old(self).slots@.update(i as int, Some(value)),
            *final(self) == *final(r),
    {
        self.slots[i] = Some(value);
        self
    }

    /// The `build` operation of the generated code. If some required field
    /// is unset, it fails, naming the first such field in declaration order,
    /// and leaves the builder unchanged. Otherwise it returns every slot's
    /// current value — required fields hold their stored value, optional
    /// fields whatever is stored, unset mapping to the empty value — and the
    /// moved-out slots are all left unset.
    pub fn build(&mut self) -> (r: Result<Vec<Option<V>>, BuildError>)
        requires
            old(self).wf(),
        ensures
            final(self).wf(),
            final(self).desc == old(self).desc,
            match r {
                Ok(record) => {
                    &&& complete(old(self).desc, old(self).slots@)
                    &&& record@ == old(self).slots@
                    &&& all_unset(final(self).slots@)
                },
                Err(e) => {
                    &&& !complete(old(self).desc, old(self).slots@)
                    &&& *final(self) == *old(self)
                    &&& exists|k: int|
                        #[trigger] first_missing_is(old(self).desc, old(self).slots@, k)
                            && e.field == old(self).desc.fields@[k].name
                },
            },
    {
        let n = self.slots.len();
        let mut i: usize = 0;
        while i < n
            invariant
                *self == *old(self),
                self.wf(),
                n == self.slots@.len(),
                i <= n,
                forall|j: int| 0 <= j < i ==> !missing_at(self.desc, self.slots@, j),
            decreases n - i,
        {
            if self.desc.fields[i].required && self.slots[i].is_none() {
                let e = BuildError { field: self.desc.fields[i].name.clone() };
                proof {
                    assert(first_missing_is(self.desc, self.slots@, i as int));
                }
                return Err(e);
            }
            i = i + 1;
        }
        let mut fresh: Vec<Option<V>> = Vec::new();
        let mut j: usize = 0;
        while j < n
            invariant
                *self == *old(self),
                j <= n,
                fresh@.len() == j,
                all_unset(fresh@),
            decreases n - j,
        {
            fresh.push(None);
            j = j + 1;
        }
        core::mem::swap(&mut self.slots, &mut fresh);
        Ok(fresh)
    }
}

impl BuildError {
    /// The human-readable message of the generated code's failure value,
    /// naming the unset required field.
    pub fn message(&self) -> (r: String)
        ensures
            r@ == self.field@ + " has not been set."@,
    {
        self.field.clone().concat(" has not been set.")
    }
}

} // verus!
