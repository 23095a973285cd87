use vstd::prelude::*;
use crate::bind::Binds;

verus! {

/// A transient, column-indexed view of the row the cursor fetched last.
///
/// It borrows the cursor's bind descriptor set, so it cannot outlive the
/// fetch that produced it: advancing the cursor needs `&mut` access to the
/// same storage and the borrow checker rejects a view that is still alive.
pub struct MysqlRow<'a> {
    /// The bind descriptor set whose current contents this row exposes.
    pub binds: &'a Binds,
    /// The next unread column.
    pub col_idx: usize,
}

impl<'a> MysqlRow<'a> {
    /// Returns the next unread column's data — `None` for a null column or
    /// once every column has been read, `Some` of the value's bytes
    /// otherwise — and advances the column cursor by one.
    pub fn take(&mut self) -> (r: Option<&'a [u8]>)
        requires
            old(self).col_idx < usize::MAX,
        ensures
            final(self).col_idx == old(self).col_idx + 1,
            final(self).binds == old(self).binds,
            r is Some <==> old(self).binds.spec_field_data(old(self).col_idx as int) is Some,
            r is Some ==> r->0@ == old(self).binds.spec_field_data(old(self).col_idx as int)->0,
    {
        let current_idx = self.col_idx;
        self.col_idx = current_idx + 1;
        self.binds.field_data(current_idx)
    }

    /// Reports whether the next `count` unread columns are all null (a
    /// column past the end counts as unreadable, hence null), without
    /// advancing the column cursor.
    pub fn next_is_null(&self, count: usize) -> (r: bool)
        requires
            self.col_idx + count <= usize::MAX,
        ensures
            r <==> (forall|j: int|
                self.col_idx <= j < self.col_idx + count ==> self.binds.spec_field_data(j)
                    is None),
    {
        let mut k: usize = 0;
        while k < count
            invariant
                k <= count,
                self.col_idx + count <= usize::MAX,
                forall|j: int|
                    self.col_idx <= j < self.col_idx + k ==> self.binds.spec_field_data(j)
                        is None,
            decreases count - k,
        {
            if self.binds.field_data(self.col_idx + k).is_some() {
                return false;
            }
            k += 1;
        }
        true
    }
}

} // verus!
