use vstd::prelude::*;

verus! {

/// Result-column type tags, as the statement's result metadata reports them.
///
/// Fixed-width numeric tags determine an exact slot size; variable-length
/// tags get a conservative default slot that a long value may overflow,
/// which the truncation path then repairs.
#[derive(Clone, Copy, PartialEq, Eq, Structural, Debug)]
pub enum MysqlType {
    Tiny,
    Short,
    Long,
    LongLong,
    VarChar,
    Blob,
}

/// Capacity in bytes of the default fixed slot for a column of type `t`.
pub open spec fn spec_default_capacity(t: MysqlType) -> nat {
    match t {
        MysqlType::Tiny => 1,
        MysqlType::Short => 2,
        MysqlType::Long => 4,
        MysqlType::LongLong => 8,
        MysqlType::VarChar => 64,
        MysqlType::Blob => 64,
    }
}

pub fn default_capacity(t: MysqlType) -> (r: usize)
    ensures
        r == spec_default_capacity(t),
{
    match t {
        MysqlType::Tiny => 1,
        MysqlType::Short => 2,
        MysqlType::Long => 4,
        MysqlType::LongLong => 8,
        MysqlType::VarChar => 64,
        MysqlType::Blob => 64,
    }
}

/// One result column's bind descriptor: a native buffer slot the fetch call
/// writes into, together with its bookkeeping fields.
pub struct BindData {
    /// The column's type tag, fixed at construction.
    pub tag: MysqlType,
    /// Current capacity of the slot in bytes; the fetch writes at most this
    /// many bytes of the value.
    pub capacity: usize,
    /// The bytes the last fetch actually wrote into the slot.
    pub bytes: Vec<u8>,
    /// The value's true byte length as the last fetch reported it, which may
    /// exceed `capacity` when the value was truncated.
    pub length: usize,
    /// Null indicator: the last fetch found SQL NULL in this column.
    pub is_null: bool,
    /// Truncation indicator: the value did not fit the slot and a targeted
    /// re-fetch is still owed.
    pub is_truncated: bool,
}

impl BindData {
    /// The slot as it stands right after construction or a reset: default
    /// fixed capacity for its tag and nothing written.
    pub open spec fn is_pristine(self) -> bool {
        &&& self.capacity == spec_default_capacity(self.tag)
        &&& self.bytes@.len() == 0
        &&& self.length == 0
        &&& !self.is_null
        &&& !self.is_truncated
    }
}

/// What one row-returning fetch does to one slot, given the column's value
/// `v` (`None` for SQL NULL): the null flag and true length are recorded and
/// as many value bytes as the slot holds are written.
pub open spec fn slot_after_fetch(pre: BindData, post: BindData, v: Option<Seq<u8>>) -> bool {
    &&& post.tag == pre.tag
    &&& post.capacity == pre.capacity
    &&& match v {
        None => {
            &&& post.is_null
            &&& post.length == 0
            &&& post.bytes@.len() == 0
            &&& !post.is_truncated
        },
        Some(val) => {
            &&& !post.is_null
            &&& post.length == val.len()
            &&& post.bytes@ == if val.len() <= pre.capacity {
                val
            } else {
                val.take(pre.capacity as int)
            }
            &&& post.is_truncated == (val.len() > pre.capacity)
        },
    }
}

/// A fetched row as the statement reports it, column by column: `None` for
/// SQL NULL, otherwise the value's full bytes.
pub open spec fn row_view(row: Seq<Option<Vec<u8>>>) -> Seq<Option<Seq<u8>>> {
    row.map_values(
        |c: Option<Vec<u8>>|
            match c {
                Some(v) => Some(v@),
                None => None,
            },
    )
}

/// Copies the first `n` bytes of `v` into a fresh buffer.
fn copy_prefix(v: &Vec<u8>, n: usize) -> (r: Vec<u8>)
    requires
        n <= v@.len(),
    ensures
        r@ == v@.take(n as int),
{
    let mut r: Vec<u8> = Vec::new();
    let mut k: usize = 0;
    while k < n
        invariant
            k <= n,
            n <= v@.len(),
            r@ == v@.take(k as int),
        decreases n - k,
    {
        let b = v[k];
        r.push(b);
        proof {
            assert(v@.take(k as int + 1) =~= v@.take(k as int).push(v@[k as int]));
        }
        k += 1;
    }
    r
}

/// The bind descriptor set: one descriptor per result column, in the
/// statement's column order, fixed at construction.
pub struct Binds {
    pub data: Vec<BindData>,
}

impl Binds {
    /// Number of result columns.
    pub open spec fn col_count(self) -> nat {
        self.data@.len()
    }

    /// The column type tags, in column order.
    pub open spec fn tags(self) -> Seq<MysqlType> {
        self.data@.map_values(|b: BindData| b.tag)
    }

    /// Column `i`'s current value as a row view reports it: `None` when the
    /// null flag is set or `i` is past the last column, otherwise the bytes
    /// currently in the slot.
    pub open spec fn spec_field_data(self, i: int) -> Option<Seq<u8>> {
        if 0 <= i < self.data@.len() && !self.data@[i].is_null {
            Some(self.data@[i].bytes@)
        } else {
            None
        }
    }

    /// The set after a completed fetch round for `row`: every column holds
    /// the full value bytes (null columns flagged null and empty), `length`
    /// is the value's true byte length, and no truncation is outstanding.
    pub open spec fn holds_row(self, row: Seq<Option<Seq<u8>>>) -> bool {
        &&& self.col_count() == row.len()
        &&& forall|i: int| 0 <= i < row.len() ==> {
            &&& ((#[trigger] self.data@[i]).is_null <==> row[i] is None)
            &&& (row[i] matches Some(v) ==> self.data@[i].bytes@ == v && self.data@[i].length
                == v.len())
            &&& (row[i] is None ==> self.data@[i].bytes@.len() == 0 && self.data@[i].length == 0)
            &&& !self.data@[i].is_truncated
        }
    }

    /// Builds one descriptor per result column from the statement's output
    /// types, each with a default-sized fixed slot. Never fails.
    pub fn from_output_types(types: &Vec<MysqlType>) -> (r: Binds)
        ensures
            r.col_count() == types@.len(),
            forall|i: int|
                0 <= i < types@.len() ==> (#[trigger] r.data@[i]).is_pristine() && r.data@[i].tag
                    == types@[i],
    {
        let mut data: Vec<BindData> = Vec::new();
        let mut k: usize = 0;
        while k < types.len()
            invariant
                k <= types@.len(),
                data@.len() == k,
                forall|i: int|
                    0 <= i < k ==> (#[trigger] data@[i]).is_pristine() && data@[i].tag
                        == types@[i],
            decreases types@.len() - k,
        {
            let tag = types[k];
            data.push(
                BindData {
                    tag,
                    capacity: default_capacity(tag),
                    bytes: Vec::new(),
                    length: 0,
                    is_null: false,
                    is_truncated: false,
                },
            );
            k += 1;
        }
        Binds { data }
    }

    /// Called at the start of every fetch: returns every slot to its default
    /// fixed capacity and discards what the previous row wrote, so stale
    /// data cannot leak into a row that does not re-populate it.
    pub fn reset_dynamic_buffers(&mut self)
        ensures
            final(self).col_count() == old(self).col_count(),
            forall|i: int|
                0 <= i < old(self).col_count() ==> (#[trigger] final(self).data@[i]).is_pristine()
                    && final(self).data@[i].tag == old(self).data@[i].tag,
    {
        let n = self.data.len();
        let mut k: usize = 0;
        while k < n
            invariant
                n == self.data@.len(),
                k <= n,
                forall|i: int|
                    0 <= i < k ==> (#[trigger] self.data@[i]).is_pristine() && self.data@[i].tag
                        == old(self).data@[i].tag,
                forall|i: int| k <= i < n ==> self.data@[i] == old(self).data@[i],
            decreases n - k,
        {
            let tag = self.data[k].tag;
            let cap = default_capacity(tag);
            let slot = &mut self.data[k];
            slot.capacity = cap;
            slot.bytes = Vec::new();
            slot.length = 0;
            slot.is_null = false;
            slot.is_truncated = false;
            k += 1;
        }
    }

    /// What a row-returning fetch writes into the bound slots: per column
    /// the null flag, the value's true byte length, and as many value bytes
    /// as the fixed slot holds.
    pub fn apply_fetch(&mut self, row: &Vec<Option<Vec<u8>>>)
        requires
            row@.len() == old(self).col_count(),
        ensures
            final(self).col_count() == old(self).col_count(),
            forall|i: int|
                0 <= i < row@.len() ==> slot_after_fetch(
                    old(self).data@[i],
                    #[trigger] final(self).data@[i],
                    row_view(row@)[i],
                ),
    {
        let n = self.data.len();
        let mut k: usize = 0;
        while k < n
            invariant
                n == self.data@.len(),
                n == row@.len(),
                k <= n,
                forall|i: int|
                    0 <= i < k ==> slot_after_fetch(
                        old(self).data@[i],
                        #[trigger] self.data@[i],
                        row_view(row@)[i],
                    ),
                forall|i: int| k <= i < n ==> self.data@[i] == old(self).data@[i],
            decreases n - k,
        {
            match &row[k] {
                None => {
                    let slot = &mut self.data[k];
                    slot.is_null = true;
                    slot.length = 0;
                    slot.bytes = Vec::new();
                    slot.is_truncated = false;
                },
                Some(v) => {
                    let cap = self.data[k].capacity;
                    let vlen = v.len();
                    let wrote = if vlen <= cap {
                        vlen
                    } else {
                        cap
                    };
                    let buf = copy_prefix(v, wrote);
                    let was_truncated = vlen > cap;
                    let slot = &mut self.data[k];
                    slot.is_null = false;
                    slot.length = vlen;
                    slot.bytes = buf;
                    slot.is_truncated = was_truncated;
                    proof {
                        if vlen <= cap {
                            assert(v@.take(vlen as int) =~= v@);
                        }
                    }
                },
            }
            k += 1;
        }
    }

    /// Reports whether any column's last fetch left its value truncated:
    /// the truncation signal the cursor consults before handing a row out.
    pub fn any_truncated(&self) -> (r: bool)
        ensures
            r == exists|i: int|
                0 <= i < self.data@.len() && (#[trigger] self.data@[i]).is_truncated,
    {
        let n = self.data.len();
        let mut k: usize = 0;
        while k < n
            invariant
                n == self.data@.len(),
                k <= n,
                forall|i: int| 0 <= i < k ==> !(#[trigger] self.data@[i]).is_truncated,
            decreases n - k,
        {
            if self.data[k].is_truncated {
                return true;
            }
            k += 1;
        }
        false
    }

    /// Completes every truncated column before the row is handed out: for
    /// each slot whose reported length exceeds its capacity, allocates a
    /// buffer of exactly that length and applies the column-targeted
    /// re-fetch (offset 0) that the statement answers with the column's
    /// full value bytes. Columns that were not truncated keep their
    /// contents. Called at most once per fetch, after the truncation
    /// signal.
    pub fn populate_dynamic_buffers(&mut self, row: &Vec<Option<Vec<u8>>>)
        requires
            row@.len() == old(self).col_count(),
            forall|i: int|
                0 <= i < row@.len() && (#[trigger] old(self).data@[i]).is_truncated ==> row@[i]
                    is Some && old(self).data@[i].length == row@[i]->0@.len(),
        ensures
            final(self).col_count() == old(self).col_count(),
            forall|i: int|
                0 <= i < row@.len() && old(self).data@[i].is_truncated ==> {
                    &&& (#[trigger] final(self).data@[i]).tag == old(self).data@[i].tag
                    &&& final(self).data@[i].capacity == old(self).data@[i].length
                    &&& final(self).data@[i].bytes@ == row@[i]->0@
                    &&& final(self).data@[i].length == old(self).data@[i].length
                    &&& !final(self).data@[i].is_null
                    &&& !final(self).data@[i].is_truncated
                },
            forall|i: int|
                0 <= i < row@.len() && !old(self).data@[i].is_truncated
                    ==> #[trigger] final(self).data@[i] == old(self).data@[i],
    {
        let n = self.data.len();
        let mut k: usize = 0;
        while k < n
            invariant
                n == self.data@.len(),
                n == row@.len(),
                k <= n,
                forall|i: int|
                    0 <= i < n && (#[trigger] old(self).data@[i]).is_truncated ==> row@[i] is Some
                        && old(self).data@[i].length == row@[i]->0@.len(),
                forall|i: int|
                    0 <= i < k && (#[trigger] old(self).data@[i]).is_truncated ==> {
                        &&& self.data@[i].tag == old(self).data@[i].tag
                        &&& self.data@[i].capacity == old(self).data@[i].length
                        &&& self.data@[i].bytes@ == row@[i]->0@
                        &&& self.data@[i].length == old(self).data@[i].length
                        &&& !self.data@[i].is_null
                        &&& !self.data@[i].is_truncated
                    },
                forall|i: int|
                    0 <= i < k && !(#[trigger] old(self).data@[i]).is_truncated ==> self.data@[i]
                        == old(self).data@[i],
                forall|i: int| k <= i < n ==> self.data@[i] == old(self).data@[i],
            decreases n - k,
        {
            if self.data[k].is_truncated {
                let needed = self.data[k].length;
                match &row[k] {
                    Some(v) => {
                        let buf = copy_prefix(v, needed);
                        let slot = &mut self.data[k];
                        slot.capacity = needed;
                        slot.bytes = buf;
                        slot.is_null = false;
                        slot.is_truncated = false;
                        proof {
                            assert(v@.take(needed as int) =~= v@);
                        }
                    },
                    None => {
                        proof {
                            assert(false);
                        }
                    },
                }
            }
            k += 1;
        }
    }

    /// The column's current bytes: `None` when its null flag is set or the
    /// index is past the last column (the row view treats excess reads
    /// leniently), `Some` of the bytes in the slot otherwise.
    pub fn field_data(&self, idx: usize) -> (r: Option<&[u8]>)
        ensures
            r is Some <==> self.spec_field_data(idx as int) is Some,
            r is Some ==> r->0@ == self.spec_field_data(idx as int)->0,
    {
        if idx < self.data.len() {
            let slot = &self.data[idx];
            if slot.is_null {
                None
            } else {
                Some(slot.bytes.as_slice())
            }
        } else {
            None
        }
    }
}

/// A completed fetch round reads back exactly the fetched row: a column
/// declared null yields `None`, and a non-null column yields exactly the
/// value's bytes — whatever their length, so in particular a value that
/// overflowed its default fixed slot and went through the truncation path.
pub proof fn lemma_row_reads_back_values(b: Binds, row: Seq<Option<Seq<u8>>>, i: int)
    requires
        b.holds_row(row),
        0 <= i < row.len(),
    ensures
        b.spec_field_data(i) == row[i],
{
}

/// What a row view reads depends on the fetched row alone: whatever a
/// previous row left in the buffers, two descriptor sets that completed a
/// fetch round for the same row read back the same values, column by
/// column. Stale oversized buffers from an earlier row cannot show through.
pub proof fn lemma_no_stale_data(b1: Binds, b2: Binds, row: Seq<Option<Seq<u8>>>, i: int)
    requires
        b1.holds_row(row),
        b2.holds_row(row),
        0 <= i < row.len(),
    ensures
        b1.spec_field_data(i) == b2.spec_field_data(i),
{
}

/// Reading past the last column yields `None`, for every index past the
/// end: a row view asked for more columns than the row has answers `None`
/// each time, without error.
pub proof fn lemma_read_past_last_column(b: Binds, i: int)
    requires
        i >= b.col_count(),
    ensures
        b.spec_field_data(i) is None,
{
}

} // verus!
