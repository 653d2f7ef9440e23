//! The field store: an ordered, unbounded sequence of editable key/value
//! entries, mutated by add, in-place update, and removal by index.

use vstd::prelude::*;

verus! {

/// One editable entry: a key, a value, and whether the value is edited as
/// multi-line text. The line mode affects only presentation, never the
/// request encoding.
pub struct Field {
    pub key: String,
    pub value: String,
    pub multiline: bool,
}

/// The mathematical model of a `Field`: its texts as character sequences.
pub struct FieldView {
    pub key: Seq<char>,
    pub value: Seq<char>,
    pub multiline: bool,
}

impl View for Field {
    type V = FieldView;

    open spec fn view(&self) -> FieldView {
        FieldView { key: self.key@, value: self.value@, multiline: self.multiline }
    }
}

/// The model of a freshly added field: empty key and value, with the chosen
/// line mode.
pub open spec fn empty_field(multiline: bool) -> FieldView {
    FieldView { key: Seq::empty(), value: Seq::empty(), multiline }
}

/// An ordered collection of fields. Order is the order of insertion and is
/// kept by every operation; removal shifts later entries down by one.
pub struct FieldStore {
    fields: Vec<Field>,
}

impl View for FieldStore {
    type V = Seq<FieldView>;

    closed spec fn view(&self) -> Seq<FieldView> {
        self.fields@.map_values(|f: Field| f@)
    }
}

impl FieldStore {
    pub fn new() -> (store: FieldStore)
        ensures
            store@ =~= Seq::<FieldView>::empty(),
    {
        FieldStore { fields: Vec::new() }
    }

    pub fn len(&self) -> (n: usize)
        ensures
            n == self@.len(),
    {
        self.fields.len()
    }

    pub fn is_empty(&self) -> (empty: bool)
        ensures
            empty <==> self@.len() == 0,
    {
        self.fields.len() == 0
    }

    pub fn get(&self, index: usize) -> (field: &Field)
        requires
            index < self@.len(),
        ensures
            field@ == self@[index as int],
    {
        &self.fields[index]
    }

    /// Appends a new field with empty key and value and the given line mode.
    /// Always succeeds; every earlier entry is untouched.
    pub fn add(&mut self, multiline: bool)
        ensures
            final(self)@ =~= old(self)@.push(empty_field(multiline)),
    {
        self.fields.push(
            Field { key: String::new(), value: String::new(), multiline },
        );
    }

    /// Edits the entry at `index` in place. A text given as `None` is kept;
    /// one given as `Some` replaces the old text. The line mode and every
    /// other entry are untouched. The caller guarantees that the index is
    /// valid.
    pub fn update(&mut self, index: usize, key: Option<String>, value: Option<String>)
        requires
            index < old(self)@.len(),
        ensures
            final(self)@.len() == old(self)@.len(),
            final(self)@[index as int].key == (match key {
                Some(k) => k@,
                None => old(self)@[index as int].key,
            }),
            final(self)@[index as int].value == (match value {
                Some(v) => v@,
                None => old(self)@[index as int].value,
            }),
            final(self)@[index as int].multiline == old(self)@[index as int].multiline,
            forall|i: int| 0 <= i < old(self)@.len() && i != index ==> final(self)@[i] == old(self)@[i],
    {
        let entry = &mut self.fields[index];
        match key {
            Some(k) => {
                entry.key = k;
            }
            None => {}
        }
        match value {
            Some(v) => {
                entry.value = v;
            }
            None => {}
        }
    }

    /// Removes the entry at `index` if there is one, shifting later entries
    /// down; an out-of-range index is a no-op. Relative order of the
    /// remaining entries is kept.
    pub fn remove(&mut self, index: usize)
        ensures
            final(self)@ =~= apply_op(old(self)@, StoreOp::Remove { index }),
            index < old(self)@.len() ==> final(self)@ =~= old(self)@.subrange(0, index as int)
                + old(self)@.subrange(index as int + 1, old(self)@.len() as int),
            index >= old(self)@.len() ==> final(self)@ =~= old(self)@,
    {
        if index < self.fields.len() {
            self.fields.remove(index);
        }
    }

    /// Applies at most one pending removal, recorded earlier in the same
    /// interaction cycle: `None` leaves the store untouched, `Some(index)`
    /// removes exactly the entry at `index` (a no-op when out of range).
    /// Never removes more than one entry.
    pub fn remove_pending(&mut self, pending: Option<usize>)
        ensures
            final(self)@ =~= (match pending {
                Some(index) => apply_op(old(self)@, StoreOp::Remove { index }),
                None => old(self)@,
            }),
            final(self)@.len() >= old(self)@.len() - 1,
    {
        match pending {
            Some(index) => self.remove(index),
            None => {}
        }
    }
}

/// One user-level mutation of the store, for reasoning about whole
/// interaction histories.
pub enum StoreOp {
    Add { multiline: bool },
    Remove { index: usize },
}

/// The effect of one operation on the model: an add appends a fresh field; a
/// removal at a valid index drops exactly that entry and keeps the relative
/// order of the rest; a removal at an invalid index changes nothing.
pub open spec fn apply_op(s: Seq<FieldView>, op: StoreOp) -> Seq<FieldView> {
    match op {
        StoreOp::Add { multiline } => s.push(empty_field(multiline)),
        StoreOp::Remove { index } => if index < s.len() {
            s.subrange(0, index as int) + s.subrange(index as int + 1, s.len() as int)
        } else {
            s
        },
    }
}

/// The effect of a whole sequence of operations, applied in order.
pub open spec fn apply_ops(s: Seq<FieldView>, ops: Seq<StoreOp>) -> Seq<FieldView>
    decreases ops.len(),
{
    if ops.len() == 0 {
        s
    } else {
        apply_ops(apply_op(s, ops[0]), ops.subrange(1, ops.len() as int))
    }
}

/// How many operations of a history are adds.
pub open spec fn count_adds(ops: Seq<StoreOp>) -> nat
    decreases ops.len(),
{
    if ops.len() == 0 {
        0
    } else {
        (if ops[0] is Add {
            1nat
        } else {
            0nat
        }) + count_adds(ops.subrange(1, ops.len() as int))
    }
}

/// How many operations of a history are removals whose index is valid for
/// the store as it stands when the removal is applied.
pub open spec fn count_valid_removes(s: Seq<FieldView>, ops: Seq<StoreOp>) -> nat
    decreases ops.len(),
{
    if ops.len() == 0 {
        0
    } else {
        (match ops[0] {
            StoreOp::Remove { index } => if index < s.len() {
                1nat
            } else {
                0nat
            },
            StoreOp::Add { .. } => 0,
        }) + count_valid_removes(apply_op(s, ops[0]), ops.subrange(1, ops.len() as int))
    }
}

/// After any history of adds and removals, the store's length equals its
/// starting length plus the number of adds, minus the number of removals at
/// then-valid indices.
pub proof fn lemma_store_length(s: Seq<FieldView>, ops: Seq<StoreOp>)
    ensures
        apply_ops(s, ops).len() + count_valid_removes(s, ops) == s.len() + count_adds(ops),
    decreases ops.len(),
{
    if ops.len() > 0 {
        lemma_store_length(apply_op(s, ops[0]), ops.subrange(1, ops.len() as int));
    }
}

/// A removal at a valid index removes exactly one entry and keeps the
/// relative order of the remaining ones: entries before the index stay
/// where they were, entries after it move down by one.
pub proof fn lemma_remove_preserves_order(s: Seq<FieldView>, index: usize)
    requires
        index < s.len(),
    ensures
        apply_op(s, StoreOp::Remove { index }).len() == s.len() - 1,
        forall|i: int| 0 <= i < index ==> apply_op(s, StoreOp::Remove { index })[i] == s[i],
        forall|i: int| index <= i < s.len() - 1 ==> apply_op(s, StoreOp::Remove { index })[i] == s[i + 1],
{
}

} // verus!
