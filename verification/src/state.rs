//! The object state store: the fields of virtual objects and workflows, and
//! the buffer in which an invocation keeps its writes until it commits.

use vstd::prelude::*;
use crate::entry::{clone_optional, optional_view};
use crate::table::{path2, path3, PathTable};
use crate::value::{Value, ValueView};

verus! {

/// A write that an invocation has made and not yet committed.
#[derive(Debug, PartialEq, Eq)]
pub enum Write {
    Put { field: String, value: Value },
    Clear { field: String },
}

/// What a [`Write`] holds: the field, and its new value or `None` where the
/// field is cleared.
pub struct WriteView {
    pub field: Seq<char>,
    pub value: Option<ValueView>,
}

impl View for Write {
    type V = WriteView;

    open spec fn view(&self) -> WriteView {
        match self {
            Write::Put { field, value } => WriteView { field: field@, value: Some(value@) },
            Write::Clear { field } => WriteView { field: field@, value: None },
        }
    }
}

/// What the writes make of a field: `Some` of the last write to it, `None`
/// where no write touches it.
pub open spec fn pending(writes: Seq<WriteView>, field: Seq<char>) -> Option<Option<ValueView>>
    decreases writes.len(),
{
    if writes.len() == 0 {
        None
    } else if writes.last().field == field {
        Some(writes.last().value)
    } else {
        pending(writes.drop_last(), field)
    }
}

/// The value of a field as the invocation that made the writes sees it: its
/// own last write where it made one, the committed value where not.
pub open spec fn overlay(
    writes: Seq<WriteView>,
    field: Seq<char>,
    committed: Option<ValueView>,
) -> Option<ValueView> {
    match pending(writes, field) {
        Some(w) => w,
        None => committed,
    }
}

/// The writes of one invocation, in the order in which they were made. They
/// touch no store until they are committed.
pub struct StateBuffer {
    writes: Vec<Write>,
}

impl View for StateBuffer {
    type V = Seq<WriteView>;

    closed spec fn view(&self) -> Seq<WriteView> {
        Seq::new(self.writes@.len(), |i: int| self.writes@[i]@)
    }
}

impl StateBuffer {
    /// A buffer without writes.
    pub fn new() -> (b: Self)
        ensures
            b@ == Seq::<WriteView>::empty(),
    {
        let b = StateBuffer { writes: Vec::new() };
        assert(b@ =~= Seq::<WriteView>::empty());
        b
    }

    /// The number of writes buffered.
    pub fn len(&self) -> (n: usize)
        ensures
            n == self@.len(),
    {
        self.writes.len()
    }

    /// Buffers the setting of a field.
    pub fn set(&mut self, field: String, value: Value)
        ensures
            final(self)@ == old(self)@.push(WriteView { field: field@, value: Some(value@) }),
    {
        self.writes.push(Write::Put { field, value });
        assert(self@ =~= old(self)@.push(WriteView { field: field@, value: Some(value@) }));
    }

    /// Buffers the clearing of a field.
    pub fn clear(&mut self, field: String)
        ensures
            final(self)@ == old(self)@.push(WriteView { field: field@, value: None }),
    {
        self.writes.push(Write::Clear { field });
        assert(self@ =~= old(self)@.push(WriteView { field: field@, value: None }));
    }

    /// What the buffer makes of a field: see [`pending`].
    pub fn lookup(&self, field: &String) -> (r: Option<Option<Value>>)
        ensures
            r is Some <==> pending(self@, field@) is Some,
            r matches Some(w) ==> optional_view(w) == pending(self@, field@)->0,
    {
        let mut i: usize = self.writes.len();
        assert(self@.take(i as int) =~= self@);
        while i > 0
            invariant
                i <= self.writes.len(),
                pending(self@, field@) == pending(self@.take(i as int), field@),
            decreases i,
        {
            i = i - 1;
            proof {
                assert(self@.take(i + 1).drop_last() =~= self@.take(i as int));
                assert(self@.take(i + 1).last() == self.writes@[i as int]@);
            }
            match &self.writes[i] {
                Write::Put { field: f, value } => {
                    if *f == *field {
                        return Some(Some(value.clone()));
                    }
                },
                Write::Clear { field: f } => {
                    if *f == *field {
                        return Some(None);
                    }
                },
            }
        }
        None
    }
}

/// The path of a field in the state table.
pub open spec fn field_path(object_type: Seq<char>, key: Seq<char>, field: Seq<char>) -> Seq<Seq<char>> {
    seq![object_type, key, field]
}

proof fn lemma_field_paths_differ(
    t1: Seq<char>,
    k1: Seq<char>,
    f1: Seq<char>,
    t2: Seq<char>,
    k2: Seq<char>,
    f2: Seq<char>,
)
    ensures
        field_path(t1, k1, f1) == field_path(t2, k2, f2) ==> t1 == t2 && k1 == k2 && f1 == f2,
{
    if field_path(t1, k1, f1) == field_path(t2, k2, f2) {
        assert(field_path(t1, k1, f1)[0] == t1);
        assert(field_path(t1, k1, f1)[1] == k1);
        assert(field_path(t1, k1, f1)[2] == f1);
        assert(field_path(t2, k2, f2)[0] == t2);
        assert(field_path(t2, k2, f2)[1] == k2);
        assert(field_path(t2, k2, f2)[2] == f2);
    }
}

proof fn lemma_object_paths_differ(t1: Seq<char>, k1: Seq<char>, t2: Seq<char>, k2: Seq<char>)
    ensures
        seq![t1, k1] == seq![t2, k2] ==> t1 == t2 && k1 == k2,
{
    if seq![t1, k1] == seq![t2, k2] {
        assert(seq![t1, k1][0] == t1);
        assert(seq![t1, k1][1] == k1);
        assert(seq![t2, k2][0] == t2);
        assert(seq![t2, k2][1] == k2);
    }
}

/// The version of an object after one more commit.
pub open spec fn next_version(v: u64) -> u64 {
    if v < u64::MAX {
        (v + 1) as u64
    } else {
        v
    }
}

/// The committed state of all objects.
pub struct ObjectStateStore {
    fields: PathTable<Option<Value>>,
    versions: PathTable<u64>,
}

impl ObjectStateStore {
    /// The invariant of the representation.
    pub closed spec fn inv(&self) -> bool {
        self.fields.inv() && self.versions.inv()
    }

    /// The committed value of a field of an object; `None` where it is not
    /// set.
    pub closed spec fn committed(
        &self,
        object_type: Seq<char>,
        key: Seq<char>,
        field: Seq<char>,
    ) -> Option<ValueView> {
        if self.fields.map().dom().contains(field_path(object_type, key, field)) {
            optional_view(self.fields.map()[field_path(object_type, key, field)])
        } else {
            None
        }
    }

    /// The number of commits made on an object.
    pub closed spec fn version_of(&self, object_type: Seq<char>, key: Seq<char>) -> u64 {
        if self.versions.map().dom().contains(seq![object_type, key]) {
            self.versions.map()[seq![object_type, key]]
        } else {
            0
        }
    }

    /// Whether this store is `before` after the writes were committed to one
    /// object: every field of the object has the value that the writes make
    /// of it, the object's version has gone up by one, and no other object
    /// has changed.
    pub open spec fn is_commit_of(
        &self,
        before: &ObjectStateStore,
        object_type: Seq<char>,
        key: Seq<char>,
        writes: Seq<WriteView>,
    ) -> bool {
        &&& forall|f: Seq<char>| #[trigger]
            self.committed(object_type, key, f) == overlay(
                writes,
                f,
                before.committed(object_type, key, f),
            )
        &&& forall|t: Seq<char>, k: Seq<char>, f: Seq<char>|
            !(t == object_type && k == key) ==> #[trigger] self.committed(t, k, f)
                == before.committed(t, k, f)
        &&& self.version_of(object_type, key) == next_version(before.version_of(object_type, key))
        &&& forall|t: Seq<char>, k: Seq<char>|
            !(t == object_type && k == key) ==> #[trigger] self.version_of(t, k)
                == before.version_of(t, k)
    }

    /// A store in which no field is set.
    pub fn new() -> (s: Self)
        ensures
            s.inv(),
            forall|t: Seq<char>, k: Seq<char>, f: Seq<char>| #[trigger] s.committed(t, k, f) is None,
            forall|t: Seq<char>, k: Seq<char>| #[trigger] s.version_of(t, k) == 0,
    {
        ObjectStateStore { fields: PathTable::new(), versions: PathTable::new() }
    }

    /// The committed value of a field.
    pub fn get(&self, object_type: &str, key: &str, field: &str) -> (r: Option<Value>)
        requires
            self.inv(),
        ensures
            optional_view(r) == self.committed(object_type@, key@, field@),
    {
        let path = path3(object_type, key, field);
        match self.fields.find(&path) {
            Some(i) => clone_optional(self.fields.value(i)),
            None => None,
        }
    }

    /// The number of commits made on an object.
    pub fn version(&self, object_type: &str, key: &str) -> (v: u64)
        requires
            self.inv(),
        ensures
            v == self.version_of(object_type@, key@),
    {
        let path = path2(object_type, key);
        match self.versions.find(&path) {
            Some(i) => *self.versions.value(i),
            None => 0,
        }
    }

    /// The value of a field as the invocation that owns `buffer` sees it: its
    /// own last write where it made one, the committed value where not.
    pub fn read(&self, object_type: &str, key: &str, buffer: &StateBuffer, field: &String) -> (r:
        Option<Value>)
        requires
            self.inv(),
        ensures
            optional_view(r) == overlay(
                buffer@,
                field@,
                self.committed(object_type@, key@, field@),
            ),
    {
        match buffer.lookup(field) {
            Some(w) => w,
            None => self.get(object_type, key, field.as_str()),
        }
    }

    /// Commits the writes of an invocation to its object, all of them at
    /// once: afterwards every field of the object has the value that the
    /// invocation saw last, the object's version has gone up by one, and no
    /// other object has changed.
    pub fn commit(&mut self, object_type: &str, key: &str, buffer: StateBuffer)
        requires
            old(self).inv(),
        ensures
            final(self).inv(),
            final(self).is_commit_of(old(self), object_type@, key@, buffer@),
    {
        let writes = buffer.writes;
        let ghost all = buffer@;
        let mut i: usize = 0;
        assert(all.take(0) =~= Seq::<WriteView>::empty());
        while i < writes.len()
            invariant
                i <= writes.len(),
                self.inv(),
                self.versions == old(self).versions,
                all.len() == writes@.len(),
                forall|j: int| 0 <= j < all.len() ==> all[j] == writes@[j]@,
                forall|f: Seq<char>| #[trigger]
                    self.committed(object_type@, key@, f) == overlay(
                        all.take(i as int),
                        f,
                        old(self).committed(object_type@, key@, f),
                    ),
                forall|t: Seq<char>, k: Seq<char>, f: Seq<char>|
                    !(t == object_type@ && k == key@) ==> #[trigger] self.committed(t, k, f) == old(
                        self,
                    ).committed(t, k, f),
            decreases writes.len() - i,
        {
            let ghost before = *self;
            let (field, value) = match &writes[i] {
                Write::Put { field, value } => (field.clone(), Some(value.clone())),
                Write::Clear { field } => (field.clone(), None),
            };
            let path = path3(object_type, key, field.as_str());
            self.fields.put(path, value);
            proof {
                assert(all.take(i + 1).drop_last() =~= all.take(i as int));
                assert(all.take(i + 1).last() == all[i as int]);
                assert forall|f: Seq<char>| #[trigger]
                    self.committed(object_type@, key@, f) == overlay(
                        all.take(i + 1),
                        f,
                        old(self).committed(object_type@, key@, f),
                    ) by {
                    lemma_field_paths_differ(object_type@, key@, f, object_type@, key@, field@);
                    assert(before.committed(object_type@, key@, f) == overlay(
                        all.take(i as int),
                        f,
                        old(self).committed(object_type@, key@, f),
                    ));
                }
                assert forall|t: Seq<char>, k: Seq<char>, f: Seq<char>|
                    !(t == object_type@ && k == key@) implies #[trigger] self.committed(t, k, f)
                    == old(self).committed(t, k, f) by {
                    lemma_field_paths_differ(t, k, f, object_type@, key@, field@);
                    assert(before.committed(t, k, f) == old(self).committed(t, k, f));
                }
            }
            i = i + 1;
        }
        assert(all.take(writes.len() as int) =~= all);
        let version = self.version(object_type, key);
        let next = if version < u64::MAX {
            version + 1
        } else {
            version
        };
        let ghost before = *self;
        self.versions.put(path2(object_type, key), next);
        proof {
            assert forall|t: Seq<char>, k: Seq<char>|
                !(t == object_type@ && k == key@) implies #[trigger] self.version_of(t, k) == old(
                self,
            ).version_of(t, k) by {
                lemma_object_paths_differ(t, k, object_type@, key@);
            }
            assert forall|t: Seq<char>, k: Seq<char>, f: Seq<char>| #[trigger]
                self.committed(t, k, f) == before.committed(t, k, f) by {}
        }
    }
}

/// Reading through an empty buffer gives the committed value, and a buffer
/// shows its owner the last write to a field whatever was committed: writes
/// stay with the invocation that made them until they are committed.
pub proof fn law_buffer_overlays(
    writes: Seq<WriteView>,
    field: Seq<char>,
    value: Option<ValueView>,
    committed: Option<ValueView>,
)
    ensures
        overlay(Seq::empty(), field, committed) == committed,
        overlay(writes.push(WriteView { field, value }), field, committed) == value,
        forall|other: Seq<char>|
            other != field ==> overlay(writes.push(WriteView { field, value }), other, committed)
                == overlay(writes, other, committed),
{
    let w = writes.push(WriteView { field, value });
    assert(w.last() == WriteView { field, value });
    assert(w.drop_last() =~= writes);
}

} // verus!
