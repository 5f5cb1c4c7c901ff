//! The construction protocol that a generated builder follows.
//!
//! A builder holds one slot per field of its schema, each absent or present
//! with a value. `Builder` runs that protocol on values of one type `V`, so
//! that what the generated code does can be stated, proved and tried out:
//! every slot starts absent, a setter fills the slot of the field it is named
//! after, and `build` hands out a record or names the first field that was
//! never set. Values are duplicated into the record, hence `V: Copy`.

use vstd::prelude::*;
use crate::expand::missing_field_message;
use crate::structs::{distinct_names, has_field, is_position, FieldView, Struct, StructView};

verus! {

/// What a builder is, mathematically: its schema and one slot per field.
pub struct BuilderView<V> {
    pub schema: StructView,
    pub slots: Seq<Option<V>>,
}

/// What a finished record is, mathematically: the record's name and the
/// values of its fields in declaration order.
pub struct RecordView<V> {
    pub name: Seq<char>,
    pub values: Seq<V>,
}

/// A builder for records of one schema.
pub struct Builder<V> {
    schema: Struct,
    slots: Vec<Option<V>>,
}

/// A finished record: the record's name and the values of its fields in
/// declaration order.
#[derive(Debug, PartialEq, Eq)]
pub struct Record<V> {
    pub name: String,
    pub values: Vec<V>,
}

/// The error of `build`: the name of the first field, in declaration order,
/// that was never set.
#[derive(Debug, PartialEq, Eq)]
pub struct MissingField {
    pub field: String,
}

/// Every slot holds a value.
pub open spec fn complete<V>(slots: Seq<Option<V>>) -> bool {
    forall|k: int| 0 <= k < slots.len() ==> (#[trigger] slots[k]) is Some
}

/// Slot `k` is the first that holds no value.
pub open spec fn is_first_absent<V>(slots: Seq<Option<V>>, k: int) -> bool {
    &&& 0 <= k < slots.len()
    &&& slots[k] is None
    &&& forall|j: int| 0 <= j < k ==> (#[trigger] slots[j]) is Some
}

/// The place of the first slot that holds no value, where there is one.
pub open spec fn first_absent<V>(slots: Seq<Option<V>>) -> int {
    choose|k: int| is_first_absent(slots, k)
}

/// The place of the first field of `fields` that is called `name`, where
/// there is one.
pub open spec fn position_of(fields: Seq<FieldView>, name: Seq<char>) -> int {
    choose|k: int| is_position(fields, name, k)
}

impl<V> BuilderView<V> {
    /// The builder that `new` makes: every slot absent.
    pub open spec fn fresh(schema: StructView) -> BuilderView<V> {
        BuilderView { schema, slots: Seq::new(schema.fields.len(), |k: int| None) }
    }

    /// This builder after the setter of the field called `name` was given
    /// `value`: that field's slot holds `value`, the others are as before.
    pub open spec fn set(self, name: Seq<char>, value: V) -> BuilderView<V> {
        BuilderView {
            schema: self.schema,
            slots: self.slots.update(position_of(self.schema.fields, name), Some(value)),
        }
    }

    /// What `build` returns on this builder: the record of the slots' values
    /// if every slot holds one, else the name of the first field whose slot
    /// holds none.
    pub open spec fn build(self) -> Result<RecordView<V>, Seq<char>> {
        if complete(self.slots) {
            Ok(
                RecordView {
                    name: self.schema.name,
                    values: Seq::new(self.slots.len(), |k: int| self.slots[k]->0),
                },
            )
        } else {
            Err(self.schema.fields[first_absent(self.slots)].ident)
        }
    }
}

/// One call of a setter: the field it is named after and the value given.
pub struct Call<V> {
    pub field: Seq<char>,
    pub value: V,
}

/// Every call of `calls` is to the setter of a field of `fields`.
pub open spec fn setters_of<V>(fields: Seq<FieldView>, calls: Seq<Call<V>>) -> bool {
    forall|j: int| 0 <= j < calls.len() ==> has_field(fields, (#[trigger] calls[j]).field)
}

/// Some call of `calls` is to the setter of the field called `name`.
pub open spec fn called<V>(calls: Seq<Call<V>>, name: Seq<char>) -> bool {
    exists|j: int| 0 <= j < calls.len() && (#[trigger] calls[j]).field == name
}

/// The value of the last call of `calls` to the setter of the field called
/// `name`, if there was such a call.
pub open spec fn last_set<V>(calls: Seq<Call<V>>, name: Seq<char>) -> Option<V>
    decreases calls.len(),
{
    if calls.len() == 0 {
        None
    } else if calls.last().field == name {
        Some(calls.last().value)
    } else {
        last_set(calls.drop_last(), name)
    }
}

/// The builder that a fresh builder for `schema` becomes by the calls of
/// `calls`, made in that order.
pub open spec fn replay<V>(schema: StructView, calls: Seq<Call<V>>) -> BuilderView<V>
    decreases calls.len(),
{
    if calls.len() == 0 {
        BuilderView::fresh(schema)
    } else {
        replay(schema, calls.drop_last()).set(calls.last().field, calls.last().value)
    }
}

/// A setter was called for a field exactly if there is a last value set for
/// it.
pub proof fn called_has_last_value<V>(calls: Seq<Call<V>>, name: Seq<char>)
    ensures
        called(calls, name) <==> last_set(calls, name) is Some,
    decreases calls.len(),
{
    if calls.len() > 0 {
        let before = calls.drop_last();
        called_has_last_value(before, name);
        if calls.last().field != name && called(calls, name) {
            let j = choose|j: int| 0 <= j < calls.len() && (#[trigger] calls[j]).field == name;
            assert(before[j].field == name);
        }
    }
}

/// A field that is there has a first place: among the fields up to place
/// `k`, which is called `name`, one is the first of that name.
proof fn first_place_up_to(fields: Seq<FieldView>, name: Seq<char>, k: int)
    requires
        0 <= k < fields.len(),
        fields[k].ident == name,
    ensures
        exists|p: int| is_position(fields, name, p),
    decreases k,
{
    if exists|j: int| 0 <= j < k && (#[trigger] fields[j]).ident == name {
        let j = choose|j: int| 0 <= j < k && (#[trigger] fields[j]).ident == name;
        first_place_up_to(fields, name, j);
    } else {
        assert(is_position(fields, name, k));
    }
}

/// The place of a field that is there is the first place at which a field
/// of that name stands.
pub proof fn position_is_first(fields: Seq<FieldView>, name: Seq<char>)
    requires
        has_field(fields, name),
    ensures
        is_position(fields, name, position_of(fields, name)),
{
    let k = choose|k: int| 0 <= k < fields.len() && (#[trigger] fields[k]).ident == name;
    first_place_up_to(fields, name, k);
}

/// The last write wins: of two calls in a row to the setter of one field,
/// only the second counts.
pub proof fn setting_again_overwrites<V>(b: BuilderView<V>, name: Seq<char>, first: V, second: V)
    requires
        b.slots.len() == b.schema.fields.len(),
        has_field(b.schema.fields, name),
    ensures
        b.set(name, first).set(name, second) == b.set(name, second),
{
    position_is_first(b.schema.fields, name);
    assert(b.set(name, first).set(name, second).slots =~= b.set(name, second).slots);
}

/// Where no two fields share a name, a field's place is the one place at
/// which a field of that name stands.
pub proof fn position_is_unique(fields: Seq<FieldView>, k: int)
    requires
        distinct_names(fields),
        0 <= k < fields.len(),
    ensures
        position_of(fields, fields[k].ident) == k,
{
    assert(is_position(fields, fields[k].ident, k));
}

/// After any calls of setters, in any order, each slot holds the last value
/// that was set for its field, and is absent if none was.
pub proof fn slots_hold_last_values<V>(schema: StructView, calls: Seq<Call<V>>)
    requires
        distinct_names(schema.fields),
        setters_of(schema.fields, calls),
    ensures
        replay(schema, calls).schema == schema,
        replay(schema, calls).slots.len() == schema.fields.len(),
        forall|k: int|
            0 <= k < schema.fields.len() ==> (#[trigger] replay(schema, calls).slots[k])
                == last_set(calls, schema.fields[k].ident),
    decreases calls.len(),
{
    if calls.len() > 0 {
        slots_hold_last_values(schema, calls.drop_last());
        // The last call reaches exactly the slot of the field that it names.
        let at = choose|k: int|
            0 <= k < schema.fields.len() && (#[trigger] schema.fields[k]).ident
                == calls.last().field;
        position_is_unique(schema.fields, at);
    }
}

/// Completeness: once the setter of every field was called, in whatever
/// order and however often, `build` succeeds, and each field of the record
/// holds the last value that was set for it.
pub proof fn all_fields_set_builds<V>(schema: StructView, calls: Seq<Call<V>>)
    requires
        distinct_names(schema.fields),
        setters_of(schema.fields, calls),
        forall|k: int|
            0 <= k < schema.fields.len() ==> called(calls, (#[trigger] schema.fields[k]).ident),
    ensures
        replay(schema, calls).build() matches Ok(record) && record.name == schema.name
            && record.values.len() == schema.fields.len() && forall|k: int|
            0 <= k < schema.fields.len() ==> last_set(calls, schema.fields[k].ident) == Some(
                #[trigger] record.values[k],
            ),
{
    slots_hold_last_values(schema, calls);
    let built = replay(schema, calls);
    assert forall|k: int| 0 <= k < built.slots.len() implies (#[trigger] built.slots[k])
        is Some by {
        called_has_last_value(calls, schema.fields[k].ident);
    }
}

/// The first missing field wins: where the setter of some field was never
/// called, while that of every field declared before it was, `build` fails
/// and names that field.
pub proof fn first_missing_field_wins<V>(schema: StructView, calls: Seq<Call<V>>, k: int)
    requires
        distinct_names(schema.fields),
        setters_of(schema.fields, calls),
        0 <= k < schema.fields.len(),
        !called(calls, schema.fields[k].ident),
        forall|j: int| 0 <= j < k ==> called(calls, (#[trigger] schema.fields[j]).ident),
    ensures
        replay(schema, calls).build() == Err::<RecordView<V>, Seq<char>>(schema.fields[k].ident),
{
    slots_hold_last_values(schema, calls);
    let built = replay(schema, calls);
    called_has_last_value(calls, schema.fields[k].ident);
    assert forall|j: int| 0 <= j < k implies (#[trigger] built.slots[j]) is Some by {
        called_has_last_value(calls, schema.fields[j].ident);
    }
    assert(is_first_absent(built.slots, k));
}

/// The missing field is named: where the setters of all fields but one were
/// called, `build` fails and names that one, whichever it is.
pub proof fn missing_field_is_named<V>(schema: StructView, calls: Seq<Call<V>>, k: int)
    requires
        distinct_names(schema.fields),
        setters_of(schema.fields, calls),
        0 <= k < schema.fields.len(),
        !called(calls, schema.fields[k].ident),
        forall|j: int|
            0 <= j < schema.fields.len() && j != k ==> called(
                calls,
                (#[trigger] schema.fields[j]).ident,
            ),
    ensures
        replay(schema, calls).build() == Err::<RecordView<V>, Seq<char>>(schema.fields[k].ident),
{
    first_missing_field_wins(schema, calls, k);
}

impl<V> View for Record<V> {
    type V = RecordView<V>;

    open spec fn view(&self) -> RecordView<V> {
        RecordView { name: self.name@, values: self.values@ }
    }
}

impl View for MissingField {
    type V = Seq<char>;

    open spec fn view(&self) -> Seq<char> {
        self.field@
    }
}

/// The mathematical value of a `build` result.
pub open spec fn build_view<V>(r: Result<Record<V>, MissingField>) -> Result<
    RecordView<V>,
    Seq<char>,
> {
    match r {
        Ok(record) => Ok(record@),
        Err(e) => Err(e@),
    }
}

impl MissingField {
    /// The message for this error, which names the field.
    pub fn message(&self) -> (res: String)
        ensures
            res@ == missing_field_message(self.field@),
    {
        let mut res = String::new();
        res.append("field `");
        res.append(self.field.as_str());
        res.append("` was not set");
        res
    }
}

impl<V> View for Builder<V> {
    type V = BuilderView<V>;

    closed spec fn view(&self) -> BuilderView<V> {
        BuilderView { schema: self.schema@, slots: self.slots@ }
    }
}

impl<V> Builder<V> {
    #[verifier::type_invariant]
    spec fn inv(self) -> bool {
        self.slots@.len() == self.schema@.fields.len()
    }
}

impl<V: Copy> Builder<V> {
    /// A builder for `schema` with every slot absent.
    pub fn new(schema: Struct) -> (b: Builder<V>)
        ensures
            b@ == BuilderView::<V>::fresh(schema@),
    {
        let mut slots: Vec<Option<V>> = Vec::new();
        let mut i: usize = 0;
        while i < schema.fields.len()
            invariant
                i <= schema.fields.len(),
                slots.len() == i,
                forall|k: int| 0 <= k < i ==> (#[trigger] slots[k]) is None,
            decreases schema.fields.len() - i,
        {
            slots.push(None);
            i += 1;
        }
        assert(slots@ =~= BuilderView::<V>::fresh(schema@).slots);
        Builder { schema, slots }
    }

    /// The schema that this builder is for.
    pub fn schema(&self) -> (res: &Struct)
        ensures
            res@ == self@.schema,
    {
        &self.schema
    }

    /// The setter of the field called `name`: stores `value` in that field's
    /// slot, over whatever the slot held, and hands back this builder for the
    /// next call.
    pub fn set(&mut self, name: &str, value: V) -> (chain: &mut Builder<V>)
        requires
            has_field(old(self)@.schema.fields, name@),
        ensures
            chain@ == old(self)@.set(name@, value),
            final(self)@ == final(chain)@,
    {
        proof {
            use_type_invariant(&*self);
        }
        match self.schema.position(name) {
            Some(k) => {
                self.slots[k] = Some(value);
            },
            // No field of that name: the precondition leaves this out.
            None => {},
        }
        self
    }

    /// The record with every field's value, copied out of the slots in
    /// declaration order, or the first field, in declaration order, whose
    /// slot is absent. The builder is left as it was, so that the caller can
    /// set what was missing and build again.
    pub fn build(&self) -> (res: Result<Record<V>, MissingField>)
        ensures
            build_view(res) == self@.build(),
    {
        proof {
            use_type_invariant(self);
        }
        let mut values: Vec<V> = Vec::new();
        let mut i: usize = 0;
        while i < self.slots.len()
            invariant
                i <= self.slots.len(),
                self.slots@.len() == self.schema@.fields.len(),
                values.len() == i,
                forall|k: int| 0 <= k < i ==> (#[trigger] self.slots@[k]) == Some(values@[k]),
            decreases self.slots.len() - i,
        {
            match self.slots[i] {
                Some(value) => {
                    values.push(value);
                },
                None => {
                    assert(is_first_absent(self.slots@, i as int));
                    return Err(MissingField { field: self.schema.fields[i].field_ident.clone() });
                },
            }
            i += 1;
        }
        assert(values@ =~= Seq::new(self.slots@.len(), |k: int| self.slots@[k]->0));
        Ok(Record { name: self.schema.ident.clone(), values })
    }
}

} // verus!
