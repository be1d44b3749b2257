use vstd::prelude::*;

use crate::error::GfxError;
use crate::matrix::Mat4;
use crate::slots::SlotTable;

verus! {

/// The identifier that stands for "no program is active".
pub const NO_PROGRAM: u32 = 0;

/// What the graphics context knows of programs: which one is active, and how
/// many identifiers have been handed out (identifiers start at 1).
pub struct ProgramTracker {
    active_uid: u32,
    next_uid: u32,
}

impl ProgramTracker {
    /// The identifier of the active program, or `NO_PROGRAM`.
    pub closed spec fn active(&self) -> u32 {
        self.active_uid
    }

    /// How many identifiers have been handed out so far.
    pub closed spec fn issued(&self) -> u32 {
        self.next_uid
    }

    pub fn new() -> (r: Self)
        ensures
            r.active() == NO_PROGRAM,
            r.issued() == 0,
    {
        ProgramTracker { active_uid: NO_PROGRAM, next_uid: 0 }
    }

    pub fn get_active_uid(&self) -> (r: u32)
        ensures
            r == self.active(),
    {
        self.active_uid
    }

    pub fn set_active_uid(&mut self, uid: u32)
        ensures
            final(self).active() == uid,
            final(self).issued() == old(self).issued(),
    {
        self.active_uid = uid;
    }

    /// Hands out a fresh identifier, or `None` once all of them are taken.
    pub fn get_next_uid(&mut self) -> (r: Option<u32>)
        ensures
            final(self).active() == old(self).active(),
            old(self).issued() < u32::MAX ==> r == Some((old(self).issued() + 1) as u32)
                && final(self).issued() == old(self).issued() + 1,
            old(self).issued() == u32::MAX ==> r is None && final(self).issued() == old(
                self,
            ).issued(),
    {
        if self.next_uid == u32::MAX {
            None
        } else {
            self.next_uid = self.next_uid + 1;
            Some(self.next_uid)
        }
    }
}

/// A linked shader program: its device handle `P`, the attribute slots and the
/// uniform locations `U` it has resolved by name.
pub struct ShaderProgram<P, U> {
    uid: u32,
    program: P,
    attributes: SlotTable<u32>,
    uniforms: SlotTable<U>,
}

impl<P, U> ShaderProgram<P, U> {
    pub closed spec fn uid_spec(&self) -> u32 {
        self.uid
    }

    pub closed spec fn handle_spec(&self) -> P {
        self.program
    }

    /// The registered attributes with their slots, in registration order.
    pub closed spec fn attribute_entries(&self) -> Seq<(Seq<char>, u32)> {
        self.attributes.entries()
    }

    /// The registered uniforms with their locations, in registration order.
    pub closed spec fn uniform_entries(&self) -> Seq<(Seq<char>, U)> {
        self.uniforms.entries()
    }

    pub open spec fn attribute(&self, name: Seq<char>) -> Option<u32> {
        crate::slots::lookup(self.attribute_entries(), name)
    }

    pub open spec fn uniform(&self, name: Seq<char>) -> Option<U> {
        crate::slots::lookup(self.uniform_entries(), name)
    }

    /// Wraps a linked program under a fresh identifier; nothing is registered yet.
    pub fn new(program: P, tracker: &mut ProgramTracker) -> (r: Result<Self, GfxError>)
        ensures
            final(tracker).active() == old(tracker).active(),
            r is Ok <==> old(tracker).issued() < u32::MAX,
            r matches Ok(p) ==> {
                &&& p.uid_spec() == old(tracker).issued() + 1
                &&& final(tracker).issued() == p.uid_spec()
                &&& p.handle_spec() == program
                &&& p.attribute_entries().len() == 0
                &&& p.uniform_entries().len() == 0
            },
            r matches Err(e) ==> e is ProgramIdsExhausted && final(tracker).issued() == old(
                tracker,
            ).issued(),
    {
        match tracker.get_next_uid() {
            Some(uid) => Ok(
                ShaderProgram {
                    uid,
                    program,
                    attributes: SlotTable::new(),
                    uniforms: SlotTable::new(),
                },
            ),
            None => Err(GfxError::ProgramIdsExhausted),
        }
    }

    pub fn uid(&self) -> (r: u32)
        ensures
            r == self.uid_spec(),
    {
        self.uid
    }

    /// The device handle of the linked program.
    pub fn handle(&self) -> (r: &P)
        ensures
            *r == self.handle_spec(),
    {
        &self.program
    }

    /// Makes this program the active one. Returns the attribute slots to
    /// enable, in registration order.
    pub fn use_program(&self, tracker: &mut ProgramTracker) -> (r: Vec<u32>)
        ensures
            final(tracker).active() == self.uid_spec(),
            final(tracker).issued() == old(tracker).issued(),
            r@ == self.attribute_entries().map_values(|e: (Seq<char>, u32)| e.1),
    {
        let mut slots: Vec<u32> = Vec::new();
        let n = self.attributes.len();
        let mut i: usize = 0;
        while i < n
            invariant
                n == self.attribute_entries().len(),
                i <= n,
                slots@ == self.attribute_entries().subrange(0, i as int).map_values(
                    |e: (Seq<char>, u32)| e.1,
                ),
            decreases n - i,
        {
            slots.push(*self.attributes.value_at(i));
            i = i + 1;
            assert(slots@ =~= self.attribute_entries().subrange(0, i as int).map_values(
                |e: (Seq<char>, u32)| e.1,
            ));
        }
        assert(self.attribute_entries().subrange(0, n as int) =~= self.attribute_entries());
        tracker.set_active_uid(self.uid);
        slots
    }

    /// Records the slot that the driver reported for attribute `name`
    /// (negative when the linked program has no such attribute). A name
    /// registered before keeps its first slot.
    pub fn register_attribute(&mut self, name: &str, location: i32) -> (r: Result<u32, GfxError>)
        ensures
            final(self).uid_spec() == old(self).uid_spec(),
            final(self).handle_spec() == old(self).handle_spec(),
            final(self).uniform_entries() == old(self).uniform_entries(),
            r is Ok <==> location >= 0,
            r matches Ok(slot) ==> {
                &&& final(self).attribute(name@) == Some(slot)
                &&& old(self).attribute(name@) is None ==> slot == location as u32
                    && final(self).attribute_entries() == old(self).attribute_entries().push(
                    (name@, slot),
                )
                &&& old(self).attribute(name@) is Some ==> old(self).attribute(name@) == Some(
                    slot,
                ) && final(self).attribute_entries() == old(self).attribute_entries()
            },
            r matches Err(e) ==> e matches GfxError::MissingAttribute { name: n } && n@ == name@
                && final(self).attribute_entries() == old(self).attribute_entries(),
    {
        if location < 0 {
            return Err(GfxError::MissingAttribute { name: name.to_owned() });
        }
        self.attributes.insert(name, location as u32);
        match self.attributes.get(name) {
            Some(slot) => Ok(*slot),
            None => Err(GfxError::MissingAttribute { name: name.to_owned() }),
        }
    }

    /// Records the location that the driver reported for uniform `name`
    /// (`None` when the linked program has no such uniform). A name
    /// registered before keeps its first location.
    pub fn register_uniform(&mut self, name: &str, location: Option<U>) -> (r: Result<(), GfxError>)
        ensures
            final(self).uid_spec() == old(self).uid_spec(),
            final(self).handle_spec() == old(self).handle_spec(),
            final(self).attribute_entries() == old(self).attribute_entries(),
            r is Ok <==> location is Some,
            r is Ok ==> final(self).uniform(name@) is Some,
            location matches Some(l) ==> {
                &&& old(self).uniform(name@) is None ==> final(self).uniform(name@) == Some(l)
                    && final(self).uniform_entries() == old(self).uniform_entries().push(
                    (name@, l),
                )
                &&& old(self).uniform(name@) is Some ==> final(self).uniform_entries() == old(
                    self,
                ).uniform_entries()
            },
            r matches Err(e) ==> e matches GfxError::MissingUniform { name: n } && n@ == name@
                && final(self).uniform_entries() == old(self).uniform_entries(),
    {
        match location {
            Some(l) => {
                self.uniforms.insert(name, l);
                Ok(())
            },
            None => Err(GfxError::MissingUniform { name: name.to_owned() }),
        }
    }

    /// The slot of a registered attribute.
    pub fn get_attribute(&self, name: &str) -> (r: Result<u32, GfxError>)
        ensures
            r is Ok <==> self.attribute(name@) is Some,
            r matches Ok(slot) ==> self.attribute(name@) == Some(slot),
            r matches Err(e) ==> e matches GfxError::AttributeNotRegistered { name: n } && n@
                == name@,
    {
        match self.attributes.get(name) {
            Some(slot) => Ok(*slot),
            None => Err(GfxError::AttributeNotRegistered { name: name.to_owned() }),
        }
    }

    /// The location of a registered uniform.
    pub fn get_uniform(&self, name: &str) -> (r: Result<&U, GfxError>)
        ensures
            r is Ok <==> self.uniform(name@) is Some,
            r matches Ok(l) ==> self.uniform(name@) == Some(*l),
            r matches Err(e) ==> e matches GfxError::UniformNotRegistered { name: n } && n@
                == name@,
    {
        match self.uniforms.get(name) {
            Some(l) => Ok(l),
            None => Err(GfxError::UniformNotRegistered { name: name.to_owned() }),
        }
    }

    /// What to write for uniform `name`: its location and the sixteen values of
    /// `payload` in column-major order. Only the active program may upload.
    pub fn upload_uniform<T: Copy>(
        &self,
        tracker: &ProgramTracker,
        name: &str,
        payload: &Mat4<T>,
    ) -> (r: Result<(&U, [T; 16]), GfxError>)
        ensures
            r is Ok <==> tracker.active() == self.uid_spec() && self.uniform(name@) is Some,
            r matches Ok((l, values)) ==> self.uniform(name@) == Some(*l) && values@
                == payload.column_major(),
            tracker.active() != self.uid_spec() ==> (r matches Err(e) && e matches GfxError::WrongActiveProgram { expected, active }
                && expected == self.uid_spec() && active == tracker.active()),
            tracker.active() == self.uid_spec() && self.uniform(name@) is None ==> (r matches Err(e)
                && e matches GfxError::UniformNotRegistered { name: n } && n@ == name@),
    {
        let active = tracker.get_active_uid();
        if active != self.uid {
            return Err(GfxError::WrongActiveProgram { expected: self.uid, active });
        }
        let location = self.get_uniform(name)?;
        Ok((location, payload.to_column_major()))
    }
}

/// Within one linked program a name keeps the slot it was first registered
/// with: registering further names, each new at its turn, never changes it.
pub proof fn lemma_attribute_slot_stable<P, U>(
    before: ShaderProgram<P, U>,
    after: ShaderProgram<P, U>,
    added: Seq<(Seq<char>, u32)>,
    name: Seq<char>,
)
    requires
        before.attribute(name) is Some,
        after.attribute_entries() == before.attribute_entries() + added,
        forall|i: int|
            0 <= i < added.len() ==> crate::slots::lookup(
                before.attribute_entries() + added.subrange(0, i),
                #[trigger] added[i].0,
            ) is None,
    ensures
        after.attribute(name) == before.attribute(name),
{
    assert forall|i: int| 0 <= i < added.len() implies #[trigger] added[i].0 != name by {
        if added[i].0 == name {
            lemma_prefix_binding_survives(before.attribute_entries(), added.subrange(0, i), name);
        }
    }
    crate::slots::lemma_lookup_append_other(before.attribute_entries(), added, name);
}

/// The same law for uniform locations.
pub proof fn lemma_uniform_location_stable<P, U>(
    before: ShaderProgram<P, U>,
    after: ShaderProgram<P, U>,
    added: Seq<(Seq<char>, U)>,
    name: Seq<char>,
)
    requires
        before.uniform(name) is Some,
        after.uniform_entries() == before.uniform_entries() + added,
        forall|i: int|
            0 <= i < added.len() ==> crate::slots::lookup(
                before.uniform_entries() + added.subrange(0, i),
                #[trigger] added[i].0,
            ) is None,
    ensures
        after.uniform(name) == before.uniform(name),
{
    assert forall|i: int| 0 <= i < added.len() implies #[trigger] added[i].0 != name by {
        if added[i].0 == name {
            lemma_prefix_binding_survives(before.uniform_entries(), added.subrange(0, i), name);
        }
    }
    crate::slots::lemma_lookup_append_other(before.uniform_entries(), added, name);
}

/// A name bound in `entries` is still bound once anything is appended.
proof fn lemma_prefix_binding_survives<V>(
    entries: Seq<(Seq<char>, V)>,
    added: Seq<(Seq<char>, V)>,
    name: Seq<char>,
)
    requires
        crate::slots::lookup(entries, name) is Some,
    ensures
        crate::slots::lookup(entries + added, name) is Some,
    decreases added.len(),
{
    if added.len() > 0 {
        let shorter = added.drop_last();
        assert((entries + added).drop_last() =~= entries + shorter);
        lemma_prefix_binding_survives(entries, shorter, name);
    } else {
        assert(entries + added =~= entries);
    }
}

/// When the driver gives each registered attribute its own slot, distinct
/// names resolve to distinct slots.
pub proof fn lemma_attribute_slots_distinct<P, U>(p: ShaderProgram<P, U>, a: Seq<char>, b: Seq<char>)
    requires
        a != b,
        p.attribute(a) is Some,
        p.attribute(b) is Some,
        forall|i: int, j: int|
            0 <= i < p.attribute_entries().len() && 0 <= j < p.attribute_entries().len() && i
                != j ==> #[trigger] p.attribute_entries()[i].1 != #[trigger] p.attribute_entries()[j].1,
    ensures
        p.attribute(a) != p.attribute(b),
{
    crate::slots::lemma_lookup_found(p.attribute_entries(), a);
    crate::slots::lemma_lookup_found(p.attribute_entries(), b);
}

/// When the driver gives each registered uniform its own location, distinct
/// names resolve to distinct locations.
pub proof fn lemma_uniform_locations_distinct<P, U>(p: ShaderProgram<P, U>, a: Seq<char>, b: Seq<char>)
    requires
        a != b,
        p.uniform(a) is Some,
        p.uniform(b) is Some,
        forall|i: int, j: int|
            0 <= i < p.uniform_entries().len() && 0 <= j < p.uniform_entries().len() && i
                != j ==> #[trigger] p.uniform_entries()[i].1 != #[trigger] p.uniform_entries()[j].1,
    ensures
        p.uniform(a) != p.uniform(b),
{
    crate::slots::lemma_lookup_found(p.uniform_entries(), a);
    crate::slots::lemma_lookup_found(p.uniform_entries(), b);
}

} // verus!
