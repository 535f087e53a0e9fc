//! The registry of rigid bodies: a dense table of slots addressed by handles
//! that carry the slot's generation, so a handle to a removed body finds
//! nothing instead of a later body.
use vstd::prelude::*;

use crate::body::{clamp_coord, clamp_coord_spec, Body, BodyError, body_error, MotionKind, Vec2};
use crate::contact::{overlaps, overlaps_spec, respond, respond_spec};

verus! {

/// Names one body of a `World`, or a body that was removed.
#[derive(Clone, Copy, Debug, PartialEq, Eq, Structural)]
pub struct BodyHandle {
    pub index: usize,
    pub generation: u64,
}

/// One entry of the table: the body it holds, if any, and how many bodies
/// have been removed from it (wrapping).
#[derive(Clone, Copy, Debug)]
pub struct Slot {
    pub generation: u64,
    pub body: Option<Body>,
}

pub struct World {
    slots: Vec<Slot>,
}

impl View for World {
    type V = Seq<Slot>;

    closed spec fn view(&self) -> Seq<Slot> {
        self.slots@
    }
}

/// `h` names a body that is in the table.
pub open spec fn live(s: Seq<Slot>, h: BodyHandle) -> bool {
    &&& h.index < s.len()
    &&& s[h.index as int].generation == h.generation
    &&& s[h.index as int].body is Some
}

/// The body that `h` names; meaningful where `live(s, h)`.
pub open spec fn body_of(s: Seq<Slot>, h: BodyHandle) -> Body {
    s[h.index as int].body->0
}

/// Every body in the table is within the limits of the simulation.
pub open spec fn slots_wf(s: Seq<Slot>) -> bool {
    forall|i: int| 0 <= i < s.len() && (#[trigger] s[i]).body is Some ==> s[i].body->0.valid()
}

/// The first empty slot at or after `i`, or the table's length if there is none.
pub open spec fn first_free_from(s: Seq<Slot>, i: int) -> int
    decreases s.len() - i,
{
    if i >= s.len() || i < 0 {
        s.len() as int
    } else if s[i].body is None {
        i
    } else {
        first_free_from(s, i + 1)
    }
}

/// Where the next body goes: the first empty slot, or a new one at the end.
pub open spec fn create_index(s: Seq<Slot>) -> int {
    first_free_from(s, 0)
}

/// The handle of the next body created in `s`.
pub open spec fn create_handle(s: Seq<Slot>) -> BodyHandle {
    let i = create_index(s);
    BodyHandle {
        index: i as usize,
        generation: if i < s.len() {
            s[i].generation
        } else {
            0
        },
    }
}

pub open spec fn slots_create(s: Seq<Slot>, b: Body) -> Seq<Slot> {
    let i = create_index(s);
    if i < s.len() {
        s.update(i, Slot { generation: s[i].generation, body: Some(b) })
    } else {
        s.push(Slot { generation: 0, body: Some(b) })
    }
}

pub open spec fn next_generation(g: u64) -> u64 {
    if g == u64::MAX {
        0
    } else {
        (g + 1) as u64
    }
}

pub open spec fn slots_remove(s: Seq<Slot>, h: BodyHandle) -> Seq<Slot> {
    if live(s, h) {
        s.update(
            h.index as int,
            Slot { generation: next_generation(s[h.index as int].generation), body: None },
        )
    } else {
        s
    }
}

pub open spec fn slots_place(s: Seq<Slot>, h: BodyHandle, p: Vec2) -> Seq<Slot> {
    if live(s, h) {
        s.update(
            h.index as int,
            Slot { body: Some(Body { position: p, ..body_of(s, h) }), ..s[h.index as int] },
        )
    } else {
        s
    }
}

/// A dynamic body after one tick of motion at its velocity.
pub open spec fn integrated(b: Body) -> Body {
    Body {
        position: Vec2 {
            x: clamp_coord_spec(b.position.x + b.velocity.x) as i64,
            y: clamp_coord_spec(b.position.y + b.velocity.y) as i64,
        },
        ..b
    }
}

pub open spec fn is_dynamic(sl: Slot) -> bool {
    sl.body is Some && sl.body->0.kind == MotionKind::Dynamic
}

pub open spec fn integrate_slot(sl: Slot) -> Slot {
    if is_dynamic(sl) {
        Slot { body: Some(integrated(sl.body->0)), ..sl }
    } else {
        sl
    }
}

pub open spec fn integrate_all(s: Seq<Slot>) -> Seq<Slot> {
    s.map_values(|sl: Slot| integrate_slot(sl))
}

/// The contact of dynamic body `i` with body `j`, if their boxes overlap.
pub open spec fn contact_pair(s: Seq<Slot>, i: int, j: int) -> Seq<Slot> {
    if 0 <= i < s.len() && 0 <= j < s.len() && i != j && is_dynamic(s[i]) && s[j].body is Some
        && overlaps_spec(s[i].body->0, s[j].body->0) {
        s.update(i, Slot { body: Some(respond_spec(s[i].body->0, s[j].body->0)), ..s[i] })
    } else {
        s
    }
}

/// The contacts of body `i` with bodies `0 .. j`, in that order.
pub open spec fn contacts_row(s: Seq<Slot>, i: int, j: int) -> Seq<Slot>
    decreases j,
{
    if j <= 0 {
        s
    } else {
        contact_pair(contacts_row(s, i, j - 1), i, j - 1)
    }
}

/// The contacts of bodies `0 .. i` with every body, in that order.
pub open spec fn contacts_upto(s: Seq<Slot>, i: int, n: int) -> Seq<Slot>
    decreases i,
{
    if i <= 0 {
        s
    } else {
        contacts_row(contacts_upto(s, i - 1, n), i - 1, n)
    }
}

/// One fixed step: every dynamic body moves by its velocity, then each pair
/// of bodies, dynamic body first, is checked for contact by brute force, which
/// is all that a handful of bodies needs.
pub open spec fn slots_step(s: Seq<Slot>) -> Seq<Slot> {
    contacts_upto(integrate_all(s), s.len() as int, s.len() as int)
}

/// What a step leaves of a slot: the same generation and occupancy, the same
/// kind, shape and material, and a body that is not dynamic untouched.
pub open spec fn step_keeps(old: Slot, new: Slot) -> bool {
    &&& new.generation == old.generation
    &&& (new.body is Some <==> old.body is Some)
    &&& old.body is Some ==> {
        &&& new.body->0.kind == old.body->0.kind
        &&& new.body->0.shape == old.body->0.shape
        &&& new.body->0.material == old.body->0.material
        &&& old.body->0.kind != MotionKind::Dynamic ==> new.body == old.body
    }
}

proof fn lemma_first_free(s: Seq<Slot>, i: int)
    requires
        0 <= i <= s.len(),
    ensures
        i <= first_free_from(s, i) <= s.len(),
        first_free_from(s, i) < s.len() ==> s[first_free_from(s, i)].body is None,
    decreases s.len() - i,
{
    if i < s.len() && s[i].body is Some {
        lemma_first_free(s, i + 1);
    }
}

/// Creating a body leaves every body already in the table where it is.
pub proof fn lemma_create_keeps(s: Seq<Slot>, b: Body, g: BodyHandle)
    requires
        live(s, g),
    ensures
        live(slots_create(s, b), g),
        body_of(slots_create(s, b), g) == body_of(s, g),
{
    lemma_first_free(s, 0);
}

proof fn lemma_first_free_at_most(s: Seq<Slot>, i: int, k: int)
    requires
        0 <= i <= k < s.len(),
        s[k].body is None,
    ensures
        first_free_from(s, i) <= k,
    decreases k - i,
{
    if s[i].body is Some {
        lemma_first_free_at_most(s, i + 1, k);
    }
}

/// Creating a body in a table with an empty slot fills a slot instead of
/// adding one.
pub proof fn lemma_create_reuses(s: Seq<Slot>, b: Body, k: int)
    requires
        0 <= k < s.len(),
        s[k].body is None,
    ensures
        slots_create(s, b).len() == s.len(),
{
    lemma_first_free(s, 0);
    lemma_first_free_at_most(s, 0, k);
}

/// Creating a body adds at most one slot to the table.
pub proof fn lemma_create_len(s: Seq<Slot>, b: Body)
    ensures
        slots_create(s, b).len() <= s.len() + 1,
{
    lemma_first_free(s, 0);
}

/// A created body is in the table under the handle that `create_handle` gives.
pub proof fn lemma_create_new(s: Seq<Slot>, b: Body)
    requires
        s.len() < usize::MAX,
    ensures
        !live(s, create_handle(s)),
        live(slots_create(s, b), create_handle(s)),
        body_of(slots_create(s, b), create_handle(s)) == b,
{
    lemma_first_free(s, 0);
}

/// Removing a body leaves every other body in the table where it is.
pub proof fn lemma_remove_keeps(s: Seq<Slot>, h: BodyHandle, g: BodyHandle)
    requires
        live(s, g),
        g != h,
    ensures
        live(slots_remove(s, h), g),
        body_of(slots_remove(s, h), g) == body_of(s, g),
{
}

/// No contact of `t` changes it.
pub open spec fn no_contact(t: Seq<Slot>) -> bool {
    forall|i: int, j: int| #[trigger] contact_pair(t, i, j) == t
}

proof fn lemma_quiet_row(t: Seq<Slot>, i: int, j: int)
    requires
        no_contact(t),
    ensures
        contacts_row(t, i, j) == t,
    decreases j,
{
    if j > 0 {
        lemma_quiet_row(t, i, j - 1);
        assert(contact_pair(t, i, j - 1) == t);
    }
}

proof fn lemma_quiet_upto(t: Seq<Slot>, i: int, n: int)
    requires
        no_contact(t),
    ensures
        contacts_upto(t, i, n) == t,
    decreases i,
{
    if i > 0 {
        lemma_quiet_upto(t, i - 1, n);
        lemma_quiet_row(t, i - 1, n);
    }
}

/// When the one dynamic body of a table, moved by its velocity, overlaps no
/// other body, a step only moves it by its velocity.
pub proof fn lemma_free_flight(s: Seq<Slot>, i: int)
    requires
        0 <= i < s.len(),
        is_dynamic(s[i]),
        forall|k: int| 0 <= k < s.len() && k != i ==> !is_dynamic(#[trigger] s[k]),
        forall|k: int|
            0 <= k < s.len() && k != i && (#[trigger] s[k]).body is Some ==> !overlaps_spec(
                integrated(s[i].body->0),
                s[k].body->0,
            ),
    ensures
        slots_step(s) == integrate_all(s),
        slots_step(s)[i] == integrate_slot(s[i]),
{
    let t = integrate_all(s);
    assert forall|a: int, b: int| #[trigger] contact_pair(t, a, b) == t by {
        if 0 <= a < t.len() && 0 <= b < t.len() && a != b && is_dynamic(t[a]) {
            if a != i {
                assert(t[a] == s[a]);
            } else {
                assert(t[b] == s[b]);
            }
        }
    }
    lemma_quiet_upto(t, s.len() as int, s.len() as int);
}

impl World {
    pub open spec fn wf(&self) -> bool {
        slots_wf(self@)
    }

    /// An empty registry.
    pub fn new() -> (r: World)
        ensures
            r@ == Seq::<Slot>::empty(),
            r.wf(),
    {
        World { slots: Vec::new() }
    }

    /// Adds a body and returns its handle, or refuses a body outside the
    /// limits of the simulation.
    pub fn create(&mut self, body: Body) -> (r: Result<BodyHandle, BodyError>)
        requires
            old(self).wf(),
        ensures
            final(self).wf(),
            match r {
                Ok(h) => {
                    &&& body.valid()
                    &&& h == create_handle(old(self)@)
                    &&& final(self)@ == slots_create(old(self)@, body)
                    &&& !live(old(self)@, h)
                    &&& live(final(self)@, h)
                    &&& body_of(final(self)@, h) == body
                },
                Err(e) => body_error(body) == Some(e) && final(self)@ == old(self)@,
            },
            r is Ok ==> forall|g: BodyHandle| #[trigger]
                live(old(self)@, g) ==> live(final(self)@, g) && body_of(final(self)@, g)
                    == body_of(old(self)@, g),
    {
        if let Err(e) = body.validate() {
            return Err(e);
        }
        let n = self.slots.len();
        let mut i: usize = 0;
        while i < n && self.slots[i].body.is_some()
            invariant
                n == self.slots@.len(),
                0 <= i <= n,
                first_free_from(self.slots@, 0) == first_free_from(self.slots@, i as int),
            decreases n - i,
        {
            i = i + 1;
        }
        assert(create_index(self.slots@) == i);
        let h = if i < n {
            let generation = self.slots[i].generation;
            self.slots.set(i, Slot { generation, body: Some(body) });
            BodyHandle { index: i, generation }
        } else {
            self.slots.push(Slot { generation: 0, body: Some(body) });
            BodyHandle { index: i, generation: 0 }
        };
        Ok(h)
    }

    /// The body that `h` names, or `None` if it was removed.
    pub fn get(&self, h: BodyHandle) -> (r: Option<Body>)
        ensures
            r == (if live(self@, h) {
                Some(body_of(self@, h))
            } else {
                None
            }),
    {
        if h.index < self.slots.len() {
            let slot = self.slots[h.index];
            if slot.generation == h.generation {
                return slot.body;
            }
        }
        None
    }

    /// Removes the body that `h` names; does nothing if there is none.
    pub fn remove(&mut self, h: BodyHandle)
        requires
            old(self).wf(),
        ensures
            final(self).wf(),
            final(self)@ == slots_remove(old(self)@, h),
            !live(final(self)@, h),
            forall|g: BodyHandle| #[trigger]
                live(old(self)@, g) && g != h ==> live(final(self)@, g) && body_of(final(self)@, g)
                    == body_of(old(self)@, g),
    {
        if h.index < self.slots.len() {
            let slot = self.slots[h.index];
            if slot.generation == h.generation && slot.body.is_some() {
                let generation = if slot.generation == u64::MAX {
                    0
                } else {
                    slot.generation + 1
                };
                self.slots.set(h.index, Slot { generation, body: None });
            }
        }
    }

    /// Places the body that `h` names at `p`; does nothing if there is none.
    pub fn set_position(&mut self, h: BodyHandle, p: Vec2)
        requires
            old(self).wf(),
            crate::body::valid_point(p),
        ensures
            final(self).wf(),
            final(self)@ == slots_place(old(self)@, h, p),
            live(final(self)@, h) == live(old(self)@, h),
            live(old(self)@, h) ==> body_of(final(self)@, h) == (Body {
                position: p,
                ..body_of(old(self)@, h)
            }),
            forall|g: BodyHandle| #[trigger]
                live(old(self)@, g) && g != h ==> live(final(self)@, g) && body_of(final(self)@, g)
                    == body_of(old(self)@, g),
    {
        if h.index < self.slots.len() {
            let slot = self.slots[h.index];
            if slot.generation == h.generation {
                if let Some(b) = slot.body {
                    self.slots.set(h.index, Slot { body: Some(Body { position: p, ..b }), ..slot });
                }
            }
        }
    }

    /// Advances the simulation by one fixed step; see `slots_step`.
    pub fn step(&mut self)
        requires
            old(self).wf(),
        ensures
            final(self).wf(),
            final(self)@ == slots_step(old(self)@),
            final(self)@.len() == old(self)@.len(),
            forall|k: int|
                0 <= k < old(self)@.len() ==> step_keeps(
                    #[trigger] old(self)@[k],
                    final(self)@[k],
                ),
    {
        let ghost s_old = self.slots@;
        let n = self.slots.len();
        let mut i: usize = 0;
        while i < n
            invariant
                n == self.slots@.len(),
                n == s_old.len(),
                0 <= i <= n,
                slots_wf(s_old),
                slots_wf(self.slots@),
                forall|k: int| 0 <= k < i ==> self.slots@[k] == integrate_slot(s_old[k]),
                forall|k: int| i <= k < n ==> self.slots@[k] == s_old[k],
            decreases n - i,
        {
            let slot = self.slots[i];
            if let Some(b) = slot.body {
                if b.kind == MotionKind::Dynamic {
                    let x = clamp_coord(b.position.x + b.velocity.x);
                    let y = clamp_coord(b.position.y + b.velocity.y);
                    let moved = Body { position: Vec2 { x, y }, ..b };
                    self.slots.set(i, Slot { body: Some(moved), ..slot });
                }
            }
            i = i + 1;
        }
        let ghost s_int = self.slots@;
        assert(s_int =~= integrate_all(s_old));
        let mut i: usize = 0;
        while i < n
            invariant
                n == self.slots@.len(),
                n == s_old.len(),
                0 <= i <= n,
                slots_wf(self.slots@),
                self.slots@ == contacts_upto(s_int, i as int, n as int),
                forall|k: int|
                    0 <= k < n ==> step_keeps(#[trigger] s_old[k], self.slots@[k]),
            decreases n - i,
        {
            let mut j: usize = 0;
            while j < n
                invariant
                    n == self.slots@.len(),
                    n == s_old.len(),
                    0 <= i < n,
                    0 <= j <= n,
                    slots_wf(self.slots@),
                    self.slots@ == contacts_row(
                        contacts_upto(s_int, i as int, n as int),
                        i as int,
                        j as int,
                    ),
                    forall|k: int|
                        0 <= k < n ==> step_keeps(#[trigger] s_old[k], self.slots@[k]),
                decreases n - j,
            {
                let a = self.slots[i];
                let other = self.slots[j];
                if i != j {
                    if let Some(ab) = a.body {
                        if ab.kind == MotionKind::Dynamic {
                            if let Some(ob) = other.body {
                                if overlaps(&ab, &ob) {
                                    let nb = respond(&ab, &ob);
                                    self.slots.set(i, Slot { body: Some(nb), ..a });
                                }
                            }
                        }
                    }
                }
                j = j + 1;
            }
            i = i + 1;
        }
    }
}

} // verus!
