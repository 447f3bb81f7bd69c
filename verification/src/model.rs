//! The bookkeeping of a model: which objects it holds, in what order, and
//! which of them are selected.

use crate::key::{
    comes_before, sorts_before, sorts_before_is_strict_and_total, sorts_before_is_transitive,
};
use vstd::prelude::*;

verus! {

/// The number of entries that a model may hold. Besides its objects a model
/// always holds one placeholder entry, which stands for no object and takes
/// one of these places.
pub const MAX_OBJECTS: usize = 10;

/// What the model keeps of one object: the id under which it is filed and
/// whether it is selected.
#[derive(Clone, Copy, Debug, PartialEq, Eq, Structural)]
pub struct GravityModelObject {
    pub id: u128,
    pub is_selected: bool,
}

/// Whether the objects are listed in the order of their keys, which implies
/// that no id occurs twice.
pub open spec fn in_key_order(objects: Seq<GravityModelObject>) -> bool {
    forall|i: int, j: int|
        0 <= i < j < objects.len() ==> sorts_before(
            (#[trigger] objects[i]).id,
            (#[trigger] objects[j]).id,
        )
}

/// The ids of the selected objects, in the order of the objects.
pub open spec fn selected_ids(objects: Seq<GravityModelObject>) -> Seq<u128>
    decreases objects.len(),
{
    if objects.len() == 0 {
        Seq::empty()
    } else if objects.last().is_selected {
        selected_ids(objects.drop_last()).push(objects.last().id)
    } else {
        selected_ids(objects.drop_last())
    }
}

/// The objects that are not selected, in the order of the objects.
pub open spec fn unselected(objects: Seq<GravityModelObject>) -> Seq<GravityModelObject>
    decreases objects.len(),
{
    if objects.len() == 0 {
        Seq::empty()
    } else if objects.last().is_selected {
        unselected(objects.drop_last())
    } else {
        unselected(objects.drop_last()).push(objects.last())
    }
}

/// The same objects with none of them selected.
pub open spec fn all_deselected(objects: Seq<GravityModelObject>) -> Seq<GravityModelObject> {
    Seq::new(
        objects.len(),
        |i: int| GravityModelObject { id: objects[i].id, is_selected: false },
    )
}

/// The same objects with the selection of each one that was hit reversed.
pub open spec fn clicked(objects: Seq<GravityModelObject>, hit: Seq<bool>) -> Seq<
    GravityModelObject,
> {
    Seq::new(
        objects.len(),
        |i: int|
            GravityModelObject {
                id: objects[i].id,
                is_selected: if hit[i] {
                    !objects[i].is_selected
                } else {
                    objects[i].is_selected
                },
            },
    )
}

/// The same objects with the one filed under `id`, if any, not selected.
pub open spec fn deselected(objects: Seq<GravityModelObject>, id: u128) -> Seq<
    GravityModelObject,
> {
    Seq::new(
        objects.len(),
        |i: int|
            if objects[i].id == id {
                GravityModelObject { id, is_selected: false }
            } else {
                objects[i]
            },
    )
}

/// Whether a model with these objects takes one more entry.
pub open spec fn has_room(objects: Seq<GravityModelObject>) -> bool {
    objects.len() + 1 < MAX_OBJECTS
}

/// Whether a model with these objects takes a copy of every selected one.
pub open spec fn has_room_for_copies(objects: Seq<GravityModelObject>) -> bool {
    objects.len() + 1 + selected_ids(objects).len() < MAX_OBJECTS
}

/// The objects after `object` is filed among them: it takes the place of the
/// object with its id if there is one, and else its place in key order.
pub open spec fn placed(objects: Seq<GravityModelObject>, object: GravityModelObject) -> Seq<
    GravityModelObject,
>
    decreases objects.len(),
{
    if objects.len() == 0 {
        seq![object]
    } else if objects[0].id == object.id {
        seq![object] + objects.skip(1)
    } else if sorts_before(object.id, objects[0].id) {
        seq![object] + objects
    } else {
        seq![objects[0]] + placed(objects.skip(1), object)
    }
}

/// The objects after each of the objects filed under `ids` has been copied in
/// turn: the object is deselected, and a selected copy of it is filed under
/// the next id that the counter, which starts at `counter`, gives out.
pub open spec fn copied(objects: Seq<GravityModelObject>, counter: int, ids: Seq<u128>) -> Seq<
    GravityModelObject,
>
    decreases ids.len(),
{
    if ids.len() == 0 {
        objects
    } else {
        copied(
            placed(
                deselected(objects, ids[0]),
                GravityModelObject { id: counter as u128, is_selected: true },
            ),
            counter + 1,
            ids.skip(1),
        )
    }
}

/// Objects in key order have different ids.
pub proof fn key_order_has_no_duplicates(objects: Seq<GravityModelObject>, i: int, j: int)
    requires
        in_key_order(objects),
        0 <= i < objects.len(),
        0 <= j < objects.len(),
        i != j,
    ensures
        objects[i].id != objects[j].id,
{
    sorts_before_is_strict_and_total(objects[i].id, objects[j].id);
    if i < j {
        assert(sorts_before(objects[i].id, objects[j].id));
    } else {
        assert(sorts_before(objects[j].id, objects[i].id));
    }
}

proof fn lemma_placed_after_prefix(
    objects: Seq<GravityModelObject>,
    object: GravityModelObject,
    p: int,
)
    requires
        0 <= p <= objects.len(),
        forall|j: int| 0 <= j < p ==> sorts_before((#[trigger] objects[j]).id, object.id),
    ensures
        placed(objects, object) == objects.take(p) + placed(objects.skip(p), object),
    decreases p,
{
    if p == 0 {
        assert(objects.skip(0) =~= objects);
        assert(objects.take(0) + placed(objects, object) =~= placed(objects, object));
    } else {
        let rest = objects.skip(1);
        sorts_before_is_strict_and_total(objects[0].id, object.id);
        assert(sorts_before(objects[0].id, object.id));
        assert forall|j: int| 0 <= j < p - 1 implies sorts_before(
            (#[trigger] rest[j]).id,
            object.id,
        ) by {
            assert(rest[j] == objects[j + 1]);
        }
        lemma_placed_after_prefix(rest, object, p - 1);
        assert(rest.skip(p - 1) =~= objects.skip(p));
        assert(seq![objects[0]] + (rest.take(p - 1) + placed(objects.skip(p), object))
            =~= objects.take(p) + placed(objects.skip(p), object));
    }
}

/// The objects of a gravity model, in key order, and the counter that gives
/// out their ids.
#[derive(Debug)]
pub struct Model {
    objects: Vec<GravityModelObject>,
    object_counter: u128,
}

impl View for Model {
    type V = Seq<GravityModelObject>;

    closed spec fn view(&self) -> Seq<GravityModelObject> {
        self.objects@
    }
}

impl Model {
    /// The id that the next object made by the model is given.
    pub closed spec fn counter(&self) -> u128 {
        self.object_counter
    }

    /// Whether the model is well formed: its objects are in key order.
    pub open spec fn wf(&self) -> bool {
        in_key_order(self@)
    }

    /// A model without objects whose counter stands at `object_counter`.
    pub fn with_counter(object_counter: u128) -> (model: Model)
        ensures
            model.wf(),
            model@ == Seq::<GravityModelObject>::empty(),
            model.counter() == object_counter,
    {
        Model { objects: Vec::new(), object_counter }
    }

    /// The objects of the model, in key order.
    pub fn objects(&self) -> (objects: &Vec<GravityModelObject>)
        ensures
            objects@ == self@,
    {
        &self.objects
    }

    /// The id that the next object made by the model is given.
    pub fn object_counter(&self) -> (counter: u128)
        ensures
            counter == self.counter(),
    {
        self.object_counter
    }

    /// The number of selected objects.
    pub fn number_objects_selected(&self) -> (number: u128)
        ensures
            number == selected_ids(self@).len(),
    {
        let mut number: u128 = 0;
        let mut i: usize = 0;
        while i < self.objects.len()
            invariant
                i <= self.objects@.len(),
                number == selected_ids(self.objects@.take(i as int)).len(),
                number <= i,
            decreases self.objects@.len() - i,
        {
            assert(self.objects@.take(i + 1).drop_last() =~= self.objects@.take(i as int));
            if self.objects[i].is_selected {
                number += 1;
            }
            i += 1;
        }
        assert(self.objects@.take(i as int) =~= self.objects@);
        number
    }

    /// The ids of the selected objects, in key order.
    pub fn selected_object_ids(&self) -> (ids: Vec<u128>)
        ensures
            ids@ == selected_ids(self@),
    {
        let mut ids: Vec<u128> = Vec::new();
        let mut i: usize = 0;
        while i < self.objects.len()
            invariant
                i <= self.objects@.len(),
                ids@ == selected_ids(self.objects@.take(i as int)),
            decreases self.objects@.len() - i,
        {
            assert(self.objects@.take(i + 1).drop_last() =~= self.objects@.take(i as int));
            if self.objects[i].is_selected {
                ids.push(self.objects[i].id);
            }
            i += 1;
        }
        assert(self.objects@.take(i as int) =~= self.objects@);
        ids
    }

    /// Reverses the selection of every object that a click has hit: `hit`
    /// says of each object, in key order, whether the click fell on it.
    pub fn select_by_click(&mut self, hit: &Vec<bool>)
        requires
            old(self).wf(),
            hit@.len() == old(self)@.len(),
        ensures
            final(self).wf(),
            final(self)@ == clicked(old(self)@, hit@),
            final(self).counter() == old(self).counter(),
    {
        let mut i: usize = 0;
        while i < self.objects.len()
            invariant
                i <= self.objects@.len(),
                hit@.len() == self.objects@.len(),
                self.objects@.len() == old(self).objects@.len(),
                self.object_counter == old(self).object_counter,
                forall|j: int|
                    0 <= j < i ==> #[trigger] self.objects@[j] == clicked(
                        old(self).objects@,
                        hit@,
                    )[j],
                forall|j: int|
                    i <= j < self.objects@.len() ==> #[trigger] self.objects@[j] == old(
                        self
                    ).objects@[j],
            decreases self.objects@.len() - i,
        {
            if hit[i] {
                let object = self.objects[i];
                self.objects[i] = GravityModelObject {
                    id: object.id,
                    is_selected: !object.is_selected,
                };
            }
            i += 1;
        }
        assert(self@ =~= clicked(old(self)@, hit@));
        assert forall|a: int, b: int| 0 <= a < b < self@.len() implies sorts_before(
            (#[trigger] self@[a]).id,
            (#[trigger] self@[b]).id,
        ) by {
            assert(self@[a].id == old(self)@[a].id);
            assert(self@[b].id == old(self)@[b].id);
        }
    }

    /// Deselects every object.
    pub fn deselect_all(&mut self)
        requires
            old(self).wf(),
        ensures
            final(self).wf(),
            final(self)@ == all_deselected(old(self)@),
            final(self).counter() == old(self).counter(),
    {
        let mut i: usize = 0;
        while i < self.objects.len()
            invariant
                i <= self.objects@.len(),
                self.objects@.len() == old(self).objects@.len(),
                self.object_counter == old(self).object_counter,
                forall|j: int|
                    0 <= j < self.objects@.len() ==> (#[trigger] self.objects@[j]).id == old(
                        self
                    ).objects@[j].id,
                forall|j: int| 0 <= j < i ==> !(#[trigger] self.objects@[j]).is_selected,
            decreases self.objects@.len() - i,
        {
            let id = self.objects[i].id;
            self.objects[i] = GravityModelObject { id, is_selected: false };
            i += 1;
        }
        assert(self@ =~= all_deselected(old(self)@));
    }

    /// Files `object` among the objects: in the place of the object with its
    /// id if there is one, and else at its place in key order.
    pub fn place(&mut self, object: GravityModelObject)
        requires
            old(self).wf(),
        ensures
            final(self).wf(),
            final(self)@ == placed(old(self)@, object),
            final(self)@.len() <= old(self)@.len() + 1,
            final(self).counter() == old(self).counter(),
    {
        let mut p: usize = 0;
        while p < self.objects.len() && comes_before(self.objects[p].id, object.id)
            invariant
                p <= self.objects@.len(),
                forall|j: int|
                    0 <= j < p ==> sorts_before((#[trigger] self.objects@[j]).id, object.id),
            decreases self.objects@.len() - p,
        {
            p += 1;
        }
        let ghost before = self.objects@;
        proof {
            lemma_placed_after_prefix(before, object, p as int);
        }
        if p < self.objects.len() && self.objects[p].id == object.id {
            self.objects[p] = object;
            assert(self.objects@ =~= before.take(p as int) + (seq![object] + before.skip(
                p as int,
            ).skip(1)));
        } else {
            self.objects.insert(p, object);
            assert(self.objects@ =~= before.take(p as int) + (seq![object] + before.skip(
                p as int,
            )));
            proof {
                if p < before.len() {
                    sorts_before_is_strict_and_total(before[p as int].id, object.id);
                    assert(sorts_before(object.id, before[p as int].id));
                } else {
                    assert(before.skip(p as int) =~= Seq::<GravityModelObject>::empty());
                }
                assert forall|i: int, j: int| 0 <= i < j < self.objects@.len() implies sorts_before(
                    (#[trigger] self.objects@[i]).id,
                    (#[trigger] self.objects@[j]).id,
                ) by {
                    if j == p {
                        assert(self.objects@[i] == before[i]);
                    } else if i == p {
                        assert(self.objects@[j] == before[j - 1]);
                        if j - 1 > p {
                            assert(sorts_before(before[p as int].id, before[j - 1].id));
                            sorts_before_is_transitive(
                                object.id,
                                before[p as int].id,
                                before[j - 1].id,
                            );
                        }
                    } else {
                        let bi = if i < p { i } else { i - 1 };
                        let bj = if j < p { j } else { j - 1 };
                        assert(self.objects@[i] == before[bi]);
                        assert(self.objects@[j] == before[bj]);
                    }
                }
            }
        }
    }

    /// Adds `object` to the model and advances the counter, unless the model
    /// is full: with its placeholder entry it holds at most `MAX_OBJECTS`
    /// entries. An object that is filed under the id of `object` is replaced.
    pub fn add_object(&mut self, object: GravityModelObject)
        requires
            old(self).wf(),
            has_room(old(self)@) ==> old(self).counter() < u128::MAX,
        ensures
            final(self).wf(),
            has_room(old(self)@) ==> {
                &&& final(self)@ == placed(old(self)@, object)
                &&& final(self).counter() == old(self).counter() + 1
            },
            !has_room(old(self)@) ==> {
                &&& final(self)@ == old(self)@
                &&& final(self).counter() == old(self).counter()
            },
    {
        if self.objects.len() < MAX_OBJECTS - 1 {
            self.place(object);
            self.object_counter += 1;
        }
    }

    /// Removes every selected object.
    pub fn delete_objects(&mut self)
        requires
            old(self).wf(),
        ensures
            final(self).wf(),
            final(self)@ == unselected(old(self)@),
            final(self).counter() == old(self).counter(),
    {
        let mut kept: Vec<GravityModelObject> = Vec::new();
        let mut i: usize = 0;
        while i < self.objects.len()
            invariant
                i <= self.objects@.len(),
                in_key_order(self.objects@),
                in_key_order(kept@),
                kept@ == unselected(self.objects@.take(i as int)),
                forall|a: int, q: int|
                    0 <= a < kept@.len() && i <= q < self.objects@.len() ==> sorts_before(
                        (#[trigger] kept@[a]).id,
                        (#[trigger] self.objects@[q]).id,
                    ),
            decreases self.objects@.len() - i,
        {
            assert(self.objects@.take(i + 1).drop_last() =~= self.objects@.take(i as int));
            if !self.objects[i].is_selected {
                kept.push(self.objects[i]);
            }
            i += 1;
        }
        assert(self.objects@.take(i as int) =~= self.objects@);
        self.objects = kept;
    }

    /// Deselects the object filed under `id`, if there is one.
    fn deselect(&mut self, id: u128)
        requires
            old(self).wf(),
        ensures
            final(self).wf(),
            final(self)@ == deselected(old(self)@, id),
            final(self).counter() == old(self).counter(),
    {
        let mut i: usize = 0;
        while i < self.objects.len()
            invariant
                i <= self.objects@.len(),
                self.objects@.len() == old(self).objects@.len(),
                self.object_counter == old(self).object_counter,
                forall|j: int|
                    0 <= j < i ==> #[trigger] self.objects@[j] == deselected(
                        old(self).objects@,
                        id,
                    )[j],
                forall|j: int|
                    i <= j < self.objects@.len() ==> #[trigger] self.objects@[j] == old(
                        self
                    ).objects@[j],
            decreases self.objects@.len() - i,
        {
            if self.objects[i].id == id {
                self.objects[i] = GravityModelObject { id, is_selected: false };
            }
            i += 1;
        }
        assert(self@ =~= deselected(old(self)@, id));
        assert forall|a: int, b: int| 0 <= a < b < self@.len() implies sorts_before(
            (#[trigger] self@[a]).id,
            (#[trigger] self@[b]).id,
        ) by {
            assert(self@[a].id == old(self)@[a].id);
            assert(self@[b].id == old(self)@[b].id);
        }
    }

    /// Copies every selected object, unless the copies would fill the model:
    /// with its placeholder entry and the copies it must hold fewer than
    /// `MAX_OBJECTS` entries. The selected objects are taken in key order;
    /// each is deselected, and its copy is selected and filed under the id
    /// that the counter gives out next.
    pub fn copy_selected(&mut self)
        requires
            old(self).wf(),
            has_room_for_copies(old(self)@) ==> old(self).counter() + selected_ids(
                old(self)@,
            ).len() <= u128::MAX,
        ensures
            final(self).wf(),
            has_room_for_copies(old(self)@) ==> {
                &&& final(self)@ == copied(
                    old(self)@,
                    old(self).counter() as int,
                    selected_ids(old(self)@),
                )
                &&& final(self).counter() == old(self).counter() + selected_ids(old(self)@).len()
            },
            !has_room_for_copies(old(self)@) ==> {
                &&& final(self)@ == old(self)@
                &&& final(self).counter() == old(self).counter()
            },
    {
        let ids = self.selected_object_ids();
        if self.objects.len() < MAX_OBJECTS && ids.len() < MAX_OBJECTS && self.objects.len() + 1
            + ids.len() < MAX_OBJECTS {
            let mut j: usize = 0;
            assert(ids@.skip(0) =~= ids@);
            while j < ids.len()
                invariant
                    j <= ids@.len(),
                    self.wf(),
                    self.object_counter == old(self).object_counter + j,
                    old(self).object_counter + ids@.len() <= u128::MAX,
                    copied(old(self)@, old(self).object_counter as int, ids@) == copied(
                        self@,
                        self.object_counter as int,
                        ids@.skip(j as int),
                    ),
                decreases ids@.len() - j,
            {
                self.deselect(ids[j]);
                let copy = GravityModelObject { id: self.object_counter, is_selected: true };
                self.place(copy);
                self.object_counter += 1;
                assert(ids@.skip(j as int).skip(1) =~= ids@.skip(j + 1));
                assert(ids@.skip(j as int)[0] == ids@[j as int]);
                j += 1;
            }
            assert(ids@.skip(j as int) =~= Seq::<u128>::empty());
        }
    }
}

impl Clone for Model {
    /// A model with the same objects and the same counter.
    fn clone(&self) -> (copy: Model)
        ensures
            copy@ == self@,
            copy.counter() == self.counter(),
    {
        let mut objects: Vec<GravityModelObject> = Vec::new();
        let mut i: usize = 0;
        while i < self.objects.len()
            invariant
                i <= self.objects@.len(),
                objects@ == self.objects@.take(i as int),
            decreases self.objects@.len() - i,
        {
            objects.push(self.objects[i]);
            assert(self.objects@.take(i + 1) =~= self.objects@.take(i as int).push(
                self.objects@[i as int],
            ));
            i += 1;
        }
        assert(self.objects@.take(i as int) =~= self.objects@);
        Model { objects, object_counter: self.object_counter }
    }
}

impl Default for Model {
    /// A model without objects whose counter stands at zero.
    fn default() -> (model: Model)
        ensures
            model.wf(),
            model@ == Seq::<GravityModelObject>::empty(),
            model.counter() == 0,
    {
        Model::with_counter(0)
    }
}

} // verus!
