use vstd::prelude::*;

use crate::event_types::{EventUpdate, ToggleState};
use crate::layout::{group_spec, layout_spec, property_views, views, LayoutItem, PropertyItem};
use crate::menu::{
    is_selected, parent_of, radio_chosen, selection_ok, tree_wf, MenuEntry, MenuError, MenuKind,
    MenuTree,
};

verus! {

/// The announcement that the layout below `parent` changed as of `revision`.
#[derive(Clone, Copy, Debug, PartialEq, Eq, Structural)]
pub struct LayoutUpdated {
    pub revision: u32,
    pub parent: i32,
}

/// The menu side of a running service: the current tree and its revision. The
/// revision starts at 0 and grows by one with every change that is announced.
#[derive(Debug)]
pub struct MenuService<M> {
    tree: MenuTree<M>,
    revision: u32,
}

/// The revision after an event that reported `update`: one more for a change, the
/// same for none.
pub open spec fn next_revision(revision: int, update: EventUpdate) -> int {
    if update == EventUpdate::NoUpdate {
        revision
    } else {
        revision + 1
    }
}

/// The revisions a menu goes through, starting at `start`, as it handles the events
/// whose reported updates are `updates`: entry `i` is the revision after `i` events.
pub open spec fn revisions(start: int, updates: Seq<EventUpdate>) -> Seq<int>
    decreases updates.len(),
{
    if updates.len() == 0 {
        seq![start]
    } else {
        let before = revisions(start, updates.drop_last());
        before.push(next_revision(before.last(), updates.last()))
    }
}

/// Over any sequence of events the revision starts where it was, never goes down,
/// rises by exactly one for each event that reported `UpdateCurrent` or `UpdateAll`,
/// and stays put for each that reported `NoUpdate`.
pub proof fn lemma_revisions_monotone(start: int, updates: Seq<EventUpdate>)
    ensures
        revisions(start, updates).len() == updates.len() + 1,
        revisions(start, updates)[0] == start,
        forall|i: int|
            0 <= i < updates.len() ==> #[trigger] revisions(start, updates)[i + 1] == next_revision(
                revisions(start, updates)[i],
                updates[i],
            ),
        forall|i: int, j: int|
            0 <= i <= j <= updates.len() ==> #[trigger] revisions(start, updates)[i]
                <= #[trigger] revisions(start, updates)[j],
    decreases updates.len(),
{
    if updates.len() > 0 {
        let rest = updates.drop_last();
        lemma_revisions_monotone(start, rest);
        let before = revisions(start, rest);
        let all = revisions(start, updates);
        assert forall|i: int| 0 <= i < updates.len() implies #[trigger] all[i + 1] == next_revision(
            all[i],
            updates[i],
        ) by {
            if i < rest.len() {
                assert(all[i + 1] == before[i + 1]);
                assert(rest[i] == updates[i]);
            }
        }
        assert forall|i: int, j: int| 0 <= i <= j <= updates.len() implies #[trigger] all[i]
            <= #[trigger] all[j] by {
            if j == updates.len() && i < j {
                assert(all[i] == before[i]);
                assert(before[i] <= before[rest.len() as int]);
            } else if j < updates.len() {
                assert(all[i] == before[i]);
                assert(all[j] == before[j]);
            }
        }
    }
}

/// What an update announces about the entry `id`: nothing, its parent, or the root.
pub open spec fn announced<M>(s: Seq<MenuEntry<M>>, id: int, update: EventUpdate, revision: u32) -> Option<
    LayoutUpdated,
> {
    match update {
        EventUpdate::NoUpdate => None,
        EventUpdate::UpdateCurrent => Some(
            LayoutUpdated { revision, parent: parent_of(s, id) as i32 },
        ),
        EventUpdate::UpdateAll => Some(LayoutUpdated { revision, parent: 0 }),
    }
}

fn entry_selected<M>(e: &MenuEntry<M>) -> (r: bool)
    ensures
        r == is_selected(*e),
{
    match e.properties.toggle_state {
        Some(ToggleState::Selected) => true,
        _ => false,
    }
}

impl<M> MenuService<M> {
    pub closed spec fn spec_tree(&self) -> Seq<MenuEntry<M>> {
        self.tree@
    }

    pub closed spec fn spec_revision(&self) -> u32 {
        self.revision
    }

    pub open spec fn wf(&self) -> bool {
        tree_wf(self.spec_tree())
    }

    /// Starts serving `tree` at revision 0.
    pub fn new(tree: MenuTree<M>) -> (r: MenuService<M>)
        ensures
            r.spec_tree() == tree@,
            r.spec_revision() == 0,
            r.wf(),
    {
        proof {
            use_type_invariant(&tree);
        }
        MenuService { tree, revision: 0 }
    }

    pub fn revision(&self) -> (r: u32)
        ensures
            r == self.spec_revision(),
    {
        self.revision
    }

    pub fn tree(&self) -> (r: &MenuTree<M>)
        ensures
            r@ == self.spec_tree(),
    {
        &self.tree
    }

    /// The layout below `parent_id` (see `MenuTree::layout`), with the revision it
    /// belongs to.
    pub fn get_layout(&self, parent_id: i32, recursion_depth: i32, property_names: &Vec<String>) -> (r:
        Result<(u32, Vec<LayoutItem>), MenuError>)
        ensures
            r is Err <==> !(0 <= parent_id < self.spec_tree().len()),
            r matches Err(e) ==> e == MenuError::NotFound,
            r matches Ok((rev, items)) ==> rev == self.spec_revision() && views(items@)
                == layout_spec(self.spec_tree(), parent_id as int, recursion_depth, property_names@),
    {
        proof {
            use_type_invariant(&self.tree);
        }
        match self.tree.layout(parent_id, recursion_depth, property_names) {
            Ok(items) => Ok((self.revision, items)),
            Err(e) => Err(e),
        }
    }

    /// The properties of the entries `ids` names (see `MenuTree::group_properties`).
    pub fn get_group_properties(&self, ids: &Vec<i32>, property_names: &Vec<String>) -> (r: Vec<
        PropertyItem,
    >)
        ensures
            property_views(r@) == group_spec(self.spec_tree(), ids@, property_names@),
    {
        self.tree.group_properties(ids, property_names)
    }

    /// The message the entry `id` hands back when used, if it has one.
    pub fn message(&self, id: i32) -> (r: Option<&M>)
        ensures
            0 <= id < self.spec_tree().len() ==> r == match self.spec_tree()[id as int].message {
                Some(m) => Some(&m),
                None => None,
            },
            !(0 <= id < self.spec_tree().len()) ==> r is None,
    {
        proof {
            use_type_invariant(&self.tree);
        }
        if id < 0 || id as usize >= self.tree.len() {
            return None;
        }
        match &self.tree.entry(id as usize).message {
            Some(m) => Some(m),
            None => None,
        }
    }

    /// Handles a click on `id` before the application sees it: a radio button becomes
    /// the selected one of its group and every other button of the group is cleared.
    /// Returns whether the selection moved, that is whether the button was not
    /// selected before. The click then goes to the `on_clicked` handler, and when the
    /// selection moved also to `on_toggled` with the new state `Selected`; what they
    /// report, joined by `EventUpdate::join`, goes to `apply_update`.
    pub fn click(&mut self, id: i32) -> (r: Result<bool, MenuError>)
        ensures
            final(self).wf(),
            final(self).spec_revision() == old(self).spec_revision(),
            r is Err <==> !(0 <= id < old(self).spec_tree().len()),
            r matches Err(e) ==> e == MenuError::NotFound && final(self).spec_tree()
                == old(self).spec_tree(),
            selection_ok(final(self).spec_tree()),
            r matches Ok(changed) ==> {
                &&& changed == (old(self).spec_tree()[id as int].kind is RadioButton
                    && !is_selected(old(self).spec_tree()[id as int]))
                &&& old(self).spec_tree()[id as int].kind is RadioButton ==> {
                    &&& final(self).spec_tree() == radio_chosen(old(self).spec_tree(), id as int)
                    &&& is_selected(final(self).spec_tree()[id as int])
                }
                &&& !(old(self).spec_tree()[id as int].kind is RadioButton) ==> final(self).spec_tree() == old(self).spec_tree()
            },
    {
        proof {
            use_type_invariant(&self.tree);
        }
        if id < 0 || id as usize >= self.tree.len() {
            return Err(MenuError::NotFound);
        }
        let i = id as usize;
        if self.tree.entry(i).kind == MenuKind::RadioButton {
            let moved = !entry_selected(self.tree.entry(i));
            proof {
                crate::menu::lemma_radio_chosen_wf(self.tree@, i as int);
            }
            self.tree.choose_radio(i);
            Ok(moved)
        } else {
            Ok(false)
        }
    }

    /// Handles a toggle request on `id` before the application sees it: a radio button
    /// asked to turn on becomes the selected one of its group; a radio button cannot be
    /// turned off on its own, since its group always has one selected. Turning a button
    /// on clears every other button of its group. Returns whether the selection moved.
    pub fn toggle(&mut self, id: i32, state: ToggleState) -> (r: Result<bool, MenuError>)
        ensures
            final(self).wf(),
            final(self).spec_revision() == old(self).spec_revision(),
            r is Err <==> !(0 <= id < old(self).spec_tree().len()),
            r matches Err(e) ==> e == MenuError::NotFound && final(self).spec_tree()
                == old(self).spec_tree(),
            selection_ok(final(self).spec_tree()),
            r matches Ok(changed) ==> {
                &&& changed == (old(self).spec_tree()[id as int].kind is RadioButton && state
                    == ToggleState::Selected && !is_selected(old(self).spec_tree()[id as int]))
                &&& old(self).spec_tree()[id as int].kind is RadioButton && state
                    == ToggleState::Selected ==> {
                    &&& final(self).spec_tree() == radio_chosen(old(self).spec_tree(), id as int)
                    &&& is_selected(final(self).spec_tree()[id as int])
                }
                &&& !(old(self).spec_tree()[id as int].kind is RadioButton && state
                    == ToggleState::Selected) ==> final(self).spec_tree() == old(self).spec_tree()
            },
    {
        proof {
            use_type_invariant(&self.tree);
        }
        if id < 0 || id as usize >= self.tree.len() {
            return Err(MenuError::NotFound);
        }
        let i = id as usize;
        if self.tree.entry(i).kind == MenuKind::RadioButton && state == ToggleState::Selected {
            let moved = !entry_selected(self.tree.entry(i));
            proof {
                crate::menu::lemma_radio_chosen_wf(self.tree@, i as int);
            }
            self.tree.choose_radio(i);
            Ok(moved)
        } else {
            Ok(false)
        }
    }

    /// Dispatches a click on `id`: the menu's own radio handling first (`click`), then
    /// the `on_clicked` handler, then, when the radio selection moved, `on_toggled` with
    /// the new state `Selected`. The wider of the handlers' reports goes to
    /// `apply_update`, whose announcement is returned.
    pub fn dispatch_click<MS, C, T>(
        &mut self,
        state: &mut MS,
        id: i32,
        timestamp: u32,
        on_clicked: &C,
        on_toggled: &T,
    ) -> (r: Result<Option<LayoutUpdated>, MenuError>)
        where
            C: Fn(&mut MS, &M, u32) -> EventUpdate,
            T: Fn(&mut MS, &M, ToggleState, u32) -> EventUpdate,
        requires
            forall|s: &mut MS, m: &M, t: u32| call_requires(*on_clicked, (s, m, t)),
            forall|s: &mut MS, m: &M, st: ToggleState, t: u32|
                call_requires(*on_toggled, (s, m, st, t)),
            old(self).spec_revision() < u32::MAX,
        ensures
            final(self).wf(),
            selection_ok(final(self).spec_tree()),
            r is Err <==> !(0 <= id < old(self).spec_tree().len()),
            r is Err ==> final(self).spec_tree() == old(self).spec_tree()
                && final(self).spec_revision() == old(self).spec_revision(),
            r is Ok && old(self).spec_tree()[id as int].kind is RadioButton ==> final(self).spec_tree() == radio_chosen(old(self).spec_tree(), id as int),
            r is Ok && !(old(self).spec_tree()[id as int].kind is RadioButton) ==> final(self).spec_tree() == old(self).spec_tree(),
            r matches Ok(note) ==> {
                &&& note is None ==> final(self).spec_revision() == old(self).spec_revision()
                &&& note matches Some(n) ==> final(self).spec_revision() == old(self).spec_revision() + 1 && n.revision == final(self).spec_revision()
            },
            (forall|s: &mut MS, m: &M, t: u32, u: EventUpdate|
                call_ensures(*on_clicked, (s, m, t), u) ==> u == EventUpdate::NoUpdate) && (forall|
                s: &mut MS,
                m: &M,
                st: ToggleState,
                t: u32,
                u: EventUpdate,
            | call_ensures(*on_toggled, (s, m, st, t), u) ==> u == EventUpdate::NoUpdate)
                ==> final(self).spec_revision() == old(self).spec_revision(),
    {
        let moved = self.click(id)?;
        let update = match self.message(id) {
            Some(m) => {
                let clicked = on_clicked(state, m, timestamp);
                if moved {
                    clicked.join(on_toggled(state, m, ToggleState::Selected, timestamp))
                } else {
                    clicked
                }
            },
            None => EventUpdate::NoUpdate,
        };
        Ok(self.apply_update(id, update))
    }

    /// Moves the revision on for `update` about the entry `id` and returns the
    /// announcement to send: scoped to the entry's parent for `UpdateCurrent`, to the
    /// root for `UpdateAll`, none for `NoUpdate`.
    pub fn apply_update(&mut self, id: i32, update: EventUpdate) -> (r: Option<LayoutUpdated>)
        requires
            0 <= id < old(self).spec_tree().len(),
            update != EventUpdate::NoUpdate ==> old(self).spec_revision() < u32::MAX,
        ensures
            final(self).wf(),
            final(self).spec_tree() == old(self).spec_tree(),
            final(self).spec_revision() == next_revision(old(self).spec_revision() as int, update),
            update == EventUpdate::NoUpdate ==> r is None,
            r == announced(old(self).spec_tree(), id as int, update, final(self).spec_revision()),
    {
        proof {
            use_type_invariant(&self.tree);
        }
        match update {
            EventUpdate::NoUpdate => None,
            EventUpdate::UpdateCurrent => {
                self.revision = self.revision + 1;
                let p = self.tree.parent(id as usize);
                proof {
                    crate::menu::lemma_parent_in_range(self.tree@, id as int);
                }
                Some(LayoutUpdated { revision: self.revision, parent: p as i32 })
            },
            EventUpdate::UpdateAll => {
                self.revision = self.revision + 1;
                Some(LayoutUpdated { revision: self.revision, parent: 0 })
            },
        }
    }

    /// Puts a newly generated tree in place. Ids may differ from those of the old tree,
    /// so the revision moves on by one and the whole menu is announced as changed.
    pub fn replace_tree(&mut self, tree: MenuTree<M>) -> (r: LayoutUpdated)
        requires
            old(self).spec_revision() < u32::MAX,
        ensures
            final(self).wf(),
            final(self).spec_tree() == tree@,
            final(self).spec_revision() == old(self).spec_revision() + 1,
            r == (LayoutUpdated { revision: final(self).spec_revision(), parent: 0 }),
    {
        proof {
            use_type_invariant(&self.tree);
        }
        proof {
            use_type_invariant(&tree);
        }
        self.tree = tree;
        self.revision = self.revision + 1;
        LayoutUpdated { revision: self.revision, parent: 0 }
    }

    /// The announcement to send when the application itself decides that the layout
    /// below `parent` changed; it always carries the current revision.
    pub fn layout_changed(&self, parent: i32) -> (r: LayoutUpdated)
        ensures
            r == (LayoutUpdated { revision: self.spec_revision(), parent }),
    {
        LayoutUpdated { revision: self.revision, parent }
    }
}

} // verus!
