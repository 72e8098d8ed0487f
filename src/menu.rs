use vstd::prelude::*;

use crate::event_types::{ToggleState, ToggleType};

verus! {

/// What sort of entry a menu node is.
#[derive(Clone, Copy, Debug, PartialEq, Eq, Structural)]
pub enum MenuKind {
    Root,
    SubMenu,
    Button,
    RadioGroup,
    RadioButton,
    Separator,
}

impl MenuKind {
    /// Kinds that never have children.
    pub open spec fn is_leaf(self) -> bool {
        self is Button || self is RadioButton || self is Separator
    }
}

/// The display properties an entry may carry; `None` means "not set".
#[derive(Debug)]
pub struct MenuProperties {
    pub label: Option<String>,
    pub icon_name: Option<String>,
    pub enabled: Option<bool>,
    pub toggle_type: Option<ToggleType>,
    pub toggle_state: Option<ToggleState>,
}

/// One node of a menu, stored in depth-first order together with its depth below the
/// root of the unit or tree that holds it.
#[derive(Debug)]
pub struct MenuEntry<M> {
    pub kind: MenuKind,
    pub properties: MenuProperties,
    pub message: Option<M>,
    pub depth: usize,
}

/// Errors of menu construction and lookup.
#[derive(Clone, Copy, Debug, PartialEq, Eq, Structural)]
pub enum MenuError {
    /// No entry has the requested id.
    NotFound,
    /// A radio group must be built with exactly one selected option.
    RadioSelection,
}

/// The entry's toggle state is on.
pub open spec fn is_selected<M>(e: MenuEntry<M>) -> bool {
    e.properties.toggle_state == Some(ToggleState::Selected)
}

/// Entry `i` is at least one level down and at most one level below entry `i - 1`
/// (so never deeper than its position).
pub open spec fn depth_step<M>(s: Seq<MenuEntry<M>>, i: int) -> bool {
    1 <= s[i].depth <= s[i - 1].depth + 1 && s[i].depth <= i
}

/// Depths describe a tree in depth-first order: the first entry is the only one at
/// depth 0, and each entry is at most one level below the one before it.
pub open spec fn depths_ok<M>(s: Seq<MenuEntry<M>>) -> bool {
    &&& s.len() >= 1
    &&& s[0].depth == 0
    &&& forall|i: int| 1 <= i < s.len() ==> #[trigger] depth_step(s, i)
}

/// A leaf at `i` has no child at `i + 1`.
pub open spec fn leaf_step<M>(s: Seq<MenuEntry<M>>, i: int) -> bool {
    s[i].kind.is_leaf() ==> s[i + 1].depth <= s[i].depth
}

/// Leaves have no children, and only the first entry may be a root.
pub open spec fn kinds_ok<M>(s: Seq<MenuEntry<M>>) -> bool {
    &&& forall|i: int| 0 <= i < s.len() - 1 ==> #[trigger] leaf_step(s, i)
    &&& forall|i: int| 1 <= i < s.len() ==> !((#[trigger] s[i].kind) is Root)
}

/// A radio button at `i` follows its group or another button of the same group.
pub open spec fn radio_back<M>(s: Seq<MenuEntry<M>>, i: int) -> bool {
    s[i].kind is RadioButton ==> {
        &&& i > 0
        &&& (s[i - 1].kind is RadioGroup && s[i].depth == s[i - 1].depth + 1) || (s[i
            - 1].kind is RadioButton && s[i].depth == s[i - 1].depth)
    }
}

/// After the last button of a group the menu climbs back out of the group.
pub open spec fn radio_exit<M>(s: Seq<MenuEntry<M>>, i: int) -> bool {
    s[i].kind is RadioButton && !(s[i + 1].kind is RadioButton) ==> s[i + 1].depth < s[i].depth
}

/// A radio group at `i` is followed by its first button.
pub open spec fn group_next<M>(s: Seq<MenuEntry<M>>, i: int) -> bool {
    s[i].kind is RadioGroup ==> i + 1 < s.len() && s[i + 1].kind is RadioButton
}

/// Radio buttons come in runs right below a radio group, and a radio group holds
/// nothing but a non-empty run of radio buttons.
pub open spec fn radios_ok<M>(s: Seq<MenuEntry<M>>) -> bool {
    &&& forall|i: int| 0 <= i < s.len() ==> #[trigger] radio_back(s, i)
    &&& forall|i: int| 0 <= i < s.len() - 1 ==> #[trigger] radio_exit(s, i)
    &&& forall|i: int| 0 <= i < s.len() ==> #[trigger] group_next(s, i)
}

/// The end of the run of radio buttons that starts at `k`.
pub open spec fn run_end<M>(s: Seq<MenuEntry<M>>, k: int) -> int
    decreases s.len() - k,
{
    if k >= s.len() || k < 0 || !(s[k].kind is RadioButton) {
        k
    } else {
        run_end(s, k + 1)
    }
}

/// The radio group at `g` has exactly one selected button.
pub open spec fn one_selected<M>(s: Seq<MenuEntry<M>>, g: int) -> bool {
    exists|k: int|
        #![trigger is_selected(s[k])]
        g < k < run_end(s, g + 1) && is_selected(s[k]) && forall|j: int|
            g < j < run_end(s, g + 1) && #[trigger] is_selected(s[j]) ==> j == k
}

/// Every radio group has exactly one selected button.
pub open spec fn selection_ok<M>(s: Seq<MenuEntry<M>>) -> bool {
    forall|g: int| 0 <= g < s.len() && (#[trigger] s[g].kind) is RadioGroup ==> one_selected(s, g)
}

/// Everything a sequence of entries must satisfy to describe a menu.
pub open spec fn entries_wf<M>(s: Seq<MenuEntry<M>>) -> bool {
    &&& depths_ok(s)
    &&& kinds_ok(s)
    &&& radios_ok(s)
    &&& selection_ok(s)
    &&& s.len() <= i32::MAX
}


/// An entry moved one level down.
pub open spec fn shifted<M>(e: MenuEntry<M>) -> MenuEntry<M> {
    MenuEntry { depth: (e.depth + 1) as usize, ..e }
}

/// The entries of `parent` followed by those of `child`, one level further down.
pub open spec fn grafted<M>(parent: Seq<MenuEntry<M>>, child: Seq<MenuEntry<M>>) -> Seq<
    MenuEntry<M>,
> {
    parent + child.map_values(|e: MenuEntry<M>| shifted(e))
}

/// Every radio button lies at least two levels down: true of anything whose first
/// entry is a root or a submenu.
pub open spec fn radios_deep<M>(s: Seq<MenuEntry<M>>) -> bool {
    forall|i: int| 0 <= i < s.len() && (#[trigger] s[i].kind) is RadioButton ==> s[i].depth >= 2
}

/// Entries that can take children: a root or a submenu at the top.
pub open spec fn container_wf<M>(s: Seq<MenuEntry<M>>) -> bool {
    &&& entries_wf(s)
    &&& s[0].kind is Root || s[0].kind is SubMenu
    &&& radios_deep(s)
}

/// Entries that can be put below a container: anything but a root or a lone radio button.
pub open spec fn unit_wf<M>(s: Seq<MenuEntry<M>>) -> bool {
    &&& entries_wf(s)
    &&& !(s[0].kind is Root)
    &&& !(s[0].kind is RadioButton)
    &&& s[0].kind is RadioGroup || radios_deep(s)
}

/// A run covers only radio buttons and stops at the first entry that is not one.
pub proof fn lemma_run_end_basics<M>(s: Seq<MenuEntry<M>>, k: int)
    requires
        0 <= k <= s.len(),
    ensures
        k <= run_end(s, k) <= s.len(),
        forall|j: int| k <= j < run_end(s, k) ==> (#[trigger] s[j].kind) is RadioButton,
        run_end(s, k) < s.len() ==> !(s[run_end(s, k)].kind is RadioButton),
    decreases s.len() - k,
{
    if k < s.len() && s[k].kind is RadioButton {
        lemma_run_end_basics(s, k + 1);
    }
}

/// A run ends at the first entry that is no radio button.
pub proof fn lemma_run_end_at_most<M>(s: Seq<MenuEntry<M>>, k: int, m: int)
    requires
        0 <= k <= m < s.len(),
        !(s[m].kind is RadioButton),
    ensures
        run_end(s, k) <= m,
    decreases m - k,
{
    if k < m && s[k].kind is RadioButton {
        lemma_run_end_at_most(s, k + 1, m);
    }
}

/// The end of a run depends only on the kinds of the entries it covers.
pub proof fn lemma_run_end_window<M>(s: Seq<MenuEntry<M>>, t: Seq<MenuEntry<M>>, off: int, k: int)
    requires
        0 <= k <= s.len(),
        0 <= off,
        t.len() >= s.len() + off,
        forall|i: int| 0 <= i < s.len() ==> (#[trigger] s[i]).kind == t[i + off].kind,
        t.len() > s.len() + off ==> !(t[s.len() + off].kind is RadioButton),
    ensures
        run_end(t, k + off) == run_end(s, k) + off,
    decreases s.len() - k,
{
    if k < s.len() {
        assert(s[k].kind == t[k + off].kind);
        if s[k].kind is RadioButton {
            lemma_run_end_window(s, t, off, k + 1);
            assert(k + 1 + off == k + off + 1);
        }
    }
}


proof fn lemma_one_selected_moved<M>(
    s: Seq<MenuEntry<M>>,
    t: Seq<MenuEntry<M>>,
    off: int,
    g: int,
)
    requires
        0 <= g < s.len(),
        0 <= off,
        t.len() >= s.len() + off,
        forall|i: int| 0 <= i < s.len() ==> (#[trigger] s[i]).kind == t[i + off].kind,
        forall|i: int| 0 <= i < s.len() ==> is_selected(#[trigger] s[i]) == is_selected(t[i + off]),
        t.len() > s.len() + off ==> !(t[s.len() + off].kind is RadioButton),
        one_selected(s, g),
    ensures
        one_selected(t, g + off),
{
    lemma_run_end_window(s, t, off, g + 1);
    lemma_run_end_basics(s, g + 1);
    let k = choose|k: int|
        #![trigger is_selected(s[k])]
        g < k < run_end(s, g + 1) && is_selected(s[k]) && forall|j: int|
            g < j < run_end(s, g + 1) && #[trigger] is_selected(s[j]) ==> j == k;
    assert(g + off + 1 == g + 1 + off);
    assert(is_selected(t[k + off]));
    assert forall|j: int|
        g + off < j < run_end(t, g + off + 1) && #[trigger] is_selected(t[j]) implies j == k + off by {
        assert(is_selected(s[j - off]) == is_selected(t[j - off + off]));
    }
}

/// No entry lies deeper than its position.
pub proof fn lemma_depth_bound<M>(s: Seq<MenuEntry<M>>)
    requires
        depths_ok(s),
    ensures
        forall|i: int| 0 <= i < s.len() ==> (#[trigger] s[i]).depth <= i,
{
    assert forall|i: int| 0 <= i < s.len() implies (#[trigger] s[i]).depth <= i by {
        if i > 0 {
            assert(depth_step(s, i));
        }
    }
}

proof fn lemma_grafted_index<M>(p: Seq<MenuEntry<M>>, c: Seq<MenuEntry<M>>)
    ensures
        grafted(p, c).len() == p.len() + c.len(),
        forall|i: int| 0 <= i < p.len() ==> #[trigger] grafted(p, c)[i] == p[i],
        forall|i: int|
            p.len() <= i < p.len() + c.len() ==> #[trigger] grafted(p, c)[i] == shifted(
                c[i - p.len()],
            ),
{
}

proof fn lemma_grafted_depths<M>(p: Seq<MenuEntry<M>>, c: Seq<MenuEntry<M>>)
    requires
        c.len() <= i32::MAX,
        depths_ok(p),
        depths_ok(c),
    ensures
        depths_ok(grafted(p, c)),
{
    lemma_grafted_index(p, c);
    lemma_depth_bound(c);
    let t = grafted(p, c);
    let n = p.len() as int;
    assert forall|i: int| 1 <= i < t.len() implies #[trigger] depth_step(t, i) by {
        if i > n {
            assert(depth_step(c, i - n));
            assert(t[i] == shifted(c[i - n]));
            assert(t[i - 1] == shifted(c[i - n - 1]));
        } else if i < n {
            assert(depth_step(p, i));
        } else {
            assert(t[i] == shifted(c[0]));
        }
    }
}

proof fn lemma_grafted_kinds<M>(p: Seq<MenuEntry<M>>, c: Seq<MenuEntry<M>>)
    requires
        c.len() <= i32::MAX,
        depths_ok(p),
        depths_ok(c),
        kinds_ok(p),
        kinds_ok(c),
        !p[0].kind.is_leaf(),
        !(c[0].kind is Root),
    ensures
        kinds_ok(grafted(p, c)),
{
    lemma_grafted_index(p, c);
    lemma_depth_bound(c);
    let t = grafted(p, c);
    let n = p.len() as int;
    assert forall|i: int| 0 <= i < t.len() - 1 implies #[trigger] leaf_step(t, i) by {
        if i >= n {
            assert(leaf_step(c, i - n));
            assert(t[i] == shifted(c[i - n]));
            assert(t[i + 1] == shifted(c[i - n + 1]));
        } else if i < n - 1 {
            assert(leaf_step(p, i));
        } else if p[i].kind.is_leaf() {
            assert(t[i + 1] == shifted(c[0]));
            if i == 0 {
                assert(!p[0].kind.is_leaf());
            } else {
                assert(depth_step(p, i));
            }
        }
    }
    assert forall|i: int| 1 <= i < t.len() implies !((#[trigger] t[i].kind) is Root) by {
        if i > n {
            assert(!(c[i - n].kind is Root));
        }
    }
}

proof fn lemma_grafted_radios<M>(p: Seq<MenuEntry<M>>, c: Seq<MenuEntry<M>>)
    requires
        c.len() <= i32::MAX,
        depths_ok(p),
        depths_ok(c),
        radios_ok(p),
        radios_ok(c),
        radios_deep(p),
        !(c[0].kind is RadioButton),
        c[0].kind is RadioGroup || radios_deep(c),
    ensures
        radios_ok(grafted(p, c)),
        radios_deep(grafted(p, c)),
{
    lemma_grafted_index(p, c);
    lemma_depth_bound(c);
    let t = grafted(p, c);
    let n = p.len() as int;
    assert forall|i: int| 0 <= i < t.len() implies #[trigger] radio_back(t, i) by {
        if i > n {
            assert(radio_back(c, i - n));
            assert(t[i] == shifted(c[i - n]));
            assert(t[i - 1] == shifted(c[i - n - 1]));
        } else if i == n {
            assert(t[i] == shifted(c[0]));
        } else {
            assert(radio_back(p, i));
        }
    }
    assert forall|i: int| 0 <= i < t.len() - 1 implies #[trigger] radio_exit(t, i) by {
        if i >= n {
            assert(radio_exit(c, i - n));
            assert(t[i] == shifted(c[i - n]));
            assert(t[i + 1] == shifted(c[i - n + 1]));
        } else if i < n - 1 {
            assert(radio_exit(p, i));
        } else {
            assert(t[i + 1] == shifted(c[0]));
        }
    }
    assert forall|i: int| 0 <= i < t.len() implies #[trigger] group_next(t, i) by {
        if i >= n {
            assert(group_next(c, i - n));
            assert(t[i] == shifted(c[i - n]));
            if i + 1 < t.len() {
                assert(t[i + 1] == shifted(c[i - n + 1]));
            }
        } else {
            assert(group_next(p, i));
        }
    }
    assert forall|i: int| 0 <= i < t.len() && (#[trigger] t[i].kind) is RadioButton implies t[i].depth
        >= 2 by {
        if i >= n {
            assert(c[i - n].kind is RadioButton);
            if i > n {
                assert(depth_step(c, i - n));
            }
        } else {
            assert(p[i].kind is RadioButton);
        }
    }
}

proof fn lemma_grafted_selection_parent<M>(p: Seq<MenuEntry<M>>, c: Seq<MenuEntry<M>>, g: int)
    requires
        0 <= g < p.len(),
        one_selected(p, g),
        c.len() > 0 ==> !(c[0].kind is RadioButton),
    ensures
        one_selected(grafted(p, c), g),
{
    lemma_grafted_index(p, c);
    let t = grafted(p, c);
    assert forall|i: int| 0 <= i < p.len() implies (#[trigger] p[i]).kind == t[i + 0].kind by {
        assert(t[i] == p[i]);
    }
    assert forall|i: int| 0 <= i < p.len() implies is_selected(#[trigger] p[i]) == is_selected(
        t[i + 0],
    ) by {
        assert(t[i] == p[i]);
    }
    if t.len() > p.len() {
        assert(t[p.len() as int] == shifted(c[0]));
    }
    lemma_one_selected_moved(p, t, 0, g);
    assert(g + 0 == g);
}

proof fn lemma_grafted_selection_child<M>(p: Seq<MenuEntry<M>>, c: Seq<MenuEntry<M>>, g: int)
    requires
        0 <= g < c.len(),
        one_selected(c, g),
    ensures
        one_selected(grafted(p, c), g + p.len()),
{
    lemma_grafted_index(p, c);
    let t = grafted(p, c);
    let n = p.len() as int;
    assert forall|i: int| 0 <= i < c.len() implies (#[trigger] c[i]).kind == t[i + n].kind by {
        assert(t[i + n] == shifted(c[i - 0]));
    }
    assert forall|i: int| 0 <= i < c.len() implies is_selected(#[trigger] c[i]) == is_selected(
        t[i + n],
    ) by {
        assert(t[i + n] == shifted(c[i - 0]));
    }
    lemma_one_selected_moved(c, t, n, g);
}

proof fn lemma_grafted_selection<M>(p: Seq<MenuEntry<M>>, c: Seq<MenuEntry<M>>)
    requires
        selection_ok(p),
        selection_ok(c),
        !(c[0].kind is RadioButton),
    ensures
        selection_ok(grafted(p, c)),
{
    lemma_grafted_index(p, c);
    let t = grafted(p, c);
    let n = p.len() as int;
    assert forall|g: int| 0 <= g < t.len() && (#[trigger] t[g].kind) is RadioGroup implies one_selected(
        t,
        g,
    ) by {
        if g < n {
            assert(p[g].kind is RadioGroup);
            lemma_grafted_selection_parent(p, c, g);
        } else {
            assert(t[g] == shifted(c[g - n]));
            assert(c[g - n].kind is RadioGroup);
            lemma_grafted_selection_child(p, c, g - n);
            assert(g - n + n == g);
        }
    }
}

/// Putting a well-formed unit below a container keeps it well formed.
pub proof fn lemma_grafted_wf<M>(p: Seq<MenuEntry<M>>, c: Seq<MenuEntry<M>>)
    requires
        container_wf(p),
        unit_wf(c),
        p.len() + c.len() <= i32::MAX,
    ensures
        container_wf(grafted(p, c)),
        grafted(p, c)[0] == p[0],
        grafted(p, c).len() == p.len() + c.len(),
{
    lemma_grafted_index(p, c);
    lemma_grafted_depths(p, c);
    lemma_grafted_kinds(p, c);
    lemma_grafted_radios(p, c);
    lemma_grafted_selection(p, c);
}


/// Moves the entries of `child` below the first entry of `parent`.
fn graft<M>(parent: Vec<MenuEntry<M>>, child: Vec<MenuEntry<M>>) -> (r: Vec<MenuEntry<M>>)
    requires
        child@.len() <= i32::MAX,
        depths_ok(child@),
    ensures
        r@ == grafted(parent@, child@),
{
    let ghost c0 = child@;
    proof {
        lemma_depth_bound(c0);
    }
    let mut out = parent;
    let mut rest = child;
    let ghost n = c0.len();
    while rest.len() > 0
        invariant
            c0.len() <= i32::MAX,
            rest@.len() <= c0.len(),
            forall|i: int| 0 <= i < c0.len() ==> (#[trigger] c0[i]).depth <= i,
            rest@ == c0.subrange(c0.len() - rest@.len(), c0.len() as int),
            out@ == parent@ + c0.subrange(0, c0.len() - rest@.len()).map_values(
                |e: MenuEntry<M>| shifted(e),
            ),
        decreases rest.len(),
    {
        let ghost k = c0.len() - rest@.len();
        let e = rest.remove(0);
        assert(e == c0[k]);
        let moved = MenuEntry {
            kind: e.kind,
            properties: e.properties,
            message: e.message,
            depth: e.depth + 1,
        };
        out.push(moved);
        assert(rest@ =~= c0.subrange(c0.len() - rest@.len(), c0.len() as int));
        assert(c0.subrange(0, k + 1).map_values(|e: MenuEntry<M>| shifted(e)) =~= c0.subrange(
            0,
            k,
        ).map_values(|e: MenuEntry<M>| shifted(e)).push(shifted(c0[k])));
        assert(out@ =~= parent@ + c0.subrange(0, k + 1).map_values(|e: MenuEntry<M>| shifted(e)));
    }
    assert(c0.subrange(0, c0.len() as int) =~= c0);
    out
}


/// What a plain button shows.
#[derive(Debug)]
pub struct ButtonOptions {
    pub label: String,
    pub enabled: bool,
    /// An icon theme name; empty for no icon.
    pub icon_name: String,
}

/// What one option of a radio group shows.
#[derive(Debug)]
pub struct RadioOptions {
    pub label: String,
    pub enabled: bool,
    /// An icon theme name; empty for no icon.
    pub icon_name: String,
    pub toggle_type: ToggleType,
    pub toggle_state: ToggleState,
}

impl Default for RadioOptions {
    fn default() -> (r: RadioOptions)
        ensures
            r.label@ == Seq::<char>::empty(),
            r.enabled,
            r.icon_name@ == Seq::<char>::empty(),
            r.toggle_type == ToggleType::Radio,
            r.toggle_state == ToggleState::UnSelected,
    {
        RadioOptions {
            label: String::new(),
            enabled: true,
            icon_name: String::new(),
            toggle_type: ToggleType::Radio,
            toggle_state: ToggleState::UnSelected,
        }
    }
}

/// An icon name is set only when it is not empty.
pub open spec fn icon_of(name: String) -> Option<String> {
    if name@.len() == 0 {
        None
    } else {
        Some(name)
    }
}

fn make_icon(name: String) -> (r: Option<String>)
    ensures
        r == icon_of(name),
{
    if name.as_str().is_empty() {
        None
    } else {
        Some(name)
    }
}

/// Nothing set.
pub open spec fn no_properties() -> MenuProperties {
    MenuProperties {
        label: None,
        icon_name: None,
        enabled: None,
        toggle_type: None,
        toggle_state: None,
    }
}

fn empty_properties() -> (r: MenuProperties)
    ensures
        r == no_properties(),
{
    MenuProperties {
        label: None,
        icon_name: None,
        enabled: None,
        toggle_type: None,
        toggle_state: None,
    }
}

/// The entry a button is made of.
pub open spec fn button_entry<M>(o: ButtonOptions, message: M) -> MenuEntry<M> {
    MenuEntry {
        kind: MenuKind::Button,
        properties: MenuProperties {
            label: Some(o.label),
            icon_name: icon_of(o.icon_name),
            enabled: Some(o.enabled),
            toggle_type: None,
            toggle_state: None,
        },
        message: Some(message),
        depth: 0,
    }
}

/// The entry one radio option is made of, one level below its group.
pub open spec fn radio_entry<M>(o: RadioOptions, message: M) -> MenuEntry<M> {
    MenuEntry {
        kind: MenuKind::RadioButton,
        properties: MenuProperties {
            label: Some(o.label),
            icon_name: icon_of(o.icon_name),
            enabled: Some(o.enabled),
            toggle_type: Some(o.toggle_type),
            toggle_state: Some(o.toggle_state),
        },
        message: Some(message),
        depth: 1,
    }
}

/// An entry of the given kind with at most a label and no message.
pub open spec fn bare_entry<M>(kind: MenuKind, label: Option<String>) -> MenuEntry<M> {
    MenuEntry {
        kind,
        properties: MenuProperties { label, ..no_properties() },
        message: None,
        depth: 0,
    }
}

/// The radio group entries built from its options: the group, then one button per
/// option in order.
pub open spec fn radio_entries<M>(options: Seq<(RadioOptions, M)>) -> Seq<MenuEntry<M>> {
    seq![bare_entry(MenuKind::RadioGroup, None)] + options.map_values(
        |o: (RadioOptions, M)| radio_entry(o.0, o.1),
    )
}

/// Exactly one of the options is marked selected.
pub open spec fn exactly_one_selected<M>(options: Seq<(RadioOptions, M)>) -> bool {
    exists|k: int|
        0 <= k < options.len() && (#[trigger] options[k]).0.toggle_state == ToggleState::Selected
            && forall|j: int|
            0 <= j < options.len() && (#[trigger] options[j]).0.toggle_state
                == ToggleState::Selected ==> j == k
}

/// A piece of menu under construction: one entry and everything below it.
#[derive(Debug)]
pub struct MenuUnit<M> {
    entries: Vec<MenuEntry<M>>,
}

impl<M> View for MenuUnit<M> {
    type V = Seq<MenuEntry<M>>;

    closed spec fn view(&self) -> Seq<MenuEntry<M>> {
        self.entries@
    }
}

/// The options of a radio group, gathered in order.
#[derive(Debug)]
pub struct RadioGroupBuilder<M> {
    options: Vec<(RadioOptions, M)>,
}

impl<M> View for RadioGroupBuilder<M> {
    type V = Seq<(RadioOptions, M)>;

    closed spec fn view(&self) -> Seq<(RadioOptions, M)> {
        self.options@
    }
}

impl<M> RadioGroupBuilder<M> {
    pub fn new() -> (r: RadioGroupBuilder<M>)
        ensures
            r@ == Seq::<(RadioOptions, M)>::empty(),
    {
        RadioGroupBuilder { options: Vec::new() }
    }

    /// Adds one option after those already there.
    pub fn append(self, options: RadioOptions, message: M) -> (r: RadioGroupBuilder<M>)
        ensures
            r@ == self@.push((options, message)),
    {
        let mut all = self.options;
        all.push((options, message));
        RadioGroupBuilder { options: all }
    }
}

impl<M> MenuUnit<M> {
    pub open spec fn wf(&self) -> bool {
        unit_wf(self@)
    }

    #[verifier::type_invariant]
    pub open spec fn inv(&self) -> bool {
        self.wf()
    }

    /// How many entries the unit has.
    pub fn len(&self) -> (r: usize)
        ensures
            r == self@.len(),
    {
        self.entries.len()
    }

    /// A clickable entry that hands `message` back when used.
    pub fn button(options: ButtonOptions, message: M) -> (r: MenuUnit<M>)
        ensures
            r@ == seq![button_entry(options, message)],
            r.wf(),
    {
        let icon = make_icon(options.icon_name);
        let e = MenuEntry {
            kind: MenuKind::Button,
            properties: MenuProperties {
                label: Some(options.label),
                icon_name: icon,
                enabled: Some(options.enabled),
                toggle_type: None,
                toggle_state: None,
            },
            message: Some(message),
            depth: 0,
        };
        let mut entries = Vec::new();
        entries.push(e);
        MenuUnit { entries }
    }

    /// An entry that opens a nested menu; its entries are added with `push`.
    pub fn sub_menu(label: String) -> (r: MenuUnit<M>)
        ensures
            r@ == seq![bare_entry::<M>(MenuKind::SubMenu, Some(label))],
            r.wf(),
    {
        let props = MenuProperties { label: Some(label), ..empty_properties() };
        let mut entries = Vec::new();
        entries.push(MenuEntry { kind: MenuKind::SubMenu, properties: props, message: None, depth: 0 });
        MenuUnit { entries }
    }

    /// A line between entries.
    pub fn separator() -> (r: MenuUnit<M>)
        ensures
            r@ == seq![bare_entry::<M>(MenuKind::Separator, None)],
            r.wf(),
    {
        let mut entries = Vec::new();
        entries.push(
            MenuEntry {
                kind: MenuKind::Separator,
                properties: empty_properties(),
                message: None,
                depth: 0,
            },
        );
        MenuUnit { entries }
    }

    /// Adds `child` as the last entry of this submenu. Only a submenu takes children.
    pub fn push(self, child: MenuUnit<M>) -> (r: MenuUnit<M>)
        requires
            self@[0].kind is SubMenu,
            self@.len() + child@.len() <= i32::MAX,
        ensures
            r@ == grafted(self@, child@),
            r.wf(),
    {
        proof {
            use_type_invariant(&self);
            use_type_invariant(&child);
            lemma_grafted_wf(self@, child@);
        }
        MenuUnit { entries: graft(self.entries, child.entries) }
    }

    /// A group of radio buttons, one per option in order. Exactly one option must be
    /// selected; otherwise the group is refused.
    pub fn radio_group(group: RadioGroupBuilder<M>) -> (r: Result<MenuUnit<M>, MenuError>)
        requires
            group@.len() < i32::MAX,
        ensures
            r is Ok <==> exactly_one_selected(group@),
            r matches Ok(u) ==> u@ == radio_entries(group@) && u.wf(),
            r matches Err(e) ==> e == MenuError::RadioSelection,
    {
        let opts = group.options;
        let ghost g0 = opts@;
        // find the one selected option, if there is exactly one
        let mut found: Option<usize> = None;
        let mut twice = false;
        let mut i: usize = 0;
        while i < opts.len()
            invariant
                i <= opts@.len(),
                opts@ == g0,
                found matches Some(k) ==> k < i && g0[k as int].0.toggle_state
                    == ToggleState::Selected,
                found is None ==> forall|j: int|
                    0 <= j < i ==> (#[trigger] g0[j]).0.toggle_state != ToggleState::Selected,
                found is Some && !twice ==> forall|j: int|
                    0 <= j < i && (#[trigger] g0[j]).0.toggle_state == ToggleState::Selected ==> j
                        == found->0,
                twice ==> found is Some && exists|j: int|
                    0 <= j < i && (#[trigger] g0[j]).0.toggle_state == ToggleState::Selected && j
                        != found->0,
            decreases opts@.len() - i,
        {
            if opts[i].0.toggle_state == ToggleState::Selected {
                if found.is_none() {
                    found = Some(i);
                } else {
                    twice = true;
                }
            }
            i = i + 1;
        }
        if found.is_none() || twice {
            return Err(MenuError::RadioSelection);
        }
        let ghost sel = found->0 as int;
        let mut entries: Vec<MenuEntry<M>> = Vec::new();
        entries.push(
            MenuEntry {
                kind: MenuKind::RadioGroup,
                properties: empty_properties(),
                message: None,
                depth: 0,
            },
        );
        let mut rest = opts;
        while rest.len() > 0
            invariant
                rest@.len() <= g0.len(),
                rest@ == g0.subrange(g0.len() - rest@.len(), g0.len() as int),
                entries@ == seq![bare_entry::<M>(MenuKind::RadioGroup, None)] + g0.subrange(
                    0,
                    g0.len() - rest@.len(),
                ).map_values(|o: (RadioOptions, M)| radio_entry(o.0, o.1)),
            decreases rest.len(),
        {
            let ghost k = g0.len() - rest@.len();
            let (o, m) = rest.remove(0);
            assert(rest@ =~= g0.subrange(g0.len() - rest@.len(), g0.len() as int));
            let icon = make_icon(o.icon_name);
            let e = MenuEntry {
                kind: MenuKind::RadioButton,
                properties: MenuProperties {
                    label: Some(o.label),
                    icon_name: icon,
                    enabled: Some(o.enabled),
                    toggle_type: Some(o.toggle_type),
                    toggle_state: Some(o.toggle_state),
                },
                message: Some(m),
                depth: 1,
            };
            entries.push(e);
            assert(g0.subrange(0, k + 1).map_values(|o: (RadioOptions, M)| radio_entry(o.0, o.1))
                =~= g0.subrange(0, k).map_values(|o: (RadioOptions, M)| radio_entry(o.0, o.1)).push(
                radio_entry(g0[k].0, g0[k].1),
            ));
            assert(entries@ =~= seq![bare_entry::<M>(MenuKind::RadioGroup, None)] + g0.subrange(
                0,
                k + 1,
            ).map_values(|o: (RadioOptions, M)| radio_entry(o.0, o.1)));
        }
        assert(g0.subrange(0, g0.len() as int) =~= g0);
        proof {
            lemma_radio_entries_wf(g0, sel);
        }
        Ok(MenuUnit { entries })
    }
}

proof fn lemma_radio_entries_wf<M>(g: Seq<(RadioOptions, M)>, sel: int)
    requires
        g.len() < i32::MAX,
        0 <= sel < g.len(),
        g[sel].0.toggle_state == ToggleState::Selected,
        forall|j: int|
            0 <= j < g.len() && (#[trigger] g[j]).0.toggle_state == ToggleState::Selected ==> j
                == sel,
    ensures
        unit_wf(radio_entries(g)),
{
    let s = radio_entries(g);
    assert forall|i: int| 1 <= i < s.len() implies #[trigger] s[i] == radio_entry(
        g[i - 1].0,
        g[i - 1].1,
    ) by {}
    assert forall|i: int| 1 <= i < s.len() implies #[trigger] depth_step(s, i) by {
        assert(s[i] == radio_entry(g[i - 1].0, g[i - 1].1));
        if i > 1 {
            assert(s[i - 1] == radio_entry(g[i - 2].0, g[i - 2].1));
        }
    }
    assert forall|i: int| 0 <= i < s.len() - 1 implies #[trigger] leaf_step(s, i) by {
        assert(s[i + 1] == radio_entry(g[i].0, g[i].1));
        if i > 0 {
            assert(s[i] == radio_entry(g[i - 1].0, g[i - 1].1));
        }
    }
    assert forall|i: int| 1 <= i < s.len() implies !((#[trigger] s[i].kind) is Root) by {
        assert(s[i] == radio_entry(g[i - 1].0, g[i - 1].1));
    }
    assert forall|i: int| 0 <= i < s.len() implies #[trigger] radio_back(s, i) by {
        if i > 0 {
            assert(s[i] == radio_entry(g[i - 1].0, g[i - 1].1));
        }
        if i > 1 {
            assert(s[i - 1] == radio_entry(g[i - 2].0, g[i - 2].1));
        }
    }
    assert forall|i: int| 0 <= i < s.len() - 1 implies #[trigger] radio_exit(s, i) by {
        assert(s[i + 1] == radio_entry(g[i].0, g[i].1));
    }
    assert forall|i: int| 0 <= i < s.len() implies #[trigger] group_next(s, i) by {
        if i > 0 {
            assert(s[i] == radio_entry(g[i - 1].0, g[i - 1].1));
        } else {
            assert(s[1] == radio_entry(g[0].0, g[0].1));
        }
    }
    lemma_run_end_basics(s, 1);
    if run_end(s, 1) < s.len() {
        let e = run_end(s, 1);
        assert(s[e] == radio_entry(g[e - 1].0, g[e - 1].1));
    }
    assert(is_selected(s[sel + 1])) by {
        assert(s[sel + 1] == radio_entry(g[sel].0, g[sel].1));
    }
    assert forall|j: int| 0 < j < run_end(s, 1) && #[trigger] is_selected(s[j]) implies j == sel
        + 1 by {
        assert(s[j] == radio_entry(g[j - 1].0, g[j - 1].1));
    }
    assert(one_selected(s, 0));
    assert forall|i: int| 0 <= i < s.len() && (#[trigger] s[i].kind) is RadioGroup implies one_selected(
        s,
        i,
    ) by {
        if i > 0 {
            assert(s[i] == radio_entry(g[i - 1].0, g[i - 1].1));
        }
    }
}

fn choose_in<M>(entries: &mut Vec<MenuEntry<M>>, id: usize)
    requires
        container_wf(old(entries)@),
        id < old(entries)@.len(),
        old(entries)@[id as int].kind is RadioButton,
    ensures
        final(entries)@ == radio_chosen(old(entries)@, id as int),
    no_unwind
{
    let ghost s = entries@;
    proof {
        lemma_run_start_basics(s, id as int);
        lemma_run_end_basics(s, id as int);
        lemma_radio_chosen_wf(s, id as int);
    }
    let n = entries.len();
    let mut start = id;
    while start > 0 && entries[start - 1].kind == MenuKind::RadioButton
        invariant
            entries@ == s,
            n == s.len(),
            start <= id < n,
            run_start(s, start as int) == run_start(s, id as int),
        decreases start,
    {
        start = start - 1;
    }
    let mut end = id;
    while end < n && entries[end].kind == MenuKind::RadioButton
        invariant
            entries@ == s,
            n == s.len(),
            id <= end <= n,
            run_end(s, end as int) == run_end(s, id as int),
        decreases n - end,
    {
        end = end + 1;
    }
    let mut j = start;
    while j < end
        invariant
            n == s.len(),
            entries@.len() == n,
            start == run_start(s, id as int),
            end == run_end(s, id as int),
            start <= j <= end <= n,
            forall|k: int|
                0 <= k < n ==> #[trigger] entries@[k] == if start <= k < j {
                    with_selection(s[k], k == id)
                } else {
                    s[k]
                },
        decreases end - j,
    {
        let state = if j == id {
            ToggleState::Selected
        } else {
            ToggleState::UnSelected
        };
        entries[j].properties.toggle_state = Some(state);
        j = j + 1;
    }
    assert(entries@ =~= radio_chosen(s, id as int));
}

/// A whole menu. Entries are kept in depth-first order, and the id of an entry is its
/// position in that order: the root is id 0, and ids run on through the tree as it is
/// read top to bottom. Ids are fixed when the tree is built.
#[derive(Debug)]
pub struct MenuTree<M> {
    entries: Vec<MenuEntry<M>>,
}

impl<M> View for MenuTree<M> {
    type V = Seq<MenuEntry<M>>;

    closed spec fn view(&self) -> Seq<MenuEntry<M>> {
        self.entries@
    }
}

/// A well-formed whole menu: a container whose first entry is the root.
pub open spec fn tree_wf<M>(s: Seq<MenuEntry<M>>) -> bool {
    container_wf(s) && s[0].kind is Root
}

impl<M> MenuTree<M> {
    pub open spec fn wf(&self) -> bool {
        tree_wf(self@)
    }

    #[verifier::type_invariant]
    pub open spec fn inv(&self) -> bool {
        self.wf()
    }

    /// A menu with nothing but its root.
    pub fn new() -> (r: MenuTree<M>)
        ensures
            r@ == seq![bare_entry::<M>(MenuKind::Root, None)],
            r.wf(),
    {
        let mut entries = Vec::new();
        entries.push(
            MenuEntry { kind: MenuKind::Root, properties: empty_properties(), message: None, depth: 0 },
        );
        let r = MenuTree { entries };
        assert(r@[0].kind is Root);
        r
    }

    /// Adds `child` as the last top-level entry.
    pub fn push(self, child: MenuUnit<M>) -> (r: MenuTree<M>)
        requires
            self@.len() + child@.len() <= i32::MAX,
        ensures
            r@ == grafted(self@, child@),
            r.wf(),
    {
        proof {
            use_type_invariant(&self);
            use_type_invariant(&child);
            lemma_grafted_wf(self@, child@);
        }
        MenuTree { entries: graft(self.entries, child.entries) }
    }

    /// Selects the radio button `id` and clears every other button of its group.
    pub fn choose_radio(&mut self, id: usize)
        requires
            id < old(self)@.len(),
            old(self)@[id as int].kind is RadioButton,
        ensures
            final(self)@ == radio_chosen(old(self)@, id as int),
            final(self).wf(),
    {
        proof {
            use_type_invariant(&*self);
            lemma_radio_chosen_wf(self@, id as int);
        }
        choose_in(&mut self.entries, id);
    }

    /// The id of the entry that holds entry `id`; the root is its own parent.
    pub fn parent(&self, id: usize) -> (r: usize)
        requires
            id < self@.len(),
        ensures
            r == parent_of(self@, id as int),
    {
        if id == 0 {
            return 0;
        }
        let d = self.entries[id].depth;
        let mut j = id - 1;
        while self.entries[j].depth >= d
            invariant
                j < id < self@.len(),
                d == self@[id as int].depth,
                parent_from(self@, id as int, j as int) == parent_of(self@, id as int),
            decreases j,
        {
            if j == 0 {
                assert(parent_from(self@, id as int, j - 1) == 0);
                return 0;
            }
            j = j - 1;
        }
        j
    }

    /// How many entries the menu has; ids run from 0 to one less than this.
    pub fn len(&self) -> (r: usize)
        ensures
            r == self@.len(),
    {
        self.entries.len()
    }

    /// The entry with the given id.
    pub fn entry(&self, id: usize) -> (r: &MenuEntry<M>)
        requires
            id < self@.len(),
        ensures
            *r == self@[id as int],
    {
        &self.entries[id]
    }
}

/// Scanning back from `j`, the first entry above entry `i`.
pub open spec fn parent_from<M>(s: Seq<MenuEntry<M>>, i: int, j: int) -> int
    decreases j + 1,
{
    if j < 0 {
        0
    } else if s[j].depth < s[i].depth {
        j
    } else {
        parent_from(s, i, j - 1)
    }
}

/// The entry that holds entry `i`: the closest earlier entry higher up. The root is
/// taken as its own parent.
pub open spec fn parent_of<M>(s: Seq<MenuEntry<M>>, i: int) -> int {
    if i <= 0 {
        0
    } else {
        parent_from(s, i, i - 1)
    }
}

proof fn lemma_parent_from_range<M>(s: Seq<MenuEntry<M>>, i: int, j: int)
    requires
        j < i < s.len(),
        0 <= i,
    ensures
        0 <= parent_from(s, i, j) <= i,
    decreases j + 1,
{
    if j >= 0 && !(s[j].depth < s[i].depth) {
        lemma_parent_from_range(s, i, j - 1);
    }
}

/// The parent of an entry is an entry.
pub proof fn lemma_parent_in_range<M>(s: Seq<MenuEntry<M>>, i: int)
    requires
        0 <= i < s.len(),
    ensures
        0 <= parent_of(s, i) < s.len(),
{
    if i > 0 {
        lemma_parent_from_range(s, i, i - 1);
    }
}

/// The start of the run of radio buttons that holds `k`.
pub open spec fn run_start<M>(s: Seq<MenuEntry<M>>, k: int) -> int
    decreases k,
{
    if k <= 0 || k > s.len() || !(s[k - 1].kind is RadioButton) {
        k
    } else {
        run_start(s, k - 1)
    }
}

/// `e` with its toggle state set on or off.
pub open spec fn with_selection<M>(e: MenuEntry<M>, on: bool) -> MenuEntry<M> {
    MenuEntry {
        properties: MenuProperties {
            toggle_state: Some(
                if on {
                    ToggleState::Selected
                } else {
                    ToggleState::UnSelected
                },
            ),
            ..e.properties
        },
        ..e
    }
}

/// The entries after the radio button `i` is chosen: it is selected, the other buttons
/// of its group are not, and nothing else changes.
pub open spec fn radio_chosen<M>(s: Seq<MenuEntry<M>>, i: int) -> Seq<MenuEntry<M>> {
    Seq::new(
        s.len(),
        |j: int|
            if run_start(s, i) <= j < run_end(s, i) {
                with_selection(s[j], j == i)
            } else {
                s[j]
            },
    )
}

/// A run reaches back over radio buttons only, to just after the first that is not one.
pub proof fn lemma_run_start_basics<M>(s: Seq<MenuEntry<M>>, k: int)
    requires
        0 <= k <= s.len(),
    ensures
        0 <= run_start(s, k) <= k,
        forall|j: int| run_start(s, k) <= j < k ==> (#[trigger] s[j].kind) is RadioButton,
        run_start(s, k) > 0 ==> !(s[run_start(s, k) - 1].kind is RadioButton),
    decreases k,
{
    if k > 0 && s[k - 1].kind is RadioButton {
        lemma_run_start_basics(s, k - 1);
    }
}

/// Inside one run, every position finds the same end.
pub proof fn lemma_run_end_same<M>(s: Seq<MenuEntry<M>>, k: int, i: int)
    requires
        0 <= k <= i <= s.len(),
        forall|j: int| k <= j < i ==> (#[trigger] s[j].kind) is RadioButton,
    ensures
        run_end(s, k) == run_end(s, i),
    decreases i - k,
{
    if k < i {
        lemma_run_end_same(s, k + 1, i);
    }
}

/// Two sequences with the same kinds and depths are equally well shaped.
pub proof fn lemma_same_shape<M>(s: Seq<MenuEntry<M>>, t: Seq<MenuEntry<M>>)
    requires
        s.len() == t.len(),
        forall|i: int|
            0 <= i < s.len() ==> (#[trigger] t[i]).kind == s[i].kind && t[i].depth == s[i].depth,
        depths_ok(s),
        kinds_ok(s),
        radios_ok(s),
        radios_deep(s),
    ensures
        depths_ok(t),
        kinds_ok(t),
        radios_ok(t),
        radios_deep(t),
        forall|k: int| 0 <= k <= s.len() ==> run_end(t, k) == run_end(s, k),
{
    assert(t[0].depth == s[0].depth);
    assert forall|i: int| 1 <= i < t.len() implies #[trigger] depth_step(t, i) by {
        assert(depth_step(s, i));
        assert(t[i - 1].depth == s[i - 1].depth);
    }
    assert forall|i: int| 0 <= i < t.len() - 1 implies #[trigger] leaf_step(t, i) by {
        assert(leaf_step(s, i));
        assert(t[i + 1].depth == s[i + 1].depth);
    }
    assert forall|i: int| 1 <= i < t.len() implies !((#[trigger] t[i].kind) is Root) by {
        assert(t[i].kind == s[i].kind);
    }
    assert forall|i: int| 0 <= i < t.len() implies #[trigger] radio_back(t, i) by {
        assert(radio_back(s, i));
        if i > 0 {
            assert(t[i - 1].kind == s[i - 1].kind);
        }
    }
    assert forall|i: int| 0 <= i < t.len() - 1 implies #[trigger] radio_exit(t, i) by {
        assert(radio_exit(s, i));
        assert(t[i + 1].kind == s[i + 1].kind);
    }
    assert forall|i: int| 0 <= i < t.len() implies #[trigger] group_next(t, i) by {
        assert(group_next(s, i));
        if i + 1 < t.len() {
            assert(t[i + 1].kind == s[i + 1].kind);
        }
    }
    assert forall|i: int| 0 <= i < t.len() && (#[trigger] t[i].kind) is RadioButton implies t[i].depth
        >= 2 by {
        assert(t[i].kind == s[i].kind);
    }
    assert forall|k: int| 0 <= k <= s.len() implies run_end(t, k) == run_end(s, k) by {
        assert forall|i: int| 0 <= i < s.len() implies (#[trigger] s[i]).kind == t[i + 0].kind by {
            assert(t[i].kind == s[i].kind);
        }
        lemma_run_end_window(s, t, 0, k);
        assert(k + 0 == k);
    }
}

/// Choosing a radio button keeps the menu well formed: every group still has exactly
/// one selected button, and the chosen button is the selected one of its group.
pub proof fn lemma_radio_chosen_wf<M>(s: Seq<MenuEntry<M>>, i: int)
    requires
        container_wf(s),
        0 <= i < s.len(),
        s[i].kind is RadioButton,
    ensures
        container_wf(radio_chosen(s, i)),
        radio_chosen(s, i).len() == s.len(),
        is_selected(radio_chosen(s, i)[i]),
        forall|j: int|
            0 <= j < s.len() && #[trigger] radio_chosen(s, i)[j] != s[j] ==> run_start(s, i) <= j
                < run_end(s, i),
{
    let t = radio_chosen(s, i);
    let a = run_start(s, i);
    let b = run_end(s, i);
    lemma_run_start_basics(s, i);
    lemma_run_end_basics(s, i);
    assert forall|j: int| 0 <= j < s.len() implies (#[trigger] t[j]).kind == s[j].kind && t[j].depth
        == s[j].depth by {}
    lemma_same_shape(s, t);
    // the group owning the run sits right before it
    assert(a > 0) by {
        if a == 0 {
            assert(s[0].kind is RadioButton);
            assert(radio_back(s, 0));
        }
    }
    assert(s[a].kind is RadioButton);
    assert(radio_back(s, a));
    assert(s[a - 1].kind is RadioGroup);
    assert forall|j: int| a <= j < i implies (#[trigger] s[j].kind) is RadioButton by {}
    lemma_run_end_same(s, a, i);
    assert forall|g: int| 0 <= g < t.len() && (#[trigger] t[g].kind) is RadioGroup implies one_selected(
        t,
        g,
    ) by {
        assert(s[g].kind is RadioGroup);
        assert(one_selected(s, g));
        lemma_run_end_basics(s, g + 1);
        if g == a - 1 {
            assert(is_selected(t[i]));
            assert forall|j: int| g < j < run_end(t, g + 1) && #[trigger] is_selected(t[j]) implies j
                == i by {}
        } else if g < a - 1 {
            lemma_run_end_at_most(s, g + 1, a - 1);
            let k = choose|k: int|
                #![trigger is_selected(s[k])]
                g < k < run_end(s, g + 1) && is_selected(s[k]) && forall|j: int|
                    g < j < run_end(s, g + 1) && #[trigger] is_selected(s[j]) ==> j == k;
            assert(t[k] == s[k]);
            assert forall|j: int| g < j < run_end(t, g + 1) && #[trigger] is_selected(t[j]) implies j
                == k by {
                assert(t[j] == s[j]);
            }
        } else {
            assert(g >= b) by {
                if g < b {
                    assert(s[g].kind is RadioButton);
                }
            }
            let k = choose|k: int|
                #![trigger is_selected(s[k])]
                g < k < run_end(s, g + 1) && is_selected(s[k]) && forall|j: int|
                    g < j < run_end(s, g + 1) && #[trigger] is_selected(s[j]) ==> j == k;
            assert(t[k] == s[k]);
            assert forall|j: int| g < j < run_end(t, g + 1) && #[trigger] is_selected(t[j]) implies j
                == k by {
                assert(t[j] == s[j]);
            }
        }
    }
}

} // verus!
