use vstd::prelude::*;
use vstd::seq_lib::group_filter_ensures;

use crate::event_types::{ToggleState, ToggleType};
use crate::menu::{depth_step, lemma_depth_bound, tree_wf, MenuEntry, MenuError, MenuKind, MenuTree};

verus! {

/// One display property of a menu entry, as a menu client reads it.
#[derive(Debug, PartialEq, Eq)]
pub enum MenuProperty {
    /// `type`: the entry is a separator.
    Separator,
    /// `label`
    Label(String),
    /// `enabled`
    Enabled(bool),
    /// `icon-name`
    IconName(String),
    /// `toggle-type`
    ToggleType(ToggleType),
    /// `toggle-state`
    ToggleState(ToggleState),
    /// `children-display`: the entry opens a submenu.
    SubMenu,
}

impl MenuProperty {
    /// The name under which a client asks for this property.
    pub open spec fn spec_key(&self) -> Seq<char> {
        match self {
            MenuProperty::Separator => "type"@,
            MenuProperty::Label(_) => "label"@,
            MenuProperty::Enabled(_) => "enabled"@,
            MenuProperty::IconName(_) => "icon-name"@,
            MenuProperty::ToggleType(_) => "toggle-type"@,
            MenuProperty::ToggleState(_) => "toggle-state"@,
            MenuProperty::SubMenu => "children-display"@,
        }
    }

    pub fn key(&self) -> (r: String)
        ensures
            r@ == self.spec_key(),
    {
        match self {
            MenuProperty::Separator => "type".to_string(),
            MenuProperty::Label(_) => "label".to_string(),
            MenuProperty::Enabled(_) => "enabled".to_string(),
            MenuProperty::IconName(_) => "icon-name".to_string(),
            MenuProperty::ToggleType(_) => "toggle-type".to_string(),
            MenuProperty::ToggleState(_) => "toggle-state".to_string(),
            MenuProperty::SubMenu => "children-display".to_string(),
        }
    }
}

pub open spec fn opt_seq(o: Option<MenuProperty>) -> Seq<MenuProperty> {
    match o {
        Some(p) => seq![p],
        None => seq![],
    }
}

pub open spec fn separator_part<M>(e: MenuEntry<M>) -> Option<MenuProperty> {
    if e.kind is Separator {
        Some(MenuProperty::Separator)
    } else {
        None
    }
}

pub open spec fn label_part<M>(e: MenuEntry<M>) -> Option<MenuProperty> {
    match e.properties.label {
        Some(l) => Some(MenuProperty::Label(l)),
        None => None,
    }
}

pub open spec fn enabled_part<M>(e: MenuEntry<M>) -> Option<MenuProperty> {
    match e.properties.enabled {
        Some(b) => Some(MenuProperty::Enabled(b)),
        None => None,
    }
}

pub open spec fn icon_part<M>(e: MenuEntry<M>) -> Option<MenuProperty> {
    match e.properties.icon_name {
        Some(n) => Some(MenuProperty::IconName(n)),
        None => None,
    }
}

pub open spec fn toggle_type_part<M>(e: MenuEntry<M>) -> Option<MenuProperty> {
    match e.properties.toggle_type {
        Some(t) => Some(MenuProperty::ToggleType(t)),
        None => None,
    }
}

pub open spec fn toggle_state_part<M>(e: MenuEntry<M>) -> Option<MenuProperty> {
    match e.properties.toggle_state {
        Some(t) => Some(MenuProperty::ToggleState(t)),
        None => None,
    }
}

pub open spec fn submenu_part<M>(e: MenuEntry<M>) -> Option<MenuProperty> {
    if e.kind is SubMenu {
        Some(MenuProperty::SubMenu)
    } else {
        None
    }
}

/// Every property that an entry has set, in a fixed order.
pub open spec fn entry_properties<M>(e: MenuEntry<M>) -> Seq<MenuProperty> {
    opt_seq(separator_part(e)) + opt_seq(label_part(e)) + opt_seq(enabled_part(e)) + opt_seq(
        icon_part(e),
    ) + opt_seq(toggle_type_part(e)) + opt_seq(toggle_state_part(e)) + opt_seq(submenu_part(e))
}

/// A property passes the filter `names` when the filter is empty or names it.
pub open spec fn wanted(names: Seq<String>, p: MenuProperty) -> bool {
    names.len() == 0 || named(names, p)
}

/// One of `names` is the name of `p`.
pub open spec fn named(names: Seq<String>, p: MenuProperty) -> bool {
    exists|i: int| 0 <= i < names.len() && (#[trigger] names[i])@ == p.spec_key()
}

/// The filter `names` as a predicate.
pub open spec fn wanted_by(names: Seq<String>) -> spec_fn(MenuProperty) -> bool {
    |p: MenuProperty| wanted(names, p)
}

/// The properties of `e` that pass the filter `names`.
pub open spec fn filtered_properties<M>(e: MenuEntry<M>, names: Seq<String>) -> Seq<MenuProperty> {
    entry_properties(e).filter(wanted_by(names))
}

fn append_part(out: &mut Vec<MenuProperty>, part: Option<MenuProperty>)
    ensures
        final(out)@ == old(out)@ + opt_seq(part),
{
    match part {
        Some(p) => {
            out.push(p);
            assert(out@ =~= old(out)@ + opt_seq(Some(p)));
        },
        None => {
            assert(old(out)@ + opt_seq(None) =~= old(out)@);
        },
    }
}

fn copy_text(o: &Option<String>) -> (r: Option<String>)
    ensures
        r == *o,
{
    match o {
        Some(s) => Some(s.clone()),
        None => None,
    }
}

/// Lists the properties that `e` has set.
pub fn properties_of<M>(e: &MenuEntry<M>) -> (r: Vec<MenuProperty>)
    ensures
        r@ == entry_properties(*e),
{
    let mut out: Vec<MenuProperty> = Vec::new();
    let sep = if e.kind == MenuKind::Separator {
        Some(MenuProperty::Separator)
    } else {
        None
    };
    append_part(&mut out, sep);
    let label = match copy_text(&e.properties.label) {
        Some(l) => Some(MenuProperty::Label(l)),
        None => None,
    };
    append_part(&mut out, label);
    let enabled = match e.properties.enabled {
        Some(b) => Some(MenuProperty::Enabled(b)),
        None => None,
    };
    append_part(&mut out, enabled);
    let icon = match copy_text(&e.properties.icon_name) {
        Some(n) => Some(MenuProperty::IconName(n)),
        None => None,
    };
    append_part(&mut out, icon);
    let toggle_type = match e.properties.toggle_type {
        Some(t) => Some(MenuProperty::ToggleType(t)),
        None => None,
    };
    append_part(&mut out, toggle_type);
    let toggle_state = match e.properties.toggle_state {
        Some(t) => Some(MenuProperty::ToggleState(t)),
        None => None,
    };
    append_part(&mut out, toggle_state);
    let sub = if e.kind == MenuKind::SubMenu {
        Some(MenuProperty::SubMenu)
    } else {
        None
    };
    append_part(&mut out, sub);
    assert(out@ =~= entry_properties(*e));
    out
}

/// Whether `p` passes the filter `names`.
pub fn is_wanted(names: &Vec<String>, p: &MenuProperty) -> (r: bool)
    ensures
        r == wanted(names@, *p),
{
    if names.len() == 0 {
        return true;
    }
    let key = p.key();
    let mut i: usize = 0;
    while i < names.len()
        invariant
            i <= names@.len(),
            key@ == p.spec_key(),
            forall|j: int| 0 <= j < i ==> (#[trigger] names@[j])@ != p.spec_key(),
        decreases names@.len() - i,
    {
        if names[i] == key {
            assert((names@[i as int])@ == p.spec_key());
            return true;
        }
        i = i + 1;
    }
    false
}

/// Keeps the properties that pass the filter `names`, in order.
pub fn filter_properties(props: Vec<MenuProperty>, names: &Vec<String>) -> (r: Vec<MenuProperty>)
    ensures
        r@ == props@.filter(wanted_by(names@)),
{
    let ghost p0 = props@;
    let mut out: Vec<MenuProperty> = Vec::new();
    let mut rest = props;
    assert(p0.subrange(0, 0) =~= Seq::<MenuProperty>::empty());
    assert(Seq::<MenuProperty>::empty().filter(wanted_by(names@)) =~= Seq::<
        MenuProperty,
    >::empty()) by {
        reveal(Seq::filter);
    }
    while rest.len() > 0
        invariant
            rest@.len() <= p0.len(),
            rest@ == p0.subrange(p0.len() - rest@.len(), p0.len() as int),
            out@ == p0.subrange(0, p0.len() - rest@.len()).filter(
                wanted_by(names@),
            ),
        decreases rest.len(),
    {
        let ghost k = p0.len() - rest@.len();
        let p = rest.remove(0);
        assert(rest@ =~= p0.subrange(p0.len() - rest@.len(), p0.len() as int));
        assert(p0.subrange(0, k + 1) =~= p0.subrange(0, k).push(p));
        let keep = is_wanted(names, &p);
        let ghost before = out@;
        if keep {
            out.push(p);
        }
        proof {
            p0.subrange(0, k).lemma_filter_push(p, wanted_by(names@));
        }
    }
    assert(p0.subrange(0, p0.len() as int) =~= p0);
    out
}

/// One entry of a layout reply: the entry's id, how far below the requested entry it
/// lies, and the properties that passed the filter. A reply lists its entries in
/// depth-first order, so each entry's parent is the closest earlier one a level up.
#[derive(Debug)]
pub struct LayoutItem {
    pub id: i32,
    pub depth: usize,
    pub properties: Vec<MenuProperty>,
}

pub struct LayoutItemView {
    pub id: int,
    pub depth: int,
    pub properties: Seq<MenuProperty>,
}

impl View for LayoutItem {
    type V = LayoutItemView;

    open spec fn view(&self) -> LayoutItemView {
        LayoutItemView { id: self.id as int, depth: self.depth as int, properties: self.properties@ }
    }
}

pub open spec fn views(items: Seq<LayoutItem>) -> Seq<LayoutItemView> {
    items.map_values(|it: LayoutItem| it@)
}

/// Scanning on from `k`, the first position that is no longer below entry `r`.
pub open spec fn end_from<M>(s: Seq<MenuEntry<M>>, r: int, k: int) -> int
    decreases s.len() - k,
{
    if k < 0 || k >= s.len() || s[k].depth <= s[r].depth {
        k
    } else {
        end_from(s, r, k + 1)
    }
}

/// Entry `r` and everything below it occupy positions `r` up to this one.
pub open spec fn subtree_end<M>(s: Seq<MenuEntry<M>>, r: int) -> int {
    end_from(s, r, r + 1)
}

/// An entry `rel` levels below the requested one is in a reply of recursion depth `n`.
/// Any negative `n` means no bound.
pub open spec fn within(rel: int, n: i32) -> bool {
    n < 0 || rel <= n
}

pub open spec fn within_by<M>(s: Seq<MenuEntry<M>>, r: int, n: i32) -> spec_fn(int) -> bool {
    |i: int| within(s[i].depth - s[r].depth, n)
}

pub open spec fn item_view<M>(s: Seq<MenuEntry<M>>, r: int, names: Seq<String>, i: int) -> LayoutItemView {
    LayoutItemView {
        id: i,
        depth: s[i].depth - s[r].depth,
        properties: filtered_properties(s[i], names),
    }
}

pub open spec fn item_view_by<M>(s: Seq<MenuEntry<M>>, r: int, names: Seq<String>) -> spec_fn(
    int,
) -> LayoutItemView {
    |i: int| item_view(s, r, names, i)
}

/// The ids in the layout of entry `r` to recursion depth `n`: those of `r` and of the
/// entries below it, in depth-first order, no more than `n` levels down.
pub open spec fn layout_ids<M>(s: Seq<MenuEntry<M>>, r: int, n: i32) -> Seq<int> {
    Seq::new((subtree_end(s, r) - r) as nat, |j: int| r + j).filter(within_by(s, r, n))
}

/// The layout reply for entry `r`, recursion depth `n` and property filter `names`.
pub open spec fn layout_spec<M>(s: Seq<MenuEntry<M>>, r: int, n: i32, names: Seq<String>) -> Seq<
    LayoutItemView,
> {
    layout_ids(s, r, n).map_values(item_view_by(s, r, names))
}

impl<M> MenuTree<M> {
    /// Serializes the entry `parent_id` and what lies below it, down to
    /// `recursion_depth` levels (0: the entry alone; negative: no bound), with the
    /// properties that `property_names` asks for (empty: all of them).
    pub fn layout(&self, parent_id: i32, recursion_depth: i32, property_names: &Vec<String>) -> (r:
        Result<Vec<LayoutItem>, MenuError>)
        ensures
            r is Err <==> !(0 <= parent_id < self@.len()),
            r matches Err(e) ==> e == MenuError::NotFound,
            r matches Ok(items) ==> views(items@) == layout_spec(
                self@,
                parent_id as int,
                recursion_depth,
                property_names@,
            ),
    {
        proof {
            use_type_invariant(self);
        }
        let n = self.len();
        if parent_id < 0 || parent_id as usize >= n {
            return Err(MenuError::NotFound);
        }
        let ghost s = self@;
        let r = parent_id as usize;
        let base = self.entry(r).depth;
        let mut end = r + 1;
        while end < n && self.entry(end).depth > base
            invariant
                s == self@,
                n == s.len(),
                r < end <= n,
                base == s[r as int].depth,
                end_from(s, r as int, end as int) == subtree_end(s, r as int),
                forall|j: int| r < j < end ==> (#[trigger] s[j]).depth > base,
            decreases n - end,
        {
            end = end + 1;
        }
        assert(end_from(s, r as int, end as int) == end);
        let ghost ids = |j: int| r + j;
        proof {
            lemma_depth_bound(s);
        }
        let mut out: Vec<LayoutItem> = Vec::new();
        let mut k = r;
        assert(Seq::new(0, ids) =~= Seq::<int>::empty());
        assert(Seq::<int>::empty().filter(within_by(s, r as int, recursion_depth)) =~= Seq::<
            int,
        >::empty()) by {
            reveal(Seq::filter);
        }
        assert(views(out@) =~= Seq::<LayoutItemView>::empty());
        while k < end
            invariant
                s == self@,
                tree_wf(s),
                n == s.len(),
                r <= k <= end <= n,
                n <= i32::MAX,
                base == s[r as int].depth,
                end == subtree_end(s, r as int),
                forall|j: int| r < j < end ==> (#[trigger] s[j]).depth > base,
                forall|j: int| 0 <= j < s.len() ==> (#[trigger] s[j]).depth <= j,
                ids == (|j: int| r + j),
                views(out@) == Seq::new((k - r) as nat, ids).filter(
                    within_by(s, r as int, recursion_depth),
                ).map_values(item_view_by(s, r as int, property_names@)),
            decreases end - k,
        {
            let e = self.entry(k);
            let rel = e.depth - base;
            let ghost before = Seq::new((k - r) as nat, ids);
            assert(Seq::new((k + 1 - r) as nat, ids) =~= before.push(k as int));
            proof {
                before.lemma_filter_push(k as int, within_by(s, r as int, recursion_depth));
            }
            let ghost kept = before.filter(within_by(s, r as int, recursion_depth));
            assert(e.depth <= k);
            let keep = recursion_depth < 0 || (rel as i64) <= (recursion_depth as i64);
            assert(keep == within_by(s, r as int, recursion_depth)(k as int));
            if keep {
                let props = filter_properties(properties_of(e), property_names);
                let item = LayoutItem { id: k as i32, depth: rel, properties: props };
                let ghost old_out = out@;
                out.push(item);
                assert(views(out@) =~= views(old_out).push(item@));
                assert(kept.push(k as int).map_values(item_view_by(s, r as int, property_names@))
                    =~= kept.map_values(item_view_by(s, r as int, property_names@)).push(
                    item_view(s, r as int, property_names@, k as int),
                ));
            }
            k = k + 1;
        }
        Ok(out)
    }
}

/// The properties of one entry, as a batch lookup returns them.
#[derive(Debug)]
pub struct PropertyItem {
    pub id: i32,
    pub properties: Vec<MenuProperty>,
}

pub struct PropertyItemView {
    pub id: int,
    pub properties: Seq<MenuProperty>,
}

impl View for PropertyItem {
    type V = PropertyItemView;

    open spec fn view(&self) -> PropertyItemView {
        PropertyItemView { id: self.id as int, properties: self.properties@ }
    }
}

pub open spec fn property_views(items: Seq<PropertyItem>) -> Seq<PropertyItemView> {
    items.map_values(|it: PropertyItem| it@)
}

/// `ids` asks for the entry `k`.
pub open spec fn requested(ids: Seq<i32>, k: int) -> bool {
    exists|j: int| 0 <= j < ids.len() && ids[j] == k
}

pub open spec fn requested_by(ids: Seq<i32>) -> spec_fn(int) -> bool {
    |k: int| requested(ids, k)
}

pub open spec fn property_view_by<M>(s: Seq<MenuEntry<M>>, names: Seq<String>) -> spec_fn(
    int,
) -> PropertyItemView {
    |k: int| PropertyItemView { id: k, properties: filtered_properties(s[k], names) }
}

/// The reply to a batch lookup: one item for each entry whose id `ids` holds, in the
/// order of the menu, with the properties that `names` asks for.
pub open spec fn group_spec<M>(s: Seq<MenuEntry<M>>, ids: Seq<i32>, names: Seq<String>) -> Seq<
    PropertyItemView,
> {
    Seq::new(s.len(), |k: int| k).filter(requested_by(ids)).map_values(property_view_by(s, names))
}

fn contains_id(ids: &Vec<i32>, k: i32) -> (r: bool)
    ensures
        r == requested(ids@, k as int),
{
    let mut j: usize = 0;
    while j < ids.len()
        invariant
            j <= ids@.len(),
            forall|i: int| 0 <= i < j ==> ids@[i] != k,
        decreases ids@.len() - j,
    {
        if ids[j] == k {
            return true;
        }
        j = j + 1;
    }
    false
}

impl<M> MenuTree<M> {
    /// The properties of each entry whose id `ids` holds, in menu order, filtered by
    /// `property_names` as in `layout`. Ids that no entry has are left out.
    pub fn group_properties(&self, ids: &Vec<i32>, property_names: &Vec<String>) -> (r: Vec<
        PropertyItem,
    >)
        ensures
            property_views(r@) == group_spec(self@, ids@, property_names@),
    {
        proof {
            use_type_invariant(self);
        }
        let ghost s = self@;
        let ghost all = |k: int| k;
        let n = self.len();
        let mut out: Vec<PropertyItem> = Vec::new();
        let mut k: usize = 0;
        assert(Seq::new(0, all) =~= Seq::<int>::empty());
        assert(Seq::<int>::empty().filter(requested_by(ids@)) =~= Seq::<int>::empty()) by {
            reveal(Seq::filter);
        }
        assert(property_views(out@) =~= Seq::<PropertyItemView>::empty());
        while k < n
            invariant
                s == self@,
                n == s.len(),
                n <= i32::MAX,
                k <= n,
                all == (|k: int| k),
                property_views(out@) == Seq::new(k as nat, all).filter(requested_by(ids@)).map_values(
                    property_view_by(s, property_names@),
                ),
            decreases n - k,
        {
            let ghost before = Seq::new(k as nat, all);
            assert(Seq::new((k + 1) as nat, all) =~= before.push(k as int));
            proof {
                before.lemma_filter_push(k as int, requested_by(ids@));
            }
            let ghost kept = before.filter(requested_by(ids@));
            if contains_id(ids, k as i32) {
                let e = self.entry(k);
                let props = filter_properties(properties_of(e), property_names);
                let item = PropertyItem { id: k as i32, properties: props };
                let ghost old_out = out@;
                out.push(item);
                assert(property_views(out@) =~= property_views(old_out).push(item@));
                assert(kept.push(k as int).map_values(property_view_by(s, property_names@))
                    =~= kept.map_values(property_view_by(s, property_names@)).push(
                    property_view_by(s, property_names@)(k as int),
                ));
            }
            k = k + 1;
        }
        out
    }
}

proof fn lemma_filter_keeps_all<A>(s: Seq<A>, p: spec_fn(A) -> bool)
    requires
        forall|i: int| 0 <= i < s.len() ==> p(#[trigger] s[i]),
    ensures
        s.filter(p) == s,
    decreases s.len(),
{
    reveal(Seq::filter);
    if s.len() > 0 {
        let rest = s.drop_last();
        assert forall|i: int| 0 <= i < rest.len() implies p(#[trigger] rest[i]) by {
            assert(rest[i] == s[i]);
        }
        lemma_filter_keeps_all(rest, p);
        assert(p(s[s.len() - 1]));
        assert(rest.push(s.last()) =~= s);
    }
}

proof fn lemma_end_from_below<M>(s: Seq<MenuEntry<M>>, r: int, k: int)
    requires
        0 <= r < k <= s.len(),
    ensures
        k <= end_from(s, r, k) <= s.len(),
        forall|j: int| k <= j < end_from(s, r, k) ==> (#[trigger] s[j]).depth > s[r].depth,
    decreases s.len() - k,
{
    if k < s.len() && s[k].depth > s[r].depth {
        lemma_end_from_below(s, r, k + 1);
    }
}

proof fn lemma_root_spans_tree<M>(s: Seq<MenuEntry<M>>, k: int)
    requires
        tree_wf(s),
        1 <= k <= s.len(),
    ensures
        end_from(s, 0, k) == s.len(),
    decreases s.len() - k,
{
    if k < s.len() {
        assert(depth_step(s, k));
        lemma_root_spans_tree(s, k + 1);
    }
}

/// A layout reply holds the requested entry and entries below it, never more than
/// `n` levels down when `n` is not negative.
pub proof fn lemma_layout_depth_bounded<M>(s: Seq<MenuEntry<M>>, r: int, n: i32, names: Seq<String>)
    requires
        tree_wf(s),
        0 <= r < s.len(),
    ensures
        forall|i: int|
            0 <= i < layout_spec(s, r, n, names).len() ==> {
                &&& 0 <= (#[trigger] layout_spec(s, r, n, names)[i]).depth
                &&& n >= 0 ==> layout_spec(s, r, n, names)[i].depth <= n
            },
{
    broadcast use group_filter_ensures;

    lemma_end_from_below(s, r, r + 1);
    let base = Seq::new((subtree_end(s, r) - r) as nat, |j: int| r + j);
    let ids = base.filter(within_by(s, r, n));
    assert forall|i: int| 0 <= i < layout_spec(s, r, n, names).len() implies {
        &&& 0 <= (#[trigger] layout_spec(s, r, n, names)[i]).depth
        &&& n >= 0 ==> layout_spec(s, r, n, names)[i].depth <= n
    } by {
        let x = ids[i];
        assert(within_by(s, r, n)(x));
        assert(ids.contains(x));
        base.lemma_filter_contains_rev(within_by(s, r, n), x);
        let j = choose|j: int| 0 <= j < base.len() && base[j] == x;
        assert(r <= x < subtree_end(s, r));
        if x > r {
            assert(s[x].depth > s[r].depth);
        }
    }
}

/// Every property in a reply filtered by a non-empty list of names is one of the
/// names asked for.
pub proof fn lemma_layout_respects_filter<M>(
    s: Seq<MenuEntry<M>>,
    r: int,
    n: i32,
    names: Seq<String>,
)
    requires
        tree_wf(s),
        0 <= r < s.len(),
        names.len() > 0,
    ensures
        forall|i: int, k: int|
            0 <= i < layout_spec(s, r, n, names).len() && 0 <= k < layout_spec(
                s,
                r,
                n,
                names,
            )[i].properties.len() ==> named(
                names,
                #[trigger] layout_spec(s, r, n, names)[i].properties[k],
            ),
{
    broadcast use group_filter_ensures;

    let l = layout_spec(s, r, n, names);
    assert forall|i: int, k: int| 0 <= i < l.len() && 0 <= k < l[i].properties.len() implies named(
        names,
        #[trigger] l[i].properties[k],
    ) by {
        let x = layout_ids(s, r, n)[i];
        assert(l[i].properties == entry_properties(s[x]).filter(wanted_by(names)));
        assert(wanted_by(names)(l[i].properties[k]));
    }
}

/// Asking for the root with no depth bound and no property filter returns the whole
/// tree: every entry, in order, with its depth and all of its properties.
pub proof fn lemma_full_layout_is_tree<M>(s: Seq<MenuEntry<M>>)
    requires
        tree_wf(s),
    ensures
        layout_spec(s, 0, -1i32, Seq::empty()) == Seq::new(
            s.len(),
            |i: int|
                LayoutItemView {
                    id: i,
                    depth: s[i].depth as int,
                    properties: entry_properties(s[i]),
                },
        ),
{
    lemma_root_spans_tree(s, 1);
    let base = Seq::new((subtree_end(s, 0) - 0) as nat, |j: int| 0 + j);
    lemma_filter_keeps_all(base, within_by(s, 0, -1i32));
    assert forall|i: int| 0 <= i < s.len() implies #[trigger] filtered_properties(
        s[i],
        Seq::<String>::empty(),
    ) == entry_properties(s[i]) by {
        lemma_filter_keeps_all(entry_properties(s[i]), wanted_by(Seq::<String>::empty()));
    }
    assert(layout_spec(s, 0, -1i32, Seq::empty()) =~= Seq::new(
        s.len(),
        |i: int|
            LayoutItemView {
                id: i,
                depth: s[i].depth as int,
                properties: entry_properties(s[i]),
            },
    ));
}

} // verus!
