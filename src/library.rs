use vstd::prelude::*;
use crate::app_states::{FilterState, LibraryViewState, SortState};
use crate::custom_traits::{
    AddHolderCopy, DeleteHolder, GetDegree, GetDiameter, GetHolderType, GetToolType,
};
use crate::holders::Holder;
use crate::ids::new_uuid_string;
use crate::tools::Tool;

verus! {

/// The tools and holders a user owns.
pub struct Library {
    pub tools: Vec<Tool>,
    pub holders: Vec<Holder>,
}

impl Clone for Library {
    fn clone(&self) -> (r: Self)
        ensures
            r.tools@ == self.tools@,
            r.holders@ == self.holders@,
    {
        Library { tools: clone_tools(&self.tools), holders: clone_holders(&self.holders) }
    }
}

impl Default for Library {
    fn default() -> (r: Self)
        ensures
            r.tools@.len() == 0,
            r.holders@.len() == 0,
    {
        Library { tools: Vec::new(), holders: Vec::new() }
    }
}

/// Whether the tool list shows `t` under `filter`.
pub open spec fn tool_shown(filter: FilterState, t: Tool) -> bool {
    match filter {
        FilterState::ShowAll => true,
        FilterState::RotatingToolCategory => t is Rotating,
        FilterState::TurningToolCategory => t is Turning,
        _ => false,
    }
}

/// Whether the holder list shows `h` under `filter`.
pub open spec fn holder_shown(filter: FilterState, h: Holder) -> bool {
    match filter {
        FilterState::ShowAll => true,
        FilterState::RotatingHolderCategory => h is Rotating,
        FilterState::TurningHolderCategory => h is Turning,
        _ => false,
    }
}

pub open spec fn tool_filter(filter: FilterState) -> spec_fn(Tool) -> bool {
    |t: Tool| tool_shown(filter, t)
}

pub open spec fn holder_filter(filter: FilterState) -> spec_fn(Holder) -> bool {
    |h: Holder| holder_shown(filter, h)
}

/// Every tool whose identifier is not `id`.
pub open spec fn tool_without_uuid(id: Seq<char>) -> spec_fn(Tool) -> bool {
    |t: Tool| t.uuid_view() != id
}

/// Every holder whose identifier is not `id`.
pub open spec fn holder_without_uuid(id: Seq<char>) -> spec_fn(Holder) -> bool {
    |h: Holder| h.uuid_view() != id
}

/// `j` is the first position in `s` of a holder with identifier `id`.
pub open spec fn is_first_with_uuid(s: Seq<Holder>, id: Seq<char>, j: int) -> bool {
    &&& 0 <= j < s.len()
    &&& s[j].uuid_view() == id
    &&& forall|k: int| 0 <= k < j ==> s[k].uuid_view() != id
}

fn clone_tools(v: &Vec<Tool>) -> (r: Vec<Tool>)
    ensures
        r@ == v@,
{
    let mut r: Vec<Tool> = Vec::new();
    let mut i: usize = 0;
    while i < v.len()
        invariant
            i <= v.len(),
            r@ == v@.subrange(0, i as int),
        decreases v.len() - i,
    {
        r.push(v[i].clone());
        i += 1;
    }
    assert(v@.subrange(0, v.len() as int) =~= v@);
    r
}

fn clone_holders(v: &Vec<Holder>) -> (r: Vec<Holder>)
    ensures
        r@ == v@,
{
    let mut r: Vec<Holder> = Vec::new();
    let mut i: usize = 0;
    while i < v.len()
        invariant
            i <= v.len(),
            r@ == v@.subrange(0, i as int),
        decreases v.len() - i,
    {
        r.push(v[i].clone());
        i += 1;
    }
    assert(v@.subrange(0, v.len() as int) =~= v@);
    r
}

/// The tools of the library that `filter_state` lets through, in library
/// order.
pub fn filter_tools(library: &Library, filter_state: &FilterState) -> (r: Vec<Tool>)
    ensures
        r@ == library.tools@.filter(tool_filter(*filter_state)),
{
    let tools = &library.tools;
    let mut r: Vec<Tool> = Vec::new();
    let mut i: usize = 0;
    while i < tools.len()
        invariant
            i <= tools.len(),
            r@ == tools@.subrange(0, i as int).filter(tool_filter(*filter_state)),
        decreases tools.len() - i,
    {
        let t = &tools[i];
        let shown = match filter_state {
            FilterState::ShowAll => true,
            FilterState::RotatingToolCategory => t.is_rotating(),
            FilterState::TurningToolCategory => t.is_turning(),
            _ => false,
        };
        if shown {
            r.push(t.clone());
        }
        assert(tools@.subrange(0, i + 1) =~= tools@.subrange(0, i as int).push(tools@[i as int]));
        proof {
            tools@.subrange(0, i as int).lemma_filter_push(tools@[i as int], tool_filter(*filter_state));
        }
        i += 1;
    }
    assert(tools@.subrange(0, tools.len() as int) =~= tools@);
    r
}

/// The holders of the library that `filter_state` lets through, in library
/// order.
pub fn filter_holders(library: &Library, filter_state: &FilterState) -> (r: Vec<Holder>)
    ensures
        r@ == library.holders@.filter(holder_filter(*filter_state)),
{
    let holders = &library.holders;
    let mut r: Vec<Holder> = Vec::new();
    let mut i: usize = 0;
    while i < holders.len()
        invariant
            i <= holders.len(),
            r@ == holders@.subrange(0, i as int).filter(holder_filter(*filter_state)),
        decreases holders.len() - i,
    {
        let h = &holders[i];
        let shown = match filter_state {
            FilterState::ShowAll => true,
            FilterState::RotatingHolderCategory => h.is_rotating(),
            FilterState::TurningHolderCategory => h.is_turning(),
            _ => false,
        };
        if shown {
            r.push(h.clone());
        }
        assert(holders@.subrange(0, i + 1) =~= holders@.subrange(0, i as int).push(
            holders@[i as int],
        ));
        proof {
            holders@.subrange(0, i as int).lemma_filter_push(
                holders@[i as int],
                holder_filter(*filter_state),
            );
        }
        i += 1;
    }
    assert(holders@.subrange(0, holders.len() as int) =~= holders@);
    r
}

/// The position of the first holder with identifier `uuid`, if any.
pub fn first_holder_with_uuid(holders: &Vec<Holder>, uuid: &String) -> (r: Option<usize>)
    ensures
        r matches Some(j) ==> is_first_with_uuid(holders@, uuid@, j as int),
        r is None ==> forall|k: int| 0 <= k < holders@.len() ==> holders@[k].uuid_view() != uuid@,
{
    let mut i: usize = 0;
    while i < holders.len()
        invariant
            i <= holders.len(),
            forall|k: int| 0 <= k < i ==> holders@[k].uuid_view() != uuid@,
        decreases holders.len() - i,
    {
        let same = match &holders[i] {
            Holder::Rotating(h) => h.uuid == *uuid,
            Holder::Turning(h) => h.uuid == *uuid,
        };
        if same {
            return Some(i);
        }
        i += 1;
    }
    None
}

/// The filters the library list offers in `view`, in menu order: showing
/// all, then the two categories of that view.
pub fn filter_options(view: LibraryViewState) -> (r: Vec<FilterState>)
    ensures
        r@ == match view {
            LibraryViewState::Tool => seq![
                FilterState::ShowAll,
                FilterState::RotatingToolCategory,
                FilterState::TurningToolCategory,
            ],
            LibraryViewState::Holder => seq![
                FilterState::ShowAll,
                FilterState::RotatingHolderCategory,
                FilterState::TurningHolderCategory,
            ],
        },
{
    match view {
        LibraryViewState::Tool => vec![
            FilterState::ShowAll,
            FilterState::RotatingToolCategory,
            FilterState::TurningToolCategory,
        ],
        LibraryViewState::Holder => vec![
            FilterState::ShowAll,
            FilterState::RotatingHolderCategory,
            FilterState::TurningHolderCategory,
        ],
    }
}

/// Whether the library list, in `view` with `filter`, keeps the tool `t`:
/// a category filter keeps the tools of its kind, and every other pairing,
/// showing all included, keeps nothing.
pub open spec fn kept_in_view(view: LibraryViewState, filter: FilterState, t: Tool) -> bool {
    match (view, filter) {
        (LibraryViewState::Tool, FilterState::RotatingToolCategory) => t is Rotating,
        (LibraryViewState::Tool, FilterState::TurningToolCategory) => t is Turning,
        (LibraryViewState::Holder, FilterState::RotatingHolderCategory) => t is Rotating,
        (LibraryViewState::Holder, FilterState::TurningHolderCategory) => t is Turning,
        _ => false,
    }
}

pub open spec fn view_filter(view: LibraryViewState, filter: FilterState) -> spec_fn(Tool) -> bool {
    |t: Tool| kept_in_view(view, filter, t)
}

/// The key the library list orders tools by: nothing for the library
/// order, else the tool's diameter or its angle.
pub open spec fn sort_key(sort: SortState, t: Tool) -> int {
    match sort {
        SortState::Index => 0,
        SortState::Diameter => match t {
            Tool::Rotating(r) => r.cutting_diameter as int,
            Tool::Turning(_) => 0,
        },
        SortState::Degree => match t {
            Tool::Rotating(_) => 0,
            Tool::Turning(u) => u.cutting_edge_angle as int,
        },
    }
}

/// `s` is ordered by the key of `sort`.
pub open spec fn sorted_by(sort: SortState, s: Seq<Tool>) -> bool {
    forall|a: int, b: int| 0 <= a < b < s.len() ==> sort_key(sort, s[a]) <= sort_key(sort, s[b])
}

fn tool_sort_key(sort: SortState, t: &Tool) -> (r: i64)
    ensures
        r == sort_key(sort, *t),
{
    match sort {
        SortState::Index => 0,
        SortState::Diameter => t.get_diameter() as i64,
        SortState::Degree => t.get_degree() as i64,
    }
}

/// The tools whose key under `sort` is `key`.
pub open spec fn with_key(sort: SortState, key: int) -> spec_fn(Tool) -> bool {
    |t: Tool| sort_key(sort, t) == key
}

/// Nothing in `s` passes `f`, so filtering leaves nothing.
proof fn lemma_filter_none(s: Seq<Tool>, f: spec_fn(Tool) -> bool)
    requires
        forall|i: int| 0 <= i < s.len() ==> !f(#[trigger] s[i]),
    ensures
        s.filter(f) =~= Seq::<Tool>::empty(),
    decreases s.len(),
{
    reveal(Seq::filter);
    if s.len() > 0 {
        lemma_filter_none(s.drop_last(), f);
    }
}

/// Inserting `x` after every tool of key at most its own, and before every
/// tool of greater key, puts `x` last among the tools of its key and leaves
/// the tools of every other key as they were.
proof fn lemma_insert_after_equal_keys(s: Seq<Tool>, p: int, x: Tool, sort: SortState, key: int)
    requires
        0 <= p <= s.len(),
        forall|a: int| 0 <= a < p ==> sort_key(sort, #[trigger] s[a]) <= sort_key(sort, x),
        forall|c: int| p <= c < s.len() ==> sort_key(sort, x) < sort_key(sort, #[trigger] s[c]),
    ensures
        s.insert(p, x).filter(with_key(sort, key)) == (if sort_key(sort, x) == key {
            s.filter(with_key(sort, key)).push(x)
        } else {
            s.filter(with_key(sort, key))
        }),
{
    let f = with_key(sort, key);
    let s0 = s.subrange(0, p);
    let s1 = s.subrange(p, s.len() as int);
    assert(s.insert(p, x) =~= s0 + seq![x] + s1);
    assert(s =~= s0 + s1);
    Seq::filter_distributes_over_add(s0 + seq![x], s1, f);
    Seq::filter_distributes_over_add(s0, seq![x], f);
    Seq::filter_distributes_over_add(s0, s1, f);
    assert(seq![x] =~= Seq::<Tool>::empty().push(x));
    Seq::<Tool>::empty().lemma_filter_push(x, f);
    lemma_filter_none(Seq::<Tool>::empty(), f);
    if sort_key(sort, x) == key {
        lemma_filter_none(s1, f);
        assert(s.insert(p, x).filter(f) =~= s.filter(f).push(x));
    } else {
        assert(s.insert(p, x).filter(f) =~= s.filter(f));
    }
}

/// Keeps the tools that the view and filter let through, then orders them
/// by the key of `sort`; tools of equal key keep the order they had.
pub fn sort_and_filter_items(
    view: LibraryViewState,
    filter: FilterState,
    sort: SortState,
    items: &mut Vec<Tool>,
)
    ensures
        final(items)@.to_multiset() == old(items)@.filter(view_filter(view, filter)).to_multiset(),
        sorted_by(sort, final(items)@),
        forall|key: int|
            #[trigger] final(items)@.filter(with_key(sort, key)) == old(items)@.filter(
                view_filter(view, filter),
            ).filter(with_key(sort, key)),
        sort == SortState::Index ==> final(items)@ == old(items)@.filter(view_filter(view, filter)),
{
    let mut kept: Vec<Tool> = Vec::new();
    let mut i: usize = 0;
    while i < items.len()
        invariant
            i <= items.len(),
            items@ == old(items)@,
            kept@ == items@.subrange(0, i as int).filter(view_filter(view, filter)),
        decreases items.len() - i,
    {
        let t = &items[i];
        let keep = match (view, filter) {
            (LibraryViewState::Tool, FilterState::RotatingToolCategory) => t.is_rotating(),
            (LibraryViewState::Tool, FilterState::TurningToolCategory) => t.is_turning(),
            (LibraryViewState::Holder, FilterState::RotatingHolderCategory) => t.is_rotating(),
            (LibraryViewState::Holder, FilterState::TurningHolderCategory) => t.is_turning(),
            _ => false,
        };
        if keep {
            kept.push(t.clone());
        }
        assert(items@.subrange(0, i + 1) =~= items@.subrange(0, i as int).push(items@[i as int]));
        proof {
            items@.subrange(0, i as int).lemma_filter_push(
                items@[i as int],
                view_filter(view, filter),
            );
        }
        i += 1;
    }
    assert(items@.subrange(0, items.len() as int) =~= items@);
    if sort == SortState::Index {
        *items = kept;
        return;
    }
    let mut sorted: Vec<Tool> = Vec::new();
    let mut n: usize = 0;
    assert(kept@.subrange(0, 0) =~= sorted@);
    while n < kept.len()
        invariant
            n <= kept.len(),
            sorted@.to_multiset() == kept@.subrange(0, n as int).to_multiset(),
            sorted_by(sort, sorted@),
            forall|key: int|
                #[trigger] sorted@.filter(with_key(sort, key)) == kept@.subrange(
                    0,
                    n as int,
                ).filter(with_key(sort, key)),
        decreases kept.len() - n,
    {
        let x = kept[n].clone();
        let kx = tool_sort_key(sort, &x);
        // Insert after every tool of equal key, so that those keep their order.
        let mut p: usize = 0;
        while p < sorted.len()
            invariant
                p <= sorted.len(),
                forall|a: int| 0 <= a < p ==> sort_key(sort, #[trigger] sorted@[a]) <= kx,
            ensures
                p <= sorted.len(),
                forall|a: int| 0 <= a < p ==> sort_key(sort, #[trigger] sorted@[a]) <= kx,
                p < sorted.len() ==> kx < sort_key(sort, sorted@[p as int]),
            decreases sorted.len() - p,
        {
            if tool_sort_key(sort, &sorted[p]) > kx {
                break;
            }
            p += 1;
        }
        let ghost before = sorted@;
        assert forall|c: int| p <= c < before.len() implies kx < sort_key(
            sort,
            #[trigger] before[c],
        ) by {
            assert(kx < sort_key(sort, before[p as int]));
        }
        sorted.insert(p, x);
        proof {
            vstd::seq_lib::to_multiset_insert(before, p as int, x);
            assert(kept@.subrange(0, n + 1) =~= kept@.subrange(0, n as int).push(kept@[n as int]));
            broadcast use vstd::seq_lib::group_to_multiset_ensures;

            assert forall|a: int, b: int| 0 <= a < b < sorted@.len() implies sort_key(
                sort,
                sorted@[a],
            ) <= sort_key(sort, sorted@[b]) by {
                if b < p {
                } else if b == p {
                } else if a < p {
                    assert(sorted@[b] == before[b - 1]);
                } else if a == p {
                    assert(sorted@[b] == before[b - 1]);
                } else {
                    assert(sorted@[a] == before[a - 1]);
                    assert(sorted@[b] == before[b - 1]);
                }
            }
        }
        proof {
            assert forall|key: int|
                #[trigger] sorted@.filter(with_key(sort, key)) == kept@.subrange(
                    0,
                    n + 1,
                ).filter(with_key(sort, key)) by {
                lemma_insert_after_equal_keys(before, p as int, x, sort, key);
                kept@.subrange(0, n as int).lemma_filter_push(x, with_key(sort, key));
            }
        }
        n += 1;
    }
    assert(kept@.subrange(0, kept.len() as int) =~= kept@);
    *items = sorted;
}

impl Library {
    /// Adds `tool` under a fresh identifier at the end of the tool list.
    pub fn add_tool(&mut self, tool: Tool)
        ensures
            final(self).holders@ == old(self).holders@,
            final(self).tools@.len() == old(self).tools@.len() + 1,
            final(self).tools@.drop_last() == old(self).tools@,
            exists|id: String|
                id@.len() == 36 && final(self).tools@.last() == tool.with_uuid(id),
    {
        let mut tool = tool;
        let id = new_uuid_string();
        let ghost g = id;
        tool.set_uuid(id);
        self.tools.push(tool);
        assert(self.tools@.drop_last() =~= old(self).tools@);
        assert(self.tools@.last() == tool.with_uuid(g));
    }

    /// Adds `holder` under a fresh identifier at the end of the holder list.
    pub fn add_holder(&mut self, holder: Holder)
        ensures
            final(self).tools@ == old(self).tools@,
            final(self).holders@.len() == old(self).holders@.len() + 1,
            final(self).holders@.drop_last() == old(self).holders@,
            exists|id: String|
                id@.len() == 36 && final(self).holders@.last() == holder.with_uuid(id),
    {
        let mut holder = holder;
        let id = new_uuid_string();
        let ghost g = id;
        holder.set_uuid(id);
        self.holders.push(holder);
        assert(self.holders@.drop_last() =~= old(self).holders@);
        assert(self.holders@.last() == holder.with_uuid(g));
    }

    /// Takes every tool with identifier `uuid` out of the library.
    pub fn remove_tool(&mut self, uuid: &str)
        ensures
            final(self).holders@ == old(self).holders@,
            final(self).tools@ == old(self).tools@.filter(tool_without_uuid(uuid@)),
    {
        let id = String::from_str(uuid);
        let mut kept: Vec<Tool> = Vec::new();
        let mut i: usize = 0;
        while i < self.tools.len()
            invariant
                i <= self.tools.len(),
                self.tools@ == old(self).tools@,
                self.holders@ == old(self).holders@,
                id@ == uuid@,
                kept@ == self.tools@.subrange(0, i as int).filter(tool_without_uuid(uuid@)),
            decreases self.tools.len() - i,
        {
            let same = match &self.tools[i] {
                Tool::Rotating(t) => t.uuid == id,
                Tool::Turning(t) => t.uuid == id,
            };
            if !same {
                kept.push(self.tools[i].clone());
            }
            assert(self.tools@.subrange(0, i + 1) =~= self.tools@.subrange(0, i as int).push(
                self.tools@[i as int],
            ));
            proof {
                self.tools@.subrange(0, i as int).lemma_filter_push(
                    self.tools@[i as int],
                    tool_without_uuid(uuid@),
                );
            }
            i += 1;
        }
        assert(self.tools@.subrange(0, self.tools.len() as int) =~= self.tools@);
        self.tools = kept;
    }

    /// Records one more copy of the first holder with identifier `uuid`, if
    /// there is one.
    pub fn add_holder_copy(&mut self, uuid: &str)
        requires
            forall|k: int|
                0 <= k < old(self).holders@.len() && old(self).holders@[k].uuid_view() == uuid@
                    ==> old(self).holders@[k].copies() < usize::MAX,
        ensures
            final(self).tools@ == old(self).tools@,
            (forall|k: int|
                0 <= k < old(self).holders@.len() ==> old(self).holders@[k].uuid_view() != uuid@)
                ==> final(self).holders@ == old(self).holders@,
            forall|j: int|
                is_first_with_uuid(old(self).holders@, uuid@, j) ==> final(self).holders@
                    == old(self).holders@.update(
                    j,
                    old(self).holders@[j].with_copies((old(self).holders@[j].copies() + 1) as usize),
                ),
    {
        let id = String::from_str(uuid);
        match first_holder_with_uuid(&self.holders, &id) {
            Some(j) => {
                let mut h = self.holders[j].clone();
                h.add_copy();
                self.holders.set(j, h);
            },
            None => {},
        }
    }

    /// Takes one copy of the first holder with identifier `uuid` out of the
    /// library, if there is one; when that was its last copy, every holder
    /// with that identifier goes.
    pub fn remove_holder(&mut self, uuid: &str)
        ensures
            final(self).tools@ == old(self).tools@,
            (forall|k: int|
                0 <= k < old(self).holders@.len() ==> old(self).holders@[k].uuid_view() != uuid@)
                ==> final(self).holders@ == old(self).holders@,
            forall|j: int|
                is_first_with_uuid(old(self).holders@, uuid@, j) && old(self).holders@[j].copies()
                    <= 1 ==> final(self).holders@ == old(self).holders@.filter(
                    holder_without_uuid(uuid@),
                ),
            forall|j: int|
                is_first_with_uuid(old(self).holders@, uuid@, j) && old(self).holders@[j].copies()
                    > 1 ==> final(self).holders@ == old(self).holders@.update(
                    j,
                    old(self).holders@[j].with_copies((old(self).holders@[j].copies() - 1) as usize),
                ),
    {
        let id = String::from_str(uuid);
        match first_holder_with_uuid(&self.holders, &id) {
            Some(j) => {
                let mut h = self.holders[j].clone();
                if h.delete_holder() {
                    self.retain_holders_without(&id);
                } else {
                    self.holders.set(j, h);
                }
            },
            None => {},
        }
    }

    /// Keeps only the holders whose identifier is not `id`.
    fn retain_holders_without(&mut self, id: &String)
        ensures
            final(self).tools@ == old(self).tools@,
            final(self).holders@ == old(self).holders@.filter(holder_without_uuid(id@)),
    {
        let mut kept: Vec<Holder> = Vec::new();
        let mut i: usize = 0;
        while i < self.holders.len()
            invariant
                i <= self.holders.len(),
                self.tools@ == old(self).tools@,
                self.holders@ == old(self).holders@,
                kept@ == self.holders@.subrange(0, i as int).filter(holder_without_uuid(id@)),
            decreases self.holders.len() - i,
        {
            let same = match &self.holders[i] {
                Holder::Rotating(h) => h.uuid == *id,
                Holder::Turning(h) => h.uuid == *id,
            };
            if !same {
                kept.push(self.holders[i].clone());
            }
            assert(self.holders@.subrange(0, i + 1) =~= self.holders@.subrange(0, i as int).push(
                self.holders@[i as int],
            ));
            proof {
                self.holders@.subrange(0, i as int).lemma_filter_push(
                    self.holders@[i as int],
                    holder_without_uuid(id@),
                );
            }
            i += 1;
        }
        assert(self.holders@.subrange(0, self.holders.len() as int) =~= self.holders@);
        self.holders = kept;
    }
}

} // verus!
