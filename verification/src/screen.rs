//! Screens and how they are arranged.
use crate::id::ScreenId;
use vstd::prelude::*;

verus! {

/// A point in screen coordinates.
#[derive(Debug, Clone, Copy, PartialEq, Eq, Hash, Structural)]
pub struct Point {
    pub x: i32,
    pub y: i32,
}

/// A side of a screen.
#[derive(Debug, Clone, Copy, PartialEq, Eq, Hash, Structural)]
pub enum EdgeSide {
    Top,
    Bottom,
    Left,
    Right,
}

impl EdgeSide {
    /// The side facing this one.
    pub open spec fn spec_opposite(self) -> EdgeSide {
        match self {
            EdgeSide::Top => EdgeSide::Bottom,
            EdgeSide::Bottom => EdgeSide::Top,
            EdgeSide::Left => EdgeSide::Right,
            EdgeSide::Right => EdgeSide::Left,
        }
    }

    /// The side facing this one.
    pub fn opposite(self) -> (s: Self)
        ensures
            s == self.spec_opposite(),
    {
        match self {
            EdgeSide::Top => EdgeSide::Bottom,
            EdgeSide::Bottom => EdgeSide::Top,
            EdgeSide::Left => EdgeSide::Right,
            EdgeSide::Right => EdgeSide::Left,
        }
    }
}

/// Law: the opposite of the opposite side is the side itself, and no side is
/// its own opposite.
pub proof fn lemma_opposite_involution(s: EdgeSide)
    ensures
        s.spec_opposite().spec_opposite() == s,
        s.spec_opposite() != s,
{
}

/// Description of one logical screen in a multi-machine layout.
#[derive(Debug)]
pub struct ScreenInfo {
    pub id: ScreenId,
    pub name: String,
    /// Total logical width (sum of all monitors on this machine).
    pub width: i32,
    pub height: i32,
}

impl Clone for ScreenInfo {
    /// An equal copy.
    fn clone(&self) -> (c: Self)
        ensures
            c == *self,
    {
        ScreenInfo { id: self.id, name: self.name.clone(), width: self.width, height: self.height }
    }
}

/// One adjacency: crossing `side` of screen `from` leads to screen `to`.
#[derive(Debug, Clone, Copy, PartialEq, Eq, Structural)]
pub struct Neighbour {
    pub from: ScreenId,
    pub side: EdgeSide,
    pub to: ScreenId,
}

/// How screens are arranged: each screen names a neighbour on each side. A
/// cursor crossing an edge with no neighbour is clamped.
#[derive(Debug)]
pub struct ScreenLayout {
    pub screens: Vec<ScreenInfo>,
    pub neighbours: Vec<Neighbour>,
}

/// The target of the first entry of `ns` for `from` and `side`, if any.
pub open spec fn first_neighbour(ns: Seq<Neighbour>, from: ScreenId, side: EdgeSide) -> Option<
    ScreenId,
>
    decreases ns.len(),
{
    if ns.len() == 0 {
        None
    } else if ns[0].from == from && ns[0].side == side {
        Some(ns[0].to)
    } else {
        first_neighbour(ns.drop_first(), from, side)
    }
}

impl Clone for ScreenLayout {
    /// An equal copy.
    fn clone(&self) -> (c: Self)
        ensures
            c.screens@ == self.screens@,
            c.neighbours@ == self.neighbours@,
    {
        let screens = self.screens.clone();
        let neighbours = self.neighbours.clone();
        assert(screens@ =~= self.screens@);
        assert(neighbours@ =~= self.neighbours@);
        ScreenLayout { screens, neighbours }
    }
}

impl Default for ScreenLayout {
    /// An empty layout: no screens and no adjacencies.
    fn default() -> (l: Self)
        ensures
            l.screens@.len() == 0,
            l.neighbours@.len() == 0,
    {
        ScreenLayout { screens: Vec::new(), neighbours: Vec::new() }
    }
}

impl ScreenLayout {
    /// The neighbour of `from` across `side`, as given by the first matching
    /// adjacency entry.
    pub fn neighbour_of(&self, from: ScreenId, side: EdgeSide) -> (r: Option<ScreenId>)
        ensures
            r == first_neighbour(self.neighbours@, from, side),
    {
        let mut i: usize = 0;
        assert(self.neighbours@.skip(0) =~= self.neighbours@);
        while i < self.neighbours.len()
            invariant
                i <= self.neighbours@.len(),
                first_neighbour(self.neighbours@, from, side) == first_neighbour(
                    self.neighbours@.skip(i as int),
                    from,
                    side,
                ),
            decreases self.neighbours@.len() - i,
        {
            let n = self.neighbours[i];
            assert(self.neighbours@.skip(i as int)[0] == n);
            if n.from == from && n.side == side {
                return Some(n.to);
            }
            assert(self.neighbours@.skip(i as int).drop_first() =~= self.neighbours@.skip(i + 1));
            i = i + 1;
        }
        None
    }
}

/// Law: a layout that lists `from`, `side` → `to` first among the entries for
/// that side reports `to` as the neighbour; and a layout with no entry for
/// `from` and `side` reports none.
pub proof fn lemma_neighbour_found(ns: Seq<Neighbour>, k: int)
    requires
        0 <= k < ns.len(),
        forall|j: int| 0 <= j < k ==> !(#[trigger] ns[j].from == ns[k].from && ns[j].side == ns[k].side),
    ensures
        first_neighbour(ns, ns[k].from, ns[k].side) == Some(ns[k].to),
    decreases k,
{
    if k > 0 {
        let rest = ns.drop_first();
        assert forall|j: int| 0 <= j < k - 1 implies !(#[trigger] rest[j].from == rest[k - 1].from
            && rest[j].side == rest[k - 1].side) by {
            assert(rest[j] == ns[j + 1]);
        }
        lemma_neighbour_found(rest, k - 1);
    }
}

/// Law: with no matching entry there is no neighbour.
pub proof fn lemma_neighbour_absent(ns: Seq<Neighbour>, from: ScreenId, side: EdgeSide)
    requires
        forall|j: int| 0 <= j < ns.len() ==> !(#[trigger] ns[j].from == from && ns[j].side == side),
    ensures
        first_neighbour(ns, from, side) is None,
    decreases ns.len(),
{
    if ns.len() > 0 {
        let rest = ns.drop_first();
        assert forall|j: int| 0 <= j < rest.len() implies !(#[trigger] rest[j].from == from && rest[j].side
            == side) by {
            assert(rest[j] == ns[j + 1]);
        }
        lemma_neighbour_absent(rest, from, side);
    }
}

} // verus!
