//! Where things stand on the screen.

use vstd::prelude::*;
use ratatui::layout::{Constraint, Direction, Layout, Rect};

verus! {

/// A rectangle of the screen.
#[derive(Clone, Copy, Debug, PartialEq, Eq, Structural)]
pub struct Area {
    pub x: u16,
    pub y: u16,
    pub width: u16,
    pub height: u16,
}

impl Area {
    /// A rectangle whose far corner has coordinates that can be written.
    pub open spec fn valid(self) -> bool {
        self.x + self.width <= u16::MAX && self.y + self.height <= u16::MAX
    }
}

/// How an area is split.
#[derive(Clone, Copy, Debug, PartialEq, Eq, Structural)]
pub enum Axis {
    /// One part below the other.
    Vertical,
    /// One part beside the other.
    Horizontal,
}

/// How large a part is to be.
#[derive(Clone, Copy, Debug, PartialEq, Eq, Structural)]
pub enum Share {
    Length(u16),
    AtLeast(u16),
    Percent(u16),
}

/// Where an area begins along an axis.
pub open spec fn start(area: Area, axis: Axis) -> int {
    match axis {
        Axis::Vertical => area.y as int,
        Axis::Horizontal => area.x as int,
    }
}

/// The size of an area along an axis.
pub open spec fn size(area: Area, axis: Axis) -> int {
    match axis {
        Axis::Vertical => area.height as int,
        Axis::Horizontal => area.width as int,
    }
}

/// Whether `part` is a slice of `area`: as wide as it across the axis, and
/// inside it along the axis.
pub open spec fn slice_of(part: Area, area: Area, axis: Axis) -> bool {
    &&& match axis {
        Axis::Vertical => part.x == area.x && part.width == area.width,
        Axis::Horizontal => part.y == area.y && part.height == area.height,
    }
    &&& start(area, axis) <= start(part, axis)
    &&& start(part, axis) + size(part, axis) <= start(area, axis) + size(area, axis)
}

/// Whether all parts are slices of `area`, each behind the one before.
pub open spec fn sliced(parts: Seq<Area>, area: Area, axis: Axis) -> bool {
    &&& forall|i: int| 0 <= i < parts.len() ==> slice_of(#[trigger] parts[i], area, axis)
    &&& forall|i: int, j: int|
        0 <= i < j < parts.len() ==> start(#[trigger] parts[i], axis) + size(parts[i], axis)
            <= start(#[trigger] parts[j], axis)
}

/// What a share asks for of an area of this size, in hundredths.
pub open spec fn demand(share: Share, whole: int) -> int {
    match share {
        Share::Length(n) => 100 * n,
        Share::AtLeast(n) => 100 * n,
        Share::Percent(p) => whole * p,
    }
}

/// What the shares ask for together, in hundredths.
pub open spec fn demands(shares: Seq<Share>, whole: int) -> int
    decreases shares.len(),
{
    if shares.len() == 0 {
        0
    } else {
        demands(shares.drop_last(), whole) + demand(shares.last(), whole)
    }
}

/// Whether there is room for all shares, and one share at most takes the rest.
pub open spec fn roomy(shares: Seq<Share>, whole: int) -> bool {
    &&& demands(shares, whole) <= 100 * whole
    &&& forall|i: int, j: int|
        0 <= i < j < shares.len() ==> !(#[trigger] shares[i] is AtLeast
            && #[trigger] shares[j] is AtLeast)
}

/// What a share gets where there is room for all, in hundredths: what it asks
/// for, and the rest if it can grow.
pub open spec fn allotted(shares: Seq<Share>, whole: int, i: int) -> int {
    demand(shares[i], whole) + if shares[i] is AtLeast {
        100 * whole - demands(shares, whole)
    } else {
        0
    }
}

/// Where the share at `i` begins, in hundredths.
pub open spec fn bound(shares: Seq<Share>, whole: int, i: int) -> int
    decreases i,
{
    if i <= 0 {
        0
    } else {
        bound(shares, whole, i - 1) + allotted(shares, whole, i - 1)
    }
}

/// Hundredths rounded to whole units, a half upwards.
pub open spec fn rounded(hundredths: int) -> int {
    (hundredths + 50) / 100
}

/// Whether `part` runs from `from` to `to`, given in hundredths behind the
/// beginning of `area`.
pub open spec fn runs(part: Area, area: Area, axis: Axis, from: int, to: int) -> bool {
    &&& start(part, axis) == start(area, axis) + rounded(from)
    &&& start(part, axis) + size(part, axis) == start(area, axis) + rounded(to)
}

/// Whether every part has what its share gets.
pub open spec fn spread(shares: Seq<Share>, parts: Seq<Area>, area: Area, axis: Axis) -> bool {
    forall|i: int|
        0 <= i < parts.len() ==> runs(
            #[trigger] parts[i],
            area,
            axis,
            bound(shares, size(area, axis), i),
            bound(shares, size(area, axis), i + 1),
        )
}

/// The lesser of what is asked for and what there is.
pub open spec fn at_most(asked: u16, whole: int) -> int {
    if asked <= whole {
        asked as int
    } else {
        whole
    }
}

/// Whether three parts cover an area without gaps.
pub open spec fn tiles(parts: Seq<Area>, area: Area, axis: Axis) -> bool {
    &&& start(parts[0], axis) == start(area, axis)
    &&& start(parts[1], axis) == start(parts[0], axis) + size(parts[0], axis)
    &&& start(parts[2], axis) == start(parts[1], axis) + size(parts[1], axis)
    &&& start(parts[2], axis) + size(parts[2], axis) == start(area, axis) + size(area, axis)
}

/// Whether, of three shares, the one in the middle is served first where it is
/// stronger than the others: a length between two percentages has its size as
/// far as the area reaches, and so has, where there is no room for all, a least
/// size between two lengths, which then have what is left between them.
pub open spec fn served_first(
    shares: Seq<Share>,
    parts: Seq<Area>,
    area: Area,
    axis: Axis,
) -> bool {
    let whole = size(area, axis);
    shares.len() == 3 ==> match (shares[0], shares[1], shares[2]) {
        (Share::Percent(_), Share::Length(n), Share::Percent(_)) => size(parts[1], axis) == at_most(
            n,
            whole,
        ),
        (Share::Length(_), Share::AtLeast(n), Share::Length(_)) => demands(shares, whole) > 100
            * whole ==> size(parts[1], axis) == at_most(n, whole) && tiles(parts, area, axis),
        _ => true,
    }
}

/// Calls `ratatui::layout::Layout::split`. There is one part for each share; the
/// parts are slices of the area in order, since all their bounds are required
/// to lie in the area and to ascend. Where there is room for all shares, each
/// part follows on the one before and has the size asked for, a share that can
/// grow takes the rest, and the bounds are rounded. Where there is no room, a
/// least size comes before a length and a length before a percentage, by the
/// strengths of their constraints; how shares of the same strength divide what
/// is left between them is left open, as the solver may choose.
#[verifier::external_body]
pub(crate) fn split_area(area: Area, axis: Axis, shares: &Vec<Share>) -> (parts: Vec<Area>)
    requires
        area.valid(),
    ensures
        parts@.len() == shares@.len(),
        sliced(parts@, area, axis),
        roomy(shares@, size(area, axis)) ==> spread(shares@, parts@, area, axis),
        served_first(shares@, parts@, area, axis),
{
    let direction = match axis {
        Axis::Vertical => Direction::Vertical,
        Axis::Horizontal => Direction::Horizontal,
    };
    let constraints = shares.iter().map(|s| match s {
        Share::Length(n) => Constraint::Length(*n),
        Share::AtLeast(n) => Constraint::Min(*n),
        Share::Percent(p) => Constraint::Percentage(*p),
    });
    let whole = Rect { x: area.x, y: area.y, width: area.width, height: area.height };
    let split = Layout::new(direction, constraints).split(whole);
    split.iter().map(|r| Area { x: r.x, y: r.y, width: r.width, height: r.height }).collect()
}

/// Splits an area in three.
fn split_in_three(area: Area, axis: Axis, first: Share, second: Share, third: Share) -> (parts: (
    Area,
    Area,
    Area,
))
    requires
        area.valid(),
    ensures
        sliced(seq![parts.0, parts.1, parts.2], area, axis),
        roomy(seq![first, second, third], size(area, axis)) ==> spread(
            seq![first, second, third],
            seq![parts.0, parts.1, parts.2],
            area,
            axis,
        ),
        served_first(seq![first, second, third], seq![parts.0, parts.1, parts.2], area, axis),
{
    let mut shares: Vec<Share> = Vec::new();
    shares.push(first);
    shares.push(second);
    shares.push(third);
    let parts: Vec<Area> = split_area(area, axis, &shares);
    assert(shares@ =~= seq![first, second, third]);
    assert(seq![parts@[0], parts@[1], parts@[2]] =~= parts@);
    (parts[0], parts[1], parts[2])
}

/// Three shares are in order, and what they get can be written out.
proof fn lemma_three(first: Share, second: Share, third: Share, whole: int)
    ensures
        ({
            let shares = seq![first, second, third];
            let a = allotted(shares, whole, 0);
            let b = allotted(shares, whole, 1);
            let c = allotted(shares, whole, 2);
            &&& demands(shares, whole) == demand(first, whole) + demand(second, whole) + demand(
                third,
                whole,
            )
            &&& bound(shares, whole, 0) == 0
            &&& bound(shares, whole, 1) == a
            &&& bound(shares, whole, 2) == a + b
            &&& bound(shares, whole, 3) == a + b + c
        }),
{
    let shares = seq![first, second, third];
    assert(shares.drop_last() =~= seq![first, second]);
    assert(shares.drop_last().drop_last() =~= seq![first]);
    assert(shares.drop_last().drop_last().drop_last() =~= Seq::<Share>::empty());
    reveal_with_fuel(demands, 4);
    reveal_with_fuel(bound, 4);
}

/// Whether `inner` lies in `outer`.
pub open spec fn inside(inner: Area, outer: Area) -> bool {
    &&& outer.x <= inner.x
    &&& inner.x + inner.width <= outer.x + outer.width
    &&& outer.y <= inner.y
    &&& inner.y + inner.height <= outer.y + outer.height
}

/// The parts of the screen.
#[derive(Clone, Copy, Debug, PartialEq, Eq)]
pub struct Places {
    pub title: Area,
    pub mods: Area,
    pub queue: Area,
    pub log: Area,
    pub bar: Area,
}

/// Whether the parts of the screen stand as they should: the title above the
/// panels and the key bar below, the panels side by side, without gaps. As soon
/// as there are three lines, title and key bar have one each and the panels the
/// rest; with fewer the panels have one line, if there is any, and title or key
/// bar has the other. The panels share the width in the ratio of three, three
/// and four.
pub open spec fn arranged(places: Places, area: Area) -> bool {
    &&& inside(places.title, area)
    &&& inside(places.mods, area)
    &&& inside(places.bar, area)
    &&& places.title.x == area.x && places.title.width == area.width
    &&& places.bar.x == area.x && places.bar.width == area.width
    &&& places.title.y == area.y
    &&& places.mods.y == places.title.y + places.title.height
    &&& places.mods.y == places.queue.y == places.log.y
    &&& places.mods.height == places.queue.height == places.log.height
    &&& places.bar.y == places.mods.y + places.mods.height
    &&& places.bar.y + places.bar.height == area.y + area.height
    &&& if area.height >= 3 {
        places.title.height == 1 && places.bar.height == 1
    } else {
        places.mods.height == at_most(1, area.height as int)
    }
    &&& places.mods.x == area.x
    &&& places.mods.width == rounded(30 * area.width)
    &&& places.queue.x == places.mods.x + places.mods.width
    &&& places.queue.x + places.queue.width == area.x + rounded(60 * area.width)
    &&& places.log.x == places.queue.x + places.queue.width
    &&& places.log.x + places.log.width == area.x + area.width
}

/// Arranges the screen.
pub fn arrange(area: Area) -> (places: Places)
    requires
        area.valid(),
    ensures
        arranged(places, area),
{
    let (title, body, bar) = split_in_three(
        area,
        Axis::Vertical,
        Share::Length(1),
        Share::AtLeast(1),
        Share::Length(1),
    );
    proof {
        let rows = seq![title, body, bar];
        assert(rows[0] == title && rows[1] == body && rows[2] == bar);
        assert(slice_of(rows[0], area, Axis::Vertical));
        assert(slice_of(rows[1], area, Axis::Vertical));
        assert(slice_of(rows[2], area, Axis::Vertical));
        lemma_three(Share::Length(1), Share::AtLeast(1), Share::Length(1), area.height as int);
    }
    let (mods, queue, log) = split_in_three(
        body,
        Axis::Horizontal,
        Share::Percent(30),
        Share::Percent(30),
        Share::Percent(40),
    );
    proof {
        let columns = seq![mods, queue, log];
        assert(columns[0] == mods && columns[1] == queue && columns[2] == log);
        assert(slice_of(columns[0], body, Axis::Horizontal));
        assert(slice_of(columns[1], body, Axis::Horizontal));
        assert(slice_of(columns[2], body, Axis::Horizontal));
        lemma_three(
            Share::Percent(30),
            Share::Percent(30),
            Share::Percent(40),
            body.width as int,
        );
    }
    Places { title, mods, queue, log, bar }
}

/// Whether a window stands in the middle of the screen: inside it, over the
/// middle half of its width, `height` lines high as far as there are so many,
/// and, as soon as there is room, below `margin` per cent of the lines.
pub open spec fn centred(window: Area, area: Area, height: u16, margin: u16) -> bool {
    &&& inside(window, area)
    &&& window.x == area.x + rounded(25 * area.width)
    &&& window.x + window.width == area.x + rounded(75 * area.width)
    &&& window.height == at_most(height, area.height as int)
    &&& 2 * (area.height * margin) + 100 * height <= 100 * area.height ==> window.y == area.y
        + rounded(area.height * margin)
}

/// Places a window in the middle of the screen.
pub fn centre(area: Area, height: u16, margin: u16) -> (window: Area)
    requires
        area.valid(),
    ensures
        centred(window, area, height, margin),
{
    let (above, middle, below) = split_in_three(
        area,
        Axis::Vertical,
        Share::Percent(margin),
        Share::Length(height),
        Share::Percent(margin),
    );
    proof {
        let rows = seq![above, middle, below];
        assert(rows[1] == middle);
        assert(slice_of(rows[1], area, Axis::Vertical));
        lemma_three(
            Share::Percent(margin),
            Share::Length(height),
            Share::Percent(margin),
            area.height as int,
        );
    }
    let (left, window, right) = split_in_three(
        middle,
        Axis::Horizontal,
        Share::Percent(25),
        Share::Percent(50),
        Share::Percent(25),
    );
    proof {
        let columns = seq![left, window, right];
        assert(columns[1] == window);
        assert(slice_of(columns[1], middle, Axis::Horizontal));
        lemma_three(
            Share::Percent(25),
            Share::Percent(50),
            Share::Percent(25),
            middle.width as int,
        );
    }
    window
}

} // verus!
