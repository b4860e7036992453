//! Output geometry: the global bounding box of all monitors in the
//! compositor's logical coordinate space, and the placement of one captured
//! monitor inside that box.

use vstd::prelude::*;

verus! {

/// Global bounding box of all outputs in the compositor's logical coordinate
/// space. This is the space the compositor decodes tablet ABS axes against, so
/// it is what a per-monitor rect must be normalised by.
#[derive(Debug, Clone, Copy, PartialEq, Eq, Structural)]
pub struct GlobalBox {
    pub x: i32,
    pub y: i32,
    pub width: i32,
    pub height: i32,
}

/// A logical rect `(x, y, width, height)`.
pub type LogicalRect = (i32, i32, i32, i32);

pub open spec fn min_int(a: int, b: int) -> int {
    if a <= b {
        a
    } else {
        b
    }
}

pub open spec fn max_int(a: int, b: int) -> int {
    if a >= b {
        a
    } else {
        b
    }
}

/// Smallest left edge of a non-empty sequence of rects.
pub open spec fn left_of(rects: Seq<LogicalRect>) -> int
    decreases rects.len(),
{
    if rects.len() <= 1 {
        rects[0].0 as int
    } else {
        min_int(left_of(rects.drop_last()), rects.last().0 as int)
    }
}

/// Smallest top edge of a non-empty sequence of rects.
pub open spec fn top_of(rects: Seq<LogicalRect>) -> int
    decreases rects.len(),
{
    if rects.len() <= 1 {
        rects[0].1 as int
    } else {
        min_int(top_of(rects.drop_last()), rects.last().1 as int)
    }
}

/// Largest right edge (`x + width`) of a non-empty sequence of rects.
pub open spec fn right_of(rects: Seq<LogicalRect>) -> int
    decreases rects.len(),
{
    if rects.len() <= 1 {
        rects[0].0 + rects[0].2
    } else {
        max_int(right_of(rects.drop_last()), rects.last().0 + rects.last().2)
    }
}

/// Largest bottom edge (`y + height`) of a non-empty sequence of rects.
pub open spec fn bottom_of(rects: Seq<LogicalRect>) -> int
    decreases rects.len(),
{
    if rects.len() <= 1 {
        rects[0].1 + rects[0].3
    } else {
        max_int(bottom_of(rects.drop_last()), rects.last().1 + rects.last().3)
    }
}

pub open spec fn fits_i32(v: int) -> bool {
    i32::MIN <= v <= i32::MAX
}

/// Every right and bottom edge, and the extent of the union, fit in an `i32`.
pub open spec fn union_fits(rects: Seq<LogicalRect>) -> bool {
    &&& forall|i: int|
        0 <= i < rects.len() ==> fits_i32(#[trigger] rects[i].0 + rects[i].2) && fits_i32(
            rects[i].1 + rects[i].3,
        )
    &&& rects.len() > 0 ==> fits_i32(right_of(rects) - left_of(rects)) && fits_i32(
        bottom_of(rects) - top_of(rects),
    )
}

/// The union of a sequence of rects, `None` if there are none.
pub open spec fn union_box(rects: Seq<LogicalRect>) -> Option<GlobalBox> {
    if rects.len() == 0 {
        None
    } else {
        Some(
            GlobalBox {
                x: left_of(rects) as i32,
                y: top_of(rects) as i32,
                width: (right_of(rects) - left_of(rects)) as i32,
                height: (bottom_of(rects) - top_of(rects)) as i32,
            },
        )
    }
}

/// The extremes of a sequence of rects are attained by some rect and bound all rects.
pub proof fn lemma_extremes(rects: Seq<LogicalRect>)
    requires
        rects.len() > 0,
    ensures
        forall|i: int|
            0 <= i < rects.len() ==> left_of(rects) <= #[trigger] rects[i].0 && top_of(rects)
                <= rects[i].1 && rects[i].0 + rects[i].2 <= right_of(rects) && rects[i].1
                + rects[i].3 <= bottom_of(rects),
        exists|i: int| 0 <= i < rects.len() && left_of(rects) == #[trigger] rects[i].0,
        exists|i: int| 0 <= i < rects.len() && top_of(rects) == #[trigger] rects[i].1,
        exists|i: int|
            0 <= i < rects.len() && right_of(rects) == #[trigger] rects[i].0 + rects[i].2,
        exists|i: int|
            0 <= i < rects.len() && bottom_of(rects) == #[trigger] rects[i].1 + rects[i].3,
    decreases rects.len(),
{
    if rects.len() > 1 {
        let init = rects.drop_last();
        lemma_extremes(init);
        let n = rects.len() - 1;
        assert forall|i: int| 0 <= i < rects.len() implies left_of(rects) <= #[trigger] rects[i].0
            && top_of(rects) <= rects[i].1 && rects[i].0 + rects[i].2 <= right_of(rects)
            && rects[i].1 + rects[i].3 <= bottom_of(rects) by {
            if i < n {
                assert(rects[i] == init[i]);
            }
        }
        if left_of(rects) == rects[n].0 {
            assert(left_of(rects) == rects[n].0);
        } else {
            let k = choose|k: int| 0 <= k < init.len() && left_of(init) == #[trigger] init[k].0;
            assert(rects[k] == init[k]);
        }
        if top_of(rects) == rects[n].1 {
            assert(top_of(rects) == rects[n].1);
        } else {
            let k = choose|k: int| 0 <= k < init.len() && top_of(init) == #[trigger] init[k].1;
            assert(rects[k] == init[k]);
        }
        if right_of(rects) == rects[n].0 + rects[n].2 {
        } else {
            let k = choose|k: int|
                0 <= k < init.len() && right_of(init) == #[trigger] init[k].0 + init[k].2;
            assert(rects[k] == init[k]);
        }
        if bottom_of(rects) == rects[n].1 + rects[n].3 {
        } else {
            let k = choose|k: int|
                0 <= k < init.len() && bottom_of(init) == #[trigger] init[k].1 + init[k].3;
            assert(rects[k] == init[k]);
        }
    } else {
        assert(left_of(rects) == rects[0].0);
        assert(top_of(rects) == rects[0].1);
        assert(right_of(rects) == rects[0].0 + rects[0].2);
        assert(bottom_of(rects) == rects[0].1 + rects[0].3);
    }
}

/// Union of logical rects `(x, y, w, h)` into a `GlobalBox`; `None` if empty.
pub fn bounding_box(rects: &[LogicalRect]) -> (b: Option<GlobalBox>)
    requires
        union_fits(rects@),
    ensures
        b == union_box(rects@),
{
    if rects.len() == 0 {
        return None;
    }
    let (x0, y0, w0, h0) = rects[0];
    assert(fits_i32(rects@[0].0 + rects@[0].2));
    let mut min_x: i32 = x0;
    let mut min_y: i32 = y0;
    let mut max_x: i32 = x0 + w0;
    let mut max_y: i32 = y0 + h0;
    let mut i: usize = 1;
    assert(rects@.take(1).drop_last() =~= seq![]);
    while i < rects.len()
        invariant
            1 <= i <= rects.len(),
            union_fits(rects@),
            min_x == left_of(rects@.take(i as int)),
            min_y == top_of(rects@.take(i as int)),
            max_x == right_of(rects@.take(i as int)),
            max_y == bottom_of(rects@.take(i as int)),
        decreases rects.len() - i,
    {
        let (x, y, w, h) = rects[i];
        assert(fits_i32(rects@[i as int].0 + rects@[i as int].2));
        let r = x + w;
        let btm = y + h;
        if x < min_x {
            min_x = x;
        }
        if y < min_y {
            min_y = y;
        }
        if r > max_x {
            max_x = r;
        }
        if btm > max_y {
            max_y = btm;
        }
        assert(rects@.take(i + 1).drop_last() =~= rects@.take(i as int));
        i = i + 1;
    }
    assert(rects@.take(i as int) =~= rects@);
    Some(GlobalBox { x: min_x, y: min_y, width: max_x - min_x, height: max_y - min_y })
}

/// Every rect lies inside the bounding box, and the box touches some rect on
/// each of its four sides.
pub proof fn bounding_box_is_tight_union(rects: Seq<LogicalRect>)
    requires
        rects.len() > 0,
        union_fits(rects),
    ensures
        union_box(rects) is Some,
        ({
            let b = union_box(rects)->0;
            &&& forall|i: int|
                0 <= i < rects.len() ==> b.x <= #[trigger] rects[i].0 && b.y <= rects[i].1
                    && rects[i].0 + rects[i].2 <= b.x + b.width && rects[i].1 + rects[i].3 <= b.y
                    + b.height
            &&& exists|i: int| 0 <= i < rects.len() && b.x == #[trigger] rects[i].0
            &&& exists|i: int| 0 <= i < rects.len() && b.y == #[trigger] rects[i].1
            &&& exists|i: int|
                0 <= i < rects.len() && b.x + b.width == #[trigger] rects[i].0 + rects[i].2
            &&& exists|i: int|
                0 <= i < rects.len() && b.y + b.height == #[trigger] rects[i].1 + rects[i].3
        }),
{
    lemma_extremes(rects);
    assert(fits_i32(rects[0].0 + rects[0].2));
}

/// The extremes of a non-empty sequence of rects are the values that bound
/// every rect and are attained by some rect.
#[verifier::spinoff_prover]
proof fn lemma_extremes_unique(s: Seq<LogicalRect>, l: int, t: int, r: int, bt: int)
    requires
        s.len() > 0,
        forall|i: int|
            #![trigger s[i]]
            0 <= i < s.len() ==> l <= s[i].0 && t <= s[i].1 && s[i].0 + s[i].2 <= r && s[i].1
                + s[i].3 <= bt,
        exists|i: int| 0 <= i < s.len() && l == #[trigger] s[i].0,
        exists|i: int| 0 <= i < s.len() && t == #[trigger] s[i].1,
        exists|i: int| 0 <= i < s.len() && r == #[trigger] s[i].0 + s[i].2,
        exists|i: int| 0 <= i < s.len() && bt == #[trigger] s[i].1 + s[i].3,
    ensures
        left_of(s) == l,
        top_of(s) == t,
        right_of(s) == r,
        bottom_of(s) == bt,
{
    lemma_extremes(s);
    let il = choose|i: int| 0 <= i < s.len() && l == #[trigger] s[i].0;
    let it = choose|i: int| 0 <= i < s.len() && t == #[trigger] s[i].1;
    let ir = choose|i: int| 0 <= i < s.len() && r == #[trigger] s[i].0 + s[i].2;
    let ib = choose|i: int| 0 <= i < s.len() && bt == #[trigger] s[i].1 + s[i].3;
    assert(left_of(s) <= s[il].0);
    assert(left_of(s) <= s[it].0 && top_of(s) <= s[it].1);
    assert(left_of(s) <= s[ir].0 && s[ir].0 + s[ir].2 <= right_of(s));
    assert(left_of(s) <= s[ib].0 && s[ib].1 + s[ib].3 <= bottom_of(s));
    let jl = choose|i: int| 0 <= i < s.len() && left_of(s) == #[trigger] s[i].0;
    let jt = choose|i: int| 0 <= i < s.len() && top_of(s) == #[trigger] s[i].1;
    let jr = choose|i: int| 0 <= i < s.len() && right_of(s) == #[trigger] s[i].0 + s[i].2;
    let jb = choose|i: int| 0 <= i < s.len() && bottom_of(s) == #[trigger] s[i].1 + s[i].3;
    let xl = s[jl];
    let xt = s[jt];
    let xr = s[jr];
    let xb = s[jb];
    assert(l <= xl.0);
    assert(t <= xt.1);
    assert(xr.0 + xr.2 <= r);
    assert(xb.1 + xb.3 <= bt);
}

/// Two sequences holding the same rects have the same extremes.
proof fn lemma_same_rects_same_extremes(a: Seq<LogicalRect>, b: Seq<LogicalRect>)
    requires
        a.len() > 0,
        forall|x: LogicalRect| a.contains(x) <==> b.contains(x),
    ensures
        b.len() > 0,
        left_of(b) == left_of(a),
        top_of(b) == top_of(a),
        right_of(b) == right_of(a),
        bottom_of(b) == bottom_of(a),
{
    assert(a.contains(a[0]));
    assert(b.contains(a[0]));
    lemma_extremes(a);
    assert forall|i: int| 0 <= i < b.len() implies left_of(a) <= #[trigger] b[i].0 && top_of(a)
        <= b[i].1 && b[i].0 + b[i].2 <= right_of(a) && b[i].1 + b[i].3 <= bottom_of(a) by {
        assert(b.contains(b[i]));
        assert(a.contains(b[i]));
        let k = choose|k: int| 0 <= k < a.len() && a[k] == b[i];
        assert(a[k].0 == b[i].0);
    }
    let il = choose|i: int| 0 <= i < a.len() && left_of(a) == #[trigger] a[i].0;
    let it = choose|i: int| 0 <= i < a.len() && top_of(a) == #[trigger] a[i].1;
    let ir = choose|i: int| 0 <= i < a.len() && right_of(a) == #[trigger] a[i].0 + a[i].2;
    let ib = choose|i: int| 0 <= i < a.len() && bottom_of(a) == #[trigger] a[i].1 + a[i].3;
    assert(a.contains(a[il]) && a.contains(a[it]) && a.contains(a[ir]) && a.contains(a[ib]));
    let kl = choose|k: int| 0 <= k < b.len() && b[k] == a[il];
    let kt = choose|k: int| 0 <= k < b.len() && b[k] == a[it];
    let kr = choose|k: int| 0 <= k < b.len() && b[k] == a[ir];
    let kb = choose|k: int| 0 <= k < b.len() && b[k] == a[ib];
    assert(left_of(a) == b[kl].0);
    assert(top_of(a) == b[kt].1);
    assert(right_of(a) == b[kr].0 + b[kr].2);
    assert(bottom_of(a) == b[kb].1 + b[kb].3);
    lemma_extremes_unique(b, left_of(a), top_of(a), right_of(a), bottom_of(a));
}

/// The bounding box does not depend on the order of the rects: any
/// rearrangement of them has the same box.
pub proof fn bounding_box_ignores_order(rects: Seq<LogicalRect>, p: Seq<LogicalRect>)
    requires
        p.to_multiset() == rects.to_multiset(),
    ensures
        union_box(p) == union_box(rects),
{
    p.to_multiset_ensures();
    rects.to_multiset_ensures();
    assert(p.len() == rects.len());
    if rects.len() > 0 {
        assert forall|x: LogicalRect| rects.contains(x) <==> p.contains(x) by {
            assert(rects.contains(x) <==> rects.to_multiset().count(x) > 0);
            assert(p.contains(x) <==> p.to_multiset().count(x) > 0);
        }
        lemma_same_rects_same_extremes(rects, p);
    }
}

/// The box of two non-empty lists of rects put together spans both of their
/// boxes: its left and top edges are the smaller ones, its right and bottom
/// edges the larger ones.
pub proof fn bounding_box_of_concatenation(a: Seq<LogicalRect>, b: Seq<LogicalRect>)
    requires
        a.len() > 0,
        b.len() > 0,
        union_fits(a),
        union_fits(b),
        union_fits(a + b),
    ensures
        ({
            let p = union_box(a)->0;
            let q = union_box(b)->0;
            let x = min_int(p.x as int, q.x as int);
            let y = min_int(p.y as int, q.y as int);
            union_box(a + b) == Some(
                GlobalBox {
                    x: x as i32,
                    y: y as i32,
                    width: (max_int(p.x + p.width, q.x + q.width) - x) as i32,
                    height: (max_int(p.y + p.height, q.y + q.height) - y) as i32,
                },
            )
        }),
{
    let ab = a + b;
    lemma_extremes(a);
    lemma_extremes(b);
    let l = min_int(left_of(a), left_of(b));
    let t = min_int(top_of(a), top_of(b));
    let r = max_int(right_of(a), right_of(b));
    let bt = max_int(bottom_of(a), bottom_of(b));
    assert forall|i: int| 0 <= i < ab.len() implies l <= #[trigger] ab[i].0 && t <= ab[i].1
        && ab[i].0 + ab[i].2 <= r && ab[i].1 + ab[i].3 <= bt by {
        if i < a.len() {
            assert(ab[i] == a[i]);
        } else {
            assert(ab[i] == b[i - a.len()]);
        }
    }
    let al = choose|i: int| 0 <= i < a.len() && left_of(a) == #[trigger] a[i].0;
    let at = choose|i: int| 0 <= i < a.len() && top_of(a) == #[trigger] a[i].1;
    let ar = choose|i: int| 0 <= i < a.len() && right_of(a) == #[trigger] a[i].0 + a[i].2;
    let abt = choose|i: int| 0 <= i < a.len() && bottom_of(a) == #[trigger] a[i].1 + a[i].3;
    let bl = choose|i: int| 0 <= i < b.len() && left_of(b) == #[trigger] b[i].0;
    let bto = choose|i: int| 0 <= i < b.len() && top_of(b) == #[trigger] b[i].1;
    let br = choose|i: int| 0 <= i < b.len() && right_of(b) == #[trigger] b[i].0 + b[i].2;
    let bbt = choose|i: int| 0 <= i < b.len() && bottom_of(b) == #[trigger] b[i].1 + b[i].3;
    assert(ab[al] == a[al] && ab[at] == a[at] && ab[ar] == a[ar] && ab[abt] == a[abt]);
    assert(ab[a.len() + bl] == b[bl] && ab[a.len() + bto] == b[bto]);
    assert(ab[a.len() + br] == b[br] && ab[a.len() + bbt] == b[bbt]);
    if left_of(a) <= left_of(b) {
        assert(l == ab[al].0);
    } else {
        assert(l == ab[a.len() + bl].0);
    }
    if top_of(a) <= top_of(b) {
        assert(t == ab[at].1);
    } else {
        assert(t == ab[a.len() + bto].1);
    }
    if right_of(a) >= right_of(b) {
        assert(r == ab[ar].0 + ab[ar].2);
    } else {
        assert(r == ab[a.len() + br].0 + ab[a.len() + br].2);
    }
    if bottom_of(a) >= bottom_of(b) {
        assert(bt == ab[abt].1 + ab[abt].3);
    } else {
        assert(bt == ab[a.len() + bbt].1 + ab[a.len() + bbt].3);
    }
    lemma_extremes_unique(ab, l, t, r, bt);
    assert(fits_i32(a[al].0 as int));
    assert(fits_i32(b[bl].0 as int));
    assert(fits_i32(a[at].1 as int));
    assert(fits_i32(b[bto].1 as int));
}

/// The place of a captured stream inside the global box, as fractions of the
/// box's size: the stream covers `x_num / den_w .. (x_num + w_num) / den_w`
/// horizontally and likewise vertically. `WholeScreen` stands for `(0, 0, 1, 1)`.
#[derive(Debug, Clone, Copy, PartialEq, Eq, Structural)]
pub enum RelativeGeometry {
    WholeScreen,
    Fraction { x_num: i64, y_num: i64, w_num: i64, h_num: i64, den_w: i32, den_h: i32 },
}

/// Portal source type of a monitor stream.
pub const SOURCE_TYPE_MONITOR: u64 = 1;

/// Where a stream sits inside the global box; see `relative_geometry`.
pub open spec fn spec_relative_geometry(
    source_type: u64,
    position: Option<(i32, i32)>,
    size: Option<(i32, i32)>,
    gbox: Option<GlobalBox>,
) -> RelativeGeometry {
    if source_type != SOURCE_TYPE_MONITOR {
        RelativeGeometry::WholeScreen
    } else {
        match (position, size, gbox) {
            (Some((px, py)), Some((sw, sh)), Some(g)) => {
                if g.width > 0 && g.height > 0 && sw > 1 && sh > 1 {
                    RelativeGeometry::Fraction {
                        x_num: (px - g.x) as i64,
                        y_num: (py - g.y) as i64,
                        w_num: sw as i64,
                        h_num: sh as i64,
                        den_w: g.width,
                        den_h: g.height,
                    }
                } else {
                    RelativeGeometry::WholeScreen
                }
            },
            _ => RelativeGeometry::WholeScreen,
        }
    }
}

/// Place a monitor stream whose logical rect is `position`/`size` inside the
/// global bounding box `gbox`. Windows (which the portal reports with a dummy
/// `1x1` size), streams without geometry and an unknown or degenerate box give
/// the whole screen.
pub fn relative_geometry(
    source_type: u64,
    position: Option<(i32, i32)>,
    size: Option<(i32, i32)>,
    gbox: Option<GlobalBox>,
) -> (g: RelativeGeometry)
    ensures
        g == spec_relative_geometry(source_type, position, size, gbox),
        g matches RelativeGeometry::Fraction { den_w, den_h, .. } ==> den_w > 0 && den_h > 0,
{
    if source_type != SOURCE_TYPE_MONITOR {
        return RelativeGeometry::WholeScreen;
    }
    match (position, size, gbox) {
        (Some((px, py)), Some((sw, sh)), Some(g)) => {
            if g.width > 0 && g.height > 0 && sw > 1 && sh > 1 {
                RelativeGeometry::Fraction {
                    x_num: px as i64 - g.x as i64,
                    y_num: py as i64 - g.y as i64,
                    w_num: sw as i64,
                    h_num: sh as i64,
                    den_w: g.width,
                    den_h: g.height,
                }
            } else {
                RelativeGeometry::WholeScreen
            }
        },
        _ => RelativeGeometry::WholeScreen,
    }
}

} // verus!
