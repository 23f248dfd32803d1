//! Wrapping: items of known display width, re-flowed greedily into lines of
//! a given width without ever splitting an item. The units of a render pass
//! are wrapped this way, and so are the legends of the editor.

use super::compose::{units_view, RenderUnit, RenderUnitView};
use vstd::prelude::*;

verus! {

/// The display width of a line: its items, with one separator between each
/// two neighbours.
pub open spec fn line_width<T>(
    line: Seq<T>,
    measure: spec_fn(T) -> nat, separator_width: nat,
) -> nat
    decreases line.len(),
{
    if line.len() == 0 {
        0
    } else if line.len() == 1 {
        measure(line[0])
    } else {
        line_width(line.drop_last(), measure, separator_width) + separator_width + measure(
            line.last(),
        )
    }
}

/// The items of the lines, one line after the other.
pub open spec fn joined<T>(lines: Seq<Seq<T>>) -> Seq<T>
    decreases lines.len(),
{
    if lines.len() == 0 {
        Seq::empty()
    } else {
        joined(lines.drop_last()) + lines.last()
    }
}

/// The lines after one more item has been placed: on the last line where it
/// fits there behind a separator, else on a new line of its own. The first
/// item of all opens the first line.
pub open spec fn place<T>(
    lines: Seq<Seq<T>>,
    item: T,
    measure: spec_fn(T) -> nat,
    separator_width: nat,
    max_width: nat,
) -> Seq<Seq<T>> {
    if lines.len() == 0 {
        seq![seq![item]]
    } else if line_width(lines.last(), measure, separator_width) + separator_width + measure(item)
        <= max_width {
        lines.drop_last().push(lines.last().push(item))
    } else {
        lines.push(seq![item])
    }
}

/// The lines into which the items are wrapped: each item in turn is placed
/// behind those before it.
pub open spec fn wrapped<T>(
    items: Seq<T>,
    measure: spec_fn(T) -> nat,
    separator_width: nat,
    max_width: nat,
) -> Seq<Seq<T>>
    decreases items.len(),
{
    if items.len() == 0 {
        Seq::empty()
    } else {
        place(
            wrapped(items.drop_last(), measure, separator_width, max_width),
            items.last(),
            measure,
            separator_width,
            max_width,
        )
    }
}

/// Tells whether `lines` lay out `items` greedily: the lines hold the items,
/// each once and in order; no line is empty; a line of more than one item is
/// no wider than `max_width`; and no line could have taken the first item of
/// the next.
pub open spec fn is_greedy_layout<T>(
    items: Seq<T>,
    measure: spec_fn(T) -> nat,
    separator_width: nat,
    max_width: nat,
    lines: Seq<Seq<T>>,
) -> bool {
    &&& joined(lines) == items
    &&& forall|i: int| 0 <= i < lines.len() ==> (#[trigger] lines[i]).len() > 0
    &&& forall|i: int|
        0 <= i < lines.len() ==> (#[trigger] lines[i]).len() == 1 || line_width(
            lines[i],
            measure,
            separator_width,
        ) <= max_width
    &&& forall|i: int, j: int|
        0 <= i && j == i + 1 && j < lines.len() ==> line_width(
            #[trigger] lines[i],
            measure,
            separator_width,
        ) + separator_width + measure((#[trigger] lines[j])[0]) > max_width
}

/// Placing one more item keeps a greedy layout greedy.
proof fn place_keeps_greedy<T>(
    items: Seq<T>,
    lines: Seq<Seq<T>>,
    item: T,
    measure: spec_fn(T) -> nat,
    separator_width: nat,
    max_width: nat,
)
    requires
        is_greedy_layout(items, measure, separator_width, max_width, lines),
    ensures
        is_greedy_layout(
            items.push(item),
            measure,
            separator_width,
            max_width,
            place(lines, item, measure, separator_width, max_width),
        ),
{
    let after = place(lines, item, measure, separator_width, max_width);
    if lines.len() == 0 {
        assert(after.drop_last() =~= lines);
        assert(joined(after) =~= items.push(item));
    } else if line_width(lines.last(), measure, separator_width) + separator_width + measure(item)
        <= max_width {
        let grown = lines.last().push(item);
        assert(after.drop_last() =~= lines.drop_last());
        assert(after.last() == grown);
        assert(joined(after) =~= items.push(item));
        assert(grown.drop_last() =~= lines.last());
        assert(line_width(grown, measure, separator_width) == line_width(
            lines.last(),
            measure,
            separator_width,
        ) + separator_width + measure(item));
        assert forall|i: int| 0 <= i < after.len() implies (#[trigger] after[i]).len() > 0 && (
        after[i].len() == 1 || line_width(after[i], measure, separator_width) <= max_width) by {
            if i < after.len() - 1 {
                assert(after[i] == lines[i]);
            }
        }
        assert forall|i: int, j: int| 0 <= i && j == i + 1 && j < after.len() implies line_width(
            #[trigger] after[i],
            measure,
            separator_width,
        ) + separator_width + measure((#[trigger] after[j])[0]) > max_width by {
            assert(after[i] == lines[i]);
            if j < after.len() - 1 {
                assert(after[j] == lines[j]);
            } else {
                assert(after[j][0] == lines[j][0]);
            }
        }
    } else {
        assert(after.drop_last() =~= lines);
        assert(joined(after) =~= items.push(item));
        assert forall|i: int| 0 <= i < after.len() implies (#[trigger] after[i]).len() > 0 && (
        after[i].len() == 1 || line_width(after[i], measure, separator_width) <= max_width) by {
            if i < after.len() - 1 {
                assert(after[i] == lines[i]);
            }
        }
        assert forall|i: int, j: int| 0 <= i && j == i + 1 && j < after.len() implies line_width(
            #[trigger] after[i],
            measure,
            separator_width,
        ) + separator_width + measure((#[trigger] after[j])[0]) > max_width by {
            assert(after[i] == lines[i]);
            if j < after.len() - 1 {
                assert(after[j] == lines[j]);
            }
        }
    }
}

/// Wrapping loses, repeats and reorders nothing, leaves no line empty, keeps
/// every line of several items within the width, and breaks a line only
/// where the next item would not fit.
pub proof fn wrapped_is_greedy<T>(
    items: Seq<T>,
    measure: spec_fn(T) -> nat,
    separator_width: nat,
    max_width: nat,
)
    ensures
        is_greedy_layout(
            items,
            measure,
            separator_width,
            max_width,
            wrapped(items, measure, separator_width, max_width),
        ),
    decreases items.len(),
{
    if items.len() == 0 {
        assert(joined(Seq::<Seq<T>>::empty()) =~= items);
    } else {
        wrapped_is_greedy(items.drop_last(), measure, separator_width, max_width);
        place_keeps_greedy(
            items.drop_last(),
            wrapped(items.drop_last(), measure, separator_width, max_width),
            items.last(),
            measure,
            separator_width,
            max_width,
        );
        assert(items.drop_last().push(items.last()) =~= items);
    }
}

/// Every item appears exactly once across the lines, in the order in which
/// the items came.
pub proof fn wrapped_keeps_every_item<T>(
    items: Seq<T>,
    measure: spec_fn(T) -> nat,
    separator_width: nat,
    max_width: nat,
)
    ensures
        joined(wrapped(items, measure, separator_width, max_width)) == items,
{
    wrapped_is_greedy(items, measure, separator_width, max_width);
}

/// There is no line exactly when there is no item, and never an empty line.
pub proof fn wrapped_has_no_empty_line<T>(
    items: Seq<T>,
    measure: spec_fn(T) -> nat,
    separator_width: nat,
    max_width: nat,
)
    ensures
        wrapped(items, measure, separator_width, max_width).len() == 0 <==> items.len() == 0,
        forall|i: int|
            0 <= i < wrapped(items, measure, separator_width, max_width).len() ==> (
            #[trigger] wrapped(items, measure, separator_width, max_width)[i]).len() > 0,
{
    wrapped_is_greedy(items, measure, separator_width, max_width);
    let lines = wrapped(items, measure, separator_width, max_width);
    if lines.len() > 0 {
        assert(lines.last().len() > 0);
        assert(joined(lines).len() >= lines.last().len());
    }
}

/// Where no item alone is wider than the width, no line is.
pub proof fn wrapped_lines_fit<T>(
    items: Seq<T>,
    measure: spec_fn(T) -> nat,
    separator_width: nat,
    max_width: nat,
)
    requires
        forall|i: int| 0 <= i < items.len() ==> measure(#[trigger] items[i]) <= max_width,
    ensures
        forall|i: int|
            0 <= i < wrapped(items, measure, separator_width, max_width).len() ==> line_width(
                #[trigger] wrapped(items, measure, separator_width, max_width)[i],
                measure,
                separator_width,
            ) <= max_width,
    decreases items.len(),
{
    if items.len() > 0 {
        let before = wrapped(items.drop_last(), measure, separator_width, max_width);
        let lines = wrapped(items, measure, separator_width, max_width);
        assert forall|i: int| 0 <= i < items.drop_last().len() implies measure(
            #[trigger] items.drop_last()[i],
        ) <= max_width by {
            assert(items.drop_last()[i] == items[i]);
        }
        wrapped_lines_fit(items.drop_last(), measure, separator_width, max_width);
        assert(items.last() == items[items.len() - 1]);
        assert forall|i: int| 0 <= i < lines.len() implies line_width(
            #[trigger] lines[i],
            measure,
            separator_width,
        ) <= max_width by {
            if i < lines.len() - 1 {
                assert(lines[i] == before[i]);
            } else if before.len() > 0 && line_width(before.last(), measure, separator_width)
                + separator_width + measure(items.last()) <= max_width {
                assert(lines[i].drop_last() =~= before.last());
            }
        }
    }
}

/// The items of the lines are those of the first line, then those of the
/// other lines.
proof fn joined_from_front<T>(lines: Seq<Seq<T>>)
    requires
        lines.len() > 0,
    ensures
        joined(lines) == lines[0] + joined(lines.drop_first()),
    decreases lines.len(),
{
    if lines.len() == 1 {
        assert(lines.drop_last() =~= Seq::<Seq<T>>::empty());
        assert(lines.drop_first() =~= Seq::<Seq<T>>::empty());
        assert(joined(lines) =~= lines[0] + joined(lines.drop_first()));
    } else {
        joined_from_front(lines.drop_last());
        assert(lines.drop_last().drop_first() =~= lines.drop_first().drop_last());
        assert(lines.drop_first().last() == lines.last());
        assert(lines.drop_last()[0] == lines[0]);
        assert(joined(lines) =~= lines[0] + joined(lines.drop_first()));
    }
}

/// The beginning of a line is no wider than the line.
proof fn line_width_grows<T>(
    line: Seq<T>,
    measure: spec_fn(T) -> nat,
    separator_width: nat,
    count: int,
)
    requires
        0 <= count <= line.len(),
    ensures
        line_width(line.take(count), measure, separator_width) <= line_width(
            line,
            measure,
            separator_width,
        ),
    decreases line.len(),
{
    if count == line.len() {
        assert(line.take(count) =~= line);
    } else {
        line_width_grows(line.drop_last(), measure, separator_width, count);
        assert(line.drop_last().take(count) =~= line.take(count));
    }
}

/// Of two greedy layouts of the same items, neither has the shorter first
/// line.
proof fn first_line_is_no_shorter<T>(
    items: Seq<T>,
    measure: spec_fn(T) -> nat,
    separator_width: nat,
    max_width: nat,
    a: Seq<Seq<T>>,
    b: Seq<Seq<T>>,
)
    requires
        is_greedy_layout(items, measure, separator_width, max_width, a),
        is_greedy_layout(items, measure, separator_width, max_width, b),
        a.len() > 0,
        b.len() > 0,
    ensures
        a[0].len() >= b[0].len(),
{
    if a[0].len() < b[0].len() {
        let n = a[0].len() as int;
        let rest = a.drop_first();
        joined_from_front(a);
        joined_from_front(b);
        assert(items.len() >= b[0].len());
        assert(joined(rest).len() > 0);
        assert(rest.len() > 0);
        joined_from_front(rest);
        assert(rest[0] == a[1]);
        assert(a[1].len() > 0);
        assert(joined(rest)[0] == a[1][0]);
        assert(items[n] == a[1][0]);
        assert(b[0][n] == items[n]);
        let begun = b[0].take(n + 1);
        assert forall|i: int| 0 <= i < n implies a[0][i] == b[0][i] by {
            assert(items[i] == a[0][i]);
            assert(items[i] == b[0][i]);
        }
        assert(begun.drop_last() =~= a[0]);
        assert(begun.last() == items[n]);
        assert(line_width(begun, measure, separator_width) == line_width(
            a[0],
            measure,
            separator_width,
        ) + separator_width + measure(items[n]));
        line_width_grows(b[0], measure, separator_width, n + 1);
        assert(b[0].len() > 1);
        assert(line_width(b[0], measure, separator_width) <= max_width);
        assert(line_width(a[0], measure, separator_width) + separator_width + measure(a[1][0])
            > max_width);
    }
}

/// The lines behind the first are a greedy layout of the items behind
/// those of the first line.
proof fn rest_is_greedy<T>(
    items: Seq<T>,
    measure: spec_fn(T) -> nat,
    separator_width: nat,
    max_width: nat,
    lines: Seq<Seq<T>>,
)
    requires
        is_greedy_layout(items, measure, separator_width, max_width, lines),
        lines.len() > 0,
    ensures
        is_greedy_layout(
            items.skip(lines[0].len() as int),
            measure,
            separator_width,
            max_width,
            lines.drop_first(),
        ),
{
    let rest = lines.drop_first();
    joined_from_front(lines);
    assert(joined(rest) =~= items.skip(lines[0].len() as int));
    assert forall|i: int| 0 <= i < rest.len() implies (#[trigger] rest[i]).len() > 0 && (
    rest[i].len() == 1 || line_width(rest[i], measure, separator_width) <= max_width) by {
        assert(rest[i] == lines[i + 1]);
    }
    assert forall|i: int, j: int| 0 <= i && j == i + 1 && j < rest.len() implies line_width(
        #[trigger] rest[i],
        measure,
        separator_width,
    ) + separator_width + measure((#[trigger] rest[j])[0]) > max_width by {
        assert(rest[i] == lines[i + 1]);
        assert(rest[j] == lines[j + 1]);
    }
}

/// The items and the width leave one greedy layout only: two layouts that
/// both hold the items in order, leave no line empty, keep every line of
/// several items within the width and break only where the next item would
/// not fit are the same layout.
pub proof fn greedy_layout_is_unique<T>(
    items: Seq<T>,
    measure: spec_fn(T) -> nat,
    separator_width: nat,
    max_width: nat,
    a: Seq<Seq<T>>,
    b: Seq<Seq<T>>,
)
    requires
        is_greedy_layout(items, measure, separator_width, max_width, a),
        is_greedy_layout(items, measure, separator_width, max_width, b),
    ensures
        a == b,
    decreases a.len(),
{
    if a.len() == 0 || b.len() == 0 {
        if a.len() > 0 {
            joined_from_front(a);
            assert(a[0].len() > 0);
            assert(items.len() >= a[0].len());
            assert(joined(b).len() == 0);
        }
        if b.len() > 0 {
            joined_from_front(b);
            assert(b[0].len() > 0);
            assert(items.len() >= b[0].len());
            assert(joined(a).len() == 0);
        }
        assert(a =~= b);
    } else {
        first_line_is_no_shorter(items, measure, separator_width, max_width, a, b);
        first_line_is_no_shorter(items, measure, separator_width, max_width, b, a);
        joined_from_front(a);
        joined_from_front(b);
        assert forall|i: int| 0 <= i < a[0].len() implies a[0][i] == b[0][i] by {
            assert(items[i] == a[0][i]);
            assert(items[i] == b[0][i]);
        }
        assert(a[0] =~= b[0]);
        rest_is_greedy(items, measure, separator_width, max_width, a);
        rest_is_greedy(items, measure, separator_width, max_width, b);
        greedy_layout_is_unique(
            items.skip(a[0].len() as int),
            measure,
            separator_width,
            max_width,
            a.drop_first(),
            b.drop_first(),
        );
        assert forall|i: int| 0 <= i < a.len() implies a[i] == b[i] by {
            if i > 0 {
                assert(a.drop_first()[i - 1] == a[i]);
                assert(b.drop_first()[i - 1] == b[i]);
            }
        }
        assert(a.len() == b.len()) by {
            assert(a.drop_first().len() == b.drop_first().len());
        }
        assert(a =~= b);
    }
}

/// There are never more lines than items.
pub proof fn wrapped_line_count_is_bounded<T>(
    items: Seq<T>,
    measure: spec_fn(T) -> nat,
    separator_width: nat,
    max_width: nat,
)
    ensures
        wrapped(items, measure, separator_width, max_width).len() <= items.len(),
    decreases items.len(),
{
    if items.len() > 0 {
        wrapped_line_count_is_bounded(items.drop_last(), measure, separator_width, max_width);
    }
}

/// The number of lines depends on the widths of the items alone: items of
/// any kind wrap into as many lines as their widths do.
pub proof fn wrapped_depends_on_widths<T>(
    items: Seq<T>,
    measure: spec_fn(T) -> nat,
    widths: Seq<usize>,
    separator_width: nat,
    max_width: nat,
)
    requires
        widths.len() == items.len(),
        forall|i: int| 0 <= i < items.len() ==> (#[trigger] widths[i]) as nat == measure(items[i]),
    ensures
        wrapped(items, measure, separator_width, max_width).len() == wrapped(
            widths,
            own_width(),
            separator_width,
            max_width,
        ).len(),
        items.len() > 0 ==> line_width(
            wrapped(items, measure, separator_width, max_width).last(),
            measure,
            separator_width,
        ) == line_width(
            wrapped(widths, own_width(), separator_width, max_width).last(),
            own_width(),
            separator_width,
        ),
    decreases items.len(),
{
    if items.len() > 0 {
        let n = items.len() - 1;
        assert(widths.drop_last().len() == items.drop_last().len());
        assert forall|i: int| 0 <= i < items.drop_last().len() implies (
        #[trigger] widths.drop_last()[i]) as nat == measure(items.drop_last()[i]) by {
            assert(widths.drop_last()[i] == widths[i]);
            assert(items.drop_last()[i] == items[i]);
        }
        wrapped_depends_on_widths(
            items.drop_last(),
            measure,
            widths.drop_last(),
            separator_width,
            max_width,
        );
        wrapped_has_no_empty_line(items.drop_last(), measure, separator_width, max_width);
        wrapped_has_no_empty_line(widths.drop_last(), own_width(), separator_width, max_width);
        let a = wrapped(items.drop_last(), measure, separator_width, max_width);
        let b = wrapped(widths.drop_last(), own_width(), separator_width, max_width);
        assert(widths[n] as nat == measure(items[n]));
        assert(own_width()(widths.last()) == measure(items.last()));
        if a.len() > 0 {
            assert(a.last().push(items.last()).drop_last() =~= a.last());
            assert(b.last().push(widths.last()).drop_last() =~= b.last());
            assert(a.last().len() > 0);
            assert(b.last().len() > 0);
        }
    }
}

/// The width of a text: one column for each character.
pub open spec fn text_width() -> spec_fn(Seq<char>) -> nat {
    |text: Seq<char>| text.len()
}

/// The width of a unit.
pub open spec fn unit_width() -> spec_fn(RenderUnitView) -> nat {
    |unit: RenderUnitView| unit.width
}

/// The width of an item that is given by its width.
pub open spec fn own_width() -> spec_fn(usize) -> nat {
    |width: usize| width as nat
}

/// What a run of lines holds, line by line.
pub open spec fn lines_view(lines: Seq<Vec<RenderUnit>>) -> Seq<Seq<RenderUnitView>> {
    Seq::new(lines.len(), |i: int| units_view(lines[i]@))
}

/// Wraps the units into lines of at most `max_width` columns, with
/// `separator_width` columns between neighbours on a line. A unit wider than
/// the width stands alone on its line.
pub fn wrap(
    units: &Vec<RenderUnit>,
    separator_width: usize,
    max_width: usize,
) -> (lines: Vec<Vec<RenderUnit>>)
    ensures
        lines_view(lines@) == wrapped(
            units_view(units@),
            unit_width(),
            separator_width as nat,
            max_width as nat,
        ),
        is_greedy_layout(
            units_view(units@),
            unit_width(),
            separator_width as nat,
            max_width as nat,
            lines_view(lines@),
        ),
{
    let ghost all = units_view(units@);
    let ghost sep = separator_width as nat;
    let ghost max = max_width as nat;
    let mut lines: Vec<Vec<RenderUnit>> = Vec::new();
    let mut current: Vec<RenderUnit> = Vec::new();
    let mut current_width: usize = 0;
    let mut i: usize = 0;
    while i < units.len()
        invariant
            i <= units@.len(),
            all == units_view(units@),
            sep == separator_width as nat,
            max == max_width as nat,
            i == 0 ==> lines@.len() == 0 && current@.len() == 0,
            i > 0 ==> current@.len() > 0 && lines_view(lines@).push(units_view(current@))
                == wrapped(all.take(i as int), unit_width(), sep, max),
            i > 0 ==> current_width as nat == line_width(units_view(current@), unit_width(), sep),
        decreases units@.len() - i,
    {
        let unit = units[i].clone();
        let ghost before = wrapped(all.take(i as int), unit_width(), sep, max);
        let ghost closed = lines_view(lines@);
        let ghost open = units_view(current@);
        proof {
            assert(all.take(i + 1).drop_last() =~= all.take(i as int));
            assert(all.take(i + 1).last() == unit@);
            if i > 0 {
                assert(before.last() == open);
                assert(before.drop_last() =~= closed);
            }
        }
        let fits = i > 0 && unit.width <= max_width && separator_width <= max_width - unit.width
            && current_width <= max_width - unit.width - separator_width;
        if i == 0 {
            current_width = unit.width;
            current.push(unit);
            proof {
                assert(units_view(current@) =~= seq![unit@]);
                assert(lines_view(lines@).push(units_view(current@)) =~= seq![seq![unit@]]);
            }
        } else if fits {
            current_width = current_width + separator_width + unit.width;
            current.push(unit);
            proof {
                assert(units_view(current@) =~= open.push(unit@));
                assert(units_view(current@).drop_last() =~= open);
            }
        } else {
            lines.push(current);
            current = Vec::new();
            current_width = unit.width;
            current.push(unit);
            proof {
                assert(units_view(current@) =~= seq![unit@]);
                assert(lines_view(lines@) =~= closed.push(open));
            }
        }
        i += 1;
    }
    proof {
        assert(all.take(units@.len() as int) =~= all);
        wrapped_is_greedy(all, unit_width(), sep, max);
    }
    if i > 0 {
        let ghost closed = lines_view(lines@);
        let ghost open = units_view(current@);
        lines.push(current);
        assert(lines_view(lines@) =~= closed.push(open));
    } else {
        assert(lines_view(lines@) =~= Seq::<Seq<RenderUnitView>>::empty());
    }
    lines
}

/// Counts the lines into which items of the given widths are wrapped.
pub fn count_lines(widths: &Vec<usize>, separator_width: usize, max_width: usize) -> (count: usize)
    ensures
        count == wrapped(widths@, own_width(), separator_width as nat, max_width as nat).len(),
        count <= widths@.len(),
{
    let ghost sep = separator_width as nat;
    let ghost max = max_width as nat;
    let mut count: usize = 0;
    let mut current_width: usize = 0;
    let mut i: usize = 0;
    while i < widths.len()
        invariant
            i <= widths@.len(),
            sep == separator_width as nat,
            max == max_width as nat,
            count <= i,
            count == wrapped(widths@.take(i as int), own_width(), sep, max).len(),
            i > 0 ==> count > 0 && current_width as nat == line_width(
                wrapped(widths@.take(i as int), own_width(), sep, max).last(),
                own_width(),
                sep,
            ),
        decreases widths@.len() - i,
    {
        let width = widths[i];
        let ghost before = wrapped(widths@.take(i as int), own_width(), sep, max);
        proof {
            assert(widths@.take(i + 1).drop_last() =~= widths@.take(i as int));
            assert(widths@.take(i + 1).last() == width);
        }
        let fits = i > 0 && width <= max_width && separator_width <= max_width - width
            && current_width <= max_width - width - separator_width;
        if i == 0 {
            count = 1;
            current_width = width;
        } else if fits {
            current_width = current_width + separator_width + width;
            proof {
                assert(before.last().push(width).drop_last() =~= before.last());
            }
        } else {
            count = count + 1;
            current_width = width;
        }
        i += 1;
    }
    proof {
        assert(widths@.take(widths@.len() as int) =~= widths@);
    }
    count
}

} // verus!
