use vstd::prelude::*;

verus! {

/// First visible row of a viewport of `height` rows over `total` items,
/// keeping `cursor` as close to the middle as the ends allow.
pub open spec fn window_start(total: int, cursor: int, height: int) -> int {
    let half = height / 2;
    if cursor <= half {
        0
    } else if cursor + half >= total {
        if total >= height { total - height } else { 0 }
    } else {
        cursor - half
    }
}

/// One past the last visible row.
pub open spec fn window_end(total: int, cursor: int, height: int) -> int {
    let s = window_start(total, cursor, height);
    if s + height <= total { s + height } else { total }
}

/// The visible range `(start, end)` of a list of `total` items shown in
/// `height` rows, with the cursor centred where possible.
pub fn window(total: usize, cursor: usize, height: usize) -> (r: (usize, usize))
    ensures
        r.0 as int == window_start(total as int, cursor as int, height as int),
        r.1 as int == window_end(total as int, cursor as int, height as int),
        r.0 <= r.1 <= total,
        cursor < total && height >= 1 ==> r.0 <= cursor < r.1,
        r.1 - r.0 == if height <= total { height } else { total },
{
    let half = height / 2;
    let start: usize = if cursor <= half {
        0
    } else if cursor >= total || total - cursor <= half {
        if total >= height { total - height } else { 0 }
    } else {
        cursor - half
    };
    let end: usize = if start <= total && total - start >= height { start + height } else { total };
    (start, end)
}

/// The entry shown on screen row `row` of the viewport, if that row holds one.
pub fn row_to_index(total: usize, cursor: usize, height: usize, row: usize) -> (r: Option<usize>)
    ensures
        r == (if window_start(total as int, cursor as int, height as int) + row < window_end(
            total as int,
            cursor as int,
            height as int,
        ) {
            Some((window_start(total as int, cursor as int, height as int) + row) as usize)
        } else {
            None::<usize>
        }),
{
    let (start, end) = window(total, cursor, height);
    if row < end - start {
        Some(start + row)
    } else {
        None
    }
}

/// For every cursor inside a non-empty list and every height of at least
/// one row, the window holds the cursor and is exactly as tall as the
/// screen or the list, whichever is shorter.
pub proof fn window_holds_cursor(total: nat, cursor: nat, height: nat)
    requires
        cursor < total,
        height >= 1,
    ensures
        window_start(total as int, cursor as int, height as int) <= cursor < window_end(
            total as int,
            cursor as int,
            height as int,
        ),
        window_end(total as int, cursor as int, height as int) - window_start(
            total as int,
            cursor as int,
            height as int,
        ) == if height <= total { height } else { total },
        0 <= window_start(total as int, cursor as int, height as int),
{
}

} // verus!
