//! The folder listing as a text table with the columns DELIM, NAME and DESC.

use crate::folder::Folder;
use crate::text::{clip, clipped, pad_right, padded};
use vstd::prelude::*;

verus! {

/// Heading of a column; the columns are numbered 0, 1 and 2.
pub open spec fn head(column: int) -> Seq<char> {
    if column == 0 {
        "DELIM"@
    } else if column == 1 {
        "NAME"@
    } else {
        "DESC"@
    }
}

/// What a folder shows in a column.
pub open spec fn cell(folder: Folder, column: int) -> Seq<char> {
    if column == 0 {
        folder.delim@
    } else if column == 1 {
        folder.name@
    } else {
        folder.desc@
    }
}

/// Width of a column: the length of its widest entry, heading included.
pub open spec fn column_width(folders: Seq<Folder>, column: int) -> nat
    decreases folders.len(),
{
    if folders.len() == 0 {
        head(column).len()
    } else {
        let rest = column_width(folders.drop_last(), column);
        let last = cell(folders.last(), column).len();
        if last > rest {
            last
        } else {
            rest
        }
    }
}

/// One line of the table before clipping: each entry padded to the width of
/// its column and followed by a blank, the columns joined by a bar.
pub open spec fn line(
    first: Seq<char>,
    second: Seq<char>,
    third: Seq<char>,
    widths: (nat, nat, nat),
) -> Seq<char> {
    padded(first, widths.0) + seq![' ', '│'] + padded(second, widths.1) + seq![' ', '│'] + padded(
        third,
        widths.2,
    ) + seq![' ']
}

/// The lines of the folders, each clipped to the limit and ended by a line
/// feed.
pub open spec fn rows(folders: Seq<Folder>, widths: (nat, nat, nat), limit: Option<usize>) -> Seq<
    char,
>
    decreases folders.len(),
{
    if folders.len() == 0 {
        Seq::empty()
    } else {
        let last = folders.last();
        rows(folders.drop_last(), widths, limit) + clipped(
            line(last.delim@, last.name@, last.desc@, widths),
            limit,
        ) + seq!['\n']
    }
}

/// The widths of the three columns.
pub open spec fn widths(folders: Seq<Folder>) -> (nat, nat, nat) {
    (column_width(folders, 0), column_width(folders, 1), column_width(folders, 2))
}

/// The whole table: an empty line, the heading, one line per folder in the
/// order given, and an empty line.
pub open spec fn table(folders: Seq<Folder>, limit: Option<usize>) -> Seq<char> {
    seq!['\n'] + clipped(line(head(0), head(1), head(2), widths(folders)), limit) + seq!['\n']
        + rows(folders, widths(folders), limit) + seq!['\n']
}

/// A column is as wide as its widest entry: no entry and no heading is
/// longer, and one of them has exactly that length.
pub proof fn column_width_is_widest(folders: Seq<Folder>, column: int)
    ensures
        head(column).len() <= column_width(folders, column),
        forall|i: int|
            0 <= i < folders.len() ==> cell(#[trigger] folders[i], column).len() <= column_width(
                folders,
                column,
            ),
        column_width(folders, column) == head(column).len() || exists|i: int|
            0 <= i < folders.len() && cell(#[trigger] folders[i], column).len() == column_width(
                folders,
                column,
            ),
    decreases folders.len(),
{
    if folders.len() > 0 {
        let front = folders.drop_last();
        column_width_is_widest(front, column);
        assert forall|i: int| 0 <= i < folders.len() implies cell(
            #[trigger] folders[i],
            column,
        ).len() <= column_width(folders, column) by {
            if i < front.len() {
                assert(front[i] == folders[i]);
            }
        }
        if column_width(folders, column) != head(column).len() {
            if column_width(folders, column) == cell(folders.last(), column).len() {
                assert(folders[folders.len() - 1] == folders.last());
            } else {
                let i = choose|i: int|
                    0 <= i < front.len() && cell(#[trigger] front[i], column).len()
                        == column_width(front, column);
                assert(front[i] == folders[i]);
            }
        }
    }
}

fn wider(width: usize, entry: &str) -> (out: usize)
    ensures
        out == if entry@.len() > width {
            entry@.len()
        } else {
            width as nat
        },
{
    let len = entry.unicode_len();
    if len > width {
        len
    } else {
        width
    }
}

/// Measures the three columns.
pub fn column_widths(folders: &Vec<Folder>) -> (out: (usize, usize, usize))
    ensures
        (out.0 as nat, out.1 as nat, out.2 as nat) == widths(folders@),
{
    let mut w0 = "DELIM".unicode_len();
    let mut w1 = "NAME".unicode_len();
    let mut w2 = "DESC".unicode_len();
    let mut i: usize = 0;
    assert(folders@.take(0).len() == 0);
    while i < folders.len()
        invariant
            i <= folders.len(),
            w0 == column_width(folders@.take(i as int), 0),
            w1 == column_width(folders@.take(i as int), 1),
            w2 == column_width(folders@.take(i as int), 2),
        decreases folders.len() - i,
    {
        let ghost next = folders@.take(i as int + 1);
        assert(next.drop_last() =~= folders@.take(i as int));
        assert(next.last() == folders@[i as int]);
        w0 = wider(w0, folders[i].delim.as_str());
        w1 = wider(w1, folders[i].name.as_str());
        w2 = wider(w2, folders[i].desc.as_str());
        i = i + 1;
    }
    assert(folders@.take(i as int) =~= folders@);
    (w0, w1, w2)
}

/// Renders one line, clipped to the limit and ended by a line feed.
pub fn render_line(
    first: &str,
    second: &str,
    third: &str,
    widths: (usize, usize, usize),
    limit: Option<usize>,
) -> (out: String)
    ensures
        out@ == clipped(
            line(first@, second@, third@, (widths.0 as nat, widths.1 as nat, widths.2 as nat)),
            limit,
        ) + seq!['\n'],
{
    proof {
        reveal_strlit(" │");
        reveal_strlit(" ");
        reveal_strlit("\n");
    }
    let mut whole = pad_right(first, widths.0);
    whole.append(" │");
    whole.append(pad_right(second, widths.1).as_str());
    whole.append(" │");
    whole.append(pad_right(third, widths.2).as_str());
    whole.append(" ");
    assert(" │"@ =~= seq![' ', '│']);
    assert(" "@ =~= seq![' ']);
    assert(whole@ =~= line(
        first@,
        second@,
        third@,
        (widths.0 as nat, widths.1 as nat, widths.2 as nat),
    ));
    let mut out = clip(whole.as_str(), limit);
    out.append("\n");
    assert("\n"@ =~= seq!['\n']);
    out
}

/// Renders the folder table.
///
/// With a limit, no line of the table is longer than the limit, the line
/// feed not counted.
pub fn render_table(folders: &Vec<Folder>, limit: Option<usize>) -> (out: String)
    ensures
        out@ == table(folders@, limit),
{
    proof {
        reveal_strlit("\n");
    }
    assert("\n"@ =~= seq!['\n']);
    let w = column_widths(folders);
    let ghost wn = widths(folders@);
    let mut out = String::from_str("\n");
    out.append(render_line("DELIM", "NAME", "DESC", w, limit).as_str());
    let ghost top = out@;
    let mut i: usize = 0;
    assert(folders@.take(0).len() == 0);
    while i < folders.len()
        invariant
            i <= folders.len(),
            wn == (w.0 as nat, w.1 as nat, w.2 as nat),
            out@ == top + rows(folders@.take(i as int), wn, limit),
        decreases folders.len() - i,
    {
        let ghost next = folders@.take(i as int + 1);
        assert(next.drop_last() =~= folders@.take(i as int));
        assert(next.last() == folders@[i as int]);
        let folder = &folders[i];
        out.append(
            render_line(
                folder.delim.as_str(),
                folder.name.as_str(),
                folder.desc.as_str(),
                w,
                limit,
            ).as_str(),
        );
        assert(out@ =~= top + rows(next, wn, limit));
        i = i + 1;
    }
    assert(folders@.take(i as int) =~= folders@);
    out.append("\n");
    assert(out@ =~= table(folders@, limit));
    out
}

} // verus!
