use vstd::prelude::*;
use vstd::string::{StrSliceExecFns, StringExecFns};

verus! {

/// The display width of a cell: its character count.
pub fn display_width(value: &str) -> (r: usize)
    ensures
        r == value@.len(),
{
    value.unicode_len()
}

/// `n` copies of the character `c`; empty when `n` is not positive.
pub open spec fn spec_repeat(c: char, n: int) -> Seq<char>
    decreases n,
{
    if n <= 0 {
        Seq::empty()
    } else {
        spec_repeat(c, n - 1).push(c)
    }
}

/// Append `n` copies of the one-character string `piece` to `out`.
fn append_run(out: &mut String, piece: &str, n: usize)
    requires
        piece@.len() == 1,
    ensures
        final(out)@ == old(out)@ + spec_repeat(piece@[0], n as int),
{
    let mut k: usize = 0;
    while k < n
        invariant
            0 <= k <= n,
            piece@.len() == 1,
            out@ == old(out)@ + spec_repeat(piece@[0], k as int),
        decreases n - k,
    {
        out.append(piece);
        proof {
            assert(piece@ =~= seq![piece@[0]]);
            assert(old(out)@ + spec_repeat(piece@[0], k as int + 1) =~= (old(out)@ + spec_repeat(
                piece@[0],
                k as int,
            )) + piece@);
        }
        k += 1;
    }
    proof {
        assert(out@ =~= old(out)@ + spec_repeat(piece@[0], n as int));
    }
}

/// The cell at column `i`, or an empty cell past the row's end.
pub open spec fn spec_cell(row: Seq<Seq<char>>, i: int) -> Seq<char> {
    if 0 <= i < row.len() {
        row[i]
    } else {
        Seq::empty()
    }
}

/// A cell padded with spaces to `width`; a wider cell stays as it is.
pub open spec fn spec_padded_cell(cell: Seq<char>, width: int) -> Seq<char> {
    cell + spec_repeat(' ', width - cell.len())
}

/// The first `k` columns of one rendered row, columns separated by two
/// spaces, each padded to its width.
pub open spec fn spec_row_upto(row: Seq<Seq<char>>, widths: Seq<usize>, k: int) -> Seq<char>
    decreases k,
{
    if k <= 0 {
        Seq::empty()
    } else if k == 1 {
        spec_padded_cell(spec_cell(row, 0), widths[0] as int)
    } else {
        spec_row_upto(row, widths, k - 1) + "  "@ + spec_padded_cell(
            spec_cell(row, k - 1),
            widths[k - 1] as int,
        )
    }
}

/// One rendered row over all column widths.
pub open spec fn spec_row_text(row: Seq<Seq<char>>, widths: Seq<usize>) -> Seq<char> {
    spec_row_upto(row, widths, widths.len() as int)
}

/// The views of a slice of owned cells.
pub open spec fn cells_view(row: Seq<String>) -> Seq<Seq<char>> {
    row.map_values(|s: String| s@)
}

/// Render one row: every column, padded to its width, separated by two
/// spaces; missing cells render empty.
pub fn render_row(row: &[String], widths: &[usize]) -> (r: String)
    ensures
        r@ == spec_row_text(cells_view(row@), widths@),
{
    proof {
        reveal_strlit("  ");
        reveal_strlit(" ");
        assert("  "@.len() == 2);
        assert(" "@.len() == 1);
    }
    let n: usize = widths.len();
    let mut out = String::new();
    let mut i: usize = 0;
    while i < n
        invariant
            0 <= i <= n,
            n == widths@.len(),
            out@ == spec_row_upto(cells_view(row@), widths@, i as int),
        decreases n - i,
    {
        proof {
            reveal_strlit("  ");
            reveal_strlit(" ");
            assert("  "@.len() == 2);
            assert(" "@.len() == 1);
        }
        if i > 0 {
            out.append("  ");
        }
        let width: usize = widths[i];
        if i < row.len() {
            let cell: &str = row[i].as_str();
            out.append(cell);
            append_run(&mut out, " ", width.saturating_sub(display_width(cell)));
        } else {
            append_run(&mut out, " ", width);
        }
        proof {
            let cv = cells_view(row@);
            if i < row@.len() {
                assert(spec_cell(cv, i as int) == row@[i as int]@);
            } else {
                assert(spec_cell(cv, i as int) =~= Seq::<char>::empty());
                assert(spec_cell(cv, i as int) + spec_repeat(' ', width as int) =~= spec_repeat(
                    ' ',
                    width as int,
                ));
            }
            assert(out@ =~= spec_row_upto(cv, widths@, i as int + 1));
        }
        i += 1;
    }
    out
}

/// The length of the cell at column `i` of a row, zero past its end.
pub open spec fn spec_cell_len(row: Seq<Seq<char>>, i: int) -> int {
    spec_cell(row, i).len() as int
}

/// The widest cell in column `i` among the first `k` rows.
pub open spec fn spec_rows_width(rows: Seq<Seq<Seq<char>>>, i: int, k: int) -> int
    decreases k,
{
    if k <= 0 {
        0
    } else {
        let prev = spec_rows_width(rows, i, k - 1);
        let cur = spec_cell_len(rows[k - 1], i);
        if cur > prev {
            cur
        } else {
            prev
        }
    }
}

/// The final width of column `i`: its header's width, raised to the
/// widest cell in the column.
pub open spec fn spec_col_width(
    headers: Seq<Seq<char>>,
    rows: Seq<Seq<Seq<char>>>,
    i: int,
) -> int {
    let h = headers[i].len() as int;
    let c = spec_rows_width(rows, i, rows.len() as int);
    if c > h {
        c
    } else {
        h
    }
}

/// The first `k` body rows rendered, each preceded by a newline.
pub open spec fn spec_body_upto(
    rows: Seq<Seq<Seq<char>>>,
    widths: Seq<usize>,
    k: int,
) -> Seq<char>
    decreases k,
{
    if k <= 0 {
        Seq::empty()
    } else {
        spec_body_upto(rows, widths, k - 1) + "\n"@ + spec_row_text(rows[k - 1], widths)
    }
}

/// The first `k` columns of the separator line: dashes as wide as each
/// column, separated by two spaces.
pub open spec fn spec_sep_upto(widths: Seq<usize>, k: int) -> Seq<char>
    decreases k,
{
    if k <= 0 {
        Seq::empty()
    } else if k == 1 {
        spec_repeat('-', widths[0] as int)
    } else {
        spec_sep_upto(widths, k - 1) + "  "@ + spec_repeat('-', widths[k - 1] as int)
    }
}

/// The views of the header texts.
pub open spec fn headers_view(hs: Seq<&str>) -> Seq<Seq<char>> {
    hs.map_values(|h: &str| h@)
}

/// The views of the rows of owned cells.
pub open spec fn rows_view(rows: Seq<Vec<String>>) -> Seq<Seq<Seq<char>>> {
    rows.map_values(|row: Vec<String>| cells_view(row@))
}

/// The whole rendered table: the header row, the separator line, then
/// the body rows — or the fixed no-results line when there are none —
/// each on its own line, with a trailing newline.
pub open spec fn spec_table_text(
    headers: Seq<Seq<char>>,
    rows: Seq<Seq<Seq<char>>>,
    widths: Seq<usize>,
) -> Seq<char> {
    let head = spec_row_text(headers, widths) + "\n"@ + spec_sep_upto(
        widths,
        widths.len() as int,
    );
    let body = if rows.len() == 0 {
        "\n"@ + "No results."@
    } else {
        spec_body_upto(rows, widths, rows.len() as int)
    };
    head + body + "\n"@
}

/// The final column widths of the table, one per header.
pub open spec fn spec_widths(headers: Seq<Seq<char>>, rows: Seq<Seq<Seq<char>>>) -> Seq<usize> {
    Seq::new(headers.len(), |i: int| spec_col_width(headers, rows, i) as usize)
}

/// Render a table of rows under the given headers: columns as wide as
/// their widest entry, a dash separator, and a fixed no-results line
/// for an empty table.
pub fn render_table(headers: &[&str], rows: &[Vec<String>]) -> (r: String)
    ensures
        r@ == spec_table_text(
            headers_view(headers@),
            rows_view(rows@),
            spec_widths(headers_view(headers@), rows_view(rows@)),
        ),
{
    proof {
        reveal_strlit("\n");
        reveal_strlit("-");
        reveal_strlit("  ");
        assert("\n"@.len() == 1);
        assert("-"@.len() == 1);
        assert("  "@.len() == 2);
    }
    let ghost hviews = headers_view(headers@);
    let ghost rviews = rows_view(rows@);
    let hn: usize = headers.len();
    let mut widths: Vec<usize> = Vec::new();
    let mut i: usize = 0;
    while i < hn
        invariant
            0 <= i <= hn,
            hn == headers@.len(),
            hviews == headers_view(headers@),
            widths@.len() == i,
            forall|j: int|
                0 <= j < i ==> #[trigger] widths@[j] as int == hviews[j].len(),
        decreases hn - i,
    {
        widths.push(display_width(headers[i]));
        i += 1;
    }
    let rn: usize = rows.len();
    let mut k: usize = 0;
    while k < rn
        invariant
            0 <= k <= rn,
            rn == rows@.len(),
            hn == headers@.len(),
            hviews == headers_view(headers@),
            rviews == rows_view(rows@),
            rviews.len() == rn,
            widths@.len() == hn,
            forall|j: int|
                0 <= j < hn ==> #[trigger] widths@[j] as int == spec_col_width_upto(
                    hviews,
                    rviews,
                    j,
                    k as int,
                ),
        decreases rn - k,
    {
        let cn: usize = if rows[k].len() < hn {
            rows[k].len()
        } else {
            hn
        };
        let mut j: usize = 0;
        while j < cn
            invariant
                0 <= j <= cn,
                cn <= hn,
                k < rn,
                rn == rows@.len(),
                hn == headers@.len(),
                cn <= rows@[k as int]@.len(),
                hviews == headers_view(headers@),
                rviews == rows_view(rows@),
                rviews.len() == rn,
                widths@.len() == hn,
                forall|j2: int|
                    0 <= j2 < j ==> #[trigger] widths@[j2] as int == spec_col_width_upto(
                        hviews,
                        rviews,
                        j2,
                        k as int + 1,
                    ),
                forall|j2: int|
                    j <= j2 < hn ==> #[trigger] widths@[j2] as int == spec_col_width_upto(
                        hviews,
                        rviews,
                        j2,
                        k as int,
                    ),
            decreases cn - j,
        {
            let w = display_width(rows[k][j].as_str());
            proof {
                assert(rviews[k as int] == cells_view(rows@[k as int]@));
                assert(spec_cell(rviews[k as int], j as int) == rows@[k as int]@[j as int]@);
            }
            if w > widths[j] {
                widths[j] = w;
            }
            j += 1;
        }
        proof {
            assert forall|j2: int| cn <= j2 < hn implies spec_col_width_upto(
                hviews,
                rviews,
                j2,
                k as int + 1,
            ) == spec_col_width_upto(hviews, rviews, j2, k as int) by {
                assert(spec_cell(rviews[k as int], j2) =~= Seq::<char>::empty());
            }
        }
        k += 1;
    }
    proof {
        assert forall|j: int| 0 <= j < hn implies #[trigger] widths@[j] as int == spec_col_width(
            hviews,
            rviews,
            j,
        ) by {
        }
        assert(widths@ =~= spec_widths(hviews, rviews));
    }
    let mut header_cells: Vec<String> = Vec::new();
    let mut i2: usize = 0;
    while i2 < hn
        invariant
            0 <= i2 <= hn,
            hn == headers@.len(),
            hviews == headers_view(headers@),
            header_cells@.len() == i2,
            forall|j: int| 0 <= j < i2 ==> #[trigger] header_cells@[j]@ == hviews[j],
        decreases hn - i2,
    {
        header_cells.push(headers[i2].to_owned());
        i2 += 1;
    }
    proof {
        assert(cells_view(header_cells@) =~= hviews);
    }
    let mut out = render_row(&header_cells, &widths);
    out.append("\n");
    let wn: usize = widths.len();
    let mut s: usize = 0;
    while s < wn
        invariant
            0 <= s <= wn,
            wn == widths@.len(),
            out@ == spec_row_text(hviews, widths@) + "\n"@ + spec_sep_upto(widths@, s as int),
        decreases wn - s,
    {
        proof {
            reveal_strlit("-");
            reveal_strlit("  ");
            assert("-"@.len() == 1);
            assert("  "@.len() == 2);
        }
        if s > 0 {
            out.append("  ");
        }
        append_run(&mut out, "-", widths[s]);
        proof {
            reveal_strlit("  ");
            assert(out@ =~= spec_row_text(hviews, widths@) + "\n"@ + spec_sep_upto(
                widths@,
                s as int + 1,
            ));
        }
        s += 1;
    }
    let ghost head = spec_row_text(hviews, widths@) + "\n"@ + spec_sep_upto(
        widths@,
        widths@.len() as int,
    );
    if rn == 0 {
        out.append("\n");
        out.append("No results.");
        out.append("\n");
        proof {
            assert(out@ =~= spec_table_text(hviews, rviews, widths@));
        }
        return out;
    }
    let mut b: usize = 0;
    while b < rn
        invariant
            0 <= b <= rn,
            rn == rows@.len(),
            rn > 0,
            rviews == rows_view(rows@),
            rviews.len() == rn,
            head == spec_row_text(hviews, widths@) + "\n"@ + spec_sep_upto(
                widths@,
                widths@.len() as int,
            ),
            out@ == head + spec_body_upto(rviews, widths@, b as int),
        decreases rn - b,
    {
        out.append("\n");
        let line = render_row(&rows[b], &widths);
        out.append(line.as_str());
        proof {
            assert(rviews[b as int] == cells_view(rows@[b as int]@));
            assert(out@ =~= head + spec_body_upto(rviews, widths@, b as int + 1));
        }
        b += 1;
    }
    out.append("\n");
    proof {
        assert(out@ =~= spec_table_text(hviews, rviews, widths@));
    }
    out
}

/// The width of column `i` after the first `k` rows have been folded
/// into the header widths.
pub open spec fn spec_col_width_upto(
    headers: Seq<Seq<char>>,
    rows: Seq<Seq<Seq<char>>>,
    i: int,
    k: int,
) -> int {
    let h = headers[i].len() as int;
    let c = spec_rows_width(rows, i, k);
    if c > h {
        c
    } else {
        h
    }
}

} // verus!
