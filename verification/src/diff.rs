//! Line-diff support: a dynamic-programming table of longest-common-
//! subsequence lengths over two sequences of text lines, and the walk that
//! turns a filled table into a tagged diff.  The surrounding program reads
//! the files and prints the tagged lines; everything here is pure
//! computation.

use vstd::prelude::*;

use crate::text::str_eq;

verus! {

/// A rectangular table of counters.
pub struct Grid {
    rows: Vec<Vec<usize>>,
    num_rows: usize,
    num_cols: usize,
}

impl Grid {
    /// The table contents, row by row.
    pub closed spec fn spec_rows(self) -> Seq<Seq<usize>> {
        self.rows@.map_values(|row: Vec<usize>| row@)
    }

    /// Number of rows.
    pub closed spec fn spec_num_rows(self) -> usize {
        self.num_rows
    }

    /// Number of columns.
    pub closed spec fn spec_num_cols(self) -> usize {
        self.num_cols
    }

    /// The storage really is rectangular, of the declared size.
    pub open spec fn wf(self) -> bool {
        &&& self.spec_rows().len() == self.spec_num_rows()
        &&& forall|r: int|
            0 <= r < self.spec_rows().len() ==> (#[trigger] self.spec_rows()[r]).len()
                == self.spec_num_cols()
    }

    /// The value at row `r`, column `c`.
    pub open spec fn spec_get(self, r: int, c: int) -> usize {
        self.spec_rows()[r][c]
    }

    /// A fresh table of the given size, all zeroes.
    pub fn new(num_rows: usize, num_cols: usize) -> (grid: Grid)
        ensures
            grid.wf(),
            grid.spec_num_rows() == num_rows,
            grid.spec_num_cols() == num_cols,
            forall|r: int, c: int|
                0 <= r < num_rows && 0 <= c < num_cols ==> grid.spec_get(r, c) == 0,
    {
        let mut rows: Vec<Vec<usize>> = Vec::new();
        let mut r: usize = 0;
        while r < num_rows
            invariant
                r <= num_rows,
                rows@.len() == r,
                forall|k: int| 0 <= k < r ==> (#[trigger] rows@[k])@.len() == num_cols,
                forall|k: int, c: int| 0 <= k < r && 0 <= c < num_cols ==> rows@[k]@[c] == 0,
            decreases num_rows - r,
        {
            let mut row: Vec<usize> = Vec::new();
            let mut c: usize = 0;
            while c < num_cols
                invariant
                    c <= num_cols,
                    row@.len() == c,
                    forall|k: int| 0 <= k < c ==> row@[k] == 0,
                decreases num_cols - c,
            {
                row.push(0);
                c += 1;
            }
            rows.push(row);
            r += 1;
        }
        let grid = Grid { rows, num_rows, num_cols };
        proof {
            assert(forall|k: int|
                0 <= k < num_rows ==> (#[trigger] grid.spec_rows()[k]) == grid.rows@[k]@);
        }
        grid
    }

    /// The table size, rows first.
    pub fn size(&self) -> (size: (usize, usize))
        ensures
            size.0 == self.spec_num_rows(),
            size.1 == self.spec_num_cols(),
    {
        (self.num_rows, self.num_cols)
    }

    /// The value at `(row, col)`, or `None` outside the table.
    pub fn get(&self, row: usize, col: usize) -> (value: Option<usize>)
        requires
            self.wf(),
        ensures
            value is Some <==> row < self.spec_num_rows() && col < self.spec_num_cols(),
            value matches Some(v) ==> v == self.spec_get(row as int, col as int),
    {
        if row < self.num_rows && col < self.num_cols {
            proof {
                assert(self.spec_rows()[row as int] == self.rows@[row as int]@);
            }
            Some(self.rows[row][col])
        } else {
            None
        }
    }

    /// The value at `(row, col)`, which must be inside the table.
    pub fn at(&self, row: usize, col: usize) -> (value: usize)
        requires
            self.wf(),
            row < self.spec_num_rows(),
            col < self.spec_num_cols(),
        ensures
            value == self.spec_get(row as int, col as int),
    {
        proof {
            assert(self.spec_rows()[row as int] == self.rows@[row as int]@);
        }
        self.rows[row][col]
    }

    /// Store `value` at `(row, col)`; fails outside the table, changing
    /// nothing.
    pub fn set(&mut self, row: usize, col: usize, value: usize) -> (result: Result<(), ()>)
        requires
            old(self).wf(),
        ensures
            final(self).wf(),
            result is Ok <==> row < old(self).spec_num_rows() && col < old(self).spec_num_cols(),
            final(self).spec_num_rows() == old(self).spec_num_rows(),
            final(self).spec_num_cols() == old(self).spec_num_cols(),
            result is Ok ==> final(self).spec_rows() == old(self).spec_rows().update(
                row as int,
                old(self).spec_rows()[row as int].update(col as int, value),
            ),
            result is Err ==> *final(self) == *old(self),
    {
        if row < self.num_rows && col < self.num_cols {
            proof {
                assert(self.spec_rows()[row as int] == self.rows@[row as int]@);
            }
            self.rows[row][col] = value;
            proof {
                assert(self.spec_rows() =~= old(self).spec_rows().update(
                    row as int,
                    old(self).spec_rows()[row as int].update(col as int, value),
                ));
            }
            Ok(())
        } else {
            Err(())
        }
    }
}

/// The views of a sequence of owned strings.
pub open spec fn views_of(lines: Seq<String>) -> Seq<Seq<char>> {
    lines.map_values(|s: String| s@)
}

/// Length of the longest common subsequence of the first `i` lines of `a`
/// and the first `j` lines of `b`.
pub open spec fn spec_lcs(a: Seq<Seq<char>>, b: Seq<Seq<char>>, i: int, j: int) -> nat
    decreases i + j,
{
    if i <= 0 || j <= 0 {
        0
    } else if a[i - 1] == b[j - 1] {
        spec_lcs(a, b, i - 1, j - 1) + 1
    } else {
        let up = spec_lcs(a, b, i - 1, j);
        let left = spec_lcs(a, b, i, j - 1);
        if up >= left {
            up
        } else {
            left
        }
    }
}

/// A common subsequence of prefixes is never longer than either prefix.
proof fn lemma_lcs_bounded(a: Seq<Seq<char>>, b: Seq<Seq<char>>, i: int, j: int)
    ensures
        spec_lcs(a, b, i, j) <= i || i < 0,
        spec_lcs(a, b, i, j) <= j || j < 0,
    decreases i + j,
{
    if i <= 0 || j <= 0 {
    } else {
        lemma_lcs_bounded(a, b, i - 1, j - 1);
        lemma_lcs_bounded(a, b, i - 1, j);
        lemma_lcs_bounded(a, b, i, j - 1);
    }
}

/// The grid holds the full longest-common-subsequence table of the two
/// line sequences.
pub open spec fn is_lcs_table(table: Grid, a: Seq<Seq<char>>, b: Seq<Seq<char>>) -> bool {
    &&& table.wf()
    &&& table.spec_num_rows() == a.len() + 1
    &&& table.spec_num_cols() == b.len() + 1
    &&& forall|i: int, j: int|
        0 <= i <= a.len() && 0 <= j <= b.len() ==> #[trigger] table.spec_get(i, j) == spec_lcs(
            a,
            b,
            i,
            j,
        )
}

/// Fill the longest-common-subsequence table for two sequences of lines:
/// cell `(i, j)` holds the length of the longest common subsequence of the
/// first `i` lines of `seq1` and the first `j` lines of `seq2`.
pub fn lcs(seq1: &Vec<String>, seq2: &Vec<String>) -> (table: Grid)
    requires
        seq1@.len() >= 1,
        seq2@.len() >= 1,
        (seq1@.len() + 1) * (seq2@.len() + 1) <= usize::MAX,
    ensures
        is_lcs_table(table, views_of(seq1@), views_of(seq2@)),
{
    let ghost a = views_of(seq1@);
    let ghost b = views_of(seq2@);
    let len1 = seq1.len();
    let len2 = seq2.len();
    proof {
        assert((len1 + 1) <= usize::MAX && (len2 + 1) <= usize::MAX) by (nonlinear_arith)
            requires
                ((len1 as int) + 1) * ((len2 as int) + 1) <= usize::MAX as int,
                len1 >= 1,
                len2 >= 1,
        ;
    }
    let mut table = Grid::new(len1 + 1, len2 + 1);
    let mut i: usize = 0;
    while i < len1
        invariant
            len1 == seq1@.len(),
            len2 == seq2@.len(),
            a == views_of(seq1@),
            b == views_of(seq2@),
            i <= len1,
            table.wf(),
            table.spec_num_rows() == len1 + 1,
            table.spec_num_cols() == len2 + 1,
            forall|r: int, c: int|
                0 <= r <= i && 0 <= c <= len2 ==> #[trigger] table.spec_get(r, c) == spec_lcs(
                    a,
                    b,
                    r,
                    c,
                ),
            forall|r: int, c: int|
                i < r <= len1 && 0 <= c <= len2 ==> #[trigger] table.spec_get(r, c) == 0,
        decreases len1 - i,
    {
        let mut j: usize = 0;
        while j < len2
            invariant
                len1 == seq1@.len(),
                len2 == seq2@.len(),
                a == views_of(seq1@),
                b == views_of(seq2@),
                i < len1,
                j <= len2,
                table.wf(),
                table.spec_num_rows() == len1 + 1,
                table.spec_num_cols() == len2 + 1,
                forall|r: int, c: int|
                    0 <= r <= i && 0 <= c <= len2 ==> #[trigger] table.spec_get(r, c) == spec_lcs(
                        a,
                        b,
                        r,
                        c,
                    ),
                forall|c: int|
                    0 <= c <= j ==> #[trigger] table.spec_get(i + 1, c) == spec_lcs(
                        a,
                        b,
                        i + 1,
                        c,
                    ),
                forall|c: int| j < c <= len2 ==> #[trigger] table.spec_get(i + 1, c) == 0,
                forall|r: int, c: int|
                    i + 1 < r <= len1 && 0 <= c <= len2 ==> #[trigger] table.spec_get(r, c) == 0,
            decreases len2 - j,
        {
            proof {
                assert(a[i as int] == seq1@[i as int]@);
                assert(b[j as int] == seq2@[j as int]@);
            }
            let value: usize;
            if str_eq(seq1[i].as_str(), seq2[j].as_str()) {
                proof {
                    lemma_lcs_bounded(a, b, i as int, j as int);
                }
                value = 1 + table.at(i, j);
            } else {
                let up = table.at(i, j + 1);
                let left = table.at(i + 1, j);
                value = if up >= left {
                    up
                } else {
                    left
                };
            }
            let ghost tpre = table;
            let _ = table.set(i + 1, j + 1, value);
            proof {
                assert(forall|r: int, c: int|
                    0 <= r <= len1 && r != i + 1 && 0 <= c <= len2 ==> #[trigger] table.spec_get(
                        r,
                        c,
                    ) == tpre.spec_get(r, c));
                assert(forall|c: int|
                    0 <= c <= len2 && c != j + 1 ==> #[trigger] table.spec_get(i + 1, c)
                        == tpre.spec_get(i + 1, c));
                assert(table.spec_get(i + 1, j + 1) == value);
                assert(spec_lcs(a, b, i + 1, j + 1) == value);
            }
            j += 1;
        }
        i += 1;
    }
    table
}

/// One line of a computed diff.
#[derive(PartialEq, Eq, Debug)]
pub enum DiffLine {
    /// The line is common to both inputs.
    Shared(String),
    /// The line is only in the second input.
    Added(String),
    /// The line is only in the first input.
    Removed(String),
    /// The blank line that ends the walk.
    Blank,
}

/// The kind of a diff line, for stating what the walk produces.
#[derive(PartialEq, Eq, Structural, Clone, Copy, Debug)]
pub enum DiffKind {
    Shared,
    Added,
    Removed,
    Blank,
}

/// The tagged lines that the table walk produces for the first `i` lines
/// of `a` against the first `j` lines of `b`, in output order.  (Negative
/// prefixes produce nothing; the walk itself never reaches them.)
pub open spec fn spec_diff(a: Seq<Seq<char>>, b: Seq<Seq<char>>, i: int, j: int) -> Seq<
    (DiffKind, Seq<char>),
>
    decreases i + j,
{
    if i < 0 || j < 0 {
        Seq::empty()
    } else if i > 0 && j > 0 && a[i - 1] == b[j - 1] {
        spec_diff(a, b, i - 1, j - 1).push((DiffKind::Shared, a[i - 1]))
    } else if j > 0 && (i == 0 || spec_lcs(a, b, i, j - 1) > spec_lcs(a, b, i - 1, j)) {
        spec_diff(a, b, i, j - 1).push((DiffKind::Added, b[j - 1]))
    } else if i > 0 && (j == 0 || spec_lcs(a, b, i, j - 1) <= spec_lcs(a, b, i - 1, j)) {
        spec_diff(a, b, i - 1, j).push((DiffKind::Removed, a[i - 1]))
    } else {
        seq![(DiffKind::Blank, Seq::<char>::empty())]
    }
}

/// The diff line carries this kind and text.
pub open spec fn line_matches(line: DiffLine, entry: (DiffKind, Seq<char>)) -> bool {
    match line {
        DiffLine::Shared(s) => entry.0 == DiffKind::Shared && s@ == entry.1,
        DiffLine::Added(s) => entry.0 == DiffKind::Added && s@ == entry.1,
        DiffLine::Removed(s) => entry.0 == DiffKind::Removed && s@ == entry.1,
        DiffLine::Blank => entry.0 == DiffKind::Blank,
    }
}

/// Walk a filled longest-common-subsequence table and produce the tagged
/// diff of the first `i` lines of `lines1` against the first `j` lines of
/// `lines2`, in output order, ended where the walk reaches the origin by
/// one blank line.
pub fn diff_lines(
    table: &Grid,
    lines1: &Vec<String>,
    lines2: &Vec<String>,
    i: usize,
    j: usize,
) -> (diff: Vec<DiffLine>)
    requires
        is_lcs_table(*table, views_of(lines1@), views_of(lines2@)),
        i <= lines1@.len(),
        j <= lines2@.len(),
    ensures
        diff@.len() == spec_diff(views_of(lines1@), views_of(lines2@), i as int, j as int).len(),
        forall|k: int|
            0 <= k < diff@.len() ==> line_matches(
                #[trigger] diff@[k],
                spec_diff(views_of(lines1@), views_of(lines2@), i as int, j as int)[k],
            ),
    decreases i + j,
{
    let ghost a = views_of(lines1@);
    let ghost b = views_of(lines2@);
    proof {
        if i > 0 {
            assert(a[i - 1] == lines1@[i - 1]@);
        }
        if j > 0 {
            assert(b[j - 1] == lines2@[j - 1]@);
        }
    }
    if i > 0 && j > 0 && str_eq(lines1[i - 1].as_str(), lines2[j - 1].as_str()) {
        let mut diff = diff_lines(table, lines1, lines2, i - 1, j - 1);
        diff.push(DiffLine::Shared(lines1[i - 1].clone()));
        diff
    } else if j > 0 && (i == 0 || table.at(i, j - 1) > table.at(i - 1, j)) {
        let mut diff = diff_lines(table, lines1, lines2, i, j - 1);
        diff.push(DiffLine::Added(lines2[j - 1].clone()));
        diff
    } else if i > 0 && (j == 0 || table.at(i, j - 1) <= table.at(i - 1, j)) {
        let mut diff = diff_lines(table, lines1, lines2, i - 1, j);
        diff.push(DiffLine::Removed(lines1[i - 1].clone()));
        diff
    } else {
        let mut diff: Vec<DiffLine> = Vec::new();
        diff.push(DiffLine::Blank);
        diff
    }
}

} // verus!
