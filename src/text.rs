//! A readable rendering of a matrix: one line per row, cells in brackets,
//! separated by a comma and a tab.
use vstd::prelude::*;
use vstd::string::{to_string_from_display_ensures, StringExecFns};

use crate::element::Element;
use crate::Matrix;

verus! {

/// The texts `texts[start]`, ..., `texts[start + n - 1]`, separated by a comma and a tab.
pub open spec fn joined(texts: Seq<Seq<char>>, start: int, n: nat) -> Seq<char>
    decreases n,
{
    if n == 0 {
        Seq::empty()
    } else if n == 1 {
        texts[start]
    } else {
        joined(texts, start, (n - 1) as nat) + seq![',', '\t'] + texts[start + n - 1]
    }
}

/// The first `rows` rows of a grid of cell texts, each on a new line and in brackets.
pub open spec fn layout(texts: Seq<Seq<char>>, rows: nat, columns: nat) -> Seq<char>
    decreases rows,
{
    if rows == 0 {
        Seq::empty()
    } else {
        layout(texts, (rows - 1) as nat, columns) + seq!['\n', '['] + joined(
            texts,
            (rows - 1) * columns,
            columns,
        ) + seq![']']
    }
}

/// Lays out the cell texts of a `rows` by `columns` grid, given in row-major order.
pub fn layout_text(texts: &Vec<String>, rows: usize, columns: usize) -> (r: String)
    requires
        texts@.len() == rows * columns,
    ensures
        r@ == layout(texts@.map_values(|s: String| s@), rows as nat, columns as nat),
{
    let ghost v = texts@.map_values(|s: String| s@);
    let n: usize = texts.len();
    let mut out = String::new();
    let mut row: usize = 0;
    while row < rows
        invariant
            v == texts@.map_values(|s: String| s@),
            texts@.len() == rows * columns,
            n == rows * columns,
            row <= rows,
            out@ == layout(v, row as nat, columns as nat),
        decreases rows - row,
    {
        proof {
            reveal_strlit("\n[");
        }
        out.append("\n[");
        let ghost line_start = out@;
        let mut column: usize = 0;
        while column < columns
            invariant
                v == texts@.map_values(|s: String| s@),
                texts@.len() == rows * columns,
                n == rows * columns,
                row < rows,
                column <= columns,
                line_start == layout(v, row as nat, columns as nat) + seq!['\n', '['],
                out@ == line_start + joined(v, row * columns, column as nat),
            decreases columns - column,
        {
            proof {
                reveal_strlit(",\t");
                crate::grid::lemma_offset_in_bounds(
                    row as int,
                    column as int,
                    rows as int,
                    columns as int,
                );
            }
            if column > 0 {
                out.append(",\t");
            }
            out.append(texts[column + row * columns].as_str());
            proof {
                assert(v[column + row * columns] == texts@[column + row * columns]@);
                assert(row * columns + column == column + row * columns);
                assert(out@ =~= line_start + joined(v, row * columns, (column + 1) as nat));
            }
            column += 1;
        }
        proof {
            reveal_strlit("]");
        }
        out.append("]");
        proof {
            assert(out@ =~= layout(v, (row + 1) as nat, columns as nat));
        }
        row += 1;
    }
    out
}

impl<T: Element + core::fmt::Display> Matrix<T> {
    /// A readable rendering: each row on a new line, in brackets, its cells
    /// rendered by their `Display` form and separated by a comma and a tab.
    pub fn display(&self) -> (r: String)
        requires
            self.wf(),
        ensures
            exists|texts: Seq<String>|
                {
                    &&& texts.len() == self.values@.len()
                    &&& forall|i: int|
                        0 <= i < texts.len() ==> to_string_from_display_ensures::<T>(
                            &self.values@[i],
                            #[trigger] texts[i],
                        )
                    &&& r@ == layout(
                        texts.map_values(|s: String| s@),
                        self.rows as nat,
                        self.columns as nat,
                    )
                },
    {
        let mut texts: Vec<String> = Vec::new();
        let mut i: usize = 0;
        while i < self.values.len()
            invariant
                i <= self.values@.len(),
                texts@.len() == i,
                forall|k: int|
                    0 <= k < i ==> to_string_from_display_ensures::<T>(
                        &self.values@[k],
                        #[trigger] texts@[k],
                    ),
            decreases self.values@.len() - i,
        {
            texts.push(self.values[i].to_string());
            i += 1;
        }
        let r = layout_text(&texts, self.rows, self.columns);
        assert(texts@.len() == self.values@.len());
        r
    }
}

} // verus!
