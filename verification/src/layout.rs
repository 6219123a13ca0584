//! The fixed keyboard layout: a mapping from key characters to (row, column)
//! grid cells, built once from an ordered list of key rows (bottom row first).

use vstd::prelude::*;

verus! {

/// Looks a key up in a list of `(key, row, column)` entries; when a key was
/// entered more than once the entry added last wins, as an insertion that
/// overwrites would have it.
pub open spec fn spec_position_of(keys: Seq<(char, u16, u16)>, key: char) -> Option<(u16, u16)>
    decreases keys.len(),
{
    if keys.len() == 0 {
        None
    } else if keys.last().0 == key {
        Some((keys.last().1, keys.last().2))
    } else {
        spec_position_of(keys.drop_last(), key)
    }
}

/// The largest row index among the entries, 0 when there are none.
pub open spec fn spec_max_row(keys: Seq<(char, u16, u16)>) -> u16
    decreases keys.len(),
{
    if keys.len() == 0 {
        0
    } else {
        let m = spec_max_row(keys.drop_last());
        if keys.last().1 > m {
            keys.last().1
        } else {
            m
        }
    }
}

/// The largest column index among the entries, 0 when there are none.
pub open spec fn spec_max_col(keys: Seq<(char, u16, u16)>) -> u16
    decreases keys.len(),
{
    if keys.len() == 0 {
        0
    } else {
        let m = spec_max_col(keys.drop_last());
        if keys.last().2 > m {
            keys.last().2
        } else {
            m
        }
    }
}

/// Every grid index leaves room for the `+ 1` that turns it into a count.
pub open spec fn wf_keys(keys: Seq<(char, u16, u16)>) -> bool {
    forall|i: int|
        0 <= i < keys.len() ==> (#[trigger] keys[i]).1 < u16::MAX && keys[i].2 < u16::MAX
}

/// The entries contributed by one key row: left-to-right positions become
/// column indices in that row.
pub open spec fn spec_row_keys(row: Seq<char>, r: u16) -> Seq<(char, u16, u16)> {
    Seq::new(row.len(), |j: int| (row[j], r, j as u16))
}

/// The entries of a whole layout: rows in order, the first row getting row
/// index 0.
pub open spec fn spec_rows_keys(rows: Seq<Seq<char>>) -> Seq<(char, u16, u16)>
    decreases rows.len(),
{
    if rows.len() == 0 {
        Seq::empty()
    } else {
        spec_rows_keys(rows.drop_last()) + spec_row_keys(rows.last(), (rows.len() - 1) as u16)
    }
}

/// The fixed QWERTY subset, bottom-to-top: bottom letter row, home row, top
/// letter row, digits row.
pub open spec fn qwerty_rows() -> Seq<Seq<char>> {
    seq![
        seq!['z', 'x', 'c', 'v', 'b', 'n', 'm'],
        seq!['a', 's', 'd', 'f', 'g', 'h', 'j', 'k', 'l'],
        seq!['q', 'w', 'e', 'r', 't', 'y', 'u', 'i', 'o', 'p'],
        seq!['1', '2', '3', '4', '5', '6', '7', '8', '9', '0'],
    ]
}

/// The static key-to-cell mapping, immutable after construction.
pub struct KeyboardLayout {
    keys: Vec<(char, u16, u16)>,
}

impl View for KeyboardLayout {
    type V = Seq<(char, u16, u16)>;

    closed spec fn view(&self) -> Seq<(char, u16, u16)> {
        self.keys@
    }
}

impl KeyboardLayout {
    pub open spec fn wf(&self) -> bool {
        wf_keys(self@)
    }

    /// Build a layout from an ordered list of key rows: the first row gets
    /// row index 0, and within a row the position in the list is the column.
    pub fn from_rows(rows: &Vec<Vec<char>>) -> (layout: KeyboardLayout)
        requires
            rows@.len() <= u16::MAX,
            forall|i: int| 0 <= i < rows@.len() ==> (#[trigger] rows@[i])@.len() <= u16::MAX,
        ensures
            layout.wf(),
            layout@ == spec_rows_keys(rows@.map_values(|v: Vec<char>| v@)),
    {
        let ghost rseqs = rows@.map_values(|v: Vec<char>| v@);
        let mut keys: Vec<(char, u16, u16)> = Vec::new();
        let mut i: usize = 0;
        while i < rows.len()
            invariant
                i <= rows@.len(),
                rows@.len() <= u16::MAX,
                forall|t: int| 0 <= t < rows@.len() ==> (#[trigger] rows@[t])@.len() <= u16::MAX,
                rseqs == rows@.map_values(|v: Vec<char>| v@),
                keys@ == spec_rows_keys(rseqs.take(i as int)),
                wf_keys(keys@),
            decreases rows@.len() - i,
        {
            let row = &rows[i];
            let ghost row_seq = rseqs[i as int];
            assert(row@ == row_seq);
            let mut j: usize = 0;
            while j < row.len()
                invariant
                    j <= row_seq.len(),
                    i < rows@.len(),
                    rows@.len() <= u16::MAX,
                    row@ == row_seq,
                    row_seq.len() <= u16::MAX,
                    keys@ == spec_rows_keys(rseqs.take(i as int)) + spec_row_keys(
                        row_seq.take(j as int),
                        i as u16,
                    ),
                    wf_keys(keys@),
                decreases row_seq.len() - j,
            {
                keys.push((row[j], i as u16, j as u16));
                proof {
                    assert(spec_row_keys(row_seq.take(j + 1), i as u16) =~= spec_row_keys(
                        row_seq.take(j as int),
                        i as u16,
                    ).push((row_seq[j as int], i as u16, j as u16)));
                }
                j += 1;
            }
            proof {
                let upto = rseqs.take(i + 1);
                assert(upto.drop_last() =~= rseqs.take(i as int));
                assert(row_seq.take(j as int) =~= row_seq);
                assert(upto.last() == row_seq);
            }
            i += 1;
        }
        proof {
            assert(rseqs.take(rows@.len() as int) =~= rseqs);
        }
        KeyboardLayout { keys }
    }

    /// Build the fixed QWERTY layout.
    pub fn create_keyboard_layout() -> (layout: KeyboardLayout)
        ensures
            layout.wf(),
            layout@ == spec_rows_keys(qwerty_rows()),
            layout@.len() == 36,
    {
        let rows: Vec<Vec<char>> = vec![
            vec!['z', 'x', 'c', 'v', 'b', 'n', 'm'],
            vec!['a', 's', 'd', 'f', 'g', 'h', 'j', 'k', 'l'],
            vec!['q', 'w', 'e', 'r', 't', 'y', 'u', 'i', 'o', 'p'],
            vec!['1', '2', '3', '4', '5', '6', '7', '8', '9', '0'],
        ];
        let layout = KeyboardLayout::from_rows(&rows);
        proof {
            assert(rows@.map_values(|v: Vec<char>| v@) =~~= qwerty_rows());
            let q = qwerty_rows();
            let q3 = q.drop_last();
            let q2 = q3.drop_last();
            let q1 = q2.drop_last();
            let q0 = q1.drop_last();
            assert(spec_rows_keys(q0).len() == 0);
            assert(spec_rows_keys(q1).len() == 7);
            assert(spec_rows_keys(q2).len() == 16);
            assert(spec_rows_keys(q3).len() == 26);
            assert(spec_rows_keys(q).len() == 36);
        }
        layout
    }

    /// Where the key sits on the grid, if it is mapped at all.  Deterministic:
    /// the answer is a function of the layout and the key alone.
    pub fn position_of(&self, key: char) -> (r: Option<(u16, u16)>)
        ensures
            r == spec_position_of(self@, key),
    {
        let mut found: Option<(u16, u16)> = None;
        let mut i: usize = 0;
        while i < self.keys.len()
            invariant
                i <= self@.len(),
                found == spec_position_of(self@.take(i as int), key),
            decreases self@.len() - i,
        {
            let (ch, row, col) = self.keys[i];
            if ch == key {
                found = Some((row, col));
            }
            proof {
                assert(self@.take(i + 1).drop_last() =~= self@.take(i as int));
            }
            i += 1;
        }
        proof {
            assert(self@.take(self@.len() as int) =~= self@);
        }
        found
    }

    /// How many grid rows the layout spans: the largest row index plus one.
    pub fn row_count(&self) -> (n: u16)
        requires
            self.wf(),
        ensures
            n == spec_max_row(self@) + 1,
    {
        let mut m: u16 = 0;
        let mut i: usize = 0;
        while i < self.keys.len()
            invariant
                i <= self@.len(),
                m == spec_max_row(self@.take(i as int)),
                self.wf(),
            decreases self@.len() - i,
        {
            let (_, row, _) = self.keys[i];
            if row > m {
                m = row;
            }
            proof {
                assert(self@.take(i + 1).drop_last() =~= self@.take(i as int));
            }
            i += 1;
        }
        proof {
            assert(self@.take(self@.len() as int) =~= self@);
            lemma_max_bounds(self@);
        }
        m + 1
    }

    /// How many grid columns the layout spans: the largest column index plus
    /// one.
    pub fn column_count(&self) -> (n: u16)
        requires
            self.wf(),
        ensures
            n == spec_max_col(self@) + 1,
    {
        let mut m: u16 = 0;
        let mut i: usize = 0;
        while i < self.keys.len()
            invariant
                i <= self@.len(),
                m == spec_max_col(self@.take(i as int)),
                self.wf(),
            decreases self@.len() - i,
        {
            let (_, _, col) = self.keys[i];
            if col > m {
                m = col;
            }
            proof {
                assert(self@.take(i + 1).drop_last() =~= self@.take(i as int));
            }
            i += 1;
        }
        proof {
            assert(self@.take(self@.len() as int) =~= self@);
            lemma_max_bounds(self@);
        }
        m + 1
    }

    /// How many keys the layout maps.
    pub fn len(&self) -> (n: usize)
        ensures
            n == self@.len(),
    {
        self.keys.len()
    }
}

/// With well-formed entries the maxima leave room for `+ 1`.
pub proof fn lemma_max_bounds(keys: Seq<(char, u16, u16)>)
    requires
        wf_keys(keys),
    ensures
        spec_max_row(keys) < u16::MAX,
        spec_max_col(keys) < u16::MAX,
    decreases keys.len(),
{
    if keys.len() > 0 {
        assert forall|i: int|
            0 <= i < keys.drop_last().len() implies (#[trigger] keys.drop_last()[i]).1 < u16::MAX
            && keys.drop_last()[i].2 < u16::MAX by {
            assert(keys.drop_last()[i] == keys[i]);
        }
        lemma_max_bounds(keys.drop_last());
    }
}

/// Law: looking a mapped key up is deterministic and lands inside the grid —
/// the row is at most the layout's largest row index and the column at most
/// its largest column index; unmapped keys get nothing (`spec_position_of`
/// returns `None` exactly when no entry carries the key).
pub proof fn lemma_position_in_extent(keys: Seq<(char, u16, u16)>, key: char)
    requires
        spec_position_of(keys, key) is Some,
    ensures
        spec_position_of(keys, key)->Some_0.0 <= spec_max_row(keys),
        spec_position_of(keys, key)->Some_0.1 <= spec_max_col(keys),
    decreases keys.len(),
{
    if keys.len() > 0 && keys.last().0 != key {
        lemma_position_in_extent(keys.drop_last(), key);
    }
}

} // verus!
