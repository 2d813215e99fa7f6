//! Item-name resolution: an immutable item-id → display-name lookup built
//! once from the bundled tabular reference dataset. Column 0 holds the item
//! id, column 6 the display name; rows without both are skipped, and a later
//! row for the same id replaces an earlier one.

use vstd::prelude::*;
use vstd::string::StringExecFns;
use crate::numtext::{is_i64_literal, literal_val, parse_i64};

verus! {

/// What the csv reader yields for given input bytes: the fields of each data
/// row (the first row is a header and is excluded; rows that do not parse
/// cleanly are skipped), in file order. The result depends on the bytes
/// alone.
pub uninterp spec fn csv_rows_of(data: Seq<u8>) -> Seq<Seq<Seq<char>>>;

/// Relies on csv::Reader::from_reader and Reader::records: reads the bytes
/// as comma-separated values with a header row and yields each cleanly
/// parsed data row's fields in order.
#[verifier::external_body]
fn csv_data_rows(data: &[u8]) -> (rows: Vec<Vec<String>>)
    ensures
        rows.deep_view() == csv_rows_of(data@),
{
    let mut rows = Vec::new();
    for record in csv::Reader::from_reader(data).records() {
        if let Ok(record) = record {
            rows.push(record.iter().map(|f| f.to_string()).collect());
        }
    }
    rows
}

/// The name mapping a row sequence defines: for every row with more than 6
/// fields whose field 0 is a well-formed `i64` literal, its id maps to field
/// 6, later rows replacing earlier ones.
pub open spec fn names_of(rows: Seq<Seq<Seq<char>>>) -> Map<i64, Seq<char>>
    decreases rows.len(),
{
    if rows.len() == 0 {
        Map::empty()
    } else {
        let m = names_of(rows.drop_last());
        let row = rows.last();
        if row.len() > 6 && is_i64_literal(row[0]) {
            m.insert(literal_val(row[0]) as i64, row[6])
        } else {
            m
        }
    }
}

/// Mapping defined by an id/name pair sequence, later pairs replacing
/// earlier ones.
pub open spec fn entries_map(s: Seq<(i64, String)>) -> Map<i64, Seq<char>>
    decreases s.len(),
{
    if s.len() == 0 {
        Map::empty()
    } else {
        entries_map(s.drop_last()).insert(s.last().0, s.last().1@)
    }
}

/// Immutable item-id → display-name lookup.
pub struct NameResolver {
    entries: Vec<(i64, String)>,
}

impl View for NameResolver {
    type V = Map<i64, Seq<char>>;

    closed spec fn view(&self) -> Map<i64, Seq<char>> {
        entries_map(self.entries@)
    }
}

impl NameResolver {
    /// Builds the lookup from already-split rows: ids from field 0, names
    /// from field 6, rows without both skipped, later rows winning.
    pub fn from_rows(rows: &Vec<Vec<String>>) -> (r: NameResolver)
        ensures
            r@ == names_of(rows.deep_view()),
    {
        let mut entries: Vec<(i64, String)> = Vec::new();
        let mut i: usize = 0;
        while i < rows.len()
            invariant
                0 <= i <= rows@.len(),
                rows.deep_view().len() == rows@.len(),
                forall|j: int| 0 <= j < rows@.len() ==>
                    #[trigger] rows.deep_view()[j] == rows@[j].deep_view(),
                entries_map(entries@) == names_of(rows.deep_view().take(i as int)),
            decreases rows@.len() - i,
        {
            let ghost pre = rows.deep_view().take(i as int);
            proof {
                assert(rows.deep_view().take(i as int + 1).drop_last() =~= pre);
                assert(rows.deep_view().take(i as int + 1).last() == rows.deep_view()[i as int]);
                assert(rows@[i as int].deep_view().len() == rows@[i as int]@.len());
            }
            let row = &rows[i];
            if row.len() > 6 {
                proof {
                    assert(rows@[i as int].deep_view()[0] == rows@[i as int]@[0]@);
                    assert(rows@[i as int].deep_view()[6] == rows@[i as int]@[6]@);
                }
                match parse_i64(row[0].as_str()) {
                    Some(id) => {
                        let ghost before = entries@;
                        let name = String::from_str(row[6].as_str());
                        entries.push((id, name));
                        proof {
                            assert(entries@.drop_last() =~= before);
                        }
                    },
                    None => {},
                }
            }
            i += 1;
        }
        proof {
            assert(rows.deep_view().take(rows@.len() as int) =~= rows.deep_view());
        }
        NameResolver { entries }
    }

    /// Builds the lookup straight from the bytes of the reference dataset.
    pub fn from_csv(data: &[u8]) -> (r: NameResolver)
        ensures
            r@ == names_of(csv_rows_of(data@)),
    {
        let rows = csv_data_rows(data);
        NameResolver::from_rows(&rows)
    }

    /// Looks the display name of an item up; absence is not an error.
    pub fn lookup(&self, item: i64) -> (r: Option<&String>)
        ensures
            match r {
                Some(name) => self@.dom().contains(item) && name@ == self@[item],
                None => !self@.dom().contains(item),
            },
    {
        let s = &self.entries;
        let mut j: usize = s.len();
        proof {
            assert(s@.take(s@.len() as int) =~= s@);
        }
        while j > 0
            invariant
                0 <= j <= s@.len(),
                s@ == self.entries@,
                entries_map(s@).dom().contains(item) == entries_map(s@.take(j as int)).dom()
                    .contains(item),
                entries_map(s@).dom().contains(item) ==> entries_map(s@)[item] == entries_map(
                    s@.take(j as int),
                )[item],
            decreases j,
        {
            j -= 1;
            proof {
                assert(s@.take(j as int + 1).drop_last() =~= s@.take(j as int));
                assert(s@.take(j as int + 1).last() == s@[j as int]);
            }
            if s[j].0 == item {
                proof {
                    assert(entries_map(s@.take(j as int + 1)).dom().contains(item));
                    assert(entries_map(s@.take(j as int + 1))[item] == s@[j as int].1@);
                    assert(entries_map(s@).dom().contains(item));
                    assert(entries_map(s@)[item] == s@[j as int].1@);
                    assert(self@ == entries_map(s@));
                }
                return Some(&s[j].1);
            }
        }
        proof {
            assert(s@.take(0) =~= Seq::<(i64, String)>::empty());
        }
        None
    }
}

} // verus!
