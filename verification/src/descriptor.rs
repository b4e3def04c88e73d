//! What distinguishes one entity from another: its table, its columns and the
//! names a caller may filter, sort and look rows up by.

use vstd::prelude::*;
use crate::value::same_text;

verus! {

/// The data that instantiates the repository for one entity.
#[derive(Debug)]
pub struct EntityDescriptor {
    /// Name of the table.
    pub table: &'static str,
    /// Name of the entity in the messages of a create, an update and a delete.
    pub label: &'static str,
    /// Name of the entity in the message of a lookup that found nothing.
    pub noun: &'static str,
    /// The `SELECT ... FROM table` text that reads whole rows.
    pub select_head: &'static str,
    /// Column that holds the identity.
    pub key_column: &'static str,
    /// Column that holds the caller-assigned unique key, if the entity has one.
    pub natural_key: Option<&'static str>,
    /// Whether the identity is generated here rather than assigned by the store.
    pub generated_key: bool,
    /// Column by which listings are sorted, descending, when the caller names none.
    pub default_sort: &'static str,
    /// Columns that a create or an update may write.
    pub columns: Vec<&'static str>,
    /// Columns by which a listing may be sorted.
    pub sort_columns: Vec<&'static str>,
    /// Columns by which a listing may be filtered.
    pub filter_columns: Vec<&'static str>,
    /// Columns by which rows may be looked up.
    pub lookup_columns: Vec<&'static str>,
}

/// The mathematical content of an [`EntityDescriptor`].
pub struct Schema {
    pub table: Seq<char>,
    pub label: Seq<char>,
    pub noun: Seq<char>,
    pub select_head: Seq<char>,
    pub key_column: Seq<char>,
    pub natural_key: Option<Seq<char>>,
    pub generated_key: bool,
    pub default_sort: Seq<char>,
    pub columns: Seq<Seq<char>>,
    pub sort_columns: Seq<Seq<char>>,
    pub filter_columns: Seq<Seq<char>>,
    pub lookup_columns: Seq<Seq<char>>,
}

/// The texts of a list of names.
pub open spec fn names(list: Seq<&'static str>) -> Seq<Seq<char>> {
    list.map_values(|s: &'static str| s@)
}

impl View for EntityDescriptor {
    type V = Schema;

    open spec fn view(&self) -> Schema {
        Schema {
            table: self.table@,
            label: self.label@,
            noun: self.noun@,
            select_head: self.select_head@,
            key_column: self.key_column@,
            natural_key: match self.natural_key {
                Some(k) => Some(k@),
                None => None,
            },
            generated_key: self.generated_key,
            default_sort: self.default_sort@,
            columns: names(self.columns@),
            sort_columns: names(self.sort_columns@),
            filter_columns: names(self.filter_columns@),
            lookup_columns: names(self.lookup_columns@),
        }
    }
}

/// Finds the entry of an allow-list that spells `name`.
pub fn find_name(list: &Vec<&'static str>, name: &str) -> (r: Option<&'static str>)
    ensures
        r is Some <==> names(list@).contains(name@),
        r matches Some(found) ==> found@ == name@,
{
    let mut i: usize = 0;
    while i < list.len()
        invariant
            i <= list.len(),
            forall|j: int| 0 <= j < i ==> names(list@)[j] != name@,
        decreases list.len() - i,
    {
        let candidate: &'static str = list[i];
        if same_text(candidate, name) {
            assert(names(list@)[i as int] == name@);
            return Some(candidate);
        }
        i += 1;
    }
    None
}

} // verus!
