//! The neighbour list: for every atom, the atoms within the cutoff.
//!
//! Which pairs lie within the cutoff, and what their geometry is, is worked
//! out by the caller and handed over as candidates, one for every ordered
//! pair of atoms. The list keeps, for each atom, the candidates of the other
//! atoms that lie within the cutoff, in the order of their ids.

use crate::error::ConfigError;
use crate::error::ErrorKind;
use crate::io::decimal::NumberClass;
use crate::io::input::document_class;
use crate::io::input::document_entry;
use crate::io::input::entry;
use crate::io::input::is_plain_number;
use crate::io::input::number_is_positive;
use crate::io::input::leaf;
use crate::io::input::number_shows;
use crate::io::input::to_plain_number;
use crate::io::input::yaml_document;
use crate::io::input::Document;
use crate::io::input::Leaf;
use crate::io::input::Number;
use std::collections::HashMap;
use vstd::prelude::*;
use yaml_rust::Yaml;

verus! {

broadcast use vstd::std_specs::hash::group_hash_axioms;

/// What is known of an ordered pair of atoms: whether the second lies
/// within the cutoff of the first, and the geometry of the pair.
#[derive(Clone, Copy, Debug, PartialEq)]
pub struct Candidate<G> {
    pub within_cutoff: bool,
    pub geometry: G,
}

/// A neighbour of an atom: its id, and the geometry of the pair.
#[derive(Clone, Copy, Debug, PartialEq)]
pub struct NeighborsListEntry<G> {
    pub index: u64,
    pub geometry: G,
}

/// The list was asked for an atom that it has never been updated for.
#[derive(Clone, Copy, Debug, PartialEq, Eq, Structural)]
pub struct NeighborMiss {
    pub index: u64,
}

#[derive(Debug)]
pub struct NeighborsList<G> {
    pub neighbors: HashMap<u64, Vec<NeighborsListEntry<G>>>,
    pub log: bool,
    /// The number of steps between two rebuilds, at least one.
    pub frequency: u64,
    pub cutoff: Number,
}

/// The neighbours of atom `index` among the first `upto` atoms: every other
/// atom whose candidate lies within the cutoff, in the order of the ids.
pub open spec fn neighbors_among<G>(index: nat, row: Seq<Candidate<G>>, upto: nat) -> Seq<
    NeighborsListEntry<G>,
>
    decreases upto,
{
    if upto == 0 {
        Seq::empty()
    } else {
        let j = (upto - 1) as nat;
        let earlier = neighbors_among(index, row, j);
        if j != index && row[j as int].within_cutoff {
            earlier.push(NeighborsListEntry { index: j as u64, geometry: row[j as int].geometry })
        } else {
            earlier
        }
    }
}

/// The neighbours of atom `index`, given the candidates of all atoms.
pub open spec fn neighbors_of<G>(index: nat, row: Seq<Candidate<G>>) -> Seq<NeighborsListEntry<G>> {
    neighbors_among(index, row, row.len())
}

/// Whether atom `other` is among the entries.
pub open spec fn lists_atom<G>(entries: Seq<NeighborsListEntry<G>>, other: nat) -> bool {
    exists|p: int| 0 <= p < entries.len() && (#[trigger] entries[p]).index == other
}

/// Whether a rebuild is due at a step: at every step where the frequency is
/// one, else at the steps that the frequency divides.
pub open spec fn rebuild_is_due(frequency: u64, current_step: u64) -> bool {
    frequency <= 1 || current_step % frequency == 0
}

/// The rebuild frequency that a node describes: one where the node is
/// absent, else a whole number of at least one.
pub open spec fn frequency_of(document: Document) -> Option<u64> {
    match document {
        Document::BadValue => Some(1),
        Document::Integer(value) => if value >= 1 {
            Some(value as u64)
        } else {
            None
        },
        _ => None,
    }
}

/// The logging switch that a node describes: off where the node is absent.
pub open spec fn log_of(document: Document) -> Option<bool> {
    match document {
        Document::BadValue => Some(false),
        Document::Boolean(flag) => Some(flag),
        _ => None,
    }
}

/// The first thing that keeps a node from describing a neighbour list, in
/// the order cutoff, frequency, log. The cutoff must be a number greater
/// than zero.
pub open spec fn neighbors_fault(document: Document) -> Option<ConfigError> {
    if !is_plain_number(document_entry(document, "cutoff"@)) {
        Some(ConfigError::CutoffNotNumber)
    } else if document_class(document_entry(document, "cutoff"@)) != Some(NumberClass::Positive) {
        Some(ConfigError::CutoffNotPositive)
    } else if frequency_of(document_entry(document, "frequency"@)) is None {
        Some(ConfigError::UnknownFrequency)
    } else if log_of(document_entry(document, "log"@)) is None {
        Some(ConfigError::LogNotBoolean)
    } else {
        None
    }
}

/// The list is empty and has the settings that the node describes.
pub open spec fn neighbors_show<G>(list: NeighborsList<G>, document: Document) -> bool {
    &&& list.neighbors@ == Map::<u64, Vec<NeighborsListEntry<G>>>::empty()
    &&& number_shows(list.cutoff, document_entry(document, "cutoff"@))
    &&& frequency_of(document_entry(document, "frequency"@)) == Some(list.frequency)
    &&& log_of(document_entry(document, "log"@)) == Some(list.log)
}

/// The table holds a list for each of the first `count` atoms and for no
/// other, and each list is the one that the atom's candidates give.
pub open spec fn table_holds<G>(
    table: Map<u64, Vec<NeighborsListEntry<G>>>,
    pairs: Seq<Vec<Candidate<G>>>,
    count: nat,
) -> bool {
    &&& forall|key: u64| #[trigger] table.contains_key(key) <==> (key as nat) < count
    &&& forall|i: int|
        0 <= i < count ==> (#[trigger] table[i as u64])@ == neighbors_of(i as nat, pairs[i]@)
}

/// What the entries of a neighbour list have in common: none is the atom
/// itself, each is an atom whose candidate lies within the cutoff and
/// carries that candidate's geometry, and their ids increase.
pub proof fn lemma_neighbors_among<G>(index: nat, row: Seq<Candidate<G>>, upto: nat)
    requires
        upto <= row.len(),
        row.len() <= u64::MAX,
    ensures
        forall|p: int|
            0 <= p < neighbors_among(index, row, upto).len() ==> {
                let found = #[trigger] neighbors_among(index, row, upto)[p];
                &&& found.index != index
                &&& found.index < upto
                &&& row[found.index as int].within_cutoff
                &&& found.geometry == row[found.index as int].geometry
            },
        forall|p: int, q: int|
            0 <= p < q < neighbors_among(index, row, upto).len() ==> (#[trigger] neighbors_among(
                index,
                row,
                upto,
            )[p]).index < (#[trigger] neighbors_among(index, row, upto)[q]).index,
    decreases upto,
{
    if upto > 0 {
        let j = (upto - 1) as nat;
        let earlier = neighbors_among(index, row, j);
        let all = neighbors_among(index, row, upto);
        lemma_neighbors_among(index, row, j);
        assert forall|p: int| 0 <= p < all.len() implies {
            let found = #[trigger] all[p];
            &&& found.index != index
            &&& found.index < upto
            &&& row[found.index as int].within_cutoff
            &&& found.geometry == row[found.index as int].geometry
        } by {
            if p < earlier.len() {
                assert(all[p] == earlier[p]);
            }
        }
        assert forall|p: int, q: int| 0 <= p < q < all.len() implies (#[trigger] all[p]).index < (
        #[trigger] all[q]).index by {
            assert(all[p] == earlier[p]);
            if q < earlier.len() {
                assert(all[q] == earlier[q]);
            }
        }
    }
}

/// Every other atom whose candidate lies within the cutoff is listed.
pub proof fn lemma_neighbors_complete<G>(
    index: nat,
    row: Seq<Candidate<G>>,
    upto: nat,
    other: nat,
)
    requires
        upto <= row.len(),
        row.len() <= u64::MAX,
        other < upto,
        other != index,
        row[other as int].within_cutoff,
    ensures
        lists_atom(neighbors_among(index, row, upto), other),
    decreases upto,
{
    let j = (upto - 1) as nat;
    let earlier = neighbors_among(index, row, j);
    let all = neighbors_among(index, row, upto);
    if other == j {
        assert(all[all.len() - 1].index == other);
    } else {
        lemma_neighbors_complete(index, row, j, other);
        let p = choose|p: int| 0 <= p < earlier.len() && (#[trigger] earlier[p]).index == other;
        assert(all[p].index == other);
    }
}

/// An atom is listed exactly if it is another atom whose candidate lies
/// within the cutoff.
pub proof fn lemma_listed_iff_within<G>(index: nat, row: Seq<Candidate<G>>, other: nat)
    requires
        row.len() <= u64::MAX,
    ensures
        lists_atom(neighbors_of(index, row), other) <==> (other < row.len() && other != index
            && row[other as int].within_cutoff),
{
    lemma_neighbors_among(index, row, row.len());
    if other < row.len() && other != index && row[other as int].within_cutoff {
        lemma_neighbors_complete(index, row, row.len(), other);
    }
}

/// After an update, no atom is its own neighbour, and every neighbour of an
/// atom is another atom whose candidate lies within the cutoff, with the
/// geometry of that candidate.
pub proof fn lemma_updated_entry<G>(
    table: Map<u64, Vec<NeighborsListEntry<G>>>,
    pairs: Seq<Vec<Candidate<G>>>,
    i: nat,
    p: int,
)
    requires
        table_holds(table, pairs, pairs.len()),
        pairs.len() <= u64::MAX,
        i < pairs.len(),
        pairs[i as int]@.len() <= u64::MAX,
        0 <= p < table[i as u64]@.len(),
    ensures
        table[i as u64]@[p].index != i,
        table[i as u64]@[p].index < pairs[i as int]@.len(),
        pairs[i as int]@[table[i as u64]@[p].index as int].within_cutoff,
        table[i as u64]@[p].geometry == pairs[i as int]@[table[i as u64]@[p].index as int].geometry,
{
    lemma_neighbors_among(i, pairs[i as int]@, pairs[i as int]@.len());
}

/// After an update with candidates that agree in both directions on whether
/// a pair lies within the cutoff, each of two atoms lists the other or
/// neither does.
pub proof fn lemma_updated_mutual<G>(
    table: Map<u64, Vec<NeighborsListEntry<G>>>,
    pairs: Seq<Vec<Candidate<G>>>,
    i: nat,
    j: nat,
)
    requires
        table_holds(table, pairs, pairs.len()),
        pairs.len() <= u64::MAX,
        i < pairs.len(),
        j < pairs.len(),
        pairs[i as int]@.len() == pairs.len(),
        pairs[j as int]@.len() == pairs.len(),
        pairs[i as int]@[j as int].within_cutoff == pairs[j as int]@[i as int].within_cutoff,
    ensures
        lists_atom(table[i as u64]@, j) <==> lists_atom(table[j as u64]@, i),
{
    lemma_listed_iff_within(i, pairs[i as int]@, j);
    lemma_listed_iff_within(j, pairs[j as int]@, i);
}

/// After an update with candidates that agree in both directions on whether
/// a pair lies within the cutoff, an atom that lists another is listed by it,
/// and each of the two entries carries the geometry of its own candidate:
/// whatever holds of the geometries of the two candidates of a pair, as that
/// their distances are the same, holds of the two entries.
pub proof fn lemma_updated_pair<G>(
    table: Map<u64, Vec<NeighborsListEntry<G>>>,
    pairs: Seq<Vec<Candidate<G>>>,
    i: nat,
    j: nat,
)
    requires
        table_holds(table, pairs, pairs.len()),
        pairs.len() <= u64::MAX,
        i < pairs.len(),
        j < pairs.len(),
        pairs[i as int]@.len() == pairs.len(),
        pairs[j as int]@.len() == pairs.len(),
        pairs[i as int]@[j as int].within_cutoff == pairs[j as int]@[i as int].within_cutoff,
        lists_atom(table[i as u64]@, j),
    ensures
        exists|p: int, q: int|
            {
                &&& 0 <= p < table[i as u64]@.len()
                &&& 0 <= q < table[j as u64]@.len()
                &&& (#[trigger] table[i as u64]@[p]).index == j
                &&& table[i as u64]@[p].geometry == pairs[i as int]@[j as int].geometry
                &&& (#[trigger] table[j as u64]@[q]).index == i
                &&& table[j as u64]@[q].geometry == pairs[j as int]@[i as int].geometry
            },
{
    lemma_updated_mutual(table, pairs, i, j);
    lemma_neighbors_among(i, pairs[i as int]@, pairs[i as int]@.len());
    lemma_neighbors_among(j, pairs[j as int]@, pairs[j as int]@.len());
    let mine = table[i as u64]@;
    let theirs = table[j as u64]@;
    let p = choose|p: int| 0 <= p < mine.len() && (#[trigger] mine[p]).index == j;
    let q = choose|q: int| 0 <= q < theirs.len() && (#[trigger] theirs[q]).index == i;
    assert(table[i as u64]@[p].index == j && table[j as u64]@[q].index == i);
}

/// Two tables that were updated with the same candidates have lists for the
/// same atoms, and the same list for each of them.
pub proof fn lemma_tables_agree<G>(
    first: Map<u64, Vec<NeighborsListEntry<G>>>,
    second: Map<u64, Vec<NeighborsListEntry<G>>>,
    pairs: Seq<Vec<Candidate<G>>>,
)
    requires
        table_holds(first, pairs, pairs.len()),
        table_holds(second, pairs, pairs.len()),
        pairs.len() <= u64::MAX,
    ensures
        first.dom() == second.dom(),
        forall|key: u64| #[trigger] first.contains_key(key) ==> first[key]@ == second[key]@,
{
    assert(first.dom() =~= second.dom());
    assert forall|key: u64| #[trigger] first.contains_key(key) implies first[key]@
        == second[key]@ by {
        let i = key as int;
        assert(first[i as u64]@ == neighbors_of(i as nat, pairs[i]@));
        assert(second[i as u64]@ == neighbors_of(i as nat, pairs[i]@));
    }
}

/// Reads the rebuild frequency.
fn frequency_from(node: &Yaml) -> (r: Option<u64>)
    ensures
        r == frequency_of(yaml_document(*node)),
{
    match leaf(node) {
        Leaf::BadValue => Some(1),
        Leaf::Integer(value) => {
            if value >= 1 {
                Some(value as u64)
            } else {
                None
            }
        },
        _ => None,
    }
}

/// Reads the logging switch.
fn log_from(node: &Yaml) -> (r: Option<bool>)
    ensures
        r == log_of(yaml_document(*node)),
{
    match leaf(node) {
        Leaf::BadValue => Some(false),
        Leaf::Boolean(flag) => Some(flag),
        _ => None,
    }
}

impl NeighborMiss {
    /// The kind of the error.
    pub fn kind(&self) -> (r: ErrorKind)
        ensures
            r == ErrorKind::NeighborMiss,
    {
        ErrorKind::NeighborMiss
    }
}

/// No list of the table holds the atom that it is the list of.
pub open spec fn no_atom_lists_itself<G>(table: Map<u64, Vec<NeighborsListEntry<G>>>) -> bool {
    forall|i: u64, p: int|
        table.contains_key(i) && 0 <= p < table[i]@.len() ==> (#[trigger] table[i]@[p]).index != i
}

impl<G: Copy> NeighborsList<G> {
    /// A list is well-formed if it is rebuilt every so many steps, at least
    /// every step, its cutoff is greater than zero, and no atom is its own
    /// neighbour.
    pub open spec fn well_formed(&self) -> bool {
        &&& self.frequency >= 1
        &&& number_is_positive(self.cutoff)
        &&& no_atom_lists_itself(self.neighbors@)
    }

    /// Reads the settings of the neighbour list from their node of the
    /// document, and starts with an empty table.
    pub fn from(neighbors_settings: &Yaml) -> (r: Result<NeighborsList<G>, ConfigError>)
        ensures
            match r {
                Ok(list) => neighbors_fault(yaml_document(*neighbors_settings)) is None
                    && neighbors_show(list, yaml_document(*neighbors_settings))
                    && list.well_formed(),
                Err(e) => neighbors_fault(yaml_document(*neighbors_settings)) == Some(e),
            },
    {
        let cutoff = match to_plain_number(entry(neighbors_settings, "cutoff")) {
            Some(number) => number,
            None => {
                return Err(ConfigError::CutoffNotNumber);
            },
        };
        if !cutoff.is_positive() {
            return Err(ConfigError::CutoffNotPositive);
        }
        let frequency = match frequency_from(entry(neighbors_settings, "frequency")) {
            Some(frequency) => frequency,
            None => {
                return Err(ConfigError::UnknownFrequency);
            },
        };
        let log = match log_from(entry(neighbors_settings, "log")) {
            Some(log) => log,
            None => {
                return Err(ConfigError::LogNotBoolean);
            },
        };
        Ok(NeighborsList { neighbors: HashMap::new(), log, frequency, cutoff })
    }

    /// Replaces the list of atom `index` by the one that its candidates
    /// give: `row[j]` is the candidate of the pair of `index` and `j`.
    pub fn update_for_atom(&mut self, index: usize, row: &Vec<Candidate<G>>)
        ensures
            final(self).neighbors@.contains_key(index as u64),
            final(self).neighbors@[index as u64]@ == neighbors_of(index as nat, row@),
            final(self).neighbors@.remove(index as u64) == old(self).neighbors@.remove(
                index as u64,
            ),
            final(self).log == old(self).log,
            final(self).frequency == old(self).frequency,
            final(self).cutoff == old(self).cutoff,
            no_atom_lists_itself(old(self).neighbors@) ==> no_atom_lists_itself(
                final(self).neighbors@,
            ),
            old(self).well_formed() ==> final(self).well_formed(),
    {
        let mut new_neighbors: Vec<NeighborsListEntry<G>> = Vec::new();
        let mut j: usize = 0;
        while j < row.len()
            invariant
                j <= row.len(),
                new_neighbors@ == neighbors_among(index as nat, row@, j as nat),
            decreases row.len() - j,
        {
            if j != index && row[j].within_cutoff {
                new_neighbors.push(
                    NeighborsListEntry { index: j as u64, geometry: row[j].geometry },
                );
            }
            j += 1;
        }
        proof {
            lemma_neighbors_among(index as nat, row@, row@.len());
        }
        self.neighbors.insert(index as u64, new_neighbors);
        assert(final(self).neighbors@.remove(index as u64) =~= old(self).neighbors@.remove(
            index as u64,
        ));
    }

    /// Rebuilds the whole table: `pairs[i]` holds the candidates of atom
    /// `i`. Afterwards the table has a list for each atom with candidates,
    /// and for no other.
    pub fn update(&mut self, pairs: &Vec<Vec<Candidate<G>>>)
        ensures
            table_holds(final(self).neighbors@, pairs@, pairs@.len()),
            final(self).log == old(self).log,
            final(self).frequency == old(self).frequency,
            final(self).cutoff == old(self).cutoff,
            no_atom_lists_itself(final(self).neighbors@),
            old(self).well_formed() ==> final(self).well_formed(),
    {
        self.neighbors.clear();
        let mut index: usize = 0;
        while index < pairs.len()
            invariant
                index <= pairs.len(),
                table_holds(self.neighbors@, pairs@, index as nat),
                no_atom_lists_itself(self.neighbors@),
                self.log == old(self).log,
                self.frequency == old(self).frequency,
                self.cutoff == old(self).cutoff,
            decreases pairs.len() - index,
        {
            let ghost before = self.neighbors@;
            self.update_for_atom(index, &pairs[index]);
            proof {
                let after = self.neighbors@;
                assert forall|key: u64| #[trigger]
                    after.contains_key(key) <==> (key as nat) < index + 1 by {
                    if key != index as u64 {
                        assert(after.remove(index as u64).contains_key(key) == before.remove(
                            index as u64,
                        ).contains_key(key));
                    }
                }
                assert forall|i: int| 0 <= i < index + 1 implies (#[trigger] after[i as u64])@
                    == neighbors_of(i as nat, pairs@[i]@) by {
                    if i != index {
                        assert(after.remove(index as u64)[i as u64] == before.remove(
                            index as u64,
                        )[i as u64]);
                    }
                }
            }
            index += 1;
        }
    }

    /// The neighbours of an atom, as the last update left them. Fails for
    /// an atom that the list has never been updated for.
    pub fn get_neighbors(&self, index: u64) -> (r: Result<
        &Vec<NeighborsListEntry<G>>,
        NeighborMiss,
    >)
        ensures
            match r {
                Ok(entries) => self.neighbors@.contains_key(index) && *entries
                    == self.neighbors@[index],
                Err(e) => !self.neighbors@.contains_key(index) && e.index == index,
            },
    {
        match self.neighbors.get(&index) {
            Some(entries) => Ok(entries),
            None => Err(NeighborMiss { index }),
        }
    }

    /// Whether the list is to be rebuilt at a step.
    pub fn is_due(&self, current_step: u64) -> (r: bool)
        ensures
            r == rebuild_is_due(self.frequency, current_step),
    {
        self.frequency <= 1 || current_step % self.frequency == 0
    }
}

} // verus!
