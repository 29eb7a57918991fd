//! The analysis database: the symbol index, every stored function
//! analysis, the call graph and the grouping suggestions, together with
//! the plain records that persistence works over. Rebuilding an index
//! from its records keeps every key and every location field.

use vstd::prelude::*;
use crate::grouping::GroupingSuggestion;
use crate::indexer::{SymRec, SymbolIndex, SymbolLocation, hash_map_deep, sym_map_deep, sym_rec};
use crate::strmap::StrMap;
use crate::types::{CallGraph, FunctionAnalysis, ResolvedFunction};

verus! {

/// Why the database could not be read or written.
#[derive(Debug)]
pub enum DatabaseError {
    Io(String),
    Json(String),
    NotFound(String),
    VersionMismatch(String, String),
}

/// The environment an analysis ran under.
pub struct Environment {
    pub python_version: String,
    pub venv_path: Option<String>,
    pub site_packages: Vec<String>,
    pub python_path: Vec<String>,
}

/// One symbol, flattened to plain values for persistence.
pub struct SymbolRecord {
    pub qualified_name: String,
    pub file_path: String,
    pub line_start: u32,
    pub line_end: u32,
    pub is_method: bool,
    pub parent_class: Option<String>,
}

/// The facts of one record: its key and the location it carries.
pub open spec fn record_pair(r: SymbolRecord) -> (Seq<char>, SymRec) {
    (
        r.qualified_name@,
        SymRec {
            file: r.file_path@,
            line_start: r.line_start,
            line_end: r.line_end,
            is_method: r.is_method,
            parent_class: r.parent_class.deep_view(),
        },
    )
}

pub open spec fn record_pairs(v: Seq<SymbolRecord>) -> Seq<(Seq<char>, SymRec)> {
    v.map_values(|r: SymbolRecord| record_pair(r))
}

/// The views of flattened hash pairs.
pub open spec fn hash_pairs(v: Seq<(String, String)>) -> Seq<(Seq<char>, Seq<char>)> {
    v.map_values(|p: (String, String)| (p.0@, p.1@))
}

/// The map that inserting a list of hash pairs in order builds up; a later
/// pair for the same path wins.
pub open spec fn spec_fold_hashes(
    hs: Seq<(Seq<char>, Seq<char>)>,
    acc: Map<Seq<char>, Seq<char>>,
) -> Map<Seq<char>, Seq<char>>
    decreases hs.len(),
{
    if hs.len() == 0 {
        acc
    } else {
        spec_fold_hashes(hs.skip(1), acc.insert(hs[0].0, hs[0].1))
    }
}

/// The map that inserting a list of records in order builds up; a later
/// record for the same name wins.
pub open spec fn spec_fold_records(
    rs: Seq<(Seq<char>, SymRec)>,
    acc: Map<Seq<char>, SymRec>,
) -> Map<Seq<char>, SymRec>
    decreases rs.len(),
{
    if rs.len() == 0 {
        acc
    } else {
        spec_fold_records(rs.skip(1), acc.insert(rs[0].0, rs[0].1))
    }
}

proof fn lemma_fold_records_push(
    rs: Seq<(Seq<char>, SymRec)>,
    p: (Seq<char>, SymRec),
    acc: Map<Seq<char>, SymRec>,
)
    ensures
        spec_fold_records(rs.push(p), acc) == spec_fold_records(rs, acc).insert(p.0, p.1),
    decreases rs.len(),
{
    if rs.len() == 0 {
        assert(rs.push(p).skip(1) =~= Seq::<(Seq<char>, SymRec)>::empty());
        assert(rs.push(p)[0] == p);
        assert(spec_fold_records(Seq::<(Seq<char>, SymRec)>::empty(), acc.insert(p.0, p.1))
            == acc.insert(p.0, p.1));
        assert(spec_fold_records(rs.push(p), acc) == spec_fold_records(
            rs.push(p).skip(1),
            acc.insert(p.0, p.1),
        ));
    } else {
        assert(rs.push(p)[0] == rs[0]);
        assert(rs.push(p).skip(1) =~= rs.skip(1).push(p));
        assert(spec_fold_records(rs.push(p), acc) == spec_fold_records(
            rs.skip(1).push(p),
            acc.insert(rs[0].0, rs[0].1),
        ));
        lemma_fold_records_push(rs.skip(1), p, acc.insert(rs[0].0, rs[0].1));
        assert(spec_fold_records(rs, acc) == spec_fold_records(
            rs.skip(1),
            acc.insert(rs[0].0, rs[0].1),
        ));
    }
}

/// Flattening a symbol map's entries to records and folding them back
/// rebuilds the same mapping: every qualified name and every field of
/// every location round-trips exactly.
pub proof fn lemma_records_round_trip(
    entries: Seq<(String, SymbolLocation)>,
    pairs: Seq<(Seq<char>, SymRec)>,
)
    requires
        pairs.len() == entries.len(),
        forall|i: int|
            0 <= i < entries.len() ==> #[trigger] pairs[i] == (
                entries[i].0@,
                sym_rec(entries[i].1),
            ),
    ensures
        spec_fold_records(pairs, Map::<Seq<char>, SymRec>::empty()) == sym_map_deep(
            StrMap::<SymbolLocation>::seq_to_map(entries),
        ),
    decreases entries.len(),
{
    if entries.len() == 0 {
        assert(spec_fold_records(pairs, Map::<Seq<char>, SymRec>::empty()) =~= sym_map_deep(
            StrMap::<SymbolLocation>::seq_to_map(entries),
        ));
    } else {
        let front_e = entries.drop_last();
        let front_p = pairs.drop_last();
        assert(forall|i: int|
            0 <= i < front_e.len() ==> #[trigger] front_p[i] == (
                front_e[i].0@,
                sym_rec(front_e[i].1),
            ));
        lemma_records_round_trip(front_e, front_p);
        assert(front_p.push(pairs.last()) =~= pairs);
        lemma_fold_records_push(front_p, pairs.last(), Map::<Seq<char>, SymRec>::empty());
        assert(sym_map_deep(StrMap::<SymbolLocation>::seq_to_map(entries)) =~= sym_map_deep(
            StrMap::<SymbolLocation>::seq_to_map(front_e),
        ).insert(entries.last().0@, sym_rec(entries.last().1)));
    }
}

/// End to end: folding the records that `to_records` yields rebuilds the
/// index's own symbol view, every qualified name and every location field
/// kept.
pub proof fn lemma_index_records_rebuild(index: SymbolIndex, records: Seq<SymbolRecord>)
    requires
        records.len() == index.symbols.entries_seq().len(),
        forall|i: int|
            0 <= i < records.len() ==> record_pair(#[trigger] records[i]) == (
                index.symbols.entries_seq()[i].0@,
                sym_rec(index.symbols.entries_seq()[i].1),
            ),
    ensures
        spec_fold_records(record_pairs(records), Map::<Seq<char>, SymRec>::empty())
            == sym_map_deep(index.symbols@),
{
    let pairs = record_pairs(records);
    assert(forall|i: int|
        0 <= i < index.symbols.entries_seq().len() ==> #[trigger] pairs[i] == (
            index.symbols.entries_seq()[i].0@,
            sym_rec(index.symbols.entries_seq()[i].1),
        ));
    lemma_records_round_trip(index.symbols.entries_seq(), pairs);
    index.symbols.lemma_view_is_entries_map();
}

impl SymbolIndex {
    /// Flattens every symbol to a plain record, in entry order.
    pub fn to_records(&self) -> (r: Vec<SymbolRecord>)
        ensures
            r@.len() == self.symbols.entries_seq().len(),
            forall|i: int|
                0 <= i < r@.len() ==> record_pair(#[trigger] r@[i]) == (
                    self.symbols.entries_seq()[i].0@,
                    sym_rec(self.symbols.entries_seq()[i].1),
                ),
    {
        let n = self.symbols.entry_count();
        let mut r: Vec<SymbolRecord> = Vec::new();
        let mut i: usize = 0;
        while i < n
            invariant
                n == self.symbols.entries_seq().len(),
                i <= n,
                r@.len() == i,
                forall|k: int|
                    0 <= k < i ==> record_pair(#[trigger] r@[k]) == (
                        self.symbols.entries_seq()[k].0@,
                        sym_rec(self.symbols.entries_seq()[k].1),
                    ),
            decreases n - i,
        {
            let (name, loc) = self.symbols.entry_at(i);
            r.push(
                SymbolRecord {
                    qualified_name: name.clone(),
                    file_path: loc.file_path.clone(),
                    line_start: loc.line_start,
                    line_end: loc.line_end,
                    is_method: loc.is_method,
                    parent_class: match &loc.parent_class {
                        Some(c) => Some(c.clone()),
                        None => None,
                    },
                },
            );
            i = i + 1;
        }
        r
    }

    /// Every stored file hash, as plain pairs in entry order.
    pub fn hash_records(&self) -> (r: Vec<(String, String)>)
        ensures
            r@.len() == self.file_hashes.entries_seq().len(),
            forall|i: int|
                0 <= i < r@.len() ==> (#[trigger] r@[i]).0@
                    == self.file_hashes.entries_seq()[i].0@ && r@[i].1@
                    == self.file_hashes.entries_seq()[i].1@,
    {
        let n = self.file_hashes.entry_count();
        let mut r: Vec<(String, String)> = Vec::new();
        let mut i: usize = 0;
        while i < n
            invariant
                n == self.file_hashes.entries_seq().len(),
                i <= n,
                r@.len() == i,
                forall|k: int|
                    0 <= k < i ==> (#[trigger] r@[k]).0@ == self.file_hashes.entries_seq()[k].0@
                        && r@[k].1@ == self.file_hashes.entries_seq()[k].1@,
            decreases n - i,
        {
            let (path, hash) = self.file_hashes.entry_at(i);
            r.push((path.clone(), hash.clone()));
            i = i + 1;
        }
        r
    }

    /// Rebuilds an index from flattened records: the symbols are the
    /// records folded in order, the hashes likewise, and the stamp is
    /// taken as given.
    pub fn from_records(
        records: Vec<SymbolRecord>,
        hashes: Vec<(String, String)>,
        indexed_at: Option<i64>,
    ) -> (r: SymbolIndex)
        ensures
            sym_map_deep(r.symbols@) == spec_fold_records(
                record_pairs(records@),
                Map::<Seq<char>, SymRec>::empty(),
            ),
            hash_map_deep(r.file_hashes@) == spec_fold_hashes(
                hash_pairs(hashes@),
                Map::<Seq<char>, Seq<char>>::empty(),
            ),
            r.indexed_at == indexed_at,
    {
        let mut index = SymbolIndex::new();
        proof {
            assert(sym_map_deep(index.symbols@) =~= Map::<Seq<char>, SymRec>::empty());
            assert(hash_map_deep(index.file_hashes@) =~= Map::<Seq<char>, Seq<char>>::empty());
            assert(record_pairs(records@).skip(0) =~= record_pairs(records@));
            assert(hash_pairs(hashes@).skip(0) =~= hash_pairs(hashes@));
        }
        let n = records.len();
        let mut i: usize = 0;
        while i < n
            invariant
                n == records@.len(),
                i <= n,
                index.indexed_at is None,
                index.file_hashes@ == Map::<Seq<char>, String>::empty(),
                spec_fold_records(record_pairs(records@).skip(i as int), sym_map_deep(
                    index.symbols@,
                )) == spec_fold_records(
                    record_pairs(records@),
                    Map::<Seq<char>, SymRec>::empty(),
                ),
            decreases n - i,
        {
            proof {
                assert(record_pairs(records@).skip(i as int)[0] == record_pairs(records@)[
                    i as int]);
                assert(record_pairs(records@).skip(i as int).skip(1) =~= record_pairs(
                    records@,
                ).skip(i + 1));
            }
            let rec = &records[i];
            let location = SymbolLocation {
                file_path: rec.file_path.clone(),
                line_start: rec.line_start,
                line_end: rec.line_end,
                is_method: rec.is_method,
                parent_class: match &rec.parent_class {
                    Some(c) => Some(c.clone()),
                    None => None,
                },
            };
            let ghost before = index.symbols@;
            let ghost kv = rec.qualified_name@;
            let ghost lv = sym_rec(location);
            index.add(rec.qualified_name.clone(), location);
            proof {
                assert(sym_map_deep(index.symbols@) =~= sym_map_deep(before).insert(kv, lv));
            }
            i = i + 1;
        }
        proof {
            assert(record_pairs(records@).skip(n as int) =~= Seq::<(Seq<char>, SymRec)>::empty());
        }
        let m = hashes.len();
        let mut j: usize = 0;
        let ghost syms = sym_map_deep(index.symbols@);
        proof {
            assert(hash_map_deep(index.file_hashes@) =~= Map::<Seq<char>, Seq<char>>::empty());
        }
        while j < m
            invariant
                m == hashes@.len(),
                j <= m,
                index.indexed_at is None,
                sym_map_deep(index.symbols@) == syms,
                spec_fold_hashes(hash_pairs(hashes@).skip(j as int), hash_map_deep(
                    index.file_hashes@,
                )) == spec_fold_hashes(
                    hash_pairs(hashes@),
                    Map::<Seq<char>, Seq<char>>::empty(),
                ),
            decreases m - j,
        {
            proof {
                assert(hash_pairs(hashes@).skip(j as int)[0] == hash_pairs(hashes@)[j as int]);
                assert(hash_pairs(hashes@).skip(j as int).skip(1) =~= hash_pairs(hashes@).skip(
                    j + 1,
                ));
            }
            let (path, hash) = (&hashes[j].0, &hashes[j].1);
            let ghost before_h = index.file_hashes@;
            let ghost pv = path@;
            let ghost hv = hash@;
            index.set_file_hash(path.clone(), hash.clone());
            proof {
                assert(hash_map_deep(index.file_hashes@) =~= hash_map_deep(before_h).insert(
                    pv,
                    hv,
                ));
            }
            j = j + 1;
        }
        proof {
            assert(hash_pairs(hashes@).skip(m as int) =~= Seq::<(Seq<char>, Seq<char>)>::empty());
        }
        index.indexed_at = indexed_at;
        index
    }
}

/// Everything the tool persists between runs.
pub struct ArborDatabase {
    pub version: String,
    pub created_at: i64,
    pub updated_at: i64,
    pub environment: Environment,
    pub symbol_index: SymbolIndex,
    pub functions: StrMap<FunctionAnalysis>,
    pub dependency_graph: CallGraph,
    pub grouping_suggestions: StrMap<GroupingSuggestion>,
}

impl ArborDatabase {
    pub fn new(environment: Environment) -> (r: Self)
        ensures
            r.version@ == "0.1.0"@,
            r.environment == environment,
            r.symbol_index.symbols@ == Map::<Seq<char>, SymbolLocation>::empty(),
            r.functions@ == Map::<Seq<char>, FunctionAnalysis>::empty(),
            r.grouping_suggestions@ == Map::<Seq<char>, GroupingSuggestion>::empty(),
    {
        let now = crate::indexer::now_timestamp();
        ArborDatabase {
            version: "0.1.0".to_owned(),
            created_at: now,
            updated_at: now,
            environment,
            symbol_index: SymbolIndex::new(),
            functions: StrMap::new(),
            dependency_graph: CallGraph::new(),
            grouping_suggestions: StrMap::new(),
        }
    }

    /// Stores one analysis under its function id and refreshes the
    /// update stamp.
    pub fn add_function(&mut self, analysis: FunctionAnalysis)
        ensures
            final(self).functions@ == old(self).functions@.insert(
                analysis.function_id@,
                analysis,
            ),
            final(self).symbol_index == old(self).symbol_index,
    {
        self.updated_at = crate::indexer::now_timestamp();
        let key = analysis.function_id.clone();
        self.functions.insert(key, analysis);
    }

    pub fn get_function(&self, id: &str) -> (r: Option<&FunctionAnalysis>)
        ensures
            match r {
                Some(a) => self.functions@.dom().contains(id@) && *a == self.functions@[id@],
                None => !self.functions@.dom().contains(id@),
            },
    {
        self.functions.get(id)
    }

    pub fn remove_function(&mut self, id: &str) -> (r: Option<FunctionAnalysis>)
        ensures
            final(self).functions@ == old(self).functions@.remove(id@),
            r is Some <==> old(self).functions@.dom().contains(id@),
    {
        self.updated_at = crate::indexer::now_timestamp();
        self.functions.remove(id)
    }

    pub fn function_count(&self) -> (r: usize)
        ensures
            self.functions@.dom().finite(),
            r == self.functions@.dom().len(),
    {
        self.functions.len()
    }

    pub fn symbol_count(&self) -> (r: usize)
        ensures
            self.symbol_index.symbols@.dom().finite(),
            r == self.symbol_index.symbols@.dom().len(),
    {
        self.symbol_index.len()
    }

    /// Resolves a qualified name from the stored index alone.
    pub fn resolve_from_index(&self, qualified_name: &str) -> (r: Option<ResolvedFunction>)
        ensures
            match r {
                Some(f) => self.symbol_index.symbols@.dom().contains(qualified_name@)
                    && f.file_path == self.symbol_index.symbols@[qualified_name@].file_path
                    && f.function_name@ == qualified_name@,
                None => !self.symbol_index.symbols@.dom().contains(qualified_name@),
            },
    {
        match self.symbol_index.get(qualified_name) {
            Some(loc) => Some(loc.to_resolved(qualified_name)),
            None => None,
        }
    }
}

} // verus!
