//! Typed model of a release's status as reported by the package manager's
//! list and search output, and the selection of a release by name.
//!
//! The tool reports list entries and search entries under differently-cased
//! schemas; both carry the same embedded chart metadata.

use vstd::prelude::*;

verus! {

/// Chart-section metadata of a release; the tool may omit either field for
/// some release states, in which case it defaults to empty.
#[derive(Debug, PartialEq, Eq)]
pub struct Metadata {
    pub app_version: String,
    pub name: String,
}

/// The chart section of a list entry.
#[derive(Debug, PartialEq, Eq)]
pub struct Chart {
    pub metadata: Metadata,
}

/// The info section of a list entry: the release's status word.
#[derive(Debug, PartialEq, Eq)]
pub struct Info {
    pub status: String,
}

/// One entry of the tool's list output: a release snapshot, constructed
/// fresh per query and never mutated afterwards.
#[derive(Debug, PartialEq, Eq)]
pub struct ChartInfo {
    pub name: String,
    pub namespace: String,
    pub chart: Chart,
    pub info: Info,
}

/// The chart metadata embedded in one search entry.
#[derive(Debug, PartialEq, Eq)]
pub struct EmbeddedChart {
    pub metadata: Metadata,
}

/// One entry of the tool's repository-search output.
#[derive(Debug, PartialEq, Eq)]
pub struct ChartSearch {
    pub name: String,
    pub chart: EmbeddedChart,
}

impl Default for Metadata {
    /// An absent chart section defaults to empty fields.
    fn default() -> (r: Self)
        ensures
            r.app_version@ == Seq::<char>::empty(),
            r.name@ == Seq::<char>::empty(),
    {
        Metadata { app_version: String::new(), name: String::new() }
    }
}

impl Default for Chart {
    fn default() -> (r: Self)
        ensures
            r.metadata.app_version@ == Seq::<char>::empty(),
            r.metadata.name@ == Seq::<char>::empty(),
    {
        Chart { metadata: Metadata::default() }
    }
}

impl Default for EmbeddedChart {
    fn default() -> (r: Self)
        ensures
            r.metadata.app_version@ == Seq::<char>::empty(),
            r.metadata.name@ == Seq::<char>::empty(),
    {
        EmbeddedChart { metadata: Metadata::default() }
    }
}

impl Clone for Metadata {
    fn clone(&self) -> (r: Self)
        ensures
            r == *self,
    {
        Metadata { app_version: self.app_version.clone(), name: self.name.clone() }
    }
}

impl Clone for Chart {
    fn clone(&self) -> (r: Self)
        ensures
            r == *self,
    {
        Chart { metadata: self.metadata.clone() }
    }
}

impl Clone for Info {
    fn clone(&self) -> (r: Self)
        ensures
            r == *self,
    {
        Info { status: self.status.clone() }
    }
}

impl Clone for ChartInfo {
    fn clone(&self) -> (r: Self)
        ensures
            r == *self,
    {
        ChartInfo {
            name: self.name.clone(),
            namespace: self.namespace.clone(),
            chart: self.chart.clone(),
            info: self.info.clone(),
        }
    }
}

impl Clone for EmbeddedChart {
    fn clone(&self) -> (r: Self)
        ensures
            r == *self,
    {
        EmbeddedChart { metadata: self.metadata.clone() }
    }
}

impl Clone for ChartSearch {
    fn clone(&self) -> (r: Self)
        ensures
            r == *self,
    {
        ChartSearch { name: self.name.clone(), chart: self.chart.clone() }
    }
}

/// The first entry of `infos` whose name equals `name`, in list order;
/// `None` when no entry matches. Duplicate names across namespaces resolve
/// to the first match by design.
pub open spec fn first_named(infos: Seq<ChartInfo>, name: Seq<char>) -> Option<ChartInfo>
    decreases infos.len(),
{
    if infos.len() == 0 {
        None
    } else if infos[0].name@ == name {
        Some(infos[0])
    } else {
        first_named(infos.drop_first(), name)
    }
}

/// Linear scan for the first entry named `name`, in list order.
pub fn select_named(infos: &Vec<ChartInfo>, name: &String) -> (r: Option<ChartInfo>)
    ensures
        r == first_named(infos@, name@),
{
    let mut i: usize = 0;
    proof {
        assert(infos@.skip(0) =~= infos@);
    }
    while i < infos.len()
        invariant
            i <= infos@.len(),
            first_named(infos@, name@) == first_named(infos@.skip(i as int), name@),
        decreases infos@.len() - i,
    {
        proof {
            assert(infos@.skip(i as int).len() > 0);
            assert(infos@.skip(i as int)[0] == infos@[i as int]);
        }
        if infos[i].name == *name {
            return Some(infos[i].clone());
        }
        proof {
            assert(infos@.skip(i as int).drop_first() =~= infos@.skip(i as int + 1));
            assert(first_named(infos@.skip(i as int), name@) == first_named(
                infos@.skip(i as int).drop_first(),
                name@,
            ));
        }
        i += 1;
    }
    proof {
        assert(infos@.skip(i as int).len() == 0);
    }
    None
}

} // verus!
