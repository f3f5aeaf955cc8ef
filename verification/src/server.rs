//! What the RPC layer exchanges with the store.
use vstd::prelude::*;

verus! {

/// A SQL statement to replicate.
#[derive(Debug, Clone, PartialEq, Eq)]
pub struct StoreCommand {
    pub id: usize,
    pub sql: String,
}

/// Model of a [`StoreCommand`].
pub struct StoreCommandView {
    pub id: usize,
    pub sql: Seq<char>,
}

impl View for StoreCommand {
    type V = StoreCommandView;

    open spec fn view(&self) -> StoreCommandView {
        StoreCommandView { id: self.id, sql: self.sql@ }
    }
}

/// The models of a list of commands.
pub open spec fn commands_view(commands: Seq<StoreCommand>) -> Seq<StoreCommandView> {
    commands.map_values(|c: StoreCommand| c@)
}

/// How current the data of a query has to be.
#[derive(Debug, Clone, Copy, PartialEq, Eq)]
pub enum Consistency {
    /// Every statement is executed by the leader of the cluster.
    Strong,
    /// A read may be performed on the local node, and may give stale data.
    RelaxedReads,
}

/// A query for the store to run.
#[derive(Debug, Clone, PartialEq, Eq)]
pub struct StoreQuery {
    pub sql: String,
    pub consistency: Consistency,
}

/// One row of a query result.
#[derive(Debug, Clone, PartialEq, Eq)]
pub struct StoreRow {
    pub values: Vec<String>,
}

/// What the store answers a query with.
#[derive(Debug, Clone, PartialEq, Eq)]
pub struct StoreResults {
    pub rows: Vec<StoreRow>,
}

impl View for StoreRow {
    type V = Seq<Seq<char>>;

    open spec fn view(&self) -> Seq<Seq<char>> {
        self.values@.map_values(|v: String| v@)
    }
}

impl View for StoreResults {
    type V = Seq<Seq<Seq<char>>>;

    open spec fn view(&self) -> Seq<Seq<Seq<char>>> {
        self.rows@.map_values(|r: StoreRow| r@)
    }
}

} // verus!
