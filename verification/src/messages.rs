//! Messages of the replication protocol.
//!
//! The replicated entries are [`StoreCommand`]s, and snapshots carry no data.
//! A type that holds text or a list has a model (its view) in which these are
//! sequences; the others are their own model.
use vstd::prelude::*;

use crate::ballot_leader_election::Ballot;
use crate::server::{commands_view, StoreCommand, StoreCommandView};

verus! {

/// A message of the replication protocol, from one node to another.
#[derive(Debug, Clone, PartialEq, Eq)]
pub struct Message {
    pub from: u64,
    pub to: u64,
    pub msg: PaxosMsg,
}

/// The kinds of replication message.
#[derive(Debug, Clone, PartialEq, Eq)]
pub enum PaxosMsg {
    PrepareReq,
    Prepare(Prepare),
    Promise(Promise),
    AcceptSync(AcceptSync),
    FirstAccept(FirstAccept),
    AcceptDecide(AcceptDecide),
    Accepted(Accepted),
    Decide(Decide),
    ProposalForward(Vec<StoreCommand>),
    Compaction(Compaction),
    ForwardCompaction(Compaction),
    AcceptStopSign(AcceptStopSign),
    AcceptedStopSign(AcceptedStopSign),
    DecideStopSign(DecideStopSign),
}

/// Sent by a new leader to learn what its followers have accepted.
#[derive(Debug, Clone, Copy, PartialEq, Eq)]
pub struct Prepare {
    pub n: Ballot,
    pub ld: u64,
    pub n_accepted: Ballot,
    pub la: u64,
}

/// A follower's answer to [`Prepare`].
#[derive(Debug, Clone, PartialEq, Eq)]
pub struct Promise {
    pub n: Ballot,
    pub n_accepted: Ballot,
    pub sync_item: Option<SyncItem>,
    pub ld: u64,
    pub la: u64,
    pub stopsign: Option<StopSign>,
}

/// Brings a follower's log in line with the leader's.
#[derive(Debug, Clone, PartialEq, Eq)]
pub struct AcceptSync {
    pub n: Ballot,
    pub sync_item: SyncItem,
    pub sync_idx: u64,
    pub decide_idx: Option<u64>,
    pub stopsign: Option<StopSign>,
}

/// The first entries of a round, where there was nothing to bring in line.
#[derive(Debug, Clone, PartialEq, Eq)]
pub struct FirstAccept {
    pub n: Ballot,
    pub entries: Vec<StoreCommand>,
}

/// Further entries to accept, and how far the log is decided.
#[derive(Debug, Clone, PartialEq, Eq)]
pub struct AcceptDecide {
    pub n: Ballot,
    pub ld: u64,
    pub entries: Vec<StoreCommand>,
}

/// How far a follower has accepted.
#[derive(Debug, Clone, Copy, PartialEq, Eq)]
pub struct Accepted {
    pub n: Ballot,
    pub la: u64,
}

/// How far the log is decided.
#[derive(Debug, Clone, Copy, PartialEq, Eq)]
pub struct Decide {
    pub n: Ballot,
    pub ld: u64,
}

/// Shortens the log, by dropping a prefix or by a snapshot.
#[derive(Debug, Clone, Copy, PartialEq, Eq)]
pub enum Compaction {
    Trim(Option<u64>),
    Snapshot(u64),
}

/// Asks to accept the entry that ends a configuration.
#[derive(Debug, Clone, PartialEq, Eq)]
pub struct AcceptStopSign {
    pub n: Ballot,
    pub ss: StopSign,
}

/// A follower has accepted the end of the configuration.
#[derive(Debug, Clone, Copy, PartialEq, Eq)]
pub struct AcceptedStopSign {
    pub n: Ballot,
}

/// The end of the configuration is decided.
#[derive(Debug, Clone, Copy, PartialEq, Eq)]
pub struct DecideStopSign {
    pub n: Ballot,
}

/// What a log is brought in line with.
#[derive(Debug, Clone, PartialEq, Eq)]
pub enum SyncItem {
    Entries(Vec<StoreCommand>),
    Snapshot(SnapshotType),
    /// There is nothing to bring over.
    Nothing,
}

/// The kinds of snapshot.
#[derive(Debug, Clone, Copy, PartialEq, Eq)]
pub enum SnapshotType {
    Complete,
    Delta,
    _phtm,
}

/// The entry that ends a configuration and names the next one.
#[derive(Debug, Clone, PartialEq, Eq)]
pub struct StopSign {
    pub config_id: u32,
    pub nodes: Vec<u64>,
    pub metadata: Option<Vec<u8>>,
}

/// Model of a [`Message`].
pub struct MessageView {
    pub from: u64,
    pub to: u64,
    pub msg: PaxosMsgView,
}

/// Model of a [`PaxosMsg`].
pub enum PaxosMsgView {
    PrepareReq,
    Prepare(Prepare),
    Promise(PromiseView),
    AcceptSync(AcceptSyncView),
    FirstAccept(FirstAcceptView),
    AcceptDecide(AcceptDecideView),
    Accepted(Accepted),
    Decide(Decide),
    ProposalForward(Seq<StoreCommandView>),
    Compaction(Compaction),
    ForwardCompaction(Compaction),
    AcceptStopSign(AcceptStopSignView),
    AcceptedStopSign(AcceptedStopSign),
    DecideStopSign(DecideStopSign),
}

/// Model of a [`Promise`].
pub struct PromiseView {
    pub n: Ballot,
    pub n_accepted: Ballot,
    pub sync_item: Option<SyncItemView>,
    pub ld: u64,
    pub la: u64,
    pub stopsign: Option<StopSignView>,
}

/// Model of an [`AcceptSync`].
pub struct AcceptSyncView {
    pub n: Ballot,
    pub sync_item: SyncItemView,
    pub sync_idx: u64,
    pub decide_idx: Option<u64>,
    pub stopsign: Option<StopSignView>,
}

/// Model of a [`FirstAccept`].
pub struct FirstAcceptView {
    pub n: Ballot,
    pub entries: Seq<StoreCommandView>,
}

/// Model of an [`AcceptDecide`].
pub struct AcceptDecideView {
    pub n: Ballot,
    pub ld: u64,
    pub entries: Seq<StoreCommandView>,
}

/// Model of an [`AcceptStopSign`].
pub struct AcceptStopSignView {
    pub n: Ballot,
    pub ss: StopSignView,
}

/// Model of a [`SyncItem`].
pub enum SyncItemView {
    Entries(Seq<StoreCommandView>),
    Snapshot(SnapshotType),
    /// There is nothing to bring over.
    Nothing,
}

/// Model of a [`StopSign`].
pub struct StopSignView {
    pub config_id: u32,
    pub nodes: Seq<u64>,
    pub metadata: Option<Seq<u8>>,
}

impl View for Message {
    type V = MessageView;

    open spec fn view(&self) -> MessageView {
        MessageView { from: self.from, to: self.to, msg: self.msg@ }
    }
}

impl View for PaxosMsg {
    type V = PaxosMsgView;

    open spec fn view(&self) -> PaxosMsgView {
        match *self {
            PaxosMsg::PrepareReq => PaxosMsgView::PrepareReq,
            PaxosMsg::Prepare(m) => PaxosMsgView::Prepare(m),
            PaxosMsg::Promise(m) => PaxosMsgView::Promise(m@),
            PaxosMsg::AcceptSync(m) => PaxosMsgView::AcceptSync(m@),
            PaxosMsg::FirstAccept(m) => PaxosMsgView::FirstAccept(m@),
            PaxosMsg::AcceptDecide(m) => PaxosMsgView::AcceptDecide(m@),
            PaxosMsg::Accepted(m) => PaxosMsgView::Accepted(m),
            PaxosMsg::Decide(m) => PaxosMsgView::Decide(m),
            PaxosMsg::ProposalForward(m) => PaxosMsgView::ProposalForward(commands_view(m@)),
            PaxosMsg::Compaction(m) => PaxosMsgView::Compaction(m),
            PaxosMsg::ForwardCompaction(m) => PaxosMsgView::ForwardCompaction(m),
            PaxosMsg::AcceptStopSign(m) => PaxosMsgView::AcceptStopSign(m@),
            PaxosMsg::AcceptedStopSign(m) => PaxosMsgView::AcceptedStopSign(m),
            PaxosMsg::DecideStopSign(m) => PaxosMsgView::DecideStopSign(m),
        }
    }
}

impl View for Promise {
    type V = PromiseView;

    open spec fn view(&self) -> PromiseView {
        PromiseView {
            n: self.n,
            n_accepted: self.n_accepted,
            sync_item: match self.sync_item {
                Some(s) => Some(s@),
                None => None,
            },
            ld: self.ld,
            la: self.la,
            stopsign: match self.stopsign {
                Some(ss) => Some(ss@),
                None => None,
            },
        }
    }
}

impl View for AcceptSync {
    type V = AcceptSyncView;

    open spec fn view(&self) -> AcceptSyncView {
        AcceptSyncView {
            n: self.n,
            sync_item: self.sync_item@,
            sync_idx: self.sync_idx,
            decide_idx: self.decide_idx,
            stopsign: match self.stopsign {
                Some(ss) => Some(ss@),
                None => None,
            },
        }
    }
}

impl View for FirstAccept {
    type V = FirstAcceptView;

    open spec fn view(&self) -> FirstAcceptView {
        FirstAcceptView { n: self.n, entries: commands_view(self.entries@) }
    }
}

impl View for AcceptDecide {
    type V = AcceptDecideView;

    open spec fn view(&self) -> AcceptDecideView {
        AcceptDecideView { n: self.n, ld: self.ld, entries: commands_view(self.entries@) }
    }
}

impl View for AcceptStopSign {
    type V = AcceptStopSignView;

    open spec fn view(&self) -> AcceptStopSignView {
        AcceptStopSignView { n: self.n, ss: self.ss@ }
    }
}

impl View for SyncItem {
    type V = SyncItemView;

    open spec fn view(&self) -> SyncItemView {
        match *self {
            SyncItem::Entries(entries) => SyncItemView::Entries(commands_view(entries@)),
            SyncItem::Snapshot(ss) => SyncItemView::Snapshot(ss),
            SyncItem::Nothing => SyncItemView::Nothing,
        }
    }
}

impl View for StopSign {
    type V = StopSignView;

    open spec fn view(&self) -> StopSignView {
        StopSignView {
            config_id: self.config_id,
            nodes: self.nodes@,
            metadata: match self.metadata {
                Some(md) => Some(md@),
                None => None,
            },
        }
    }
}

} // verus!
