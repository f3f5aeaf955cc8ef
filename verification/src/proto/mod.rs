//! The objects that travel on the wire.
//!
//! A field that another message fills may be absent on the wire, so it is an
//! `Option`. `complete` says which objects hold everything that their reader
//! needs; `is_complete` tests it. As with the messages, a type that holds text or
//! a list has a model in which these are sequences.
use vstd::prelude::*;

use crate::proto::sync_item_object::ItemView;
use crate::proto::paxos_msg_object::MsgView;

pub mod ble_message_object;
pub mod compaction_object;
pub mod complete;
pub mod paxos_msg_object;
pub mod stop_sign_object;
pub mod sync_item_object;

verus! {

/// A SQL statement to execute. The consistency that it asks for is carried as a
/// number.
#[derive(Debug, Clone, PartialEq, Eq)]
pub struct Query {
    pub sql: String,
    pub consistency: i32,
}

/// The kinds of consistency.
#[derive(Debug, Clone, Copy, PartialEq, Eq)]
pub enum Consistency {
    Strong,
    RelaxedReads,
}

impl Consistency {
    /// The number that stands for the kind on the wire. Strong consistency has the
    /// number of a field that is not set.
    pub open spec fn code(self) -> i32 {
        match self {
            Consistency::Strong => 0,
            Consistency::RelaxedReads => 1,
        }
    }

    /// Returns the number that stands for the kind on the wire.
    pub fn to_i32(self) -> (code: i32)
        ensures
            code == self.code(),
            code == 0 <==> self is Strong,
            code == 1 <==> self is RelaxedReads,
    {
        match self {
            Consistency::Strong => 0,
            Consistency::RelaxedReads => 1,
        }
    }

    /// Returns the kind that a number stands for, if there is one.
    pub fn from_i32(value: i32) -> (kind: Option<Consistency>)
        ensures
            kind is Some <==> 0 <= value <= 1,
            kind == Some(Consistency::Strong) <==> value == 0,
            kind == Some(Consistency::RelaxedReads) <==> value == 1,
            match kind {
                Some(kind) => kind.code() == value,
                None => forall|k: Consistency| #[trigger] k.code() != value,
            },
    {
        match value {
            0 => Some(Consistency::Strong),
            1 => Some(Consistency::RelaxedReads),
            _ => None,
        }
    }
}

/// One row of a query result.
#[derive(Debug, Clone, PartialEq, Eq)]
pub struct QueryRow {
    pub values: Vec<String>,
}

/// The result of a query.
#[derive(Debug, Clone, PartialEq, Eq)]
pub struct QueryResults {
    pub rows: Vec<QueryRow>,
}

/// The empty answer.
#[derive(Debug, Clone, Copy, PartialEq, Eq)]
pub struct Void {}

/// Wire form of a ballot.
#[derive(Debug, Clone, Copy, PartialEq, Eq)]
pub struct ballot_obj {
    pub n: u32,
    pub priority: u64,
    pub pid: u64,
}

/// Wire form of a replication message.
#[derive(Debug, Clone, PartialEq, Eq)]
pub struct paxos_msg_obj {
    pub from: u64,
    pub to: u64,
    pub msg: Option<paxos_msg_object::Msg>,
}

/// Wire form of a leader election message.
#[derive(Debug, Clone, Copy, PartialEq, Eq)]
pub struct ble_msg__obj {
    pub from: u64,
    pub to: u64,
    pub msg: Option<ble_message_object::Msg>,
}

/// Wire form of a request to prepare.
#[derive(Debug, Clone, Copy, PartialEq, Eq)]
pub struct prpd_r_obj {}

/// Wire form of `Prepare`.
#[derive(Debug, Clone, Copy, PartialEq, Eq)]
pub struct prep_obj {
    pub n: Option<ballot_obj>,
    pub ld: u64,
    pub n_accepted: Option<ballot_obj>,
    pub la: u64,
}

/// Wire form of a store command.
#[derive(Debug, Clone, PartialEq, Eq)]
pub struct str_cmd_obj {
    pub id: u64,
    pub sql: String,
}

/// Wire form of `SyncItem`.
#[derive(Debug, Clone, PartialEq, Eq)]
pub struct sync_itm_obj {
    pub item: Option<sync_item_object::Item>,
}

/// Wire form of `StopSign`.
#[derive(Debug, Clone, PartialEq, Eq)]
pub struct stp_obj {
    pub config_id: u32,
    pub nodes: Vec<u64>,
    pub metadata: Option<stop_sign_object::Metadata>,
}

/// Wire form of `Promise`.
#[derive(Debug, Clone, PartialEq, Eq)]
pub struct p_obj {
    pub n: Option<ballot_obj>,
    pub n_accepted: Option<ballot_obj>,
    pub sync_item: Option<sync_itm_obj>,
    pub ld: u64,
    pub la: u64,
    pub stopsign: Option<stp_obj>,
}

/// Wire form of `AcceptSync`.
#[derive(Debug, Clone, PartialEq, Eq)]
pub struct acc_sync_obj {
    pub n: Option<ballot_obj>,
    pub sync_item: Option<sync_itm_obj>,
    pub sync_idx: u64,
    pub decide_idx: Option<u64>,
    pub stopsign: Option<stp_obj>,
}

/// Wire form of `FirstAccept`.
#[derive(Debug, Clone, PartialEq, Eq)]
pub struct f_acc_obj {
    pub n: Option<ballot_obj>,
    pub entries: Vec<str_cmd_obj>,
}

/// Wire form of `AcceptDecide`.
#[derive(Debug, Clone, PartialEq, Eq)]
pub struct acc_dcd_obj {
    pub n: Option<ballot_obj>,
    pub ld: u64,
    pub entries: Vec<str_cmd_obj>,
}

/// Wire form of `Accepted`.
#[derive(Debug, Clone, Copy, PartialEq, Eq)]
pub struct acc_ed_obj {
    pub n: Option<ballot_obj>,
    pub la: u64,
}

/// Wire form of `Decide`.
#[derive(Debug, Clone, Copy, PartialEq, Eq)]
pub struct dcd_obj {
    pub n: Option<ballot_obj>,
    pub ld: u64,
}

/// Wire form of forwarded proposals.
#[derive(Debug, Clone, PartialEq, Eq)]
pub struct prpd_fwd_obj {
    pub entries: Vec<str_cmd_obj>,
}

/// Wire form of `Compaction`.
#[derive(Debug, Clone, Copy, PartialEq, Eq)]
pub struct comp_obj {
    pub compaction: Option<compaction_object::Compaction>,
}

/// Wire form of `AcceptStopSign`.
#[derive(Debug, Clone, PartialEq, Eq)]
pub struct Acceptstp_obj {
    pub n: Option<ballot_obj>,
    pub ss: Option<stp_obj>,
}

/// Wire form of `AcceptedStopSign`.
#[derive(Debug, Clone, Copy, PartialEq, Eq)]
pub struct Acceptedstp_obj {
    pub n: Option<ballot_obj>,
}

/// Wire form of `DecideStopSign`.
#[derive(Debug, Clone, Copy, PartialEq, Eq)]
pub struct Decidestp_obj {
    pub n: Option<ballot_obj>,
}

/// Wire form of a heartbeat request.
#[derive(Debug, Clone, Copy, PartialEq, Eq)]
pub struct beat_req_obj {
    pub round: u32,
}

/// Wire form of a heartbeat reply.
#[derive(Debug, Clone, Copy, PartialEq, Eq)]
pub struct beat_rep_obj {
    pub round: u32,
    pub ballot: Option<ballot_obj>,
    pub majority_connected: bool,
}

/// Model of a [`paxos_msg_obj`].
pub struct PaxosMsgObjView {
    pub from: u64,
    pub to: u64,
    pub msg: Option<MsgView>,
}

/// Model of a [`str_cmd_obj`].
pub struct StrCmdObjView {
    pub id: u64,
    pub sql: Seq<char>,
}

/// Model of a [`sync_itm_obj`].
pub struct SyncItmObjView {
    pub item: Option<ItemView>,
}

/// Model of a [`stp_obj`]; the metadata are the values of the list.
pub struct StpObjView {
    pub config_id: u32,
    pub nodes: Seq<u64>,
    pub metadata: Option<Seq<u32>>,
}

/// Model of a [`p_obj`].
pub struct PObjView {
    pub n: Option<ballot_obj>,
    pub n_accepted: Option<ballot_obj>,
    pub sync_item: Option<SyncItmObjView>,
    pub ld: u64,
    pub la: u64,
    pub stopsign: Option<StpObjView>,
}

/// Model of an [`acc_sync_obj`].
pub struct AccSyncObjView {
    pub n: Option<ballot_obj>,
    pub sync_item: Option<SyncItmObjView>,
    pub sync_idx: u64,
    pub decide_idx: Option<u64>,
    pub stopsign: Option<StpObjView>,
}

/// Model of an [`f_acc_obj`].
pub struct FAccObjView {
    pub n: Option<ballot_obj>,
    pub entries: Seq<StrCmdObjView>,
}

/// Model of an [`acc_dcd_obj`].
pub struct AccDcdObjView {
    pub n: Option<ballot_obj>,
    pub ld: u64,
    pub entries: Seq<StrCmdObjView>,
}

/// Model of a [`prpd_fwd_obj`].
pub struct PrpdFwdObjView {
    pub entries: Seq<StrCmdObjView>,
}

/// Model of an [`Acceptstp_obj`].
pub struct AcceptStpObjView {
    pub n: Option<ballot_obj>,
    pub ss: Option<StpObjView>,
}

impl View for QueryRow {
    type V = Seq<Seq<char>>;

    open spec fn view(&self) -> Seq<Seq<char>> {
        self.values@.map_values(|v: String| v@)
    }
}

impl View for QueryResults {
    type V = Seq<Seq<Seq<char>>>;

    open spec fn view(&self) -> Seq<Seq<Seq<char>>> {
        self.rows@.map_values(|r: QueryRow| r@)
    }
}

impl View for paxos_msg_obj {
    type V = PaxosMsgObjView;

    open spec fn view(&self) -> PaxosMsgObjView {
        PaxosMsgObjView {
            from: self.from,
            to: self.to,
            msg: match self.msg {
                Some(msg) => Some(msg@),
                None => None,
            },
        }
    }
}

impl View for str_cmd_obj {
    type V = StrCmdObjView;

    open spec fn view(&self) -> StrCmdObjView {
        StrCmdObjView { id: self.id, sql: self.sql@ }
    }
}

/// The models of a list of commands on the wire.
pub open spec fn command_objs_view(commands: Seq<str_cmd_obj>) -> Seq<StrCmdObjView> {
    commands.map_values(|c: str_cmd_obj| c@)
}

impl View for sync_itm_obj {
    type V = SyncItmObjView;

    open spec fn view(&self) -> SyncItmObjView {
        SyncItmObjView {
            item: match self.item {
                Some(item) => Some(item@),
                None => None,
            },
        }
    }
}

impl View for stp_obj {
    type V = StpObjView;

    open spec fn view(&self) -> StpObjView {
        StpObjView {
            config_id: self.config_id,
            nodes: self.nodes@,
            metadata: match self.metadata {
                Some(md) => Some(md.vec@),
                None => None,
            },
        }
    }
}

impl View for p_obj {
    type V = PObjView;

    open spec fn view(&self) -> PObjView {
        PObjView {
            n: self.n,
            n_accepted: self.n_accepted,
            sync_item: match self.sync_item {
                Some(s) => Some(s@),
                None => None,
            },
            ld: self.ld,
            la: self.la,
            stopsign: match self.stopsign {
                Some(ss) => Some(ss@),
                None => None,
            },
        }
    }
}

impl View for acc_sync_obj {
    type V = AccSyncObjView;

    open spec fn view(&self) -> AccSyncObjView {
        AccSyncObjView {
            n: self.n,
            sync_item: match self.sync_item {
                Some(s) => Some(s@),
                None => None,
            },
            sync_idx: self.sync_idx,
            decide_idx: self.decide_idx,
            stopsign: match self.stopsign {
                Some(ss) => Some(ss@),
                None => None,
            },
        }
    }
}

impl View for f_acc_obj {
    type V = FAccObjView;

    open spec fn view(&self) -> FAccObjView {
        FAccObjView { n: self.n, entries: command_objs_view(self.entries@) }
    }
}

impl View for acc_dcd_obj {
    type V = AccDcdObjView;

    open spec fn view(&self) -> AccDcdObjView {
        AccDcdObjView { n: self.n, ld: self.ld, entries: command_objs_view(self.entries@) }
    }
}

impl View for prpd_fwd_obj {
    type V = PrpdFwdObjView;

    open spec fn view(&self) -> PrpdFwdObjView {
        PrpdFwdObjView { entries: command_objs_view(self.entries@) }
    }
}

impl View for Acceptstp_obj {
    type V = AcceptStpObjView;

    open spec fn view(&self) -> AcceptStpObjView {
        AcceptStpObjView {
            n: self.n,
            ss: match self.ss {
                Some(ss) => Some(ss@),
                None => None,
            },
        }
    }
}

} // verus!
