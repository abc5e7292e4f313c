//! Messages to the segment sink, which follows the road nodes and roads.
//! A row of a query is named by its position in the result.

use vstd::prelude::*;
use vstd::string::StringExecFns;

verus! {

/// A message to the segment sink.
#[derive(Debug, PartialEq, Eq)]
pub enum SegMsg {
    /// Marks a full refresh of the road nodes or of the roads: `false`
    /// before the first update of the batch, `true` after the last.
    Order(bool),
    /// Add or update the road node of the row at this position.
    UpdateNode(usize),
    /// Remove the road node of this name.
    RemoveNode(String),
    /// Add or update the road of the row at this position.
    UpdateRoad(usize),
}

/// What a message says.
pub enum SegMsgView {
    Order(bool),
    UpdateNode(usize),
    RemoveNode(Seq<char>),
    UpdateRoad(usize),
}

impl View for SegMsg {
    type V = SegMsgView;

    open spec fn view(&self) -> SegMsgView {
        match *self {
            SegMsg::Order(b) => SegMsgView::Order(b),
            SegMsg::UpdateNode(i) => SegMsgView::UpdateNode(i),
            SegMsg::RemoveNode(n) => SegMsgView::RemoveNode(n@),
            SegMsg::UpdateRoad(i) => SegMsgView::UpdateRoad(i),
        }
    }
}

/// The messages of a full refresh of `rows` road nodes: the opening mark,
/// an update for each row in order, and the closing mark.
pub open spec fn all_nodes(rows: nat) -> Seq<SegMsgView> {
    Seq::new(
        rows + 2,
        |i: int|
            if i == 0 {
                SegMsgView::Order(false)
            } else if i == rows + 1 {
                SegMsgView::Order(true)
            } else {
                SegMsgView::UpdateNode((i - 1) as usize)
            },
    )
}

/// The messages for one road node: an update where the query gave its
/// row, and its removal where the query gave nothing.
pub open spec fn one_node(name: Seq<char>, rows: nat) -> Seq<SegMsgView> {
    if rows == 1 {
        seq![SegMsgView::UpdateNode(0)]
    } else {
        seq![SegMsgView::RemoveNode(name)]
    }
}

/// The messages of a full refresh of `rows` roads: the opening mark, an
/// update for each row in order, and the closing mark.
pub open spec fn all_roads(rows: nat) -> Seq<SegMsgView> {
    Seq::new(
        rows + 2,
        |i: int|
            if i == 0 {
                SegMsgView::Order(false)
            } else if i == rows + 1 {
                SegMsgView::Order(true)
            } else {
                SegMsgView::UpdateRoad((i - 1) as usize)
            },
    )
}

/// The messages for one road: an update of the first row, if there is one.
pub open spec fn one_road(rows: nat) -> Seq<SegMsgView> {
    if rows >= 1 {
        seq![SegMsgView::UpdateRoad(0)]
    } else {
        seq![]
    }
}

/// What a sequence of messages says.
pub open spec fn views(msgs: Seq<SegMsg>) -> Seq<SegMsgView> {
    Seq::new(msgs.len(), |i: int| msgs[i]@)
}

/// Fetch all r_nodes.
///
/// * `rows` Number of rows that the query for all nodes gave.
pub fn fetch_all_nodes(rows: usize) -> (r: Vec<SegMsg>)
    ensures
        views(r@) == all_nodes(rows as nat),
{
    let mut msgs: Vec<SegMsg> = Vec::new();
    msgs.push(SegMsg::Order(false));
    let mut i: usize = 0;
    while i < rows
        invariant
            i <= rows,
            msgs@.len() == i + 1,
            msgs@[0]@ == SegMsgView::Order(false),
            forall|j: int| 1 <= j <= i ==> (#[trigger] msgs@[j])@ == SegMsgView::UpdateNode(
                (j - 1) as usize,
            ),
        decreases rows - i,
    {
        msgs.push(SegMsg::UpdateNode(i));
        i += 1;
    }
    msgs.push(SegMsg::Order(true));
    assert(views(msgs@) =~= all_nodes(rows as nat));
    msgs
}

/// Fetch one r_node.
///
/// * `name` RNode name.
/// * `rows` Number of rows that the query for the node gave: one, or
///   none where the node is gone.
pub fn fetch_one_node(name: &str, rows: usize) -> (r: Vec<SegMsg>)
    requires
        rows <= 1,
    ensures
        views(r@) == one_node(name@, rows as nat),
{
    let mut msgs: Vec<SegMsg> = Vec::new();
    if rows == 1 {
        msgs.push(SegMsg::UpdateNode(0));
    } else {
        msgs.push(SegMsg::RemoveNode(String::from_str(name)));
    }
    assert(views(msgs@) =~= one_node(name@, rows as nat));
    msgs
}

/// Fetch all roads.
///
/// * `rows` Number of rows that the query for all roads gave.
pub fn fetch_all_roads(rows: usize) -> (r: Vec<SegMsg>)
    ensures
        views(r@) == all_roads(rows as nat),
{
    let mut msgs: Vec<SegMsg> = Vec::new();
    msgs.push(SegMsg::Order(false));
    let mut i: usize = 0;
    while i < rows
        invariant
            i <= rows,
            msgs@.len() == i + 1,
            msgs@[0]@ == SegMsgView::Order(false),
            forall|j: int| 1 <= j <= i ==> (#[trigger] msgs@[j])@ == SegMsgView::UpdateRoad(
                (j - 1) as usize,
            ),
        decreases rows - i,
    {
        msgs.push(SegMsg::UpdateRoad(i));
        i += 1;
    }
    msgs.push(SegMsg::Order(true));
    assert(views(msgs@) =~= all_roads(rows as nat));
    msgs
}

/// Fetch one road.
///
/// * `rows` Number of rows that the query for the road gave.
pub fn fetch_one_road(rows: usize) -> (r: Vec<SegMsg>)
    ensures
        views(r@) == one_road(rows as nat),
{
    let mut msgs: Vec<SegMsg> = Vec::new();
    if rows >= 1 {
        msgs.push(SegMsg::UpdateRoad(0));
    }
    assert(views(msgs@) =~= one_road(rows as nat));
    msgs
}

/// A full refresh, of the road nodes or of the roads, is bracketed: it
/// opens with the mark `false`, closes with the mark `true`, and holds
/// between them one update for each row, in the order of the rows, and
/// nothing else.
pub proof fn law_full_refresh_bracketed(rows: nat, i: int)
    requires
        0 <= i < rows + 2,
    ensures
        all_nodes(rows).len() == rows + 2,
        all_nodes(rows).first() == SegMsgView::Order(false),
        all_nodes(rows).last() == SegMsgView::Order(true),
        0 < i < rows + 1 ==> all_nodes(rows)[i] == SegMsgView::UpdateNode((i - 1) as usize),
        all_roads(rows).len() == rows + 2,
        all_roads(rows).first() == SegMsgView::Order(false),
        all_roads(rows).last() == SegMsgView::Order(true),
        0 < i < rows + 1 ==> all_roads(rows)[i] == SegMsgView::UpdateRoad((i - 1) as usize),
{
}

} // verus!
