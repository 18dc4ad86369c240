//! What is recorded about a message that was serialized for the peer.

use crate::message::{wire_size, DataMessage, DataMessageView};
use vstd::prelude::*;

verus! {

/// One observation of a sent message: the workload that produced it, the
/// rows it holds and its size on the wire in bytes.
#[derive(Clone, Copy, Debug, PartialEq, Eq)]
pub struct SentMetrics<W> {
    pub workload: W,
    pub num_rows: usize,
    pub msg_size: usize,
}

/// The row count and the message size are recorded together or not at all:
/// there is an observation exactly when the message has both a workload and
/// a row count, and it then holds both beside the size of what was serialized.
pub open spec fn sent_metrics<W>(
    workload: Option<W>,
    num_rows: Option<usize>,
    serialized: DataMessageView,
) -> Option<SentMetrics<W>> {
    if workload is Some && num_rows is Some {
        Some(
            SentMetrics {
                workload: workload->0,
                num_rows: num_rows->0,
                msg_size: wire_size(serialized) as usize,
            },
        )
    } else {
        None
    }
}

/// Decides what to record about a message that was serialized as `msg_ws`.
pub fn report_ws_sent_metrics<W>(
    workload: Option<W>,
    num_rows: Option<usize>,
    msg_ws: &DataMessage,
) -> (observation: Option<SentMetrics<W>>)
    ensures
        observation == sent_metrics(workload, num_rows, msg_ws@),
{
    match (workload, num_rows) {
        (Some(workload), Some(num_rows)) => Some(
            SentMetrics { workload, num_rows, msg_size: msg_ws.len() },
        ),
        _ => None,
    }
}

} // verus!
