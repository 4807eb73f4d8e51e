//! Laying out the outgoing messages for one delivery batch.
//!
//! Each (path, caption) pair of a batch becomes one outgoing message: the
//! caption with the uploaded image when the asset is on disk, or the
//! caption with a fixed failure fragment when it is not. After the batch,
//! one end-of-batch marker message closes the delivery — always last.

use crate::request::Config;
use vstd::prelude::*;

verus! {

/// One (path, caption) pair of a delivery batch, together with whether the
/// asset file materialized on disk.
#[derive(Clone, Debug)]
pub struct DeliveryEntry {
    /// Local path of the downloaded asset.
    pub path: String,
    /// Caption text for the asset.
    pub caption: String,
    /// Whether the asset file exists at delivery time.
    pub available: bool,
}

/// One outgoing chat message of a delivery.
#[derive(Clone, Debug)]
pub enum OutgoingMessage {
    /// The caption together with the uploaded image.
    ImageMessage {
        /// Local path of the image to upload.
        path: String,
        /// Caption text sent with the image.
        caption: String,
    },
    /// The caption together with a fixed failure fragment, sent when the
    /// asset did not materialize.
    MissingAsset {
        /// Caption text sent without the image.
        caption: String,
        /// The fixed failure text standing in for the image.
        note: String,
    },
    /// The end-of-batch marker.
    BatchDone {
        /// The fixed end-of-batch text.
        text: String,
    },
}

/// Plans the outgoing messages of one batch: one message per entry, in
/// batch order, and the end-of-batch marker strictly last.
pub fn plan_delivery(entries: &Vec<DeliveryEntry>, config: &Config) -> (out: Vec<OutgoingMessage>)
    ensures
        out@.len() == entries@.len() + 1,
        forall|i: int|
            0 <= i < entries@.len() ==> (if entries@[i].available {
                out@[i] matches OutgoingMessage::ImageMessage { path, caption } && path@
                    == entries@[i].path@ && caption@ == entries@[i].caption@
            } else {
                out@[i] matches OutgoingMessage::MissingAsset { caption, note } && caption@
                    == entries@[i].caption@ && note@ == config.err_msg.bad_dld@
            }),
        out@.last() matches OutgoingMessage::BatchDone { text } && text@
            == config.tip_msg.tip_end@,
{
    let mut out: Vec<OutgoingMessage> = Vec::new();
    let mut i: usize = 0;
    while i < entries.len()
        invariant
            i <= entries@.len(),
            out@.len() == i,
            forall|k: int|
                0 <= k < i ==> (if entries@[k].available {
                    out@[k] matches OutgoingMessage::ImageMessage { path, caption } && path@
                        == entries@[k].path@ && caption@ == entries@[k].caption@
                } else {
                    out@[k] matches OutgoingMessage::MissingAsset { caption, note } && caption@
                        == entries@[k].caption@ && note@ == config.err_msg.bad_dld@
                }),
        decreases entries@.len() - i,
    {
        let e = &entries[i];
        if e.available {
            out.push(
                OutgoingMessage::ImageMessage { path: e.path.clone(), caption: e.caption.clone() },
            );
        } else {
            out.push(
                OutgoingMessage::MissingAsset {
                    caption: e.caption.clone(),
                    note: config.err_msg.bad_dld.clone(),
                },
            );
        }
        i += 1;
    }
    out.push(OutgoingMessage::BatchDone { text: config.tip_msg.tip_end.clone() });
    out
}

/// Whether a message's channel and sender are both allow-listed. Only
/// commands from an allowed sender in an allowed channel enter the
/// pipeline.
pub fn is_allowed(groups: &Vec<i64>, members: &Vec<i64>, group_id: i64, member_id: i64) -> (r:
    bool)
    ensures
        r == (groups@.contains(group_id) && members@.contains(member_id)),
{
    contains_i64(groups, group_id) && contains_i64(members, member_id)
}

fn contains_i64(v: &Vec<i64>, x: i64) -> (r: bool)
    ensures
        r == v@.contains(x),
{
    let mut i: usize = 0;
    while i < v.len()
        invariant
            i <= v@.len(),
            forall|k: int| 0 <= k < i ==> v@[k] != x,
        decreases v@.len() - i,
    {
        if v[i] == x {
            return true;
        }
        i += 1;
    }
    false
}

} // verus!
