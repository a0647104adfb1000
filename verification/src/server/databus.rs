//! The media bus that feeds HLS and FLV previews: one publishing stream at
//! a time may hold it.

use vstd::prelude::*;

use crate::text::{owned, str_eq};

verus! {

/// A piece of media on its way to the previews.
#[derive(Debug, Clone)]
pub struct DataPacket {
    pub stream_id: String,
    pub data: Vec<u8>,
    pub is_video: bool,
    pub timestamp_ms: u32,
}

/// The preview slot: the stream that holds it, if any.
pub struct DataBus {
    active_stream: Option<String>,
}

/// Whether a stream may take the slot, and who holds it afterwards: the
/// holder keeps it (and may ask again), a free slot goes to the caller.
pub open spec fn activation(active: Option<Seq<char>>, id: Seq<char>) -> (bool, Option<Seq<char>>) {
    match active {
        Some(current) => (current == id, active),
        None => (true, Some(id)),
    }
}

/// Who holds the slot after `id` releases it: only the holder can free it.
pub open spec fn release(active: Option<Seq<char>>, id: Seq<char>) -> Option<Seq<char>> {
    if active == Some(id) {
        None
    } else {
        active
    }
}

/// Whether media from `id` reaches the previews: when the slot is free or
/// `id` holds it.
pub open spec fn admits(active: Option<Seq<char>>, id: Seq<char>) -> bool {
    match active {
        Some(current) => current == id,
        None => true,
    }
}

impl DataBus {
    /// The stream holding the slot.
    pub closed spec fn holder(&self) -> Option<Seq<char>> {
        match self.active_stream {
            Some(s) => Some(s@),
            None => None,
        }
    }

    /// A bus with the slot free.
    pub fn new() -> (b: DataBus)
        ensures
            b.holder().is_none(),
    {
        DataBus { active_stream: None }
    }

    /// Claims the slot for `stream_id`; false when another stream holds it.
    pub fn try_activate_stream(&mut self, stream_id: &str) -> (ok: bool)
        ensures
            (ok, final(self).holder()) == activation(old(self).holder(), stream_id@),
    {
        match &self.active_stream {
            Some(current) => str_eq(current.as_str(), stream_id),
            None => {
                self.active_stream = Some(owned(stream_id));
                true
            },
        }
    }

    /// Frees the slot if `stream_id` holds it.
    pub fn deactivate_stream(&mut self, stream_id: &str)
        ensures
            final(self).holder() == release(old(self).holder(), stream_id@),
    {
        let holds = match &self.active_stream {
            Some(current) => str_eq(current.as_str(), stream_id),
            None => false,
        };
        if holds {
            self.active_stream = None;
        }
    }

    /// The packet to put on the bus for media from `stream_id`, or `None`
    /// when another stream holds the slot.
    pub fn publish(&self, stream_id: &str, data: Vec<u8>, is_video: bool, timestamp_ms: u32) -> (r: Option<DataPacket>)
        ensures
            admits(self.holder(), stream_id@) ==> (r matches Some(p) && p.stream_id@ == stream_id@ && p.data == data
                && p.is_video == is_video && p.timestamp_ms == timestamp_ms),
            !admits(self.holder(), stream_id@) ==> r.is_none(),
    {
        let blocked = match &self.active_stream {
            Some(current) => !str_eq(current.as_str(), stream_id),
            None => false,
        };
        if blocked {
            None
        } else {
            Some(DataPacket { stream_id: owned(stream_id), data, is_video, timestamp_ms })
        }
    }
}

/// While one stream holds the preview slot, no other stream can claim it
/// and no other stream's media is admitted.
pub proof fn law_one_preview_stream(active: Option<Seq<char>>, first: Seq<char>, second: Seq<char>)
    requires
        activation(active, first).0,
        first != second,
    ensures
        !activation(activation(active, first).1, second).0,
        activation(activation(activation(active, first).1, second).1, first).0,
        !admits(activation(active, first).1, second),
{
}

/// Once the holder releases the slot, any stream can claim it.
pub proof fn law_release_frees_slot(active: Option<Seq<char>>, holder: Seq<char>, next: Seq<char>)
    requires
        activation(active, holder).0,
    ensures
        release(activation(active, holder).1, holder).is_none(),
        activation(release(activation(active, holder).1, holder), next) == (true, Some(next)),
{
}

} // verus!
