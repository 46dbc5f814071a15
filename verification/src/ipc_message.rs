use vstd::prelude::*;

verus! {

/// Capacity of the status description buffer in the engine's layout.
pub const DESC_LEN: usize = 2048;

/// The status case of an engine message: the only case this bridge reads.
///
/// `desc` is a fixed-capacity buffer holding a NUL-terminated description;
/// the text ends at the first zero byte, or at the buffer's capacity when no
/// zero byte occurs.
pub struct Status {
    pub current: i32,
    pub last_result: i32,
    pub error: i32,
    pub desc: Vec<u8>,
}

impl Status {
    /// The description buffer has exactly the capacity the layout fixes.
    pub open spec fn wf(self) -> bool {
        self.desc@.len() == DESC_LEN
    }
}

/// The payload of an engine message, one variant per case of the engine's
/// overlaid layout, selected there by a companion message-kind tag.
///
/// Only the `Status` case is interpreted by this bridge; the other variants
/// exist so that every tag the engine may send has a shape here and an
/// unrecognized one is ignored rather than misread as a status.
pub enum MsgData {
    Msg,
    Status(Status),
    Notify,
    InstMsg,
    ProcMsg,
    AesKeyMsg,
    Versions,
    Revisions,
}

impl Default for MsgData {
    /// An empty raw message, as the engine zero-initializes one.
    fn default() -> (d: MsgData)
        ensures
            d is Msg,
    {
        MsgData::Msg
    }
}

/// One message received from the engine through the status callback.
pub struct IpcMessage {
    pub magic: i32,
    pub data: MsgData,
}

impl IpcMessage {
    /// The status payload, when this message carries one.
    ///
    /// Messages whose tag this bridge does not interpret yield `None` and are
    /// ignored by the caller.
    pub fn status_case(&self) -> (r: Option<&Status>)
        ensures
            match r {
                Some(st) => self.data matches MsgData::Status(s) && *st == s,
                None => !(self.data matches MsgData::Status(_)),
            },
    {
        match &self.data {
            MsgData::Status(st) => Some(st),
            _ => None,
        }
    }
}

} // verus!
