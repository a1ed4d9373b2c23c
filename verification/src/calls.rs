//! Calls in rooms.

use vstd::prelude::*;

verus! {

/// A member of a call: a user with one of their devices.
pub struct CallMemberIdentifier {
    pub user_id: String,
    pub device_id: String,
}

/// A call in a room.
pub struct RoomCall {
    /// When the call started, in milliseconds.
    pub start_time: u64,
    pub active_members: Vec<CallMemberIdentifier>,
}

impl RoomCall {
    /// When the call started, in milliseconds.
    pub fn start_time(&self) -> (r: u64)
        ensures
            r == self.start_time,
    {
        self.start_time
    }

    /// The members of the call.
    pub fn active_members(&self) -> (r: Vec<CallMemberIdentifier>)
        ensures
            r@ == self.active_members@,
    {
        let mut out: Vec<CallMemberIdentifier> = Vec::new();
        let mut i: usize = 0;
        while i < self.active_members.len()
            invariant
                i <= self.active_members.len(),
                out@ == self.active_members@.take(i as int),
            decreases self.active_members.len() - i,
        {
            out.push(
                CallMemberIdentifier {
                    user_id: self.active_members[i].user_id.clone(),
                    device_id: self.active_members[i].device_id.clone(),
                },
            );
            i = i + 1;
        }
        proof {
            assert(self.active_members@.take(i as int) =~= self.active_members@);
        }
        out
    }
}

/// A call tells when it began and who takes part.
pub proof fn calls_tell_of_themselves(call: RoomCall, start: u64, members: Vec<CallMemberIdentifier>)
    requires
        call_ensures(RoomCall::start_time, (&call,), start),
        call_ensures(RoomCall::active_members, (&call,), members),
    ensures
        start == call.start_time,
        members@ == call.active_members@,
{
}

} // verus!
