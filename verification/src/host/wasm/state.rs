//! Per-instance state that the host keeps for a guest.

use vstd::prelude::*;

verus! {

/// Which guest an instance runs.
#[derive(Clone, Debug)]
pub enum InstanceId {
    Connection(String),
}

/// Host data attached to a guest instance.
pub struct GuestState<D> {
    pub id: InstanceId,
    pub data: D,
}

impl<D> GuestState<D> {
    /// State for the instance of connection `id`.
    pub fn for_connection(id: &str, data: D) -> (state: Self)
        ensures
            state.id matches InstanceId::Connection(name) && name@ == id@,
            state.data == data,
    {
        Self { id: InstanceId::Connection(String::from_str(id)), data }
    }
}

} // verus!
