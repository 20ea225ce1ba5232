use vstd::prelude::*;

verus! {

/// A device known to the presence registry: its generated identifier, the
/// display name it announced, and the time it was last heard from, as
/// milliseconds since the Unix epoch.
pub struct DeviceInfo {
    pub id: String,
    pub name: String,
    pub last_seen: i64,
}

impl Clone for DeviceInfo {
    fn clone(&self) -> (r: Self)
        ensures
            r == *self,
    {
        DeviceInfo { id: self.id.clone(), name: self.name.clone(), last_seen: self.last_seen }
    }
}

} // verus!
