use vstd::prelude::*;
#[allow(unused_imports)]
use crate::snowflake::SnowflakeID;

verus! {

/// Gateway payload `HelloData` (hello), as the fields the client reads.
#[derive(Clone, Debug)]
pub struct HelloData {
    pub heartbeat_interval: u64,
}

} // verus!
