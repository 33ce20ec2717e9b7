use vstd::prelude::*;
#[allow(unused_imports)]
use crate::snowflake::SnowflakeID;

verus! {

} // verus!
