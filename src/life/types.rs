//! Records of the dormitory-utilities portal.

use vstd::prelude::*;

verus! {

/// The envelope of the dormitory portal's answers.
#[derive(Debug)]
pub struct OuterResp<T> {
    pub e: i32,
    pub m: String,
    pub d: InnerData<T>,
}
/// The payload inside that envelope.
#[derive(Debug)]
pub struct InnerData<T> {
    pub data: T,
}
/// A dormitory building.
#[derive(Debug)]
pub struct Partment {
    pub partment_id: String,
    pub partment_name: String,
    pub prartment_floor: Option<String>,
}

/// A floor of a building.
#[derive(Debug)]
pub struct Floor {
    pub floor_id: String,
    pub floor_name: String,
}

/// A dormitory room.
#[derive(Debug)]
pub struct Drom {
    pub drom_id: String,
    pub drom_name: String,
}

/// The electricity balance of a room.
#[derive(Debug)]
pub struct DromElec {
    pub time: String,
    pub surplus: String,
    pub v_total: String,
}

} // verus!
