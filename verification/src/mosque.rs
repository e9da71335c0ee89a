//! The mosque directory entry and search-result types.

use vstd::prelude::*;

verus! {

/// One mosque of the directory. Coordinates are stored in microdegrees so
/// that positions carry exactly through contracts.
#[derive(Debug)]
pub struct Mosque {
    pub id: String,
    pub name: String,
    pub address: Option<String>,
    pub city: Option<String>,
    pub country: Option<String>,
    pub latitude: Option<i64>,
    pub longitude: Option<i64>,
    pub is_favorite: bool,
    pub last_accessed: Option<i64>,
}

impl Mosque {
    pub fn new(id: String, name: String) -> (r: Self)
        ensures
            r.id == id,
            r.name == name,
            r.address is None,
            r.city is None,
            r.country is None,
            r.latitude is None,
            r.longitude is None,
            r.is_favorite == false,
            r.last_accessed is None,
    {
        Mosque {
            id,
            name,
            address: None,
            city: None,
            country: None,
            latitude: None,
            longitude: None,
            is_favorite: false,
            last_accessed: None,
        }
    }
}

fn clone_opt_string(s: &Option<String>) -> (r: Option<String>)
    ensures
        r == *s,
{
    match s {
        Some(v) => Some(v.clone()),
        None => None,
    }
}

/// Copies a mosque field by field; the result equals the original.
pub fn clone_mosque(m: &Mosque) -> (r: Mosque)
    ensures
        r == *m,
{
    Mosque {
        id: m.id.clone(),
        name: m.name.clone(),
        address: clone_opt_string(&m.address),
        city: clone_opt_string(&m.city),
        country: clone_opt_string(&m.country),
        latitude: m.latitude,
        longitude: m.longitude,
        is_favorite: m.is_favorite,
        last_accessed: m.last_accessed,
    }
}

/// A search's outcome: the merged result set and its size.
#[derive(Debug)]
pub struct MosqueSearchResult {
    pub mosques: Vec<Mosque>,
    pub total: usize,
}

} // verus!
