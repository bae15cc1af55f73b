use vstd::prelude::*;
use vstd::std_specs::convert::FromSpecImpl;


verus! {

pub struct CreateMapRequest {
    pub name: String,
}

pub struct MapResponse {
    pub id: i32,
    pub name: String,
}

impl From<crate::entity::map::Model> for MapResponse {
    fn from(m: crate::entity::map::Model) -> (res: Self) {
        MapResponse { id: m.id, name: m.name }
    }
}

impl FromSpecImpl<crate::entity::map::Model> for MapResponse {
    open spec fn obeys_from_spec() -> bool {
        true
    }

    open spec fn from_spec(m: crate::entity::map::Model) -> MapResponse {
        MapResponse { id: m.id, name: m.name }
    }
}

/// The map as an executor sees it in a claimed task.
pub struct MapExecutionDto {
    pub id: i32,
    pub name: String,
}

impl From<crate::entity::map::Model> for MapExecutionDto {
    fn from(m: crate::entity::map::Model) -> (res: Self) {
        MapExecutionDto { id: m.id, name: m.name }
    }
}

impl FromSpecImpl<crate::entity::map::Model> for MapExecutionDto {
    open spec fn obeys_from_spec() -> bool {
        true
    }

    open spec fn from_spec(m: crate::entity::map::Model) -> MapExecutionDto {
        MapExecutionDto { id: m.id, name: m.name }
    }
}

} // verus!
