//! Descriptions of the assets a scene needs: plain values that an asset
//! loader outside this crate turns into downloads.
use vstd::prelude::*;

verus! {

/// One named asset to fetch from a path.
pub struct RequestedEntity {
    pub path: String,
    pub name: String,
}

impl RequestedEntity {
    /// The request for the asset at `path`, to be stored under `name`.
    pub fn new(path: &str, name: &str) -> (r: RequestedEntity)
        ensures
            r.path@ == path@,
            r.name@ == name@,
    {
        RequestedEntity { path: path.to_owned(), name: name.to_owned() }
    }
}

/// A resource a scene asks its loader for: an image or a text.
pub enum ResourceRequest {
    Image(RequestedEntity),
    Text(RequestedEntity),
}

impl ResourceRequest {
    /// A request for the image at `path`, stored under `name`.
    pub fn image(path: &str, name: &str) -> (r: ResourceRequest)
        ensures
            r matches ResourceRequest::Image(e) && e.path@ == path@ && e.name@ == name@,
    {
        ResourceRequest::Image(RequestedEntity::new(path, name))
    }

    /// A request for the text at `path`, stored under `name`.
    pub fn text(path: &str, name: &str) -> (r: ResourceRequest)
        ensures
            r matches ResourceRequest::Text(e) && e.path@ == path@ && e.name@ == name@,
    {
        ResourceRequest::Text(RequestedEntity::new(path, name))
    }
}

} // verus!
