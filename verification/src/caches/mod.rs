//! Binary caches: access, store paths, uploads, settings and upstreams.

pub mod access;
pub mod management;
pub mod narinfo;
pub mod nars;
pub mod paths;
pub mod roles;
pub mod upload;
pub mod upstreams;
