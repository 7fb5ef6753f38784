pub mod coordinator;
pub mod error;
pub mod generator;
pub mod geometry;
pub mod grid;
pub mod heightfield;
pub mod map_data;
pub mod material;
pub mod params;
pub mod provision;

pub use crate::coordinator::AssetHandles;
pub use crate::coordinator::Coordinator;
pub use crate::coordinator::Phase;
pub use crate::coordinator::Publication;
pub use crate::coordinator::StoreReply;
pub use crate::coordinator::Tracking;
pub use crate::error::MapError;
pub use crate::error::Parameter;
pub use crate::generator::generate;
pub use crate::generator::Generation;
pub use crate::geometry::GeometryBuffer;
pub use crate::geometry::Vertex;
pub use crate::map_data::ChangeObserver;
pub use crate::map_data::MapData;
pub use crate::material::MaterialParameters;
pub use crate::params::MapParams;
pub use crate::provision::provision;
pub use crate::provision::provision_default;
pub use crate::provision::Provisioned;
