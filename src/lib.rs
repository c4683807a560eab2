//! Bookkeeping and decision rules for terrestrial laser scanning projects.
//!
//! A project holds scan positions, each of which holds scans and photographs. The geometry that
//! relates those frames is carried as opaque transform and camera values: the library keeps them,
//! looks them up by name, checks the configuration that holds them, and decides which photograph
//! answers a query and whether a projected pixel lies on its raster.

mod error;
mod layout;
mod lookup;
mod pixel;
mod project;
mod scan_position;

pub use error::Error;
pub use layout::{below_scans_dir, scan_position_name};
pub use lookup::{first_hit, first_hit_from, first_hit_of, lemma_first_hit_is_earliest,
    lemma_first_in_load_order};
pub use pixel::{in_raster, ImageSize, Pixel};
pub use project::Project;
pub use scan_position::{Image, Scan, ScanPosition};
