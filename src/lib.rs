//! Site-map viewer core: the dual-mode camera controller and the
//! construction of a positioned scene from a site map.

pub mod camera;
pub mod layout;
pub mod site_map;

use vstd::prelude::*;

verus! {

} // verus!
