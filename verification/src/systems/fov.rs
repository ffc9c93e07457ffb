//! Recomputing fields of view.

use vstd::prelude::*;
use crate::components::FieldOfView;
use crate::geometry::Point;

verus! {

/// The field-of-view system, for one entity: a field of view that must be
/// computed again takes the tiles now in view (`in_view`, computed from the
/// entity's position, its radius and the map's opaque tiles) and is up to
/// date afterwards; an up-to-date one stays as it is. The tiles in view
/// come as a set: none twice.
pub fn fov(view: &mut FieldOfView, in_view: Vec<Point>)
    requires
        in_view@.no_duplicates(),
    ensures
        old(view).is_dirty || old(view).wf() ==> final(view).wf(),
        old(view).is_dirty ==> final(view).visible_tiles@ == in_view@ && final(view).radius == old(view).radius
            && !final(view).is_dirty,
        !old(view).is_dirty ==> *final(view) == *old(view),
{
    if view.is_dirty {
        view.visible_tiles = in_view;
        view.is_dirty = false;
    }
}

} // verus!
