//! The overlay's texture atlas bookkeeping. The overlay hands down a set
//! of texture deltas per frame: additions replace atlas entries and
//! frees retire them — and a retired image is never destroyed at once,
//! because an in-flight frame may still sample it. Every image leaving
//! the atlas goes through the quarantine and is only handed out for
//! destruction after its frame countdown runs out.

use crate::texture::{ImageQuarantine, RetiredImage, TextureData};
use std::collections::HashMap;
use vstd::prelude::*;

verus! {

broadcast use vstd::std_specs::hash::group_hash_axioms;

/// The live overlay textures, keyed by the overlay's texture id.
pub struct GuiAtlas {
    pub image_map: HashMap<u64, TextureData>,
}

impl GuiAtlas {
    pub fn new() -> (r: GuiAtlas)
        ensures
            r.image_map@ == Map::<u64, TextureData>::empty(),
    {
        GuiAtlas { image_map: HashMap::new() }
    }

    /// Applies an add/replace texture delta. A replaced image enters the
    /// quarantine with the given frame countdown instead of being
    /// destroyed now.
    pub fn apply_texture_set(
        &mut self,
        id: u64,
        texture: TextureData,
        quarantine: &mut ImageQuarantine,
        frames: u32,
    )
        ensures
            final(self).image_map@ == old(self).image_map@.insert(id, texture),
            old(self).image_map@.contains_key(id) ==> final(quarantine).entries@ == old(
                quarantine,
            ).entries@.push(
                RetiredImage { texture: old(self).image_map@[id], frames_left: frames },
            ),
            !old(self).image_map@.contains_key(id) ==> *final(quarantine) == *old(quarantine),
    {
        let prev = self.image_map.insert(id, texture);
        match prev {
            Some(t) => quarantine.retire(t, frames),
            None => {},
        }
    }

    /// Applies a free texture delta: the image leaves the atlas and
    /// enters the quarantine with the given frame countdown. Freeing an
    /// unknown id does nothing.
    pub fn free_image(
        &mut self,
        id: u64,
        quarantine: &mut ImageQuarantine,
        frames: u32,
    ) -> (r: bool)
        ensures
            r == old(self).image_map@.contains_key(id),
            final(self).image_map@ == old(self).image_map@.remove(id),
            r ==> final(quarantine).entries@ == old(quarantine).entries@.push(
                RetiredImage { texture: old(self).image_map@[id], frames_left: frames },
            ),
            !r ==> *final(quarantine) == *old(quarantine),
    {
        match self.image_map.remove(&id) {
            Some(t) => {
                quarantine.retire(t, frames);
                true
            },
            None => false,
        }
    }
}

} // verus!
