//! Lighting configuration: the scene's ambient light and a bounded list of
//! lights.
//!
//! The light values themselves (positions, colours, intensities) are carried
//! as they are; the configuration decides which lights are kept.
use vstd::prelude::*;

verus! {

/// Different types of light sources.
#[derive(Debug, Clone, Copy, PartialEq, Eq, Structural)]
pub enum LightType {
    Directional,
    Point,
    Spot,
}

/// Lighting configuration for a scene.
pub struct LightingConfig<A, L> {
    pub ambient: A,
    pub lights: Vec<L>,
    pub max_lights: usize,
}

impl<A, L> LightingConfig<A, L> {
    /// A configuration with the given ambient light, no lights, and room for
    /// 16 lights.
    pub fn new(ambient: A) -> (c: Self)
        ensures
            c.ambient == ambient,
            c.lights@ == Seq::<L>::empty(),
            c.max_lights == 16,
    {
        LightingConfig { ambient, lights: Vec::new(), max_lights: 16 }
    }

    /// Add a light when there is room for it; `true` when it was added.
    pub fn add_light(&mut self, light: L) -> (added: bool)
        ensures
            added == (old(self).lights@.len() < old(self).max_lights),
            final(self).lights@ == (if added { old(self).lights@.push(light) } else { old(self).lights@ }),
            final(self).ambient == old(self).ambient,
            final(self).max_lights == old(self).max_lights,
    {
        if self.lights.len() < self.max_lights {
            self.lights.push(light);
            true
        } else {
            false
        }
    }

    /// Remove the light at `index`, handing it back; the others keep their
    /// order.
    pub fn remove_light(&mut self, index: usize) -> (r: Option<L>)
        ensures
            match r {
                Some(l) => index < old(self).lights@.len() && l == old(self).lights@[index as int]
                    && final(self).lights@ == old(self).lights@.remove(index as int),
                None => index >= old(self).lights@.len() && final(self).lights@ == old(self).lights@,
            },
            final(self).ambient == old(self).ambient,
            final(self).max_lights == old(self).max_lights,
    {
        if index < self.lights.len() {
            Some(self.lights.remove(index))
        } else {
            None
        }
    }

    /// The number of lights, as a `u32` (wrapping past `u32::MAX`).
    pub fn light_count(&self) -> (n: u32)
        ensures
            n == self.lights@.len() as u32,
    {
        self.lights.len() as u32
    }
}

/// Adding lights never takes a configuration past its room: once it holds
/// no more lights than `max_lights`, `add_light` keeps it so.
pub proof fn law_lights_bounded<A, L>(before: LightingConfig<A, L>, after: LightingConfig<A, L>, light: L)
    requires
        before.lights@.len() <= before.max_lights,
        after.max_lights == before.max_lights,
        after.lights@ == (if before.lights@.len() < before.max_lights {
            before.lights@.push(light)
        } else {
            before.lights@
        }),
    ensures
        after.lights@.len() <= after.max_lights,
{
}

} // verus!
