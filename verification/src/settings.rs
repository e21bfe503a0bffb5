use vstd::prelude::*;

use crate::menu::MenuAction;

verus! {

/// The value that no setting takes: a cache holding it in a field has seen no value there.
pub const UNSET: u32 = 1111111111;

/// The user's rendering settings.
#[derive(Clone, Copy, Debug, PartialEq, Eq, Structural)]
pub struct GlobalSettings {
    /// Anisotropic filtering: 1, 2, 4, 8 or 16.
    pub anisotropy: u32,
    /// Mipmaps: 0 off, 1 on.
    pub mipmaps: u32,
    /// Texture resolution: 0 high, 1 medium, 2 low.
    pub asset_resolution: u32,
    /// Ocean mesh: 0 solid, 1 wire, 2 points.
    pub mesh_mode: u32,
    /// Ocean cells per side: 5, 10, 20, ...
    pub mesh_dimension: u32,
}

impl Default for GlobalSettings {
    fn default() -> (s: Self)
        ensures
            s == (GlobalSettings {
                anisotropy: 2,
                mipmaps: 1,
                asset_resolution: 1,
                mesh_mode: 0,
                mesh_dimension: 20,
            }),
    {
        GlobalSettings { anisotropy: 2, mipmaps: 1, asset_resolution: 1, mesh_mode: 0, mesh_dimension: 20 }
    }
}

impl GlobalSettings {
    /// Settings with every field `UNSET`.
    pub open spec fn unset_spec() -> GlobalSettings {
        GlobalSettings {
            anisotropy: UNSET,
            mipmaps: UNSET,
            asset_resolution: UNSET,
            mesh_mode: UNSET,
            mesh_dimension: UNSET,
        }
    }

    /// Settings with every field `UNSET`, equal to no settings that a user chooses.
    pub fn unset() -> (s: Self)
        ensures
            s == Self::unset_spec(),
    {
        GlobalSettings {
            anisotropy: UNSET,
            mipmaps: UNSET,
            asset_resolution: UNSET,
            mesh_mode: UNSET,
            mesh_dimension: UNSET,
        }
    }

    /// The settings after a menu item with `action` was clicked. Choosing anisotropic
    /// filtering above 1 switches mipmaps on; switching mipmaps off sets anisotropy to 1.
    pub open spec fn after_action(self, action: MenuAction) -> GlobalSettings {
        match action {
            MenuAction::SetAnisotropy(v) => GlobalSettings {
                anisotropy: v,
                mipmaps: if v > 1 {
                    1
                } else {
                    self.mipmaps
                },
                ..self
            },
            MenuAction::SetMipmaps(v) => GlobalSettings {
                mipmaps: v,
                anisotropy: if v == 0 {
                    1
                } else {
                    self.anisotropy
                },
                ..self
            },
            MenuAction::SetResolution(v) => GlobalSettings { asset_resolution: v, ..self },
            MenuAction::SetMeshMode(v) => GlobalSettings { mesh_mode: v, ..self },
            MenuAction::SetMeshDimension(v) => GlobalSettings { mesh_dimension: v, ..self },
            _ => self,
        }
    }

    /// Applies the settings part of a clicked menu item; other actions leave the settings as they are.
    pub fn apply(&mut self, action: &MenuAction)
        ensures
            *final(self) == old(self).after_action(*action),
    {
        match action {
            MenuAction::SetAnisotropy(val) => {
                self.anisotropy = *val;
                if *val > 1 {
                    self.mipmaps = 1;
                }
            },
            MenuAction::SetMipmaps(val) => {
                self.mipmaps = *val;
                if *val == 0 {
                    self.anisotropy = 1;
                }
            },
            MenuAction::SetResolution(val) => self.asset_resolution = *val,
            MenuAction::SetMeshMode(val) => self.mesh_mode = *val,
            MenuAction::SetMeshDimension(val) => self.mesh_dimension = *val,
            _ => {},
        }
    }
}

/// Whether the ocean meshes get rebuilt: the cell count differs from the one last acted on.
pub open spec fn ocean_respawns(last: GlobalSettings, s: GlobalSettings) -> bool {
    s.mesh_dimension != last.mesh_dimension
}

/// What the ocean sync compares the mesh mode with: after a rebuild, nothing but
/// the new cell count counts as seen.
pub open spec fn ocean_base(last: GlobalSettings, s: GlobalSettings) -> GlobalSettings {
    if ocean_respawns(last, s) {
        GlobalSettings { mesh_dimension: s.mesh_dimension, ..GlobalSettings::unset_spec() }
    } else {
        last
    }
}

/// Mesh `i` (0 solid, 1 wire, 2 points) exists once the sync has run: it existed
/// before, or the sync rebuilt all three.
pub open spec fn ocean_mesh_ready(last: GlobalSettings, s: GlobalSettings, present: Seq<bool>, i: int) -> bool {
    ocean_respawns(last, s) || present[i]
}

/// Whether the sync moves the ocean meshes between render layers.
pub open spec fn ocean_relayers(last: GlobalSettings, s: GlobalSettings) -> bool {
    s.mesh_mode != ocean_base(last, s).mesh_mode
}

/// The render layer given to mesh `i`, if any: layer 0 (shown) for the mesh of the
/// chosen mode, layer 1 (hidden) for the others.
pub open spec fn ocean_layer(last: GlobalSettings, s: GlobalSettings, present: Seq<bool>, i: int) -> Option<u32> {
    if ocean_relayers(last, s) && ocean_mesh_ready(last, s, present, i) {
        Some(if i == s.mesh_mode { 0u32 } else { 1u32 })
    } else {
        None
    }
}

/// The settings the ocean sync has acted on once it has run.
pub open spec fn ocean_seen_after(last: GlobalSettings, s: GlobalSettings, present: Seq<bool>) -> GlobalSettings {
    let base = ocean_base(last, s);
    if ocean_relayers(last, s) && exists|i: int| 0 <= i < 3 && ocean_mesh_ready(last, s, present, i) {
        GlobalSettings { mesh_mode: s.mesh_mode, ..base }
    } else {
        base
    }
}

/// The settings the roundel sampler sync has acted on once it has run.
pub open spec fn roundel_seen_after(last: GlobalSettings, s: GlobalSettings) -> GlobalSettings {
    GlobalSettings {
        anisotropy: s.anisotropy,
        mipmaps: s.mipmaps,
        asset_resolution: s.asset_resolution,
        ..last
    }
}

/// What the ocean sync asks of the scene.
pub struct OceanMeshUpdate {
    /// Rebuild the ocean grid and its meshes with this many cells per side.
    pub respawn: Option<u32>,
    /// For the solid, wire and point meshes in turn: the render layer to move it to, if any.
    pub layers: Vec<Option<u32>>,
}

/// What the roundel sync changes in the texture sampler.
pub struct SamplerUpdate {
    /// New anisotropy clamp.
    pub anisotropy_clamp: Option<u16>,
    /// New mipmap filter: linear when `true`, nearest when `false`.
    pub mipmap_linear: Option<bool>,
    /// New minimum level of detail.
    pub lod_min_clamp: Option<u32>,
}

/// The settings that a system last acted on, so that it acts only on changes.
pub struct SettingsCache {
    last: GlobalSettings,
}

impl Default for SettingsCache {
    fn default() -> (c: Self)
        ensures
            c.seen() == GlobalSettings::unset_spec(),
    {
        SettingsCache::new()
    }
}

impl SettingsCache {
    /// The settings acted on so far; `UNSET` in a field that has seen no value.
    pub closed spec fn seen(self) -> GlobalSettings {
        self.last
    }

    /// A cache that has seen nothing.
    pub fn new() -> (c: Self)
        ensures
            c.seen() == GlobalSettings::unset_spec(),
    {
        SettingsCache { last: GlobalSettings::unset() }
    }

    /// Brings the ocean meshes in line with `s`. `present` tells which of the solid,
    /// wire and point meshes exist. A new cell count rebuilds all three meshes; a new
    /// mode (or a rebuild) shows the mesh of the chosen mode and hides the others.
    pub fn sync_ocean(&mut self, s: &GlobalSettings, present: [bool; 3]) -> (u: OceanMeshUpdate)
        ensures
            u.respawn == if ocean_respawns(old(self).seen(), *s) {
                Some(s.mesh_dimension)
            } else {
                None::<u32>
            },
            u.layers@.len() == 3,
            forall|i: int|
                0 <= i < 3 ==> #[trigger] u.layers@[i] == ocean_layer(old(self).seen(), *s, present@, i),
            final(self).seen() == ocean_seen_after(old(self).seen(), *s, present@),
    {
        let ghost last0 = self.last;
        let mut respawn: Option<u32> = None;
        let mut ready = present;
        if s.mesh_dimension != self.last.mesh_dimension {
            respawn = Some(s.mesh_dimension);
            self.last = GlobalSettings::unset();
            self.last.mesh_dimension = s.mesh_dimension;
            ready = [true, true, true];
        }
        let ghost base = self.last;
        assert(base == ocean_base(last0, *s));
        let mut layers: Vec<Option<u32>> = Vec::new();
        let relayer = s.mesh_mode != self.last.mesh_mode;
        let mut i: usize = 0;
        while i < 3
            invariant
                i <= 3,
                base == ocean_base(last0, *s),
                relayer == ocean_relayers(last0, *s),
                forall|j: int| 0 <= j < 3 ==> ready@[j] == ocean_mesh_ready(last0, *s, present@, j),
                layers@.len() == i,
                forall|j: int| 0 <= j < i ==> #[trigger] layers@[j] == ocean_layer(last0, *s, present@, j),
                self.last == if relayer && exists|j: int| 0 <= j < i && ocean_mesh_ready(last0, *s, present@, j) {
                    GlobalSettings { mesh_mode: s.mesh_mode, ..base }
                } else {
                    base
                },
            decreases 3 - i,
        {
            if relayer && ready[i] {
                let layer: u32 = if (i as u64) == (s.mesh_mode as u64) { 0 } else { 1 };
                layers.push(Some(layer));
                self.last.mesh_mode = s.mesh_mode;
            } else {
                layers.push(None);
            }
            proof {
                assert(layers@[i as int] == ocean_layer(last0, *s, present@, i as int));
            }
            i = i + 1;
        }
        OceanMeshUpdate { respawn, layers }
    }

    /// Brings the roundel texture sampler in line with `s`: each of anisotropy, mipmaps
    /// and resolution that differs from what was last acted on is updated.
    pub fn sync_roundel(&mut self, s: &GlobalSettings) -> (u: SamplerUpdate)
        ensures
            u.anisotropy_clamp == if s.anisotropy != old(self).seen().anisotropy {
                Some(s.anisotropy as u16)
            } else {
                None::<u16>
            },
            u.mipmap_linear == if s.mipmaps != old(self).seen().mipmaps {
                Some(s.mipmaps == 1)
            } else {
                None::<bool>
            },
            u.lod_min_clamp == if s.asset_resolution != old(self).seen().asset_resolution {
                Some(s.asset_resolution)
            } else {
                None::<u32>
            },
            final(self).seen() == roundel_seen_after(old(self).seen(), *s),
    {
        let mut u = SamplerUpdate { anisotropy_clamp: None, mipmap_linear: None, lod_min_clamp: None };
        if s.anisotropy != self.last.anisotropy {
            u.anisotropy_clamp = Some(s.anisotropy as u16);
            self.last.anisotropy = s.anisotropy;
        }
        if s.mipmaps != self.last.mipmaps {
            u.mipmap_linear = Some(s.mipmaps == 1);
            self.last.mipmaps = s.mipmaps;
        }
        if s.asset_resolution != self.last.asset_resolution {
            u.lod_min_clamp = Some(s.asset_resolution);
            self.last.asset_resolution = s.asset_resolution;
        }
        u
    }
}

} // verus!
