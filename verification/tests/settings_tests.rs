use bevycube::menu::MenuAction;
use bevycube::settings::{GlobalSettings, SettingsCache, UNSET};

fn defaults() -> GlobalSettings {
    GlobalSettings::default()
}

#[test]
fn default_settings() {
    let s = defaults();
    assert_eq!(s.anisotropy, 2);
    assert_eq!(s.mipmaps, 1);
    assert_eq!(s.asset_resolution, 1);
    assert_eq!(s.mesh_mode, 0);
    assert_eq!(s.mesh_dimension, 20);
}

#[test]
fn unset_settings() {
    let s = GlobalSettings::unset();
    assert_eq!(s.anisotropy, UNSET);
    assert_eq!(s.mipmaps, 1111111111);
    assert_eq!(s.mesh_dimension, UNSET);
}

#[test]
fn anisotropy_above_one_turns_mipmaps_on() {
    let mut s = defaults();
    s.apply(&MenuAction::SetMipmaps(0));
    assert_eq!(s.mipmaps, 0);
    assert_eq!(s.anisotropy, 1);
    s.apply(&MenuAction::SetAnisotropy(16));
    assert_eq!(s.anisotropy, 16);
    assert_eq!(s.mipmaps, 1);
}

#[test]
fn anisotropy_one_keeps_mipmaps() {
    let mut s = defaults();
    s.apply(&MenuAction::SetMipmaps(0));
    s.apply(&MenuAction::SetAnisotropy(1));
    assert_eq!(s.anisotropy, 1);
    assert_eq!(s.mipmaps, 0);
}

#[test]
fn mipmaps_on_keeps_anisotropy() {
    let mut s = defaults();
    s.apply(&MenuAction::SetAnisotropy(8));
    s.apply(&MenuAction::SetMipmaps(1));
    assert_eq!(s.anisotropy, 8);
    assert_eq!(s.mipmaps, 1);
}

#[test]
fn plain_settings_actions() {
    let mut s = defaults();
    s.apply(&MenuAction::SetResolution(2));
    s.apply(&MenuAction::SetMeshMode(1));
    s.apply(&MenuAction::SetMeshDimension(160));
    assert_eq!(
        s,
        GlobalSettings { anisotropy: 2, mipmaps: 1, asset_resolution: 2, mesh_mode: 1, mesh_dimension: 160 }
    );
}

#[test]
fn other_actions_leave_settings() {
    let mut s = defaults();
    s.apply(&MenuAction::Back);
    s.apply(&MenuAction::OpenUrl("https://wbtek.net/"));
    s.apply(&MenuAction::Execute(bevycube::menu::MenuView::Ocean));
    assert_eq!(s, defaults());
}

#[test]
fn law_filtering_rule_on_click_sequence() {
    let mut s = defaults();
    let actions = [
        MenuAction::SetMipmaps(0),
        MenuAction::SetAnisotropy(4),
        MenuAction::SetMipmaps(0),
        MenuAction::SetAnisotropy(0),
        MenuAction::SetMipmaps(1),
        MenuAction::SetAnisotropy(16),
    ];
    for a in actions.iter() {
        s.apply(a);
        assert!(s.mipmaps != 0 || s.anisotropy <= 1);
    }
}

#[test]
fn ocean_sync_first_run_rebuilds_and_shows_mode() {
    let mut cache = SettingsCache::new();
    let s = defaults();
    let u = cache.sync_ocean(&s, [false, false, false]);
    assert_eq!(u.respawn, Some(20));
    assert_eq!(u.layers, vec![Some(0), Some(1), Some(1)]);
}

#[test]
fn law_ocean_sync_second_run_does_nothing() {
    let mut cache = SettingsCache::new();
    let s = defaults();
    let _ = cache.sync_ocean(&s, [false, false, false]);
    let u = cache.sync_ocean(&s, [true, true, true]);
    assert_eq!(u.respawn, None);
    assert_eq!(u.layers, vec![None, None, None]);
}

#[test]
fn ocean_sync_mode_change_moves_layers() {
    let mut cache = SettingsCache::new();
    let mut s = defaults();
    let _ = cache.sync_ocean(&s, [false, false, false]);
    s.mesh_mode = 2;
    let u = cache.sync_ocean(&s, [true, false, true]);
    assert_eq!(u.respawn, None);
    assert_eq!(u.layers, vec![Some(1), None, Some(0)]);
}

#[test]
fn ocean_sync_mode_change_without_meshes_waits() {
    let mut cache = SettingsCache::new();
    let mut s = defaults();
    let _ = cache.sync_ocean(&s, [false, false, false]);
    s.mesh_mode = 1;
    let u = cache.sync_ocean(&s, [false, false, false]);
    assert_eq!(u.layers, vec![None, None, None]);
    let u = cache.sync_ocean(&s, [true, true, true]);
    assert_eq!(u.layers, vec![Some(1), Some(0), Some(1)]);
}

#[test]
fn ocean_sync_dimension_change_rebuilds_and_relayers() {
    let mut cache = SettingsCache::new();
    let mut s = defaults();
    s.mesh_mode = 1;
    let _ = cache.sync_ocean(&s, [false, false, false]);
    s.mesh_dimension = 80;
    let u = cache.sync_ocean(&s, [true, true, true]);
    assert_eq!(u.respawn, Some(80));
    assert_eq!(u.layers, vec![Some(1), Some(0), Some(1)]);
}

#[test]
fn roundel_sync_first_run_sets_all() {
    let mut cache = SettingsCache::default();
    let u = cache.sync_roundel(&defaults());
    assert_eq!(u.anisotropy_clamp, Some(2));
    assert_eq!(u.mipmap_linear, Some(true));
    assert_eq!(u.lod_min_clamp, Some(1));
}

#[test]
fn law_roundel_sync_second_run_does_nothing() {
    let mut cache = SettingsCache::default();
    let _ = cache.sync_roundel(&defaults());
    let u = cache.sync_roundel(&defaults());
    assert_eq!(u.anisotropy_clamp, None);
    assert_eq!(u.mipmap_linear, None);
    assert_eq!(u.lod_min_clamp, None);
}

#[test]
fn roundel_sync_only_changed_fields() {
    let mut cache = SettingsCache::default();
    let mut s = defaults();
    let _ = cache.sync_roundel(&s);
    s.mipmaps = 0;
    s.mesh_mode = 2;
    let u = cache.sync_roundel(&s);
    assert_eq!(u.anisotropy_clamp, None);
    assert_eq!(u.mipmap_linear, Some(false));
    assert_eq!(u.lod_min_clamp, None);
}

#[test]
fn roundel_sync_truncates_anisotropy_to_u16() {
    let mut cache = SettingsCache::default();
    let mut s = defaults();
    s.anisotropy = 70000;
    s.mipmaps = 7;
    let u = cache.sync_roundel(&s);
    assert_eq!(u.anisotropy_clamp, Some(4464));
    assert_eq!(u.mipmap_linear, Some(false));
}
