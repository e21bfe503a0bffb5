use vstd::prelude::*;

use crate::menu::{category_of, marks_setting, MenuAction};
use crate::history::ViewHistory;
use crate::ocean_grid::{border_zeroed, cell, OceanGrid};
use crate::settings::{
    ocean_relayers,
    ocean_respawns,
    ocean_mesh_ready,
    ocean_seen_after,
    roundel_seen_after,
    GlobalSettings,
};
use crate::tables::{ocean_items, roundel_items};

verus! {

/// Mipmaps off come with anisotropic filtering of at most 1.
pub open spec fn filtering_consistent(s: GlobalSettings) -> bool {
    s.mipmaps == 0 ==> s.anisotropy <= 1
}

/// Anisotropic filtering never runs without mipmaps: the default settings keep
/// the rule, and every menu click keeps it.
pub proof fn law_filtering_needs_mipmaps(s: GlobalSettings, action: MenuAction)
    requires
        filtering_consistent(s),
    ensures
        filtering_consistent(s.after_action(action)),
        filtering_consistent(
            GlobalSettings {
                anisotropy: 2,
                mipmaps: 1,
                asset_resolution: 1,
                mesh_mode: 0,
                mesh_dimension: 20,
            },
        ),
{
}

/// A settings item, once clicked, is the choice that the settings hold in its category,
/// so the category's diamond can sit on it.
pub proof fn law_clicked_choice_is_marked(s: GlobalSettings, action: MenuAction)
    requires
        category_of(action) > 0,
    ensures
        marks_setting(action, action, s.after_action(action)),
{
}

/// In the ocean and roundel menus, clicking a settings item puts the diamond of its
/// category on that very item: it is the first item that the new settings mark.
pub proof fn law_diamond_follows_click(s: GlobalSettings, i: int)
    ensures
        0 <= i < ocean_items().len() && category_of(ocean_items()[i].action) > 0 ==> {
            let a = ocean_items()[i].action;
            &&& marks_setting(a, a, s.after_action(a))
            &&& forall|j: int|
                0 <= j < ocean_items().len() && j != i ==> !marks_setting(
                    #[trigger] ocean_items()[j].action,
                    a,
                    s.after_action(a),
                )
        },
        0 <= i < roundel_items().len() && category_of(roundel_items()[i].action) > 0 ==> {
            let a = roundel_items()[i].action;
            &&& marks_setting(a, a, s.after_action(a))
            &&& forall|j: int|
                0 <= j < roundel_items().len() && j != i ==> !marks_setting(
                    #[trigger] roundel_items()[j].action,
                    a,
                    s.after_action(a),
                )
        },
{
}

/// The roundel sampler sync acts once on a change: run again on the same settings,
/// it finds nothing that differs, and what it has seen stays as it is.
pub proof fn law_roundel_sync_settles(last: GlobalSettings, s: GlobalSettings)
    ensures
        ({
            let seen = roundel_seen_after(last, s);
            &&& seen.anisotropy == s.anisotropy
            &&& seen.mipmaps == s.mipmaps
            &&& seen.asset_resolution == s.asset_resolution
            &&& roundel_seen_after(seen, s) == seen
        }),
{
}

/// The ocean sync acts once on a change: once some ocean mesh exists after it, a
/// second run on the same settings neither rebuilds nor moves a mesh, whatever meshes exist.
pub proof fn law_ocean_sync_settles(last: GlobalSettings, s: GlobalSettings, present: Seq<bool>)
    requires
        exists|i: int| 0 <= i < 3 && ocean_mesh_ready(last, s, present, i),
    ensures
        ({
            let seen = ocean_seen_after(last, s, present);
            &&& !ocean_respawns(seen, s)
            &&& !ocean_relayers(seen, s)
        }),
{
}

/// Clearing the border twice gives what clearing it once gave.
pub proof fn law_zap_edges_idempotent<T>(side: nat, a: Seq<T>, b: Seq<T>, c: Seq<T>, zero: T)
    requires
        side >= 1,
        a.len() == side * side,
        border_zeroed(side, a, b, zero),
        border_zeroed(side, b, c, zero),
    ensures
        c == b,
{
    assert forall|i: int| 0 <= i < c.len() implies c[i] == b[i] by {
        vstd::arithmetic::div_mod::lemma_fundamental_div_mod(i, side as int);
        vstd::arithmetic::div_mod::lemma_mod_bound(i, side as int);
        vstd::arithmetic::div_mod::lemma_div_pos_is_pos(i, side as int);
        assert(i / (side as int) < side) by {
            vstd::arithmetic::div_mod::lemma_div_by_multiple(side as int, side as int);
            vstd::arithmetic::div_mod::lemma_div_by_multiple_is_strongly_ordered(
                i,
                (side * side) as int,
                side as int,
                side as int,
            );
        }
        assert(i == cell(side, i / (side as int), i % (side as int))) by {
            vstd::arithmetic::mul::lemma_mul_is_commutative(side as int, i / (side as int));
        }
    }
    assert(c =~= b);
}

/// Swapping the buffers twice gives back the grid as it was.
pub proof fn law_swap_twice<T>(g0: OceanGrid<T>, g1: OceanGrid<T>, g2: OceanGrid<T>)
    requires
        g1.side_len() == g0.side_len(),
        g1.current_cells() == g0.next_cells(),
        g1.next_cells() == g0.current_cells(),
        g2.side_len() == g1.side_len(),
        g2.current_cells() == g1.next_cells(),
        g2.next_cells() == g1.current_cells(),
    ensures
        g2.side_len() == g0.side_len(),
        g2.current_cells() == g0.current_cells(),
        g2.next_cells() == g0.next_cells(),
{
}

/// "Back" after a menu request that moved the camera returns the view the request
/// left, and the history is again what it was before the request.
pub proof fn law_back_returns_left_view<T>(
    h0: ViewHistory<T>,
    h1: ViewHistory<T>,
    h2: ViewHistory<T>,
    left: T,
    back: Option<T>,
)
    requires
        h1.views() == h0.views().push(left),
        h1.views().len() > 0 ==> back == Some(h1.views().last()) && h2.views()
            == h1.views().drop_last(),
        h1.views().len() == 0 ==> back is None && h2.views() == h1.views(),
    ensures
        back == Some(left),
        h2.views() == h0.views(),
{
    assert(h0.views().push(left).drop_last() =~= h0.views());
}

} // verus!
