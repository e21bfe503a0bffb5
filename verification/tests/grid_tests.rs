use bevycube::ocean_grid::OceanGrid;

fn numbered(side: usize) -> OceanGrid<f32> {
    let mut g = OceanGrid::new(side, 0.0f32);
    for i in 0..side * side {
        g.set_current(i, (i + 1) as f32);
        g.set_next(i, -((i + 1) as f32));
    }
    g
}

fn current(g: &OceanGrid<f32>) -> Vec<f32> {
    let n = g.size() * g.size();
    (0..n).map(|i| *g.current_at(i)).collect()
}

fn next(g: &OceanGrid<f32>) -> Vec<f32> {
    let n = g.size() * g.size();
    (0..n).map(|i| *g.next_at(i)).collect()
}

#[test]
fn new_grid_is_filled() {
    let g = OceanGrid::new(3, 0.5f32);
    assert_eq!(g.size(), 3);
    assert_eq!(current(&g), vec![0.5; 9]);
    assert_eq!(next(&g), vec![0.5; 9]);
}

#[test]
fn empty_grid() {
    let g = OceanGrid::new(0, 1.0f32);
    assert_eq!(g.size(), 0);
    assert_eq!(current(&g), Vec::<f32>::new());
}

#[test]
fn index_is_row_major() {
    let g = OceanGrid::new(5, 0u8);
    assert_eq!(g.index(0, 0), 0);
    assert_eq!(g.index(0, 4), 4);
    assert_eq!(g.index(2, 3), 13);
    assert_eq!(g.index(4, 4), 24);
}

#[test]
fn zap_edges_clears_border_only() {
    let mut g = numbered(4);
    g.zap_edges(0.0);
    assert_eq!(
        current(&g),
        vec![0.0, 0.0, 0.0, 0.0, 0.0, 6.0, 7.0, 0.0, 0.0, 10.0, 11.0, 0.0, 0.0, 0.0, 0.0, 0.0]
    );
    assert_eq!(next(&g)[5], -6.0);
    assert_eq!(next(&g)[0], -1.0);
}

#[test]
fn zap_edges_small_grids() {
    let mut g = numbered(1);
    g.zap_edges(0.0);
    assert_eq!(current(&g), vec![0.0]);
    let mut g = numbered(2);
    g.zap_edges(0.0);
    assert_eq!(current(&g), vec![0.0; 4]);
    let mut g = numbered(3);
    g.zap_edges(0.0);
    assert_eq!(current(&g), vec![0.0, 0.0, 0.0, 0.0, 5.0, 0.0, 0.0, 0.0, 0.0]);
}

#[test]
fn law_zap_edges_twice_same_as_once() {
    let mut g = numbered(6);
    g.zap_edges(0.0);
    let once = current(&g);
    g.zap_edges(0.0);
    assert_eq!(current(&g), once);
}

#[test]
fn swap_exchanges_buffers() {
    let mut g = numbered(2);
    g.swap();
    assert_eq!(current(&g), vec![-1.0, -2.0, -3.0, -4.0]);
    assert_eq!(next(&g), vec![1.0, 2.0, 3.0, 4.0]);
}

#[test]
fn law_swap_twice_restores() {
    let mut g = numbered(3);
    let c = current(&g);
    let n = next(&g);
    g.swap();
    g.swap();
    assert_eq!(current(&g), c);
    assert_eq!(next(&g), n);
}

#[test]
fn set_writes_one_cell() {
    let mut g = OceanGrid::new(2, 0i32);
    g.set_current(3, 7);
    g.set_next(0, -7);
    assert_eq!(*g.current_at(3), 7);
    assert_eq!(*g.current_at(0), 0);
    assert_eq!(*g.next_at(0), -7);
    assert_eq!(*g.next_at(3), 0);
}
