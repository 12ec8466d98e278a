use team_heist_tactics::load_map::tile_1a;
use team_heist_tactics::types::Tile;

#[test]
fn tile_rotation_identity() {
    let t = tile_1a();
    let m = t.to_matrix();
    let mut m2 = Tile::rotate_matrix_clockwise(&m);
    for _ in 0..3 {
        m2 = Tile::rotate_matrix_clockwise(&m2);
    }
    let u = Tile::from_matrix(m2, t.name.clone(), t.position, 0);
    assert_eq!(t, u);
}
