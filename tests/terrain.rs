use terrain_scene::terrain::{TerrainError, TerrainGrid, RESTART_INDEX, TERRAIN_SIZE};

fn grid(n: usize) -> TerrainGrid {
    TerrainGrid::new(n).expect("valid grid size")
}

#[test]
fn grid_of_four_counts() {
    let g = grid(4);
    assert_eq!(g.vertex_count(), 16);
    assert_eq!(g.index_count(), 3 * 2 * 4 + 2);
    let indices = g.strip_indices();
    assert_eq!(indices.len(), 26);
    assert_eq!(indices.iter().filter(|&&i| i == RESTART_INDEX).count(), 2);
}

#[test]
fn grid_of_four_exact_sequence() {
    let m = RESTART_INDEX;
    let expected: Vec<u32> = vec![
        4, 0, 5, 1, 6, 2, 7, 3, m, //
        7, 11, 6, 10, 5, 9, 4, 8, m, //
        12, 8, 13, 9, 14, 10, 15, 11,
    ];
    assert_eq!(grid(4).strip_indices(), expected);
}

#[test]
fn smallest_grid_has_no_restart() {
    let g = grid(2);
    assert_eq!(g.strip_indices(), vec![2, 0, 3, 1]);
    assert_eq!(g.index_count(), 4);
}

#[test]
fn grid_of_three() {
    assert_eq!(
        grid(3).strip_indices(),
        vec![3, 0, 4, 1, 5, 2, RESTART_INDEX, 5, 8, 4, 7, 3, 6]
    );
}

#[test]
fn index_count_formula_holds_for_many_sizes() {
    for n in 2..40usize {
        let g = grid(n);
        let indices = g.strip_indices();
        assert_eq!(indices.len(), (n - 1) * 2 * n + (n - 2));
        assert_eq!(indices.len(), g.index_count());
        let restarts = indices.iter().filter(|&&i| i == RESTART_INDEX).count();
        assert_eq!(restarts, n - 2);
        assert!(indices
            .iter()
            .all(|&i| i == RESTART_INDEX || (i as usize) < n * n));
    }
}

#[test]
fn every_cell_is_covered_once() {
    let n = 6usize;
    let indices = grid(n).strip_indices();
    let mut covered = vec![0u32; (n - 1) * (n - 1)];
    for strip in indices.split(|&i| i == RESTART_INDEX) {
        assert_eq!(strip.len(), 2 * n);
        for t in 0..strip.len() - 2 {
            let tri = [strip[t] as usize, strip[t + 1] as usize, strip[t + 2] as usize];
            assert!(tri[0] != tri[1] && tri[1] != tri[2] && tri[0] != tri[2]);
            let row = tri.iter().map(|v| v / n).min().unwrap();
            let col = tri.iter().map(|v| v % n).min().unwrap();
            for v in tri {
                assert!(v / n == row || v / n == row + 1);
                assert!(v % n == col || v % n == col + 1);
            }
            covered[row * (n - 1) + col] += 1;
        }
    }
    assert!(covered.iter().all(|&c| c == 2));
}

#[test]
fn scene_grid_sizes() {
    let g = grid(TERRAIN_SIZE);
    assert_eq!(g.size(), 512);
    assert_eq!(g.vertex_count(), 262_144);
    assert_eq!(g.index_count(), 511 * 512 * 2 + 510);
    assert_eq!(g.index_count(), 523_774);
    assert_eq!(g.vertex_buffer_size(), 262_144 * 12);
    assert_eq!(g.index_buffer_size(), 523_774 * 4);
    assert_eq!(g.strip_indices().len(), 523_774);
}

#[test]
fn zero_and_one_are_rejected() {
    assert!(matches!(TerrainGrid::new(0), Err(TerrainError::GridTooSmall)));
    assert!(matches!(TerrainGrid::new(1), Err(TerrainError::GridTooSmall)));
}

#[test]
fn oversized_grid_is_rejected() {
    assert!(matches!(TerrainGrid::new(65_536), Err(TerrainError::GridTooLarge)));
    assert!(matches!(TerrainGrid::new(usize::MAX), Err(TerrainError::GridTooLarge)));
    assert_eq!(TerrainGrid::new(65_535).map(|g| g.size()), Ok(65_535));
}

#[test]
fn smallest_grid_buffer_sizes() {
    let g = grid(2);
    assert_eq!(g.vertex_buffer_size(), 48);
    assert_eq!(g.index_buffer_size(), 16);
}

#[test]
fn vertex_index_is_row_major() {
    let g = grid(4);
    assert_eq!(g.vertex_index(0, 0), 0);
    assert_eq!(g.vertex_index(2, 3), 11);
    assert_eq!(g.vertex_index(3, 3), 15);
    assert_eq!(grid(TERRAIN_SIZE).vertex_index(1, 0), 512);
}
